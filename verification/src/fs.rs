//! An open filesystem as the cursors see it: one keyspace for each btree,
//! each an ordered run of records in which no position occurs twice.

use crate::bkey::{Bkey, Record};
use crate::errcode::ErrorCode;
use crate::pos::Bpos;
use crate::text::{chars_of, spells};
use vstd::prelude::*;
use vstd::string::*;

verus! {

/// The btrees of a filesystem.
#[derive(Clone, Copy, Debug, PartialEq, Eq, Structural, Hash)]
pub enum BtreeId {
    Extents,
    Inodes,
    Dirents,
    Xattrs,
    Alloc,
    Quotas,
    Stripes,
    Reflink,
    Subvolumes,
    Snapshots,
    Lru,
    Freespace,
    NeedDiscard,
    Backpointers,
    BucketGens,
}

/// The number of btrees.
pub const BTREE_ID_NR: usize = 15;

impl BtreeId {
    /// The number of the btree, in the order of the list above.
    pub open spec fn spec_index(&self) -> usize {
        match *self {
            BtreeId::Extents => 0,
            BtreeId::Inodes => 1,
            BtreeId::Dirents => 2,
            BtreeId::Xattrs => 3,
            BtreeId::Alloc => 4,
            BtreeId::Quotas => 5,
            BtreeId::Stripes => 6,
            BtreeId::Reflink => 7,
            BtreeId::Subvolumes => 8,
            BtreeId::Snapshots => 9,
            BtreeId::Lru => 10,
            BtreeId::Freespace => 11,
            BtreeId::NeedDiscard => 12,
            BtreeId::Backpointers => 13,
            BtreeId::BucketGens => 14,
        }
    }

    /// The number of the btree.
    #[verifier::when_used_as_spec(spec_index)]
    pub fn index(&self) -> (i: usize)
        ensures
            i == self.spec_index(),
            i < BTREE_ID_NR,
    {
        match self {
            BtreeId::Extents => 0,
            BtreeId::Inodes => 1,
            BtreeId::Dirents => 2,
            BtreeId::Xattrs => 3,
            BtreeId::Alloc => 4,
            BtreeId::Quotas => 5,
            BtreeId::Stripes => 6,
            BtreeId::Reflink => 7,
            BtreeId::Subvolumes => 8,
            BtreeId::Snapshots => 9,
            BtreeId::Lru => 10,
            BtreeId::Freespace => 11,
            BtreeId::NeedDiscard => 12,
            BtreeId::Backpointers => 13,
            BtreeId::BucketGens => 14,
        }
    }

    /// The name of the btree.
    pub open spec fn spec_name(&self) -> Seq<char> {
        match *self {
            BtreeId::Extents => "extents"@,
            BtreeId::Inodes => "inodes"@,
            BtreeId::Dirents => "dirents"@,
            BtreeId::Xattrs => "xattrs"@,
            BtreeId::Alloc => "alloc"@,
            BtreeId::Quotas => "quotas"@,
            BtreeId::Stripes => "stripes"@,
            BtreeId::Reflink => "reflink"@,
            BtreeId::Subvolumes => "subvolumes"@,
            BtreeId::Snapshots => "snapshots"@,
            BtreeId::Lru => "lru"@,
            BtreeId::Freespace => "freespace"@,
            BtreeId::NeedDiscard => "need_discard"@,
            BtreeId::Backpointers => "backpointers"@,
            BtreeId::BucketGens => "bucket_gens"@,
        }
    }

    /// The name of the btree.
    pub fn name(&self) -> (r: &'static str)
        ensures
            r@ == self.spec_name(),
    {
        match self {
            BtreeId::Extents => "extents",
            BtreeId::Inodes => "inodes",
            BtreeId::Dirents => "dirents",
            BtreeId::Xattrs => "xattrs",
            BtreeId::Alloc => "alloc",
            BtreeId::Quotas => "quotas",
            BtreeId::Stripes => "stripes",
            BtreeId::Reflink => "reflink",
            BtreeId::Subvolumes => "subvolumes",
            BtreeId::Snapshots => "snapshots",
            BtreeId::Lru => "lru",
            BtreeId::Freespace => "freespace",
            BtreeId::NeedDiscard => "need_discard",
            BtreeId::Backpointers => "backpointers",
            BtreeId::BucketGens => "bucket_gens",
        }
    }

    /// The btree that `s` names.
    pub fn from_str(s: &str) -> (r: Result<BtreeId, InvalidBtreeId>)
        ensures
            r matches Ok(id) ==> id.spec_name() == s@,
            r is Err ==> forall|id: BtreeId| id.spec_name() != s@,
    {
        let v = chars_of(s);
        let n = v.len();
        assert(v@.subrange(0, n as int) =~= s@);
        if spells(&v, 0, n, "extents") {
            return Ok(BtreeId::Extents);
        }
        if spells(&v, 0, n, "inodes") {
            return Ok(BtreeId::Inodes);
        }
        if spells(&v, 0, n, "dirents") {
            return Ok(BtreeId::Dirents);
        }
        if spells(&v, 0, n, "xattrs") {
            return Ok(BtreeId::Xattrs);
        }
        if spells(&v, 0, n, "alloc") {
            return Ok(BtreeId::Alloc);
        }
        if spells(&v, 0, n, "quotas") {
            return Ok(BtreeId::Quotas);
        }
        if spells(&v, 0, n, "stripes") {
            return Ok(BtreeId::Stripes);
        }
        if spells(&v, 0, n, "reflink") {
            return Ok(BtreeId::Reflink);
        }
        if spells(&v, 0, n, "subvolumes") {
            return Ok(BtreeId::Subvolumes);
        }
        if spells(&v, 0, n, "snapshots") {
            return Ok(BtreeId::Snapshots);
        }
        if spells(&v, 0, n, "lru") {
            return Ok(BtreeId::Lru);
        }
        if spells(&v, 0, n, "freespace") {
            return Ok(BtreeId::Freespace);
        }
        if spells(&v, 0, n, "need_discard") {
            return Ok(BtreeId::NeedDiscard);
        }
        if spells(&v, 0, n, "backpointers") {
            return Ok(BtreeId::Backpointers);
        }
        if spells(&v, 0, n, "bucket_gens") {
            return Ok(BtreeId::BucketGens);
        }
        Err(InvalidBtreeId)
    }
}

/// No btree is named by what was given.
#[derive(Clone, Copy, Debug, PartialEq, Eq, Structural)]
pub struct InvalidBtreeId;

impl InvalidBtreeId {
    /// The failure in words.
    pub fn message(&self) -> (r: &'static str)
        ensures
            r@ == "invalid btree id"@,
    {
        "invalid btree id"
    }
}

impl std::str::FromStr for BtreeId {
    type Err = InvalidBtreeId;

    /// The btree that `s` names: what `BtreeId::from_str` gives.
    fn from_str(s: &str) -> (r: Result<BtreeId, InvalidBtreeId>)
        ensures
            r matches Ok(id) ==> id.spec_name() == s@,
            r is Err ==> forall|id: BtreeId| id.spec_name() != s@,
    {
        BtreeId::from_str(s)
    }
}

/// Two btrees have two names.
pub proof fn names_differ(a: BtreeId, b: BtreeId)
    requires
        a != b,
    ensures
        a.spec_name() != b.spec_name(),
{
    reveal_strlit("extents");
    reveal_strlit("inodes");
    reveal_strlit("dirents");
    reveal_strlit("xattrs");
    reveal_strlit("alloc");
    reveal_strlit("quotas");
    reveal_strlit("stripes");
    reveal_strlit("reflink");
    reveal_strlit("subvolumes");
    reveal_strlit("snapshots");
    reveal_strlit("lru");
    reveal_strlit("freespace");
    reveal_strlit("need_discard");
    reveal_strlit("backpointers");
    reveal_strlit("bucket_gens");
    let x = a.spec_name();
    let y = b.spec_name();
    if x.len() == y.len() {
        assert(x[0] != y[0] || x[1] != y[1] || x[2] != y[2]);
    }
}

/// The positions of `keys` rise strictly: the records are in order and no
/// position occurs twice.
pub open spec fn sorted(keys: Seq<Record>) -> bool {
    forall|i: int, j: int| 0 <= i < j < keys.len() ==> (#[trigger] keys[i]).k.p.spec_lt((#[trigger] keys[j]).k.p)
}

/// The index of the first record of `keys` that lies at or after `pos`, or
/// the length of `keys` where none does.
pub open spec fn seek(keys: Seq<Record>, pos: Bpos) -> int
    decreases keys.len(),
{
    if keys.len() == 0 || pos.spec_le(keys[0].k.p) {
        0
    } else {
        1 + seek(keys.skip(1), pos)
    }
}

/// `seek` gives an index within bounds; every record before it lies before
/// `pos`, and the record at it, if there is one, lies at or after `pos`.
pub proof fn seek_is_first(keys: Seq<Record>, pos: Bpos)
    ensures
        0 <= seek(keys, pos) <= keys.len(),
        forall|j: int| 0 <= j < seek(keys, pos) ==> (#[trigger] keys[j]).k.p.spec_lt(pos),
        seek(keys, pos) < keys.len() ==> pos.spec_le(keys[seek(keys, pos)].k.p),
    decreases keys.len(),
{
    if keys.len() == 0 || pos.spec_le(keys[0].k.p) {
    } else {
        let rest = keys.skip(1);
        seek_is_first(rest, pos);
        assert forall|j: int| 0 <= j < seek(keys, pos) implies (#[trigger] keys[j]).k.p.spec_lt(
            pos,
        ) by {
            if j > 0 {
                assert(keys[j] == rest[j - 1]);
            }
        }
        if seek(keys, pos) < keys.len() {
            assert(keys[seek(keys, pos)] == rest[seek(rest, pos)]);
        }
    }
}

/// An index with every record before it before `pos`, and with the record
/// at it, if there is one, at or after `pos`, is the one that `seek` gives.
pub proof fn seek_is_unique(keys: Seq<Record>, pos: Bpos, i: int)
    requires
        0 <= i <= keys.len(),
        forall|j: int| 0 <= j < i ==> (#[trigger] keys[j]).k.p.spec_lt(pos),
        i < keys.len() ==> pos.spec_le(keys[i].k.p),
    ensures
        seek(keys, pos) == i,
    decreases keys.len(),
{
    if keys.len() == 0 {
    } else if pos.spec_le(keys[0].k.p) {
        if i > 0 {
            assert(keys[0].k.p.spec_lt(pos));
        }
    } else {
        let rest = keys.skip(1);
        assert(i > 0);
        assert forall|j: int| 0 <= j < i - 1 implies (#[trigger] rest[j]).k.p.spec_lt(pos) by {
            assert(rest[j] == keys[j + 1]);
        }
        if i - 1 < rest.len() {
            assert(rest[i - 1] == keys[i]);
        }
        seek_is_unique(rest, pos, i - 1);
    }
}

/// The index of the first record of `keys` that lies at or after `pos`, or
/// the length of `keys` where none does.
pub fn lower_bound(keys: &Vec<Record>, pos: Bpos) -> (i: usize)
    requires
        sorted(keys@),
    ensures
        i == seek(keys@, pos),
        i <= keys@.len(),
{
    let mut lo: usize = 0;
    let mut hi: usize = keys.len();
    while lo < hi
        invariant
            0 <= lo <= hi <= keys@.len(),
            sorted(keys@),
            forall|j: int| 0 <= j < lo ==> (#[trigger] keys@[j]).k.p.spec_lt(pos),
            forall|j: int| hi <= j < keys@.len() ==> pos.spec_le((#[trigger] keys@[j]).k.p),
        decreases hi - lo,
    {
        let mid: usize = lo + (hi - lo) / 2;
        if keys[mid].k.p < pos {
            assert forall|j: int| 0 <= j < mid + 1 implies (#[trigger] keys@[j]).k.p.spec_lt(
                pos,
            ) by {
                if j < mid {
                    assert(keys@[j].k.p.spec_lt(keys@[mid as int].k.p));
                }
            }
            lo = mid + 1;
        } else {
            assert forall|j: int| mid <= j < keys@.len() implies pos.spec_le(
                (#[trigger] keys@[j]).k.p,
            ) by {
                if j > mid {
                    assert(keys@[mid as int].k.p.spec_lt(keys@[j].k.p));
                }
            }
            hi = mid;
        }
    }
    proof {
        seek_is_unique(keys@, pos, lo as int);
    }
    lo
}

/// `keys` with the record `r` put in its place: in place of the record at
/// the same position, where there is one, else ahead of the first record that
/// lies after.
pub open spec fn with_record(keys: Seq<Record>, r: Record) -> Seq<Record> {
    let i = seek(keys, r.k.p);
    if i < keys.len() && keys[i].k.p == r.k.p {
        keys.update(i, r)
    } else {
        keys.insert(i, r)
    }
}

/// Putting a record in its place keeps the keyspace in order.
pub proof fn with_record_sorted(keys: Seq<Record>, r: Record)
    requires
        sorted(keys),
    ensures
        sorted(with_record(keys, r)),
{
    seek_is_first(keys, r.k.p);
    let i = seek(keys, r.k.p);
    let out = with_record(keys, r);
    if i < keys.len() && keys[i].k.p == r.k.p {
        assert forall|a: int, b: int| 0 <= a < b < out.len() implies (#[trigger] out[a]).k.p.spec_lt(
            (#[trigger] out[b]).k.p,
        ) by {
            assert(keys[a].k.p.spec_lt(keys[b].k.p));
        }
    } else {
        assert forall|a: int, b: int| 0 <= a < b < out.len() implies (#[trigger] out[a]).k.p.spec_lt(
            (#[trigger] out[b]).k.p,
        ) by {
            if b < i {
                assert(keys[a].k.p.spec_lt(keys[b].k.p));
            } else if b == i {
                assert(keys[a].k.p.spec_lt(r.k.p));
            } else if a < i {
                assert(keys[a].k.p.spec_lt(r.k.p));
                assert(r.k.p.spec_le(keys[b - 1].k.p));
                if i < b - 1 {
                    assert(keys[i].k.p.spec_lt(keys[b - 1].k.p));
                }
            } else if a == i {
                assert(r.k.p.spec_le(keys[i].k.p));
                if i < b - 1 {
                    assert(keys[i].k.p.spec_lt(keys[b - 1].k.p));
                }
            } else {
                assert(keys[a - 1].k.p.spec_lt(keys[b - 1].k.p));
            }
        }
    }
}

/// An open filesystem: the records of each of its btrees, and for a btree
/// that cannot be read the reason why.
#[derive(Debug)]
pub struct Fs {
    btrees: Vec<Vec<Record>>,
    faults: Vec<Option<ErrorCode>>,
}

impl Fs {
    /// The records of the btree `id`, in order.
    pub closed spec fn keyspace(&self, id: BtreeId) -> Seq<Record> {
        self.btrees@[id.spec_index() as int]@
    }

    /// Why the btree `id` cannot be read, or `None` where it can.
    pub closed spec fn fault(&self, id: BtreeId) -> Option<ErrorCode> {
        self.faults@[id.spec_index() as int]
    }

    /// The filesystem has all its btrees, and each is in order.
    pub closed spec fn wf(&self) -> bool {
        &&& self.btrees@.len() == BTREE_ID_NR
        &&& self.faults@.len() == BTREE_ID_NR
        &&& forall|i: int| 0 <= i < BTREE_ID_NR ==> sorted((#[trigger] self.btrees@[i])@)
    }

    /// Each keyspace of a well-formed filesystem is in order.
    pub proof fn keyspaces_sorted(&self, id: BtreeId)
        requires
            self.wf(),
        ensures
            sorted(self.keyspace(id)),
    {
    }

    /// A filesystem without records, all of whose btrees can be read.
    pub fn new() -> (fs: Fs)
        ensures
            fs.wf(),
            forall|id: BtreeId| fs.keyspace(id) == Seq::<Record>::empty(),
            forall|id: BtreeId| fs.fault(id) is None,
    {
        let mut btrees: Vec<Vec<Record>> = Vec::new();
        let mut faults: Vec<Option<ErrorCode>> = Vec::new();
        while btrees.len() < BTREE_ID_NR
            invariant
                btrees@.len() <= BTREE_ID_NR,
                faults@.len() == btrees@.len(),
                forall|i: int| 0 <= i < btrees@.len() ==> (#[trigger] btrees@[i])@ == Seq::<
                    Record,
                >::empty(),
                forall|i: int| 0 <= i < faults@.len() ==> (#[trigger] faults@[i]) is None,
            decreases BTREE_ID_NR - btrees@.len(),
        {
            btrees.push(Vec::new());
            faults.push(None);
        }
        Fs { btrees, faults }
    }

    /// Why the btree `id` cannot be read, or `None` where it can.
    pub fn get_fault(&self, id: BtreeId) -> (r: Option<ErrorCode>)
        requires
            self.wf(),
        ensures
            r == self.fault(id),
    {
        self.faults[id.index()]
    }

    /// Marks the btree `id` as one that cannot be read, for the reason
    /// `code`: a cursor over it finds that reason in place of records.
    pub fn set_fault(&mut self, id: BtreeId, code: ErrorCode)
        requires
            old(self).wf(),
        ensures
            final(self).wf(),
            final(self).fault(id) == Some(code),
            forall|other: BtreeId| other != id ==> final(self).fault(other) == old(self).fault(
                other,
            ),
            forall|any: BtreeId| final(self).keyspace(any) == old(self).keyspace(any),
    {
        self.faults.set(id.index(), Some(code));
    }

    /// The number of records in the btree `id`.
    pub fn len(&self, id: BtreeId) -> (n: usize)
        requires
            self.wf(),
        ensures
            n == self.keyspace(id).len(),
    {
        self.btrees[id.index()].len()
    }

    /// The records of the btree `id`, in order.
    pub fn records(&self, id: BtreeId) -> (r: &Vec<Record>)
        requires
            self.wf(),
        ensures
            r@ == self.keyspace(id),
            sorted(r@),
    {
        &self.btrees[id.index()]
    }

    /// Puts a record with header `k` and payload `v` into the btree `id`, in
    /// place of the record at the same position where there is one.
    pub fn insert(&mut self, id: BtreeId, k: Bkey, v: Vec<u8>)
        requires
            old(self).wf(),
        ensures
            final(self).wf(),
            final(self).keyspace(id) == with_record(old(self).keyspace(id), Record { k, v }),
            forall|other: BtreeId| other != id ==> final(self).keyspace(other) == old(
                self,
            ).keyspace(other),
            forall|any: BtreeId| final(self).fault(any) == old(self).fault(any),
    {
        let idx = id.index();
        let mut keys: Vec<Record> = self.btrees.remove(idx);
        let ghost before = keys@;
        let i = lower_bound(&keys, k.p);
        let r = Record { k, v };
        proof {
            with_record_sorted(before, r);
        }
        if i < keys.len() && keys[i].k.p == k.p {
            keys.set(i, r);
        } else {
            keys.insert(i, r);
        }
        self.btrees.insert(idx, keys);
        proof {
            assert forall|j: int| 0 <= j < BTREE_ID_NR implies sorted(
                (#[trigger] self.btrees@[j])@,
            ) by {
                if j < idx {
                    assert(self.btrees@[j] == old(self).btrees@[j]);
                } else if j > idx {
                    assert(self.btrees@[j] == old(self).btrees@[j]);
                }
            }
            assert forall|other: BtreeId| other != id implies self.keyspace(other) == old(
                self,
            ).keyspace(other) by {
                let j = other.spec_index() as int;
                assert(j != idx);
                assert(self.btrees@[j] == old(self).btrees@[j]);
            }
        }
    }
}

} // verus!
