//! Transactions and cursors: walking the records of a btree in the order of
//! their positions.

use crate::bkey::{BkeySC, Record};
use crate::errcode::ErrorCode;
use crate::fs::{lower_bound, seek, seek_is_first, sorted, BtreeId, Fs};
use crate::pos::{spos_max, successor_is_next, Bpos};
use vstd::prelude::*;

verus! {

/// The cursor fills slots: it stops at every position, also where no record
/// is.
pub const BTREE_ITER_SLOTS: u16 = 1 << 0;

/// The cursor walks every level of the tree.
pub const BTREE_ITER_ALL_LEVELS: u16 = 1 << 1;

/// The cursor is there to change what it finds.
pub const BTREE_ITER_INTENT: u16 = 1 << 2;

/// The cursor reads ahead.
pub const BTREE_ITER_PREFETCH: u16 = 1 << 3;

/// The records cover ranges.
pub const BTREE_ITER_IS_EXTENTS: u16 = 1 << 4;

/// The records do not cover ranges.
pub const BTREE_ITER_NOT_EXTENTS: u16 = 1 << 5;

/// The cursor walks the cached overlay.
pub const BTREE_ITER_CACHED: u16 = 1 << 6;

/// The cursor looks into the key cache besides the tree.
pub const BTREE_ITER_WITH_KEY_CACHE: u16 = 1 << 7;

/// The cursor sees the updates of its own transaction.
pub const BTREE_ITER_WITH_UPDATES: u16 = 1 << 8;

/// The cursor looks into the journal besides the tree.
pub const BTREE_ITER_WITH_JOURNAL: u16 = 1 << 9;

/// The inner form of `BTREE_ITER_ALL_SNAPSHOTS`.
pub const BTREE_ITER_ALL_SNAPSHOTS_INNER: u16 = 1 << 10;

/// The cursor walks the records of every snapshot.
pub const BTREE_ITER_ALL_SNAPSHOTS: u16 = 1 << 11;

/// The cursor walks the records of one snapshot.
pub const BTREE_ITER_FILTER_SNAPSHOTS: u16 = 1 << 12;

/// The cursor need not be kept once it is let go.
pub const BTREE_ITER_NOPRESERVE: u16 = 1 << 13;

/// The cursor walks the cached overlay and does not fill it.
pub const BTREE_ITER_CACHED_NOFILL: u16 = 1 << 14;

/// The cursor is there to fill the key cache.
pub const BTREE_ITER_KEY_CACHE_FILL: u16 = 1 << 15;

/// A set of cursor flags. Whether flags go together is for the engine to
/// say: every set can be made here.
#[derive(Clone, Copy, Debug, PartialEq, Eq, Structural, Hash)]
pub struct BtreeIterFlags {
    pub bits: u16,
}

impl BtreeIterFlags {
    /// The set without flags.
    pub fn empty() -> (f: BtreeIterFlags)
        ensures
            f.bits == 0,
    {
        BtreeIterFlags { bits: 0 }
    }

    /// The set with every flag.
    pub fn all() -> (f: BtreeIterFlags)
        ensures
            f.bits == u16::MAX,
    {
        BtreeIterFlags { bits: u16::MAX }
    }

    /// The set whose flags are the bits of `bits`.
    pub fn from_bits(bits: u16) -> (f: BtreeIterFlags)
        ensures
            f.bits == bits,
    {
        BtreeIterFlags { bits }
    }

    /// The flags of the set, as bits.
    pub fn bits(&self) -> (b: u16)
        ensures
            b == self.bits,
    {
        self.bits
    }

    /// Whether the set has no flag.
    pub fn is_empty(&self) -> (r: bool)
        ensures
            r == (self.bits == 0),
    {
        self.bits == 0
    }

    /// The flags of either set.
    pub fn union(self, other: BtreeIterFlags) -> (f: BtreeIterFlags)
        ensures
            f.bits == self.bits | other.bits,
    {
        BtreeIterFlags { bits: self.bits | other.bits }
    }

    /// Whether every flag of `other` is in the set.
    pub fn contains(&self, other: BtreeIterFlags) -> (r: bool)
        ensures
            r == (self.bits & other.bits == other.bits),
    {
        self.bits & other.bits == other.bits
    }
}

/// A transaction: a stretch of access to one open filesystem. Cursors are
/// made in it and cannot outlive it.
#[derive(Debug)]
pub struct BtreeTrans<'f> {
    fs: &'f Fs,
}

impl<'f> BtreeTrans<'f> {
    /// The filesystem that the transaction reads.
    pub closed spec fn fs(&self) -> Fs {
        *self.fs
    }

    /// A transaction on `fs`.
    pub fn new(fs: &'f Fs) -> (t: BtreeTrans<'f>)
        ensures
            t.fs() == *fs,
    {
        BtreeTrans { fs }
    }
}

/// A cursor as contracts see it: the records of its btree, why the btree
/// cannot be read if it cannot, the cursor's position, its flags, and whether
/// it has run off the end of the keyspace.
pub struct IterView {
    pub keys: Seq<Record>,
    pub fault: Option<ErrorCode>,
    pub btree: BtreeId,
    pub pos: Bpos,
    pub flags: BtreeIterFlags,
    pub exhausted: bool,
}

/// A cursor over one btree, made in a transaction and bound to it.
#[derive(Debug)]
pub struct BtreeIter<'t> {
    trans: &'t BtreeTrans<'t>,
    btree: BtreeId,
    pos: Bpos,
    flags: BtreeIterFlags,
    exhausted: bool,
}

impl<'t> View for BtreeIter<'t> {
    type V = IterView;

    closed spec fn view(&self) -> IterView {
        IterView {
            keys: self.trans.fs().keyspace(self.btree),
            fault: self.trans.fs().fault(self.btree),
            btree: self.btree,
            pos: self.pos,
            flags: self.flags,
            exhausted: self.exhausted,
        }
    }
}

/// The index of the record that a cursor in state `c` finds when it looks
/// no further than `end`: the first record at or after the cursor's position,
/// where the btree can be read, there is such a record, and it lies at or
/// before `end`.
pub open spec fn peek_index(c: IterView, end: Bpos) -> Option<int> {
    let i = seek(c.keys, c.pos);
    if c.fault is None && !c.exhausted && i < c.keys.len() && c.keys[i].k.p.spec_le(end) {
        Some(i)
    } else {
        None
    }
}

/// The state of a cursor that has looked no further than `end` from state
/// `c`: at the record found, or where it was.
pub open spec fn peeked(c: IterView, end: Bpos) -> IterView {
    match peek_index(c, end) {
        Some(i) => IterView { pos: c.keys[i].k.p, ..c },
        None => c,
    }
}

/// The state of a cursor that has moved on from state `c`: at the least
/// position after the one it was at, or off the end where there is none.
pub open spec fn advanced(c: IterView) -> IterView {
    if c.exhausted || c.pos == spos_max() {
        IterView { exhausted: true, ..c }
    } else {
        IterView { pos: c.pos.spec_successor(), ..c }
    }
}

/// A cursor never moves back: looking leaves it where it is or takes it
/// forward to the record found, which lies at or after where it was and no
/// further than the end given; moving on takes it strictly forward, unless it
/// runs off the end. So the records that one cursor finds, one after the
/// other, never fall in position.
pub proof fn cursor_moves_forward(c: IterView, end: Bpos)
    ensures
        c.pos.spec_le(peeked(c, end).pos),
        peek_index(c, end) matches Some(i) ==> c.pos.spec_le(c.keys[i].k.p) && c.keys[i].k.p.spec_le(
            end,
        ) && peeked(c, end).pos == c.keys[i].k.p,
        peeked(c, end).exhausted == c.exhausted,
        !advanced(c).exhausted ==> c.pos.spec_lt(advanced(c).pos),
        c.exhausted ==> advanced(c).exhausted && peek_index(c, end) is None,
{
    seek_is_first(c.keys, c.pos);
    if !c.exhausted && c.pos != spos_max() {
        successor_is_next(c.pos, c.pos);
    }
}

impl<'t> BtreeIter<'t> {
    /// The cursor reads a filesystem whose keyspaces are in order.
    pub closed spec fn wf(&self) -> bool {
        self.trans.fs().wf()
    }

    /// The records that a well-formed cursor walks are in order.
    pub proof fn keys_sorted(&self)
        requires
            self.wf(),
        ensures
            sorted(self@.keys),
    {
        self.trans.fs().keyspaces_sorted(self.btree);
    }

    /// A cursor in `trans` over `btree`, at `pos`, with `flags`.
    pub fn new(trans: &'t BtreeTrans<'t>, btree: BtreeId, pos: Bpos, flags: BtreeIterFlags) -> (it:
        BtreeIter<'t>)
        requires
            trans.fs().wf(),
        ensures
            it.wf(),
            it@ == (IterView {
                keys: trans.fs().keyspace(btree),
                fault: trans.fs().fault(btree),
                btree,
                pos,
                flags,
                exhausted: false,
            }),
    {
        BtreeIter { trans, btree, pos, flags, exhausted: false }
    }

    /// The next record at or after the cursor's position and at or before
    /// `end`, or `None` where there is none. The cursor comes to stand at
    /// the record found, and does not move past it. Where the btree cannot
    /// be read, the reason comes back in place of a record.
    pub fn peek_upto(&mut self, end: Bpos) -> (r: Result<Option<BkeySC<'t>>, ErrorCode>)
        requires
            old(self).wf(),
        ensures
            final(self).wf(),
            final(self)@ == peeked(old(self)@, end),
            old(self)@.fault matches Some(e) ==> r == Err::<Option<BkeySC<'t>>, ErrorCode>(e),
            old(self)@.fault is None ==> match peek_index(old(self)@, end) {
                Some(i) => r matches Ok(Some(k)) && *k.k == old(self)@.keys[i].k && k.v@ == old(
                    self,
                )@.keys[i].v@,
                None => r matches Ok(None),
            },
    {
        let trans: &'t BtreeTrans<'t> = self.trans;
        match trans.fs.get_fault(self.btree) {
            Some(e) => {
                return Err(e);
            },
            None => {},
        }
        if self.exhausted {
            return Ok(None);
        }
        let keys: &'t Vec<Record> = trans.fs.records(self.btree);
        let i = lower_bound(keys, self.pos);
        if i < keys.len() && keys[i].k.p <= end {
            let rec: &'t Record = &keys[i];
            self.pos = rec.k.p;
            Ok(Some(BkeySC { k: &rec.k, v: rec.v.as_slice() }))
        } else {
            Ok(None)
        }
    }

    /// The next record at or after the cursor's position, or `None` at the
    /// end of the keyspace.
    pub fn peek(&mut self) -> (r: Result<Option<BkeySC<'t>>, ErrorCode>)
        requires
            old(self).wf(),
        ensures
            final(self).wf(),
            final(self)@ == peeked(old(self)@, spos_max()),
            old(self)@.fault matches Some(e) ==> r == Err::<Option<BkeySC<'t>>, ErrorCode>(e),
            old(self)@.fault is None ==> match peek_index(old(self)@, spos_max()) {
                Some(i) => r matches Ok(Some(k)) && *k.k == old(self)@.keys[i].k && k.v@ == old(
                    self,
                )@.keys[i].v@,
                None => r matches Ok(None),
            },
    {
        self.peek_upto(spos_max())
    }

    /// As `peek`. The records of an open filesystem, as they are held here,
    /// do not change under a cursor, so there is never a reason to start
    /// over, and `None` says that the keyspace has ended.
    pub fn peek_and_restart(&mut self) -> (r: Result<Option<BkeySC<'t>>, ErrorCode>)
        requires
            old(self).wf(),
        ensures
            final(self).wf(),
            final(self)@ == peeked(old(self)@, spos_max()),
            old(self)@.fault matches Some(e) ==> r == Err::<Option<BkeySC<'t>>, ErrorCode>(e),
            old(self)@.fault is None ==> match peek_index(old(self)@, spos_max()) {
                Some(i) => r matches Ok(Some(k)) && *k.k == old(self)@.keys[i].k && k.v@ == old(
                    self,
                )@.keys[i].v@,
                None => r matches Ok(None),
            },
    {
        self.peek()
    }

    /// Moves the cursor to the least position after the one it stands at:
    /// past the record that it last found. At the greatest position the
    /// cursor runs off the end, and finds nothing from then on.
    pub fn advance(&mut self)
        requires
            old(self).wf(),
        ensures
            final(self).wf(),
            final(self)@ == advanced(old(self)@),
    {
        if self.exhausted {
            return ;
        }
        match self.pos.successor() {
            Some(n) => {
                self.pos = n;
            },
            None => {
                self.exhausted = true;
            },
        }
    }
}

} // verus!
