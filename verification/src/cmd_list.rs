//! Listing the records of a btree between two positions.

use crate::bkey::{bkey_text, Record};
use crate::btree::{
    advanced, peek_index, peeked, BtreeIter, BtreeIterFlags, BtreeTrans, IterView,
    BTREE_ITER_ALL_SNAPSHOTS, BTREE_ITER_PREFETCH,
};
use crate::errcode::ErrorCode;
use crate::fs::{seek, seek_is_first, seek_is_unique, sorted, BtreeId, Fs};
use crate::pos::{sentinels_bound, spos_max, successor_is_next, Bpos};
use vstd::prelude::*;

verus! {

/// The index of the first record of `keys` that lies after `end`, or the
/// length of `keys` where none does.
pub open spec fn past(keys: Seq<Record>, end: Bpos) -> int
    decreases keys.len(),
{
    if keys.len() == 0 || end.spec_lt(keys[0].k.p) {
        0
    } else {
        1 + past(keys.skip(1), end)
    }
}

/// `past` gives an index within bounds; every record before it lies at or
/// before `end`, and the record at it, if there is one, lies after `end`.
pub proof fn past_is_first(keys: Seq<Record>, end: Bpos)
    ensures
        0 <= past(keys, end) <= keys.len(),
        forall|j: int| 0 <= j < past(keys, end) ==> (#[trigger] keys[j]).k.p.spec_le(end),
        past(keys, end) < keys.len() ==> end.spec_lt(keys[past(keys, end)].k.p),
    decreases keys.len(),
{
    if keys.len() == 0 || end.spec_lt(keys[0].k.p) {
    } else {
        let rest = keys.skip(1);
        past_is_first(rest, end);
        assert forall|j: int| 0 <= j < past(keys, end) implies (#[trigger] keys[j]).k.p.spec_le(
            end,
        ) by {
            if j > 0 {
                assert(keys[j] == rest[j - 1]);
            }
        }
        if past(keys, end) < keys.len() {
            assert(keys[past(keys, end)] == rest[past(rest, end)]);
        }
    }
}

/// An index with every record before it at or before `end`, and with the
/// record at it, if there is one, after `end`, is the one that `past` gives.
pub proof fn past_is_unique(keys: Seq<Record>, end: Bpos, i: int)
    requires
        0 <= i <= keys.len(),
        forall|j: int| 0 <= j < i ==> (#[trigger] keys[j]).k.p.spec_le(end),
        i < keys.len() ==> end.spec_lt(keys[i].k.p),
    ensures
        past(keys, end) == i,
    decreases keys.len(),
{
    if keys.len() == 0 {
    } else if end.spec_lt(keys[0].k.p) {
        if i > 0 {
            assert(keys[0].k.p.spec_le(end));
        }
    } else {
        let rest = keys.skip(1);
        assert(i > 0);
        assert forall|j: int| 0 <= j < i - 1 implies (#[trigger] rest[j]).k.p.spec_le(end) by {
            assert(rest[j] == keys[j + 1]);
        }
        if i - 1 < rest.len() {
            assert(rest[i - 1] == keys[i]);
        }
        past_is_unique(rest, end, i - 1);
    }
}

/// The records of `keys` from `start` to `end`, both included, in order.
pub open spec fn listed(keys: Seq<Record>, start: Bpos, end: Bpos) -> Seq<Record> {
    let lo = seek(keys, start);
    let hi = past(keys, end);
    if lo <= hi {
        keys.subrange(lo, hi)
    } else {
        Seq::<Record>::empty()
    }
}

/// Of a keyspace in order, the records listed are those that lie from
/// `start` to `end`, no more and no fewer, and they are in order.
pub proof fn listed_is_range(keys: Seq<Record>, start: Bpos, end: Bpos)
    requires
        sorted(keys),
    ensures
        sorted(listed(keys, start, end)),
        forall|i: int|
            0 <= i < listed(keys, start, end).len() ==> {
                let r = #[trigger] listed(keys, start, end)[i];
                start.spec_le(r.k.p) && r.k.p.spec_le(end)
            },
        forall|j: int|
            0 <= j < keys.len() && start.spec_le((#[trigger] keys[j]).k.p) && keys[j].k.p.spec_le(
                end,
            ) ==> {
                let i = j - seek(keys, start);
                0 <= i < listed(keys, start, end).len() && listed(keys, start, end)[i] == keys[j]
            },
{
    seek_is_first(keys, start);
    past_is_first(keys, end);
    let lo = seek(keys, start);
    let hi = past(keys, end);
    let out = listed(keys, start, end);
    assert forall|i: int| 0 <= i < out.len() implies {
        let r = #[trigger] out[i];
        start.spec_le(r.k.p) && r.k.p.spec_le(end)
    } by {
        assert(out[i] == keys[lo + i]);
        if i > 0 {
            assert(keys[lo].k.p.spec_lt(keys[lo + i].k.p));
        }
    }
    assert forall|j: int|
        0 <= j < keys.len() && start.spec_le((#[trigger] keys[j]).k.p) && keys[j].k.p.spec_le(
            end,
        ) implies {
        let i = j - lo;
        0 <= i < out.len() && out[i] == keys[j]
    } by {
        if j < lo {
            assert(keys[j].k.p.spec_lt(start));
        }
        if j >= hi {
            if j > hi {
                assert(keys[hi].k.p.spec_lt(keys[j].k.p));
            }
            assert(end.spec_lt(keys[j].k.p));
        }
    }
    assert forall|a: int, b: int| 0 <= a < b < out.len() implies (#[trigger] out[a]).k.p.spec_lt(
        (#[trigger] out[b]).k.p,
    ) by {
        assert(out[a] == keys[lo + a]);
        assert(out[b] == keys[lo + b]);
    }
}

/// A cursor that has found a record and moved on finds a later record next,
/// or none: in a keyspace in order, each record found lies after the one
/// found before it, and the number of records still ahead of the cursor
/// falls with each one found.
pub proof fn next_peek_is_later(c: IterView, end: Bpos, end2: Bpos)
    requires
        sorted(c.keys),
        peek_index(c, end) is Some,
    ensures
        ({
            let i = peek_index(c, end)->0;
            let c2 = advanced(peeked(c, end));
            &&& c2.exhausted ==> i + 1 == c.keys.len()
            &&& !c2.exhausted ==> seek(c2.keys, c2.pos) == i + 1
            &&& peek_index(c2, end2) matches Some(j) ==> j == i + 1 && c.keys[i].k.p.spec_lt(
                c.keys[j].k.p,
            )
        }),
{
    seek_is_first(c.keys, c.pos);
    let i = peek_index(c, end)->0;
    let p = c.keys[i].k.p;
    let c1 = peeked(c, end);
    let c2 = advanced(c1);
    sentinels_bound(p);
    if p == spos_max() {
        if i + 1 < c.keys.len() {
            assert(c.keys[i].k.p.spec_lt(c.keys[i + 1].k.p));
            sentinels_bound(c.keys[i + 1].k.p);
        }
    } else {
        let n = p.spec_successor();
        assert forall|j: int| 0 <= j < i + 1 implies (#[trigger] c.keys[j]).k.p.spec_lt(n) by {
            successor_is_next(p, n);
            if j < i {
                assert(c.keys[j].k.p.spec_lt(c.keys[i].k.p));
            }
        }
        if i + 1 < c.keys.len() {
            assert(c.keys[i].k.p.spec_lt(c.keys[i + 1].k.p));
            successor_is_next(p, c.keys[i + 1].k.p);
        }
        seek_is_unique(c.keys, n, i + 1);
    }
}

/// `lines` are the texts of the records of `keys` from index `lo` on, as many
/// as there are lines, and each of those records lies at or before `end`.
pub open spec fn collected(lines: Seq<String>, keys: Seq<Record>, lo: int, end: Bpos) -> bool {
    forall|i: int|
        0 <= i < lines.len() ==> (#[trigger] lines[i])@ == bkey_text(keys[lo + i].k) && keys[lo
            + i].k.p.spec_le(end)
}

/// The texts of the records of the btree `btree` of `fs` that lie from
/// `start` to `end`, in the order of their positions. Where the btree cannot
/// be read, the reason.
pub fn list_keys(fs: &Fs, btree: BtreeId, start: Bpos, end: Bpos) -> (r: Result<
    Vec<String>,
    ErrorCode,
>)
    requires
        fs.wf(),
    ensures
        fs.fault(btree) matches Some(e) ==> r == Err::<Vec<String>, ErrorCode>(e),
        fs.fault(btree) is None ==> (r matches Ok(lines) && {
            let want = listed(fs.keyspace(btree), start, end);
            &&& lines@.len() == want.len()
            &&& forall|i: int|
                0 <= i < want.len() ==> (#[trigger] lines@[i])@ == bkey_text(want[i].k)
        }),
{
    let trans = BtreeTrans::new(fs);
    let flags = BtreeIterFlags::from_bits(BTREE_ITER_ALL_SNAPSHOTS | BTREE_ITER_PREFETCH);
    let mut iter = BtreeIter::new(&trans, btree, start, flags);
    let ghost keys = fs.keyspace(btree);
    let ghost lo = seek(keys, start);
    let mut out: Vec<String> = Vec::new();
    proof {
        fs.keyspaces_sorted(btree);
        seek_is_first(keys, start);
    }
    loop
        invariant_except_break
            iter.wf(),
            iter@.keys == keys,
            iter@.fault == fs.fault(btree),
            sorted(keys),
            lo == seek(keys, start),
            0 <= lo,
            lo + out@.len() <= keys.len(),
            !iter@.exhausted ==> seek(keys, iter@.pos) == lo + out@.len(),
            iter@.exhausted ==> lo + out@.len() == keys.len(),
            collected(out@, keys, lo, end),
        ensures
            fs.fault(btree) is None,
            sorted(keys),
            lo == seek(keys, start),
            0 <= lo,
            lo + out@.len() <= keys.len(),
            collected(out@, keys, lo, end),
            lo + out@.len() < keys.len() ==> end.spec_lt(keys[lo + out@.len()].k.p),
        decreases keys.len() - (lo + out@.len()) + (if iter@.exhausted { 0int } else { 1int }),
    {
        let ghost before = iter@;
        let found = iter.peek_and_restart();
        match found {
            Err(e) => {
                return Err(e);
            },
            Ok(None) => {
                proof {
                    if !before.exhausted && lo + out@.len() < keys.len() {
                        sentinels_bound(keys[lo + out@.len()].k.p);
                    }
                }
                break ;
            },
            Ok(Some(k)) => {
                if k.k.p > end {
                    break ;
                }
                proof {
                    next_peek_is_later(before, spos_max(), spos_max());
                }
                let ghost lines = out@;
                out.push(k.to_text(fs).to_string());
                iter.advance();
                assert(collected(out@, keys, lo, end)) by {
                    assert forall|j: int| 0 <= j < out@.len() implies (#[trigger] out@[j])@
                        == bkey_text(keys[lo + j].k) && keys[lo + j].k.p.spec_le(end) by {
                        if j < lines.len() {
                            assert(out@[j] == lines[j]);
                        }
                    }
                }
            },
        }
    }
    proof {
        let n = out@.len() as int;
        past_is_first(keys, end);
        if n > 0 {
            assert forall|j: int| 0 <= j < lo + n implies (#[trigger] keys[j]).k.p.spec_le(end) by {
                if j < lo {
                    assert(keys[j].k.p.spec_lt(keys[lo].k.p));
                    assert(out@[0]@ == bkey_text(keys[lo + 0].k));
                } else {
                    assert(out@[j - lo]@ == bkey_text(keys[lo + (j - lo)].k));
                }
            }
            past_is_unique(keys, end, lo + n);
            assert(listed(keys, start, end) =~= keys.subrange(lo, lo + n));
        } else {
            if lo < keys.len() {
                if past(keys, end) > lo {
                    assert(keys[lo].k.p.spec_le(end));
                }
            }
            assert(listed(keys, start, end) =~= Seq::<Record>::empty());
        }
    }
    Ok(out)
}

/// What a filesystem does when it meets an error.
#[derive(Clone, Copy, Debug, PartialEq, Eq, Structural)]
pub enum ErrorAction {
    Continue,
    ReadOnly,
    Panic,
}

/// Whether a check of the filesystem mends what it finds.
#[derive(Clone, Copy, Debug, PartialEq, Eq, Structural)]
pub enum FixErrors {
    Exit,
    Yes,
    No,
    Ask,
}

/// The options that a filesystem is opened with. An option that is `None`
/// is left as the filesystem has it.
#[derive(Clone, Copy, Debug, PartialEq, Eq, Structural)]
pub struct FsOpts {
    pub nochanges: Option<bool>,
    pub norecovery: Option<bool>,
    pub degraded: Option<bool>,
    pub errors: Option<ErrorAction>,
    pub fix_errors: Option<FixErrors>,
    pub verbose: Option<bool>,
}

/// The options that a filesystem is opened with to be listed: nothing is
/// changed, devices may be missing, and errors do not stop the listing.
/// Recovery is left out unless the filesystem is to be checked first, and
/// then what the check finds is mended.
pub fn list_fs_opts(fsck: bool, verbose: bool) -> (o: FsOpts)
    ensures
        o == (FsOpts {
            nochanges: Some(true),
            norecovery: Some(!fsck),
            degraded: Some(true),
            errors: Some(ErrorAction::Continue),
            fix_errors: if fsck {
                Some(FixErrors::Yes)
            } else {
                None
            },
            verbose: if verbose {
                Some(true)
            } else {
                None
            },
        }),
{
    let mut o = FsOpts {
        nochanges: Some(true),
        norecovery: Some(true),
        degraded: Some(true),
        errors: Some(ErrorAction::Continue),
        fix_errors: None,
        verbose: None,
    };
    if fsck {
        o.fix_errors = Some(FixErrors::Yes);
        o.norecovery = Some(false);
    }
    if verbose {
        o.verbose = Some(true);
    }
    o
}

} // verus!
