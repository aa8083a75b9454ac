//! Key positions and their total order.

use std::cmp::Ordering;
use vstd::prelude::*;
use vstd::std_specs::cmp::PartialOrdSpecImpl;

verus! {

/// A position in a keyspace. Positions are ordered by inode, then by offset,
/// then by snapshot.
#[derive(Clone, Copy, Debug, PartialEq, Eq, Structural, Hash, Ord)]
pub struct Bpos {
    pub inode: u64,
    pub offset: u64,
    pub snapshot: u32,
}

/// The least position.
pub open spec fn spec_pos_min() -> Bpos {
    Bpos { inode: 0, offset: 0, snapshot: 0 }
}

/// The greatest position of snapshot 0.
pub open spec fn spec_pos_max() -> Bpos {
    Bpos { inode: u64::MAX, offset: u64::MAX, snapshot: 0 }
}

/// The greatest position.
pub open spec fn spec_spos_max() -> Bpos {
    Bpos { inode: u64::MAX, offset: u64::MAX, snapshot: u32::MAX }
}

/// The least position.
#[verifier::when_used_as_spec(spec_pos_min)]
pub fn pos_min() -> (p: Bpos)
    ensures
        p == spec_pos_min(),
{
    Bpos { inode: 0, offset: 0, snapshot: 0 }
}

/// The greatest position of snapshot 0.
#[verifier::when_used_as_spec(spec_pos_max)]
pub fn pos_max() -> (p: Bpos)
    ensures
        p == spec_pos_max(),
{
    Bpos { inode: u64::MAX, offset: u64::MAX, snapshot: 0 }
}

/// The greatest position.
#[verifier::when_used_as_spec(spec_spos_max)]
pub fn spos_max() -> (p: Bpos)
    ensures
        p == spec_spos_max(),
{
    Bpos { inode: u64::MAX, offset: u64::MAX, snapshot: u32::MAX }
}

/// The position with the given inode, offset and snapshot.
pub open spec fn spec_spos(inode: u64, offset: u64, snapshot: u32) -> Bpos {
    Bpos { inode, offset, snapshot }
}

/// The position with the given inode and offset, in snapshot 0.
pub open spec fn spec_pos(inode: u64, offset: u64) -> Bpos {
    Bpos { inode, offset, snapshot: 0 }
}

/// The position with the given inode, offset and snapshot.
#[verifier::when_used_as_spec(spec_spos)]
pub fn spos(inode: u64, offset: u64, snapshot: u32) -> (p: Bpos)
    ensures
        p == (Bpos { inode, offset, snapshot }),
{
    Bpos { inode, offset, snapshot }
}

/// The position with the given inode and offset, in snapshot 0.
#[verifier::when_used_as_spec(spec_pos)]
pub fn pos(inode: u64, offset: u64) -> (p: Bpos)
    ensures
        p == (Bpos { inode, offset, snapshot: 0 }),
{
    spos(inode, offset, 0)
}

impl Bpos {
    /// `self` sorts strictly before `other`.
    pub open spec fn spec_lt(self, other: Bpos) -> bool {
        ||| self.inode < other.inode
        ||| self.inode == other.inode && self.offset < other.offset
        ||| self.inode == other.inode && self.offset == other.offset && self.snapshot
            < other.snapshot
    }

    /// `self` sorts before `other` or is `other`.
    pub open spec fn spec_le(self, other: Bpos) -> bool {
        self.spec_lt(other) || self == other
    }

    /// Three-way comparison by inode, then offset, then snapshot.
    pub fn cmp(&self, other: &Bpos) -> (r: Ordering)
        ensures
            r == Ordering::Less <==> self.spec_lt(*other),
            r == Ordering::Equal <==> *self == *other,
            r == Ordering::Greater <==> other.spec_lt(*self),
    {
        if self.inode < other.inode {
            Ordering::Less
        } else if self.inode > other.inode {
            Ordering::Greater
        } else if self.offset < other.offset {
            Ordering::Less
        } else if self.offset > other.offset {
            Ordering::Greater
        } else if self.snapshot < other.snapshot {
            Ordering::Less
        } else if self.snapshot > other.snapshot {
            Ordering::Greater
        } else {
            Ordering::Equal
        }
    }

    /// The position that follows `self` when the snapshot, then the offset,
    /// then the inode is counted up. It is the least position after `self`
    /// wherever `self` is not the greatest position.
    pub open spec fn spec_successor(self) -> Bpos {
        if self.snapshot < u32::MAX {
            Bpos { inode: self.inode, offset: self.offset, snapshot: (self.snapshot + 1) as u32 }
        } else if self.offset < u64::MAX {
            Bpos { inode: self.inode, offset: (self.offset + 1) as u64, snapshot: 0 }
        } else {
            Bpos { inode: (self.inode + 1) as u64, offset: 0, snapshot: 0 }
        }
    }

    /// The least position after `self`, or `None` where `self` is the
    /// greatest position.
    pub fn successor(&self) -> (r: Option<Bpos>)
        ensures
            r is None <==> *self == spos_max(),
            r matches Some(n) ==> n == self.spec_successor() && self.spec_lt(n) && forall|q: Bpos|
                self.spec_lt(q) ==> n.spec_le(q),
    {
        if self.snapshot < u32::MAX {
            Some(Bpos { inode: self.inode, offset: self.offset, snapshot: self.snapshot + 1 })
        } else if self.offset < u64::MAX {
            Some(Bpos { inode: self.inode, offset: self.offset + 1, snapshot: 0 })
        } else if self.inode < u64::MAX {
            Some(Bpos { inode: self.inode + 1, offset: 0, snapshot: 0 })
        } else {
            None
        }
    }
}

impl PartialOrdSpecImpl for Bpos {
    open spec fn obeys_partial_cmp_spec() -> bool {
        true
    }

    open spec fn partial_cmp_spec(&self, other: &Bpos) -> Option<Ordering> {
        if self.spec_lt(*other) {
            Some(Ordering::Less)
        } else if *self == *other {
            Some(Ordering::Equal)
        } else {
            Some(Ordering::Greater)
        }
    }
}

impl PartialOrd for Bpos {
    fn partial_cmp(&self, other: &Bpos) -> (r: Option<Ordering>) {
        Some(self.cmp(other))
    }
}

/// Of two positions exactly one of `a < b`, `a == b`, `b < a` holds.
pub proof fn order_is_total(a: Bpos, b: Bpos)
    ensures
        a.spec_lt(b) || a == b || b.spec_lt(a),
        !(a.spec_lt(b) && a == b),
        !(a.spec_lt(b) && b.spec_lt(a)),
        !(a == b && b.spec_lt(a)),
{
}

/// The order is transitive, in its strict and in its reflexive form.
pub proof fn order_is_transitive(a: Bpos, b: Bpos, c: Bpos)
    ensures
        a.spec_lt(b) && b.spec_lt(c) ==> a.spec_lt(c),
        a.spec_le(b) && b.spec_le(c) ==> a.spec_le(c),
        a.spec_lt(b) && b.spec_le(c) ==> a.spec_lt(c),
        a.spec_le(b) && b.spec_lt(c) ==> a.spec_lt(c),
{
}

/// Below the greatest position, the successor of a position is the least
/// position after it.
pub proof fn successor_is_next(p: Bpos, q: Bpos)
    requires
        p != spos_max(),
    ensures
        p.spec_lt(p.spec_successor()),
        p.spec_lt(q) <==> p.spec_successor().spec_le(q),
{
}

/// Every position lies between the least and the greatest one.
pub proof fn sentinels_bound(p: Bpos)
    ensures
        pos_min().spec_le(p),
        p.spec_le(spos_max()),
        pos_max().spec_le(spos_max()),
{
}

} // verus!
