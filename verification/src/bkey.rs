//! Records: the header that every record carries, the type tag that says
//! what its payload is, and the payload told apart by that tag.

use crate::bpos_text::pos_text;
use crate::fs::Fs;
use crate::pos::Bpos;
use crate::text::{dec_text, push_decimal};
use vstd::prelude::*;
use vstd::string::*;

verus! {

/// The tag of the record type `deleted`.
pub const KEY_TYPE_DELETED: u8 = 0;

/// The tag of the record type `whiteout`.
pub const KEY_TYPE_WHITEOUT: u8 = 1;

/// The tag of the record type `error`.
pub const KEY_TYPE_ERROR: u8 = 2;

/// The tag of the record type `cookie`.
pub const KEY_TYPE_COOKIE: u8 = 3;

/// The tag of the record type `hash_whiteout`.
pub const KEY_TYPE_HASH_WHITEOUT: u8 = 4;

/// The tag of the record type `btree_ptr`.
pub const KEY_TYPE_BTREE_PTR: u8 = 5;

/// The tag of the record type `extent`.
pub const KEY_TYPE_EXTENT: u8 = 6;

/// The tag of the record type `reservation`.
pub const KEY_TYPE_RESERVATION: u8 = 7;

/// The tag of the record type `inode`.
pub const KEY_TYPE_INODE: u8 = 8;

/// The tag of the record type `inode_generation`.
pub const KEY_TYPE_INODE_GENERATION: u8 = 9;

/// The tag of the record type `dirent`.
pub const KEY_TYPE_DIRENT: u8 = 10;

/// The tag of the record type `xattr`.
pub const KEY_TYPE_XATTR: u8 = 11;

/// The tag of the record type `alloc`.
pub const KEY_TYPE_ALLOC: u8 = 12;

/// The tag of the record type `quota`.
pub const KEY_TYPE_QUOTA: u8 = 13;

/// The tag of the record type `stripe`.
pub const KEY_TYPE_STRIPE: u8 = 14;

/// The tag of the record type `reflink_p`.
pub const KEY_TYPE_REFLINK_P: u8 = 15;

/// The tag of the record type `reflink_v`.
pub const KEY_TYPE_REFLINK_V: u8 = 16;

/// The tag of the record type `inline_data`.
pub const KEY_TYPE_INLINE_DATA: u8 = 17;

/// The tag of the record type `btree_ptr_v2`.
pub const KEY_TYPE_BTREE_PTR_V2: u8 = 18;

/// The tag of the record type `indirect_inline_data`.
pub const KEY_TYPE_INDIRECT_INLINE_DATA: u8 = 19;

/// The tag of the record type `alloc_v2`.
pub const KEY_TYPE_ALLOC_V2: u8 = 20;

/// The tag of the record type `subvolume`.
pub const KEY_TYPE_SUBVOLUME: u8 = 21;

/// The tag of the record type `snapshot`.
pub const KEY_TYPE_SNAPSHOT: u8 = 22;

/// The tag of the record type `inode_v2`.
pub const KEY_TYPE_INODE_V2: u8 = 23;

/// The tag of the record type `alloc_v3`.
pub const KEY_TYPE_ALLOC_V3: u8 = 24;

/// The tag of the record type `set`.
pub const KEY_TYPE_SET: u8 = 25;

/// The tag of the record type `lru`.
pub const KEY_TYPE_LRU: u8 = 26;

/// The tag of the record type `alloc_v4`.
pub const KEY_TYPE_ALLOC_V4: u8 = 27;

/// The tag of the record type `backpointer`.
pub const KEY_TYPE_BACKPOINTER: u8 = 28;

/// The tag of the record type `inode_v3`.
pub const KEY_TYPE_INODE_V3: u8 = 29;

/// The tag of the record type `bucket_gens`.
pub const KEY_TYPE_BUCKET_GENS: u8 = 30;

/// The first tag that no record type has.
pub const KEY_TYPE_MAX: u8 = 31;

/// The header of a record.
#[derive(Clone, Copy, Debug, PartialEq, Eq, Structural)]
pub struct Bkey {
    /// The size of the record, header and payload, in units of 8 bytes.
    pub u64s: u8,
    /// The tag that says what the payload is.
    pub type_: u8,
    /// The length of the range that the record covers, 0 where it covers a
    /// single position.
    pub size: u32,
    /// The record's position: its key.
    pub p: Bpos,
}

/// A record as it is stored: its header and the bytes of its payload.
#[derive(Clone, Debug, PartialEq, Eq)]
pub struct Record {
    pub k: Bkey,
    pub v: Vec<u8>,
}

/// A record that is looked at in place: its header and the bytes of its
/// payload.
#[derive(Clone, Copy, Debug)]
pub struct BkeySC<'a> {
    pub k: &'a Bkey,
    pub v: &'a [u8],
}

/// The payload of a record, told apart by the record's type tag. A type
/// without payload has none here; any other carries the payload's bytes, to
/// be read as that type lays them out and as no other.
#[derive(Clone, Copy, Debug)]
pub enum BkeyValC<'a> {
    Deleted,
    Whiteout,
    Error,
    Cookie(&'a [u8]),
    HashWhiteout(&'a [u8]),
    BtreePtr(&'a [u8]),
    Extent(&'a [u8]),
    Reservation(&'a [u8]),
    Inode(&'a [u8]),
    InodeGeneration(&'a [u8]),
    Dirent(&'a [u8]),
    Xattr(&'a [u8]),
    Alloc(&'a [u8]),
    Quota(&'a [u8]),
    Stripe(&'a [u8]),
    ReflinkP(&'a [u8]),
    ReflinkV(&'a [u8]),
    InlineData(&'a [u8]),
    BtreePtrV2(&'a [u8]),
    IndirectInlineData(&'a [u8]),
    AllocV2(&'a [u8]),
    Subvolume(&'a [u8]),
    Snapshot(&'a [u8]),
    InodeV2(&'a [u8]),
    AllocV3(&'a [u8]),
    /// A member of a set: the record is there, and has no payload.
    KeySet,
    Lru(&'a [u8]),
    AllocV4(&'a [u8]),
    Backpointer(&'a [u8]),
    InodeV3(&'a [u8]),
    BucketGens(&'a [u8]),
    /// A tag that no record type has: the payload is not looked at.
    Unknown(u8),
}

/// The payload `v` read under the type tag `tag`.
pub open spec fn decode<'a>(tag: u8, v: &'a [u8]) -> BkeyValC<'a> {
    if tag == KEY_TYPE_DELETED {
        BkeyValC::Deleted
    } else if tag == KEY_TYPE_WHITEOUT {
        BkeyValC::Whiteout
    } else if tag == KEY_TYPE_ERROR {
        BkeyValC::Error
    } else if tag == KEY_TYPE_COOKIE {
        BkeyValC::Cookie(v)
    } else if tag == KEY_TYPE_HASH_WHITEOUT {
        BkeyValC::HashWhiteout(v)
    } else if tag == KEY_TYPE_BTREE_PTR {
        BkeyValC::BtreePtr(v)
    } else if tag == KEY_TYPE_EXTENT {
        BkeyValC::Extent(v)
    } else if tag == KEY_TYPE_RESERVATION {
        BkeyValC::Reservation(v)
    } else if tag == KEY_TYPE_INODE {
        BkeyValC::Inode(v)
    } else if tag == KEY_TYPE_INODE_GENERATION {
        BkeyValC::InodeGeneration(v)
    } else if tag == KEY_TYPE_DIRENT {
        BkeyValC::Dirent(v)
    } else if tag == KEY_TYPE_XATTR {
        BkeyValC::Xattr(v)
    } else if tag == KEY_TYPE_ALLOC {
        BkeyValC::Alloc(v)
    } else if tag == KEY_TYPE_QUOTA {
        BkeyValC::Quota(v)
    } else if tag == KEY_TYPE_STRIPE {
        BkeyValC::Stripe(v)
    } else if tag == KEY_TYPE_REFLINK_P {
        BkeyValC::ReflinkP(v)
    } else if tag == KEY_TYPE_REFLINK_V {
        BkeyValC::ReflinkV(v)
    } else if tag == KEY_TYPE_INLINE_DATA {
        BkeyValC::InlineData(v)
    } else if tag == KEY_TYPE_BTREE_PTR_V2 {
        BkeyValC::BtreePtrV2(v)
    } else if tag == KEY_TYPE_INDIRECT_INLINE_DATA {
        BkeyValC::IndirectInlineData(v)
    } else if tag == KEY_TYPE_ALLOC_V2 {
        BkeyValC::AllocV2(v)
    } else if tag == KEY_TYPE_SUBVOLUME {
        BkeyValC::Subvolume(v)
    } else if tag == KEY_TYPE_SNAPSHOT {
        BkeyValC::Snapshot(v)
    } else if tag == KEY_TYPE_INODE_V2 {
        BkeyValC::InodeV2(v)
    } else if tag == KEY_TYPE_ALLOC_V3 {
        BkeyValC::AllocV3(v)
    } else if tag == KEY_TYPE_SET {
        BkeyValC::KeySet
    } else if tag == KEY_TYPE_LRU {
        BkeyValC::Lru(v)
    } else if tag == KEY_TYPE_ALLOC_V4 {
        BkeyValC::AllocV4(v)
    } else if tag == KEY_TYPE_BACKPOINTER {
        BkeyValC::Backpointer(v)
    } else if tag == KEY_TYPE_INODE_V3 {
        BkeyValC::InodeV3(v)
    } else if tag == KEY_TYPE_BUCKET_GENS {
        BkeyValC::BucketGens(v)
    } else {
        BkeyValC::Unknown(tag)
    }
}

impl<'a> BkeySC<'a> {
    /// The record's payload, read under the record's type tag. A tag that no
    /// record type has gives `Unknown`, and the payload is left alone.
    pub fn v(&self) -> (r: BkeyValC<'a>)
        ensures
            r == decode(self.k.type_, self.v),
            r is Unknown <==> self.k.type_ >= KEY_TYPE_MAX,
    {
        let v: &'a [u8] = self.v;
        match self.k.type_ {
            0 => BkeyValC::Deleted,
            1 => BkeyValC::Whiteout,
            2 => BkeyValC::Error,
            3 => BkeyValC::Cookie(v),
            4 => BkeyValC::HashWhiteout(v),
            5 => BkeyValC::BtreePtr(v),
            6 => BkeyValC::Extent(v),
            7 => BkeyValC::Reservation(v),
            8 => BkeyValC::Inode(v),
            9 => BkeyValC::InodeGeneration(v),
            10 => BkeyValC::Dirent(v),
            11 => BkeyValC::Xattr(v),
            12 => BkeyValC::Alloc(v),
            13 => BkeyValC::Quota(v),
            14 => BkeyValC::Stripe(v),
            15 => BkeyValC::ReflinkP(v),
            16 => BkeyValC::ReflinkV(v),
            17 => BkeyValC::InlineData(v),
            18 => BkeyValC::BtreePtrV2(v),
            19 => BkeyValC::IndirectInlineData(v),
            20 => BkeyValC::AllocV2(v),
            21 => BkeyValC::Subvolume(v),
            22 => BkeyValC::Snapshot(v),
            23 => BkeyValC::InodeV2(v),
            24 => BkeyValC::AllocV3(v),
            25 => BkeyValC::KeySet,
            26 => BkeyValC::Lru(v),
            27 => BkeyValC::AllocV4(v),
            28 => BkeyValC::Backpointer(v),
            29 => BkeyValC::InodeV3(v),
            30 => BkeyValC::BucketGens(v),
            t => BkeyValC::Unknown(t),
        }
    }
}

/// The name of the record type with tag `tag`, or the tag in decimal where
/// no record type has it.
pub open spec fn type_text(tag: u8) -> Seq<char> {
    if tag == KEY_TYPE_DELETED {
        "deleted"@
    } else if tag == KEY_TYPE_WHITEOUT {
        "whiteout"@
    } else if tag == KEY_TYPE_ERROR {
        "error"@
    } else if tag == KEY_TYPE_COOKIE {
        "cookie"@
    } else if tag == KEY_TYPE_HASH_WHITEOUT {
        "hash_whiteout"@
    } else if tag == KEY_TYPE_BTREE_PTR {
        "btree_ptr"@
    } else if tag == KEY_TYPE_EXTENT {
        "extent"@
    } else if tag == KEY_TYPE_RESERVATION {
        "reservation"@
    } else if tag == KEY_TYPE_INODE {
        "inode"@
    } else if tag == KEY_TYPE_INODE_GENERATION {
        "inode_generation"@
    } else if tag == KEY_TYPE_DIRENT {
        "dirent"@
    } else if tag == KEY_TYPE_XATTR {
        "xattr"@
    } else if tag == KEY_TYPE_ALLOC {
        "alloc"@
    } else if tag == KEY_TYPE_QUOTA {
        "quota"@
    } else if tag == KEY_TYPE_STRIPE {
        "stripe"@
    } else if tag == KEY_TYPE_REFLINK_P {
        "reflink_p"@
    } else if tag == KEY_TYPE_REFLINK_V {
        "reflink_v"@
    } else if tag == KEY_TYPE_INLINE_DATA {
        "inline_data"@
    } else if tag == KEY_TYPE_BTREE_PTR_V2 {
        "btree_ptr_v2"@
    } else if tag == KEY_TYPE_INDIRECT_INLINE_DATA {
        "indirect_inline_data"@
    } else if tag == KEY_TYPE_ALLOC_V2 {
        "alloc_v2"@
    } else if tag == KEY_TYPE_SUBVOLUME {
        "subvolume"@
    } else if tag == KEY_TYPE_SNAPSHOT {
        "snapshot"@
    } else if tag == KEY_TYPE_INODE_V2 {
        "inode_v2"@
    } else if tag == KEY_TYPE_ALLOC_V3 {
        "alloc_v3"@
    } else if tag == KEY_TYPE_SET {
        "set"@
    } else if tag == KEY_TYPE_LRU {
        "lru"@
    } else if tag == KEY_TYPE_ALLOC_V4 {
        "alloc_v4"@
    } else if tag == KEY_TYPE_BACKPOINTER {
        "backpointer"@
    } else if tag == KEY_TYPE_INODE_V3 {
        "inode_v3"@
    } else if tag == KEY_TYPE_BUCKET_GENS {
        "bucket_gens"@
    } else {
        dec_text(tag as nat)
    }
}

/// The name of the record type with tag `tag`, or `None` where no record
/// type has it.
pub fn key_type_name(tag: u8) -> (r: Option<&'static str>)
    ensures
        r is Some <==> tag < KEY_TYPE_MAX,
        r matches Some(n) ==> n@ == type_text(tag),
{
    match tag {
        0 => Some("deleted"),
        1 => Some("whiteout"),
        2 => Some("error"),
        3 => Some("cookie"),
        4 => Some("hash_whiteout"),
        5 => Some("btree_ptr"),
        6 => Some("extent"),
        7 => Some("reservation"),
        8 => Some("inode"),
        9 => Some("inode_generation"),
        10 => Some("dirent"),
        11 => Some("xattr"),
        12 => Some("alloc"),
        13 => Some("quota"),
        14 => Some("stripe"),
        15 => Some("reflink_p"),
        16 => Some("reflink_v"),
        17 => Some("inline_data"),
        18 => Some("btree_ptr_v2"),
        19 => Some("indirect_inline_data"),
        20 => Some("alloc_v2"),
        21 => Some("subvolume"),
        22 => Some("snapshot"),
        23 => Some("inode_v2"),
        24 => Some("alloc_v3"),
        25 => Some("set"),
        26 => Some("lru"),
        27 => Some("alloc_v4"),
        28 => Some("backpointer"),
        29 => Some("inode_v3"),
        30 => Some("bucket_gens"),
        _ => None,
    }
}

/// The text of a record's header: its size, its type, its position and the
/// length that it covers.
pub open spec fn bkey_text(k: Bkey) -> Seq<char> {
    "u64s "@ + dec_text(k.u64s as nat) + " type "@ + type_text(k.type_) + " "@ + pos_text(k.p)
        + " len "@ + dec_text(k.size as nat)
}

impl Bkey {
    /// The text of the header.
    pub fn to_string(&self) -> (s: String)
        ensures
            s@ == bkey_text(*self),
    {
        let mut s = String::new();
        s.append("u64s ");
        push_decimal(&mut s, self.u64s as u64);
        s.append(" type ");
        match key_type_name(self.type_) {
            Some(n) => {
                s.append(n);
            },
            None => {
                push_decimal(&mut s, self.type_ as u64);
            },
        }
        s.append(" ");
        self.p.push_text(&mut s);
        s.append(" len ");
        push_decimal(&mut s, self.size as u64);
        assert(s@ =~= bkey_text(*self));
        s
    }
}

/// A record that waits to be turned into text, together with the filesystem
/// that it was read from.
#[derive(Clone, Copy)]
pub struct BkeySCToText<'a, 'b> {
    k: &'a BkeySC<'a>,
    fs: &'b Fs,
}

impl<'a> BkeySC<'a> {
    /// The record, ready to be turned into text in the setting of `fs`.
    pub fn to_text<'b>(&'a self, fs: &'b Fs) -> (t: BkeySCToText<'a, 'b>)
        ensures
            t.key() == *self.k,
            t.filesystem() == *fs,
    {
        BkeySCToText { k: self, fs }
    }
}

impl<'a, 'b> BkeySCToText<'a, 'b> {
    /// The header of the record.
    pub closed spec fn key(&self) -> Bkey {
        *self.k.k
    }

    /// The filesystem that the record was read from.
    pub closed spec fn filesystem(&self) -> Fs {
        *self.fs
    }

    /// The text of the record: that of its header.
    pub fn to_string(&self) -> (s: String)
        ensures
            s@ == bkey_text(self.key()),
    {
        self.k.k.to_string()
    }
}

} // verus!
