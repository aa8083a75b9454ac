use bcachefs_core::bkey::{key_type_name, Bkey, BkeySC, BkeyValC, KEY_TYPE_MAX};
use bcachefs_core::fs::Fs;
use bcachefs_core::pos::{spos, spos_max};

fn key(type_: u8) -> Bkey {
    Bkey { u64s: 5, type_, size: 8, p: spos(4096, 8, 1) }
}

fn name_of(v: &BkeyValC) -> &'static str {
    match v {
        BkeyValC::Deleted => "deleted",
        BkeyValC::Whiteout => "whiteout",
        BkeyValC::Error => "error",
        BkeyValC::Cookie(_) => "cookie",
        BkeyValC::HashWhiteout(_) => "hash_whiteout",
        BkeyValC::BtreePtr(_) => "btree_ptr",
        BkeyValC::Extent(_) => "extent",
        BkeyValC::Reservation(_) => "reservation",
        BkeyValC::Inode(_) => "inode",
        BkeyValC::InodeGeneration(_) => "inode_generation",
        BkeyValC::Dirent(_) => "dirent",
        BkeyValC::Xattr(_) => "xattr",
        BkeyValC::Alloc(_) => "alloc",
        BkeyValC::Quota(_) => "quota",
        BkeyValC::Stripe(_) => "stripe",
        BkeyValC::ReflinkP(_) => "reflink_p",
        BkeyValC::ReflinkV(_) => "reflink_v",
        BkeyValC::InlineData(_) => "inline_data",
        BkeyValC::BtreePtrV2(_) => "btree_ptr_v2",
        BkeyValC::IndirectInlineData(_) => "indirect_inline_data",
        BkeyValC::AllocV2(_) => "alloc_v2",
        BkeyValC::Subvolume(_) => "subvolume",
        BkeyValC::Snapshot(_) => "snapshot",
        BkeyValC::InodeV2(_) => "inode_v2",
        BkeyValC::AllocV3(_) => "alloc_v3",
        BkeyValC::KeySet => "set",
        BkeyValC::Lru(_) => "lru",
        BkeyValC::AllocV4(_) => "alloc_v4",
        BkeyValC::Backpointer(_) => "backpointer",
        BkeyValC::InodeV3(_) => "inode_v3",
        BkeyValC::BucketGens(_) => "bucket_gens",
        BkeyValC::Unknown(_) => "unknown",
    }
}

fn payload_of<'a>(v: &BkeyValC<'a>) -> Option<&'a [u8]> {
    match *v {
        BkeyValC::Deleted
        | BkeyValC::Whiteout
        | BkeyValC::Error
        | BkeyValC::KeySet
        | BkeyValC::Unknown(_) => None,
        BkeyValC::Cookie(p)
        | BkeyValC::HashWhiteout(p)
        | BkeyValC::BtreePtr(p)
        | BkeyValC::Extent(p)
        | BkeyValC::Reservation(p)
        | BkeyValC::Inode(p)
        | BkeyValC::InodeGeneration(p)
        | BkeyValC::Dirent(p)
        | BkeyValC::Xattr(p)
        | BkeyValC::Alloc(p)
        | BkeyValC::Quota(p)
        | BkeyValC::Stripe(p)
        | BkeyValC::ReflinkP(p)
        | BkeyValC::ReflinkV(p)
        | BkeyValC::InlineData(p)
        | BkeyValC::BtreePtrV2(p)
        | BkeyValC::IndirectInlineData(p)
        | BkeyValC::AllocV2(p)
        | BkeyValC::Subvolume(p)
        | BkeyValC::Snapshot(p)
        | BkeyValC::InodeV2(p)
        | BkeyValC::AllocV3(p)
        | BkeyValC::Lru(p)
        | BkeyValC::AllocV4(p)
        | BkeyValC::Backpointer(p)
        | BkeyValC::InodeV3(p)
        | BkeyValC::BucketGens(p) => Some(p),
    }
}

#[test]
fn every_known_tag_has_its_own_payload_type() {
    let payload = [1u8, 2, 3, 4, 5, 6, 7, 8];
    let mut seen = Vec::new();
    for tag in 0..KEY_TYPE_MAX {
        let k = key(tag);
        let rec = BkeySC { k: &k, v: &payload };
        let v = rec.v();
        assert_eq!(Some(name_of(&v)), key_type_name(tag));
        assert!(!seen.contains(&name_of(&v)));
        seen.push(name_of(&v));
        match payload_of(&v) {
            Some(p) => assert_eq!(p, &payload),
            None => assert!(tag <= 2 || tag == 25),
        }
    }
    assert_eq!(seen.len(), 31);
}

#[test]
fn chosen_tags_decode_as_named() {
    let payload = [9u8; 4];
    let decoded = |tag: u8| {
        let k = key(tag);
        name_of(&BkeySC { k: &k, v: &payload }.v())
    };
    assert_eq!(decoded(0), "deleted");
    assert_eq!(decoded(6), "extent");
    assert_eq!(decoded(8), "inode");
    assert_eq!(decoded(10), "dirent");
    assert_eq!(decoded(11), "xattr");
    assert_eq!(decoded(12), "alloc");
    assert_eq!(decoded(15), "reflink_p");
    assert_eq!(decoded(24), "alloc_v3");
    assert_eq!(decoded(25), "set");
    assert_eq!(decoded(28), "backpointer");
    assert_eq!(decoded(29), "inode_v3");
    assert_eq!(decoded(30), "bucket_gens");
}

#[test]
fn a_tag_that_no_type_has_is_unknown() {
    let payload = [1u8, 2, 3];
    for tag in [31u8, 32, 100, 255] {
        let k = key(tag);
        let rec = BkeySC { k: &k, v: &payload };
        assert!(matches!(rec.v(), BkeyValC::Unknown(t) if t == tag));
        assert_eq!(key_type_name(tag), None);
    }
}

#[test]
fn a_header_is_put_into_words() {
    assert_eq!(key(6).to_string(), "u64s 5 type extent 4096:8:1 len 8");
    let k = Bkey { u64s: 255, type_: 30, size: u32::MAX, p: spos_max() };
    assert_eq!(
        k.to_string(),
        "u64s 255 type bucket_gens 18446744073709551615:18446744073709551615:4294967295 len 4294967295"
    );
}

#[test]
fn an_unknown_type_is_written_as_its_tag() {
    assert_eq!(key(31).to_string(), "u64s 5 type 31 4096:8:1 len 8");
    assert_eq!(key(255).to_string(), "u64s 5 type 255 4096:8:1 len 8");
}

#[test]
fn a_record_is_written_as_its_header() {
    let fs = Fs::new();
    let k = key(10);
    let payload = [0u8; 16];
    let rec = BkeySC { k: &k, v: &payload };
    assert_eq!(rec.to_text(&fs).to_string(), "u64s 5 type dirent 4096:8:1 len 8");
}
