use bcachefs_core::bkey::Bkey;
use bcachefs_core::btree::{
    BtreeIter, BtreeIterFlags, BtreeTrans, BTREE_ITER_ALL_SNAPSHOTS, BTREE_ITER_CACHED,
    BTREE_ITER_KEY_CACHE_FILL, BTREE_ITER_PREFETCH, BTREE_ITER_SLOTS,
};
use bcachefs_core::cmd_list::{list_fs_opts, list_keys, ErrorAction, FixErrors, FsOpts};
use bcachefs_core::errcode::ErrorCode;
use bcachefs_core::fs::{lower_bound, BtreeId, Fs, InvalidBtreeId, BTREE_ID_NR};
use bcachefs_core::pos::{pos, pos_max, pos_min, spos, spos_max, Bpos};

fn key(p: Bpos, type_: u8) -> Bkey {
    Bkey { u64s: 3, type_, size: 0, p }
}

fn sample() -> Fs {
    let mut fs = Fs::new();
    for (p, t) in [
        (spos(2, 0, 0), 8),
        (spos(1, 5, 1), 6),
        (spos(1, 5, 0), 6),
        (spos(3, 7, 9), 10),
        (spos(1, 4, 7), 6),
    ] {
        fs.insert(BtreeId::Extents, key(p, t), vec![t; 4]);
    }
    fs.insert(BtreeId::Inodes, key(spos(0, 4096, 0), 8), vec![1, 2, 3]);
    fs
}

fn positions(fs: &Fs, id: BtreeId) -> Vec<Bpos> {
    fs.records(id).iter().map(|r| r.k.p).collect()
}

/// Walks a cursor from `start` until it finds nothing, looking no further
/// than `end`, and gives the positions found.
fn walk(fs: &Fs, id: BtreeId, start: Bpos, end: Bpos) -> Vec<Bpos> {
    let trans = BtreeTrans::new(fs);
    let mut it = BtreeIter::new(&trans, id, start, BtreeIterFlags::from_bits(BTREE_ITER_PREFETCH));
    let mut found = Vec::new();
    let mut steps = 0;
    while let Some(k) = it.peek_and_restart().unwrap() {
        if k.k.p > end {
            break;
        }
        found.push(k.k.p);
        it.advance();
        steps += 1;
        assert!(steps <= 1000);
    }
    found
}

#[test]
fn a_new_filesystem_is_empty() {
    let fs = Fs::new();
    for id in [BtreeId::Extents, BtreeId::Inodes, BtreeId::BucketGens] {
        assert_eq!(fs.len(id), 0);
        assert_eq!(fs.get_fault(id), None);
    }
}

#[test]
fn records_are_kept_in_the_order_of_their_positions() {
    let fs = sample();
    assert_eq!(
        positions(&fs, BtreeId::Extents),
        vec![spos(1, 4, 7), spos(1, 5, 0), spos(1, 5, 1), spos(2, 0, 0), spos(3, 7, 9)]
    );
    assert_eq!(fs.len(BtreeId::Extents), 5);
    assert_eq!(fs.len(BtreeId::Inodes), 1);
    assert_eq!(fs.len(BtreeId::Dirents), 0);
}

#[test]
fn a_record_at_a_position_that_is_taken_replaces() {
    let mut fs = sample();
    fs.insert(BtreeId::Extents, key(spos(1, 5, 1), 17), vec![0xee]);
    assert_eq!(fs.len(BtreeId::Extents), 5);
    let r = &fs.records(BtreeId::Extents)[2];
    assert_eq!(r.k.p, spos(1, 5, 1));
    assert_eq!(r.k.type_, 17);
    assert_eq!(r.v, vec![0xee]);
}

#[test]
fn lower_bound_is_the_first_at_or_after() {
    let fs = sample();
    let keys = fs.records(BtreeId::Extents);
    assert_eq!(lower_bound(keys, pos_min()), 0);
    assert_eq!(lower_bound(keys, spos(1, 4, 7)), 0);
    assert_eq!(lower_bound(keys, spos(1, 4, 8)), 1);
    assert_eq!(lower_bound(keys, spos(1, 5, 1)), 2);
    assert_eq!(lower_bound(keys, spos(2, 0, 1)), 4);
    assert_eq!(lower_bound(keys, spos(3, 7, 9)), 4);
    assert_eq!(lower_bound(keys, spos(3, 7, 10)), 5);
    assert_eq!(lower_bound(keys, spos_max()), 5);
    assert_eq!(lower_bound(fs.records(BtreeId::Lru), pos_min()), 0);
}

#[test]
fn peek_finds_the_first_record_at_or_after_the_cursor() {
    let fs = sample();
    let trans = BtreeTrans::new(&fs);
    let mut it = BtreeIter::new(&trans, BtreeId::Extents, spos(1, 5, 0), BtreeIterFlags::empty());
    let k = it.peek().unwrap().unwrap();
    assert_eq!(k.k.p, spos(1, 5, 0));
    assert_eq!(k.k.type_, 6);
    assert_eq!(k.v, &[6u8, 6, 6, 6]);
    let mut it = BtreeIter::new(&trans, BtreeId::Extents, spos(1, 5, 2), BtreeIterFlags::empty());
    assert_eq!(it.peek().unwrap().unwrap().k.p, spos(2, 0, 0));
}

#[test]
fn peek_does_not_move_past_what_it_finds() {
    let fs = sample();
    let trans = BtreeTrans::new(&fs);
    let mut it = BtreeIter::new(&trans, BtreeId::Extents, pos_min(), BtreeIterFlags::empty());
    for _ in 0..3 {
        assert_eq!(it.peek().unwrap().unwrap().k.p, spos(1, 4, 7));
        assert_eq!(it.peek_and_restart().unwrap().unwrap().k.p, spos(1, 4, 7));
        assert_eq!(it.peek_upto(spos(1, 4, 7)).unwrap().unwrap().k.p, spos(1, 4, 7));
    }
}

#[test]
fn advance_moves_strictly_past_the_record_found() {
    let fs = sample();
    let trans = BtreeTrans::new(&fs);
    let mut it = BtreeIter::new(&trans, BtreeId::Extents, pos_min(), BtreeIterFlags::empty());
    assert_eq!(it.peek().unwrap().unwrap().k.p, spos(1, 4, 7));
    it.advance();
    assert_eq!(it.peek().unwrap().unwrap().k.p, spos(1, 5, 0));
    it.advance();
    assert_eq!(it.peek().unwrap().unwrap().k.p, spos(1, 5, 1));
    it.advance();
    it.advance();
    assert_eq!(it.peek().unwrap().unwrap().k.p, spos(2, 0, 0));
}

#[test]
fn peek_upto_stops_at_the_end_given() {
    let fs = sample();
    let trans = BtreeTrans::new(&fs);
    let mut it = BtreeIter::new(&trans, BtreeId::Extents, spos(1, 5, 2), BtreeIterFlags::empty());
    assert!(it.peek_upto(spos(1, 9, 9)).unwrap().is_none());
    assert!(it.peek_upto(pos(2, 0)).unwrap().is_some());
    let mut it = BtreeIter::new(&trans, BtreeId::Extents, spos(3, 7, 10), BtreeIterFlags::empty());
    assert!(it.peek_upto(spos_max()).unwrap().is_none());
    assert!(it.peek().unwrap().is_none());
    assert!(it.peek_and_restart().unwrap().is_none());
}

#[test]
fn a_walk_finds_every_record_in_order_and_ends() {
    let fs = sample();
    let found = walk(&fs, BtreeId::Extents, pos_min(), pos_max());
    assert_eq!(found, positions(&fs, BtreeId::Extents));
    for w in found.windows(2) {
        assert!(w[0] <= w[1]);
    }
    assert_eq!(walk(&fs, BtreeId::Inodes, pos_min(), pos_max()), vec![spos(0, 4096, 0)]);
    assert_eq!(walk(&fs, BtreeId::Dirents, pos_min(), pos_max()), vec![]);
}

#[test]
fn a_walk_ends_at_the_greatest_position() {
    let mut fs = Fs::new();
    fs.insert(BtreeId::Lru, key(pos_max(), 26), vec![]);
    fs.insert(BtreeId::Lru, key(spos_max(), 26), vec![]);
    fs.insert(BtreeId::Lru, key(pos_min(), 26), vec![]);
    assert_eq!(walk(&fs, BtreeId::Lru, pos_min(), spos_max()), vec![pos_min(), pos_max(), spos_max()]);
    assert_eq!(walk(&fs, BtreeId::Lru, pos_min(), pos_max()), vec![pos_min(), pos_max()]);
    let trans = BtreeTrans::new(&fs);
    let mut it = BtreeIter::new(&trans, BtreeId::Lru, spos_max(), BtreeIterFlags::empty());
    assert_eq!(it.peek().unwrap().unwrap().k.p, spos_max());
    it.advance();
    assert!(it.peek().unwrap().is_none());
    it.advance();
    assert!(it.peek().unwrap().is_none());
}

#[test]
fn a_btree_that_cannot_be_read_gives_its_reason() {
    let mut fs = sample();
    fs.set_fault(BtreeId::Extents, ErrorCode::Other(5));
    assert_eq!(fs.get_fault(BtreeId::Extents), Some(ErrorCode::Other(5)));
    assert_eq!(fs.get_fault(BtreeId::Inodes), None);
    let trans = BtreeTrans::new(&fs);
    let mut it = BtreeIter::new(&trans, BtreeId::Extents, pos_min(), BtreeIterFlags::empty());
    assert_eq!(it.peek().err(), Some(ErrorCode::Other(5)));
    assert_eq!(it.peek_upto(spos_max()).err(), Some(ErrorCode::Other(5)));
    assert_eq!(it.peek_and_restart().err(), Some(ErrorCode::Other(5)));
    let mut it = BtreeIter::new(&trans, BtreeId::Inodes, pos_min(), BtreeIterFlags::empty());
    assert!(it.peek().unwrap().is_some());
    assert_eq!(list_keys(&fs, BtreeId::Extents, pos_min(), spos_max()), Err(ErrorCode::Other(5)));
    assert!(list_keys(&fs, BtreeId::Inodes, pos_min(), spos_max()).is_ok());
}

#[test]
fn listing_gives_the_text_of_each_record_in_range() {
    let fs = sample();
    assert_eq!(
        list_keys(&fs, BtreeId::Extents, pos_min(), spos_max()),
        Ok(vec![
            String::from("u64s 3 type extent 1:4:7 len 0"),
            String::from("u64s 3 type extent 1:5:0 len 0"),
            String::from("u64s 3 type extent 1:5:1 len 0"),
            String::from("u64s 3 type inode 2:0:0 len 0"),
            String::from("u64s 3 type dirent 3:7:9 len 0"),
        ])
    );
    assert_eq!(
        list_keys(&fs, BtreeId::Extents, spos(1, 5, 0), spos(2, 0, 0)),
        Ok(vec![
            String::from("u64s 3 type extent 1:5:0 len 0"),
            String::from("u64s 3 type extent 1:5:1 len 0"),
            String::from("u64s 3 type inode 2:0:0 len 0"),
        ])
    );
    assert_eq!(
        list_keys(&fs, BtreeId::Extents, spos(1, 5, 1), spos(1, 9, 9)),
        Ok(vec![String::from("u64s 3 type extent 1:5:1 len 0")])
    );
}

#[test]
fn listing_an_empty_range_gives_nothing() {
    let fs = sample();
    assert_eq!(list_keys(&fs, BtreeId::Extents, spos(2, 0, 0), spos(1, 5, 0)), Ok(vec![]));
    assert_eq!(list_keys(&fs, BtreeId::Extents, spos(4, 0, 0), spos_max()), Ok(vec![]));
    assert_eq!(list_keys(&fs, BtreeId::Extents, pos_min(), spos(1, 4, 6)), Ok(vec![]));
    assert_eq!(list_keys(&fs, BtreeId::Xattrs, pos_min(), spos_max()), Ok(vec![]));
}

#[test]
fn btrees_have_their_names() {
    let all = [
        (BtreeId::Extents, "extents"),
        (BtreeId::Inodes, "inodes"),
        (BtreeId::Dirents, "dirents"),
        (BtreeId::Xattrs, "xattrs"),
        (BtreeId::Alloc, "alloc"),
        (BtreeId::Quotas, "quotas"),
        (BtreeId::Stripes, "stripes"),
        (BtreeId::Reflink, "reflink"),
        (BtreeId::Subvolumes, "subvolumes"),
        (BtreeId::Snapshots, "snapshots"),
        (BtreeId::Lru, "lru"),
        (BtreeId::Freespace, "freespace"),
        (BtreeId::NeedDiscard, "need_discard"),
        (BtreeId::Backpointers, "backpointers"),
        (BtreeId::BucketGens, "bucket_gens"),
    ];
    assert_eq!(all.len(), BTREE_ID_NR);
    for (i, (id, name)) in all.iter().enumerate() {
        assert_eq!(id.index(), i);
        assert_eq!(id.name(), *name);
        assert_eq!(BtreeId::from_str(name), Ok(*id));
    }
}

#[test]
fn a_name_that_no_btree_has_is_invalid() {
    for s in ["", "extent", "extentss", "Extents", " inodes", "btree"] {
        assert_eq!(BtreeId::from_str(s), Err(InvalidBtreeId));
    }
    assert_eq!(InvalidBtreeId.message(), "invalid btree id");
}

#[test]
fn flags_are_bits_that_go_together() {
    assert_eq!(BTREE_ITER_SLOTS, 1);
    assert_eq!(BTREE_ITER_PREFETCH, 8);
    assert_eq!(BTREE_ITER_ALL_SNAPSHOTS, 2048);
    assert_eq!(BTREE_ITER_KEY_CACHE_FILL, 32768);
    let a = BtreeIterFlags::from_bits(BTREE_ITER_ALL_SNAPSHOTS);
    let b = BtreeIterFlags::from_bits(BTREE_ITER_PREFETCH);
    let both = a.union(b);
    assert_eq!(both.bits(), 2056);
    assert!(both.contains(a));
    assert!(both.contains(b));
    assert!(!a.contains(b));
    assert!(!both.contains(BtreeIterFlags::from_bits(BTREE_ITER_CACHED)));
    assert!(both.contains(BtreeIterFlags::empty()));
    assert!(BtreeIterFlags::empty().is_empty());
    assert!(!both.is_empty());
    assert_eq!(BtreeIterFlags::all().bits(), u16::MAX);
    assert_eq!(BtreeIterFlags::from_bits(BTREE_ITER_CACHED | BTREE_ITER_ALL_SNAPSHOTS).bits(), 2112);
}

#[test]
fn a_filesystem_is_opened_for_listing_without_changes() {
    assert_eq!(
        list_fs_opts(false, false),
        FsOpts {
            nochanges: Some(true),
            norecovery: Some(true),
            degraded: Some(true),
            errors: Some(ErrorAction::Continue),
            fix_errors: None,
            verbose: None,
        }
    );
    assert_eq!(
        list_fs_opts(true, true),
        FsOpts {
            nochanges: Some(true),
            norecovery: Some(false),
            degraded: Some(true),
            errors: Some(ErrorAction::Continue),
            fix_errors: Some(FixErrors::Yes),
            verbose: Some(true),
        }
    );
}

#[test]
fn btrees_parse_through_the_trait_too() {
    assert_eq!("inodes".parse::<BtreeId>(), Ok(BtreeId::Inodes));
    assert_eq!("nodes".parse::<BtreeId>(), Err(InvalidBtreeId));
}
