use bcachefs_core::bpos_text::InvalidPosition;
use bcachefs_core::pos::{pos, pos_max, pos_min, spos, spos_max, Bpos};
use std::cmp::Ordering;

#[test]
fn spos_takes_all_three_fields() {
    let p = spos(1, 2, 3);
    assert_eq!(p.inode, 1);
    assert_eq!(p.offset, 2);
    assert_eq!(p.snapshot, 3);
}

#[test]
fn pos_is_in_snapshot_zero() {
    assert_eq!(pos(7, 9), Bpos { inode: 7, offset: 9, snapshot: 0 });
}

#[test]
fn sentinels_have_their_values() {
    assert_eq!(pos_min(), spos(0, 0, 0));
    assert_eq!(pos_max(), spos(u64::MAX, u64::MAX, 0));
    assert_eq!(spos_max(), spos(u64::MAX, u64::MAX, u32::MAX));
}

#[test]
fn inode_decides_first() {
    assert_eq!(spos(1, 9, 9).cmp(&spos(2, 0, 0)), Ordering::Less);
    assert_eq!(spos(2, 0, 0).cmp(&spos(1, 9, 9)), Ordering::Greater);
}

#[test]
fn offset_decides_second() {
    assert_eq!(spos(1, 1, 9).cmp(&spos(1, 2, 0)), Ordering::Less);
    assert_eq!(spos(1, 2, 0).cmp(&spos(1, 1, 9)), Ordering::Greater);
}

#[test]
fn snapshot_decides_last() {
    assert_eq!(spos(1, 2, 3).cmp(&spos(1, 2, 4)), Ordering::Less);
    assert_eq!(spos(1, 2, 4).cmp(&spos(1, 2, 3)), Ordering::Greater);
    assert_eq!(spos(1, 2, 3).cmp(&spos(1, 2, 3)), Ordering::Equal);
}

#[test]
fn operators_follow_the_order() {
    assert!(spos(1, 2, 3) < spos(1, 2, 4));
    assert!(spos(1, 2, 4) > spos(1, 2, 3));
    assert!(spos(1, 2, 3) <= spos(1, 2, 3));
    assert!(spos(1, 2, 3) >= spos(1, 2, 3));
    assert!(spos(1, 2, 3) == spos(1, 2, 3));
    assert!(spos(1, 2, 3) != spos(1, 2, 4));
    assert_eq!(spos(0, 5, 0).partial_cmp(&spos(0, 4, 9)), Some(Ordering::Greater));
}

#[test]
fn pos_max_lies_below_spos_max() {
    assert!(pos_max() < spos_max());
    assert!(pos_min() < pos_max());
}

#[test]
fn exactly_one_of_less_equal_greater() {
    let ps = [
        pos_min(),
        spos(0, 0, 1),
        spos(0, 1, 0),
        spos(1, 0, 0),
        spos(1, 2, 3),
        spos(u64::MAX, 0, 0),
        pos_max(),
        spos_max(),
    ];
    for a in ps.iter() {
        for b in ps.iter() {
            let n = (a < b) as u8 + (a == b) as u8 + (a > b) as u8;
            assert_eq!(n, 1);
            assert_eq!(a.cmp(b), b.cmp(a).reverse());
        }
    }
}

#[test]
fn order_is_transitive_on_samples() {
    let ps = [
        pos_min(),
        spos(0, 0, 1),
        spos(0, 1, 0),
        spos(1, 0, 0),
        spos(1, 2, 3),
        pos_max(),
        spos_max(),
    ];
    for a in ps.iter() {
        for b in ps.iter() {
            for c in ps.iter() {
                if a < b && b < c {
                    assert!(a < c);
                }
                if a <= b && b <= c {
                    assert!(a <= c);
                }
            }
        }
    }
}

#[test]
fn sorting_uses_the_same_order() {
    let mut v = vec![spos(2, 0, 0), spos(1, 5, 0), spos(1, 5, 1), spos(0, 9, 9), spos(1, 4, 7)];
    v.sort();
    assert_eq!(
        v,
        vec![spos(0, 9, 9), spos(1, 4, 7), spos(1, 5, 0), spos(1, 5, 1), spos(2, 0, 0)]
    );
    for w in v.windows(2) {
        assert_eq!(w[0].cmp(&w[1]), Ordering::Less);
    }
}

#[test]
fn successor_counts_up_the_snapshot() {
    assert_eq!(spos(1, 2, 3).successor(), Some(spos(1, 2, 4)));
}

#[test]
fn successor_carries_into_the_offset() {
    assert_eq!(spos(1, 2, u32::MAX).successor(), Some(spos(1, 3, 0)));
}

#[test]
fn successor_carries_into_the_inode() {
    assert_eq!(spos(1, u64::MAX, u32::MAX).successor(), Some(spos(2, 0, 0)));
}

#[test]
fn greatest_position_has_no_successor() {
    assert_eq!(spos_max().successor(), None);
    assert_eq!(pos_max().successor(), Some(spos(u64::MAX, u64::MAX, 1)));
}

#[test]
fn named_sentinels_parse() {
    assert_eq!(Bpos::from_str("POS_MIN"), Ok(pos_min()));
    assert_eq!(Bpos::from_str("POS_MAX"), Ok(pos_max()));
    assert_eq!(Bpos::from_str("SPOS_MAX"), Ok(spos_max()));
}

#[test]
fn two_fields_default_the_snapshot() {
    assert_eq!(Bpos::from_str("4096:8"), Ok(spos(4096, 8, 0)));
}

#[test]
fn three_fields_parse() {
    assert_eq!(Bpos::from_str("4096:8:7"), Ok(spos(4096, 8, 7)));
    assert_eq!(Bpos::from_str("0:0:0"), Ok(pos_min()));
    assert_eq!(
        Bpos::from_str("18446744073709551615:18446744073709551615:4294967295"),
        Ok(spos_max())
    );
}

#[test]
fn a_plus_sign_and_leading_zeros_are_read() {
    assert_eq!(Bpos::from_str("+1:+2:+3"), Ok(spos(1, 2, 3)));
    assert_eq!(Bpos::from_str("001:002:003"), Ok(spos(1, 2, 3)));
}

#[test]
fn a_missing_field_is_invalid() {
    assert_eq!(Bpos::from_str(""), Err(InvalidPosition));
    assert_eq!(Bpos::from_str("1"), Err(InvalidPosition));
    assert_eq!(Bpos::from_str("1:"), Err(InvalidPosition));
    assert_eq!(Bpos::from_str(":1"), Err(InvalidPosition));
    assert_eq!(Bpos::from_str(":"), Err(InvalidPosition));
}

#[test]
fn a_field_that_is_no_number_is_invalid() {
    assert_eq!(Bpos::from_str("a:2"), Err(InvalidPosition));
    assert_eq!(Bpos::from_str("1:b"), Err(InvalidPosition));
    assert_eq!(Bpos::from_str("1:2:x"), Err(InvalidPosition));
    assert_eq!(Bpos::from_str("1:2:"), Err(InvalidPosition));
    assert_eq!(Bpos::from_str("-1:2"), Err(InvalidPosition));
    assert_eq!(Bpos::from_str(" 1:2"), Err(InvalidPosition));
    assert_eq!(Bpos::from_str("1:2 "), Err(InvalidPosition));
    assert_eq!(Bpos::from_str("+:2"), Err(InvalidPosition));
    assert_eq!(Bpos::from_str("pos_min"), Err(InvalidPosition));
    assert_eq!(Bpos::from_str("POS_MINX"), Err(InvalidPosition));
}

#[test]
fn a_fourth_field_is_invalid() {
    assert_eq!(Bpos::from_str("1:2:3:4"), Err(InvalidPosition));
}

#[test]
fn a_number_too_great_is_invalid() {
    assert_eq!(Bpos::from_str("18446744073709551616:0"), Err(InvalidPosition));
    assert_eq!(Bpos::from_str("0:18446744073709551616"), Err(InvalidPosition));
    assert_eq!(Bpos::from_str("0:0:4294967296"), Err(InvalidPosition));
    assert_eq!(Bpos::from_str("99999999999999999999999999:0"), Err(InvalidPosition));
}

#[test]
fn invalid_position_says_so() {
    assert_eq!(InvalidPosition.message(), "invalid position");
}

#[test]
fn text_is_three_decimal_fields() {
    assert_eq!(spos(4096, 8, 7).to_string(), "4096:8:7");
    assert_eq!(pos_min().to_string(), "0:0:0");
    assert_eq!(
        spos_max().to_string(),
        "18446744073709551615:18446744073709551615:4294967295"
    );
    assert_eq!(pos_max().to_string(), "18446744073709551615:18446744073709551615:0");
}

#[test]
fn push_text_appends() {
    let mut s = String::from("at ");
    spos(10, 200, 3000).push_text(&mut s);
    assert_eq!(s, "at 10:200:3000");
}

#[test]
fn parsing_undoes_formatting() {
    let ps = [
        pos_min(),
        spos(0, 0, 1),
        spos(9, 10, 11),
        spos(1 << 40, 1 << 50, 1 << 20),
        spos(u64::MAX, 0, u32::MAX),
        pos_max(),
        spos_max(),
    ];
    for p in ps.iter() {
        let back = Bpos::from_str(&p.to_string());
        assert_eq!(back, Ok(*p));
        let q = back.unwrap();
        assert_eq!(q.cmp(&pos_min()), p.cmp(&pos_min()));
        assert_eq!(q.cmp(&pos_max()), p.cmp(&pos_max()));
        assert_eq!(q.cmp(&spos_max()), p.cmp(&spos_max()));
        assert_eq!(q.to_string(), p.to_string());
    }
}

#[test]
fn positions_parse_through_the_trait_too() {
    assert_eq!("4096:8:7".parse::<Bpos>(), Ok(spos(4096, 8, 7)));
    assert_eq!("SPOS_MAX".parse::<Bpos>(), Ok(spos_max()));
    assert_eq!("4096".parse::<Bpos>(), Err(InvalidPosition));
}
