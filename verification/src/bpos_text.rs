//! Positions as text: `POS_MIN`, `POS_MAX`, `SPOS_MAX`, or inode, offset and
//! snapshot in decimal with colons between, the snapshot being 0 where it
//! is left out.

use crate::pos::{pos_max, pos_min, spos_max, Bpos};
use crate::text::{
    chars_of, dec_text, dec_text_is_digits, find_char, first_index, first_index_is, is_digit,
    parse_bounded, parse_decimal, parse_undoes_dec_text, push_decimal, spells,
};
use vstd::prelude::*;
use vstd::string::*;

verus! {

/// A text that is not a position.
#[derive(Clone, Copy, Debug, PartialEq, Eq, Structural)]
pub struct InvalidPosition;

impl InvalidPosition {
    /// The failure in words.
    pub fn message(&self) -> (r: &'static str)
        ensures
            r@ == "invalid position"@,
    {
        "invalid position"
    }
}

/// The text of the position `p`: inode, offset and snapshot in decimal,
/// with colons between.
pub open spec fn pos_text(p: Bpos) -> Seq<char> {
    dec_text(p.inode as nat) + seq![':'] + dec_text(p.offset as nat) + seq![':'] + dec_text(
        p.snapshot as nat,
    )
}

/// The position that fields with colons between read as: an inode and an
/// offset, and a snapshot where there is a second colon. `None` where a
/// field is missing, is not a number, or is a number too great for it.
pub open spec fn parse_fields(s: Seq<char>) -> Option<Bpos> {
    let i = first_index(s, ':');
    if i >= s.len() {
        None
    } else {
        let rest = s.skip(i + 1);
        let j = first_index(rest, ':');
        let inode = parse_bounded(s.take(i), u64::MAX as nat);
        let offset = parse_bounded(rest.take(j), u64::MAX as nat);
        let snapshot = if j >= rest.len() {
            Some(0nat)
        } else {
            parse_bounded(rest.skip(j + 1), u32::MAX as nat)
        };
        if inode is Some && offset is Some && snapshot is Some {
            Some(
                Bpos {
                    inode: inode->0 as u64,
                    offset: offset->0 as u64,
                    snapshot: snapshot->0 as u32,
                },
            )
        } else {
            None
        }
    }
}

/// The position that `s` reads as, or `None` where it is none.
pub open spec fn parse_bpos(s: Seq<char>) -> Option<Bpos> {
    if s == "POS_MIN"@ {
        Some(pos_min())
    } else if s == "POS_MAX"@ {
        Some(pos_max())
    } else if s == "SPOS_MAX"@ {
        Some(spos_max())
    } else {
        parse_fields(s)
    }
}

impl Bpos {
    /// The position that `s` reads as.
    pub fn from_str(s: &str) -> (r: Result<Bpos, InvalidPosition>)
        ensures
            match parse_bpos(s@) {
                Some(p) => r == Ok::<Bpos, InvalidPosition>(p),
                None => r == Err::<Bpos, InvalidPosition>(InvalidPosition),
            },
    {
        let v = chars_of(s);
        let n = v.len();
        assert(v@.subrange(0, n as int) =~= s@);
        if spells(&v, 0, n, "POS_MIN") {
            return Ok(pos_min());
        }
        if spells(&v, 0, n, "POS_MAX") {
            return Ok(pos_max());
        }
        if spells(&v, 0, n, "SPOS_MAX") {
            return Ok(spos_max());
        }
        assert(v@.skip(0) =~= s@);
        let i = find_char(&v, 0, ':');
        if i >= n {
            return Err(InvalidPosition);
        }
        let j = find_char(&v, i + 1, ':');
        let ghost rest = s@.skip(i + 1);
        proof {
            assert(v@.skip(i + 1) =~= rest);
            assert(v@.subrange(0, i as int) =~= s@.take(i as int));
            assert(v@.subrange(i + 1, j as int) =~= rest.take(j - (i + 1)));
            if j < n {
                assert(v@.subrange(j + 1, n as int) =~= rest.skip(j - (i + 1) + 1));
            }
        }
        let inode = match parse_decimal(&v, 0, i, u64::MAX) {
            Some(x) => x,
            None => {
                return Err(InvalidPosition);
            },
        };
        let offset = match parse_decimal(&v, i + 1, j, u64::MAX) {
            Some(x) => x,
            None => {
                return Err(InvalidPosition);
            },
        };
        let snapshot: u32 = if j >= n {
            0
        } else {
            match parse_decimal(&v, j + 1, n, u32::MAX as u64) {
                Some(x) => x as u32,
                None => {
                    return Err(InvalidPosition);
                },
            }
        };
        Ok(Bpos { inode, offset, snapshot })
    }

    /// The text of the position.
    pub fn to_string(&self) -> (s: String)
        ensures
            s@ == pos_text(*self),
    {
        let mut s = String::new();
        self.push_text(&mut s);
        s
    }

    /// Appends the text of the position to `out`.
    pub fn push_text(&self, out: &mut String)
        ensures
            final(out)@ == old(out)@ + pos_text(*self),
    {
        proof {
            reveal_strlit(":");
        }
        push_decimal(out, self.inode);
        out.append(":");
        push_decimal(out, self.offset);
        out.append(":");
        push_decimal(out, self.snapshot as u64);
        assert(out@ =~= old(out)@ + pos_text(*self));
    }
}

impl std::str::FromStr for Bpos {
    type Err = InvalidPosition;

    /// The position that `s` reads as: what `Bpos::from_str` gives.
    fn from_str(s: &str) -> (r: Result<Bpos, InvalidPosition>)
        ensures
            match parse_bpos(s@) {
                Some(p) => r == Ok::<Bpos, InvalidPosition>(p),
                None => r == Err::<Bpos, InvalidPosition>(InvalidPosition),
            },
    {
        Bpos::from_str(s)
    }
}

/// Reading the text of a position gives the position back. So the position
/// read stands to the least and to the greatest position, and to every other,
/// as the position written did.
pub proof fn parse_undoes_pos_text(p: Bpos)
    ensures
        parse_bpos(pos_text(p)) == Some(p),
{
    let a = dec_text(p.inode as nat);
    let b = dec_text(p.offset as nat);
    let c = dec_text(p.snapshot as nat);
    let s = pos_text(p);
    dec_text_is_digits(p.inode as nat);
    dec_text_is_digits(p.offset as nat);
    dec_text_is_digits(p.snapshot as nat);
    parse_undoes_dec_text(p.inode as nat);
    parse_undoes_dec_text(p.offset as nat);
    parse_undoes_dec_text(p.snapshot as nat);
    reveal_strlit("POS_MIN");
    reveal_strlit("POS_MAX");
    reveal_strlit("SPOS_MAX");
    assert(s[0] == a[0]);
    assert(is_digit(a[0]));
    assert("POS_MIN"@[0] == 'P');
    assert("POS_MAX"@[0] == 'P');
    assert("SPOS_MAX"@[0] == 'S');
    let i = a.len() as int;
    assert forall|k: int| 0 <= k < i implies s[k] != ':' by {
        assert(s[k] == a[k]);
        assert(is_digit(a[k]));
    }
    assert(s[i] == ':');
    first_index_is(s, ':', i);
    let rest = s.skip(i + 1);
    assert(rest =~= b + seq![':'] + c);
    assert(s.take(i) =~= a);
    let j = b.len() as int;
    assert forall|k: int| 0 <= k < j implies rest[k] != ':' by {
        assert(rest[k] == b[k]);
        assert(is_digit(b[k]));
    }
    assert(rest[j] == ':');
    first_index_is(rest, ':', j);
    assert(rest.take(j) =~= b);
    assert(rest.skip(j + 1) =~= c);
}

} // verus!
