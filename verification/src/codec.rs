//! Decimal encoding and decoding of user ids.
//!
//! A session cookie carries a user id rendered in decimal. This module
//! renders an `i32` to its decimal text and parses such text back, with an
//! exact round-trip guarantee.

use vstd::prelude::*;

verus! {

/// A decimal digit: one of the characters '0' through '9'.
pub open spec fn is_dec_digit(c: char) -> bool {
    48 <= c as u32 <= 57
}

/// The numeric value of a decimal digit character.
pub open spec fn digit_val(c: char) -> int {
    c as u32 - 48
}

/// Every character of `s` is a decimal digit.
pub open spec fn all_digits(s: Seq<char>) -> bool {
    forall|i: int| 0 <= i < s.len() ==> is_dec_digit(#[trigger] s[i])
}

/// The value of a digit string read in base ten.
pub open spec fn seq_val(s: Seq<char>) -> int
    decreases s.len(),
{
    if s.len() == 0 {
        0
    } else {
        seq_val(s.drop_last()) * 10 + digit_val(s.last())
    }
}

/// What parsing a candidate payload yields: the represented id, or nothing
/// when the text is not an optionally '-'-signed digit string whose value
/// fits in an `i32`.
pub open spec fn parse_spec(s: Seq<char>) -> Option<i32> {
    if s.len() == 0 {
        None
    } else {
        let neg = s[0] == '-';
        let ds = if neg {
            s.subrange(1, s.len() as int)
        } else {
            s
        };
        if ds.len() == 0 || !all_digits(ds) {
            None
        } else {
            let v = seq_val(ds);
            if neg {
                if v <= 2147483648 {
                    Some((-v) as i32)
                } else {
                    None
                }
            } else {
                if v <= 2147483647 {
                    Some(v as i32)
                } else {
                    None
                }
            }
        }
    }
}

/// A digit string has a nonnegative value.
pub proof fn lemma_seq_val_nonneg(s: Seq<char>)
    requires
        all_digits(s),
    ensures
        seq_val(s) >= 0,
    decreases s.len(),
{
    if s.len() > 0 {
        assert(all_digits(s.drop_last()));
        lemma_seq_val_nonneg(s.drop_last());
    }
}

/// Reading more digits never lowers the value: the value of a prefix is a
/// lower bound for the value of the whole digit string.
pub proof fn lemma_seq_val_prefix_bound(s: Seq<char>, i: int)
    requires
        all_digits(s),
        0 <= i <= s.len(),
    ensures
        seq_val(s.take(i)) <= seq_val(s),
    decreases s.len(),
{
    if i == s.len() {
        assert(s.take(i) =~= s);
    } else {
        let dl = s.drop_last();
        assert(all_digits(dl));
        assert(s.take(i) =~= dl.take(i));
        lemma_seq_val_prefix_bound(dl, i);
        lemma_seq_val_nonneg(dl);
        assert(seq_val(dl) * 10 >= seq_val(dl));
        assert(digit_val(s.last()) >= 0);
    }
}

/// The single character of text for one decimal digit.
fn digit_str(d: u32) -> (r: &'static str)
    requires
        d < 10,
    ensures
        r@.len() == 1,
        is_dec_digit(r@[0]),
        digit_val(r@[0]) == d as int,
{
    proof {
        reveal_strlit("0");
        reveal_strlit("1");
        reveal_strlit("2");
        reveal_strlit("3");
        reveal_strlit("4");
        reveal_strlit("5");
        reveal_strlit("6");
        reveal_strlit("7");
        reveal_strlit("8");
        reveal_strlit("9");
    }
    match d {
        0 => "0",
        1 => "1",
        2 => "2",
        3 => "3",
        4 => "4",
        5 => "5",
        6 => "6",
        7 => "7",
        8 => "8",
        _ => "9",
    }
}

/// Renders a magnitude in decimal, most significant digit first.
pub fn render_mag(m: u32) -> (r: String)
    ensures
        all_digits(r@),
        r@.len() >= 1,
        seq_val(r@) == m as int,
    decreases m,
{
    proof {
        vstd::arithmetic::div_mod::lemma_fundamental_div_mod(m as int, 10);
    }
    if m < 10 {
        let r = String::from_str(digit_str(m));
        proof {
            assert(r@.drop_last() =~= Seq::<char>::empty());
            assert(seq_val(r@) == seq_val(r@.drop_last()) * 10 + digit_val(r@.last()));
        }
        r
    } else {
        let mut s = render_mag(m / 10);
        let ghost s0 = s@;
        let d = digit_str(m % 10);
        s.append(d);
        proof {
            assert(s@.drop_last() =~= s0);
            assert(seq_val(s@) == seq_val(s0) * 10 + digit_val(d@[0]));
        }
        s
    }
}

/// Renders a user id in decimal, with a leading '-' when negative; the
/// result parses back to exactly the same id.
pub fn render_id(id: i32) -> (r: String)
    ensures
        parse_spec(r@) == Some(id),
{
    if id >= 0 {
        let r = render_mag(id as u32);
        proof {
            assert(!(r@[0] == '-'));
        }
        r
    } else {
        let m: u32 = (-(id as i64)) as u32;
        let mag = render_mag(m);
        let mut r = String::from_str("-");
        r.append(mag.as_str());
        proof {
            reveal_strlit("-");
            assert(r@[0] == '-');
            assert(r@.subrange(1, r@.len() as int) =~= mag@);
        }
        r
    }
}

/// Parses an optionally signed decimal payload back to a user id; yields
/// `None` on any text that is not such a rendering of an in-range id.
pub fn parse_id(s: &str) -> (r: Option<i32>)
    ensures
        r == parse_spec(s@),
{
    let len: usize = s.unicode_len();
    if len == 0 {
        return None;
    }
    let first = s.get_char(0);
    let neg = first == '-';
    let start: usize = if neg {
        1
    } else {
        0
    };
    if start == len {
        return None;
    }
    let ghost ds = if neg {
        s@.subrange(1, s@.len() as int)
    } else {
        s@
    };
    let mut acc: u64 = 0;
    let mut i: usize = start;
    while i < len
        invariant
            start <= i <= len,
            len == s@.len(),
            start == if neg { 1int } else { 0int },
            neg ==> s@[0] == '-',
            !neg ==> !(s@[0] == '-'),
            ds == if neg { s@.subrange(1, s@.len() as int) } else { s@ },
            ds.len() == len - start,
            all_digits(s@.subrange(start as int, i as int)),
            acc == seq_val(s@.subrange(start as int, i as int)),
            acc <= 2147483648,
        decreases len - i,
    {
        let c = s.get_char(i);
        let u: u32 = c as u32;
        if u < 48 || u > 57 {
            proof {
                assert(ds[i - start] == s@[i as int]);
                assert(!all_digits(ds));
            }
            return None;
        }
        let d: u64 = (u - 48) as u64;
        let acc2: u64 = acc * 10 + d;
        proof {
            let pre = s@.subrange(start as int, i as int);
            let cur = s@.subrange(start as int, i + 1 as int);
            assert(cur.drop_last() =~= pre);
            assert(cur.last() == s@[i as int]);
            assert(seq_val(cur) == acc2 as int);
        }
        if acc2 > 2147483648 {
            proof {
                let cur = s@.subrange(start as int, i + 1 as int);
                if all_digits(ds) {
                    assert(cur =~= ds.take(i + 1 - start));
                    lemma_seq_val_prefix_bound(ds, i + 1 - start);
                    assert(seq_val(ds) > 2147483648);
                }
            }
            return None;
        }
        acc = acc2;
        i = i + 1;
    }
    proof {
        assert(s@.subrange(start as int, len as int) =~= ds);
    }
    if neg {
        let v: i32 = (-(acc as i64)) as i32;
        Some(v)
    } else {
        if acc > 2147483647 {
            None
        } else {
            Some(acc as i32)
        }
    }
}

} // verus!
