//! Decimal numerals: parsing signed 32-bit values out of strings and
//! rendering them back, proved against one pair of spec functions.

use vstd::prelude::*;
use vstd::string::StrSliceExecFns;
use vstd::string::StringExecFns;

verus! {

/// The character standing for one decimal digit value.
pub open spec fn digit_char(d: int) -> char {
    if d == 0 {
        '0'
    } else if d == 1 {
        '1'
    } else if d == 2 {
        '2'
    } else if d == 3 {
        '3'
    } else if d == 4 {
        '4'
    } else if d == 5 {
        '5'
    } else if d == 6 {
        '6'
    } else if d == 7 {
        '7'
    } else if d == 8 {
        '8'
    } else {
        '9'
    }
}

pub open spec fn is_digit(c: char) -> bool {
    48 <= c as int && c as int <= 57
}

pub open spec fn digit_val(c: char) -> int {
    c as int - 48
}

pub open spec fn all_digits(s: Seq<char>) -> bool {
    forall|i: int| 0 <= i < s.len() ==> is_digit(#[trigger] s[i])
}

/// Value of a string of decimal digits, most significant first.
pub open spec fn dec_val(s: Seq<char>) -> int
    decreases s.len(),
{
    if s.len() == 0 {
        0
    } else {
        dec_val(s.drop_last()) * 10 + digit_val(s.last())
    }
}

/// Decimal rendering of a non-negative value, without sign or leading zeros.
pub open spec fn dec_seq(n: int) -> Seq<char>
    decreases n,
{
    if n < 10 {
        seq![digit_char(n)]
    } else {
        dec_seq(n / 10).push(digit_char(n % 10))
    }
}

/// Decimal rendering of a signed value: a leading '-' for negatives.
pub open spec fn i32_dec_seq(n: int) -> Seq<char> {
    if n < 0 {
        seq!['-'] + dec_seq(-n)
    } else {
        dec_seq(n)
    }
}

/// Whether the string opens with an explicit sign character.
pub open spec fn has_sign(s: Seq<char>) -> bool {
    s.len() > 0 && (s[0] == '+' || s[0] == '-')
}

/// The digits of the numeral, with any leading sign removed.
pub open spec fn magnitude_part(s: Seq<char>) -> Seq<char> {
    if has_sign(s) {
        s.subrange(1, s.len() as int)
    } else {
        s
    }
}

pub open spec fn is_negative_numeral(s: Seq<char>) -> bool {
    s.len() > 0 && s[0] == '-'
}

/// An optional sign followed by at least one digit.
pub open spec fn is_numeral(s: Seq<char>) -> bool {
    magnitude_part(s).len() > 0 && all_digits(magnitude_part(s))
}

pub open spec fn numeral_val(s: Seq<char>) -> int {
    if is_negative_numeral(s) {
        -dec_val(magnitude_part(s))
    } else {
        dec_val(magnitude_part(s))
    }
}

/// A numeral whose value fits in a 32-bit signed integer.
pub open spec fn parses_to_i32(s: Seq<char>) -> bool {
    is_numeral(s) && -0x8000_0000 <= numeral_val(s) && numeral_val(s) <= 0x7fff_ffff
}

proof fn lemma_dec_val_nonneg(s: Seq<char>)
    requires
        all_digits(s),
    ensures
        dec_val(s) >= 0,
    decreases s.len(),
{
    if s.len() > 0 {
        assert(all_digits(s.drop_last()));
        lemma_dec_val_nonneg(s.drop_last());
    }
}

/// Appending digits never shrinks a numeral's value.
proof fn lemma_dec_val_prefix_le(s: Seq<char>, k: int)
    requires
        all_digits(s),
        0 <= k <= s.len(),
    ensures
        dec_val(s.subrange(0, k)) <= dec_val(s),
    decreases s.len() - k,
{
    if k < s.len() {
        let t = s.subrange(0, k + 1);
        assert(t.drop_last() =~= s.subrange(0, k));
        assert(all_digits(t));
        lemma_dec_val_nonneg(t.drop_last());
        assert(dec_val(t) == dec_val(s.subrange(0, k)) * 10 + digit_val(s[k]));
        assert(dec_val(s.subrange(0, k)) <= dec_val(t));
        lemma_dec_val_prefix_le(s, k + 1);
        assert(s.subrange(0, s.len() as int) =~= s);
    } else {
        assert(s.subrange(0, k) =~= s);
    }
}

/// Parse a signed decimal numeral exactly as a 32-bit integer parse would:
/// an optional sign, then one or more digits, value within the i32 range.
pub fn parse_i32(s: &str) -> (r: Option<i32>)
    ensures
        r is Some <==> parses_to_i32(s@),
        r is Some ==> r.unwrap() as int == numeral_val(s@),
{
    let n = s.unicode_len();
    if n == 0 {
        return None;
    }
    let c0 = s.get_char(0);
    let mut idx: usize = 0;
    let mut neg: bool = false;
    if c0 == '+' || c0 == '-' {
        neg = c0 == '-';
        idx = 1;
    }
    if idx == n {
        // a bare sign has no digits
        return None;
    }
    let ghost m = magnitude_part(s@);
    proof {
        assert(m =~= s@.subrange(idx as int, n as int));
        assert(neg == is_negative_numeral(s@));
    }
    let mut acc: u64 = 0;
    let mut i: usize = idx;
    while i < n
        invariant
            idx <= i <= n,
            n == s@.len(),
            idx == 0 || idx == 1,
            m == magnitude_part(s@),
            m =~= s@.subrange(idx as int, n as int),
            all_digits(s@.subrange(idx as int, i as int)),
            acc as int == dec_val(s@.subrange(idx as int, i as int)),
            acc <= 0x8000_0000,
        decreases n - i,
    {
        let c = s.get_char(i);
        let d = c as u32;
        if d < 48 || d > 57 {
            proof {
                // the magnitude holds a non-digit, so no parse succeeds
                assert(m[i - idx] == s@[i as int]);
                assert(!is_digit(m[i - idx]));
            }
            return None;
        }
        proof {
            let p = s@.subrange(idx as int, i + 1);
            assert(p.drop_last() =~= s@.subrange(idx as int, i as int));
            assert(p.last() == s@[i as int]);
        }
        acc = acc * 10 + (d - 48) as u64;
        i = i + 1;
        if acc > 0x8000_0000 {
            proof {
                // every longer digit string is worth at least this prefix,
                // which already overflows the i32 range either way
                let p = s@.subrange(idx as int, i as int);
                if is_numeral(s@) {
                    assert(p =~= m.subrange(0, i - idx));
                    lemma_dec_val_prefix_le(m, i - idx);
                }
            }
            return None;
        }
    }
    proof {
        assert(s@.subrange(idx as int, i as int) =~= m);
        assert(is_numeral(s@));
        if neg {
            assert(numeral_val(s@) == -(acc as int));
        } else {
            assert(numeral_val(s@) == acc as int);
        }
    }
    if neg {
        Some((-(acc as i64)) as i32)
    } else {
        if acc > 0x7fff_ffff {
            return None;
        }
        Some(acc as i32)
    }
}

/// The one-character string for a digit value.
fn digit_str(d: u32) -> (r: &'static str)
    requires
        d < 10,
    ensures
        r@ =~= seq![digit_char(d as int)],
{
    proof {
        reveal_strlit("0");
        reveal_strlit("1");
        reveal_strlit("2");
        reveal_strlit("3");
        reveal_strlit("4");
        reveal_strlit("5");
        reveal_strlit("6");
        reveal_strlit("7");
        reveal_strlit("8");
        reveal_strlit("9");
    }
    if d == 0 {
        "0"
    } else if d == 1 {
        "1"
    } else if d == 2 {
        "2"
    } else if d == 3 {
        "3"
    } else if d == 4 {
        "4"
    } else if d == 5 {
        "5"
    } else if d == 6 {
        "6"
    } else if d == 7 {
        "7"
    } else if d == 8 {
        "8"
    } else {
        "9"
    }
}

/// The digit characters of the given values, least significant first in
/// `ds`, read back most significant first.
spec fn rev_chars(ds: Seq<u32>) -> Seq<char> {
    Seq::new(ds.len(), |k: int| digit_char(ds[ds.len() - 1 - k] as int))
}

proof fn lemma_rev_chars_push(ds: Seq<u32>, d: u32)
    ensures
        rev_chars(ds.push(d)) =~= seq![digit_char(d as int)] + rev_chars(ds),
{
}

/// Render an unsigned value in decimal.
pub fn u32_to_dec(n: u32) -> (r: String)
    ensures
        r@ == dec_seq(n as int),
{
    if n == 0 {
        let r = "0".to_owned();
        proof {
            reveal_strlit("0");
            assert(r@ =~= dec_seq(0));
        }
        return r;
    }
    let mut ds: Vec<u32> = Vec::new();
    let mut m = n;
    while m > 0
        invariant
            forall|k: int| 0 <= k < ds@.len() ==> #[trigger] ds@[k] < 10,
            dec_seq(n as int) =~= (if m > 0 {
                dec_seq(m as int)
            } else {
                Seq::<char>::empty()
            }) + rev_chars(ds@),
        decreases m,
    {
        let d = m % 10;
        proof {
            lemma_rev_chars_push(ds@, d);
            if m >= 10 {
                assert(dec_seq(m as int) == dec_seq(m as int / 10).push(digit_char(m as int % 10)));
                assert(dec_seq(m as int / 10).push(digit_char(m as int % 10)) =~= dec_seq(
                    m as int / 10,
                ) + seq![digit_char(m as int % 10)]);
            }
            assert(m as int / 10 == (m / 10) as int);
            assert(m as int % 10 == d as int);
        }
        ds.push(d);
        m = m / 10;
        proof {
            assert(dec_seq(n as int) =~= (if m > 0 {
                dec_seq(m as int)
            } else {
                Seq::<char>::empty()
            }) + rev_chars(ds@));
        }
    }
    let ghost rc = rev_chars(ds@);
    proof {
        assert(dec_seq(n as int) =~= rc);
    }
    let mut out = String::new();
    let mut i = ds.len();
    while i > 0
        invariant
            i <= ds@.len(),
            rc == rev_chars(ds@),
            forall|k: int| 0 <= k < ds@.len() ==> #[trigger] ds@[k] < 10,
            out@ =~= rc.subrange(0, ds@.len() - i),
        decreases i,
    {
        i = i - 1;
        out.append(digit_str(ds[i]));
        proof {
            assert(out@ =~= rc.subrange(0, ds@.len() - i));
        }
    }
    proof {
        assert(rc.subrange(0, ds@.len() as int) =~= rc);
    }
    out
}

/// Render a signed value in decimal, matching `i32_dec_seq`.
pub fn i32_to_dec(n: i32) -> (r: String)
    ensures
        r@ == i32_dec_seq(n as int),
{
    if n < 0 {
        let mag: u32 = (-(n as i64)) as u32;
        proof {
            assert(mag as int == -(n as int));
        }
        let mut out = "-".to_owned();
        let digits = u32_to_dec(mag);
        out.append(digits.as_str());
        proof {
            reveal_strlit("-");
            assert(out@ =~= seq!['-'] + dec_seq(-(n as int)));
        }
        out
    } else {
        u32_to_dec(n as u32)
    }
}

} // verus!
