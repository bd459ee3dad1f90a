//! Decimal text: parsing signed 32-bit integers from text and rendering
//! them back, with exact specifications of both directions.

use vstd::prelude::*;
use vstd::string::StrSliceExecFns;
use vstd::string::StringExecFns;

verus! {

/// A decimal digit character.
pub open spec fn is_dec_digit(c: char) -> bool {
    '0' <= c && c <= '9'
}

/// Numeric value of one digit character.
pub open spec fn digit_val(c: char) -> int {
    c as int - '0' as int
}

/// Every character of `s` is a decimal digit.
pub open spec fn all_dec_digits(s: Seq<char>) -> bool {
    forall|i: int| 0 <= i < s.len() ==> is_dec_digit(#[trigger] s[i])
}

/// Value of a digit string, most significant digit first.
pub open spec fn digits_val(s: Seq<char>) -> int
    decreases s.len(),
{
    if s.len() == 0 {
        0
    } else {
        digits_val(s.drop_last()) * 10 + digit_val(s.last())
    }
}

/// The value denoted by `sign` (1 or -1) and a digit string, as `i32`,
/// or `None` when the digit string is empty, not all digits, or the
/// value does not fit.
pub open spec fn signed_digits_to_i32(sign: int, digits: Seq<char>) -> Option<i32> {
    if digits.len() == 0 || !all_dec_digits(digits) {
        None
    } else if i32::MIN <= sign * digits_val(digits) <= i32::MAX {
        Some((sign * digits_val(digits)) as i32)
    } else {
        None
    }
}

/// What parsing `s` as an `i32` yields: an optional single leading `+`
/// or `-`, then one or more decimal digits, and the value must fit.
pub open spec fn parse_i32_spec(s: Seq<char>) -> Option<i32> {
    if s.len() > 0 && s[0] == '-' {
        signed_digits_to_i32(-1, s.skip(1))
    } else if s.len() > 0 && s[0] == '+' {
        signed_digits_to_i32(1, s.skip(1))
    } else {
        signed_digits_to_i32(1, s)
    }
}

proof fn lemma_digits_val_nonneg(s: Seq<char>)
    requires
        all_dec_digits(s),
    ensures
        digits_val(s) >= 0,
    decreases s.len(),
{
    if s.len() > 0 {
        assert(all_dec_digits(s.drop_last())) by {
            assert(forall|i: int|
                0 <= i < s.len() - 1 ==> is_dec_digit(#[trigger] s.drop_last()[i]));
        }
        lemma_digits_val_nonneg(s.drop_last());
    }
}

/// A digit string is worth at least any of its prefixes.
proof fn lemma_digits_val_prefix_le(s: Seq<char>, i: int)
    requires
        all_dec_digits(s),
        0 <= i <= s.len(),
    ensures
        digits_val(s.take(i)) <= digits_val(s),
    decreases s.len() - i,
{
    if i == s.len() {
        assert(s.take(i) =~= s);
    } else {
        assert(all_dec_digits(s.take(i))) by {
            assert(forall|j: int| 0 <= j < i ==> is_dec_digit(#[trigger] s.take(i)[j]));
        }
        lemma_digits_val_nonneg(s.take(i));
        assert(s.take(i + 1).drop_last() =~= s.take(i));
        assert(s.take(i + 1).last() == s[i]);
        assert(digits_val(s.take(i + 1)) == digits_val(s.take(i)) * 10 + digit_val(s[i]));
        lemma_digits_val_prefix_le(s, i + 1);
    }
}

/// Parse `s` as a signed 32-bit decimal integer, exactly as
/// `parse_i32_spec` describes.
pub fn parse_i32(s: &str) -> (r: Option<i32>)
    ensures
        r == parse_i32_spec(s@),
{
    let n = s.unicode_len();
    let mut start: usize = 0;
    let mut negative: bool = false;
    if n > 0 {
        let c0 = s.get_char(0);
        if c0 == '-' {
            negative = true;
            start = 1;
        } else if c0 == '+' {
            start = 1;
        }
    }
    let ghost sign: int = if negative { -1int } else { 1int };
    let ghost digits: Seq<char> = if start == 1 { s@.skip(1) } else { s@ };
    proof {
        assert(parse_i32_spec(s@) == signed_digits_to_i32(sign, digits));
    }
    if start >= n {
        return None;
    }
    let mut acc: i64 = 0;
    let mut i: usize = start;
    while i < n
        invariant
            n == s@.len(),
            start <= i <= n,
            start < n,
            digits == (if start == 1 { s@.skip(1) } else { s@ }),
            digits.len() == n - start,
            sign == (if negative { -1int } else { 1int }),
            parse_i32_spec(s@) == signed_digits_to_i32(sign, digits),
            all_dec_digits(s@.subrange(start as int, i as int)),
            acc == digits_val(s@.subrange(start as int, i as int)),
            0 <= acc <= 0x8000_0000,
        decreases n - i,
    {
        let c = s.get_char(i);
        if !(c >= '0' && c <= '9') {
            proof {
                if start == 1 {
                    assert(s@.skip(1)[i - 1] == s@[i as int]);
                    assert(!is_dec_digit(digits[i - 1]));
                } else {
                    assert(!is_dec_digit(digits[i as int]));
                }
                assert(!all_dec_digits(digits));
            }
            return None;
        }
        let d: i64 = (c as u32) as i64 - '0' as i64;
        acc = acc * 10 + d;
        i = i + 1;
        proof {
            let pre = s@.subrange(start as int, i - 1);
            let cur = s@.subrange(start as int, i as int);
            assert(cur.drop_last() =~= pre);
            assert(cur.last() == s@[i - 1]);
            assert forall|j: int| 0 <= j < cur.len() implies is_dec_digit(#[trigger] cur[j]) by {
                if j < cur.len() - 1 {
                    assert(cur[j] == pre[j]);
                }
            };
            assert(acc == digits_val(cur));
        }
        if acc > 0x8000_0000 {
            proof {
                let cur = s@.subrange(start as int, i as int);
                if all_dec_digits(digits) {
                    let k = i - start;
                    if start == 1 {
                        assert(s@.skip(1).len() == n - 1);
                    }
                    assert(digits.len() == n - start);
                    assert forall|j: int| 0 <= j < k implies digits.take(k)[j] == cur[j] by {
                        assert(digits.take(k)[j] == digits[j]);
                        if start == 1 {
                            assert(s@.skip(1)[j] == s@[j + 1]);
                        }
                        assert(cur[j] == s@[j + start]);
                    };
                    assert(digits.take(k) =~= cur);
                    lemma_digits_val_prefix_le(digits, k);
                    assert(digits_val(digits) > 0x8000_0000);
                }
            }
            return None;
        }
    }
    proof {
        assert(s@.subrange(start as int, n as int) =~= digits);
    }
    if negative {
        let v: i64 = -acc;
        proof {
            assert(sign * digits_val(digits) == v as int);
        }
        Some(v as i32)
    } else {
        if acc > 0x7fff_ffff {
            proof {
                assert(sign * digits_val(digits) == acc as int);
            }
            return None;
        }
        Some(acc as i32)
    }
}

/// The character for digit value `d`.
pub open spec fn dec_digit_char(d: int) -> char {
    if d == 0 {
        '0'
    } else if d == 1 {
        '1'
    } else if d == 2 {
        '2'
    } else if d == 3 {
        '3'
    } else if d == 4 {
        '4'
    } else if d == 5 {
        '5'
    } else if d == 6 {
        '6'
    } else if d == 7 {
        '7'
    } else if d == 8 {
        '8'
    } else {
        '9'
    }
}

/// Decimal rendering of a non-negative integer, without sign or
/// leading zeros (a single `0` for zero).
pub open spec fn dec_str(n: int) -> Seq<char>
    decreases n,
{
    if n < 10 {
        seq![dec_digit_char(n)]
    } else {
        dec_str(n / 10).push(dec_digit_char(n % 10))
    }
}

/// Decimal rendering of a signed integer: a `-` before the digits of
/// the magnitude when negative.
pub open spec fn int_str(n: int) -> Seq<char> {
    if n < 0 {
        seq!['-'] + dec_str(-n)
    } else {
        dec_str(n)
    }
}

/// One digit as a string slice.
fn digit_str(d: u32) -> (r: &'static str)
    requires
        d < 10,
    ensures
        r@ =~= seq![dec_digit_char(d as int)],
{
    proof {
        reveal_strlit("0");
        reveal_strlit("1");
        reveal_strlit("2");
        reveal_strlit("3");
        reveal_strlit("4");
        reveal_strlit("5");
        reveal_strlit("6");
        reveal_strlit("7");
        reveal_strlit("8");
        reveal_strlit("9");
    }
    match d {
        0 => "0",
        1 => "1",
        2 => "2",
        3 => "3",
        4 => "4",
        5 => "5",
        6 => "6",
        7 => "7",
        8 => "8",
        _ => "9",
    }
}

/// Digits of `n`, most significant first.
fn u32_digits(n: u32) -> (r: String)
    ensures
        r@ == dec_str(n as int),
    decreases n,
{
    if n < 10 {
        String::from_str(digit_str(n))
    } else {
        let mut s = u32_digits(n / 10);
        s.append(digit_str(n % 10));
        proof {
            assert(dec_str(n as int) =~= dec_str(n as int / 10).push(dec_digit_char(n as int % 10)));
            assert(s@ =~= dec_str(n as int / 10) + seq![dec_digit_char(n as int % 10)]);
        }
        s
    }
}

proof fn lemma_dec_str_value(n: int)
    requires
        n >= 0,
    ensures
        dec_str(n).len() >= 1,
        all_dec_digits(dec_str(n)),
        digits_val(dec_str(n)) == n,
    decreases n,
{
    if n < 10 {
        assert(digits_val(seq![dec_digit_char(n)]) == digit_val(dec_digit_char(n))) by {
            reveal_with_fuel(digits_val, 3);
            assert(seq![dec_digit_char(n)].drop_last() =~= Seq::<char>::empty());
            assert(digits_val(Seq::<char>::empty()) == 0);
        }
    } else {
        lemma_dec_str_value(n / 10);
        let t = dec_str(n / 10);
        let c = dec_digit_char(n % 10);
        assert(t.push(c).drop_last() =~= t);
        assert(t.push(c).last() == c);
        assert(digits_val(dec_str(n)) == (n / 10) * 10 + n % 10);
        vstd::arithmetic::div_mod::lemma_fundamental_div_mod(n, 10);
        assert(all_dec_digits(t.push(c))) by {
            assert(forall|i: int| 0 <= i < t.len() ==> t.push(c)[i] == t[i]);
        }
    }
}

/// Rendering an integer in decimal and parsing the text back yields
/// the same integer.
pub proof fn lemma_render_parse_round_trip(n: i32)
    ensures
        parse_i32_spec(int_str(n as int)) == Some(n),
{
    if n >= 0 {
        lemma_dec_str_value(n as int);
        let s = dec_str(n as int);
        assert(is_dec_digit(s[0]));
        assert(s[0] != '-' && s[0] != '+');
        assert(parse_i32_spec(s) == signed_digits_to_i32(1, s));
        assert(1 * digits_val(s) == n as int);
    } else {
        lemma_dec_str_value(-(n as int));
        let t = dec_str(-(n as int));
        let s = seq!['-'] + t;
        assert(int_str(n as int) == s);
        assert(s[0] == '-');
        assert(s.skip(1) =~= t);
        assert(parse_i32_spec(s) == signed_digits_to_i32(-1, t));
        assert(-1 * digits_val(t) == n as int);
    }
}

/// Render `n` in decimal, exactly as `int_str` describes.
pub fn i32_to_string(n: i32) -> (r: String)
    ensures
        r@ == int_str(n as int),
{
    if n >= 0 {
        u32_digits(n as u32)
    } else {
        let m: u32 = (-(n as i64)) as u32;
        let mut s = String::from_str("-");
        proof {
            reveal_strlit("-");
        }
        let digits = u32_digits(m);
        s.append(digits.as_str());
        proof {
            assert(s@ =~= seq!['-'] + dec_str(-(n as int)));
        }
        s
    }
}

} // verus!
