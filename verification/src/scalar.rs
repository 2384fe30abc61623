//! Scalar numeric marshalling.
//!
//! Replies carry decimal numbers, sometimes with a unit suffix glued on
//! (`"128ns"`, `"0.4mV"`); outbound commands embed decimal numbers built from
//! typed values. This module strips unit suffixes, parses decimal integers
//! and prints them.

use vstd::prelude::*;
use vstd::string::StrSliceExecFns;
use vstd::string::StringExecFns;
use crate::codec::str_eq;
use crate::error::Error;

verus! {

pub open spec fn is_digit(c: char) -> bool {
    '0' <= c && c <= '9'
}

pub open spec fn digit_val(c: char) -> nat {
    (c as nat - '0' as nat) as nat
}

pub open spec fn all_digits(s: Seq<char>) -> bool {
    forall|i: int| 0 <= i < s.len() ==> is_digit(#[trigger] s[i])
}

/// The value of a string of decimal digits.
pub open spec fn dec_value(s: Seq<char>) -> nat
    decreases s.len(),
{
    if s.len() == 0 {
        0
    } else {
        dec_value(s.drop_last()) * 10 + digit_val(s.last())
    }
}

/// The text that denotes an unsigned number: a non-empty run of digits.
pub open spec fn is_number(s: Seq<char>) -> bool {
    s.len() > 0 && all_digits(s)
}

/// The text that denotes a signed number: an optional leading minus sign
/// followed by a non-empty run of digits.
pub open spec fn is_signed_number(s: Seq<char>) -> bool {
    if s.len() > 0 && s[0] == '-' {
        is_number(s.subrange(1, s.len() as int))
    } else {
        is_number(s)
    }
}

/// The value of a signed decimal string.
pub open spec fn signed_value(s: Seq<char>) -> int {
    if s.len() > 0 && s[0] == '-' {
        -(dec_value(s.subrange(1, s.len() as int)) as int)
    } else {
        dec_value(s) as int
    }
}

/// A prefix of a digit string never exceeds the value of the whole string.
pub proof fn lemma_dec_value_prefix(s: Seq<char>, i: int)
    requires
        0 <= i <= s.len(),
    ensures
        dec_value(s.subrange(0, i)) <= dec_value(s),
    decreases s.len() - i,
{
    if i == s.len() {
        assert(s.subrange(0, i) =~= s);
    } else {
        lemma_dec_value_prefix(s, i + 1);
        let t = s.subrange(0, i + 1);
        assert(t.drop_last() =~= s.subrange(0, i));
        assert(dec_value(s.subrange(0, i)) <= dec_value(t));
    }
}

/// What the unsigned parsers promise: `Ok` exactly on digit strings whose
/// value fits the width, with the exact value; a typed error otherwise.
pub open spec fn u32_decoded(r: Result<u32, Error>, t: Seq<char>) -> bool {
    &&& (r is Ok <==> is_number(t) && dec_value(t) <= u32::MAX)
    &&& (r matches Ok(n) ==> n == dec_value(t))
    &&& (r matches Err(e) ==> e matches Error::MalformedNumber { token } && token@ == t)
}

pub open spec fn u16_decoded(r: Result<u16, Error>, t: Seq<char>) -> bool {
    &&& (r is Ok <==> is_number(t) && dec_value(t) <= u16::MAX)
    &&& (r matches Ok(n) ==> n == dec_value(t))
    &&& (r matches Err(e) ==> e matches Error::MalformedNumber { token } && token@ == t)
}

pub open spec fn u8_decoded(r: Result<u8, Error>, t: Seq<char>) -> bool {
    &&& (r is Ok <==> is_number(t) && dec_value(t) <= u8::MAX)
    &&& (r matches Ok(n) ==> n == dec_value(t))
    &&& (r matches Err(e) ==> e matches Error::MalformedNumber { token } && token@ == t)
}

/// What the signed parser promises.
pub open spec fn i32_decoded(r: Result<i32, Error>, t: Seq<char>) -> bool {
    &&& (r is Ok <==> is_signed_number(t) && i32::MIN <= signed_value(t) <= i32::MAX)
    &&& (r matches Ok(n) ==> n == signed_value(t))
    &&& (r matches Err(e) ==> e matches Error::MalformedNumber { token } && token@ == t)
}

/// Parses a non-empty run of decimal digits as a `u32`.
pub fn parse_u32(s: &str) -> (r: Result<u32, Error>)
    ensures
        u32_decoded(r, s@),
{
    let n = s.unicode_len();
    if n == 0 {
        return Err(Error::MalformedNumber { token: s.to_owned() });
    }
    let mut acc: u64 = 0;
    let mut i: usize = 0;
    while i < n
        invariant
            n == s@.len(),
            0 <= i <= n,
            all_digits(s@.subrange(0, i as int)),
            acc == dec_value(s@.subrange(0, i as int)),
            acc <= u32::MAX,
        decreases n - i,
    {
        let c = s.get_char(i);
        if c < '0' || c > '9' {
            return Err(Error::MalformedNumber { token: s.to_owned() });
        }
        let d: u64 = (c as u32 - '0' as u32) as u64;
        acc = acc * 10 + d;
        i = i + 1;
        proof {
            let t = s@.subrange(0, i as int);
            assert(t.drop_last() =~= s@.subrange(0, i - 1));
            assert(t.last() == s@[i - 1]);
        }
        if acc > 0xffff_ffff {
            proof {
                lemma_dec_value_prefix(s@, i as int);
            }
            return Err(Error::MalformedNumber { token: s.to_owned() });
        }
    }
    proof {
        assert(s@.subrange(0, n as int) =~= s@);
    }
    Ok(acc as u32)
}

/// Parses a non-empty run of decimal digits as a `u16`.
pub fn parse_u16(s: &str) -> (r: Result<u16, Error>)
    ensures
        u16_decoded(r, s@),
{
    match parse_u32(s) {
        Ok(n) => {
            if n <= 0xffff {
                Ok(n as u16)
            } else {
                Err(Error::MalformedNumber { token: s.to_owned() })
            }
        },
        Err(e) => Err(e),
    }
}

/// Parses a non-empty run of decimal digits as a `u8`.
pub fn parse_u8(s: &str) -> (r: Result<u8, Error>)
    ensures
        u8_decoded(r, s@),
{
    match parse_u32(s) {
        Ok(n) => {
            if n <= 0xff {
                Ok(n as u8)
            } else {
                Err(Error::MalformedNumber { token: s.to_owned() })
            }
        },
        Err(e) => Err(e),
    }
}

/// Parses an optional minus sign and a run of decimal digits as an `i32`.
pub fn parse_i32(s: &str) -> (r: Result<i32, Error>)
    ensures
        i32_decoded(r, s@),
{
    let n = s.unicode_len();
    if n > 0 && s.get_char(0) == '-' {
        let digits = s.substring_char(1, n);
        match parse_u32(digits) {
            Ok(v) => {
                proof {
                    assert(digits@ =~= s@.subrange(1, s@.len() as int));
                }
                if v <= 0x8000_0000 {
                    Ok((-(v as i64)) as i32)
                } else {
                    Err(Error::MalformedNumber { token: s.to_owned() })
                }
            },
            Err(_) => Err(Error::MalformedNumber { token: s.to_owned() }),
        }
    } else {
        match parse_u32(s) {
            Ok(v) => {
                if v <= 0x7fff_ffff {
                    Ok(v as i32)
                } else {
                    Err(Error::MalformedNumber { token: s.to_owned() })
                }
            },
            Err(e) => Err(e),
        }
    }
}

/// The canonical decimal text of a number: no sign, no leading zero except
/// for zero itself.
pub open spec fn dec_string(n: nat) -> Seq<char>
    decreases n,
{
    if n < 10 {
        seq![digit_char(n)]
    } else {
        dec_string(n / 10).push(digit_char(n % 10))
    }
}

pub open spec fn digit_char(d: nat) -> char {
    if d == 0 { '0' }
    else if d == 1 { '1' }
    else if d == 2 { '2' }
    else if d == 3 { '3' }
    else if d == 4 { '4' }
    else if d == 5 { '5' }
    else if d == 6 { '6' }
    else if d == 7 { '7' }
    else if d == 8 { '8' }
    else { '9' }
}

/// The decimal text of a negative number: a minus sign before the digits of
/// the magnitude.
pub open spec fn signed_dec_string(n: int) -> Seq<char> {
    if n < 0 {
        seq!['-'] + dec_string((-n) as nat)
    } else {
        dec_string(n as nat)
    }
}

fn digit_str(d: u64) -> (r: &'static str)
    requires
        d < 10,
    ensures
        r@ =~= seq![digit_char(d as nat)],
{
    proof {
        reveal_strlit("0");
        reveal_strlit("1");
        reveal_strlit("2");
        reveal_strlit("3");
        reveal_strlit("4");
        reveal_strlit("5");
        reveal_strlit("6");
        reveal_strlit("7");
        reveal_strlit("8");
        reveal_strlit("9");
    }
    if d == 0 { "0" }
    else if d == 1 { "1" }
    else if d == 2 { "2" }
    else if d == 3 { "3" }
    else if d == 4 { "4" }
    else if d == 5 { "5" }
    else if d == 6 { "6" }
    else if d == 7 { "7" }
    else if d == 8 { "8" }
    else { "9" }
}

fn u64_to_string(n: u64) -> (r: String)
    ensures
        r@ == dec_string(n as nat),
    decreases n,
{
    if n < 10 {
        digit_str(n).to_owned()
    } else {
        let head = u64_to_string(n / 10);
        head.concat(digit_str(n % 10))
    }
}

/// Prints a `u32` in decimal.
pub fn u32_to_string(n: u32) -> (r: String)
    ensures
        r@ == dec_string(n as nat),
{
    u64_to_string(n as u64)
}

/// Prints an `i32` in decimal.
pub fn i32_to_string(n: i32) -> (r: String)
    ensures
        r@ == signed_dec_string(n as int),
{
    if n < 0 {
        let magnitude: u64 = (-(n as i64)) as u64;
        let mut r = String::from_str("-");
        r.append(u64_to_string(magnitude).as_str());
        proof {
            reveal_strlit("-");
            assert("-"@ =~= seq!['-']);
        }
        r
    } else {
        u64_to_string(n as u64)
    }
}

/// Every character of a printed number is a digit.
pub proof fn lemma_dec_string_digits(n: nat)
    ensures
        all_digits(dec_string(n)),
        dec_string(n).len() > 0,
    decreases n,
{
    if n >= 10 {
        lemma_dec_string_digits(n / 10);
    }
}

/// A digit string contains no question mark, so a number embedded in a
/// command never turns it into a query.
pub proof fn lemma_digits_no_query(s: Seq<char>)
    requires
        all_digits(s),
    ensures
        !s.contains('?'),
{
    if s.contains('?') {
        let i = choose|i: int| 0 <= i < s.len() && s[i] == '?';
        assert(is_digit(s[i]));
    }
}

/// A printed signed number contains no question mark.
pub proof fn lemma_signed_dec_string_no_query(n: int)
    ensures
        !signed_dec_string(n).contains('?'),
{
    if n < 0 {
        lemma_dec_string_digits((-n) as nat);
        lemma_digits_no_query(dec_string((-n) as nat));
        assert(!seq!['-'].contains('?')) by {
            if seq!['-'].contains('?') {
                let i = choose|i: int| 0 <= i < 1 && seq!['-'][i] == '?';
            }
        }
        crate::codec::lemma_append_no_char(seq!['-'], dec_string((-n) as nat), '?');
    } else {
        lemma_dec_string_digits(n as nat);
        lemma_digits_no_query(dec_string(n as nat));
    }
}

/// The result of stripping a unit suffix: the suffix is removed when the
/// text ends with it, and the text is untouched otherwise.
pub open spec fn strip_unit_spec(s: Seq<char>, unit: Seq<char>) -> Seq<char> {
    if unit.len() <= s.len() && s.subrange(s.len() - unit.len(), s.len() as int) == unit {
        s.subrange(0, s.len() - unit.len())
    } else {
        s
    }
}

/// Unit stripping is exact on every suffixed reply: a text that is some core
/// followed by the unit strips to precisely that core. In particular a reply
/// that is a number followed by the unit strips to the bare number, whose
/// parse the numeric contracts then pin down.
pub proof fn lemma_strip_unit_exact(core: Seq<char>, unit: Seq<char>)
    ensures
        strip_unit_spec(core + unit, unit) == core,
{
    let s = core + unit;
    assert(s.subrange(s.len() - unit.len(), s.len() as int) =~= unit);
    assert(s.subrange(0, s.len() - unit.len()) =~= core);
}

/// Removes a trailing unit suffix such as `"mV"` or `"ns"` before numeric
/// parsing; text that does not end with the suffix is returned unchanged.
pub fn strip_unit(s: &str, unit: &str) -> (r: String)
    ensures
        r@ == strip_unit_spec(s@, unit@),
{
    let n = s.unicode_len();
    let m = unit.unicode_len();
    if m <= n {
        let tail = s.substring_char(n - m, n);
        if str_eq(tail, unit) {
            return s.substring_char(0, n - m).to_owned();
        }
    }
    s.to_owned()
}

} // verus!
