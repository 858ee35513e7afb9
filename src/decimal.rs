//! Decimal text of integers, as std formats and parses it.

use vstd::prelude::*;

verus! {

/// The character of a decimal digit `d` (0 to 9).
pub open spec fn digit_char(d: int) -> char {
    ((d + 48) as u8) as char
}

pub open spec fn is_digit(c: char) -> bool {
    '0' <= c && c <= '9'
}

pub open spec fn digit_value(c: char) -> int {
    c as int - 48
}

/// The digits of `n`, most significant first, without leading zeros.
pub open spec fn digits_of(n: nat) -> Seq<char>
    decreases n,
{
    if n < 10 {
        seq![digit_char(n as int)]
    } else {
        digits_of(n / 10).push(digit_char((n % 10) as int))
    }
}

/// How `Display` writes an integer: a minus sign for negatives, then the digits.
pub open spec fn decimal_text(n: int) -> Seq<char> {
    if n < 0 {
        seq!['-'] + digits_of((-n) as nat)
    } else {
        digits_of(n as nat)
    }
}

pub open spec fn all_digits(s: Seq<char>) -> bool {
    s.len() > 0 && forall|i: int| 0 <= i < s.len() ==> is_digit(#[trigger] s[i])
}

/// The value of a string of digits.
pub open spec fn digits_value(s: Seq<char>) -> int
    decreases s.len(),
{
    if s.len() == 0 {
        0
    } else {
        digits_value(s.drop_last()) * 10 + digit_value(s.last())
    }
}

/// What `str::parse` reads as a base-10 integer: an optional `+` (or, where
/// `signed`, `-`) followed by at least one ASCII digit, and nothing else.
pub open spec fn signed_decimal_value(s: Seq<char>, signed: bool) -> Option<int> {
    if s.len() > 0 && s[0] == '+' {
        if all_digits(s.drop_first()) {
            Some(digits_value(s.drop_first()))
        } else {
            None
        }
    } else if signed && s.len() > 0 && s[0] == '-' {
        if all_digits(s.drop_first()) {
            Some(-digits_value(s.drop_first()))
        } else {
            None
        }
    } else if all_digits(s) {
        Some(digits_value(s))
    } else {
        None
    }
}

/// The result of `s.parse::<i64>()`: the value, if it is decimal text in range.
pub open spec fn parsed_i64(s: Seq<char>) -> Option<i64> {
    match signed_decimal_value(s, true) {
        Some(v) => if i64::MIN <= v && v <= i64::MAX {
            Some(v as i64)
        } else {
            None
        },
        None => None,
    }
}

/// The result of `s.parse::<u128>()`.
pub open spec fn parsed_u128(s: Seq<char>) -> Option<u128> {
    match signed_decimal_value(s, false) {
        Some(v) => if 0 <= v && v <= u128::MAX {
            Some(v as u128)
        } else {
            None
        },
        None => None,
    }
}

/// Relies on `<i64 as Display>` (through `to_string`): plain decimal digits,
/// led by `-` when negative.
#[verifier::external_body]
pub(crate) fn i64_text(n: i64) -> (r: String)
    ensures
        r@ == decimal_text(n as int),
{
    n.to_string()
}

/// Relies on `<u128 as Display>` (through `to_string`): plain decimal digits.
#[verifier::external_body]
pub(crate) fn u128_text(n: u128) -> (r: String)
    ensures
        r@ == decimal_text(n as int),
{
    n.to_string()
}

/// Relies on `<i64 as FromStr>`: optional sign, ASCII digits, no overflow.
#[verifier::external_body]
pub(crate) fn parse_i64(s: &str) -> (r: Option<i64>)
    ensures
        r == parsed_i64(s@),
{
    s.parse::<i64>().ok()
}

/// Relies on `<u128 as FromStr>`: optional `+`, ASCII digits, no overflow.
#[verifier::external_body]
pub(crate) fn parse_u128(s: &str) -> (r: Option<u128>)
    ensures
        r == parsed_u128(s@),
{
    s.parse::<u128>().ok()
}

pub proof fn lemma_digits_of(n: nat)
    ensures
        all_digits(digits_of(n)),
        digits_value(digits_of(n)) == n,
        digits_of(n)[0] != '+' && digits_of(n)[0] != '-',
    decreases n,
{
    let s = digits_of(n);
    if n < 10 {
        assert(s.drop_last() =~= Seq::<char>::empty());
        assert(digits_value(s.drop_last()) == 0);
        assert(digit_value(digit_char(n as int)) == n);
    } else {
        let p = digits_of(n / 10);
        lemma_digits_of(n / 10);
        assert(s.drop_last() =~= p);
        assert(digit_value(digit_char((n % 10) as int)) == n % 10);
        assert(n == (n / 10) * 10 + n % 10) by (nonlinear_arith);
        assert(digits_value(s) == digits_value(p) * 10 + n % 10);
        assert forall|i: int| 0 <= i < s.len() implies is_digit(#[trigger] s[i]) by {
            if i < p.len() {
                assert(s[i] == p[i]);
            }
        }
        assert(s[0] == p[0]);
    }
}

/// Parsing the text that `Display` writes for an integer gives the integer back.
pub proof fn lemma_decimal_round_trip(n: int)
    ensures
        signed_decimal_value(decimal_text(n), true) == Some(n),
        n >= 0 ==> signed_decimal_value(decimal_text(n), false) == Some(n),
{
    if n < 0 {
        let d = digits_of((-n) as nat);
        lemma_digits_of((-n) as nat);
        assert((seq!['-'] + d).drop_first() =~= d);
    } else {
        lemma_digits_of(n as nat);
    }
}

pub proof fn lemma_i64_round_trip(n: i64)
    ensures
        parsed_i64(decimal_text(n as int)) == Some(n),
{
    lemma_decimal_round_trip(n as int);
}

pub proof fn lemma_u128_round_trip(n: u128)
    ensures
        parsed_u128(decimal_text(n as int)) == Some(n),
{
    lemma_decimal_round_trip(n as int);
}

} // verus!
