//! Decimal notation for integers: what a numeral denotes, how an integer is
//! written, and the standard-library conversions the rest of the crate
//! relies on.
use core::num::ParseIntError;
use vstd::prelude::*;

verus! {

/// Whether `c` is one of the ten ASCII digits.
pub open spec fn is_digit(c: char) -> bool {
    '0' <= c && c <= '9'
}

/// The number that the digit `c` stands for.
pub open spec fn digit_value(c: char) -> int {
    c as int - 48
}

/// The character that writes `d`, for `0 <= d <= 9`.
pub open spec fn digit_char(d: int) -> char {
    (d + 48) as char
}

/// Whether `s` consists of ASCII digits only; true of the empty text.
pub open spec fn all_digits(s: Seq<char>) -> bool {
    forall|i: int| 0 <= i < s.len() ==> is_digit(#[trigger] s[i])
}

/// The number written by a run of digits, most significant digit first.
pub open spec fn digits_value(s: Seq<char>) -> int
    decreases s.len(),
{
    if s.len() == 0 {
        0
    } else {
        10 * digits_value(s.drop_last()) + digit_value(s.last())
    }
}

/// The integer that a numeral denotes. A numeral is an optional `+` or `-`
/// followed by one or more ASCII digits; leading zeros are allowed, anything
/// else (blanks, underscores, a lone sign, the empty text) is not a numeral.
pub open spec fn numeral_value(s: Seq<char>) -> Option<int> {
    if s.len() > 0 && (s[0] == '+' || s[0] == '-') {
        let body = s.subrange(1, s.len() as int);
        if body.len() > 0 && all_digits(body) {
            Some(
                if s[0] == '-' {
                    -digits_value(body)
                } else {
                    digits_value(body)
                },
            )
        } else {
            None
        }
    } else if s.len() > 0 && all_digits(s) {
        Some(digits_value(s))
    } else {
        None
    }
}

/// The 32-bit signed integer that `s` denotes, if it is a numeral whose value fits.
pub open spec fn i32_value(s: Seq<char>) -> Option<i32> {
    match numeral_value(s) {
        Some(v) => if i32::MIN <= v <= i32::MAX {
            Some(v as i32)
        } else {
            None
        },
        None => None,
    }
}

/// The digits of `n`, without leading zeros; `0` is written `"0"`.
pub open spec fn nat_text(n: nat) -> Seq<char>
    decreases n,
{
    if n < 10 {
        seq![digit_char(n as int)]
    } else {
        nat_text(n / 10).push(digit_char((n % 10) as int))
    }
}

/// The canonical decimal text of `n`: a `-` for negative numbers, then the digits.
pub open spec fn decimal_text(n: int) -> Seq<char> {
    if n < 0 {
        seq!['-'] + nat_text((-n) as nat)
    } else {
        nat_text(n as nat)
    }
}

/// The standard library's report of a failed integer conversion, carried as an opaque value.
#[verifier::external_type_specification]
#[verifier::external_body]
pub struct ExParseIntError(core::num::ParseIntError);

/// The error that the standard library reports when `s` is not the text of an `i32`.
pub uninterp spec fn i32_parse_failure(s: Seq<char>) -> ParseIntError;

/// Reads an `i32` with `str::parse::<i32>`.
///
/// Trusted: the standard library accepts exactly the numerals whose value fits
/// in an `i32` and returns that value. What it reports otherwise is not
/// described here; it is only given a name, as a function of the text.
#[verifier::external_body]
pub(crate) fn parse_i32(s: &str) -> (r: Result<i32, ParseIntError>)
    ensures
        match r {
            Ok(v) => i32_value(s@) == Some(v),
            Err(e) => i32_value(s@).is_none() && e == i32_parse_failure(s@),
        },
{
    s.parse::<i32>()
}

/// The standard library's message for a failed integer conversion.
pub uninterp spec fn int_error_text(e: ParseIntError) -> Seq<char>;

/// Writes the message of a failed integer conversion through the standard
/// library's `Display` for `ParseIntError`.
///
/// Trusted: the message depends on the error value alone. Its wording is not
/// described here; the result is only given a name.
#[verifier::external_body]
pub(crate) fn int_error_string(e: &ParseIntError) -> (r: String)
    ensures
        r@ == int_error_text(*e),
{
    format!("{}", e)
}

/// Writes an integer through the standard library's `Display` for `i64`.
///
/// Trusted: the text is the canonical decimal form, a `-` for negative
/// numbers followed by the digits without leading zeros.
#[verifier::external_body]
pub(crate) fn decimal_string(n: i64) -> (r: String)
    ensures
        r@ == decimal_text(n as int),
{
    format!("{}", n)
}

/// The digits written for `n` are a non-empty run of digits that denotes `n`.
pub proof fn lemma_nat_text_denotes(n: nat)
    ensures
        nat_text(n).len() > 0,
        all_digits(nat_text(n)),
        digits_value(nat_text(n)) == n,
    decreases n,
{
    if n < 10 {
        let s = nat_text(n);
        assert(s.drop_last().len() == 0);
        assert(digits_value(s.drop_last()) == 0);
    } else {
        lemma_nat_text_denotes(n / 10);
        let head = nat_text(n / 10);
        let s = head.push(digit_char((n % 10) as int));
        assert(s.drop_last() =~= head);
        assert(s.last() == digit_char((n % 10) as int));
        assert forall|i: int| 0 <= i < s.len() implies is_digit(#[trigger] s[i]) by {
            if i < head.len() {
                assert(s[i] == head[i]);
            }
        }
    }
}

/// Reading the canonical text of an integer gives that integer back.
pub proof fn lemma_decimal_round_trip(n: int)
    ensures
        numeral_value(decimal_text(n)) == Some(n),
{
    if n < 0 {
        let digits = nat_text((-n) as nat);
        lemma_nat_text_denotes((-n) as nat);
        let s = decimal_text(n);
        assert(s[0] == '-');
        assert(s.subrange(1, s.len() as int) =~= digits);
    } else {
        lemma_nat_text_denotes(n as nat);
        let s = decimal_text(n);
        assert(is_digit(s[0]));
    }
}

/// A numeral is never empty and ends in a digit.
pub proof fn lemma_numeral_ends_in_digit(s: Seq<char>)
    requires
        numeral_value(s).is_some(),
    ensures
        s.len() > 0,
        is_digit(s.last()),
{
    if s[0] == '+' || s[0] == '-' {
        let body = s.subrange(1, s.len() as int);
        assert(body.last() == s.last());
        assert(is_digit(body[body.len() - 1]));
    } else {
        assert(is_digit(s[s.len() - 1]));
    }
}

/// A numeral holds nothing but digits after its optional sign: a text with
/// any other character in it, or with a sign elsewhere than in front, denotes
/// nothing.
pub proof fn lemma_stray_character(s: Seq<char>, i: int)
    requires
        0 <= i < s.len(),
        !is_digit(s[i]),
        i > 0 || (s[0] != '+' && s[0] != '-'),
    ensures
        numeral_value(s).is_none(),
{
    if s[0] == '+' || s[0] == '-' {
        let body = s.subrange(1, s.len() as int);
        assert(body[i - 1] == s[i]);
    }
}

} // verus!
