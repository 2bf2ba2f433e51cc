//! Duration shorthand: a whole number with an optional unit letter, such as
//! `90`, `45s`, `5m` or `2h`.
use crate::decimal::{
    decimal_string, decimal_text, i32_parse_failure, i32_value, int_error_string, int_error_text,
    is_digit, lemma_decimal_round_trip, lemma_numeral_ends_in_digit, lemma_stray_character,
    parse_i32,
};
use crate::text::{
    ascii_letter, blank, is_ascii_letter, is_blank, is_white_space, quoted, quoted_text,
};
use core::num::ParseIntError;
use core::str::FromStr;
use core::time::Duration;
use vstd::prelude::*;

verus! {

/// Seconds in a minute.
pub const MINUTES: u64 = 60;

/// Seconds in an hour.
pub const HOURS: u64 = 3600;

/// The span of `secs` whole seconds.
pub uninterp spec fn seconds_span(secs: u64) -> Duration;

/// `Duration::from_secs` of the standard library.
///
/// Trusted: the result depends on the number of seconds alone; it is the span
/// of that many whole seconds, which `seconds_span` names.
pub assume_specification[ Duration::from_secs ](secs: u64) -> (d: Duration)
    ensures
        d == seconds_span(secs),
;

/// A span of time given as a count of seconds, minutes or hours.
///
/// The count is kept as written: it may be zero or negative.
#[derive(Debug, Clone, Copy, PartialEq, Eq, Structural)]
pub enum Timeout {
    Seconds(i32),
    Minutes(i32),
    Hours(i32),
}

/// Why a text is not a duration shorthand.
#[derive(Debug, PartialEq, Eq)]
pub enum ParseTimeoutError {
    /// The text is empty or holds white space only.
    Empty,
    /// The text ends in a letter that names no unit; carries the text.
    Sigil(String),
    /// The numeric part is not a 32-bit integer; carries the text and the cause.
    Int(String, ParseIntError),
}

/// The mathematical content of a [`ParseTimeoutError`].
pub enum ParseFault {
    Empty,
    Sigil(Seq<char>),
    Int(Seq<char>, ParseIntError),
}

impl ParseFault {
    /// The message that reports this fault.
    pub open spec fn message(self) -> Seq<char> {
        match self {
            ParseFault::Empty => "empty string"@,
            ParseFault::Sigil(text) => "bad sigil in "@ + quoted_text(text),
            ParseFault::Int(text, cause) => "bad integer in "@ + quoted_text(text) + ": "@
                + int_error_text(cause),
        }
    }
}

impl ParseTimeoutError {
    /// Writes the message that reports this error.
    pub fn message(&self) -> (r: String)
        ensures
            r@ == self@.message(),
    {
        match self {
            ParseTimeoutError::Empty => "empty string".to_owned(),
            ParseTimeoutError::Sigil(text) => {
                "bad sigil in ".to_owned().concat(quoted(text.as_str()).as_str())
            },
            ParseTimeoutError::Int(text, cause) => {
                "bad integer in ".to_owned().concat(quoted(text.as_str()).as_str()).concat(
                    ": ",
                ).concat(int_error_string(cause).as_str())
            },
        }
    }
}

impl View for ParseTimeoutError {
    type V = ParseFault;

    open spec fn view(&self) -> ParseFault {
        match self {
            ParseTimeoutError::Empty => ParseFault::Empty,
            ParseTimeoutError::Sigil(text) => ParseFault::Sigil(text@),
            ParseTimeoutError::Int(text, cause) => ParseFault::Int(text@, *cause),
        }
    }
}

/// The timeout of `n` units, where the letter `c` selects the unit without
/// regard to case: `h` hours, `m` minutes, `s` seconds. Other characters
/// select nothing.
pub open spec fn with_sigil(c: char, n: i32) -> Option<Timeout> {
    if c == 'h' || c == 'H' {
        Some(Timeout::Hours(n))
    } else if c == 'm' || c == 'M' {
        Some(Timeout::Minutes(n))
    } else if c == 's' || c == 'S' {
        Some(Timeout::Seconds(n))
    } else {
        None
    }
}

/// What a text means as a duration shorthand.
///
/// Blank text is rejected first. Only the last character can be the unit
/// letter: when it is an ASCII letter, everything before it must be an
/// integer, and only then is the letter looked up. When it is not, the whole
/// text must be an integer and counts seconds.
pub open spec fn parsed(s: Seq<char>) -> Result<Timeout, ParseFault> {
    if is_blank(s) {
        Err(ParseFault::Empty)
    } else if is_ascii_letter(s.last()) {
        match i32_value(s.drop_last()) {
            None => Err(ParseFault::Int(s, i32_parse_failure(s.drop_last()))),
            Some(n) => match with_sigil(s.last(), n) {
                Some(t) => Ok(t),
                None => Err(ParseFault::Sigil(s)),
            },
        }
    } else {
        match i32_value(s) {
            None => Err(ParseFault::Int(s, i32_parse_failure(s))),
            Some(n) => Ok(Timeout::Seconds(n)),
        }
    }
}

impl Timeout {
    /// The count, whatever the unit.
    pub open spec fn magnitude(self) -> int {
        match self {
            Timeout::Seconds(n) => n as int,
            Timeout::Minutes(n) => n as int,
            Timeout::Hours(n) => n as int,
        }
    }

    /// Seconds in one unit.
    pub open spec fn unit_seconds(self) -> int {
        match self {
            Timeout::Seconds(_) => 1,
            Timeout::Minutes(_) => 60,
            Timeout::Hours(_) => 3600,
        }
    }

    /// The span in seconds as a signed number.
    pub open spec fn total_seconds(self) -> int {
        self.magnitude() * self.unit_seconds()
    }

    /// The span in seconds as an unsigned 64-bit clock holds it: the signed
    /// number itself when it is not negative, else that number plus 2^64.
    pub open spec fn clock_seconds(self) -> u64 {
        if self.total_seconds() >= 0 {
            self.total_seconds() as u64
        } else {
            (self.total_seconds() + 0x1_0000_0000_0000_0000) as u64
        }
    }

    /// The shorthand for this timeout: the count in decimal, then `m` for
    /// minutes or `h` for hours. Seconds carry no letter.
    pub open spec fn text(self) -> Seq<char> {
        match self {
            Timeout::Seconds(n) => decimal_text(n as int),
            Timeout::Minutes(n) => decimal_text(n as int).push('m'),
            Timeout::Hours(n) => decimal_text(n as int).push('h'),
        }
    }

    /// The span of time this timeout stands for: the count times the
    /// seconds in a unit. A negative count is not refused; it wraps around
    /// the unsigned clock, as [`Self::clock_seconds`] says.
    pub fn duration(self) -> (d: Duration)
        ensures
            d == seconds_span(self.clock_seconds()),
    {
        match self {
            Timeout::Seconds(t) => Duration::from_secs(scaled(t, 1)),
            Timeout::Minutes(t) => Duration::from_secs(scaled(t, MINUTES)),
            Timeout::Hours(t) => Duration::from_secs(scaled(t, HOURS)),
        }
    }

    /// Writes the shorthand for this timeout.
    pub fn render(&self) -> (r: String)
        ensures
            r@ == self.text(),
    {
        match *self {
            Timeout::Seconds(t) => decimal_string(t as i64),
            Timeout::Minutes(t) => {
                proof {
                    reveal_strlit("m");
                }
                let r = decimal_string(t as i64).concat("m");
                assert(r@ =~= decimal_text(t as int).push('m'));
                r
            },
            Timeout::Hours(t) => {
                proof {
                    reveal_strlit("h");
                }
                let r = decimal_string(t as i64).concat("h");
                assert(r@ =~= decimal_text(t as int).push('h'));
                r
            },
        }
    }

    /// Reads a duration shorthand.
    pub fn parse(s: &str) -> (r: Result<Timeout, ParseTimeoutError>)
        ensures
            match r {
                Ok(t) => parsed(s@) == Ok::<Timeout, ParseFault>(t),
                Err(e) => parsed(s@) == Err::<Timeout, ParseFault>(e@),
            },
    {
        if blank(s) {
            return Err(ParseTimeoutError::Empty);
        }
        let last = s.get_char(s.unicode_len() - 1);
        if ascii_letter(last) {
            match parse_i32(omit_sigil(s)) {
                Err(cause) => Err(ParseTimeoutError::Int(s.to_owned(), cause)),
                Ok(n) => match select_unit(last, n) {
                    Some(t) => Ok(t),
                    None => Err(ParseTimeoutError::Sigil(s.to_owned())),
                },
            }
        } else {
            match parse_i32(s) {
                Err(cause) => Err(ParseTimeoutError::Int(s.to_owned(), cause)),
                Ok(n) => Ok(Timeout::Seconds(n)),
            }
        }
    }
}

impl FromStr for Timeout {
    type Err = ParseTimeoutError;

    fn from_str(s: &str) -> (r: Result<Self, Self::Err>)
        ensures
            match r {
                Ok(t) => parsed(s@) == Ok::<Timeout, ParseFault>(t),
                Err(e) => parsed(s@) == Err::<Timeout, ParseFault>(e@),
            },
    {
        Timeout::parse(s)
    }
}

/// Looks the unit letter up and builds the timeout of `n` such units.
fn select_unit(c: char, n: i32) -> (r: Option<Timeout>)
    ensures
        r == with_sigil(c, n),
{
    if c == 'h' || c == 'H' {
        Some(Timeout::Hours(n))
    } else if c == 'm' || c == 'M' {
        Some(Timeout::Minutes(n))
    } else if c == 's' || c == 'S' {
        Some(Timeout::Seconds(n))
    } else {
        None
    }
}

/// `t * unit` as an unsigned 64-bit number, negative products counted down from 2^64.
fn scaled(t: i32, unit: u64) -> (r: u64)
    requires
        1 <= unit <= 3600,
    ensures
        t >= 0 ==> r == t * unit,
        t < 0 ==> r == t * unit + 0x1_0000_0000_0000_0000,
{
    if t >= 0 {
        let count: u64 = t as u64;
        assert(count * unit <= 0x8000_0000 * 3600) by (nonlinear_arith)
            requires
                count <= 0x8000_0000,
                unit <= 3600,
        ;
        count * unit
    } else {
        let count: u64 = (-(t as i64)) as u64;
        assert(1 <= count * unit <= 0x8000_0000 * 3600) by (nonlinear_arith)
            requires
                1 <= count <= 0x8000_0000,
                1 <= unit <= 3600,
        ;
        assert(t * unit == -(count * unit)) by (nonlinear_arith)
            requires
                t == -count,
        ;
        u64::MAX - (count * unit - 1)
    }
}

/// The text without its last character; the empty text stays empty.
pub fn omit_sigil(s: &str) -> (r: &str)
    ensures
        r@ == if s@.len() == 0 {
            s@
        } else {
            s@.drop_last()
        },
{
    let n: usize = s.unicode_len();
    if n == 0 {
        s
    } else {
        s.substring_char(0, n - 1)
    }
}

/// A text that is the numeral of a 32-bit integer, with no unit letter,
/// counts seconds, and is written back as that integer in canonical form.
pub proof fn lemma_bare_numeral_counts_seconds(s: Seq<char>, n: i32)
    requires
        i32_value(s) == Some(n),
    ensures
        parsed(s) == Ok::<Timeout, ParseFault>(Timeout::Seconds(n)),
        rewritten(s) == Some(decimal_text(n as int)),
{
    lemma_numeral_ends_in_digit(s);
    assert(is_digit(s[s.len() - 1]));
}

/// A 32-bit integer written in canonical decimal form reads as that many
/// seconds, and writing those seconds gives the same text back.
pub proof fn lemma_bare_seconds_round_trip(n: i32)
    ensures
        parsed(decimal_text(n as int)) == Ok::<Timeout, ParseFault>(Timeout::Seconds(n)),
        Timeout::Seconds(n).text() == decimal_text(n as int),
{
    lemma_decimal_round_trip(n as int);
    lemma_bare_numeral_counts_seconds(decimal_text(n as int), n);
}

/// A numeral followed by one ASCII letter reads as the unit that the letter
/// selects, and is rejected for its letter when the letter selects none.
pub proof fn lemma_numeral_with_letter(s: Seq<char>, n: i32, c: char)
    requires
        i32_value(s) == Some(n),
        is_ascii_letter(c),
    ensures
        parsed(s.push(c)) == match with_sigil(c, n) {
            Some(t) => Ok::<Timeout, ParseFault>(t),
            None => Err(ParseFault::Sigil(s.push(c))),
        },
{
    let full = s.push(c);
    assert(full.last() == c);
    assert(full.drop_last() =~= s);
    assert(!is_white_space(full[full.len() - 1]));
}

/// For every 32-bit integer `n`, the canonical decimal text of `n` followed
/// by `h`, `m` or `s` reads as `n` hours, minutes or seconds.
pub proof fn lemma_suffixed_integer(n: i32)
    ensures
        parsed(decimal_text(n as int).push('h')) == Ok::<Timeout, ParseFault>(Timeout::Hours(n)),
        parsed(decimal_text(n as int).push('m')) == Ok::<Timeout, ParseFault>(Timeout::Minutes(n)),
        parsed(decimal_text(n as int).push('s')) == Ok::<Timeout, ParseFault>(Timeout::Seconds(n)),
{
    lemma_decimal_round_trip(n as int);
    lemma_numeral_with_letter(decimal_text(n as int), n, 'h');
    lemma_numeral_with_letter(decimal_text(n as int), n, 'm');
    lemma_numeral_with_letter(decimal_text(n as int), n, 's');
}

/// An integer that does not fit in 32 bits is a bad integer, with or without
/// a letter behind it.
pub proof fn lemma_integer_out_of_range(n: int, c: char)
    requires
        n < i32::MIN || n > i32::MAX,
        is_ascii_letter(c),
    ensures
        parsed(decimal_text(n)) matches Err(ParseFault::Int(text, _)) && text == decimal_text(n),
        parsed(decimal_text(n).push(c)) matches Err(ParseFault::Int(text, _)) && text
            == decimal_text(n).push(c),
{
    let s = decimal_text(n);
    lemma_decimal_round_trip(n);
    lemma_numeral_ends_in_digit(s);
    assert(is_digit(s[s.len() - 1]));
    let full = s.push(c);
    assert(full.last() == c);
    assert(full.drop_last() =~= s);
    assert(!is_white_space(full[full.len() - 1]));
}

/// Reading what was written gives the timeout back, for every timeout.
pub proof fn lemma_write_then_read(t: Timeout)
    ensures
        parsed(t.text()) == Ok::<Timeout, ParseFault>(t),
{
    match t {
        Timeout::Seconds(n) => lemma_bare_seconds_round_trip(n),
        Timeout::Minutes(n) => lemma_suffixed_integer(n),
        Timeout::Hours(n) => lemma_suffixed_integer(n),
    }
}

/// Only the last character can select a unit: a text with an ASCII letter
/// before its last character is a bad integer, whatever its last character is.
pub proof fn lemma_letter_before_the_end(s: Seq<char>, i: int)
    requires
        0 <= i < s.len() - 1,
        is_ascii_letter(s[i]),
    ensures
        parsed(s) matches Err(ParseFault::Int(text, _)) && text == s,
{
    assert(!is_white_space(s[i]));
    if is_ascii_letter(s.last()) {
        assert(s.drop_last()[i] == s[i]);
        lemma_stray_character(s.drop_last(), i);
    } else {
        lemma_stray_character(s, i);
    }
}

/// The text that is written for what `s` reads as, if it reads as a timeout.
pub open spec fn rewritten(s: Seq<char>) -> Option<Seq<char>> {
    match parsed(s) {
        Ok(t) => Some(t.text()),
        Err(_) => None,
    }
}

/// Writing what was read gives the text back when the text is canonical: a
/// canonical decimal integer alone, or followed by `m` or `h`. With a
/// trailing `s` the letter is not written again: seconds carry none.
pub proof fn lemma_read_then_write(n: i32)
    ensures
        rewritten(decimal_text(n as int)) == Some(decimal_text(n as int)),
        rewritten(decimal_text(n as int).push('m')) == Some(decimal_text(n as int).push('m')),
        rewritten(decimal_text(n as int).push('h')) == Some(decimal_text(n as int).push('h')),
        rewritten(decimal_text(n as int).push('s')) == Some(decimal_text(n as int)),
{
    lemma_bare_seconds_round_trip(n);
    lemma_suffixed_integer(n);
}

} // verus!
