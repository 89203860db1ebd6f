//! Reading the timeout that the user gave: a duration in words, such as
//! `1h 30m`, or a bare number of seconds.

use crate::decimal::{is_digit, parse_decimal, parse_unsigned, PLUS};
use vstd::prelude::*;
use vstd::utf8::encode_utf8;

verus! {

/// The longest timeout in whole seconds: the seconds of `i64::MAX`
/// milliseconds, the longest span that `chrono::Duration` holds.
pub const MAX_SECONDS: i64 = 9_223_372_036_854_775;

/// The nanoseconds that may go with `MAX_SECONDS`.
pub const MAX_SECONDS_NANOS: u32 = 807_000_000;

/// The most digits that a text may hold to be read as a duration in words.
pub const MAX_DIGITS: usize = 11;

/// A timeout: whole seconds and the nanoseconds beyond them. Never negative,
/// and never longer than `i64::MAX` milliseconds.
#[derive(Clone, Copy, Debug, PartialEq, Eq)]
pub struct Timeout {
    seconds: i64,
    nanos: u32,
}

impl View for Timeout {
    type V = (int, int);

    /// The seconds and the nanoseconds of the timeout.
    closed spec fn view(&self) -> (int, int) {
        (self.seconds as int, self.nanos as int)
    }
}

/// A timeout taken apart for display: whole days, and the hours, minutes and
/// seconds beyond them.
#[derive(Clone, Copy, Debug, PartialEq, Eq)]
pub struct Breakdown {
    pub days: i64,
    pub hours: i64,
    pub minutes: i64,
    pub seconds: i64,
}

impl Timeout {
    /// Every timeout is a span that can be held.
    #[verifier::type_invariant]
    spec fn valid(self) -> bool {
        in_range(self.seconds as int, self.nanos as int)
    }

    /// The timeout of `seconds` whole seconds, where there is one: the
    /// number must not be negative nor exceed `MAX_SECONDS`.
    pub fn from_seconds(seconds: i64) -> (timeout: Option<Timeout>)
        ensures
            timeout matches Some(t) ==> t@ == (seconds as int, 0int),
            timeout is Some <==> 0 <= seconds <= MAX_SECONDS,
    {
        if seconds < 0 {
            return None;
        }
        match chrono_try_seconds(seconds) {
            Some((seconds, nanos)) => Some(Timeout { seconds, nanos: nanos as u32 }),
            None => None,
        }
    }

    /// The whole seconds of the timeout.
    pub fn num_seconds(&self) -> (seconds: i64)
        ensures
            seconds == self@.0,
            in_range(self@.0, self@.1),
    {
        proof {
            use_type_invariant(self);
        }
        self.seconds
    }

    /// The nanoseconds of the timeout beyond its whole seconds.
    pub fn subsec_nanos(&self) -> (nanos: u32)
        ensures
            nanos == self@.1,
            in_range(self@.0, self@.1),
    {
        proof {
            use_type_invariant(self);
        }
        self.nanos
    }

    /// The whole seconds of the timeout as days, hours, minutes and seconds.
    pub fn breakdown(&self) -> (parts: Breakdown)
        ensures
            parts.days * 86400 + parts.hours * 3600 + parts.minutes * 60 + parts.seconds
                == self@.0,
            0 <= parts.days,
            0 <= parts.hours < 24,
            0 <= parts.minutes < 60,
            0 <= parts.seconds < 60,
    {
        proof {
            use_type_invariant(self);
        }
        let total = self.seconds;
        Breakdown {
            days: total / 86400,
            hours: (total / 3600) % 24,
            minutes: (total / 60) % 60,
            seconds: total % 60,
        }
    }
}

/// The message for a timeout that is longer than any that can be held.
pub open spec fn too_large() -> Seq<char> {
    "Error: Timeout is too large!"@
}

/// The message for a text that is neither a duration nor a number.
pub open spec fn not_a_duration() -> Seq<char> {
    "Error: Timeout isn't a valid duration or number!"@
}

/// Whether `c` is white space: a character with the Unicode property
/// `White_Space`.
pub open spec fn is_white_space(c: char) -> bool {
    ||| '\u{9}' <= c <= '\u{d}'
    ||| c == ' '
    ||| c == '\u{85}'
    ||| c == '\u{a0}'
    ||| c == '\u{1680}'
    ||| '\u{2000}' <= c <= '\u{200a}'
    ||| c == '\u{2028}'
    ||| c == '\u{2029}'
    ||| c == '\u{202f}'
    ||| c == '\u{205f}'
    ||| c == '\u{3000}'
}

/// `s` without the white space at its two ends.
pub open spec fn trim_chars(s: Seq<char>) -> Seq<char>
    decreases s.len(),
{
    if s.len() > 0 && is_white_space(s[0]) {
        trim_chars(s.skip(1))
    } else if s.len() > 0 && is_white_space(s.last()) {
        trim_chars(s.drop_last())
    } else {
        s
    }
}

/// How many of the bytes are ASCII digits.
pub open spec fn digit_count(bytes: Seq<u8>) -> nat
    decreases bytes.len(),
{
    if bytes.len() == 0 {
        0
    } else if is_digit(bytes.last()) {
        digit_count(bytes.drop_last()) + 1
    } else {
        digit_count(bytes.drop_last())
    }
}

/// What reading `text` as a bare number of seconds gives: the value of a
/// decimal numeral, which a plus sign may precede, that fits 64 bits.
pub open spec fn parse_seconds(text: Seq<u8>) -> Option<u64> {
    if text.len() > 0 && text[0] == PLUS {
        parse_unsigned(text.skip(1), u64::MAX)
    } else {
        parse_unsigned(text, u64::MAX)
    }
}

/// Whether a span of `seconds` and `nanos` is a timeout that can be held.
pub open spec fn in_range(seconds: int, nanos: int) -> bool {
    0 <= seconds && 0 <= nanos < 1_000_000_000 && (seconds < MAX_SECONDS || (seconds
        == MAX_SECONDS && nanos <= MAX_SECONDS_NANOS))
}

/// The timeout that a text stands for, given what reading it as a duration
/// in words gave (`human`: seconds and nanoseconds, or nothing where the
/// text is no such duration) and the bytes of the text.
///
/// A duration in words wins. A text that is none is read as a number of
/// seconds. A span beyond the longest timeout is refused as too large.
pub open spec fn resolve(human: Option<(u64, u32)>, text: Seq<u8>) -> Result<
    (int, int),
    Seq<char>,
> {
    match human {
        Some((seconds, nanos)) => if in_range(seconds as int, nanos as int) {
            Ok((seconds as int, nanos as int))
        } else {
            Err(too_large())
        },
        None => match parse_seconds(text) {
            Some(seconds) => if seconds <= MAX_SECONDS {
                Ok((seconds as int, 0int))
            } else {
                Err(too_large())
            },
            None => Err(not_a_duration()),
        },
    }
}

/// What `humantime::parse_duration` returns for a text: the seconds and
/// nanoseconds of the duration, or nothing where it reports an error.
pub uninterp spec fn humantime_duration(text: Seq<char>) -> Option<(u64, u32)>;

/// The timeout that the user's text stands for.
///
/// The white space around the text does not count. A text with more than
/// `MAX_DIGITS` digits is not read as a duration in words, only as a number
/// of seconds.
pub open spec fn timeout_of(duration: Seq<char>) -> Result<(int, int), Seq<char>> {
    let text = trim_chars(duration);
    let bytes = encode_utf8(text);
    if digit_count(bytes) <= MAX_DIGITS {
        resolve(humantime_duration(text), bytes)
    } else {
        resolve(None, bytes)
    }
}

/// What a result of this module says, as a mathematical value.
pub open spec fn outcome(res: Result<Timeout, String>) -> Result<(int, int), Seq<char>> {
    match res {
        Ok(timeout) => Ok(timeout@),
        Err(message) => Err(message@),
    }
}

/// `str::trim` of std: the text without the leading and trailing white
/// space, where white space is what Unicode gives the property `White_Space`.
#[verifier::external_body]
fn trim_str(text: &str) -> (trimmed: &str)
    ensures
        trimmed@ == trim_chars(text@),
{
    text.trim()
}

/// `humantime::parse_duration`, with the duration it returns taken apart
/// into whole seconds (`as_secs`) and the nanoseconds beyond them
/// (`subsec_nanos`), which std keeps below a second.
///
/// What it returns depends on the text alone. It is asked only for texts of
/// at most `MAX_DIGITS` digits, since beyond them it may panic: humantime
/// adds up the seconds of the spans with checked arithmetic, but it builds
/// each sum with `Duration::new`, which panics where the seconds stand at
/// `u64::MAX` and a full second of nanoseconds is to be carried into them.
/// A span of `k` digits counts for fewer than 32 000 000 seconds times ten
/// to the power `k`, the year being the longest unit, so the seconds of a
/// text of eleven digits stay below 2^62.
#[verifier::external_body]
fn humantime_parse(text: &str) -> (res: Option<(u64, u32)>)
    requires
        digit_count(encode_utf8(text@)) <= MAX_DIGITS,
    ensures
        res == humantime_duration(text@),
        res matches Some((_, nanos)) ==> nanos < 1_000_000_000,
{
    match humantime::parse_duration(text) {
        Ok(d) => Some((d.as_secs(), d.subsec_nanos())),
        Err(_) => None,
    }
}

/// `chrono::Duration::from_std` on the duration of `seconds` and `nanos`:
/// the same span where it is at most `i64::MAX` milliseconds, given as
/// chrono's `num_seconds` and `subsec_nanos`, and nothing where it is longer.
#[verifier::external_body]
fn chrono_from_std(seconds: u64, nanos: u32) -> (res: Option<(i64, i32)>)
    requires
        nanos < 1_000_000_000,
    ensures
        res == if in_range(seconds as int, nanos as int) {
            Some((seconds as i64, nanos as i32))
        } else {
            None
        },
{
    match chrono::Duration::from_std(std::time::Duration::new(seconds, nanos)) {
        Ok(d) => Some((d.num_seconds(), d.subsec_nanos())),
        Err(_) => None,
    }
}

/// `chrono::Duration::try_seconds`: the span of `seconds` whole seconds
/// where that is between `-i64::MAX` and `i64::MAX` milliseconds, given as
/// chrono's `num_seconds` and `subsec_nanos`, and nothing where it is not.
#[verifier::external_body]
fn chrono_try_seconds(seconds: i64) -> (res: Option<(i64, i32)>)
    ensures
        res == if -MAX_SECONDS <= seconds <= MAX_SECONDS {
            Some((seconds, 0i32))
        } else {
            None
        },
{
    match chrono::Duration::try_seconds(seconds) {
        Some(d) => Some((d.num_seconds(), d.subsec_nanos())),
        None => None,
    }
}

/// Counts the ASCII digits among `bytes`.
pub fn count_digits(bytes: &[u8]) -> (count: usize)
    ensures
        count == digit_count(bytes@),
{
    let mut count: usize = 0;
    let mut i: usize = 0;
    while i < bytes.len()
        invariant
            i <= bytes.len(),
            count <= i,
            count == digit_count(bytes@.take(i as int)),
        decreases bytes.len() - i,
    {
        assert(bytes@.take(i + 1).drop_last() == bytes@.take(i as int));
        if 0x30 <= bytes[i] && bytes[i] <= 0x39 {
            count += 1;
        }
        i += 1;
    }
    assert(bytes@.take(bytes@.len() as int) == bytes@);
    count
}

/// Reads `text` as a bare number of seconds.
pub fn parse_number(text: &[u8]) -> (res: Option<u64>)
    ensures
        res == parse_seconds(text@),
{
    if text.len() > 0 && text[0] == PLUS {
        parse_decimal(text, 1, text.len(), u64::MAX)
    } else {
        assert(text@ == text@.subrange(0, text@.len() as int));
        parse_decimal(text, 0, text.len(), u64::MAX)
    }
}

/// Settles the timeout once the text has been read as a duration in words:
/// `human` is what that reading gave, `text` the text that was read.
pub fn resolve_duration(human: Option<(u64, u32)>, text: &str) -> (res: Result<Timeout, String>)
    requires
        human matches Some((_, nanos)) ==> nanos < 1_000_000_000,
    ensures
        outcome(res) == resolve(human, encode_utf8(text@)),
{
    match human {
        Some((seconds, nanos)) => match chrono_from_std(seconds, nanos) {
            Some((seconds, nanos)) => Ok(Timeout { seconds, nanos: nanos as u32 }),
            None => Err("Error: Timeout is too large!".to_owned()),
        },
        None => match parse_number(text.as_bytes()) {
            Some(seconds) => {
                if seconds > 0x7fff_ffff_ffff_ffff {
                    return Err("Error: Timeout is too large!".to_owned());
                }
                match chrono_try_seconds(seconds as i64) {
                    Some((seconds, nanos)) => Ok(Timeout { seconds, nanos: nanos as u32 }),
                    None => Err("Error: Timeout is too large!".to_owned()),
                }
            },
            None => Err("Error: Timeout isn't a valid duration or number!".to_owned()),
        },
    }
}

/// Reads the timeout that the user gave.
///
/// The text may be a duration in words (`1d 2h 3m 4s`, `3min 17h`) or a bare
/// number of seconds; white space around it is ignored.
pub fn parse_duration(duration: &str) -> (res: Result<Timeout, String>)
    ensures
        outcome(res) == timeout_of(duration@),
{
    let text = trim_str(duration);
    let human = if count_digits(text.as_bytes()) <= MAX_DIGITS {
        humantime_parse(text)
    } else {
        None
    };
    resolve_duration(human, text)
}

} // verus!
