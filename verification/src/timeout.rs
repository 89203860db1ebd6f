//! Reading a timeout in the compact notation: numbers, each followed by the
//! first letter of its unit, as in `1d2h3m4s`, or a bare number of seconds.

use crate::decimal::{parse_integer, parse_integer_at};
use vstd::prelude::*;
use vstd::utf8::encode_utf8;

verus! {

/// The most that a 64-bit signed number may lie below zero.
pub const LOWEST: u64 = 0x8000_0000_0000_0000;

/// The greatest 64-bit signed number.
pub const HIGHEST: u64 = 0x7fff_ffff_ffff_ffff;

/// Why a text gives no timeout.
#[derive(Clone, Copy, Debug, PartialEq, Eq)]
pub enum TimeoutError {
    /// The pattern that finds the spans was not accepted.
    Pattern,
    /// The number of a span is no 64-bit signed number.
    InvalidTimeout,
    /// The unit of a span is none of seconds, minutes, hours and days.
    InvalidDuration,
    /// The seconds of the spans do not add up to a 64-bit signed number.
    Overflow,
    /// The text holds no span that counts and is no number either.
    NotANumber,
}

/// The groups that one match of a pattern captured: the text of each, as
/// bytes, or nothing for a group that took no part in the match. Group 0 is
/// the whole match.
pub type Groups = Seq<Option<Seq<u8>>>;

/// The pattern of one span: a number, white space or none, and the letter
/// of the unit.
pub open spec fn span_pattern() -> Seq<char> {
    r"(\d+)\s*([smhd])"@
}

/// What `regex` finds in `text` for `pattern`: the groups of every match
/// that `Regex::captures_iter` yields, in order, or nothing where
/// `Regex::new` does not accept the pattern.
pub uninterp spec fn regex_captures(pattern: Seq<char>, text: Seq<char>) -> Option<Seq<Groups>>;

/// The group `i` of a match, or nothing where the match has no such group.
pub open spec fn group(groups: Groups, i: int) -> Option<Seq<u8>> {
    if 0 <= i < groups.len() {
        groups[i]
    } else {
        None
    }
}

/// The seconds in one unit, by the letter that stands for it.
pub open spec fn unit_seconds(unit: Seq<u8>) -> Option<int> {
    if unit == seq![0x73u8] {
        Some(1)
    } else if unit == seq![0x6du8] {
        Some(60)
    } else if unit == seq![0x68u8] {
        Some(3600)
    } else if unit == seq![0x64u8] {
        Some(86400)
    } else {
        None
    }
}

/// Whether `n` is a 64-bit signed number.
pub open spec fn fits(n: int) -> bool {
    i64::MIN <= n <= i64::MAX
}

/// The seconds of one span: the number in group 1 times the seconds of the
/// unit in group 2.
pub open spec fn span_seconds(groups: Groups) -> Result<int, TimeoutError> {
    match group(groups, 1) {
        None => Err(TimeoutError::InvalidTimeout),
        Some(number) => match parse_integer(number, LOWEST, HIGHEST) {
            None => Err(TimeoutError::InvalidTimeout),
            Some(n) => match group(groups, 2) {
                None => Err(TimeoutError::InvalidDuration),
                Some(unit) => match unit_seconds(unit) {
                    None => Err(TimeoutError::InvalidDuration),
                    Some(seconds) => if fits(n * seconds) {
                        Ok(n * seconds)
                    } else {
                        Err(TimeoutError::Overflow)
                    },
                },
            },
        },
    }
}

/// The seconds of all spans together. The first span that is at fault, or
/// that takes the sum beyond 64 bits, decides the error.
pub open spec fn total_seconds(spans: Seq<Groups>) -> Result<int, TimeoutError>
    decreases spans.len(),
{
    if spans.len() == 0 {
        Ok(0)
    } else {
        match total_seconds(spans.drop_last()) {
            Err(e) => Err(e),
            Ok(sum) => match span_seconds(spans.last()) {
                Err(e) => Err(e),
                Ok(seconds) => if fits(sum + seconds) {
                    Ok(sum + seconds)
                } else {
                    Err(TimeoutError::Overflow)
                },
            },
        }
    }
}

/// The timeout in seconds that `text` stands for, given the spans that were
/// found in it (`found`, nothing where the pattern was not accepted): their
/// sum, or, where that is zero, the text read as a bare number of seconds.
pub open spec fn settled(found: Option<Seq<Groups>>, text: Seq<u8>) -> Result<int, TimeoutError> {
    match found {
        None => Err(TimeoutError::Pattern),
        Some(spans) => match total_seconds(spans) {
            Err(e) => Err(e),
            Ok(sum) => if sum != 0 {
                Ok(sum)
            } else {
                match parse_integer(text, LOWEST, HIGHEST) {
                    Some(n) => Ok(n),
                    None => Err(TimeoutError::NotANumber),
                }
            },
        },
    }
}

/// The timeout in seconds that a text in the compact notation stands for.
pub open spec fn timeout_seconds(text: Seq<char>) -> Result<int, TimeoutError> {
    settled(regex_captures(span_pattern(), text), encode_utf8(text))
}

/// What a result of this module says, as a mathematical value.
pub open spec fn outcome(res: Result<i64, TimeoutError>) -> Result<int, TimeoutError> {
    match res {
        Ok(seconds) => Ok(seconds as int),
        Err(e) => Err(e),
    }
}

/// `Regex::new` of the crate `regex` on `pattern`, and `captures_iter` of
/// the regex on `text`: for every match that the iterator yields, in order,
/// the text of each of its groups as bytes, or nothing where the pattern is
/// not accepted. What comes back depends on the two texts alone.
#[verifier::external_body]
fn find_captures(pattern: &str, text: &str) -> (found: Option<Vec<Vec<Option<Vec<u8>>>>>)
    ensures
        found.deep_view() == regex_captures(pattern@, text@),
{
    match regex::Regex::new(pattern) {
        Ok(re) => Some(
            re.captures_iter(text).map(
                |c| c.iter().map(|g| g.map(|m| m.as_str().as_bytes().to_vec())).collect(),
            ).collect(),
        ),
        Err(_) => None,
    }
}

/// Reads the letter of a unit.
pub fn unit_of(unit: &[u8]) -> (seconds: Option<i64>)
    ensures
        match seconds {
            Some(s) => unit_seconds(unit@) == Some(s as int),
            None => unit_seconds(unit@) is None,
        },
{
    if unit.len() != 1 {
        return None;
    }
    assert(unit@ == seq![unit@[0]]);
    if unit[0] == 0x73 {
        Some(1)
    } else if unit[0] == 0x6d {
        Some(60)
    } else if unit[0] == 0x68 {
        Some(3600)
    } else if unit[0] == 0x64 {
        Some(86400)
    } else {
        None
    }
}

/// The seconds of one span, from the groups of its match.
pub fn span_of(groups: &Vec<Option<Vec<u8>>>) -> (res: Result<i64, TimeoutError>)
    ensures
        outcome(res) == span_seconds(groups.deep_view()),
{
    if groups.len() < 2 {
        return Err(TimeoutError::InvalidTimeout);
    }
    let n = match &groups[1] {
        None => {
            return Err(TimeoutError::InvalidTimeout);
        },
        Some(number) => {
            assert(number.deep_view() == number@);
            assert(number@ == number@.subrange(0, number@.len() as int));
            match parse_integer_at(number.as_slice(), 0, number.len(), LOWEST, HIGHEST) {
                None => {
                    return Err(TimeoutError::InvalidTimeout);
                },
                Some(n) => n,
            }
        },
    };
    if groups.len() < 3 {
        return Err(TimeoutError::InvalidDuration);
    }
    let seconds = match &groups[2] {
        None => {
            return Err(TimeoutError::InvalidDuration);
        },
        Some(unit) => {
            assert(unit.deep_view() == unit@);
            match unit_of(unit.as_slice()) {
                None => {
                    return Err(TimeoutError::InvalidDuration);
                },
                Some(seconds) => seconds,
            }
        },
    };
    match n.checked_mul(seconds) {
        Some(product) => Ok(product),
        None => Err(TimeoutError::Overflow),
    }
}

/// Adds up the seconds of all spans.
pub fn sum_spans(spans: &Vec<Vec<Option<Vec<u8>>>>) -> (res: Result<i64, TimeoutError>)
    ensures
        outcome(res) == total_seconds(spans.deep_view()),
{
    let mut sum: i64 = 0;
    let mut i: usize = 0;
    while i < spans.len()
        invariant
            i <= spans.len(),
            total_seconds(spans.deep_view().take(i as int)) == Ok::<int, TimeoutError>(sum as int),
        decreases spans.len() - i,
    {
        proof {
            assert(spans.deep_view().take(i + 1).drop_last() == spans.deep_view().take(i as int));
        }
        let seconds = match span_of(&spans[i]) {
            Ok(seconds) => seconds,
            Err(e) => {
                proof {
                    lemma_error_stays(spans.deep_view(), i + 1);
                }
                return Err(e);
            },
        };
        sum = match sum.checked_add(seconds) {
            Some(sum) => sum,
            None => {
                proof {
                    lemma_error_stays(spans.deep_view(), i + 1);
                }
                return Err(TimeoutError::Overflow);
            },
        };
        i += 1;
    }
    assert(spans.deep_view().take(spans.deep_view().len() as int) == spans.deep_view());
    Ok(sum)
}

/// Once the spans up to some point give an error, all spans give that error.
pub proof fn lemma_error_stays(spans: Seq<Groups>, k: int)
    requires
        0 <= k <= spans.len(),
        total_seconds(spans.take(k)) is Err,
    ensures
        total_seconds(spans) == total_seconds(spans.take(k)),
    decreases spans.len() - k,
{
    if k == spans.len() {
        assert(spans.take(k) == spans);
    } else {
        assert(spans.drop_last().take(k) == spans.take(k));
        lemma_error_stays(spans.drop_last(), k);
    }
}

/// Settles the timeout once the spans have been looked for: `found` is what
/// the search gave, `text` the text that was searched.
pub fn settle(found: Option<Vec<Vec<Option<Vec<u8>>>>>, text: &str) -> (res: Result<
    i64,
    TimeoutError,
>)
    ensures
        outcome(res) == settled(found.deep_view(), encode_utf8(text@)),
{
    let spans = match found {
        None => {
            return Err(TimeoutError::Pattern);
        },
        Some(spans) => spans,
    };
    let sum = match sum_spans(&spans) {
        Err(e) => {
            return Err(e);
        },
        Ok(sum) => sum,
    };
    if sum != 0 {
        return Ok(sum);
    }
    let bytes = text.as_bytes();
    assert(bytes@ == bytes@.subrange(0, bytes@.len() as int));
    match parse_integer_at(bytes, 0, bytes.len(), LOWEST, HIGHEST) {
        Some(n) => Ok(n),
        None => Err(TimeoutError::NotANumber),
    }
}

/// Reads a timeout in the compact notation and returns it in seconds.
///
/// Every number that is followed by `s`, `m`, `h` or `d`, with or without
/// white space between them, counts as so many seconds, minutes, hours or
/// days; whatever else the text holds is passed over. Where that gives
/// nothing, the whole text is read as a number of seconds.
pub fn parse_duration(duration: String) -> (res: Result<i64, TimeoutError>)
    ensures
        outcome(res) == timeout_seconds(duration@),
{
    let found = find_captures(r"(\d+)\s*([smhd])", duration.as_str());
    settle(found, duration.as_str())
}

} // verus!
