//! Unsigned decimal numbers as ASCII bytes: how they are read and written.

use vstd::prelude::*;

verus! {

/// The sign of a negative number.
pub const MINUS: u8 = 0x2d;

/// The sign that a non-negative number may carry.
pub const PLUS: u8 = 0x2b;

/// Whether `b` is one of the ASCII digits `0` to `9`.
pub open spec fn is_digit(b: u8) -> bool {
    0x30 <= b <= 0x39
}

/// Whether `s` is a decimal numeral: one digit or more, and nothing else.
pub open spec fn is_decimal(s: Seq<u8>) -> bool {
    &&& s.len() > 0
    &&& forall|i: int| 0 <= i < s.len() ==> is_digit(#[trigger] s[i])
}

/// The number that the digits of `s` denote, most significant digit first.
pub open spec fn decimal_value(s: Seq<u8>) -> nat
    decreases s.len(),
{
    if s.len() == 0 {
        0
    } else {
        decimal_value(s.drop_last()) * 10 + (s.last() - 0x30) as nat
    }
}

/// What reading `s` as a number of at most `max` gives: the value of a
/// decimal numeral that does not exceed `max`, and nothing for any other
/// text. Leading zeros are accepted.
pub open spec fn parse_unsigned(s: Seq<u8>, max: u64) -> Option<u64> {
    if is_decimal(s) && decimal_value(s) <= max {
        Some(decimal_value(s) as u64)
    } else {
        None
    }
}

/// What reading `s` as a signed number gives: the value of a decimal
/// numeral, which a plus or a minus sign may precede, where that value is at
/// least `-lowest` and at most `highest`; nothing for any other text.
pub open spec fn parse_integer(s: Seq<u8>, lowest: u64, highest: u64) -> Option<int> {
    if s.len() > 0 && s[0] == MINUS {
        match parse_unsigned(s.skip(1), lowest) {
            Some(m) => Some(-(m as int)),
            None => None,
        }
    } else if s.len() > 0 && s[0] == PLUS {
        match parse_unsigned(s.skip(1), highest) {
            Some(m) => Some(m as int),
            None => None,
        }
    } else {
        match parse_unsigned(s, highest) {
            Some(m) => Some(m as int),
            None => None,
        }
    }
}

/// The decimal numeral of `n`, without leading zeros.
pub open spec fn decimal_digits(n: nat) -> Seq<u8>
    decreases n,
{
    if n < 10 {
        seq![(0x30 + n) as u8]
    } else {
        decimal_digits(n / 10).push((0x30 + n % 10) as u8)
    }
}

/// The numeral of `n` is a decimal numeral, and it denotes `n`.
pub proof fn lemma_decimal_digits(n: nat)
    ensures
        is_decimal(decimal_digits(n)),
        decimal_value(decimal_digits(n)) == n,
    decreases n,
{
    let digits = decimal_digits(n);
    if n < 10 {
        assert(decimal_value(digits.drop_last()) == 0);
    } else {
        lemma_decimal_digits(n / 10);
        assert(digits.drop_last() == decimal_digits(n / 10));
    }
}

/// A numeral denotes at least as much as any of its prefixes.
pub proof fn lemma_decimal_value_prefix(s: Seq<u8>, k: int)
    requires
        0 <= k <= s.len(),
        forall|i: int| 0 <= i < s.len() ==> is_digit(#[trigger] s[i]),
    ensures
        decimal_value(s.take(k)) <= decimal_value(s),
    decreases s.len() - k,
{
    if k == s.len() {
        assert(s.take(k) == s);
    } else {
        lemma_decimal_value_prefix(s.drop_last(), k);
        assert(s.drop_last().take(k) == s.take(k));
    }
}

/// Reads the bytes of `bytes` from `start` up to `end` as a number of at
/// most `max`.
pub fn parse_decimal(bytes: &[u8], start: usize, end: usize, max: u64) -> (res: Option<u64>)
    requires
        start <= end <= bytes@.len(),
    ensures
        res == parse_unsigned(bytes@.subrange(start as int, end as int), max),
{
    let ghost text = bytes@.subrange(start as int, end as int);
    if start == end {
        return None;
    }
    let mut acc: u64 = 0;
    let mut i: usize = start;
    while i < end
        invariant
            start <= i <= end <= bytes@.len(),
            text == bytes@.subrange(start as int, end as int),
            forall|j: int| 0 <= j < i - start ==> is_digit(#[trigger] text[j]),
            acc == decimal_value(text.take(i - start)),
            acc <= max,
        decreases end - i,
    {
        let b = bytes[i];
        if b < 0x30 || b > 0x39 {
            assert(!is_digit(text[i - start]));
            return None;
        }
        let d = (b - 0x30) as u64;
        proof {
            assert(text.take(i - start + 1).drop_last() == text.take(i - start));
        }
        if d > max || acc > (max - d) / 10 {
            proof {
                if is_decimal(text) {
                    lemma_decimal_value_prefix(text, i - start + 1);
                }
            }
            return None;
        }
        acc = acc * 10 + d;
        i += 1;
    }
    assert(text.take(end - start) == text);
    Some(acc)
}

/// Reads the bytes of `bytes` from `start` up to `end` as a signed number of
/// at least `-lowest` and at most `highest`.
pub fn parse_integer_at(bytes: &[u8], start: usize, end: usize, lowest: u64, highest: u64) -> (res:
    Option<i64>)
    requires
        start <= end <= bytes@.len(),
        lowest <= 0x8000_0000_0000_0000,
        highest <= 0x7fff_ffff_ffff_ffff,
    ensures
        match res {
            Some(v) => parse_integer(bytes@.subrange(start as int, end as int), lowest, highest)
                == Some(v as int),
            None => parse_integer(bytes@.subrange(start as int, end as int), lowest, highest)
                is None,
        },
{
    let ghost text = bytes@.subrange(start as int, end as int);
    if start < end && bytes[start] == MINUS {
        assert(text.skip(1) == bytes@.subrange(start + 1, end as int));
        match parse_decimal(bytes, start + 1, end, lowest) {
            Some(m) => {
                if m == 0x8000_0000_0000_0000 {
                    Some(i64::MIN)
                } else {
                    Some(0 - (m as i64))
                }
            },
            None => None,
        }
    } else if start < end && bytes[start] == PLUS {
        assert(text.skip(1) == bytes@.subrange(start + 1, end as int));
        match parse_decimal(bytes, start + 1, end, highest) {
            Some(m) => Some(m as i64),
            None => None,
        }
    } else {
        match parse_decimal(bytes, start, end, highest) {
            Some(m) => Some(m as i64),
            None => None,
        }
    }
}

/// Appends the decimal numeral of `n` to `out`.
pub fn push_decimal(out: &mut Vec<u8>, n: u64)
    ensures
        final(out)@ == old(out)@ + decimal_digits(n as nat),
    decreases n,
{
    if n >= 10 {
        push_decimal(out, n / 10);
    }
    let digit = (n % 10) as u8;
    out.push(0x30 + digit);
}

} // verus!
