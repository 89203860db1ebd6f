//! The registry as it stands in the lock file: plain text, one identity per
//! line, written either as a bare decimal PID or as `PID:START_TIME`.
//!
//! Reading never fails: a line that is no record is skipped, and a record
//! that repeats an earlier one adds nothing, since the registry is a set.

use crate::decimal::{
    decimal_digits, parse_decimal, parse_integer, parse_integer_at, parse_unsigned, push_decimal,
    MINUS,
};
use crate::identity::Identity;
use crate::lock_logic::contains_holder;
use vstd::prelude::*;

verus! {

/// The byte that ends a line.
pub const NEWLINE: u8 = 0x0a;

/// The byte between the PID and the start time of a record.
pub const COLON: u8 = 0x3a;

/// Whether `b` is ASCII white space: a blank, or one of the control
/// characters from horizontal tab to carriage return.
pub open spec fn is_space(b: u8) -> bool {
    b == 0x20 || 0x09 <= b <= 0x0d
}

/// `s` without the white space at its two ends.
pub open spec fn trim(s: Seq<u8>) -> Seq<u8>
    decreases s.len(),
{
    if s.len() > 0 && is_space(s[0]) {
        trim(s.skip(1))
    } else if s.len() > 0 && is_space(s.last()) {
        trim(s.drop_last())
    } else {
        s
    }
}

/// The index of the first `b` in `s`, or the length of `s` if it holds none.
pub open spec fn position_of(s: Seq<u8>, b: u8) -> int
    decreases s.len(),
{
    if s.len() == 0 || s[0] == b {
        0
    } else {
        1 + position_of(s.skip(1), b)
    }
}

/// `position_of` is the one index before which no `b` stands and at which
/// `s` holds `b` or ends.
pub proof fn lemma_position_of(s: Seq<u8>, b: u8, p: int)
    requires
        0 <= p <= s.len(),
        forall|i: int| 0 <= i < p ==> s[i] != b,
        p < s.len() ==> s[p] == b,
    ensures
        position_of(s, b) == p,
    decreases s.len(),
{
    if p > 0 {
        lemma_position_of(s.skip(1), b, p - 1);
    }
}

/// `position_of` lies within `s`, and no `b` stands before it.
pub proof fn lemma_position_of_bounds(s: Seq<u8>, b: u8)
    ensures
        0 <= position_of(s, b) <= s.len(),
        forall|i: int| 0 <= i < position_of(s, b) ==> s[i] != b,
        position_of(s, b) < s.len() ==> s[position_of(s, b)] == b,
    decreases s.len(),
{
    if s.len() > 0 && s[0] != b {
        let rest = s.skip(1);
        lemma_position_of_bounds(rest, b);
        assert forall|i: int| 0 <= i < position_of(s, b) implies s[i] != b by {
            if i > 0 {
                assert(rest[i - 1] == s[i]);
            }
        }
    }
}

/// Finds the first `b` among the bytes from `start` up to `end`.
pub fn find_byte(bytes: &[u8], start: usize, end: usize, b: u8) -> (pos: usize)
    requires
        start <= end <= bytes@.len(),
    ensures
        start <= pos <= end,
        pos - start == position_of(bytes@.subrange(start as int, end as int), b),
{
    let mut pos: usize = start;
    while pos < end && bytes[pos] != b
        invariant
            start <= pos <= end <= bytes@.len(),
            forall|i: int| start <= i < pos ==> bytes@[i] != b,
        decreases end - pos,
    {
        pos += 1;
    }
    proof {
        lemma_position_of(bytes@.subrange(start as int, end as int), b, pos - start);
    }
    pos
}

/// Finds where the text between `start` and `end` begins and ends once the
/// white space around it is left out.
pub fn trim_bounds(bytes: &[u8], start: usize, end: usize) -> (res: (usize, usize))
    requires
        start <= end <= bytes@.len(),
    ensures
        start <= res.0 <= res.1 <= end,
        bytes@.subrange(res.0 as int, res.1 as int) == trim(
            bytes@.subrange(start as int, end as int),
        ),
{
    let mut lo: usize = start;
    let mut hi: usize = end;
    while lo < hi && is_space_byte(bytes[lo])
        invariant
            start <= lo <= hi <= end <= bytes@.len(),
            hi == end,
            trim(bytes@.subrange(lo as int, hi as int)) == trim(
                bytes@.subrange(start as int, end as int),
            ),
        decreases hi - lo,
    {
        assert(bytes@.subrange(lo as int, hi as int).skip(1) == bytes@.subrange(
            lo + 1,
            hi as int,
        ));
        lo += 1;
    }
    while lo < hi && is_space_byte(bytes[hi - 1])
        invariant
            start <= lo <= hi <= end <= bytes@.len(),
            lo < hi ==> !is_space(bytes@[lo as int]),
            trim(bytes@.subrange(lo as int, hi as int)) == trim(
                bytes@.subrange(start as int, end as int),
            ),
        decreases hi - lo,
    {
        assert(bytes@.subrange(lo as int, hi as int).drop_last() == bytes@.subrange(
            lo as int,
            hi - 1,
        ));
        hi -= 1;
    }
    (lo, hi)
}

/// Whether `b` is ASCII white space.
pub fn is_space_byte(b: u8) -> (res: bool)
    ensures
        res == is_space(b),
{
    b == 0x20 || (0x09 <= b && b <= 0x0d)
}

/// What reading `s` as a PID gives: a decimal numeral, which a sign may
/// precede, whose value is a 32-bit signed integer.
pub open spec fn parse_pid(s: Seq<u8>) -> Option<i32> {
    match parse_integer(s, 0x8000_0000, 0x7fff_ffff) {
        Some(pid) => Some(pid as i32),
        None => None,
    }
}

/// The identity that a line of the lock file records, if it records one:
/// with the white space around it left out, the line is a PID, or a PID, a
/// colon and an unsigned 64-bit start time.
pub open spec fn parse_record(line: Seq<u8>) -> Option<Identity> {
    let text = trim(line);
    let colon = position_of(text, COLON);
    if colon == text.len() {
        match parse_pid(text) {
            Some(pid) => Some(Identity { pid, start_time: None }),
            None => None,
        }
    } else {
        match (parse_pid(text.take(colon)), parse_unsigned(text.skip(colon + 1), u64::MAX)) {
            (Some(pid), Some(t)) => Some(Identity { pid, start_time: Some(t) }),
            _ => None,
        }
    }
}

/// The records of a lock file in the order of its lines. Lines end with a
/// newline, except that the last one may go without; a line that is no
/// record contributes nothing.
pub open spec fn records(content: Seq<u8>) -> Seq<Identity>
    decreases content.len(),
{
    if content.len() == 0 {
        Seq::empty()
    } else {
        let n = position_of(content, NEWLINE);
        proof {
            lemma_position_of_bounds(content, NEWLINE);
        }
        let rest = if n < content.len() {
            content.skip(n + 1)
        } else {
            Seq::empty()
        };
        match parse_record(content.take(n)) {
            Some(id) => seq![id] + records(rest),
            None => records(rest),
        }
    }
}

/// `s` with every element that repeats an earlier one left out.
pub open spec fn distinct<T>(s: Seq<T>) -> Seq<T>
    decreases s.len(),
{
    if s.len() == 0 {
        s
    } else {
        let before = distinct(s.drop_last());
        if before.contains(s.last()) {
            before
        } else {
            before.push(s.last())
        }
    }
}

/// The registry that a lock file holds: its records, each once, in the order
/// in which they first occur.
pub open spec fn registry_of(content: Seq<u8>) -> Seq<Identity> {
    distinct(records(content))
}

/// Reads the bytes from `start` up to `end` as a PID.
pub fn parse_pid_at(bytes: &[u8], start: usize, end: usize) -> (res: Option<i32>)
    requires
        start <= end <= bytes@.len(),
    ensures
        res == parse_pid(bytes@.subrange(start as int, end as int)),
{
    match parse_integer_at(bytes, start, end, 0x8000_0000, 0x7fff_ffff) {
        Some(pid) => Some(pid as i32),
        None => None,
    }
}

/// Reads the line that the bytes from `start` up to `end` hold.
pub fn parse_record_at(bytes: &[u8], start: usize, end: usize) -> (res: Option<Identity>)
    requires
        start <= end <= bytes@.len(),
    ensures
        res == parse_record(bytes@.subrange(start as int, end as int)),
{
    let (lo, hi) = trim_bounds(bytes, start, end);
    let colon = find_byte(bytes, lo, hi, COLON);
    let ghost text = bytes@.subrange(lo as int, hi as int);
    if colon == hi {
        match parse_pid_at(bytes, lo, hi) {
            Some(pid) => Some(Identity { pid, start_time: None }),
            None => None,
        }
    } else {
        proof {
            assert(text.take(colon - lo) == bytes@.subrange(lo as int, colon as int));
            assert(text.skip(colon - lo + 1) == bytes@.subrange(colon + 1, hi as int));
        }
        let pid = parse_pid_at(bytes, lo, colon);
        let start_time = parse_decimal(bytes, colon + 1, hi, u64::MAX);
        match (pid, start_time) {
            (Some(pid), Some(t)) => Some(Identity { pid, start_time: Some(t) }),
            _ => None,
        }
    }
}

/// Reads the registry out of the content of a lock file.
///
/// Never fails: whatever is no record is skipped.
pub fn parse_registry(content: &[u8]) -> (ids: Vec<Identity>)
    ensures
        ids@ == registry_of(content@),
{
    let mut ids: Vec<Identity> = Vec::new();
    let ghost mut seen: Seq<Identity> = Seq::empty();
    let mut pos: usize = 0;
    assert(content@.skip(0) == content@);
    while pos < content.len()
        invariant
            pos <= content@.len(),
            seen + records(content@.skip(pos as int)) == records(content@),
            ids@ == distinct(seen),
        decreases content.len() - pos,
    {
        let end = find_byte(content, pos, content.len(), NEWLINE);
        let record = parse_record_at(content, pos, end);
        let next = if end < content.len() {
            end + 1
        } else {
            end
        };
        proof {
            let tail = content@.skip(pos as int);
            let n = end - pos;
            assert(tail.take(n) == content@.subrange(pos as int, end as int));
            if end < content.len() {
                assert(tail.skip(n + 1) == content@.skip(next as int));
            } else {
                assert(content@.skip(next as int) == Seq::<u8>::empty());
            }
        }
        match record {
            Some(id) => {
                proof {
                    assert(seen.push(id).drop_last() == seen);
                    seen = seen.push(id);
                }
                if !contains_holder(&ids, &id) {
                    ids.push(id);
                }
            },
            None => {},
        }
        pos = next;
    }
    ids
}

/// How a PID is written: in decimal, with a minus sign if it is negative.
pub open spec fn pid_text(pid: i32) -> Seq<u8> {
    if pid < 0 {
        seq![MINUS] + decimal_digits((0 - pid) as nat)
    } else {
        decimal_digits(pid as nat)
    }
}

/// How an identity is written: the PID, then a colon and the start time if
/// the identity has one.
pub open spec fn record_text(id: Identity) -> Seq<u8> {
    match id.start_time {
        Some(t) => pid_text(id.pid) + seq![COLON] + decimal_digits(t as nat),
        None => pid_text(id.pid),
    }
}

/// The content of the lock file that holds `ids`: one record per line, each
/// line ended by a newline.
pub open spec fn registry_text(ids: Seq<Identity>) -> Seq<u8>
    decreases ids.len(),
{
    if ids.len() == 0 {
        Seq::empty()
    } else {
        record_text(ids[0]) + seq![NEWLINE] + registry_text(ids.skip(1))
    }
}

/// Appends the record of `id`, without a newline, to `out`.
pub fn push_record(out: &mut Vec<u8>, id: Identity)
    ensures
        final(out)@ == old(out)@ + record_text(id),
{
    if id.pid < 0 {
        out.push(MINUS);
        let magnitude: i64 = 0 - (id.pid as i64);
        push_decimal(out, magnitude as u64);
    } else {
        push_decimal(out, id.pid as u64);
    }
    match id.start_time {
        Some(t) => {
            out.push(COLON);
            push_decimal(out, t);
        },
        None => {},
    }
}

/// Writes the registry as the content of a lock file.
pub fn format_registry(ids: &Vec<Identity>) -> (content: Vec<u8>)
    ensures
        content@ == registry_text(ids@),
{
    let mut content: Vec<u8> = Vec::new();
    let mut i: usize = 0;
    assert(ids@.skip(0) == ids@);
    while i < ids.len()
        invariant
            i <= ids.len(),
            content@ + registry_text(ids@.skip(i as int)) == registry_text(ids@),
        decreases ids.len() - i,
    {
        push_record(&mut content, ids[i]);
        content.push(NEWLINE);
        proof {
            let tail = ids@.skip(i as int);
            assert(tail.skip(1) == ids@.skip(i + 1));
        }
        i += 1;
    }
    content
}

} // verus!
