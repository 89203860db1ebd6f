//! What holds of the lock file's text format: reading gives back what was
//! written.

use crate::decimal::{decimal_digits, is_digit, lemma_decimal_digits, MINUS};
use crate::identity::Identity;
use crate::registry::{
    distinct, lemma_position_of, parse_pid, parse_record, pid_text, record_text, records,
    registry_of, registry_text, COLON, NEWLINE,
};
use vstd::prelude::*;

verus! {

/// Leaving out repetitions keeps the members and leaves nothing twice.
pub proof fn lemma_distinct<T>(s: Seq<T>)
    ensures
        distinct(s).no_duplicates(),
        forall|x: T| distinct(s).contains(x) <==> s.contains(x),
        distinct(s).to_set() == s.to_set(),
    decreases s.len(),
{
    let d = distinct(s);
    if s.len() > 0 {
        let front = s.drop_last();
        let before = distinct(front);
        lemma_distinct(front);
        assert forall|x: T| d.contains(x) <==> s.contains(x) by {
            if d.contains(x) {
                let k = choose|k: int| 0 <= k < d.len() && d[k] == x;
                if k < before.len() {
                    assert(front.contains(x));
                }
            }
            if s.contains(x) {
                let j = choose|j: int| 0 <= j < s.len() && s[j] == x;
                if j < front.len() {
                    assert(front[j] == x);
                    assert(front.contains(x));
                }
                if before.contains(x) {
                    let k = choose|k: int| 0 <= k < before.len() && before[k] == x;
                    assert(d[k] == x);
                } else {
                    assert(d[d.len() - 1] == x);
                }
            }
        }
    }
}

/// Where nothing occurs twice there is nothing to leave out.
pub proof fn lemma_distinct_of_no_duplicates<T>(s: Seq<T>)
    requires
        s.no_duplicates(),
    ensures
        distinct(s) == s,
    decreases s.len(),
{
    if s.len() > 0 {
        let front = s.drop_last();
        lemma_distinct_of_no_duplicates(front);
    }
}

/// A PID is written with digits and at most a minus sign before them, and
/// reading the text gives the PID back.
pub proof fn lemma_pid_text_parses(pid: i32)
    ensures
        parse_pid(pid_text(pid)) == Some(pid),
        pid_text(pid).len() > 0,
        forall|i: int|
            0 <= i < pid_text(pid).len() ==> is_digit(#[trigger] pid_text(pid)[i]) || pid_text(
                pid,
            )[i] == MINUS,
        is_digit(pid_text(pid).last()),
{
    let text = pid_text(pid);
    if pid < 0 {
        let digits = decimal_digits((0 - pid) as nat);
        lemma_decimal_digits((0 - pid) as nat);
        assert(text.skip(1) == digits);
    } else {
        lemma_decimal_digits(pid as nat);
    }
}

/// Reading a written record gives back the identity, and the record holds
/// no newline.
pub proof fn lemma_record_text_parses(id: Identity)
    ensures
        parse_record(record_text(id)) == Some(id),
        record_text(id).len() > 0,
        forall|i: int| 0 <= i < record_text(id).len() ==> record_text(id)[i] != NEWLINE,
{
    let text = record_text(id);
    let pid = pid_text(id.pid);
    lemma_pid_text_parses(id.pid);
    match id.start_time {
        Some(t) => {
            let digits = decimal_digits(t as nat);
            lemma_decimal_digits(t as nat);
            lemma_position_of(text, COLON, pid.len() as int);
            assert(text.take(pid.len() as int) == pid);
            assert(text.skip(pid.len() as int + 1) == digits);
        },
        None => {
            lemma_position_of(text, COLON, text.len() as int);
        },
    }
}

/// Reading the text of a registry gives its records back, in order.
pub proof fn lemma_records_of_text(ids: Seq<Identity>)
    ensures
        records(registry_text(ids)) == ids,
    decreases ids.len(),
{
    if ids.len() > 0 {
        let record = record_text(ids[0]);
        let rest = registry_text(ids.skip(1));
        let text = registry_text(ids);
        let n = record.len() as int;
        lemma_record_text_parses(ids[0]);
        lemma_records_of_text(ids.skip(1));
        lemma_position_of(text, NEWLINE, n);
        assert(text.take(n) == record);
        assert(text.skip(n + 1) == rest);
    }
}

/// Writing a registry and reading it back yields the same set of
/// identities; where the registry held nothing twice, it yields the very
/// same registry, order included.
pub proof fn lemma_registry_round_trip(ids: Seq<Identity>)
    ensures
        registry_of(registry_text(ids)).to_set() == ids.to_set(),
        registry_of(registry_text(ids)) == distinct(ids),
        ids.no_duplicates() ==> registry_of(registry_text(ids)) == ids,
{
    lemma_records_of_text(ids);
    lemma_distinct(ids);
    if ids.no_duplicates() {
        lemma_distinct_of_no_duplicates(ids);
    }
}

/// Whatever the lock file holds, the registry read from it holds nothing
/// twice.
pub proof fn lemma_registry_is_a_set(content: Seq<u8>)
    ensures
        registry_of(content).no_duplicates(),
{
    lemma_distinct(records(content));
}

} // verus!
