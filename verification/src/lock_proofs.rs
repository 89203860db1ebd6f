//! What holds of the toggle algorithm and the liveness filter, proved over
//! the definitions in [`crate::lock_logic`].

use crate::lock_logic::{after_operation, retain_live, should_toggle};
use vstd::prelude::*;

verus! {

/// An entry is in the filtered registry exactly if it stands at some position
/// of the registry where it is `me` or was reported alive.
pub proof fn lemma_retain_live_contains<T>(entries: Seq<T>, alive: Seq<bool>, me: T, x: T)
    requires
        alive.len() == entries.len(),
    ensures
        retain_live(entries, alive, me).contains(x) <==> exists|i: int|
            0 <= i < entries.len() && #[trigger] entries[i] == x && (x == me || alive[i]),
    decreases entries.len(),
{
    let live = retain_live(entries, alive, me);
    if entries.len() > 0 {
        let front = entries.drop_last();
        let front_alive = alive.drop_last();
        let rest = retain_live(front, front_alive, me);
        let last = entries.len() - 1;
        lemma_retain_live_contains(front, front_alive, me, x);
        if exists|i: int|
            0 <= i < entries.len() && #[trigger] entries[i] == x && (x == me || alive[i]) {
            let i = choose|i: int|
                0 <= i < entries.len() && #[trigger] entries[i] == x && (x == me || alive[i]);
            if i < last {
                assert(front[i] == x && (x == me || front_alive[i]));
                let k = choose|k: int| 0 <= k < rest.len() && rest[k] == x;
                assert(live[k] == x);
            } else {
                assert(live[live.len() - 1] == x);
            }
        }
    }
}

/// The filter never drops the caller's own entry, whatever the probe would
/// say of it.
pub proof fn lemma_own_entry_survives<T>(entries: Seq<T>, alive: Seq<bool>, me: T)
    requires
        alive.len() == entries.len(),
        entries.contains(me),
    ensures
        retain_live(entries, alive, me).contains(me),
{
    lemma_retain_live_contains(entries, alive, me, me);
}

/// An entry other than the caller's whose every probe reported it dead is
/// absent from the registry after the caller's acquire or release.
pub proof fn lemma_dead_entry_reclaimed<T>(
    entries: Seq<T>,
    alive: Seq<bool>,
    me: T,
    add: bool,
    dead: T,
)
    requires
        alive.len() == entries.len(),
        dead != me,
        forall|i: int| 0 <= i < entries.len() && #[trigger] entries[i] == dead ==> !alive[i],
    ensures
        !retain_live(entries, alive, me).contains(dead),
        !after_operation(retain_live(entries, alive, me), me, add).contains(dead),
{
    let live = retain_live(entries, alive, me);
    lemma_retain_live_contains(entries, alive, me, dead);
    lemma_after_operation_contains(live, me, add, dead);
}

/// Membership after the operation: acquiring adds `me` and nothing else,
/// releasing removes `me` and nothing else.
pub proof fn lemma_after_operation_contains<T>(live: Seq<T>, me: T, add: bool, x: T)
    ensures
        after_operation(live, me, add).contains(x) <==> if x == me {
            add
        } else {
            live.contains(x)
        },
{
    let next = after_operation(live, me, add);
    if add {
        if !live.contains(me) {
            if x == me {
                assert(next[live.len() as int] == me);
            } else if live.contains(x) {
                let k = choose|k: int| 0 <= k < live.len() && live[k] == x;
                assert(next[k] == x);
            }
        }
    } else {
        let pred = |e: T| e != me;
        if next.contains(x) {
            let k = choose|k: int| 0 <= k < next.len() && next[k] == x;
            live.lemma_filter_pred(pred, k);
            live.lemma_filter_contains_rev(pred, x);
        }
        if x != me && live.contains(x) {
            let k = choose|k: int| 0 <= k < live.len() && live[k] == x;
            live.lemma_filter_contains(pred, k);
        }
    }
}

/// Without `me`, a registry in which nothing occurs twice is one entry
/// shorter if it held `me`, and unchanged in length if it did not.
pub proof fn lemma_release_len<T>(live: Seq<T>, me: T)
    requires
        live.no_duplicates(),
    ensures
        after_operation(live, me, false).len() == if live.contains(me) {
            live.len() - 1
        } else {
            live.len() as int
        },
    decreases live.len(),
{
    let pred = |e: T| e != me;
    if live.len() == 0 {
        live.lemma_filter_len(pred);
    } else {
        let front = live.drop_last();
        let last = live.last();
        assert(live == front.push(last));
        front.lemma_filter_push(last, pred);
        lemma_release_len(front, me);
    }
}

/// The operation keeps a registry free of duplicates free of duplicates.
pub proof fn lemma_after_operation_no_duplicates<T>(live: Seq<T>, me: T, add: bool)
    requires
        live.no_duplicates(),
    ensures
        after_operation(live, me, add).no_duplicates(),
    decreases live.len(),
{
    let pred = |e: T| e != me;
    if !add && live.len() == 0 {
        live.lemma_filter_len(pred);
    } else if !add {
        let front = live.drop_last();
        let last = live.last();
        assert(live == front.push(last));
        front.lemma_filter_push(last, pred);
        lemma_after_operation_no_duplicates(front, me, false);
        let kept = front.filter(pred);
        if kept.contains(last) {
            front.lemma_filter_contains_rev(pred, last);
        }
    }
}

/// Read as sets, the two operations are insertion and removal, and the
/// toggle tells whether the set was empty before an acquire or is empty after
/// a release.
pub proof fn lemma_operation_on_sets<T>(live: Seq<T>, me: T, add: bool)
    ensures
        add ==> after_operation(live, me, add).to_set() == live.to_set().insert(me),
        !add ==> after_operation(live, me, add).to_set() == live.to_set().remove(me),
        add ==> (should_toggle(live, me, add) <==> live.to_set().len() == 0),
        !add ==> (should_toggle(live, me, add) <==> live.to_set().remove(me).len() == 0),
{
    broadcast use vstd::seq_lib::seq_to_set_is_finite;

    let next = after_operation(live, me, add);
    assert forall|x: T| next.to_set().contains(x) <==> if x == me {
        add
    } else {
        live.to_set().contains(x)
    } by {
        lemma_after_operation_contains(live, me, add, x);
    }
    if add {
        lemma_empty_seq_empty_set(live);
    } else {
        lemma_empty_seq_empty_set(next);
    }
}

/// A sequence is empty exactly if the set of its elements has no member.
pub proof fn lemma_empty_seq_empty_set<T>(s: Seq<T>)
    ensures
        s.len() == 0 <==> s.to_set().len() == 0,
{
    broadcast use vstd::seq_lib::seq_to_set_is_finite;

    if s.len() == 0 {
        assert(s.to_set() =~= Set::<T>::empty());
    } else {
        assert(s.to_set().contains(s[0]));
        if s.to_set().len() == 0 {
            s.to_set().lemma_len0_is_empty();
        }
    }
}

/// The filter keeps a registry free of duplicates free of duplicates.
pub proof fn lemma_retain_live_no_duplicates<T>(entries: Seq<T>, alive: Seq<bool>, me: T)
    requires
        alive.len() == entries.len(),
        entries.no_duplicates(),
    ensures
        retain_live(entries, alive, me).no_duplicates(),
    decreases entries.len(),
{
    if entries.len() > 0 {
        let front = entries.drop_last();
        let rest = retain_live(front, alive.drop_last(), me);
        lemma_retain_live_no_duplicates(front, alive.drop_last(), me);
        if rest.contains(entries.last()) {
            lemma_retain_live_contains(front, alive.drop_last(), me, entries.last());
        }
    }
}

/// With every probe answering "alive" the filter changes nothing.
pub proof fn lemma_retain_live_all_alive<T>(entries: Seq<T>, alive: Seq<bool>, me: T)
    requires
        alive.len() == entries.len(),
        forall|i: int| 0 <= i < alive.len() ==> alive[i],
    ensures
        retain_live(entries, alive, me) == entries,
    decreases entries.len(),
{
    if entries.len() > 0 {
        lemma_retain_live_all_alive(entries.drop_last(), alive.drop_last(), me);
    }
}

/// Two processes that race to acquire on an empty registry are served one
/// after the other: both end up registered, and the one served first, and
/// only that one, is told to toggle.
pub proof fn lemma_racing_acquires<T>(first: T, second: T)
    requires
        first != second,
    ensures
        should_toggle(Seq::<T>::empty(), first, true),
        !should_toggle(after_operation(Seq::<T>::empty(), first, true), second, true),
        after_operation(after_operation(Seq::<T>::empty(), first, true), second, true) == seq![
            first,
            second,
        ],
{
    let one = after_operation(Seq::<T>::empty(), first, true);
    assert(one == seq![first]);
    assert(!one.contains(second));
}

/// One call in a history of the registry: who called, and whether to acquire
/// (`true`) or to release (`false`).
pub type Call<T> = (T, bool);

/// The registry after a history of calls on an empty registry during which
/// no holder crashed, so that every probe answers "alive".
pub open spec fn registry_after<T>(calls: Seq<Call<T>>) -> Seq<T>
    decreases calls.len(),
{
    if calls.len() == 0 {
        Seq::empty()
    } else {
        let before = registry_after(calls.drop_last());
        let alive = Seq::new(before.len(), |i: int| true);
        after_operation(retain_live(before, alive, calls.last().0), calls.last().0, calls.last().1)
    }
}

/// The toggle that the last call of a non-empty history returns.
pub open spec fn last_toggle<T>(calls: Seq<Call<T>>) -> bool {
    let before = registry_after(calls.drop_last());
    let alive = Seq::new(before.len(), |i: int| true);
    should_toggle(retain_live(before, alive, calls.last().0), calls.last().0, calls.last().1)
}

/// A history in which every holder acquires only while it does not hold and
/// releases only while it holds.
pub open spec fn well_formed<T>(calls: Seq<Call<T>>) -> bool
    decreases calls.len(),
{
    calls.len() > 0 ==> {
        &&& well_formed(calls.drop_last())
        &&& calls.last().1 == !registry_after(calls.drop_last()).contains(calls.last().0)
    }
}

/// How many calls of the history were of the kind `add` and returned a true
/// toggle: the number of times the switch was turned on (`add`) or off.
pub open spec fn toggles<T>(calls: Seq<Call<T>>, add: bool) -> nat
    decreases calls.len(),
{
    if calls.len() == 0 {
        0
    } else {
        let earlier = toggles(calls.drop_last(), add);
        if calls.last().1 == add && last_toggle(calls) {
            earlier + 1
        } else {
            earlier
        }
    }
}

/// How many calls of the history were of the kind `add`.
pub open spec fn calls_of_kind<T>(calls: Seq<Call<T>>, add: bool) -> nat
    decreases calls.len(),
{
    if calls.len() == 0 {
        0
    } else {
        let earlier = calls_of_kind(calls.drop_last(), add);
        if calls.last().1 == add {
            earlier + 1
        } else {
            earlier
        }
    }
}

/// Over a well-formed history without crashes the live count is the number
/// of acquires less the number of releases, so it never falls below zero, and
/// the last call toggles exactly if it takes the count from zero to one or
/// from one to zero.
pub proof fn lemma_toggle_marks_transitions<T>(calls: Seq<Call<T>>)
    requires
        well_formed(calls),
        calls.len() > 0,
    ensures
        registry_after(calls).no_duplicates(),
        registry_after(calls).len() == calls_of_kind(calls, true) - calls_of_kind(calls, false),
        calls.last().1 ==> registry_after(calls).len() == registry_after(calls.drop_last()).len()
            + 1,
        !calls.last().1 ==> registry_after(calls).len() == registry_after(
            calls.drop_last(),
        ).len() - 1,
        last_toggle(calls) <==> if calls.last().1 {
            registry_after(calls.drop_last()).len() == 0
        } else {
            registry_after(calls).len() == 0
        },
    decreases calls.len(),
{
    let earlier = calls.drop_last();
    let before = registry_after(earlier);
    let alive = Seq::new(before.len(), |i: int| true);
    let (who, add) = calls.last();
    lemma_history_registry(earlier);
    lemma_retain_live_all_alive(before, alive, who);
    lemma_after_operation_no_duplicates(before, who, add);
    lemma_release_len(before, who);
}

/// Over a well-formed history without crashes nothing occurs twice in the
/// registry, and its length is the number of acquires less that of releases.
pub proof fn lemma_history_registry<T>(calls: Seq<Call<T>>)
    requires
        well_formed(calls),
    ensures
        registry_after(calls).no_duplicates(),
        registry_after(calls).len() == calls_of_kind(calls, true) - calls_of_kind(calls, false),
    decreases calls.len(),
{
    if calls.len() > 0 {
        let earlier = calls.drop_last();
        let before = registry_after(earlier);
        let alive = Seq::new(before.len(), |i: int| true);
        let (who, add) = calls.last();
        lemma_history_registry(earlier);
        lemma_retain_live_all_alive(before, alive, who);
        lemma_after_operation_no_duplicates(before, who, add);
        lemma_release_len(before, who);
    }
}

/// Over a well-formed history without crashes the switch is turned on
/// exactly once for every stretch during which the registry is not empty,
/// and turned off exactly once when that stretch ends: the turns on exceed
/// the turns off by one while somebody holds, and by nothing otherwise.
pub proof fn lemma_one_toggle_per_session<T>(calls: Seq<Call<T>>)
    requires
        well_formed(calls),
    ensures
        toggles(calls, true) - toggles(calls, false) == if registry_after(calls).len() > 0 {
            1int
        } else {
            0int
        },
    decreases calls.len(),
{
    if calls.len() > 0 {
        lemma_one_toggle_per_session(calls.drop_last());
        lemma_toggle_marks_transitions(calls);
    }
}

} // verus!
