//! The toggle algorithm and the liveness filter, free of any I/O.

use vstd::prelude::*;

verus! {

/// A value that names one holder of the shared switch in the registry.
///
/// A bare PID is the simplest holder; [`crate::identity::Identity`] adds the
/// process start time, which tells a recycled PID from the process that registered.
pub trait Holder: Copy {
    /// Whether two holders name the same process instance.
    fn same(&self, other: &Self) -> (eq: bool)
        ensures
            eq == (*self == *other),
    ;
}

impl Holder for i32 {
    fn same(&self, other: &i32) -> (eq: bool) {
        *self == *other
    }
}

/// The registry after the liveness filter: the entries of `entries`, in
/// order, that are `me` or whose probe reported them alive.
pub open spec fn retain_live<T>(entries: Seq<T>, alive: Seq<bool>, me: T) -> Seq<T>
    decreases entries.len(),
{
    if entries.len() == 0 {
        Seq::empty()
    } else {
        let rest = retain_live(entries.drop_last(), alive.drop_last(), me);
        if entries.last() == me || alive.last() {
            rest.push(entries.last())
        } else {
            rest
        }
    }
}

/// The registry after `me` acquires (`add`) or releases (`!add`), given the
/// filtered registry `live`.
pub open spec fn after_operation<T>(live: Seq<T>, me: T, add: bool) -> Seq<T> {
    if add {
        if live.contains(me) {
            live
        } else {
            live.push(me)
        }
    } else {
        live.filter(|e: T| e != me)
    }
}

/// Whether the operation moves the live count from zero (acquire, counted
/// before insertion) or to zero (release, counted after removal).
pub open spec fn should_toggle<T>(live: Seq<T>, me: T, add: bool) -> bool {
    if add {
        live.len() == 0
    } else {
        after_operation(live, me, false).len() == 0
    }
}

/// `alive` records one possible run of the probe over `entries`: one answer
/// per entry other than `me`, each an answer that `check_alive` may give.
pub open spec fn probe_run<T, F: Fn(T, bool) -> bool>(
    check_alive: F,
    entries: Seq<T>,
    me: T,
    verbose: bool,
    alive: Seq<bool>,
) -> bool {
    &&& alive.len() == entries.len()
    &&& forall|i: int|
        0 <= i < entries.len() && entries[i] != me ==> call_ensures(
            check_alive,
            (#[trigger] entries[i], verbose),
            alive[i],
        )
}

/// Whether `entries` holds `x`.
pub fn contains_holder<T: Holder>(entries: &Vec<T>, x: &T) -> (found: bool)
    ensures
        found == entries@.contains(*x),
{
    let mut i: usize = 0;
    while i < entries.len()
        invariant
            i <= entries.len(),
            forall|j: int| 0 <= j < i ==> entries@[j] != *x,
        decreases entries.len() - i,
    {
        if entries[i].same(x) {
            return true;
        }
        i += 1;
    }
    false
}

/// Applies the toggle algorithm to an already filtered registry.
pub fn apply_operation<T: Holder>(live: Vec<T>, me: T, add: bool) -> (res: (Vec<T>, bool))
    ensures
        res.0@ == after_operation(live@, me, add),
        res.1 == should_toggle(live@, me, add),
{
    let count_before = live.len();
    let mut out: Vec<T> = Vec::new();
    let mut found = false;
    let mut i: usize = 0;
    while i < live.len()
        invariant
            i <= live.len(),
            found == live@.take(i as int).contains(me),
            add ==> out@ == live@.take(i as int),
            !add ==> out@ == live@.take(i as int).filter(|e: T| e != me),
        decreases live.len() - i,
    {
        let e = live[i];
        let is_me = e.same(&me);
        proof {
            let prefix = live@.take(i as int);
            let next = live@.take(i + 1);
            assert(next == prefix.push(e));
            prefix.lemma_filter_push(e, |e: T| e != me);
            if is_me {
                assert(next[i as int] == me);
            }
        }
        if is_me {
            found = true;
        }
        if add || !is_me {
            out.push(e);
        }
        i += 1;
    }
    assert(live@.take(live@.len() as int) == live@);
    if add && !found {
        out.push(me);
    }
    let toggle = if add {
        count_before == 0
    } else {
        out.len() == 0
    };
    (out, toggle)
}

/// The liveness filter, given the probe's answers: keeps `me` and every
/// entry reported alive, in registry order, and drops the rest.
pub fn filter_live<T: Holder>(entries: &Vec<T>, alive: &Vec<bool>, me: T) -> (live: Vec<T>)
    requires
        alive@.len() == entries@.len(),
    ensures
        live@ == retain_live(entries@, alive@, me),
{
    let mut live: Vec<T> = Vec::new();
    let mut i: usize = 0;
    while i < entries.len()
        invariant
            i <= entries.len(),
            alive@.len() == entries@.len(),
            live@ == retain_live(entries@.take(i as int), alive@.take(i as int), me),
        decreases entries.len() - i,
    {
        let e = entries[i];
        let keep = e.same(&me) || alive[i];
        proof {
            assert(entries@.take(i + 1).drop_last() == entries@.take(i as int));
            assert(alive@.take(i + 1).drop_last() == alive@.take(i as int));
        }
        if keep {
            live.push(e);
        }
        i += 1;
    }
    proof {
        assert(entries@.take(entries@.len() as int) == entries@);
        assert(alive@.take(alive@.len() as int) == alive@);
    }
    live
}

/// One whole update of the registry: probes every entry other than `me`,
/// drops the dead ones, then lets `me` acquire (`add`) or release (`!add`).
///
/// Returns the new registry and whether the shared switch has to change.
pub fn update_entries<T: Holder, F: Fn(T, bool) -> bool>(
    entries: Vec<T>,
    me: T,
    add: bool,
    verbose: bool,
    check_alive: F,
) -> (res: (Vec<T>, bool))
    requires
        forall|i: int|
            0 <= i < entries@.len() && entries@[i] != me ==> call_requires(
                check_alive,
                (#[trigger] entries@[i], verbose),
            ),
    ensures
        exists|alive: Seq<bool>| #[trigger]
            probe_run(check_alive, entries@, me, verbose, alive) && res.0@ == after_operation(
                retain_live(entries@, alive, me),
                me,
                add,
            ) && res.1 == should_toggle(retain_live(entries@, alive, me), me, add),
{
    let mut alive: Vec<bool> = Vec::new();
    let mut i: usize = 0;
    while i < entries.len()
        invariant
            i <= entries.len(),
            alive@.len() == i,
            forall|j: int|
                0 <= j < entries@.len() && entries@[j] != me ==> call_requires(
                    check_alive,
                    (#[trigger] entries@[j], verbose),
                ),
            forall|j: int|
                0 <= j < i && entries@[j] != me ==> call_ensures(
                    check_alive,
                    (#[trigger] entries@[j], verbose),
                    alive@[j],
                ),
        decreases entries.len() - i,
    {
        let e = entries[i];
        let verdict = if e.same(&me) {
            true
        } else {
            check_alive(e, verbose)
        };
        alive.push(verdict);
        i += 1;
    }
    let live = filter_live(&entries, &alive, me);
    let res = apply_operation(live, me, add);
    proof {
        assert(probe_run(check_alive, entries@, me, verbose, alive@));
    }
    res
}

/// Updates a registry of bare PIDs.
///
/// Every PID other than `current_pid` is probed with `check_alive`; those
/// reported dead are dropped. Then `current_pid` is added (`add`) or removed
/// (`!add`). The flag returned says whether the live count went from zero
/// (on adding) or to zero (on removing).
pub fn update_pid_list<F>(
    pids: Vec<i32>,
    current_pid: i32,
    add: bool,
    verbose: bool,
    check_alive: F,
) -> (res: (Vec<i32>, bool)) where F: Fn(i32, bool) -> bool
    requires
        forall|i: int|
            0 <= i < pids@.len() && pids@[i] != current_pid ==> call_requires(
                check_alive,
                (#[trigger] pids@[i], verbose),
            ),
    ensures
        exists|alive: Seq<bool>| #[trigger]
            probe_run(check_alive, pids@, current_pid, verbose, alive) && res.0@
                == after_operation(retain_live(pids@, alive, current_pid), current_pid, add)
                && res.1 == should_toggle(retain_live(pids@, alive, current_pid), current_pid, add),
{
    update_entries(pids, current_pid, add, verbose, check_alive)
}

} // verus!
