//! What holds of the guard over every sequence of events.

use crate::process_lock::{initial, step, ActionView, GuardEvent, GuardState, GuardView};
use vstd::prelude::*;

verus! {

/// The guard after a sequence of events, starting from `g`.
pub open spec fn run(g: GuardView, events: Seq<GuardEvent>) -> GuardView
    decreases events.len(),
{
    if events.len() == 0 {
        g
    } else {
        step(run(g, events.drop_last()), events.last()).0
    }
}

/// How many of the events, fed to the guard `g` one after the other, called
/// for letting go: for the action `Release`.
pub open spec fn releases(g: GuardView, events: Seq<GuardEvent>) -> nat
    decreases events.len(),
{
    if events.len() == 0 {
        0
    } else {
        let earlier = releases(g, events.drop_last());
        if step(run(g, events.drop_last()), events.last()).1 is Release {
            earlier + 1
        } else {
            earlier
        }
    }
}

/// How many of the events called for the sleep switch to be set to
/// `disabled`.
pub open spec fn switch_calls(g: GuardView, events: Seq<GuardEvent>, disabled: bool) -> nat
    decreases events.len(),
{
    if events.len() == 0 {
        0
    } else {
        let earlier = switch_calls(g, events.drop_last(), disabled);
        if step(run(g, events.drop_last()), events.last()).1 == (ActionView::SetSleepDisabled {
            disabled,
        }) {
            earlier + 1
        } else {
            earlier
        }
    }
}

/// Whether the guard has left `Held` behind.
pub open spec fn let_go(g: GuardView) -> bool {
    g.state == GuardState::Releasing || g.state == GuardState::Released
}

/// `Released` and `Failed` are final: no event changes such a guard or calls
/// for anything.
pub proof fn lemma_final_states(g: GuardView, event: GuardEvent)
    requires
        g.state == GuardState::Released || g.state == GuardState::Failed,
    ensures
        step(g, event) == (g, ActionView::Nothing),
{
}

/// Letting go a second time changes nothing and calls for nothing, and so
/// does letting go of a guard that does not hold.
pub proof fn lemma_release_needs_held(g: GuardView)
    requires
        g.state != GuardState::Held,
    ensures
        step(g, GuardEvent::Release) == (g, ActionView::Nothing),
{
}

/// A guard comes to hold only once its registration succeeded and, where
/// that returned a toggle, the switch was set: no failure of the store or of
/// the switch on the way leads to `Held`.
pub proof fn lemma_held_needs_success(g: GuardView, event: GuardEvent)
    requires
        g.state != GuardState::Held,
        step(g, event).0.state == GuardState::Held,
    ensures
        g.state == GuardState::Acquiring,
        event == (GuardEvent::StoreUpdated { toggle: false }) || event == GuardEvent::SwitchSet,
        step(g, event).1 == ActionView::Nothing,
{
}

/// Whatever the events and their order, a guard is let go at most once, and
/// exactly once if it has left `Held` behind: a second request, from the end
/// of the scope or from an interrupt, finds nothing left to do.
pub proof fn lemma_released_exactly_once(verbose: bool, events: Seq<GuardEvent>)
    ensures
        releases(initial(verbose), events) == if let_go(run(initial(verbose), events)) {
            1nat
        } else {
            0nat
        },
    decreases events.len(),
{
    if events.len() > 0 {
        lemma_released_exactly_once(verbose, events.drop_last());
    }
}

/// A guard owns resource handles only while it holds: letting go hands all
/// of them out.
pub proof fn lemma_handles_only_while_held(verbose: bool, events: Seq<GuardEvent>)
    ensures
        run(initial(verbose), events).state != GuardState::Held ==> run(
            initial(verbose),
            events,
        ).handles.len() == 0,
    decreases events.len(),
{
    if events.len() > 0 {
        lemma_handles_only_while_held(verbose, events.drop_last());
    }
}

/// Whatever the events and their order, the switch is asked to disable sleep
/// at most once and to enable it again at most once, and never to enable it
/// before the guard was let go.
pub proof fn lemma_switch_set_at_most_once(verbose: bool, events: Seq<GuardEvent>)
    ensures
        switch_calls(initial(verbose), events, true) <= 1,
        switch_calls(initial(verbose), events, false) <= 1,
        switch_calls(initial(verbose), events, false) > 0 ==> let_go(
            run(initial(verbose), events),
        ),
    decreases events.len(),
{
    lemma_switch_calls_by_state(verbose, events);
}

/// The number of calls of the switch so far, told from where the guard
/// stands.
proof fn lemma_switch_calls_by_state(verbose: bool, events: Seq<GuardEvent>)
    ensures
        ({
            let g = run(initial(verbose), events);
            let on = switch_calls(initial(verbose), events, true);
            let off = switch_calls(initial(verbose), events, false);
            &&& on <= 1
            &&& off <= 1
            &&& g.state == GuardState::Uninitialized ==> on == 0 && off == 0
            &&& g.state == GuardState::Acquiring ==> off == 0 && (on == 1 <==> g.switching)
            &&& g.state == GuardState::Held ==> off == 0
            &&& g.state == GuardState::Failed ==> off == 0
            &&& g.state == GuardState::Releasing ==> (off == 1 <==> g.switching)
        }),
    decreases events.len(),
{
    if events.len() > 0 {
        lemma_switch_calls_by_state(verbose, events.drop_last());
    }
}

} // verus!
