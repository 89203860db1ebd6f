//! The guard that a process holds while it needs the shared switch, as a
//! state machine: events go in, and what to do next comes out.
//!
//! The guard itself performs nothing. Whoever drives it carries out each
//! action (an update of the lock file, a call of the sleep switch) and hands
//! the outcome back as the next event.

use crate::store::StoreError;
use vstd::prelude::*;

verus! {

/// Where a guard stands in its life.
#[derive(Clone, Copy, Debug, PartialEq, Eq)]
pub enum GuardState {
    /// Nothing has been asked of the guard yet.
    Uninitialized,
    /// The guard is registering itself, or turning the switch on.
    Acquiring,
    /// The guard is registered, and the switch is on.
    Held,
    /// The guard is taking itself out of the registry, or turning the switch
    /// off.
    Releasing,
    /// The guard has let go. Final.
    Released,
    /// Construction failed: the guard never came to hold. Final.
    Failed,
}

/// Why a guard could not do what it was asked to.
#[derive(Clone, Copy, Debug, PartialEq, Eq)]
pub enum LockError {
    /// The registry could not be updated.
    Store(StoreError),
    /// The sleep switch refused the change, with this error code.
    Capability(u32),
}

/// What happened since the guard's last action.
#[derive(Clone, Copy, Debug, PartialEq, Eq)]
pub enum GuardEvent {
    /// The owner asks for the guard to be constructed.
    Construct,
    /// The registry was updated; `toggle` is what the update returned.
    StoreUpdated { toggle: bool },
    /// The registry could not be updated, and was left as it was.
    StoreFailed { error: StoreError },
    /// The sleep switch was set as asked.
    SwitchSet,
    /// The sleep switch refused the change.
    SwitchFailed { code: u32 },
    /// The owner lets go of the guard: the end of its scope, or an
    /// interrupt, whichever comes first.
    Release,
}

/// What the driver of a guard has to do next.
#[derive(Debug, PartialEq, Eq)]
pub enum GuardAction {
    /// Nothing; wait for the next event.
    Nothing,
    /// Update the registry, adding (`add`) or removing this process, and
    /// report `StoreUpdated` or `StoreFailed`.
    UpdateStore { add: bool },
    /// Set the sleep switch: disable sleep (`disabled`) or enable it again,
    /// and report `SwitchSet` or `SwitchFailed`.
    SetSleepDisabled { disabled: bool },
    /// Let go of these resource handles, then update the registry, removing
    /// this process, and report `StoreUpdated` or `StoreFailed`.
    Release { handles: Vec<u32> },
    /// Construction has failed before the registry was changed: surface
    /// `error` to the caller.
    Fail { error: LockError },
    /// Construction has failed after this process was registered: take it
    /// out of the registry again, leave the switch alone, and surface `error`
    /// to the caller.
    Withdraw { error: LockError },
    /// Letting go met a failure: report `error`, and go on terminating.
    Warn { error: LockError },
}

/// A [`GuardAction`] as a mathematical value.
pub enum ActionView {
    Nothing,
    UpdateStore { add: bool },
    SetSleepDisabled { disabled: bool },
    Release { handles: Seq<u32> },
    Fail { error: LockError },
    Withdraw { error: LockError },
    Warn { error: LockError },
}

impl View for GuardAction {
    type V = ActionView;

    open spec fn view(&self) -> ActionView {
        match *self {
            GuardAction::Nothing => ActionView::Nothing,
            GuardAction::UpdateStore { add } => ActionView::UpdateStore { add },
            GuardAction::SetSleepDisabled { disabled } => ActionView::SetSleepDisabled { disabled },
            GuardAction::Release { handles } => ActionView::Release { handles: handles@ },
            GuardAction::Fail { error } => ActionView::Fail { error },
            GuardAction::Withdraw { error } => ActionView::Withdraw { error },
            GuardAction::Warn { error } => ActionView::Warn { error },
        }
    }
}

/// A guard as a mathematical value.
pub struct GuardView {
    /// Whether the driver reports what it does.
    pub verbose: bool,
    /// Where the guard stands.
    pub state: GuardState,
    /// Within `Acquiring` and `Releasing`: whether the registry is already
    /// updated and the guard waits for the sleep switch.
    pub switching: bool,
    /// Whether it was this guard that turned the switch on.
    pub responsible: bool,
    /// The resource handles that the guard owns.
    pub handles: Seq<u32>,
}

/// The guard in its first state.
pub open spec fn initial(verbose: bool) -> GuardView {
    GuardView {
        verbose,
        state: GuardState::Uninitialized,
        switching: false,
        responsible: false,
        handles: Seq::empty(),
    }
}

/// The guard's transition function: the guard after `event`, and the action
/// that the event calls for. An event that does not fit the state changes
/// nothing and calls for nothing.
pub open spec fn step(g: GuardView, event: GuardEvent) -> (GuardView, ActionView) {
    match (g.state, g.switching, event) {
        (GuardState::Uninitialized, _, GuardEvent::Construct) => (
            GuardView { state: GuardState::Acquiring, switching: false, ..g },
            ActionView::UpdateStore { add: true },
        ),
        (GuardState::Acquiring, false, GuardEvent::StoreUpdated { toggle }) => if toggle {
            (GuardView { switching: true, ..g }, ActionView::SetSleepDisabled { disabled: true })
        } else {
            (GuardView { state: GuardState::Held, ..g }, ActionView::Nothing)
        },
        (GuardState::Acquiring, false, GuardEvent::StoreFailed { error }) => (
            GuardView { state: GuardState::Failed, ..g },
            ActionView::Fail { error: LockError::Store(error) },
        ),
        (GuardState::Acquiring, true, GuardEvent::SwitchSet) => (
            GuardView { state: GuardState::Held, switching: false, responsible: true, ..g },
            ActionView::Nothing,
        ),
        (GuardState::Acquiring, true, GuardEvent::SwitchFailed { code }) => (
            GuardView { state: GuardState::Failed, switching: false, ..g },
            ActionView::Withdraw { error: LockError::Capability(code) },
        ),
        (GuardState::Held, _, GuardEvent::Release) => (
            GuardView {
                state: GuardState::Releasing,
                switching: false,
                handles: Seq::empty(),
                ..g
            },
            ActionView::Release { handles: g.handles },
        ),
        (GuardState::Releasing, false, GuardEvent::StoreUpdated { toggle }) => if toggle {
            (GuardView { switching: true, ..g }, ActionView::SetSleepDisabled { disabled: false })
        } else {
            (GuardView { state: GuardState::Released, ..g }, ActionView::Nothing)
        },
        (GuardState::Releasing, false, GuardEvent::StoreFailed { error }) => (
            GuardView { state: GuardState::Released, ..g },
            ActionView::Warn { error: LockError::Store(error) },
        ),
        (GuardState::Releasing, true, GuardEvent::SwitchSet) => (
            GuardView { state: GuardState::Released, switching: false, ..g },
            ActionView::Nothing,
        ),
        (GuardState::Releasing, true, GuardEvent::SwitchFailed { code }) => (
            GuardView { state: GuardState::Released, switching: false, ..g },
            ActionView::Warn { error: LockError::Capability(code) },
        ),
        _ => (g, ActionView::Nothing),
    }
}

/// The guard of one process.
pub struct ProcessLock {
    verbose: bool,
    state: GuardState,
    switching: bool,
    responsible: bool,
    handles: Vec<u32>,
}

impl View for ProcessLock {
    type V = GuardView;

    closed spec fn view(&self) -> GuardView {
        GuardView {
            verbose: self.verbose,
            state: self.state,
            switching: self.switching,
            responsible: self.responsible,
            handles: self.handles@,
        }
    }
}

impl ProcessLock {
    /// A guard of which nothing has been asked yet.
    pub fn new(verbose: bool) -> (lock: ProcessLock)
        ensures
            lock@ == initial(verbose),
    {
        ProcessLock {
            verbose,
            state: GuardState::Uninitialized,
            switching: false,
            responsible: false,
            handles: Vec::new(),
        }
    }

    /// Where the guard stands.
    pub fn state(&self) -> (state: GuardState)
        ensures
            state == self@.state,
    {
        self.state
    }

    /// Whether the driver reports what it does.
    pub fn verbose(&self) -> (verbose: bool)
        ensures
            verbose == self@.verbose,
    {
        self.verbose
    }

    /// Whether it was this guard that turned the switch on.
    pub fn is_responsible(&self) -> (responsible: bool)
        ensures
            responsible == self@.responsible,
    {
        self.responsible
    }

    /// The resource handles that the guard owns.
    pub fn handles(&self) -> (handles: &Vec<u32>)
        ensures
            handles@ == self@.handles,
    {
        &self.handles
    }

    /// Hands a resource handle over to the guard, which lets go of it when
    /// it is released. Only a guard that holds takes handles: the result
    /// says whether it did.
    pub fn attach(&mut self, handle: u32) -> (taken: bool)
        ensures
            taken == (old(self)@.state == GuardState::Held),
            taken ==> final(self)@ == (GuardView {
                handles: old(self)@.handles.push(handle),
                ..old(self)@
            }),
            !taken ==> final(self)@ == old(self)@,
    {
        match self.state {
            GuardState::Held => {
                self.handles.push(handle);
                true
            },
            _ => false,
        }
    }

    /// Tells the guard of `event` and returns what to do next.
    pub fn handle(&mut self, event: GuardEvent) -> (action: GuardAction)
        ensures
            (final(self)@, action@) == step(old(self)@, event),
    {
        match (self.state, self.switching, event) {
            (GuardState::Uninitialized, _, GuardEvent::Construct) => {
                self.state = GuardState::Acquiring;
                self.switching = false;
                GuardAction::UpdateStore { add: true }
            },
            (GuardState::Acquiring, false, GuardEvent::StoreUpdated { toggle }) => {
                if toggle {
                    self.switching = true;
                    GuardAction::SetSleepDisabled { disabled: true }
                } else {
                    self.state = GuardState::Held;
                    GuardAction::Nothing
                }
            },
            (GuardState::Acquiring, false, GuardEvent::StoreFailed { error }) => {
                self.state = GuardState::Failed;
                GuardAction::Fail { error: LockError::Store(error) }
            },
            (GuardState::Acquiring, true, GuardEvent::SwitchSet) => {
                self.state = GuardState::Held;
                self.switching = false;
                self.responsible = true;
                GuardAction::Nothing
            },
            (GuardState::Acquiring, true, GuardEvent::SwitchFailed { code }) => {
                self.state = GuardState::Failed;
                self.switching = false;
                GuardAction::Withdraw { error: LockError::Capability(code) }
            },
            (GuardState::Held, _, GuardEvent::Release) => {
                self.state = GuardState::Releasing;
                self.switching = false;
                let mut handles: Vec<u32> = Vec::new();
                std::mem::swap(&mut handles, &mut self.handles);
                GuardAction::Release { handles }
            },
            (GuardState::Releasing, false, GuardEvent::StoreUpdated { toggle }) => {
                if toggle {
                    self.switching = true;
                    GuardAction::SetSleepDisabled { disabled: false }
                } else {
                    self.state = GuardState::Released;
                    GuardAction::Nothing
                }
            },
            (GuardState::Releasing, false, GuardEvent::StoreFailed { error }) => {
                self.state = GuardState::Released;
                GuardAction::Warn { error: LockError::Store(error) }
            },
            (GuardState::Releasing, true, GuardEvent::SwitchSet) => {
                self.state = GuardState::Released;
                self.switching = false;
                GuardAction::Nothing
            },
            (GuardState::Releasing, true, GuardEvent::SwitchFailed { code }) => {
                self.state = GuardState::Released;
                self.switching = false;
                GuardAction::Warn { error: LockError::Capability(code) }
            },
            _ => GuardAction::Nothing,
        }
    }
}

} // verus!
