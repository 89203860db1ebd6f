use caffeinate2::process_lock::{GuardAction, GuardEvent, GuardState, LockError, ProcessLock};
use caffeinate2::store::StoreError;

fn held(verbose: bool, toggle: bool) -> ProcessLock {
    let mut lock = ProcessLock::new(verbose);
    assert_eq!(lock.handle(GuardEvent::Construct), GuardAction::UpdateStore { add: true });
    if toggle {
        assert_eq!(
            lock.handle(GuardEvent::StoreUpdated { toggle: true }),
            GuardAction::SetSleepDisabled { disabled: true }
        );
        assert_eq!(lock.state(), GuardState::Acquiring);
        assert_eq!(lock.handle(GuardEvent::SwitchSet), GuardAction::Nothing);
    } else {
        assert_eq!(lock.handle(GuardEvent::StoreUpdated { toggle: false }), GuardAction::Nothing);
    }
    assert_eq!(lock.state(), GuardState::Held);
    lock
}

#[test]
fn a_new_guard_is_uninitialized() {
    let lock = ProcessLock::new(true);
    assert_eq!(lock.state(), GuardState::Uninitialized);
    assert!(lock.verbose());
    assert!(!lock.is_responsible());
    assert!(lock.handles().is_empty());
    assert!(!ProcessLock::new(false).verbose());
}

#[test]
fn first_instance_turns_the_switch_on_and_off() {
    let mut lock = held(false, true);
    assert!(lock.is_responsible());
    assert_eq!(lock.handle(GuardEvent::Release), GuardAction::Release { handles: vec![] });
    assert_eq!(lock.state(), GuardState::Releasing);
    assert_eq!(
        lock.handle(GuardEvent::StoreUpdated { toggle: true }),
        GuardAction::SetSleepDisabled { disabled: false }
    );
    assert_eq!(lock.state(), GuardState::Releasing);
    assert_eq!(lock.handle(GuardEvent::SwitchSet), GuardAction::Nothing);
    assert_eq!(lock.state(), GuardState::Released);
}

#[test]
fn later_instance_leaves_the_switch_alone() {
    let mut lock = held(true, false);
    assert!(!lock.is_responsible());
    assert_eq!(lock.handle(GuardEvent::Release), GuardAction::Release { handles: vec![] });
    assert_eq!(lock.handle(GuardEvent::StoreUpdated { toggle: false }), GuardAction::Nothing);
    assert_eq!(lock.state(), GuardState::Released);
}

#[test]
fn store_failure_on_acquire_fails_construction() {
    for error in [StoreError::Open, StoreError::Lock, StoreError::Replaced, StoreError::Read,
        StoreError::Write] {
        let mut lock = ProcessLock::new(false);
        lock.handle(GuardEvent::Construct);
        assert_eq!(
            lock.handle(GuardEvent::StoreFailed { error }),
            GuardAction::Fail { error: LockError::Store(error) }
        );
        assert_eq!(lock.state(), GuardState::Failed);
        assert_eq!(lock.handle(GuardEvent::Release), GuardAction::Nothing);
        assert_eq!(lock.state(), GuardState::Failed);
    }
}

#[test]
fn switch_failure_on_acquire_withdraws_the_registration() {
    let mut lock = ProcessLock::new(false);
    lock.handle(GuardEvent::Construct);
    lock.handle(GuardEvent::StoreUpdated { toggle: true });
    assert_eq!(
        lock.handle(GuardEvent::SwitchFailed { code: 0xE00002C1 }),
        GuardAction::Withdraw { error: LockError::Capability(0xE00002C1) }
    );
    assert_eq!(lock.state(), GuardState::Failed);
    assert!(!lock.is_responsible());
    assert_eq!(lock.handle(GuardEvent::Release), GuardAction::Nothing);
    assert_eq!(lock.handle(GuardEvent::StoreUpdated { toggle: true }), GuardAction::Nothing);
    assert_eq!(lock.state(), GuardState::Failed);
}

#[test]
fn failures_on_release_are_reported_and_do_not_block() {
    let mut lock = held(false, true);
    lock.handle(GuardEvent::Release);
    assert_eq!(
        lock.handle(GuardEvent::StoreFailed { error: StoreError::Lock }),
        GuardAction::Warn { error: LockError::Store(StoreError::Lock) }
    );
    assert_eq!(lock.state(), GuardState::Released);

    let mut lock = held(false, true);
    lock.handle(GuardEvent::Release);
    lock.handle(GuardEvent::StoreUpdated { toggle: true });
    assert_eq!(
        lock.handle(GuardEvent::SwitchFailed { code: 7 }),
        GuardAction::Warn { error: LockError::Capability(7) }
    );
    assert_eq!(lock.state(), GuardState::Released);
}

#[test]
fn release_happens_exactly_once() {
    let mut lock = held(false, false);
    assert!(lock.attach(11));
    assert_eq!(lock.handle(GuardEvent::Release), GuardAction::Release { handles: vec![11] });
    // The scope ends after the interrupt already let go.
    assert_eq!(lock.handle(GuardEvent::Release), GuardAction::Nothing);
    assert_eq!(lock.state(), GuardState::Releasing);
    lock.handle(GuardEvent::StoreUpdated { toggle: false });
    assert_eq!(lock.handle(GuardEvent::Release), GuardAction::Nothing);
    assert_eq!(lock.state(), GuardState::Released);
    assert_eq!(lock.handle(GuardEvent::Construct), GuardAction::Nothing);
    assert_eq!(lock.state(), GuardState::Released);
}

#[test]
fn events_that_do_not_fit_are_ignored() {
    let mut lock = ProcessLock::new(false);
    for event in [
        GuardEvent::Release,
        GuardEvent::StoreUpdated { toggle: true },
        GuardEvent::StoreFailed { error: StoreError::Open },
        GuardEvent::SwitchSet,
        GuardEvent::SwitchFailed { code: 1 },
    ] {
        assert_eq!(lock.handle(event), GuardAction::Nothing);
        assert_eq!(lock.state(), GuardState::Uninitialized);
    }
    lock.handle(GuardEvent::Construct);
    for event in [
        GuardEvent::Construct,
        GuardEvent::Release,
        GuardEvent::SwitchSet,
        GuardEvent::SwitchFailed { code: 1 },
    ] {
        assert_eq!(lock.handle(event), GuardAction::Nothing);
        assert_eq!(lock.state(), GuardState::Acquiring);
    }
    lock.handle(GuardEvent::StoreUpdated { toggle: true });
    for event in [
        GuardEvent::Construct,
        GuardEvent::Release,
        GuardEvent::StoreUpdated { toggle: false },
        GuardEvent::StoreFailed { error: StoreError::Open },
    ] {
        assert_eq!(lock.handle(event), GuardAction::Nothing);
        assert_eq!(lock.state(), GuardState::Acquiring);
    }
    let mut lock = held(false, false);
    for event in [
        GuardEvent::Construct,
        GuardEvent::StoreUpdated { toggle: true },
        GuardEvent::StoreFailed { error: StoreError::Open },
        GuardEvent::SwitchSet,
        GuardEvent::SwitchFailed { code: 1 },
    ] {
        assert_eq!(lock.handle(event), GuardAction::Nothing);
        assert_eq!(lock.state(), GuardState::Held);
    }
}

#[test]
fn handles_are_owned_while_held_and_handed_out_on_release() {
    let mut lock = ProcessLock::new(false);
    assert!(!lock.attach(1));
    lock.handle(GuardEvent::Construct);
    assert!(!lock.attach(2));
    lock.handle(GuardEvent::StoreUpdated { toggle: false });
    assert!(lock.attach(3));
    assert!(lock.attach(4));
    assert!(lock.attach(3));
    assert_eq!(*lock.handles(), vec![3, 4, 3]);
    assert_eq!(lock.handle(GuardEvent::Release), GuardAction::Release { handles: vec![3, 4, 3] });
    assert!(lock.handles().is_empty());
    assert!(!lock.attach(5));
    assert!(lock.handles().is_empty());
}
