use caffeinate2::identity::Identity;
use caffeinate2::liveness::{
    check_alive, check_identity_alive, check_pid_alive, identity_is_alive, outcome_is_alive,
    ProbeOutcome,
};
use caffeinate2::store::{
    lock_file_mode, update_lockfile, update_registry, verify_not_replaced, FileId, StoreError,
};

/// A PID beyond any that the kernel hands out.
const NOBODY: i32 = i32::MAX;

fn all_alive(_: Identity, _: bool) -> bool {
    true
}

#[test]
fn store_scenario_first_acquire() {
    let (content, toggle) = update_registry(b"", Identity::bare(1), true, false, all_alive);
    assert_eq!(content, b"1\n".to_vec());
    assert!(toggle);
}

#[test]
fn store_scenario_second_acquire() {
    let (content, toggle) = update_registry(b"1\n", Identity::bare(2), true, false, all_alive);
    assert_eq!(content, b"1\n2\n".to_vec());
    assert!(!toggle);
}

#[test]
fn store_scenario_first_release() {
    let (content, toggle) = update_registry(b"1\n2\n", Identity::bare(1), false, false, all_alive);
    assert_eq!(content, b"2\n".to_vec());
    assert!(!toggle);
}

#[test]
fn store_scenario_last_release_leaves_an_empty_file() {
    let (content, toggle) = update_registry(b"2\n", Identity::bare(2), false, false, all_alive);
    assert_eq!(content, b"".to_vec());
    assert!(toggle);
}

#[test]
fn store_scenario_dead_holder_is_reclaimed() {
    let dead = Identity::bare(99);
    let (content, toggle) =
        update_registry(b"99\n", Identity::bare(3), true, false, |id, _| id != dead);
    assert_eq!(content, b"3\n".to_vec());
    assert!(toggle);
}

#[test]
fn store_scenario_race_is_serialized_by_the_lock() {
    let one = Identity::new(10, 111);
    let other = Identity::new(20, 222);
    for (first, second) in [(one, other), (other, one)] {
        let (content, first_toggle) = update_registry(b"", first, true, false, all_alive);
        let (content, second_toggle) = update_registry(&content, second, true, false, all_alive);
        let registry = caffeinate2::registry::parse_registry(&content);
        assert_eq!(registry.len(), 2);
        assert!(registry.contains(&one));
        assert!(registry.contains(&other));
        assert!(first_toggle && !second_toggle);
    }
}

#[test]
fn store_rewrites_the_whole_file() {
    let content = b"garbage\n  7 \n+8:5\n7\n\n9";
    let (updated, toggle) = update_registry(content, Identity::bare(9), true, false, all_alive);
    assert_eq!(updated, b"7\n8:5\n9\n".to_vec());
    assert!(!toggle);
}

#[test]
fn store_recycled_pid_is_stale() {
    // 42 was recorded with start time 1000; the PID now belongs to a process
    // that started at 2000.
    let probe = |id: Identity, _: bool| {
        identity_is_alive(id, ProbeOutcome::Running, Some(2000))
    };
    let me = Identity::new(50, 3000);
    let (content, toggle) = update_registry(b"42:1000\n", me, true, false, probe);
    assert_eq!(content, b"50:3000\n".to_vec());
    assert!(toggle);
    let (content, toggle) = update_registry(b"42:2000\n", me, true, false, probe);
    assert_eq!(content, b"42:2000\n50:3000\n".to_vec());
    assert!(!toggle);
}

#[test]
fn lockfile_update_probes_real_processes() {
    // Nobody has this PID: the entry is stale and the caller is first.
    let content = format!("{}\n", NOBODY);
    let (updated, toggle) = update_lockfile(content.as_bytes(), 4242, true, false);
    assert_eq!(updated, b"4242\n".to_vec());
    assert!(toggle);
    // PID 1 always runs.
    let (updated, toggle) = update_lockfile(b"1\n", 4242, true, false);
    assert_eq!(updated, b"1\n4242\n".to_vec());
    assert!(!toggle);
    let (updated, toggle) = update_lockfile(&updated, 4242, false, true);
    assert_eq!(updated, b"1\n".to_vec());
    assert!(!toggle);
    // The caller's own entry is kept without a probe.
    let content = format!("{}\n", NOBODY);
    let (updated, toggle) = update_lockfile(content.as_bytes(), NOBODY, true, false);
    assert_eq!(updated, content.as_bytes().to_vec());
    assert!(!toggle);
    let (updated, toggle) = update_lockfile(&updated, NOBODY, false, false);
    assert_eq!(updated, b"".to_vec());
    assert!(toggle);
}

#[test]
fn probing_a_pid() {
    assert!(check_alive(1, false));
    assert!(check_alive(1, true));
    assert!(!check_alive(NOBODY, false));
    assert!(check_pid_alive(Identity::new(1, 5), false));
    assert!(!check_pid_alive(Identity::bare(NOBODY), false));
    assert!(check_identity_alive(Identity::bare(1), false, None));
    assert!(check_identity_alive(Identity::new(1, 5), false, Some(5)));
    assert!(!check_identity_alive(Identity::new(1, 5), false, Some(6)));
    assert!(!check_identity_alive(Identity::new(NOBODY, 5), false, Some(5)));
}

#[test]
fn verdict_on_a_probe() {
    assert!(outcome_is_alive(ProbeOutcome::Running));
    assert!(!outcome_is_alive(ProbeOutcome::NoSuchProcess));
    assert!(outcome_is_alive(ProbeOutcome::Failed));
}

#[test]
fn verdict_on_an_identity() {
    let timed = Identity::new(8, 100);
    let bare = Identity::bare(8);
    for current in [None, Some(100), Some(101)] {
        assert!(!identity_is_alive(timed, ProbeOutcome::NoSuchProcess, current));
        assert!(!identity_is_alive(bare, ProbeOutcome::NoSuchProcess, current));
        assert!(identity_is_alive(timed, ProbeOutcome::Failed, current));
        assert!(identity_is_alive(bare, ProbeOutcome::Failed, current));
        assert!(identity_is_alive(bare, ProbeOutcome::Running, current));
    }
    assert!(identity_is_alive(timed, ProbeOutcome::Running, None));
    assert!(identity_is_alive(timed, ProbeOutcome::Running, Some(100)));
    assert!(!identity_is_alive(timed, ProbeOutcome::Running, Some(101)));
}

#[test]
fn replaced_registry_is_detected() {
    let locked = FileId { device: 3, inode: 1000 };
    assert_eq!(verify_not_replaced(locked, Some(locked)), Ok(()));
    assert_eq!(
        verify_not_replaced(locked, Some(FileId { device: 3, inode: 1001 })),
        Err(StoreError::Replaced)
    );
    assert_eq!(
        verify_not_replaced(locked, Some(FileId { device: 4, inode: 1000 })),
        Err(StoreError::Replaced)
    );
    assert_eq!(verify_not_replaced(locked, None), Err(StoreError::Replaced));
}

#[test]
fn lock_file_permissions() {
    assert_eq!(lock_file_mode(false), 0o600);
    assert_eq!(lock_file_mode(true), 0o666);
}
