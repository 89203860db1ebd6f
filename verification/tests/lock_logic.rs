use caffeinate2::lock_logic::update_pid_list;

#[test]
fn test_update_pid_list_add_first() {
    let pids = vec![];
    let current_pid = 123;
    let add = true;
    let verbose = false;
    let check_alive = |_: i32, _: bool| true;

    let (new_pids, should_toggle) = update_pid_list(pids, current_pid, add, verbose, check_alive);

    assert_eq!(new_pids, vec![123]);
    assert!(should_toggle, "Should toggle when adding first PID");
}

#[test]
fn test_update_pid_list_add_second() {
    let pids = vec![456];
    let current_pid = 123;
    let add = true;
    let verbose = false;
    let check_alive = |_: i32, _: bool| true;

    let (new_pids, should_toggle) = update_pid_list(pids, current_pid, add, verbose, check_alive);

    assert!(new_pids.contains(&123));
    assert!(new_pids.contains(&456));
    assert_eq!(new_pids.len(), 2);
    assert!(!should_toggle, "Should not toggle when adding subsequent PID");
}

#[test]
fn test_update_pid_list_remove_last() {
    let pids = vec![123];
    let current_pid = 123;
    let add = false;
    let verbose = false;
    let check_alive = |_: i32, _: bool| true;

    let (new_pids, should_toggle) = update_pid_list(pids, current_pid, add, verbose, check_alive);

    assert!(new_pids.is_empty());
    assert!(should_toggle, "Should toggle when removing last PID");
}

#[test]
fn test_update_pid_list_remove_intermediate() {
    let pids = vec![123, 456];
    let current_pid = 123;
    let add = false;
    let verbose = false;
    let check_alive = |_: i32, _: bool| true;

    let (new_pids, should_toggle) = update_pid_list(pids, current_pid, add, verbose, check_alive);

    assert_eq!(new_pids, vec![456]);
    assert!(!should_toggle, "Should not toggle when removing one of multiple PIDs");
}

#[test]
fn test_update_pid_list_remove_dead() {
    let pids = vec![999];
    let current_pid = 123;
    let add = true;
    let verbose = false;
    // 999 is reported dead
    let check_alive = |pid: i32, _: bool| pid != 999;

    let (new_pids, should_toggle) = update_pid_list(pids, current_pid, add, verbose, check_alive);

    assert_eq!(new_pids, vec![123]);
    // Before adding current, active count was 0 (since 999 was removed)
    assert!(should_toggle, "Should toggle because active count before add was effectively 0");
}

#[test]
fn test_update_pid_list_current_pid_protection() {
    // Even if check_alive says current_pid is dead, it must not be removed
    // by the liveness check.
    let pids = vec![123];
    let current_pid = 123;
    let add = true; // Trying to add existing
    let verbose = false;
    let check_alive = |_: i32, _: bool| false; // Says everyone is dead

    let (new_pids, _) = update_pid_list(pids, current_pid, add, verbose, check_alive);

    assert_eq!(new_pids, vec![123]);
}
