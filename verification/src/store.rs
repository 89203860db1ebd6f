//! The lock file store: what one read-modify-write cycle on the registry
//! computes between reading the file and writing it back.

use crate::identity::Identity;
use crate::liveness::check_pid_alive;
use crate::lock_logic::{after_operation, probe_run, retain_live, should_toggle, update_entries};
use crate::registry::{format_registry, parse_registry, registry_of, registry_text};
use vstd::prelude::*;

verus! {

/// Why an update of the registry was given up. Whatever the reason, the
/// lock file is left as it was.
#[derive(Clone, Copy, Debug, PartialEq, Eq)]
pub enum StoreError {
    /// The lock file could not be opened or created.
    Open,
    /// The exclusive lock on the file could not be taken.
    Lock,
    /// After the lock was taken, the path no longer named the locked file:
    /// the registry was replaced concurrently.
    Replaced,
    /// The locked file could not be read.
    Read,
    /// The new registry could not be written.
    Write,
}

/// What identifies a file on one machine whatever its path: the device it
/// lives on and its inode number there.
#[derive(Clone, Copy, Debug, PartialEq, Eq)]
pub struct FileId {
    pub device: u64,
    pub inode: u64,
}

/// Checks, once the lock is held, that the path still names the locked file.
///
/// `locked` identifies the file that was opened and locked; `at_path` is what
/// a fresh look at the path found, if it found a file at all.
pub fn verify_not_replaced(locked: FileId, at_path: Option<FileId>) -> (res: Result<
    (),
    StoreError,
>)
    ensures
        res is Ok <==> at_path == Some(locked),
        res is Err ==> res == Err::<(), StoreError>(StoreError::Replaced),
{
    match at_path {
        Some(found) => {
            if found.device == locked.device && found.inode == locked.inode {
                Ok(())
            } else {
                Err(StoreError::Replaced)
            }
        },
        None => Err(StoreError::Replaced),
    }
}

/// The permission bits with which the lock file is created: read and write
/// for the owner alone where the caller is not privileged, for everybody
/// where it is, so that instances of other users can register too.
pub fn lock_file_mode(privileged: bool) -> (mode: u32)
    ensures
        mode == if privileged {
            0o666u32
        } else {
            0o600u32
        },
{
    if privileged {
        0o666
    } else {
        0o600
    }
}

/// The registry that an update leaves, given the content of the lock file
/// before it and the answers of the probes: the registry read from the
/// content, without the dead, after `me` acquired (`add`) or released.
pub open spec fn next_registry(content: Seq<u8>, alive: Seq<bool>, me: Identity, add: bool) -> Seq<
    Identity,
> {
    after_operation(retain_live(registry_of(content), alive, me), me, add)
}

/// Whether an update with these answers of the probes changes the switch.
pub open spec fn next_toggle(content: Seq<u8>, alive: Seq<bool>, me: Identity, add: bool) -> bool {
    should_toggle(retain_live(registry_of(content), alive, me), me, add)
}

/// One update of the registry, from the content read out of the locked file
/// to the content to write back.
///
/// The registry is read from `content`, every identity other than `me` is
/// probed with `check_alive` and dropped if reported dead, and `me` is added
/// (`add`) or removed (`!add`). Returns the full new content of the file and
/// whether the shared switch has to change.
pub fn update_registry<F: Fn(Identity, bool) -> bool>(
    content: &[u8],
    me: Identity,
    add: bool,
    verbose: bool,
    check_alive: F,
) -> (res: (Vec<u8>, bool))
    requires
        forall|i: int|
            0 <= i < registry_of(content@).len() && registry_of(content@)[i] != me
                ==> call_requires(check_alive, (#[trigger] registry_of(content@)[i], verbose)),
    ensures
        exists|alive: Seq<bool>| #[trigger]
            probe_run(check_alive, registry_of(content@), me, verbose, alive) && res.0@
                == registry_text(next_registry(content@, alive, me, add)) && res.1 == next_toggle(
                content@,
                alive,
                me,
                add,
            ),
{
    let ids = parse_registry(content);
    let (updated, toggle) = update_entries(ids, me, add, verbose, check_alive);
    (format_registry(&updated), toggle)
}

/// One update of a registry of bare PIDs, probing each recorded PID with a
/// signal that has no effect.
///
/// What the probes answer depends on the processes that are running, so the
/// result is stated for whatever they answered: some answer per recorded
/// identity decides which of them stay.
pub fn update_lockfile(content: &[u8], current_pid: i32, add: bool, verbose: bool) -> (res: (
    Vec<u8>,
    bool,
))
    ensures
        exists|alive: Seq<bool>|
            #![trigger next_registry(content@, alive, Identity { pid: current_pid, start_time: None }, add)]
            {
                let me = Identity { pid: current_pid, start_time: None };
                &&& alive.len() == registry_of(content@).len()
                &&& res.0@ == registry_text(next_registry(content@, alive, me, add))
                &&& res.1 == next_toggle(content@, alive, me, add)
            },
{
    update_registry(content, Identity::bare(current_pid), add, verbose, check_pid_alive)
}

} // verus!
