//! The identity under which a process instance is recorded in the registry.

use crate::lock_logic::Holder;
use vstd::prelude::*;

verus! {

/// One running instance of the tool.
///
/// The PID alone names a process only until the operating system hands the
/// same PID to another one. With the start time of the process recorded
/// beside it, a recycled PID can be told from the process that registered.
/// An identity without a start time is a bare PID.
#[derive(Clone, Copy, Debug, PartialEq, Eq, Hash)]
pub struct Identity {
    pub pid: i32,
    pub start_time: Option<u64>,
}

impl Identity {
    /// The identity that records nothing but the PID.
    pub fn bare(pid: i32) -> (id: Identity)
        ensures
            id == (Identity { pid, start_time: None }),
    {
        Identity { pid, start_time: None }
    }

    /// The identity of the process `pid` that started at `start_time`.
    pub fn new(pid: i32, start_time: u64) -> (id: Identity)
        ensures
            id == (Identity { pid, start_time: Some(start_time) }),
    {
        Identity { pid, start_time: Some(start_time) }
    }
}

impl Holder for Identity {
    fn same(&self, other: &Identity) -> (eq: bool) {
        self.pid == other.pid && match (self.start_time, other.start_time) {
            (None, None) => true,
            (Some(a), Some(b)) => a == b,
            _ => false,
        }
    }
}

} // verus!
