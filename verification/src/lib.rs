//! Cross-process reference counting for a system-wide "sleep disabled" switch.
//!
//! Several independent processes share one registry of holders. The first
//! holder to arrive turns the switch on, the last one to leave turns it off,
//! and entries left behind by crashed processes are reclaimed by whoever
//! updates the registry next.
//!
//! The library computes and decides; it opens no file and changes no system
//! setting. [`lock_logic`] holds the toggle algorithm and the liveness
//! filter, [`registry`] the text format of the lock file, [`store`] one whole
//! update of that file from the bytes read to the bytes to write, and
//! [`process_lock`] the guard of one process as a state machine. The modules
//! whose names end in `_proofs` state what holds of them for all inputs.
//! Around this core stand the pieces of the command-line front end:
//! [`duration_parser`] and [`timeout`] read the timeout option,
//! [`power_management`] plans the requests to the system's power management,
//! and [`sleepdetect`] recognises a sleep from the time that went by.

pub mod decimal;
pub mod duration_parser;
pub mod identity;
pub mod liveness;
pub mod lock_logic;
pub mod lock_proofs;
pub mod power_management;
pub mod process_lock;
pub mod process_lock_proofs;
pub mod registry;
pub mod registry_proofs;
pub mod sleepdetect;
pub mod store;
pub mod store_proofs;
pub mod timeout;
