//! Task logic for a small networked device that fetches a web page when its
//! button is pressed.
//!
//! The device runs a handful of cooperative tasks on one core. Each task is
//! written here as a state machine: the task is given the outcome of the
//! operation it was parked on and answers with the next operation to perform.
//! Whoever owns the hardware performs the operations; every decision is taken
//! here and carries a proved contract.

pub mod button;
pub mod config;
pub mod fetch;
pub mod heartbeat;
pub mod link;
pub mod signal;
pub mod trace;
