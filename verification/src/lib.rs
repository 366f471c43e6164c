//! A persistent counter for a Soroban contract.
//!
//! The counter is one unsigned 64-bit number that the running contract keeps
//! in its persistent storage under a fixed symbol. The only operation adds an
//! amount to it and hands the new value back.
//!
//! `host` holds what is taken on trust of `soroban_sdk`, `counter` the
//! operation and its model, `laws` what follows for runs of calls.

pub mod counter;
pub mod host;
pub mod laws;

pub use crate::counter::CounterError;
pub use crate::counter::IncrementContractBy;
