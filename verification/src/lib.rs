//! Custodial value-escrow state machine: a creator locks a fungible asset in a
//! named vault that releases to a beneficiary once the creator fails to check
//! in within a configured period (a dead man's switch with a rolling deadline).
//!
//! This crate holds the verified core: the vault lifecycle, its time windows
//! (check-in period, notification window, grace period), the tiered fee rules
//! on cancellation, the per-creator vault-id allocation, and the invariants
//! that exclude double release, premature release and fund loss. The host that
//! moves balances, reads the clock and wires up accounts passes plain values
//! in and carries the returned amounts out.

pub mod config;
pub mod counter;
pub mod errors;
pub mod events;
pub mod identity;
pub mod laws;
pub mod legacy;
pub mod lifecycle;
pub mod vault;
