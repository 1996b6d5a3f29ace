//! Core of a time-bound, rule-constrained commitment system.
//!
//! A party locks an amount of a fungible asset under declared risk rules
//! (maximum tolerated loss, lifetime in days, early-exit penalty).  The core
//! tracks each commitment's value, detects rule violations, settles matured
//! commitments, handles owner-initiated early exits, and keeps a per-commitment
//! allocation ledger with authorization gating.
//!
//! The surrounding ledger host (clock, durable storage, transaction
//! authorization, asset transfers, event log) is kept outside this crate: every
//! operation takes the current time and the proven caller as plain arguments,
//! and asset movements are returned and recorded as [`transfer::Transfer`]
//! instructions for the host to carry out.  Principals, asset contracts and
//! pools are identified by plain integer ids chosen by the host.

pub mod allocation;
pub mod commitment;
pub mod errors;
pub mod laws;
pub mod registry;
pub mod rules;
pub mod store;
pub mod transfer;
pub mod violation;
