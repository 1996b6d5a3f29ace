//! The central entity: a single locked-fund position and its lifecycle status.

use vstd::prelude::*;

use crate::rules::CommitmentRules;

verus! {

/// Upper bound on every amount and value the core accounts for.
///
/// Keeping all magnitudes at or below `10^35` leaves the widened percentage
/// products such as `(amount - current_value) * 100` far inside the `i128`
/// range, so the loss and penalty arithmetic can be proven free of overflow.
pub const MAX_UNITS: i128 = 100_000_000_000_000_000_000_000_000_000_000_000;

/// Seconds in a day; commitment lifetimes are given in days.
pub const SECONDS_PER_DAY: u64 = 86400;

/// Lifecycle states.  `Active` is initial; the other three are terminal: no
/// operation transitions out of them.
#[derive(Clone, Copy, Debug, PartialEq, Eq, Structural)]
pub enum CommitmentStatus {
    Active,
    Settled,
    Violated,
    EarlyExit,
}

/// True of the three states no transition leaves.
pub open spec fn is_terminal(status: CommitmentStatus) -> bool {
    status != CommitmentStatus::Active
}

/// A locked-fund position governed by a [`CommitmentRules`] value.
///
/// Principals, assets and pools are plain integer ids chosen by the host
/// around the core.
#[derive(Clone, Copy, Debug, PartialEq, Eq, Structural)]
pub struct Commitment {
    /// Unique identifier, assigned by the store from a monotonic counter
    /// starting at 1; never reused.
    pub commitment_id: u64,
    /// Principal that created the commitment and receives settlement or
    /// early-exit proceeds.
    pub owner: u64,
    /// Identifier of an externally minted ownership token; zero when no token
    /// service is wired in.
    pub nft_token_id: u32,
    /// Risk rules, fixed at creation.
    pub rules: CommitmentRules,
    /// Original locked principal, fixed at creation; positive.
    pub amount: i128,
    /// Identifier of the locked fungible asset, fixed at creation.
    pub asset_address: u64,
    /// Creation timestamp.
    pub created_at: u64,
    /// Expiry timestamp: `created_at + duration_days * 86400`.
    pub expires_at: u64,
    /// Mark-to-value of the position; starts equal to `amount` and changes
    /// only through value updates and lifecycle transitions.
    pub current_value: i128,
    /// Lifecycle state.
    pub status: CommitmentStatus,
}

/// The magnitude bound under which the violation and penalty arithmetic is
/// free of overflow.
pub open spec fn value_bounded(c: Commitment) -> bool {
    &&& -MAX_UNITS <= c.amount <= MAX_UNITS
    &&& -MAX_UNITS <= c.current_value <= MAX_UNITS
}

} // verus!
