//! Error taxonomy of the commitment core.
//!
//! Every operation aborts as a whole on the first failed check and reports it
//! as one of these typed values; no partial state is ever committed.

use vstd::prelude::*;

verus! {

/// The distinguishable failure kinds of the core operations.
#[derive(Clone, Copy, Debug, PartialEq, Eq, Structural)]
pub enum CommitmentError {
    /// Registry initialization was invoked more than once.
    AlreadyInitialized,
    /// The caller has not proven control of the required principal, or is not
    /// on the allocator allow-list, or is not the commitment's owner.
    Unauthorized,
    /// The operation references a commitment id with no stored record.
    NotFound,
    /// The operation requires an `Active` commitment but its status is not.
    InactiveCommitment,
    /// A supplied amount is out of range where a positive amount is required.
    InvalidAmount,
    /// Commitment rule parameters failed validation (zero duration or an
    /// out-of-range percentage).
    InvalidRules,
    /// An allocation was requested beyond the commitment's free balance.
    InsufficientBalance,
    /// Settlement was attempted before the commitment expired.
    NotExpired,
    /// The commitment is already terminal, so it cannot be settled again.
    AlreadySettled,
    /// The external asset movement failed; reported by the host around the
    /// core, which never commits state ahead of a confirmed transfer.
    TransferFailed,
}

} // verus!
