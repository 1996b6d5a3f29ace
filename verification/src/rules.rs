//! Commitment rules: the immutable risk parameters attached to a commitment.

use vstd::prelude::*;

verus! {

/// Closed set of risk-profile tags; informational only at this layer.
#[derive(Clone, Copy, Debug, PartialEq, Eq, Structural)]
pub enum CommitmentKind {
    Safe,
    Balanced,
    Aggressive,
}

/// Risk rules fixed at commitment creation.
#[derive(Clone, Copy, Debug, PartialEq, Eq, Structural)]
pub struct CommitmentRules {
    /// Commitment lifetime in days; must be positive.
    pub duration_days: u32,
    /// Maximum tolerated value drop, in percent; must lie in `[0, 100]`.
    pub max_loss_percent: u32,
    /// Risk-profile tag.
    pub commitment_type: CommitmentKind,
    /// Percentage of current value forfeited on early exit; in `[0, 100]`.
    pub early_exit_penalty: u32,
    /// Minimum absolute fee unit, reserved for future fee logic; the core
    /// operations do not enforce it.
    pub min_fee_threshold: i128,
}

/// What creation-time validation accepts: a positive lifetime and percentages
/// that are really percentages.
pub open spec fn rules_valid(rules: CommitmentRules) -> bool {
    &&& rules.duration_days > 0
    &&& rules.max_loss_percent <= 100
    &&& rules.early_exit_penalty <= 100
}

} // verus!
