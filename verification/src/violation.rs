//! Violation engine: pure functions over a commitment and the current time
//! that detect loss-limit and duration violations.
//!
//! Numeric policy: the loss percentage is the truncating integer division
//! `(amount - current_value) * 100 / amount`; a loss violation triggers on
//! strict `>` of `max_loss_percent`, so a loss exactly at the threshold does
//! not violate.  A duration violation triggers on `now >= expires_at`: the
//! expiry instant itself counts as expired.  A non-positive `amount`
//! short-circuits the loss percentage to zero, so nothing ever divides by
//! zero and only duration can violate in that case.

use vstd::prelude::*;

use crate::commitment::{value_bounded, Commitment, CommitmentStatus, MAX_UNITS};

verus! {

/// The loss percentage of a position, as truncating integer division rounds
/// it: zero when `amount <= 0`, and of the sign of the loss otherwise.
pub open spec fn spec_loss_percent(amount: int, current_value: int) -> int {
    if amount <= 0 {
        0
    } else if current_value <= amount {
        (amount - current_value) * 100 / amount
    } else {
        -((current_value - amount) * 100 / amount)
    }
}

/// A loss violation: the loss percentage strictly exceeds the tolerated one.
pub open spec fn spec_loss_violated(amount: int, current_value: int, max_loss_percent: int) -> bool {
    spec_loss_percent(amount, current_value) > max_loss_percent
}

/// A duration violation: the commitment has reached its expiry instant.
pub open spec fn spec_duration_violated(now: u64, expires_at: u64) -> bool {
    now >= expires_at
}

/// Seconds until expiry, zero once expired.
pub open spec fn spec_time_remaining(now: u64, expires_at: u64) -> u64 {
    if now < expires_at {
        (expires_at - now) as u64
    } else {
        0
    }
}

/// What `check_violations` reports of a stored commitment: `false` for a
/// commitment already resolved, else whether either rule is breached.
pub open spec fn spec_check_violations(c: Commitment, now: u64) -> bool {
    &&& c.status == CommitmentStatus::Active
    &&& {
        ||| spec_loss_violated(c.amount as int, c.current_value as int, c.rules.max_loss_percent as int)
        ||| spec_duration_violated(now, c.expires_at)
    }
}

/// Truncating loss percentage of a position with `amount` originally locked
/// and `current_value` now marked.
pub fn loss_percent(amount: i128, current_value: i128) -> (r: i128)
    requires
        -MAX_UNITS <= amount <= MAX_UNITS,
        -MAX_UNITS <= current_value <= MAX_UNITS,
    ensures
        r == spec_loss_percent(amount as int, current_value as int),
{
    if amount <= 0 {
        0
    } else if current_value <= amount {
        let loss: i128 = amount - current_value;
        proof {
            assert(0 <= (loss as int * 100) / (amount as int) <= loss as int * 100) by (nonlinear_arith)
                requires
                    loss >= 0,
                    amount >= 1,
            ;
        }
        (loss * 100) / amount
    } else {
        let gain: i128 = current_value - amount;
        proof {
            assert(0 <= (gain as int * 100) / (amount as int) <= gain as int * 100) by (nonlinear_arith)
                requires
                    gain >= 0,
                    amount >= 1,
            ;
        }
        -((gain * 100) / amount)
    }
}

/// The full violation report of a commitment, evaluated regardless of its
/// status: whether any rule is breached, the two breach flags, the raw loss
/// percentage, and the time remaining until expiry.
pub fn violation_details(c: &Commitment, now: u64) -> (r: (bool, bool, bool, i128, u64))
    requires
        value_bounded(*c),
    ensures
        r.0 == (r.1 || r.2),
        r.1 == spec_loss_violated(c.amount as int, c.current_value as int, c.rules.max_loss_percent as int),
        r.2 == spec_duration_violated(now, c.expires_at),
        r.3 == spec_loss_percent(c.amount as int, c.current_value as int),
        r.4 == spec_time_remaining(now, c.expires_at),
{
    let lp: i128 = loss_percent(c.amount, c.current_value);
    let loss_violated: bool = lp > c.rules.max_loss_percent as i128;
    let duration_violated: bool = now >= c.expires_at;
    let time_remaining: u64 = if now < c.expires_at {
        c.expires_at - now
    } else {
        0
    };
    (loss_violated || duration_violated, loss_violated, duration_violated, lp, time_remaining)
}

/// Whether an active commitment currently breaches either rule; a commitment
/// already resolved reports no violation.
pub fn commitment_violations(c: &Commitment, now: u64) -> (r: bool)
    requires
        value_bounded(*c),
    ensures
        r == spec_check_violations(*c, now),
{
    if !matches!(c.status, CommitmentStatus::Active) {
        false
    } else {
        let (has, _, _, _, _) = violation_details(c, now);
        has
    }
}

} // verus!
