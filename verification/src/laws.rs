//! Laws of the commitment core: properties that hold of the components as a
//! whole, stated over the same spec functions the operations' contracts use.

use vstd::prelude::*;

use crate::allocation::{spec_alloc_sum, Allocation};
use crate::commitment::Commitment;
use crate::store::{entry_wf, CommitmentCore, CommitmentEntry};
use crate::violation::{spec_check_violations, spec_duration_violated, spec_loss_percent};

verus! {

/// Commitment ids never collide: in a well-formed store every two entries
/// carry distinct ids, so the id `create_commitment` assigns — one past the
/// newest — is fresh.
pub proof fn lemma_ids_unique(s: CommitmentCore, i: int, j: int)
    requires
        s.wf(),
        0 <= i < j < s.spec_count(),
    ensures
        s.commitments@[i].commitment.commitment_id != s.commitments@[j].commitment.commitment_id,
{
    assert(entry_wf(s.commitments@[i], s.allocation_logs@[i]@, i));
    assert(entry_wf(s.commitments@[j], s.allocation_logs@[j]@, j));
}

/// Appending an allocation record grows the recorded sum by exactly its
/// amount: `total_allocated` stays the sum of what the trail records, net of
/// deallocations, as each allocation is appended.
pub proof fn lemma_alloc_sum_push(s: Seq<Allocation>, a: Allocation)
    ensures
        spec_alloc_sum(s.push(a)) == spec_alloc_sum(s) + a.amount,
{
    assert(s.push(a).drop_last() =~= s);
    assert(s.push(a).last() == a);
}

/// Loss-threshold boundary: a loss percentage exactly at the tolerated
/// maximum does not violate; only a strictly greater one does.
pub proof fn lemma_loss_threshold_boundary(amount: int, current_value: int, max_loss_percent: int)
    ensures
        spec_loss_percent(amount, current_value) == max_loss_percent
            ==> !crate::violation::spec_loss_violated(amount, current_value, max_loss_percent),
        spec_loss_percent(amount, current_value) == max_loss_percent + 1
            ==> crate::violation::spec_loss_violated(amount, current_value, max_loss_percent),
{
}

/// Duration boundary: the expiry instant itself counts as expired, and the
/// instant before it does not.
pub proof fn lemma_duration_boundary(expires_at: u64)
    requires
        expires_at >= 1,
    ensures
        spec_duration_violated(expires_at, expires_at),
        !spec_duration_violated((expires_at - 1) as u64, expires_at),
{
}

/// A commitment with nothing locked has loss percentage zero — the loss
/// calculation never divides by zero — so while it is active only its
/// duration rule can report a violation.
pub proof fn lemma_zero_amount_duration_only(c: Commitment, now: u64)
    requires
        c.amount <= 0,
    ensures
        spec_loss_percent(c.amount as int, c.current_value as int) == 0,
        spec_check_violations(c, now) == (c.status == crate::commitment::CommitmentStatus::Active
            && spec_duration_violated(now, c.expires_at)),
{
}

/// Ledger balance: the free balance and the running allocation total of one
/// commitment always partition the amount deposited for it.
pub open spec fn spec_ledger_balanced(e: CommitmentEntry) -> bool {
    e.free_balance + e.total_allocated == e.commitment.amount
}

/// A successful allocation moves value from the free balance into
/// `total_allocated` — the shape `allocate` commits — and keeps the ledger
/// partition of the deposited amount, with the total never negative.
pub proof fn lemma_allocate_keeps_ledger_balanced(
    e: CommitmentEntry,
    e2: CommitmentEntry,
    amount: i128,
)
    requires
        spec_ledger_balanced(e),
        0 <= e.total_allocated,
        0 < amount <= e.free_balance,
        e2.commitment == e.commitment,
        e2.free_balance == e.free_balance - amount,
        e2.total_allocated == e.total_allocated + amount,
    ensures
        spec_ledger_balanced(e2),
        0 <= e2.total_allocated,
        0 <= e2.free_balance,
{
}

/// A successful deallocation of no more than what is currently allocated —
/// the shape `deallocate` commits when it does not have to clamp — returns
/// value from `total_allocated` to the free balance and keeps the ledger
/// partition of the deposited amount, with the total never negative.
pub proof fn lemma_deallocate_keeps_ledger_balanced(
    e: CommitmentEntry,
    e2: CommitmentEntry,
    amount: i128,
)
    requires
        spec_ledger_balanced(e),
        0 <= e.free_balance,
        0 < amount <= e.total_allocated,
        e2.commitment == e.commitment,
        e2.free_balance == e.free_balance + amount,
        e2.total_allocated == e.total_allocated - amount,
    ensures
        spec_ledger_balanced(e2),
        0 <= e2.total_allocated,
        0 <= e2.free_balance,
{
}

/// One step of a commitment's sub-ledger: moving an amount out to a pool or
/// back from one.  These are exactly the effects `allocate` commits, and
/// `deallocate` commits when it does not have to clamp.
pub enum LedgerStep {
    Allocate(int),
    Deallocate(int),
}

/// Whether one step succeeds against the given free balance and running
/// total: allocations are covered by the free balance, deallocations return
/// no more than is currently allocated.
pub open spec fn spec_step_valid(free: int, total: int, step: LedgerStep) -> bool {
    match step {
        LedgerStep::Allocate(a) => 0 < a <= free,
        LedgerStep::Deallocate(a) => 0 < a <= total,
    }
}

/// The free balance and running total after one step.
pub open spec fn spec_apply_step(free: int, total: int, step: LedgerStep) -> (int, int) {
    match step {
        LedgerStep::Allocate(a) => (free - a, total + a),
        LedgerStep::Deallocate(a) => (free + a, total - a),
    }
}

/// Whether every step of a run succeeds against the state the previous ones
/// left behind.
pub open spec fn spec_run_valid(free: int, total: int, steps: Seq<LedgerStep>) -> bool
    decreases steps.len(),
{
    steps.len() == 0 || {
        &&& spec_step_valid(free, total, steps[0])
        &&& spec_run_valid(
            spec_apply_step(free, total, steps[0]).0,
            spec_apply_step(free, total, steps[0]).1,
            steps.drop_first(),
        )
    }
}

/// The free balance and running total after a whole run of steps.
pub open spec fn spec_apply_run(free: int, total: int, steps: Seq<LedgerStep>) -> (int, int)
    decreases steps.len(),
{
    if steps.len() == 0 {
        (free, total)
    } else {
        spec_apply_run(
            spec_apply_step(free, total, steps[0]).0,
            spec_apply_step(free, total, steps[0]).1,
            steps.drop_first(),
        )
    }
}

/// Allocation balance law over whole histories: after any sequence of
/// successful allocations and deallocations, the running total carries
/// exactly the allocated-minus-deallocated sum — equivalently, the free
/// balance and the running total still partition the amount ever deposited —
/// and neither side ever goes negative.  A fresh commitment starts this run
/// at `(deposited, 0)`.
pub proof fn lemma_ledger_balanced_over_run(
    deposited: int,
    free: int,
    total: int,
    steps: Seq<LedgerStep>,
)
    requires
        free + total == deposited,
        0 <= free,
        0 <= total,
        spec_run_valid(free, total, steps),
    ensures
        spec_apply_run(free, total, steps).0 + spec_apply_run(free, total, steps).1 == deposited,
        0 <= spec_apply_run(free, total, steps).0,
        0 <= spec_apply_run(free, total, steps).1,
    decreases steps.len(),
{
    if steps.len() > 0 {
        let next = spec_apply_step(free, total, steps[0]);
        lemma_ledger_balanced_over_run(deposited, next.0, next.1, steps.drop_first());
    }
}

} // verus!
