//! Per-commitment allocation records: the audit trail of fund movements into
//! external yield pools.

use vstd::prelude::*;

verus! {

/// An immutable log entry: `amount` units moved to `target_pool` on behalf of
/// commitment `commitment_id` at `timestamp`.
#[derive(Clone, Copy, Debug, PartialEq, Eq, Structural)]
pub struct Allocation {
    pub commitment_id: u64,
    pub target_pool: u64,
    pub amount: i128,
    pub timestamp: u64,
}

/// A commitment's allocation sub-ledger: the running sum currently parked in
/// external pools, and the append-only ordered trail of allocations.
#[derive(Debug, PartialEq, Eq)]
pub struct AllocationTracking {
    pub total_allocated: i128,
    pub allocations: Vec<Allocation>,
}

/// Sum of the amounts of a sequence of allocation records.
pub open spec fn spec_alloc_sum(s: Seq<Allocation>) -> int
    decreases s.len(),
{
    if s.len() == 0 {
        0
    } else {
        spec_alloc_sum(s.drop_last()) + s.last().amount
    }
}

} // verus!
