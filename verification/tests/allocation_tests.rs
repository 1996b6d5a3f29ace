use commitment_core::errors::CommitmentError;
use commitment_core::rules::{CommitmentKind, CommitmentRules};
use commitment_core::store::CommitmentCore;
use commitment_core::transfer::{Transfer, TransferParty};

const ADMIN: u64 = 1;
const NFT_CONTRACT: u64 = 2;
const OWNER: u64 = 3;
const ASSET: u64 = 4;
const ALLOCATOR: u64 = 10;
const POOL: u64 = 20;

fn test_rules() -> CommitmentRules {
    CommitmentRules {
        duration_days: 365,
        max_loss_percent: 20,
        commitment_type: CommitmentKind::Balanced,
        early_exit_penalty: 10,
        min_fee_threshold: 1000,
    }
}

fn setup_core() -> CommitmentCore {
    let mut core = CommitmentCore::new();
    core.initialize(ADMIN, NFT_CONTRACT).unwrap();
    core
}

#[test]
fn test_allocate_unauthorized_caller() {
    let mut core = setup_core();

    let unauthorized_allocator: u64 = 99;
    let commitment_id: u64 = 1;

    let r = core.allocate(unauthorized_allocator, commitment_id, POOL, 1000, 2000);
    assert_eq!(r, Err(CommitmentError::Unauthorized));
}

#[test]
fn test_allocate_inactive_commitment() {
    let mut core = setup_core();
    core.add_authorized_allocator(ADMIN, ALLOCATOR).unwrap();

    // Allocate against a commitment that was never created.
    let nonexistent_commitment: u64 = 7;
    let r = core.allocate(ALLOCATOR, nonexistent_commitment, POOL, 1000, 2000);
    assert_eq!(r, Err(CommitmentError::InactiveCommitment));
}

#[test]
fn test_allocate_insufficient_balance() {
    let mut core = setup_core();
    core.add_authorized_allocator(ADMIN, ALLOCATOR).unwrap();

    let id = core.create_commitment(OWNER, 1000, ASSET, test_rules(), 1000).unwrap();

    let r = core.allocate(ALLOCATOR, id, POOL, 999999999, 2000);
    assert_eq!(r, Err(CommitmentError::InsufficientBalance));

    // Nothing was recorded.
    let tracking = core.get_allocation_tracking(id);
    assert_eq!(tracking.total_allocated, 0);
    assert_eq!(tracking.allocations.len(), 0);
}

#[test]
fn test_allocate_invalid_amount() {
    let mut core = setup_core();
    core.add_authorized_allocator(ADMIN, ALLOCATOR).unwrap();

    let id = core.create_commitment(OWNER, 1000, ASSET, test_rules(), 1000).unwrap();

    let r = core.allocate(ALLOCATOR, id, POOL, 0, 2000);
    assert_eq!(r, Err(CommitmentError::InvalidAmount));
    let r2 = core.allocate(ALLOCATOR, id, POOL, -100, 2000);
    assert_eq!(r2, Err(CommitmentError::InvalidAmount));
}

#[test]
fn test_get_allocation_tracking() {
    let core = {
        let mut c = CommitmentCore::new();
        c.initialize(ADMIN, NFT_CONTRACT).unwrap();
        c
    };

    // Tracking for a commitment that does not exist: empty, never an error.
    let tracking = core.get_allocation_tracking(1);
    assert_eq!(tracking.total_allocated, 0);
    assert_eq!(tracking.allocations.len(), 0);
}

#[test]
fn test_deallocate() {
    let mut core = setup_core();
    core.add_authorized_allocator(ADMIN, ALLOCATOR).unwrap();

    let id = core.create_commitment(OWNER, 1000, ASSET, test_rules(), 1000).unwrap();
    core.allocate(ALLOCATOR, id, POOL, 400, 2000).unwrap();

    let t = core.deallocate(ALLOCATOR, id, POOL, 150).unwrap();
    assert_eq!(
        t,
        Transfer {
            asset: ASSET,
            from: TransferParty::Account(POOL),
            to: TransferParty::Custody,
            amount: 150,
        }
    );

    let tracking = core.get_allocation_tracking(id);
    assert_eq!(tracking.total_allocated, 250);
    // Deallocation does not append to the allocation trail.
    assert_eq!(tracking.allocations.len(), 1);
}

#[test]
fn test_deallocate_unauthorized() {
    let mut core = setup_core();

    let unauthorized_allocator: u64 = 99;
    let r = core.deallocate(unauthorized_allocator, 1, POOL, 1000);
    assert_eq!(r, Err(CommitmentError::Unauthorized));
}

#[test]
fn test_allocation_flow_integration() {
    let mut core = setup_core();

    // Setup authorized allocator
    core.add_authorized_allocator(ADMIN, ALLOCATOR).unwrap();

    // Create a commitment with assets
    let id = core.create_commitment(OWNER, 1000, ASSET, test_rules(), 1000).unwrap();
    let deposits = core.transfers.len();

    // Allocate to pool and verify balance updates and tracking
    let t = core.allocate(ALLOCATOR, id, POOL, 600, 2000).unwrap();
    assert_eq!(
        t,
        Transfer {
            asset: ASSET,
            from: TransferParty::Custody,
            to: TransferParty::Account(POOL),
            amount: 600,
        }
    );

    let tracking = core.get_allocation_tracking(id);
    assert_eq!(tracking.total_allocated, 600);
    assert_eq!(tracking.allocations.len(), 1);
    assert_eq!(tracking.allocations[0].commitment_id, id);
    assert_eq!(tracking.allocations[0].target_pool, POOL);
    assert_eq!(tracking.allocations[0].amount, 600);
    assert_eq!(tracking.allocations[0].timestamp, 2000);

    // The movement was instructed exactly once.
    assert_eq!(core.transfers.len(), deposits + 1);

    // A second allocation beyond the free balance fails and changes nothing.
    let r = core.allocate(ALLOCATOR, id, POOL, 500, 2100);
    assert_eq!(r, Err(CommitmentError::InsufficientBalance));
    assert_eq!(core.get_allocation_tracking(id).total_allocated, 600);
    assert_eq!(core.transfers.len(), deposits + 1);

    // Deallocate everything; the ledger returns to rest.
    core.deallocate(ALLOCATOR, id, POOL, 600).unwrap();
    let settled = core.get_allocation_tracking(id);
    assert_eq!(settled.total_allocated, 0);
    assert_eq!(settled.allocations.len(), 1);
}

#[test]
fn deallocate_clamps_total_at_zero() {
    let mut core = setup_core();
    core.add_authorized_allocator(ADMIN, ALLOCATOR).unwrap();

    let id = core.create_commitment(OWNER, 1000, ASSET, test_rules(), 1000).unwrap();
    core.allocate(ALLOCATOR, id, POOL, 100, 2000).unwrap();

    // Returning more than was allocated floors the running total at zero.
    core.deallocate(ALLOCATOR, id, POOL, 150).unwrap();
    let tracking = core.get_allocation_tracking(id);
    assert_eq!(tracking.total_allocated, 0);
}

#[test]
fn deallocate_invalid_amount() {
    let mut core = setup_core();
    core.add_authorized_allocator(ADMIN, ALLOCATOR).unwrap();

    let id = core.create_commitment(OWNER, 1000, ASSET, test_rules(), 1000).unwrap();
    let r = core.deallocate(ALLOCATOR, id, POOL, 0);
    assert_eq!(r, Err(CommitmentError::InvalidAmount));
    let r2 = core.deallocate(ALLOCATOR, id, POOL, -5);
    assert_eq!(r2, Err(CommitmentError::InvalidAmount));
}

#[test]
fn ledger_partitions_deposit_across_a_run() {
    let mut core = setup_core();
    core.add_authorized_allocator(ADMIN, ALLOCATOR).unwrap();
    let id = core.create_commitment(OWNER, 1000, ASSET, test_rules(), 1000).unwrap();

    let entry = |core: &CommitmentCore| core.commitments[(id - 1) as usize];
    let check_partition = |core: &CommitmentCore| {
        let e = entry(core);
        assert!(e.free_balance >= 0);
        assert!(e.total_allocated >= 0);
        assert_eq!(e.free_balance + e.total_allocated, 1000);
    };

    check_partition(&core);
    core.allocate(ALLOCATOR, id, POOL, 300, 2000).unwrap();
    check_partition(&core);
    core.allocate(ALLOCATOR, id, POOL, 450, 2100).unwrap();
    check_partition(&core);
    core.deallocate(ALLOCATOR, id, POOL, 200).unwrap();
    check_partition(&core);
    core.allocate(ALLOCATOR, id, POOL, 400, 2200).unwrap();
    check_partition(&core);
    core.deallocate(ALLOCATOR, id, POOL, 550).unwrap();
    check_partition(&core);
    core.deallocate(ALLOCATOR, id, POOL, 400).unwrap();
    check_partition(&core);

    // Every allocation was recorded, in order, and the total matches the
    // allocated-minus-deallocated sum: 300 + 450 + 400 - 200 - 550 - 400.
    let e = entry(&core);
    assert_eq!(e.total_allocated, 0);
    assert_eq!(e.free_balance, 1000);
    let tracking = core.get_allocation_tracking(id);
    assert_eq!(tracking.allocations.len(), 3);
    assert_eq!(tracking.allocations[0].amount, 300);
    assert_eq!(tracking.allocations[1].amount, 450);
    assert_eq!(tracking.allocations[2].amount, 400);
}

#[test]
fn allocate_on_terminal_commitment_fails() {
    let mut core = setup_core();
    core.add_authorized_allocator(ADMIN, ALLOCATOR).unwrap();

    let id = core.create_commitment(OWNER, 1000, ASSET, test_rules(), 1000).unwrap();
    core.early_exit(id, OWNER).unwrap();

    let r = core.allocate(ALLOCATOR, id, POOL, 100, 2000);
    assert_eq!(r, Err(CommitmentError::InactiveCommitment));

    // Deallocation back into a resolved commitment is still accepted.
    assert!(core.deallocate(ALLOCATOR, id, POOL, 100).is_ok());
}
