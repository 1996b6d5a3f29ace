use commitment_core::errors::CommitmentError;
use commitment_core::store::CommitmentCore;

const ADMIN: u64 = 1;
const NFT_CONTRACT: u64 = 2;

#[test]
fn test_initialize() {
    let mut core = CommitmentCore::new();
    let r = core.initialize(ADMIN, NFT_CONTRACT);
    assert!(r.is_ok());
}

#[test]
fn test_initialize_twice() {
    let mut core = CommitmentCore::new();
    core.initialize(ADMIN, NFT_CONTRACT).unwrap();
    let r = core.initialize(ADMIN, NFT_CONTRACT);
    assert_eq!(r, Err(CommitmentError::AlreadyInitialized));
}

#[test]
fn test_add_authorized_allocator() {
    let mut core = CommitmentCore::new();
    core.initialize(ADMIN, NFT_CONTRACT).unwrap();

    let allocator: u64 = 10;
    core.add_authorized_allocator(ADMIN, allocator).unwrap();

    let is_authorized = core.is_authorized_allocator(allocator);
    assert!(is_authorized);
}

#[test]
fn test_remove_authorized_allocator() {
    let mut core = CommitmentCore::new();
    core.initialize(ADMIN, NFT_CONTRACT).unwrap();

    let allocator: u64 = 10;

    core.add_authorized_allocator(ADMIN, allocator).unwrap();
    assert!(core.is_authorized_allocator(allocator));

    core.remove_authorized_allocator(ADMIN, allocator).unwrap();
    assert!(!core.is_authorized_allocator(allocator));
}

#[test]
fn add_allocator_requires_admin() {
    let mut core = CommitmentCore::new();
    core.initialize(ADMIN, NFT_CONTRACT).unwrap();

    let intruder: u64 = 99;
    let r = core.add_authorized_allocator(intruder, 10);
    assert_eq!(r, Err(CommitmentError::Unauthorized));
    assert!(!core.is_authorized_allocator(10));

    let r2 = core.remove_authorized_allocator(intruder, 10);
    assert_eq!(r2, Err(CommitmentError::Unauthorized));
}

#[test]
fn allocator_flags_are_idempotent_and_independent() {
    let mut core = CommitmentCore::new();
    core.initialize(ADMIN, NFT_CONTRACT).unwrap();

    core.add_authorized_allocator(ADMIN, 10).unwrap();
    core.add_authorized_allocator(ADMIN, 10).unwrap();
    core.add_authorized_allocator(ADMIN, 11).unwrap();
    assert!(core.is_authorized_allocator(10));
    assert!(core.is_authorized_allocator(11));
    assert!(!core.is_authorized_allocator(12));

    core.remove_authorized_allocator(ADMIN, 10).unwrap();
    assert!(!core.is_authorized_allocator(10));
    assert!(core.is_authorized_allocator(11));
}
