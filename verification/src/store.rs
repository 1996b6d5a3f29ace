//! The commitment core: store, lifecycle state machine and allocation ledger.
//!
//! A [`CommitmentCore`] value holds the whole durable state of the system: the
//! registry, one entry per commitment (record, free balance and running
//! allocation total), each commitment's allocation trail, and the log of asset
//! movements the core has instructed.  Every operation runs to completion on
//! this value as one atomic unit: it either returns `Ok` having applied its
//! whole effect, or returns a typed error having changed nothing.
//!
//! Commitment ids are assigned from a monotonic counter starting at 1, so the
//! entry of commitment `id` sits at index `id - 1` and ids are never reused.

use vstd::prelude::*;

use crate::allocation::{spec_alloc_sum, Allocation, AllocationTracking};
use crate::commitment::{
    is_terminal, Commitment, CommitmentStatus, MAX_UNITS, SECONDS_PER_DAY,
};
use crate::errors::CommitmentError;
use crate::registry::Registry;
use crate::rules::{rules_valid, CommitmentRules};
use crate::transfer::{Transfer, TransferParty};
use crate::violation::{
    spec_check_violations, spec_duration_violated, spec_loss_percent, spec_loss_violated,
    spec_time_remaining,
};
use crate::violation;

verus! {

/// The record `create_commitment` stores for a fresh commitment: active, its
/// value equal to the locked amount, expiring `duration_days` days after
/// `now`, with no ownership token wired in.
pub open spec fn spec_new_commitment(
    id: u64,
    owner: u64,
    amount: i128,
    asset_address: u64,
    rules: CommitmentRules,
    now: u64,
) -> Commitment {
    Commitment {
        commitment_id: id,
        owner,
        nft_token_id: 0,
        rules,
        amount,
        asset_address,
        created_at: now,
        expires_at: (now + rules.duration_days * SECONDS_PER_DAY) as u64,
        current_value: amount,
        status: CommitmentStatus::Active,
    }
}

/// What creation accepts: a positive in-range amount and valid rules.
pub open spec fn spec_creation_valid(amount: i128, rules: CommitmentRules) -> bool {
    0 < amount <= MAX_UNITS && rules_valid(rules)
}

/// The record after a value update: the new mark-to-value, and `Violated` as
/// the status exactly when the updated loss strictly exceeds the tolerated
/// one; a loss exactly at the threshold leaves the commitment active.
pub open spec fn spec_valued_commitment(c: Commitment, new_value: i128) -> Commitment {
    Commitment {
        current_value: new_value,
        status: if spec_loss_violated(
            c.amount as int,
            new_value as int,
            c.rules.max_loss_percent as int,
        ) {
            CommitmentStatus::Violated
        } else {
            CommitmentStatus::Active
        },
        ..c
    }
}

/// The early-exit penalty: the truncated percentage of the current value.
pub open spec fn spec_penalty(value: int, penalty_percent: int) -> int {
    value * penalty_percent / 100
}

/// A commitment's stored entry: the record itself, the part of its locked
/// funds not currently parked in external pools, and the running sum that is.
#[derive(Clone, Copy, Debug, PartialEq, Eq, Structural)]
pub struct CommitmentEntry {
    pub commitment: Commitment,
    pub free_balance: i128,
    pub total_allocated: i128,
}

/// The whole durable state of the commitment system.
pub struct CommitmentCore {
    /// Admin principal and allocator allow-list.
    pub registry: Registry,
    /// One entry per commitment; commitment `id` lives at index `id - 1`.
    pub commitments: Vec<CommitmentEntry>,
    /// Allocation audit trails, parallel to `commitments`.
    pub allocation_logs: Vec<Vec<Allocation>>,
    /// Every asset movement the core has instructed, in order.
    pub transfers: Vec<Transfer>,
}

/// Well-formedness of one commitment entry and its allocation trail, at
/// index `i` of the store.
pub open spec fn entry_wf(e: CommitmentEntry, log: Seq<Allocation>, i: int) -> bool {
    &&& e.commitment.commitment_id == i + 1
    &&& rules_valid(e.commitment.rules)
    &&& 0 < e.commitment.amount <= MAX_UNITS
    &&& 0 <= e.commitment.current_value <= MAX_UNITS
    &&& e.commitment.expires_at == e.commitment.created_at + e.commitment.rules.duration_days
        * SECONDS_PER_DAY
    &&& 0 <= e.free_balance
    &&& 0 <= e.total_allocated
    &&& e.free_balance + e.total_allocated <= MAX_UNITS
    &&& e.total_allocated <= spec_alloc_sum(log)
    &&& forall|j: int|
        0 <= j < log.len() ==> (#[trigger] log[j]).commitment_id == i + 1 && 0 < log[j].amount
            <= MAX_UNITS
}

impl CommitmentCore {
    /// Number of commitments ever created.
    pub open spec fn spec_count(self) -> int {
        self.commitments@.len() as int
    }

    /// Whether a record is stored under `id`.
    pub open spec fn spec_has_commitment(self, id: u64) -> bool {
        1 <= id <= self.spec_count()
    }

    /// The stored entry of commitment `id`.
    pub open spec fn spec_entry(self, id: u64) -> CommitmentEntry {
        self.commitments@[id - 1]
    }

    /// The stored record of commitment `id`.
    pub open spec fn spec_commitment(self, id: u64) -> Commitment {
        self.spec_entry(id).commitment
    }

    /// The allocation trail of commitment `id`.
    pub open spec fn spec_allocations(self, id: u64) -> Seq<Allocation> {
        self.allocation_logs@[id - 1]@
    }

    /// Invariant of the whole store, established by [`CommitmentCore::new`]
    /// and preserved by every operation.
    pub open spec fn wf(self) -> bool {
        &&& self.registry.wf()
        &&& self.allocation_logs@.len() == self.commitments@.len()
        &&& self.commitments@.len() < u64::MAX
        &&& forall|i: int|
            0 <= i < self.commitments@.len() ==> entry_wf(
                #[trigger] self.commitments@[i],
                self.allocation_logs@[i]@,
                i,
            )
    }

    /// An empty, uninitialized core: no admin, no allocators, no commitments,
    /// no instructed transfers.
    pub fn new() -> (r: CommitmentCore)
        ensures
            r.wf(),
            !r.registry.is_initialized(),
            r.registry.nft_service == 0,
            forall|x: u64| !r.registry.spec_is_allocator(x),
            r.spec_count() == 0,
            r.transfers@.len() == 0,
    {
        CommitmentCore {
            registry: Registry::new(),
            commitments: Vec::new(),
            allocation_logs: Vec::new(),
            transfers: Vec::new(),
        }
    }

    /// One-time setup: records the admin principal and the token-service
    /// reference.  Fails with `AlreadyInitialized`, changing nothing, if setup
    /// has already happened.
    pub fn initialize(&mut self, admin: u64, nft_contract: u64) -> (r: Result<
        (),
        CommitmentError,
    >)
        requires
            old(self).wf(),
        ensures
            final(self).wf(),
            old(self).registry.is_initialized() ==> r == Err::<(), CommitmentError>(
                CommitmentError::AlreadyInitialized,
            ) && *final(self) == *old(self),
            !old(self).registry.is_initialized() ==> {
                &&& r == Ok::<(), CommitmentError>(())
                &&& final(self).registry.admin == Some(admin)
                &&& final(self).registry.nft_service == nft_contract
                &&& final(self).registry.allocators == old(self).registry.allocators
                &&& final(self).commitments == old(self).commitments
                &&& final(self).allocation_logs == old(self).allocation_logs
                &&& final(self).transfers == old(self).transfers
            },
    {
        if self.registry.admin.is_some() {
            return Err(CommitmentError::AlreadyInitialized);
        }
        self.registry.admin = Some(admin);
        self.registry.nft_service = nft_contract;
        Ok(())
    }

    /// Puts `allocator` on the allow-list.  Only the admin may do so: fails
    /// with `Unauthorized`, changing nothing, unless `caller` is the recorded
    /// admin principal.
    pub fn add_authorized_allocator(&mut self, caller: u64, allocator: u64) -> (r: Result<
        (),
        CommitmentError,
    >)
        requires
            old(self).wf(),
        ensures
            final(self).wf(),
            old(self).registry.admin != Some(caller) ==> r == Err::<(), CommitmentError>(
                CommitmentError::Unauthorized,
            ) && *final(self) == *old(self),
            old(self).registry.admin == Some(caller) ==> {
                &&& r == Ok::<(), CommitmentError>(())
                &&& forall|x: u64|
                    final(self).registry.spec_is_allocator(x) == (x == allocator || old(
                        self,
                    ).registry.spec_is_allocator(x))
                &&& final(self).registry.admin == old(self).registry.admin
                &&& final(self).registry.nft_service == old(self).registry.nft_service
                &&& final(self).commitments == old(self).commitments
                &&& final(self).allocation_logs == old(self).allocation_logs
                &&& final(self).transfers == old(self).transfers
            },
    {
        let admin_ok: bool = match self.registry.admin {
            Some(a) => a == caller,
            None => false,
        };
        if admin_ok {
            self.registry.set_authorized_allocator(allocator, true);
            Ok(())
        } else {
            Err(CommitmentError::Unauthorized)
        }
    }

    /// Takes `allocator` off the allow-list; admin-gated like
    /// [`CommitmentCore::add_authorized_allocator`], and a no-op success when
    /// the principal was not authorized anyway.
    pub fn remove_authorized_allocator(&mut self, caller: u64, allocator: u64) -> (r: Result<
        (),
        CommitmentError,
    >)
        requires
            old(self).wf(),
        ensures
            final(self).wf(),
            old(self).registry.admin != Some(caller) ==> r == Err::<(), CommitmentError>(
                CommitmentError::Unauthorized,
            ) && *final(self) == *old(self),
            old(self).registry.admin == Some(caller) ==> {
                &&& r == Ok::<(), CommitmentError>(())
                &&& forall|x: u64|
                    final(self).registry.spec_is_allocator(x) == (x != allocator && old(
                        self,
                    ).registry.spec_is_allocator(x))
                &&& final(self).registry.admin == old(self).registry.admin
                &&& final(self).registry.nft_service == old(self).registry.nft_service
                &&& final(self).commitments == old(self).commitments
                &&& final(self).allocation_logs == old(self).allocation_logs
                &&& final(self).transfers == old(self).transfers
            },
    {
        let admin_ok: bool = match self.registry.admin {
            Some(a) => a == caller,
            None => false,
        };
        if admin_ok {
            self.registry.set_authorized_allocator(allocator, false);
            Ok(())
        } else {
            Err(CommitmentError::Unauthorized)
        }
    }

    /// Pure read of the allow-list; unknown principals are unauthorized.
    pub fn is_authorized_allocator(&self, allocator: u64) -> (r: bool)
        requires
            self.wf(),
        ensures
            r == self.registry.spec_is_allocator(allocator),
    {
        self.registry.is_authorized_allocator(allocator)
    }

    /// Creates a commitment: validates the amount and the rules, instructs
    /// the transfer of `amount` of `asset_address` from `owner` into custody,
    /// and stores a fresh active record whose value starts at `amount` and
    /// whose free balance is the whole locked amount.  Returns the fresh id,
    /// one past the previous newest; ids are never reused.
    ///
    /// Fails with `InvalidAmount` on a non-positive or out-of-range amount
    /// and with `InvalidRules` on a zero lifetime or an out-of-range
    /// percentage, in that order, changing nothing.
    pub fn create_commitment(
        &mut self,
        owner: u64,
        amount: i128,
        asset_address: u64,
        rules: CommitmentRules,
        now: u64,
    ) -> (r: Result<u64, CommitmentError>)
        requires
            old(self).wf(),
            old(self).spec_count() + 1 < u64::MAX,
            now + rules.duration_days * SECONDS_PER_DAY <= u64::MAX,
        ensures
            final(self).wf(),
            !(0 < amount <= MAX_UNITS) ==> r == Err::<u64, CommitmentError>(
                CommitmentError::InvalidAmount,
            ) && *final(self) == *old(self),
            0 < amount <= MAX_UNITS && !rules_valid(rules) ==> r == Err::<u64, CommitmentError>(
                CommitmentError::InvalidRules,
            ) && *final(self) == *old(self),
            spec_creation_valid(amount, rules) ==> {
                &&& r == Ok::<u64, CommitmentError>((old(self).spec_count() + 1) as u64)
                &&& final(self).commitments@ == old(self).commitments@.push(
                    (CommitmentEntry {
                        commitment: spec_new_commitment(
                            (old(self).spec_count() + 1) as u64,
                            owner,
                            amount,
                            asset_address,
                            rules,
                            now,
                        ),
                        free_balance: amount,
                        total_allocated: 0,
                    }),
                )
                &&& final(self).allocation_logs@.len() == old(self).allocation_logs@.len() + 1
                &&& forall|i: int|
                    0 <= i < old(self).allocation_logs@.len()
                        ==> final(self).allocation_logs@[i] == old(self).allocation_logs@[i]
                &&& final(self).allocation_logs@.last()@.len() == 0
                &&& final(self).transfers@ == old(self).transfers@.push(
                    (Transfer {
                        asset: asset_address,
                        from: TransferParty::Account(owner),
                        to: TransferParty::Custody,
                        amount,
                    }),
                )
                &&& final(self).registry == old(self).registry
            },
    {
        if amount <= 0 || amount > MAX_UNITS {
            return Err(CommitmentError::InvalidAmount);
        }
        if rules.duration_days == 0 || rules.max_loss_percent > 100 || rules.early_exit_penalty
            > 100 {
            return Err(CommitmentError::InvalidRules);
        }
        let id: u64 = self.commitments.len() as u64 + 1;
        let created_at: u64 = now;
        let expires_at: u64 = now + (rules.duration_days as u64) * SECONDS_PER_DAY;
        let commitment = Commitment {
            commitment_id: id,
            owner,
            nft_token_id: 0,
            rules,
            amount,
            asset_address,
            created_at,
            expires_at,
            current_value: amount,
            status: CommitmentStatus::Active,
        };
        self.commitments.push(
            CommitmentEntry { commitment, free_balance: amount, total_allocated: 0 },
        );
        self.allocation_logs.push(Vec::new());
        self.transfers.push(
            Transfer {
                asset: asset_address,
                from: TransferParty::Account(owner),
                to: TransferParty::Custody,
                amount,
            },
        );
        proof {
            assert forall|i: int|
                0 <= i < self.commitments@.len() implies entry_wf(
                #[trigger] self.commitments@[i],
                self.allocation_logs@[i]@,
                i,
            ) by {
                if i < old(self).commitments@.len() {
                    assert(entry_wf(old(self).commitments@[i], old(self).allocation_logs@[i]@, i));
                }
            }
        }
        Ok(id)
    }

    /// Whether commitment `commitment_id` currently breaches either of its
    /// rules: `false` for an already resolved commitment, else whether the
    /// loss limit is exceeded or the lifetime has run out.  A pure read: the
    /// status is not touched.  Fails with `NotFound` for an unknown id.
    pub fn check_violations(&self, commitment_id: u64, now: u64) -> (r: Result<
        bool,
        CommitmentError,
    >)
        requires
            self.wf(),
        ensures
            self.spec_has_commitment(commitment_id) ==> r == Ok::<bool, CommitmentError>(
                spec_check_violations(self.spec_commitment(commitment_id), now),
            ),
            !self.spec_has_commitment(commitment_id) ==> r == Err::<bool, CommitmentError>(
                CommitmentError::NotFound,
            ),
    {
        if commitment_id >= 1 && commitment_id <= self.commitments.len() as u64 {
            let idx: usize = (commitment_id - 1) as usize;
            let c: Commitment = self.commitments[idx].commitment;
            Ok(violation::commitment_violations(&c, now))
        } else {
            Err(CommitmentError::NotFound)
        }
    }

    /// The full violation report of commitment `commitment_id`, evaluated
    /// whatever its status: whether any rule is breached, the loss and
    /// duration breach flags, the raw loss percentage, and the seconds left
    /// until expiry (zero once expired).  Fails with `NotFound` for an
    /// unknown id.
    pub fn get_violation_details(&self, commitment_id: u64, now: u64) -> (r: Result<
        (bool, bool, bool, i128, u64),
        CommitmentError,
    >)
        requires
            self.wf(),
        ensures
            self.spec_has_commitment(commitment_id) ==> {
                &&& r is Ok
                &&& r->Ok_0.0 == (r->Ok_0.1 || r->Ok_0.2)
                &&& r->Ok_0.1 == spec_loss_violated(
                    self.spec_commitment(commitment_id).amount as int,
                    self.spec_commitment(commitment_id).current_value as int,
                    self.spec_commitment(commitment_id).rules.max_loss_percent as int,
                )
                &&& r->Ok_0.2 == spec_duration_violated(
                    now,
                    self.spec_commitment(commitment_id).expires_at,
                )
                &&& r->Ok_0.3 == spec_loss_percent(
                    self.spec_commitment(commitment_id).amount as int,
                    self.spec_commitment(commitment_id).current_value as int,
                )
                &&& r->Ok_0.4 == spec_time_remaining(
                    now,
                    self.spec_commitment(commitment_id).expires_at,
                )
            },
            !self.spec_has_commitment(commitment_id) ==> r == Err::<
                (bool, bool, bool, i128, u64),
                CommitmentError,
            >(CommitmentError::NotFound),
    {
        if commitment_id >= 1 && commitment_id <= self.commitments.len() as u64 {
            let idx: usize = (commitment_id - 1) as usize;
            let c: Commitment = self.commitments[idx].commitment;
            Ok(violation::violation_details(&c, now))
        } else {
            Err(CommitmentError::NotFound)
        }
    }

    /// Records a new mark-to-value supplied by the external valuation
    /// pathway; admin-gated.  If the updated loss strictly exceeds the
    /// tolerated percentage the commitment transitions to `Violated`
    /// (terminal); a loss exactly at the threshold does not violate.  This
    /// operation never transitions on duration.
    ///
    /// Fails with `Unauthorized` unless `caller` is the admin, `NotFound` for
    /// an unknown id, `InactiveCommitment` once the commitment is terminal,
    /// and `InvalidAmount` for a value outside `[0, MAX_UNITS]`, in that
    /// order, changing nothing.
    pub fn update_value(&mut self, caller: u64, commitment_id: u64, new_value: i128) -> (r: Result<
        (),
        CommitmentError,
    >)
        requires
            old(self).wf(),
        ensures
            final(self).wf(),
            old(self).registry.admin != Some(caller) ==> r == Err::<(), CommitmentError>(
                CommitmentError::Unauthorized,
            ) && *final(self) == *old(self),
            old(self).registry.admin == Some(caller) && !old(self).spec_has_commitment(
                commitment_id,
            ) ==> r == Err::<(), CommitmentError>(CommitmentError::NotFound) && *final(self)
                == *old(self),
            old(self).registry.admin == Some(caller) && old(self).spec_has_commitment(commitment_id)
                && is_terminal(old(self).spec_commitment(commitment_id).status) ==> r == Err::<
                (),
                CommitmentError,
            >(CommitmentError::InactiveCommitment) && *final(self) == *old(self),
            old(self).registry.admin == Some(caller) && old(self).spec_has_commitment(commitment_id)
                && !is_terminal(old(self).spec_commitment(commitment_id).status) && !(0 <= new_value
                <= MAX_UNITS) ==> r == Err::<(), CommitmentError>(CommitmentError::InvalidAmount)
                && *final(self) == *old(self),
            old(self).registry.admin == Some(caller) && old(self).spec_has_commitment(commitment_id)
                && !is_terminal(old(self).spec_commitment(commitment_id).status) && 0 <= new_value
                <= MAX_UNITS ==> {
                &&& r == Ok::<(), CommitmentError>(())
                &&& final(self).commitments@ == old(self).commitments@.update(
                    commitment_id - 1,
                    (CommitmentEntry {
                        commitment: spec_valued_commitment(
                            old(self).spec_commitment(commitment_id),
                            new_value,
                        ),
                        ..old(self).spec_entry(commitment_id)
                    }),
                )
                &&& final(self).allocation_logs == old(self).allocation_logs
                &&& final(self).transfers == old(self).transfers
                &&& final(self).registry == old(self).registry
            },
    {
        let admin_ok: bool = match self.registry.admin {
            Some(a) => a == caller,
            None => false,
        };
        if !admin_ok {
            return Err(CommitmentError::Unauthorized);
        }
        if !(commitment_id >= 1 && commitment_id <= self.commitments.len() as u64) {
            return Err(CommitmentError::NotFound);
        }
        let idx: usize = (commitment_id - 1) as usize;
        let e: CommitmentEntry = self.commitments[idx];
        if !matches!(e.commitment.status, CommitmentStatus::Active) {
            return Err(CommitmentError::InactiveCommitment);
        }
        if new_value < 0 || new_value > MAX_UNITS {
            return Err(CommitmentError::InvalidAmount);
        }
        let lp: i128 = violation::loss_percent(e.commitment.amount, new_value);
        let status: CommitmentStatus = if lp > e.commitment.rules.max_loss_percent as i128 {
            CommitmentStatus::Violated
        } else {
            CommitmentStatus::Active
        };
        let updated = Commitment { current_value: new_value, status, ..e.commitment };
        self.commitments.set(idx, CommitmentEntry { commitment: updated, ..e });
        proof {
            assert forall|i: int|
                0 <= i < self.commitments@.len() implies entry_wf(
                #[trigger] self.commitments@[i],
                self.allocation_logs@[i]@,
                i,
            ) by {
                assert(entry_wf(old(self).commitments@[i], old(self).allocation_logs@[i]@, i));
            }
        }
        Ok(())
    }

    /// Settles a matured commitment: instructs the transfer of its whole
    /// current value from custody back to the owner and marks it `Settled`.
    ///
    /// Fails with `NotFound` for an unknown id, `AlreadySettled` once the
    /// commitment is terminal (so settling twice never moves funds twice),
    /// and `NotExpired` strictly before the expiry instant, in that order,
    /// changing nothing.
    pub fn settle(&mut self, commitment_id: u64, now: u64) -> (r: Result<
        Transfer,
        CommitmentError,
    >)
        requires
            old(self).wf(),
        ensures
            final(self).wf(),
            !old(self).spec_has_commitment(commitment_id) ==> r == Err::<Transfer, CommitmentError>(
                CommitmentError::NotFound,
            ) && *final(self) == *old(self),
            old(self).spec_has_commitment(commitment_id) && is_terminal(
                old(self).spec_commitment(commitment_id).status,
            ) ==> r == Err::<Transfer, CommitmentError>(CommitmentError::AlreadySettled) && *final(self) == *old(self),
            old(self).spec_has_commitment(commitment_id) && !is_terminal(
                old(self).spec_commitment(commitment_id).status,
            ) && !spec_duration_violated(now, old(self).spec_commitment(commitment_id).expires_at)
                ==> r == Err::<Transfer, CommitmentError>(CommitmentError::NotExpired) && *final(self) == *old(self),
            old(self).spec_has_commitment(commitment_id) && !is_terminal(
                old(self).spec_commitment(commitment_id).status,
            ) && spec_duration_violated(now, old(self).spec_commitment(commitment_id).expires_at)
                ==> {
                &&& r == Ok::<Transfer, CommitmentError>(
                    (Transfer {
                        asset: old(self).spec_commitment(commitment_id).asset_address,
                        from: TransferParty::Custody,
                        to: TransferParty::Account(old(self).spec_commitment(commitment_id).owner),
                        amount: old(self).spec_commitment(commitment_id).current_value,
                    }),
                )
                &&& final(self).commitments@ == old(self).commitments@.update(
                    commitment_id - 1,
                    (CommitmentEntry {
                        commitment: Commitment {
                            status: CommitmentStatus::Settled,
                            ..old(self).spec_commitment(commitment_id)
                        },
                        ..old(self).spec_entry(commitment_id)
                    }),
                )
                &&& final(self).transfers@ == old(self).transfers@.push(r->Ok_0)
                &&& final(self).allocation_logs == old(self).allocation_logs
                &&& final(self).registry == old(self).registry
            },
    {
        if !(commitment_id >= 1 && commitment_id <= self.commitments.len() as u64) {
            return Err(CommitmentError::NotFound);
        }
        let idx: usize = (commitment_id - 1) as usize;
        let e: CommitmentEntry = self.commitments[idx];
        if !matches!(e.commitment.status, CommitmentStatus::Active) {
            return Err(CommitmentError::AlreadySettled);
        }
        if now < e.commitment.expires_at {
            return Err(CommitmentError::NotExpired);
        }
        let t = Transfer {
            asset: e.commitment.asset_address,
            from: TransferParty::Custody,
            to: TransferParty::Account(e.commitment.owner),
            amount: e.commitment.current_value,
        };
        let settled = Commitment { status: CommitmentStatus::Settled, ..e.commitment };
        self.commitments.set(idx, CommitmentEntry { commitment: settled, ..e });
        self.transfers.push(t);
        proof {
            assert forall|i: int|
                0 <= i < self.commitments@.len() implies entry_wf(
                #[trigger] self.commitments@[i],
                self.allocation_logs@[i]@,
                i,
            ) by {
                assert(entry_wf(old(self).commitments@[i], old(self).allocation_logs@[i]@, i));
            }
        }
        Ok(t)
    }

    /// Owner-initiated terminal resolution before expiry: withholds the
    /// truncated penalty percentage of the current value, instructs the
    /// transfer of the remainder from custody to the owner, and marks the
    /// commitment `EarlyExit` with the remainder as its value.
    ///
    /// Fails with `NotFound` for an unknown id, `Unauthorized` when `caller`
    /// is not the commitment's owner, and `InactiveCommitment` once the
    /// commitment is terminal, in that order, changing nothing.
    pub fn early_exit(&mut self, commitment_id: u64, caller: u64) -> (r: Result<
        Transfer,
        CommitmentError,
    >)
        requires
            old(self).wf(),
        ensures
            final(self).wf(),
            !old(self).spec_has_commitment(commitment_id) ==> r == Err::<Transfer, CommitmentError>(
                CommitmentError::NotFound,
            ) && *final(self) == *old(self),
            old(self).spec_has_commitment(commitment_id) && caller != old(self).spec_commitment(
                commitment_id,
            ).owner ==> r == Err::<Transfer, CommitmentError>(CommitmentError::Unauthorized)
                && *final(self) == *old(self),
            old(self).spec_has_commitment(commitment_id) && caller == old(self).spec_commitment(
                commitment_id,
            ).owner && is_terminal(old(self).spec_commitment(commitment_id).status) ==> r == Err::<
                Transfer,
                CommitmentError,
            >(CommitmentError::InactiveCommitment) && *final(self) == *old(self),
            old(self).spec_has_commitment(commitment_id) && caller == old(self).spec_commitment(
                commitment_id,
            ).owner && !is_terminal(old(self).spec_commitment(commitment_id).status) ==> {
                &&& r == Ok::<Transfer, CommitmentError>(
                    (Transfer {
                        asset: old(self).spec_commitment(commitment_id).asset_address,
                        from: TransferParty::Custody,
                        to: TransferParty::Account(old(self).spec_commitment(commitment_id).owner),
                        amount: (old(self).spec_commitment(commitment_id).current_value
                            - spec_penalty(
                            old(self).spec_commitment(commitment_id).current_value as int,
                            old(self).spec_commitment(commitment_id).rules.early_exit_penalty
                                as int,
                        )) as i128,
                    }),
                )
                &&& final(self).commitments@ == old(self).commitments@.update(
                    commitment_id - 1,
                    (CommitmentEntry {
                        commitment: Commitment {
                            current_value: r->Ok_0.amount,
                            status: CommitmentStatus::EarlyExit,
                            ..old(self).spec_commitment(commitment_id)
                        },
                        ..old(self).spec_entry(commitment_id)
                    }),
                )
                &&& final(self).transfers@ == old(self).transfers@.push(r->Ok_0)
                &&& final(self).allocation_logs == old(self).allocation_logs
                &&& final(self).registry == old(self).registry
            },
    {
        if !(commitment_id >= 1 && commitment_id <= self.commitments.len() as u64) {
            return Err(CommitmentError::NotFound);
        }
        let idx: usize = (commitment_id - 1) as usize;
        let e: CommitmentEntry = self.commitments[idx];
        if caller != e.commitment.owner {
            return Err(CommitmentError::Unauthorized);
        }
        if !matches!(e.commitment.status, CommitmentStatus::Active) {
            return Err(CommitmentError::InactiveCommitment);
        }
        let value: i128 = e.commitment.current_value;
        let pct: i128 = e.commitment.rules.early_exit_penalty as i128;
        proof {
            assert(0 <= (value as int * pct as int) / 100 <= value) by (nonlinear_arith)
                requires
                    0 <= value,
                    0 <= pct <= 100,
            ;
        }
        let penalty: i128 = (value * pct) / 100;
        let remaining: i128 = value - penalty;
        let t = Transfer {
            asset: e.commitment.asset_address,
            from: TransferParty::Custody,
            to: TransferParty::Account(e.commitment.owner),
            amount: remaining,
        };
        let exited = Commitment {
            current_value: remaining,
            status: CommitmentStatus::EarlyExit,
            ..e.commitment
        };
        self.commitments.set(idx, CommitmentEntry { commitment: exited, ..e });
        self.transfers.push(t);
        proof {
            assert forall|i: int|
                0 <= i < self.commitments@.len() implies entry_wf(
                #[trigger] self.commitments@[i],
                self.allocation_logs@[i]@,
                i,
            ) by {
                assert(entry_wf(old(self).commitments@[i], old(self).allocation_logs@[i]@, i));
            }
        }
        Ok(t)
    }

    /// Moves `amount` of a commitment's free balance out to `target_pool`:
    /// instructs the transfer from custody to the pool, decrements the free
    /// balance, increments `total_allocated`, and appends a record to the
    /// commitment's allocation trail with `now` as its timestamp.  Gated on
    /// the allocator allow-list.
    ///
    /// Fails with `Unauthorized` unless `caller` is an authorized allocator,
    /// `InactiveCommitment` for an unknown id or a commitment no longer
    /// active, `InvalidAmount` for a non-positive amount, and
    /// `InsufficientBalance` when the free balance cannot cover the amount,
    /// in that order, changing nothing.
    pub fn allocate(
        &mut self,
        caller: u64,
        commitment_id: u64,
        target_pool: u64,
        amount: i128,
        now: u64,
    ) -> (r: Result<Transfer, CommitmentError>)
        requires
            old(self).wf(),
        ensures
            final(self).wf(),
            !old(self).registry.spec_is_allocator(caller) ==> r == Err::<Transfer, CommitmentError>(
                CommitmentError::Unauthorized,
            ) && *final(self) == *old(self),
            old(self).registry.spec_is_allocator(caller) && !(old(self).spec_has_commitment(
                commitment_id,
            ) && !is_terminal(old(self).spec_commitment(commitment_id).status)) ==> r == Err::<
                Transfer,
                CommitmentError,
            >(CommitmentError::InactiveCommitment) && *final(self) == *old(self),
            old(self).registry.spec_is_allocator(caller) && old(self).spec_has_commitment(
                commitment_id,
            ) && !is_terminal(old(self).spec_commitment(commitment_id).status) && amount <= 0 ==> r
                == Err::<Transfer, CommitmentError>(CommitmentError::InvalidAmount) && *final(self)
                == *old(self),
            old(self).registry.spec_is_allocator(caller) && old(self).spec_has_commitment(
                commitment_id,
            ) && !is_terminal(old(self).spec_commitment(commitment_id).status) && 0 < amount && old(
                self,
            ).spec_entry(commitment_id).free_balance < amount ==> r == Err::<
                Transfer,
                CommitmentError,
            >(CommitmentError::InsufficientBalance) && *final(self) == *old(self),
            old(self).registry.spec_is_allocator(caller) && old(self).spec_has_commitment(
                commitment_id,
            ) && !is_terminal(old(self).spec_commitment(commitment_id).status) && 0 < amount <= old(
                self,
            ).spec_entry(commitment_id).free_balance ==> {
                &&& r == Ok::<Transfer, CommitmentError>(
                    (Transfer {
                        asset: old(self).spec_commitment(commitment_id).asset_address,
                        from: TransferParty::Custody,
                        to: TransferParty::Account(target_pool),
                        amount,
                    }),
                )
                &&& final(self).commitments@ == old(self).commitments@.update(
                    commitment_id - 1,
                    (CommitmentEntry {
                        free_balance: (old(self).spec_entry(commitment_id).free_balance
                            - amount) as i128,
                        total_allocated: (old(self).spec_entry(commitment_id).total_allocated
                            + amount) as i128,
                        ..old(self).spec_entry(commitment_id)
                    }),
                )
                &&& final(self).allocation_logs@.len() == old(self).allocation_logs@.len()
                &&& forall|i: int|
                    0 <= i < old(self).allocation_logs@.len() && i != commitment_id - 1
                        ==> final(self).allocation_logs@[i] == old(self).allocation_logs@[i]
                &&& final(self).spec_allocations(commitment_id) == old(self).spec_allocations(
                    commitment_id,
                ).push(
                    (Allocation { commitment_id, target_pool, amount, timestamp: now }),
                )
                &&& final(self).transfers@ == old(self).transfers@.push(r->Ok_0)
                &&& final(self).registry == old(self).registry
            },
    {
        if !self.registry.is_authorized_allocator(caller) {
            return Err(CommitmentError::Unauthorized);
        }
        if !(commitment_id >= 1 && commitment_id <= self.commitments.len() as u64) {
            return Err(CommitmentError::InactiveCommitment);
        }
        let idx: usize = (commitment_id - 1) as usize;
        let e: CommitmentEntry = self.commitments[idx];
        if !matches!(e.commitment.status, CommitmentStatus::Active) {
            return Err(CommitmentError::InactiveCommitment);
        }
        if amount <= 0 {
            return Err(CommitmentError::InvalidAmount);
        }
        if e.free_balance < amount {
            return Err(CommitmentError::InsufficientBalance);
        }
        let t = Transfer {
            asset: e.commitment.asset_address,
            from: TransferParty::Custody,
            to: TransferParty::Account(target_pool),
            amount,
        };
        let record = Allocation { commitment_id, target_pool, amount, timestamp: now };
        self.commitments.set(
            idx,
            CommitmentEntry {
                free_balance: e.free_balance - amount,
                total_allocated: e.total_allocated + amount,
                ..e
            },
        );
        let log: &mut Vec<Allocation> = &mut self.allocation_logs[idx];
        log.push(record);
        self.transfers.push(t);
        proof {
            crate::laws::lemma_alloc_sum_push(old(self).allocation_logs@[idx as int]@, record);
            assert forall|i: int|
                0 <= i < self.commitments@.len() implies entry_wf(
                #[trigger] self.commitments@[i],
                self.allocation_logs@[i]@,
                i,
            ) by {
                assert(entry_wf(old(self).commitments@[i], old(self).allocation_logs@[i]@, i));
            }
        }
        Ok(t)
    }

    /// Returns `amount` from `target_pool` to a commitment's free balance:
    /// instructs the transfer from the pool back to custody, increments the
    /// free balance, and decrements `total_allocated`, clamped at a floor of
    /// zero.  Gated on the allocator allow-list; the commitment need only
    /// exist, not be active, so funds can come home after resolution.
    ///
    /// Fails with `Unauthorized` unless `caller` is an authorized allocator,
    /// `InactiveCommitment` for an unknown id, and `InvalidAmount` for a
    /// non-positive amount or one that would push the free balance past the
    /// bookkeeping cap, in that order, changing nothing.
    pub fn deallocate(
        &mut self,
        caller: u64,
        commitment_id: u64,
        target_pool: u64,
        amount: i128,
    ) -> (r: Result<Transfer, CommitmentError>)
        requires
            old(self).wf(),
        ensures
            final(self).wf(),
            !old(self).registry.spec_is_allocator(caller) ==> r == Err::<Transfer, CommitmentError>(
                CommitmentError::Unauthorized,
            ) && *final(self) == *old(self),
            old(self).registry.spec_is_allocator(caller) && !old(self).spec_has_commitment(
                commitment_id,
            ) ==> r == Err::<Transfer, CommitmentError>(CommitmentError::InactiveCommitment)
                && *final(self) == *old(self),
            old(self).registry.spec_is_allocator(caller) && old(self).spec_has_commitment(
                commitment_id,
            ) && !(0 < amount && old(self).spec_entry(commitment_id).free_balance + amount
                <= MAX_UNITS) ==> r == Err::<Transfer, CommitmentError>(
                CommitmentError::InvalidAmount,
            ) && *final(self) == *old(self),
            old(self).registry.spec_is_allocator(caller) && old(self).spec_has_commitment(
                commitment_id,
            ) && 0 < amount && old(self).spec_entry(commitment_id).free_balance + amount
                <= MAX_UNITS ==> {
                &&& r == Ok::<Transfer, CommitmentError>(
                    (Transfer {
                        asset: old(self).spec_commitment(commitment_id).asset_address,
                        from: TransferParty::Account(target_pool),
                        to: TransferParty::Custody,
                        amount,
                    }),
                )
                &&& final(self).commitments@ == old(self).commitments@.update(
                    commitment_id - 1,
                    (CommitmentEntry {
                        free_balance: (old(self).spec_entry(commitment_id).free_balance
                            + amount) as i128,
                        total_allocated: if amount <= old(self).spec_entry(
                            commitment_id,
                        ).total_allocated {
                            (old(self).spec_entry(commitment_id).total_allocated - amount) as i128
                        } else {
                            0
                        },
                        ..old(self).spec_entry(commitment_id)
                    }),
                )
                &&& final(self).allocation_logs == old(self).allocation_logs
                &&& final(self).transfers@ == old(self).transfers@.push(r->Ok_0)
                &&& final(self).registry == old(self).registry
            },
    {
        if !self.registry.is_authorized_allocator(caller) {
            return Err(CommitmentError::Unauthorized);
        }
        if !(commitment_id >= 1 && commitment_id <= self.commitments.len() as u64) {
            return Err(CommitmentError::InactiveCommitment);
        }
        let idx: usize = (commitment_id - 1) as usize;
        let e: CommitmentEntry = self.commitments[idx];
        if amount <= 0 || e.free_balance > MAX_UNITS - amount {
            return Err(CommitmentError::InvalidAmount);
        }
        let new_total: i128 = if amount <= e.total_allocated {
            e.total_allocated - amount
        } else {
            0
        };
        let t = Transfer {
            asset: e.commitment.asset_address,
            from: TransferParty::Account(target_pool),
            to: TransferParty::Custody,
            amount,
        };
        self.commitments.set(
            idx,
            CommitmentEntry {
                free_balance: e.free_balance + amount,
                total_allocated: new_total,
                ..e
            },
        );
        self.transfers.push(t);
        proof {
            assert forall|i: int|
                0 <= i < self.commitments@.len() implies entry_wf(
                #[trigger] self.commitments@[i],
                self.allocation_logs@[i]@,
                i,
            ) by {
                assert(entry_wf(old(self).commitments@[i], old(self).allocation_logs@[i]@, i));
            }
        }
        Ok(t)
    }

    /// A commitment's allocation sub-ledger: its running total and a copy of
    /// its allocation trail.  Never fails: an id with no record yet reads as
    /// an all-zero, empty sub-ledger.
    pub fn get_allocation_tracking(&self, commitment_id: u64) -> (r: AllocationTracking)
        requires
            self.wf(),
        ensures
            self.spec_has_commitment(commitment_id) ==> r.total_allocated == self.spec_entry(
                commitment_id,
            ).total_allocated && r.allocations@ == self.spec_allocations(commitment_id),
            !self.spec_has_commitment(commitment_id) ==> r.total_allocated == 0
                && r.allocations@.len() == 0,
    {
        if commitment_id >= 1 && commitment_id <= self.commitments.len() as u64 {
            let idx: usize = (commitment_id - 1) as usize;
            let src: &Vec<Allocation> = &self.allocation_logs[idx];
            let n: usize = src.len();
            let mut allocations: Vec<Allocation> = Vec::new();
            let mut i: usize = 0;
            while i < n
                invariant
                    n == src@.len(),
                    0 <= i <= n,
                    allocations@ =~= src@.subrange(0, i as int),
                decreases n - i,
            {
                allocations.push(src[i]);
                proof {
                    assert(allocations@ =~= src@.subrange(0, i + 1));
                }
                i = i + 1;
            }
            proof {
                assert(allocations@ =~= src@);
            }
            AllocationTracking {
                total_allocated: self.commitments[idx].total_allocated,
                allocations,
            }
        } else {
            AllocationTracking { total_allocated: 0, allocations: Vec::new() }
        }
    }

    /// The stored record of commitment `commitment_id`, or `NotFound`.
    pub fn get_commitment(&self, commitment_id: u64) -> (r: Result<Commitment, CommitmentError>)
        requires
            self.wf(),
        ensures
            self.spec_has_commitment(commitment_id) ==> r == Ok::<Commitment, CommitmentError>(
                self.spec_commitment(commitment_id),
            ),
            !self.spec_has_commitment(commitment_id) ==> r == Err::<Commitment, CommitmentError>(
                CommitmentError::NotFound,
            ),
    {
        if commitment_id >= 1 && commitment_id <= self.commitments.len() as u64 {
            let idx: usize = (commitment_id - 1) as usize;
            Ok(self.commitments[idx].commitment)
        } else {
            Err(CommitmentError::NotFound)
        }
    }
}

} // verus!
