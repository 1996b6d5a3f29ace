//! Asset-movement instructions the core hands to the surrounding host.
//!
//! The core never moves funds itself: each operation that requires an asset
//! movement appends the exact instruction to the store's transfer log and
//! returns it.  The host carries it out through its asset-transfer service and
//! commits the new core state only on confirmed success, so a failed transfer
//! leaves no partial state.

use vstd::prelude::*;

verus! {

/// A party to an asset movement: the core's own custody account, or an
/// external account (an owner, or a yield pool) named by its id.
#[derive(Clone, Copy, Debug, PartialEq, Eq, Structural)]
pub enum TransferParty {
    Custody,
    Account(u64),
}

/// One instructed movement of `amount` units of the fungible asset `asset`
/// from `from` to `to`.
#[derive(Clone, Copy, Debug, PartialEq, Eq, Structural)]
pub struct Transfer {
    pub asset: u64,
    pub from: TransferParty,
    pub to: TransferParty,
    pub amount: i128,
}

} // verus!
