//! A minimal token ledger: one deposit is split evenly between two
//! recipients, who may later withdraw their accrued balance independently.
//!
//! The ledger itself — how a deposit is apportioned, how per-recipient
//! balances are tracked, and how withdrawals are validated — lives here,
//! fully specified and verified. The host runtime around it (storage,
//! message encoding, entry points) is an external collaborator.

pub mod contract;
pub mod decimal;
pub mod error;
pub mod msg;
pub mod response;
pub mod state;
pub mod transfer;

use vstd::prelude::*;

verus! {

/// Half of `amount` under floor division: the share each recipient of a
/// split deposit is credited with.
pub open spec fn split_of(amount: u128) -> u128 {
    amount / 2
}

/// Computes the share each recipient receives from a deposit of `amount`.
pub fn split_amount(amount: u128) -> (r: u128)
    ensures
        r == split_of(amount),
{
    amount / 2
}

} // verus!
