//! The error taxonomy of the ledger's operations.

use vstd::prelude::*;

verus! {

/// Everything a ledger operation can fail with.
#[derive(Debug)]
pub enum ContractError {
    /// An error of the host's standard library, propagated verbatim from the
    /// external transfer primitive.
    Std(cosmwasm_std::StdError),
    /// The configuration singleton was read before initialization.
    NotFound,
    /// An identity string failed validation.
    InvalidAddress,
    /// A withdrawal asked for more than the requester's accrued balance.
    WithdrawAmountExceedsBalance,
    /// A credit would push a balance past the representable range.
    BalanceOverflow,
}

} // verus!
