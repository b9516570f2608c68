//! The operation surface: the messages an operation takes and the records a
//! query answers with.

use vstd::prelude::*;

verus! {

/// What initialization takes: the identifier of the cw20 token this ledger
/// is allowed to move.
#[derive(Debug)]
pub struct InstantiateMsg {
    pub cw20_addr: String,
}

/// The operations that change the ledger.
#[derive(Debug)]
pub enum ExecuteMsg {
    /// Deposit `amount`, splitting the credit evenly between two recipients.
    SendCoinsToContract { amount: u128, cw20_addr: String, recipient1: String, recipient2: String },
    /// Withdraw `amount` of the caller's accrued balance.
    WithdrawCoinsFromContract { amount: u128, cw20_addr: String },
}

/// The questions a caller can ask without changing the ledger.
#[derive(Debug)]
pub enum QueryMsg {
    /// Who performed initialization.
    GetOwner {},
    /// Which cw20 token this ledger is allowed to move.
    GetCw20Address {},
    /// The withdrawable amount of `recipient`.
    GetWithdrawBalance { recipient: String },
}

/// A counter record, kept for callers of the historical query surface.
#[derive(Debug)]
pub struct GetCountResponse {
    pub count: i32,
}

/// The administrator identity recorded at initialization.
#[derive(Debug)]
pub struct GetOwnerResponse {
    pub owner: String,
}

/// The approved cw20 token identifier recorded at initialization.
#[derive(Debug)]
pub struct GetCw20AddressResponse {
    pub cw20_addr: String,
}

/// The withdrawable amount of one recipient, zero when never credited.
#[derive(Debug)]
pub struct GetWithdrawBalanceResponse {
    pub withdraw_balance: u128,
}

/// What a query returns, one variant per question.
#[derive(Debug)]
pub enum QueryAnswer {
    Owner(GetOwnerResponse),
    Cw20Address(GetCw20AddressResponse),
    WithdrawBalance(GetWithdrawBalanceResponse),
}

} // verus!
