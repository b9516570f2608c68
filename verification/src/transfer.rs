//! The boundary to the host and to the cw20 token: the opaque instruction
//! type the host executes, and the call that encodes a transfer into it.

use vstd::prelude::*;

verus! {

/// cosmwasm_std::CosmosMsg, the host-executed instruction type. Ledger
/// operations carry such values through without ever inspecting them.
#[verifier::external_type_specification]
#[verifier::external_body]
#[verifier::reject_recursive_types(T)]
pub struct ExCosmosMsg<T>(cosmwasm_std::CosmosMsg<T>);

/// cosmwasm_std::Empty, the default custom-message parameter of CosmosMsg.
#[verifier::external_type_specification]
#[verifier::external_body]
pub struct ExEmpty(cosmwasm_std::Empty);

/// cosmwasm_std::StdError, the error type of the host's standard library.
#[verifier::external_type_specification]
#[verifier::external_body]
pub struct ExStdError(cosmwasm_std::StdError);

/// Relies on cw20::Cw20Contract::call: it encodes a cw20 TransferFrom
/// message (move `amount` of the token at `cw20_addr` from `owner` to
/// `recipient`) into one host instruction. In this crate version the call
/// is JSON encoding into a growable buffer, and for this message shape —
/// two strings and an amount rendered as its decimal string — no path of
/// the serializer returns an error, so the call always returns Ok.
#[verifier::external_body]
pub(crate) fn cw20_transfer_from(
    cw20_addr: &String,
    owner: &String,
    recipient: &String,
    amount: u128,
) -> (r: Result<cosmwasm_std::CosmosMsg<cosmwasm_std::Empty>, cosmwasm_std::StdError>)
    ensures
        r is Ok,
{
    let token = cw20::Cw20Contract(cosmwasm_std::Addr::unchecked(cw20_addr.as_str()));
    token.call(cw20::Cw20ExecuteMsg::TransferFrom {
        owner: owner.clone(),
        recipient: recipient.clone(),
        amount: cosmwasm_std::Uint128::new(amount),
    })
}

} // verus!
