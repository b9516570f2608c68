//! The ledger's operations: initialization, the deposit split, withdrawal,
//! and the queries, each with the contract that pins its outcome down.

use vstd::prelude::*;

use crate::error::ContractError;
use crate::msg::{
    ExecuteMsg, GetCw20AddressResponse, GetOwnerResponse, GetWithdrawBalanceResponse,
    InstantiateMsg, QueryAnswer, QueryMsg,
};
use crate::response::Response;
use crate::response::TransferInstruction;
use crate::split_amount;
use crate::split_of;
use crate::state::{Ledger, State};
use crate::decimal::{u128_decimal, u128_to_string};
use crate::transfer::cw20_transfer_from;

verus! {

/// Whether crediting each of `r1` and `r2` with half of `amount` would push
/// some balance of `pre` past the representable range.
pub open spec fn credit_would_overflow(
    pre: Ledger,
    r1: Seq<char>,
    r2: Seq<char>,
    amount: u128,
) -> bool {
    if r1 == r2 {
        pre.balance_of(r1) + split_of(amount) + split_of(amount) > u128::MAX
    } else {
        ||| pre.balance_of(r1) + split_of(amount) > u128::MAX
        ||| pre.balance_of(r2) + split_of(amount) > u128::MAX
    }
}

/// The ledger change of a committed split credit: each recipient gains half
/// of `amount` (the one recipient gains both halves when the two coincide),
/// nobody else moves, the total grows by both halves, and the configuration
/// stays.
pub open spec fn credit_split_applied(
    pre: Ledger,
    post: Ledger,
    r1: Seq<char>,
    r2: Seq<char>,
    amount: u128,
) -> bool {
    &&& post.balance_of(r1) == pre.balance_of(r1) + split_of(amount) + (if r1 == r2 {
        split_of(amount) as int
    } else {
        0int
    })
    &&& post.balance_of(r2) == pre.balance_of(r2) + split_of(amount) + (if r1 == r2 {
        split_of(amount) as int
    } else {
        0int
    })
    &&& (forall|k: Seq<char>|
        k != r1 && k != r2 ==> #[trigger] post.balance_of(k) == pre.balance_of(k))
    &&& post.total() == pre.total() + 2 * split_of(amount)
    &&& post.cfg() == pre.cfg()
}

/// The event a committed split credit emits: action, source, total amount,
/// and both recipients.
pub open spec fn send_event(
    resp: Response,
    sender: Seq<char>,
    amount: u128,
    r1: Seq<char>,
    r2: Seq<char>,
) -> bool {
    &&& resp.attributes@.len() == 5
    &&& resp.attributes@[0].key@ == "action"@ && resp.attributes@[0].value@ == "sendCoins"@
    &&& resp.attributes@[1].key@ == "from"@ && resp.attributes@[1].value@ == sender
    &&& resp.attributes@[2].key@ == "amount"@ && resp.attributes@[2].value@ == u128_decimal(
        amount,
    )
    &&& resp.attributes@[3].key@ == "recipient1"@ && resp.attributes@[3].value@ == r1
    &&& resp.attributes@[4].key@ == "recipient2"@ && resp.attributes@[4].value@ == r2
}

/// The one transfer a committed operation queues: exactly one host
/// instruction, recorded as moving `amount` of the token at `token` from
/// `owner` to `recipient`.
pub open spec fn queued_transfer(
    resp: Response,
    token: Seq<char>,
    owner: Seq<char>,
    recipient: Seq<char>,
    amount: u128,
) -> bool {
    &&& resp.messages@.len() == 1
    &&& resp.transfers@.len() == 1
    &&& resp.transfers@[0].token@ == token
    &&& resp.transfers@[0].owner@ == owner
    &&& resp.transfers@[0].recipient@ == recipient
    &&& resp.transfers@[0].amount == amount
}

/// Everything a split credit guarantees: it succeeds exactly when the
/// credit is representable, a failure is the overflow rejection and leaves
/// the ledger untouched, and success applies exactly the split, emits its
/// event, and queues the one transfer-in instruction (the deposit moves
/// from the depositor into custody at `custody`, in the token at `token`).
pub open spec fn credit_split_post(
    pre: Ledger,
    post: Ledger,
    sender: Seq<char>,
    custody: Seq<char>,
    token: Seq<char>,
    amount: u128,
    r1: Seq<char>,
    r2: Seq<char>,
    r: Result<Response, ContractError>,
) -> bool {
    &&& post.wf()
    &&& (r is Ok <==> !credit_would_overflow(pre, r1, r2, amount))
    &&& (r is Err ==> (r matches Err(ContractError::BalanceOverflow)) && post == pre)
    &&& (r matches Ok(resp) ==> {
        &&& credit_split_applied(pre, post, r1, r2, amount)
        &&& send_event(resp, sender, amount, r1, r2)
        &&& queued_transfer(resp, token, sender, custody, amount)
    })
}

/// The event a committed withdrawal emits: action, requester, and amount.
pub open spec fn withdraw_event(resp: Response, sender: Seq<char>, amount: u128) -> bool {
    &&& resp.attributes@.len() == 3
    &&& resp.attributes@[0].key@ == "action"@ && resp.attributes@[0].value@ == "withdrawCoins"@
    &&& resp.attributes@[1].key@ == "from"@ && resp.attributes@[1].value@ == sender
    &&& resp.attributes@[2].key@ == "amount"@ && resp.attributes@[2].value@ == u128_decimal(
        amount,
    )
}

/// Everything a withdrawal guarantees: it succeeds exactly when the accrued
/// balance covers the amount, a failure is the exceeds-balance rejection
/// and leaves the ledger untouched, and success debits exactly the amount,
/// emits its event, and queues the one transfer-out instruction (the amount
/// moves from custody at `custody` back to the requester, in the token at
/// `token`).
pub open spec fn withdraw_post(
    pre: Ledger,
    post: Ledger,
    sender: Seq<char>,
    custody: Seq<char>,
    token: Seq<char>,
    amount: u128,
    r: Result<Response, ContractError>,
) -> bool {
    &&& post.wf()
    &&& (r is Ok <==> amount <= pre.balance_of(sender))
    &&& (r is Err ==> (r matches Err(ContractError::WithdrawAmountExceedsBalance)) && post == pre)
    &&& (r matches Ok(resp) ==> {
        &&& post.balance_of(sender) == pre.balance_of(sender) - amount
        &&& (forall|k: Seq<char>|
            k != sender ==> #[trigger] post.balance_of(k) == pre.balance_of(k))
        &&& post.total() == pre.total() - amount
        &&& post.cfg() == pre.cfg()
        &&& withdraw_event(resp, sender, amount)
        &&& queued_transfer(resp, token, custody, sender, amount)
    })
}

/// The event initialization emits: method, administrator, and the asset
/// identifier as the caller wrote it; no instruction is queued.
pub open spec fn instantiate_event(resp: Response, sender: Seq<char>, cw20_addr: Seq<char>) -> bool {
    &&& resp.attributes@.len() == 3
    &&& resp.attributes@[0].key@ == "method"@ && resp.attributes@[0].value@ == "instantiate"@
    &&& resp.attributes@[1].key@ == "owner"@ && resp.attributes@[1].value@ == sender
    &&& resp.attributes@[2].key@ == "cw20_addr"@ && resp.attributes@[2].value@ == cw20_addr
    &&& resp.messages@.len() == 0
    &&& resp.transfers@.len() == 0
}

/// Everything initialization guarantees: a rejected asset identifier fails
/// as an invalid address with the ledger untouched, and a validated one is
/// recorded with the caller as administrator, balances untouched.
pub open spec fn instantiate_post(
    pre: Ledger,
    post: Ledger,
    sender: Seq<char>,
    msg: InstantiateMsg,
    validated: Option<String>,
    r: Result<Response, ContractError>,
) -> bool {
    &&& post.wf() == pre.wf()
    &&& (r is Ok <==> validated is Some)
    &&& (r is Err ==> post == pre && r matches Err(ContractError::InvalidAddress))
    &&& (validated matches Some(a) ==> {
        &&& post.initialized()
        &&& post.owner_spec() == sender
        &&& post.cw20_addr_spec() == a@
        &&& (forall|k: Seq<char>| #[trigger] post.balance_of(k) == pre.balance_of(k))
        &&& post.total() == pre.total()
    })
    &&& (r matches Ok(resp) ==> instantiate_event(resp, sender, msg.cw20_addr@))
}

/// The configuration pair a read yields: administrator and approved asset,
/// or nothing before initialization.
pub open spec fn configuration_of(l: Ledger) -> Option<(Seq<char>, Seq<char>)> {
    if l.initialized() {
        Some((l.owner_spec(), l.cw20_addr_spec()))
    } else {
        None
    }
}

/// Records the configuration singleton: the caller becomes administrator
/// and `validated_cw20_addr` — the asset identifier as the host's identity
/// validator accepted it, or nothing if it rejected it — becomes the
/// approved asset.
pub fn instantiate(
    ledger: &mut Ledger,
    sender: String,
    msg: InstantiateMsg,
    validated_cw20_addr: Option<String>,
) -> (r: Result<Response, ContractError>)
    ensures
        instantiate_post(
            *old(ledger),
            *final(ledger),
            sender@,
            msg,
            validated_cw20_addr,
            r,
        ),
{
    match validated_cw20_addr {
        Some(addr) => {
            ledger.set_config(State { owner: sender.clone(), cw20_addr: addr });
            let resp = Response::new().add_attribute(
                "method",
                String::from_str("instantiate"),
            ).add_attribute("owner", sender).add_attribute("cw20_addr", msg.cw20_addr);
            Ok(resp)
        },
        None => Err(ContractError::InvalidAddress),
    }
}

/// Dispatches one state-changing operation. `sender` is the identity the
/// host authenticated as the caller and `contract_addr` the ledger's own
/// custody address.
pub fn execute(
    ledger: &mut Ledger,
    sender: String,
    contract_addr: String,
    msg: ExecuteMsg,
) -> (r: Result<Response, ContractError>)
    requires
        old(ledger).wf(),
    ensures
        final(ledger).wf(),
        (match msg {
            ExecuteMsg::SendCoinsToContract { amount, cw20_addr, recipient1, recipient2 } => credit_split_post(
                *old(ledger),
                *final(ledger),
                sender@,
                contract_addr@,
                cw20_addr@,
                amount,
                recipient1@,
                recipient2@,
                r,
            ),
            ExecuteMsg::WithdrawCoinsFromContract { amount, cw20_addr } => withdraw_post(
                *old(ledger),
                *final(ledger),
                sender@,
                contract_addr@,
                cw20_addr@,
                amount,
                r,
            ),
        }),
{
    match msg {
        ExecuteMsg::SendCoinsToContract { amount, cw20_addr, recipient1, recipient2 } => {
            send_coins(ledger, sender, contract_addr, amount, cw20_addr, recipient1, recipient2)
        },
        ExecuteMsg::WithdrawCoinsFromContract { amount, cw20_addr } => {
            withdraw_coins(ledger, sender, contract_addr, amount, cw20_addr)
        },
    }
}

/// Accepts a deposit of `amount` from `sender` and credits half of it to
/// each of the two recipients: first the transfer-in instruction is
/// obtained from the token, then — only on success — both credits are
/// applied. An odd remainder unit is dropped by design.
pub fn send_coins(
    ledger: &mut Ledger,
    sender: String,
    contract_addr: String,
    amount: u128,
    cw20_addr: String,
    recipient1: String,
    recipient2: String,
) -> (r: Result<Response, ContractError>)
    requires
        old(ledger).wf(),
    ensures
        credit_split_post(
            *old(ledger),
            *final(ledger),
            sender@,
            contract_addr@,
            cw20_addr@,
            amount,
            recipient1@,
            recipient2@,
            r,
        ),
{
    let split = split_amount(amount);
    assert(split + split <= u128::MAX) by {
        assert(2 * (amount / 2) <= amount);
    };

    // Reject a credit that cannot be represented before any effect.
    let b1 = ledger.get_balance(&recipient1);
    if recipient1 == recipient2 {
        if b1 > u128::MAX - split - split {
            return Err(ContractError::BalanceOverflow);
        }
    } else {
        let b2 = ledger.get_balance(&recipient2);
        if split > u128::MAX - b1 || split > u128::MAX - b2 {
            return Err(ContractError::BalanceOverflow);
        }
    }

    // Obtain the transfer-in instruction before any ledger mutation, so a
    // failure of the external call could never leave a partial credit.
    let msg = match cw20_transfer_from(&cw20_addr, &sender, &contract_addr, amount) {
        Ok(m) => m,
        Err(e) => {
            return Err(ContractError::Std(e));
        },
    };

    ledger.credit(&recipient1, split);
    ledger.credit(&recipient2, split);

    let transfer = TransferInstruction {
        token: cw20_addr,
        owner: sender.clone(),
        recipient: contract_addr,
        amount,
    };
    let resp = Response::new().add_attribute("action", String::from_str("sendCoins"))
        .add_attribute("from", sender)
        .add_attribute("amount", u128_to_string(amount))
        .add_attribute("recipient1", recipient1)
        .add_attribute("recipient2", recipient2)
        .add_message(msg, transfer);
    Ok(resp)
}

/// Pays out `amount` of `sender`'s accrued balance: the sufficiency check
/// strictly precedes the transfer-out instruction, and the debit is applied
/// only once that instruction was obtained.
pub fn withdraw_coins(
    ledger: &mut Ledger,
    sender: String,
    contract_addr: String,
    amount: u128,
    cw20_addr: String,
) -> (r: Result<Response, ContractError>)
    requires
        old(ledger).wf(),
    ensures
        withdraw_post(
            *old(ledger),
            *final(ledger),
            sender@,
            contract_addr@,
            cw20_addr@,
            amount,
            r,
        ),
{
    // Check that the amount does not exceed the withdrawable balance.
    let balance = ledger.get_balance(&sender);
    if balance < amount {
        return Err(ContractError::WithdrawAmountExceedsBalance);
    }

    // Obtain the transfer-out instruction before the debit, so a failure
    // of the external call could never leave a debited-but-untransferred
    // state.
    let msg = match cw20_transfer_from(&cw20_addr, &contract_addr, &sender, amount) {
        Ok(m) => m,
        Err(e) => {
            return Err(ContractError::Std(e));
        },
    };

    ledger.debit(&sender, amount);

    let transfer = TransferInstruction {
        token: cw20_addr,
        owner: contract_addr,
        recipient: sender.clone(),
        amount,
    };
    let resp = Response::new().add_attribute("action", String::from_str("withdrawCoins"))
        .add_attribute("from", sender)
        .add_attribute("amount", u128_to_string(amount))
        .add_message(msg, transfer);
    Ok(resp)
}

/// Answers one question about the ledger without changing it.
pub fn query(ledger: &Ledger, msg: QueryMsg) -> (r: Result<QueryAnswer, ContractError>)
    ensures
        (match msg {
            QueryMsg::GetOwner {  } => {
                &&& (r is Ok <==> ledger.initialized())
                &&& (r matches Ok(a) ==> a matches QueryAnswer::Owner(o) && o.owner@
                    == ledger.owner_spec())
                &&& (r is Err ==> r matches Err(ContractError::NotFound))
            },
            QueryMsg::GetCw20Address {  } => {
                &&& (r is Ok <==> ledger.initialized())
                &&& (r matches Ok(a) ==> a matches QueryAnswer::Cw20Address(c) && c.cw20_addr@
                    == ledger.cw20_addr_spec())
                &&& (r is Err ==> r matches Err(ContractError::NotFound))
            },
            QueryMsg::GetWithdrawBalance { recipient } => r matches Ok(a) && (a matches QueryAnswer::WithdrawBalance(w)
                && w.withdraw_balance == ledger.balance_of(recipient@)),
        }),
{
    match msg {
        QueryMsg::GetOwner {} => {
            match query_owner(ledger) {
                Ok(o) => Ok(QueryAnswer::Owner(o)),
                Err(e) => Err(e),
            }
        },
        QueryMsg::GetCw20Address {} => {
            match query_cw20_addr(ledger) {
                Ok(c) => Ok(QueryAnswer::Cw20Address(c)),
                Err(e) => Err(e),
            }
        },
        QueryMsg::GetWithdrawBalance { recipient } => {
            Ok(QueryAnswer::WithdrawBalance(query_withdraw_balance(ledger, recipient)))
        },
    }
}

/// Reads the administrator identity recorded at initialization.
pub fn query_owner(ledger: &Ledger) -> (r: Result<GetOwnerResponse, ContractError>)
    ensures
        r is Ok <==> ledger.initialized(),
        r matches Ok(resp) ==> resp.owner@ == ledger.owner_spec(),
        r is Err ==> r matches Err(ContractError::NotFound),
{
    match ledger.get_config() {
        Some(s) => Ok(GetOwnerResponse { owner: s.owner.clone() }),
        None => Err(ContractError::NotFound),
    }
}

/// Reads the approved asset identifier recorded at initialization.
pub fn query_cw20_addr(ledger: &Ledger) -> (r: Result<GetCw20AddressResponse, ContractError>)
    ensures
        r is Ok <==> ledger.initialized(),
        r matches Ok(resp) ==> resp.cw20_addr@ == ledger.cw20_addr_spec(),
        r is Err ==> r matches Err(ContractError::NotFound),
{
    match ledger.get_config() {
        Some(s) => Ok(GetCw20AddressResponse { cw20_addr: s.cw20_addr.clone() }),
        None => Err(ContractError::NotFound),
    }
}

/// Reads the withdrawable amount of `recipient`: zero when never credited,
/// never an error.
pub fn query_withdraw_balance(ledger: &Ledger, recipient: String) -> (r: GetWithdrawBalanceResponse)
    ensures
        r.withdraw_balance == ledger.balance_of(recipient@),
{
    GetWithdrawBalanceResponse { withdraw_balance: ledger.get_balance(&recipient) }
}

/// Split correctness: the two halves together account for the whole amount
/// when it is even, and for one unit less when it is odd — the odd unit is
/// credited to nobody.
pub proof fn lemma_split_total(amount: u128)
    ensures
        2 * split_of(amount) == if amount % 2 == 0 {
            amount as int
        } else {
            amount - 1
        },
{
}

/// Split correctness: a committed split credit raises each of two distinct
/// recipients' balances by half the amount, and the ledger total by both
/// halves together — the whole amount when even, one unit less when odd.
pub proof fn lemma_split_correctness(
    pre: Ledger,
    post: Ledger,
    r1: Seq<char>,
    r2: Seq<char>,
    amount: u128,
)
    requires
        credit_split_applied(pre, post, r1, r2, amount),
        r1 != r2,
    ensures
        post.balance_of(r1) == pre.balance_of(r1) + split_of(amount),
        post.balance_of(r2) == pre.balance_of(r2) + split_of(amount),
        post.total() == pre.total() + if amount % 2 == 0 {
            amount as int
        } else {
            amount - 1
        },
{
    lemma_split_total(amount);
}

/// Same-recipient split: when both recipients of a committed split credit
/// coincide, that one balance grows by both halves together.
pub proof fn lemma_same_recipient_credit(pre: Ledger, post: Ledger, who: Seq<char>, amount: u128)
    requires
        credit_split_applied(pre, post, who, who, amount),
    ensures
        post.balance_of(who) == pre.balance_of(who) + 2 * split_of(amount),
{
}

/// Withdrawal bound: a withdrawal of more than the accrued balance fails as
/// exceeding it and leaves the ledger exactly as it was.
pub proof fn lemma_withdraw_bound(
    pre: Ledger,
    post: Ledger,
    sender: Seq<char>,
    custody: Seq<char>,
    token: Seq<char>,
    amount: u128,
    r: Result<Response, ContractError>,
)
    requires
        withdraw_post(pre, post, sender, custody, token, amount, r),
        amount > pre.balance_of(sender),
    ensures
        r matches Err(ContractError::WithdrawAmountExceedsBalance),
        post == pre,
{
}

/// Withdrawal correctness: a committed withdrawal was covered by the
/// accrued balance and debits exactly its amount, so the balance never
/// crosses below zero.
pub proof fn lemma_withdraw_exact(
    pre: Ledger,
    post: Ledger,
    sender: Seq<char>,
    custody: Seq<char>,
    token: Seq<char>,
    amount: u128,
    r: Result<Response, ContractError>,
)
    requires
        withdraw_post(pre, post, sender, custody, token, amount, r),
        r is Ok,
    ensures
        amount <= pre.balance_of(sender),
        post.balance_of(sender) == pre.balance_of(sender) - amount,
{
}

/// Idempotent configuration read: a committed initialization records the
/// caller and the validated asset, and since reads take the ledger immutably,
/// every later read yields that same pair.
pub proof fn lemma_initialize_then_read(
    pre: Ledger,
    post: Ledger,
    sender: Seq<char>,
    msg: InstantiateMsg,
    validated: Option<String>,
    r: Result<Response, ContractError>,
)
    requires
        instantiate_post(pre, post, sender, msg, validated, r),
        r is Ok,
    ensures
        configuration_of(post) == Some((sender, validated->Some_0@)),
{
}

} // verus!
