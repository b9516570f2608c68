use cosmwasm_std::testing::MOCK_CONTRACT_ADDR;
use cw_contract_sample::contract::{execute, instantiate, query, query_withdraw_balance};
use cw_contract_sample::contract::withdraw_coins as withdraw;
use cw_contract_sample::error::ContractError;
use cw_contract_sample::msg::{ExecuteMsg, InstantiateMsg, QueryAnswer, QueryMsg};
use cw_contract_sample::split_amount;
use cw_contract_sample::state::Ledger;

fn init_ledger(owner: &str, cw20_addr: &str) -> Ledger {
    let mut ledger = Ledger::new();
    let msg = InstantiateMsg {
        cw20_addr: String::from(cw20_addr),
    };
    let res = instantiate(
        &mut ledger,
        String::from(owner),
        msg,
        Some(String::from(cw20_addr)),
    );
    assert!(res.is_ok());
    ledger
}

fn balance_of(ledger: &Ledger, who: &str) -> u128 {
    query_withdraw_balance(ledger, String::from(who)).withdraw_balance
}

#[test]
fn create_contract() {
    let mut ledger = Ledger::new();

    let msg = InstantiateMsg {
        cw20_addr: String::from(MOCK_CONTRACT_ADDR),
    };
    let owner = String::from("owner");

    let res = instantiate(
        &mut ledger,
        owner.clone(),
        msg,
        Some(String::from(MOCK_CONTRACT_ADDR)),
    )
    .unwrap();
    assert_eq!(0, res.messages.len());

    // query owner
    let res = query(&ledger, QueryMsg::GetOwner {}).unwrap();
    match res {
        QueryAnswer::Owner(value) => assert_eq!(&owner, &value.owner),
        _ => panic!("wrong answer kind"),
    }

    // query cw20 address
    let res = query(&ledger, QueryMsg::GetCw20Address {}).unwrap();
    match res {
        QueryAnswer::Cw20Address(value) => {
            assert_eq!(&String::from(MOCK_CONTRACT_ADDR), &value.cw20_addr)
        }
        _ => panic!("wrong answer kind"),
    }
}

#[test]
fn send_coins() {
    let mut ledger = init_ledger("creator", MOCK_CONTRACT_ADDR);

    // Send coins to contract
    let msg = ExecuteMsg::SendCoinsToContract {
        amount: 100,
        cw20_addr: String::from(MOCK_CONTRACT_ADDR),
        recipient1: String::from("recipient1"),
        recipient2: String::from("recipient2"),
    };
    let res = execute(
        &mut ledger,
        String::from("cw20"),
        String::from(MOCK_CONTRACT_ADDR),
        msg,
    )
    .unwrap();
    assert_eq!(1, res.messages.len());

    // Withdraw balances should be 50 for both recipients
    let res1 = query(
        &ledger,
        QueryMsg::GetWithdrawBalance {
            recipient: String::from("recipient1"),
        },
    )
    .unwrap();
    match res1 {
        QueryAnswer::WithdrawBalance(value) => assert_eq!(50, value.withdraw_balance),
        _ => panic!("wrong answer kind"),
    }

    let res2 = query(
        &ledger,
        QueryMsg::GetWithdrawBalance {
            recipient: String::from("recipient2"),
        },
    )
    .unwrap();
    match res2 {
        QueryAnswer::WithdrawBalance(value) => assert_eq!(50, value.withdraw_balance),
        _ => panic!("wrong answer kind"),
    }
}

#[test]
fn withdraw_coins() {
    let mut ledger = init_ledger("creator", MOCK_CONTRACT_ADDR);

    // Withdraw balance is 0
    assert_eq!(0, balance_of(&ledger, "random"));

    // So an attempt to withdraw 100 should fail
    let msg = ExecuteMsg::WithdrawCoinsFromContract {
        amount: 100,
        cw20_addr: String::from(MOCK_CONTRACT_ADDR),
    };
    let res = execute(
        &mut ledger,
        String::from("random"),
        String::from(MOCK_CONTRACT_ADDR),
        msg,
    );
    match res {
        Err(ContractError::WithdrawAmountExceedsBalance) => {}
        _ => panic!("Must return withdraw exceeds amount balance"),
    }

    // Similar setup to before, send coins to two recipients
    let msg = ExecuteMsg::SendCoinsToContract {
        amount: 100,
        cw20_addr: String::from(MOCK_CONTRACT_ADDR),
        recipient1: String::from("recipient1"),
        recipient2: String::from("recipient2"),
    };
    execute(
        &mut ledger,
        String::from("cw20"),
        String::from(MOCK_CONTRACT_ADDR),
        msg,
    )
    .unwrap();

    // Recipient 1 withdraws 30, should have 20 left in withdrawal balance
    let msg = ExecuteMsg::WithdrawCoinsFromContract {
        amount: 30,
        cw20_addr: String::from(MOCK_CONTRACT_ADDR),
    };
    execute(
        &mut ledger,
        String::from("recipient1"),
        String::from(MOCK_CONTRACT_ADDR),
        msg,
    )
    .unwrap();

    assert_eq!(20, balance_of(&ledger, "recipient1"));
}

#[test]
fn split_amount_is_half_rounded_down() {
    assert_eq!(0, split_amount(0));
    assert_eq!(0, split_amount(1));
    assert_eq!(50, split_amount(100));
    assert_eq!(50, split_amount(101));
    assert_eq!(3, split_amount(7));
    assert_eq!(u128::MAX / 2, split_amount(u128::MAX));
}

#[test]
fn initialize_token_and_split_hundred() {
    let mut ledger = init_ledger("admin", "TOKEN");
    let msg = ExecuteMsg::SendCoinsToContract {
        amount: 100,
        cw20_addr: String::from("TOKEN"),
        recipient1: String::from("A"),
        recipient2: String::from("B"),
    };
    execute(
        &mut ledger,
        String::from("depositor"),
        String::from("ledger"),
        msg,
    )
    .unwrap();
    assert_eq!(50, balance_of(&ledger, "A"));
    assert_eq!(50, balance_of(&ledger, "B"));
}

#[test]
fn withdraw_after_split() {
    let mut ledger = init_ledger("admin", "TOKEN");
    let msg = ExecuteMsg::SendCoinsToContract {
        amount: 100,
        cw20_addr: String::from("TOKEN"),
        recipient1: String::from("A"),
        recipient2: String::from("B"),
    };
    execute(
        &mut ledger,
        String::from("depositor"),
        String::from("ledger"),
        msg,
    )
    .unwrap();

    withdraw(
        &mut ledger,
        String::from("A"),
        String::from("ledger"),
        30,
        String::from("TOKEN"),
    )
    .unwrap();
    assert_eq!(20, balance_of(&ledger, "A"));
    assert_eq!(50, balance_of(&ledger, "B"));
}

#[test]
fn withdraw_without_credit_fails_and_changes_nothing() {
    let mut ledger = init_ledger("admin", "TOKEN");
    let res = withdraw(
        &mut ledger,
        String::from("C"),
        String::from("ledger"),
        100,
        String::from("TOKEN"),
    );
    assert!(matches!(
        res,
        Err(ContractError::WithdrawAmountExceedsBalance)
    ));
    assert_eq!(0, balance_of(&ledger, "C"));
}

#[test]
fn odd_amount_drops_one_unit() {
    let mut ledger = init_ledger("admin", "TOKEN");
    let msg = ExecuteMsg::SendCoinsToContract {
        amount: 101,
        cw20_addr: String::from("TOKEN"),
        recipient1: String::from("A"),
        recipient2: String::from("B"),
    };
    execute(
        &mut ledger,
        String::from("depositor"),
        String::from("ledger"),
        msg,
    )
    .unwrap();
    assert_eq!(50, balance_of(&ledger, "A"));
    assert_eq!(50, balance_of(&ledger, "B"));
    // total credited = 100, 1 unit unaccounted
    assert_eq!(100, balance_of(&ledger, "A") + balance_of(&ledger, "B"));
}

#[test]
fn same_recipient_gets_both_halves() {
    let mut ledger = init_ledger("admin", "TOKEN");
    let msg = ExecuteMsg::SendCoinsToContract {
        amount: 101,
        cw20_addr: String::from("TOKEN"),
        recipient1: String::from("A"),
        recipient2: String::from("A"),
    };
    execute(
        &mut ledger,
        String::from("depositor"),
        String::from("ledger"),
        msg,
    )
    .unwrap();
    assert_eq!(100, balance_of(&ledger, "A"));
}

#[test]
fn overflowing_credit_is_rejected_whole() {
    let mut ledger = init_ledger("admin", "TOKEN");
    // Two half-credits of the maximum amount leave A one unit short of full.
    let msg = ExecuteMsg::SendCoinsToContract {
        amount: u128::MAX,
        cw20_addr: String::from("TOKEN"),
        recipient1: String::from("A"),
        recipient2: String::from("A"),
    };
    execute(
        &mut ledger,
        String::from("depositor"),
        String::from("ledger"),
        msg,
    )
    .unwrap();
    assert_eq!(u128::MAX - 1, balance_of(&ledger, "A"));

    // Crediting 2 + 2 more cannot be represented and must change nothing.
    let msg = ExecuteMsg::SendCoinsToContract {
        amount: 4,
        cw20_addr: String::from("TOKEN"),
        recipient1: String::from("A"),
        recipient2: String::from("A"),
    };
    let res = execute(
        &mut ledger,
        String::from("depositor"),
        String::from("ledger"),
        msg,
    );
    assert!(matches!(res, Err(ContractError::BalanceOverflow)));
    assert_eq!(u128::MAX - 1, balance_of(&ledger, "A"));
}

#[test]
fn rejected_address_fails_initialization() {
    let mut ledger = Ledger::new();
    let msg = InstantiateMsg {
        cw20_addr: String::from("not an address"),
    };
    let res = instantiate(&mut ledger, String::from("owner"), msg, None);
    assert!(matches!(res, Err(ContractError::InvalidAddress)));

    // The configuration singleton was never written.
    let res = query(&ledger, QueryMsg::GetOwner {});
    assert!(matches!(res, Err(ContractError::NotFound)));
    let res = query(&ledger, QueryMsg::GetCw20Address {});
    assert!(matches!(res, Err(ContractError::NotFound)));
}

#[test]
fn configuration_read_is_stable() {
    let ledger = init_ledger("admin", "X");
    for _ in 0..3 {
        match query(&ledger, QueryMsg::GetCw20Address {}).unwrap() {
            QueryAnswer::Cw20Address(value) => assert_eq!("X", value.cw20_addr),
            _ => panic!("wrong answer kind"),
        }
        match query(&ledger, QueryMsg::GetOwner {}).unwrap() {
            QueryAnswer::Owner(value) => assert_eq!("admin", value.owner),
            _ => panic!("wrong answer kind"),
        }
    }
}

#[test]
fn events_record_the_operation() {
    let mut ledger = init_ledger("admin", "TOKEN");
    let msg = ExecuteMsg::SendCoinsToContract {
        amount: 101,
        cw20_addr: String::from("TOKEN"),
        recipient1: String::from("A"),
        recipient2: String::from("B"),
    };
    let res = execute(
        &mut ledger,
        String::from("depositor"),
        String::from("ledger"),
        msg,
    )
    .unwrap();
    let pairs: Vec<(&str, &str)> = res
        .attributes
        .iter()
        .map(|a| (a.key.as_str(), a.value.as_str()))
        .collect();
    assert_eq!(
        vec![
            ("action", "sendCoins"),
            ("from", "depositor"),
            ("amount", "101"),
            ("recipient1", "A"),
            ("recipient2", "B"),
        ],
        pairs
    );

    let res = withdraw(
        &mut ledger,
        String::from("A"),
        String::from("ledger"),
        30,
        String::from("TOKEN"),
    )
    .unwrap();
    let pairs: Vec<(&str, &str)> = res
        .attributes
        .iter()
        .map(|a| (a.key.as_str(), a.value.as_str()))
        .collect();
    assert_eq!(
        vec![
            ("action", "withdrawCoins"),
            ("from", "A"),
            ("amount", "30"),
        ],
        pairs
    );
}

#[test]
fn transfer_instruction_encodes_the_deposit() {
    let mut ledger = init_ledger("admin", "tokenaddr");
    let msg = ExecuteMsg::SendCoinsToContract {
        amount: 100,
        cw20_addr: String::from("tokenaddr"),
        recipient1: String::from("A"),
        recipient2: String::from("B"),
    };
    let res = execute(
        &mut ledger,
        String::from("depositor"),
        String::from("ledgeraddr"),
        msg,
    )
    .unwrap();
    assert_eq!(1, res.messages.len());

    // The plain record matches what the opaque instruction encodes.
    assert_eq!(1, res.transfers.len());
    assert_eq!("tokenaddr", res.transfers[0].token);
    assert_eq!("depositor", res.transfers[0].owner);
    assert_eq!("ledgeraddr", res.transfers[0].recipient);
    assert_eq!(100, res.transfers[0].amount);

    match &res.messages[0] {
        cosmwasm_std::CosmosMsg::Wasm(cosmwasm_std::WasmMsg::Execute {
            contract_addr,
            msg,
            funds,
        }) => {
            assert_eq!(&res.transfers[0].token, contract_addr);
            assert!(funds.is_empty());
            let decoded: cw20::Cw20ExecuteMsg = cosmwasm_std::from_json(msg).unwrap();
            assert_eq!(
                cw20::Cw20ExecuteMsg::TransferFrom {
                    owner: res.transfers[0].owner.clone(),
                    recipient: res.transfers[0].recipient.clone(),
                    amount: cosmwasm_std::Uint128::new(res.transfers[0].amount),
                },
                decoded
            );
        }
        other => panic!("unexpected instruction: {:?}", other),
    }

    // The withdrawal queues the mirror-image transfer-out instruction.
    let res = withdraw(
        &mut ledger,
        String::from("A"),
        String::from("ledgeraddr"),
        30,
        String::from("tokenaddr"),
    )
    .unwrap();
    assert_eq!(1, res.transfers.len());
    assert_eq!("tokenaddr", res.transfers[0].token);
    assert_eq!("ledgeraddr", res.transfers[0].owner);
    assert_eq!("A", res.transfers[0].recipient);
    assert_eq!(30, res.transfers[0].amount);
    match &res.messages[0] {
        cosmwasm_std::CosmosMsg::Wasm(cosmwasm_std::WasmMsg::Execute {
            contract_addr,
            msg,
            funds,
        }) => {
            assert_eq!("tokenaddr", contract_addr);
            assert!(funds.is_empty());
            let decoded: cw20::Cw20ExecuteMsg = cosmwasm_std::from_json(msg).unwrap();
            assert_eq!(
                cw20::Cw20ExecuteMsg::TransferFrom {
                    owner: String::from("ledgeraddr"),
                    recipient: String::from("A"),
                    amount: cosmwasm_std::Uint128::new(30),
                },
                decoded
            );
        }
        other => panic!("unexpected instruction: {:?}", other),
    }
}

#[test]
fn withdraw_exact_balance_succeeds() {
    let mut ledger = init_ledger("admin", "TOKEN");
    let msg = ExecuteMsg::SendCoinsToContract {
        amount: 100,
        cw20_addr: String::from("TOKEN"),
        recipient1: String::from("A"),
        recipient2: String::from("B"),
    };
    execute(
        &mut ledger,
        String::from("depositor"),
        String::from("ledger"),
        msg,
    )
    .unwrap();
    withdraw(
        &mut ledger,
        String::from("A"),
        String::from("ledger"),
        50,
        String::from("TOKEN"),
    )
    .unwrap();
    assert_eq!(0, balance_of(&ledger, "A"));

    // One unit more than the (now zero) balance fails again.
    let res = withdraw(
        &mut ledger,
        String::from("A"),
        String::from("ledger"),
        1,
        String::from("TOKEN"),
    );
    assert!(matches!(
        res,
        Err(ContractError::WithdrawAmountExceedsBalance)
    ));
}

#[test]
fn zero_amount_split_and_withdraw() {
    let mut ledger = init_ledger("admin", "TOKEN");
    let msg = ExecuteMsg::SendCoinsToContract {
        amount: 0,
        cw20_addr: String::from("TOKEN"),
        recipient1: String::from("A"),
        recipient2: String::from("B"),
    };
    execute(
        &mut ledger,
        String::from("depositor"),
        String::from("ledger"),
        msg,
    )
    .unwrap();
    assert_eq!(0, balance_of(&ledger, "A"));

    // A zero withdrawal is covered by a zero balance.
    withdraw(
        &mut ledger,
        String::from("nobody"),
        String::from("ledger"),
        0,
        String::from("TOKEN"),
    )
    .unwrap();
    assert_eq!(0, balance_of(&ledger, "nobody"));
}
