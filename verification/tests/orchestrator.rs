use omni_bridge::address::get_omni_address;
use omni_bridge::contract::Contract;
use omni_bridge::dispatch::{
    CallContext, Collaborators, Continuation, Dispatch, Operation, Request, CONTINUATION_GAS,
    MUTATING_CALL_GAS, ONE_YOCTO, QUERY_CALL_GAS, TERA_GAS,
};

fn context(current: &str, predecessor: &str) -> CallContext {
    CallContext {
        current_account_id: current.to_string(),
        predecessor_account_id: predecessor.to_string(),
    }
}

#[test]
fn budgets_are_in_teragas() {
    assert_eq!(TERA_GAS, 1_000_000_000_000);
    assert_eq!(MUTATING_CALL_GAS, 80 * TERA_GAS);
    assert_eq!(QUERY_CALL_GAS, 5 * TERA_GAS);
    assert_eq!(CONTINUATION_GAS, 5 * TERA_GAS);
    assert_eq!(ONE_YOCTO, 1);
}

#[test]
fn mainnet_collaborators_are_the_known_accounts() {
    let peers = Collaborators::mainnet();
    assert_eq!(peers.token, "usdt.tether-token.near");
    assert_eq!(peers.custody, "v1-1.omni.hot.tg");
}

#[test]
fn deposit_plans_one_token_call() {
    let mut contract = Contract::default();
    let plan = contract.deposit(
        "1000".to_string(),
        &context("bridge.hot.tg", "alice.near"),
        &Collaborators::mainnet(),
    );
    assert_eq!(
        plan,
        Dispatch {
            receiver_id: "usdt.tether-token.near".to_string(),
            request: Request::FtTransferCall {
                amount: "1000".to_string(),
                receiver_id: "v1-1.omni.hot.tg".to_string(),
                msg: "52uREetHhSKPNeNKEq1vcd5Fm56m4oAthnKzpxchskgd".to_string(),
            },
            static_gas: 80_000_000_000_000,
            attached_deposit: 1,
            continuation_account_id: "bridge.hot.tg".to_string(),
            continuation: Continuation::Deposit,
            continuation_gas: 5_000_000_000_000,
        }
    );
}

#[test]
fn deposit_passes_the_amount_on_as_it_came() {
    let mut contract = Contract::default();
    for amount in ["1000", "0001000", "", "not a number", "340282366920938463463374607431768211456"] {
        let plan = contract.deposit(
            amount.to_string(),
            &context("bridge.hot.tg", "alice.near"),
            &Collaborators::mainnet(),
        );
        match plan.request {
            Request::FtTransferCall { amount: passed, .. } => assert_eq!(passed, amount),
            other => panic!("unexpected request {:?}", other),
        }
    }
}

#[test]
fn deposit_writes_nothing() {
    let mut contract = Contract::new("kept".to_string());
    let before = contract.clone();
    let _ = contract.deposit(
        "1000".to_string(),
        &context("bridge.hot.tg", "alice.near"),
        &Collaborators::mainnet(),
    );
    assert_eq!(contract, before);
    assert_eq!(contract.greeting(), "kept");
}

#[test]
fn get_omni_balance_plans_one_query() {
    let contract = Contract::default();
    let plan = contract.get_omni_balance(
        "2".to_string(),
        &context("alice.near", "bob.near"),
        &Collaborators::mainnet(),
    );
    assert_eq!(
        plan,
        Dispatch {
            receiver_id: "v1-1.omni.hot.tg".to_string(),
            request: Request::GetBalance {
                account_id: "45vVShozdzWY9UJApn9hgkGxzf6WvLGzZa32W5TmTno9".to_string(),
            },
            static_gas: 5_000_000_000_000,
            attached_deposit: 0,
            continuation_account_id: "alice.near".to_string(),
            continuation: Continuation::GetOmniBalance { token_id: "2".to_string() },
            continuation_gas: 5_000_000_000_000,
        }
    );
}

#[test]
fn withdraw_plans_one_custody_call() {
    let contract = Contract::default();
    let plan = contract.withdraw(
        1000,
        2,
        &context("alice.near", "bob.near"),
        &Collaborators::mainnet(),
    );
    assert_eq!(
        plan,
        Dispatch {
            receiver_id: "v1-1.omni.hot.tg".to_string(),
            request: Request::WithdrawOnNear {
                account_id: "45vVShozdzWY9UJApn9hgkGxzf6WvLGzZa32W5TmTno9".to_string(),
                token_id: 2,
                amount: "1000".to_string(),
            },
            static_gas: 80_000_000_000_000,
            attached_deposit: 1,
            continuation_account_id: "alice.near".to_string(),
            continuation: Continuation::Withdraw,
            continuation_gas: 5_000_000_000_000,
        }
    );
}

#[test]
fn withdraw_keeps_every_digit_of_the_amount() {
    let contract = Contract::default();
    let plan = contract.withdraw(
        u128::MAX,
        255,
        &context("alice.near", "bob.near"),
        &Collaborators::mainnet(),
    );
    match plan.request {
        Request::WithdrawOnNear { token_id, amount, .. } => {
            assert_eq!(token_id, 255);
            assert_eq!(amount, "340282366920938463463374607431768211455");
        }
        other => panic!("unexpected request {:?}", other),
    }
}

#[test]
fn transfer_plans_one_custody_call() {
    let contract = Contract::default();
    let plan = contract.transfer(
        500,
        0,
        &context("alice.near", "bob.near"),
        &Collaborators::mainnet(),
    );
    assert_eq!(
        plan,
        Dispatch {
            receiver_id: "v1-1.omni.hot.tg".to_string(),
            request: Request::OmniTransfer {
                account_id: "45vVShozdzWY9UJApn9hgkGxzf6WvLGzZa32W5TmTno9".to_string(),
                receiver_id: "3SKjgJbUNPQE2HReA6xqAm3T5cZvSd4uXKTxEn8raCcs".to_string(),
                token_id: 0,
                amount: "500".to_string(),
            },
            static_gas: 80_000_000_000_000,
            attached_deposit: 1,
            continuation_account_id: "alice.near".to_string(),
            continuation: Continuation::Transfer,
            continuation_gas: 5_000_000_000_000,
        }
    );
}

#[test]
fn transfer_is_destined_for_the_predecessor() {
    let contract = Contract::default();
    for predecessor in ["bob.near", "carol.near", "alice.near", ""] {
        for (amount, token_id) in [(0u128, 0u8), (1, 2), (u128::MAX, 255)] {
            let plan = contract.transfer(
                amount,
                token_id,
                &context("alice.near", predecessor),
                &Collaborators::mainnet(),
            );
            match plan.request {
                Request::OmniTransfer { account_id, receiver_id, .. } => {
                    assert_eq!(receiver_id, get_omni_address(predecessor.to_string()));
                    assert_eq!(account_id, get_omni_address("alice.near".to_string()));
                }
                other => panic!("unexpected request {:?}", other),
            }
        }
    }
}

#[test]
fn collaborators_are_configuration() {
    let contract = Contract::default();
    let peers = Collaborators {
        token: "token.testnet".to_string(),
        custody: "custody.testnet".to_string(),
    };
    let mut writable = Contract::default();
    let deposit = writable.deposit("5".to_string(), &context("a.testnet", "b.testnet"), &peers);
    assert_eq!(deposit.receiver_id, "token.testnet");
    match deposit.request {
        Request::FtTransferCall { receiver_id, .. } => assert_eq!(receiver_id, "custody.testnet"),
        other => panic!("unexpected request {:?}", other),
    }
    let query = contract.get_omni_balance("1".to_string(), &context("a.testnet", "b.testnet"), &peers);
    assert_eq!(query.receiver_id, "custody.testnet");
    let withdrawal = contract.withdraw(1, 1, &context("a.testnet", "b.testnet"), &peers);
    assert_eq!(withdrawal.receiver_id, "custody.testnet");
    let transfer = contract.transfer(1, 1, &context("a.testnet", "b.testnet"), &peers);
    assert_eq!(transfer.receiver_id, "custody.testnet");
}

#[test]
fn only_calls_that_change_state_attach_value() {
    let contract = Contract::default();
    let mut writable = Contract::default();
    let ctx = context("alice.near", "bob.near");
    let peers = Collaborators::mainnet();
    assert_eq!(writable.deposit("1".to_string(), &ctx, &peers).attached_deposit, 1);
    assert_eq!(contract.withdraw(1, 1, &ctx, &peers).attached_deposit, 1);
    assert_eq!(contract.transfer(1, 1, &ctx, &peers).attached_deposit, 1);
    assert_eq!(contract.get_omni_balance("1".to_string(), &ctx, &peers).attached_deposit, 0);
}

#[test]
fn each_continuation_completes_its_operation() {
    let contract = Contract::default();
    let mut writable = Contract::default();
    let ctx = context("alice.near", "bob.near");
    let peers = Collaborators::mainnet();
    assert_eq!(
        writable.deposit("1".to_string(), &ctx, &peers).continuation.operation(),
        Operation::Deposit
    );
    assert_eq!(
        contract.get_omni_balance("1".to_string(), &ctx, &peers).continuation.operation(),
        Operation::GetOmniBalance
    );
    assert_eq!(contract.withdraw(1, 1, &ctx, &peers).continuation.operation(), Operation::Withdraw);
    assert_eq!(contract.transfer(1, 1, &ctx, &peers).continuation.operation(), Operation::Transfer);
}
