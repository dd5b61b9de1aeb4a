//! The token half of the bridge: push-triggered locks through the
//! token contract's notification, token confirmations with
//! treasury-funded rewards, and token refunds and withdrawals.

use ibridge::contract::{
    cross_chain_token_confirm, execute, instantiate, query_src_order_status, query_support_token,
    receive_cw20, refund_token, withdrawal_token,
};
use ibridge::error::ContractError;
use ibridge::msg::{
    AuditRecord, Cw20HookMsg, Cw20ReceiveMsg, Env, ExecuteMsg, InstantiateMsg, MessageInfo,
    Transfer,
};
use ibridge::state::BridgeState;

fn s(x: &str) -> String {
    x.to_string()
}

fn info(sender: &str) -> MessageInfo {
    MessageInfo { sender: s(sender), funds: vec![] }
}

fn env_at_seconds(seconds: u64) -> Env {
    Env { time_nanos: seconds * 1_000_000_000 }
}

/// A bridge with token contract "tokenA" registered with floor 500.
fn setup() -> BridgeState {
    let init = InstantiateMsg {
        treasury: s("T"),
        custodian: s("C"),
        risk_control: s("R"),
        relayer: s("L"),
    };
    let (mut state, _) = instantiate(info("G"), init);
    execute(
        &mut state,
        env_at_seconds(0),
        info("G"),
        0,
        ExecuteMsg::SetSupportToken { asset: s("tokenA"), amount_min: 500 },
    )
    .unwrap();
    state
}

fn hook(order_id: u128) -> Cw20HookMsg {
    Cw20HookMsg::CrossChainToken {
        order_id,
        to: s("bob_on_dst"),
        gas_fee: 10,
        cross_chain_fee: 20,
        rewards: 3,
        src_chain_id: 7,
        dst_chain_id: 9,
        deadline: 2000,
        channel: s("chan"),
    }
}

#[test]
fn token_lock_pays_fee_to_treasury() {
    let mut state = setup();
    // The token contract is the caller; the notification carries the
    // real sender and amount.
    let resp = receive_cw20(
        &mut state,
        env_at_seconds(100),
        info("tokenA"),
        10000,
        Cw20ReceiveMsg { sender: s("alice"), amount: 5000, msg: Some(hook(1)) },
    )
    .unwrap();
    assert_eq!(query_src_order_status(&state, 1).status, 1);
    assert_eq!(
        resp.transfers,
        vec![Transfer::TokenTransfer { contract_addr: s("tokenA"), recipient: s("T"), amount: 30 }]
    );
    match resp.audit {
        AuditRecord::CrossChainToken { from, amount, fee, balance_before, balance_after, .. } => {
            assert_eq!(from, s("alice"));
            assert_eq!(amount, 5000);
            assert_eq!(fee, 30);
            assert_eq!(balance_before, 5000);
            assert_eq!(balance_after, 9970);
        }
        other => panic!("unexpected audit record: {:?}", other),
    }
}

#[test]
fn unreadable_hook_payload_is_rejected() {
    let mut state = setup();
    let err = receive_cw20(
        &mut state,
        env_at_seconds(100),
        info("tokenA"),
        10000,
        Cw20ReceiveMsg { sender: s("alice"), amount: 5000, msg: None },
    )
    .unwrap_err();
    assert_eq!(err, ContractError::InvalidCw20Msg);
    assert_eq!(err.message(), "Invalid: Invalid Cw20 Msg");
}

#[test]
fn unregistered_token_contract_is_rejected() {
    let mut state = setup();
    let err = receive_cw20(
        &mut state,
        env_at_seconds(100),
        info("tokenB"),
        10000,
        Cw20ReceiveMsg { sender: s("alice"), amount: 5000, msg: Some(hook(1)) },
    )
    .unwrap_err();
    assert_eq!(err, ContractError::NotSupportToken);
}

#[test]
fn token_lock_below_floor_is_rejected() {
    let mut state = setup();
    let err = receive_cw20(
        &mut state,
        env_at_seconds(100),
        info("tokenA"),
        10000,
        Cw20ReceiveMsg { sender: s("alice"), amount: 499, msg: Some(hook(1)) },
    )
    .unwrap_err();
    assert_eq!(err, ContractError::LessThenAmountMin);
    assert_eq!(query_support_token(&state, s("tokenA")).amount_min, 500);
}

#[test]
fn token_lock_same_order_id_twice_fails() {
    let mut state = setup();
    receive_cw20(
        &mut state,
        env_at_seconds(100),
        info("tokenA"),
        10000,
        Cw20ReceiveMsg { sender: s("alice"), amount: 5000, msg: Some(hook(1)) },
    )
    .unwrap();
    let err = receive_cw20(
        &mut state,
        env_at_seconds(100),
        info("tokenA"),
        10000,
        Cw20ReceiveMsg { sender: s("carol"), amount: 9000, msg: Some(hook(1)) },
    )
    .unwrap_err();
    assert_eq!(err, ContractError::SrcOrderAlreadyExist);
}

#[test]
fn token_confirm_without_rewards_sends_one_transfer() {
    let mut state = setup();
    let resp = cross_chain_token_confirm(
        &mut state,
        Env { time_nanos: 42 },
        info("L"),
        10000,
        1,
        s("tokenA"),
        s("recipient"),
        4970,
        0,
    )
    .unwrap();
    assert_eq!(
        resp.transfers,
        vec![Transfer::TokenTransfer {
            contract_addr: s("tokenA"),
            recipient: s("recipient"),
            amount: 4970,
        }]
    );
}

#[test]
fn token_confirm_rewards_come_from_treasury_allowance() {
    let mut state = setup();
    let resp = cross_chain_token_confirm(
        &mut state,
        Env { time_nanos: 42 },
        info("L"),
        10000,
        1,
        s("tokenA"),
        s("recipient"),
        4970,
        30,
    )
    .unwrap();
    assert_eq!(
        resp.transfers,
        vec![
            Transfer::TokenTransfer {
                contract_addr: s("tokenA"),
                recipient: s("recipient"),
                amount: 4970,
            },
            Transfer::TokenTransferFrom {
                contract_addr: s("tokenA"),
                owner: s("T"),
                recipient: s("recipient"),
                amount: 30,
            },
        ]
    );
    // A second confirmation of the same order fails.
    let err = cross_chain_token_confirm(
        &mut state,
        Env { time_nanos: 43 },
        info("L"),
        10000,
        1,
        s("tokenA"),
        s("recipient"),
        1,
        0,
    )
    .unwrap_err();
    assert_eq!(err, ContractError::DstOrderAlreadyExist);
}

#[test]
fn token_confirm_demands_relayer() {
    let mut state = setup();
    let err = cross_chain_token_confirm(
        &mut state,
        Env { time_nanos: 42 },
        info("mallory"),
        10000,
        1,
        s("tokenA"),
        s("recipient"),
        4970,
        0,
    )
    .unwrap_err();
    assert_eq!(err, ContractError::UnauthorizedRelayer);
    assert_eq!(err.message(), "Unauthorized: Only Relayer can call");
}

#[test]
fn token_refund_travels_through_the_token_contract() {
    let mut state = setup();
    receive_cw20(
        &mut state,
        env_at_seconds(100),
        info("tokenA"),
        10000,
        Cw20ReceiveMsg { sender: s("alice"), amount: 5000, msg: Some(hook(1)) },
    )
    .unwrap();
    let resp = refund_token(&mut state, info("L"), 10000, 1, s("tokenA"), s("alice"), 5000, 10)
        .unwrap();
    assert_eq!(query_src_order_status(&state, 1).status, 2);
    assert_eq!(
        resp.transfers,
        vec![Transfer::TokenTransfer {
            contract_addr: s("tokenA"),
            recipient: s("alice"),
            amount: 4990,
        }]
    );
}

#[test]
fn token_withdrawal_demands_custodian_and_balance() {
    let mut state = setup();
    let err = withdrawal_token(&mut state, info("mallory"), 100, s("tokenA"), 10).unwrap_err();
    assert_eq!(err, ContractError::UnauthorizedCustodian);
    assert_eq!(err.message(), "Unauthorized: Only Custodian can call");
    let err = withdrawal_token(&mut state, info("C"), 100, s("tokenA"), 101).unwrap_err();
    assert_eq!(err, ContractError::NotEnoughBalance);
    let resp = withdrawal_token(&mut state, info("C"), 100, s("tokenA"), 100).unwrap();
    assert_eq!(
        resp.transfers,
        vec![Transfer::TokenTransfer {
            contract_addr: s("tokenA"),
            recipient: s("C"),
            amount: 100,
        }]
    );
}
