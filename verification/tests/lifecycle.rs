//! The full order lifecycle on one bridge: instantiate, register,
//! lock, confirm, refund, withdraw.

use ibridge::contract::{
    cross_chain_coin, cross_chain_coin_confirm, execute, instantiate, query_config,
    query_dst_order_status, query_src_order_status, refund_coin, withdrawal_coin,
};
use ibridge::error::ContractError;
use ibridge::msg::{
    AuditRecord, Coin, Env, ExecuteMsg, InstantiateMsg, MessageInfo, Order, Transfer,
};
use ibridge::state::BridgeState;

fn s(x: &str) -> String {
    x.to_string()
}

fn info(sender: &str) -> MessageInfo {
    MessageInfo { sender: s(sender), funds: vec![] }
}

fn info_with(sender: &str, denom: &str, amount: u128) -> MessageInfo {
    MessageInfo { sender: s(sender), funds: vec![Coin { denom: s(denom), amount }] }
}

fn env_at_seconds(seconds: u64) -> Env {
    Env { time_nanos: seconds * 1_000_000_000 }
}

/// A bridge with governor G, treasury T, custodian C, risk control R,
/// relayer L, and coin "uatom" registered with floor 1000.
fn setup() -> BridgeState {
    let init = InstantiateMsg {
        treasury: s("T"),
        custodian: s("C"),
        risk_control: s("R"),
        relayer: s("L"),
    };
    let (mut state, _) = instantiate(info("G"), init);
    execute(
        &mut state,
        env_at_seconds(0),
        info("G"),
        0,
        ExecuteMsg::SetSupportCoin { asset: s("uatom"), amount_min: 1000 },
    )
    .unwrap();
    state
}

fn lock_order_one(state: &mut BridgeState) -> Result<ibridge::msg::Response, ContractError> {
    let order = Order {
        order_id: 1,
        asset: s("uatom"),
        from: s("alice"),
        to: s("bob_on_dst"),
        amount: 5000,
        gas_fee: 10,
        cross_chain_fee: 20,
        rewards: 0,
        src_chain_id: 7,
        dst_chain_id: 9,
        deadline: 2000,
        channel: s("chan"),
    };
    cross_chain_coin(
        state,
        env_at_seconds(100),
        info_with("alice", "uatom", 5000),
        10000,
        order,
    )
}

#[test]
fn instantiate_sets_roles_and_empty_state() {
    let state = setup();
    let config = query_config(&state);
    assert_eq!(config.governor, s("G"));
    assert_eq!(config.treasury, s("T"));
    assert_eq!(config.custodian, s("C"));
    assert_eq!(config.risk_control, s("R"));
    assert_eq!(config.relayer, s("L"));
    assert_eq!(query_src_order_status(&state, 1).status, 0);
    assert_eq!(query_dst_order_status(&state, 1).status, 0);
}

#[test]
fn lock_coin_completes_order_and_pays_fee_to_relayer() {
    let mut state = setup();
    let resp = lock_order_one(&mut state).unwrap();
    assert_eq!(query_src_order_status(&state, 1).status, 1);
    assert_eq!(
        resp.transfers,
        vec![Transfer::BankSend { to_address: s("L"), denom: s("uatom"), amount: 30 }]
    );
    match resp.audit {
        AuditRecord::CrossChainCoin { order_id, amount, fee, balance_before, balance_after, .. } => {
            assert_eq!(order_id, 1);
            assert_eq!(amount, 5000);
            assert_eq!(fee, 30);
            assert_eq!(balance_before, 5000);
            assert_eq!(balance_after, 9970);
        }
        other => panic!("unexpected audit record: {:?}", other),
    }
}

#[test]
fn lock_same_order_id_twice_fails() {
    let mut state = setup();
    lock_order_one(&mut state).unwrap();
    let again = Order {
        order_id: 1,
        asset: s("uatom"),
        from: s("carol"),
        to: s("dave"),
        amount: 2000,
        gas_fee: 1,
        cross_chain_fee: 2,
        rewards: 0,
        src_chain_id: 7,
        dst_chain_id: 9,
        deadline: 9999,
        channel: s("chan2"),
    };
    let err = cross_chain_coin(
        &mut state,
        env_at_seconds(100),
        info_with("carol", "uatom", 2000),
        10000,
        again,
    )
    .unwrap_err();
    assert_eq!(err, ContractError::SrcOrderAlreadyExist);
    assert_eq!(err.message(), "Invalid: Src Order Already Exist");
    assert_eq!(query_src_order_status(&state, 1).status, 1);
}

#[test]
fn confirm_releases_funds_and_marks_destination() {
    let mut state = setup();
    let resp = cross_chain_coin_confirm(
        &mut state,
        Env { time_nanos: 1_234_567_890 },
        info("L"),
        10000,
        1,
        s("uatom"),
        s("recipient"),
        4970,
        0,
    )
    .unwrap();
    assert_eq!(query_dst_order_status(&state, 1).status, 1_234_567_890);
    assert_eq!(
        resp.transfers,
        vec![Transfer::BankSend { to_address: s("recipient"), denom: s("uatom"), amount: 4970 }]
    );
}

#[test]
fn second_confirm_fails_whatever_the_amounts() {
    let mut state = setup();
    cross_chain_coin_confirm(
        &mut state,
        Env { time_nanos: 1_234_567_890 },
        info("L"),
        10000,
        1,
        s("uatom"),
        s("recipient"),
        4970,
        0,
    )
    .unwrap();
    let err = cross_chain_coin_confirm(
        &mut state,
        Env { time_nanos: 9_999_999_999 },
        info_with("L", "uatom", 5),
        77,
        1,
        s("uatom"),
        s("someone_else"),
        123,
        5,
    )
    .unwrap_err();
    assert_eq!(err, ContractError::DstOrderAlreadyExist);
    assert_eq!(err.message(), "Invalid: Dst Order Already Exist");
    assert_eq!(query_dst_order_status(&state, 1).status, 1_234_567_890);
}

#[test]
fn refund_returns_amount_minus_gas_and_marks_refunded() {
    let mut state = setup();
    lock_order_one(&mut state).unwrap();
    let resp = refund_coin(&mut state, info("L"), 10000, 1, s("uatom"), s("alice"), 5000, 10)
        .unwrap();
    assert_eq!(query_src_order_status(&state, 1).status, 2);
    assert_eq!(
        resp.transfers,
        vec![Transfer::BankSend { to_address: s("alice"), denom: s("uatom"), amount: 4990 }]
    );
    let err = refund_coin(&mut state, info("L"), 10000, 1, s("uatom"), s("alice"), 5000, 10)
        .unwrap_err();
    assert_eq!(err, ContractError::SrcOrderNotSuccess);
    assert_eq!(err.message(), "Invalid: Src Order Not Success");
    assert_eq!(query_src_order_status(&state, 1).status, 2);
}

#[test]
fn refund_of_unknown_order_fails() {
    let mut state = setup();
    let err = refund_coin(&mut state, info("L"), 10000, 42, s("uatom"), s("alice"), 5000, 10)
        .unwrap_err();
    assert_eq!(err, ContractError::SrcOrderNotExist);
}

#[test]
fn withdrawal_beyond_balance_fails() {
    let mut state = setup();
    let err = withdrawal_coin(&mut state, info("C"), 50, s("uatom"), 100).unwrap_err();
    assert_eq!(err, ContractError::NotEnoughBalance);
    assert_eq!(err.message(), "Invalid: Not Enough Balance To Withdraw");
}

#[test]
fn withdrawal_within_balance_pays_exact_amount() {
    let mut state = setup();
    let resp = withdrawal_coin(&mut state, info("C"), 50, s("uatom"), 50).unwrap();
    assert_eq!(
        resp.transfers,
        vec![Transfer::BankSend { to_address: s("C"), denom: s("uatom"), amount: 50 }]
    );
    match resp.audit {
        AuditRecord::WithdrawalCoin { balance_before, balance_after, .. } => {
            assert_eq!(balance_before, 50);
            assert_eq!(balance_after, 0);
        }
        other => panic!("unexpected audit record: {:?}", other),
    }
}

#[test]
fn execute_dispatches_whole_lifecycle() {
    let init = InstantiateMsg {
        treasury: s("T"),
        custodian: s("C"),
        risk_control: s("R"),
        relayer: s("L"),
    };
    let (mut state, _) = instantiate(info("G"), init);
    execute(
        &mut state,
        env_at_seconds(0),
        info("G"),
        0,
        ExecuteMsg::SetSupportCoin { asset: s("uatom"), amount_min: 1000 },
    )
    .unwrap();
    execute(
        &mut state,
        env_at_seconds(100),
        info_with("alice", "uatom", 5000),
        10000,
        ExecuteMsg::CrossChainCoin {
            order_id: 1,
            asset: s("uatom"),
            to: s("bob_on_dst"),
            amount: 5000,
            gas_fee: 10,
            cross_chain_fee: 20,
            rewards: 0,
            src_chain_id: 7,
            dst_chain_id: 9,
            deadline: 2000,
            channel: s("chan"),
        },
    )
    .unwrap();
    assert_eq!(query_src_order_status(&state, 1).status, 1);
    let err = execute(
        &mut state,
        env_at_seconds(100),
        info("mallory"),
        10000,
        ExecuteMsg::RefundCoin {
            order_id: 1,
            asset: s("uatom"),
            from: s("alice"),
            amount: 5000,
            gas_fee: 10,
        },
    )
    .unwrap_err();
    assert_eq!(err, ContractError::UnauthorizedRelayer);
    execute(
        &mut state,
        env_at_seconds(100),
        info("L"),
        10000,
        ExecuteMsg::RefundCoin {
            order_id: 1,
            asset: s("uatom"),
            from: s("alice"),
            amount: 5000,
            gas_fee: 10,
        },
    )
    .unwrap();
    assert_eq!(query_src_order_status(&state, 1).status, 2);
}
