//! The lock-side validation rules: floor, fee cap, deadline, pause,
//! attached value, authorization, and the fatal arithmetic guards.

use ibridge::contract::{
    assert_sent_coin_balance, cross_chain_coin, execute, instantiate, query_support_coin,
    refund_coin, withdrawal_punish_coin,
};
use ibridge::error::ContractError;
use ibridge::msg::{Coin, Env, ExecuteMsg, InstantiateMsg, MessageInfo, Order};
use ibridge::state::BridgeState;

fn s(x: &str) -> String {
    x.to_string()
}

fn info(sender: &str) -> MessageInfo {
    MessageInfo { sender: s(sender), funds: vec![] }
}

fn info_with(sender: &str, denom: &str, amount: u128) -> MessageInfo {
    MessageInfo { sender: s(sender), funds: vec![Coin { denom: s(denom), amount }] }
}

fn env_at_seconds(seconds: u64) -> Env {
    Env { time_nanos: seconds * 1_000_000_000 }
}

fn setup() -> BridgeState {
    let init = InstantiateMsg {
        treasury: s("T"),
        custodian: s("C"),
        risk_control: s("R"),
        relayer: s("L"),
    };
    let (mut state, _) = instantiate(info("G"), init);
    execute(
        &mut state,
        env_at_seconds(0),
        info("G"),
        0,
        ExecuteMsg::SetSupportCoin { asset: s("uatom"), amount_min: 1000 },
    )
    .unwrap();
    state
}

fn coin_order(order_id: u128, amount: u128, cross_chain_fee: u128, deadline: u64) -> Order {
    Order {
        order_id,
        asset: s("uatom"),
        from: s("alice"),
        to: s("bob"),
        amount,
        gas_fee: 10,
        cross_chain_fee,
        rewards: 0,
        src_chain_id: 7,
        dst_chain_id: 9,
        deadline,
        channel: s("chan"),
    }
}

#[test]
fn unknown_asset_is_rejected() {
    let mut state = setup();
    let mut order = coin_order(1, 5000, 20, 2000);
    order.asset = s("uosmo");
    let err = cross_chain_coin(
        &mut state,
        env_at_seconds(100),
        info_with("alice", "uosmo", 5000),
        10000,
        order,
    )
    .unwrap_err();
    assert_eq!(err, ContractError::NotSupportToken);
    assert_eq!(err.message(), "Invalid: Not Support Token");
}

#[test]
fn amount_below_floor_is_rejected_and_at_floor_accepted() {
    let mut state = setup();
    let err = cross_chain_coin(
        &mut state,
        env_at_seconds(100),
        info_with("alice", "uatom", 999),
        10000,
        coin_order(1, 999, 0, 2000),
    )
    .unwrap_err();
    assert_eq!(err, ContractError::LessThenAmountMin);
    assert_eq!(err.message(), "Invalid: Less Then Amount Min");
    cross_chain_coin(
        &mut state,
        env_at_seconds(100),
        info_with("alice", "uatom", 1000),
        10000,
        coin_order(1, 1000, 0, 2000),
    )
    .unwrap();
}

#[test]
fn fee_cap_boundary_is_exact() {
    // 5000 * 100000 / 2000000 = 250: the cap itself passes, one more fails.
    let mut state = setup();
    let err = cross_chain_coin(
        &mut state,
        env_at_seconds(100),
        info_with("alice", "uatom", 5000),
        10000,
        coin_order(1, 5000, 251, 2000),
    )
    .unwrap_err();
    assert_eq!(err, ContractError::ExceedMaxCrossChainFee);
    assert_eq!(err.message(), "Invalid: Exceed Max Cross Chain Fee");
    cross_chain_coin(
        &mut state,
        env_at_seconds(100),
        info_with("alice", "uatom", 5000),
        10000,
        coin_order(1, 5000, 250, 2000),
    )
    .unwrap();
}

#[test]
fn fee_cap_rounds_down() {
    // 1999 * 100000 / 2000000 = 99 (rounded down from 99.95).
    let mut state = setup();
    let err = cross_chain_coin(
        &mut state,
        env_at_seconds(100),
        info_with("alice", "uatom", 1999),
        10000,
        coin_order(1, 1999, 100, 2000),
    )
    .unwrap_err();
    assert_eq!(err, ContractError::ExceedMaxCrossChainFee);
    cross_chain_coin(
        &mut state,
        env_at_seconds(100),
        info_with("alice", "uatom", 1999),
        10000,
        coin_order(1, 1999, 99, 2000),
    )
    .unwrap();
}

#[test]
fn deadline_in_the_past_is_rejected_and_boundary_accepted() {
    let mut state = setup();
    let err = cross_chain_coin(
        &mut state,
        env_at_seconds(2001),
        info_with("alice", "uatom", 5000),
        10000,
        coin_order(1, 5000, 20, 2000),
    )
    .unwrap_err();
    assert_eq!(err, ContractError::ExceedDeadline);
    assert_eq!(err.message(), "Invalid: Exceed Deadline");
    cross_chain_coin(
        &mut state,
        env_at_seconds(2000),
        info_with("alice", "uatom", 5000),
        10000,
        coin_order(1, 5000, 20, 2000),
    )
    .unwrap();
}

#[test]
fn block_seconds_round_down_from_nanos() {
    // 2000999999999 ns is still second 2000, so a deadline of 2000 holds.
    let mut state = setup();
    cross_chain_coin(
        &mut state,
        Env { time_nanos: 2_000_999_999_999 },
        info_with("alice", "uatom", 5000),
        10000,
        coin_order(1, 5000, 20, 2000),
    )
    .unwrap();
}

#[test]
fn paused_bridge_rejects_new_locks_only() {
    let mut state = setup();
    execute(
        &mut state,
        env_at_seconds(0),
        info("G"),
        0,
        ExecuteMsg::SetPauseState { state: 1 },
    )
    .unwrap();
    let err = cross_chain_coin(
        &mut state,
        env_at_seconds(100),
        info_with("alice", "uatom", 5000),
        10000,
        coin_order(1, 5000, 20, 2000),
    )
    .unwrap_err();
    assert_eq!(err, ContractError::Paused);
    assert_eq!(err.message(), "Only Not Pause Can Call");
    // Refunds are never pause-gated: this one fails on the order, not
    // on the pause.
    let err = refund_coin(&mut state, info("L"), 10000, 1, s("uatom"), s("alice"), 5000, 10)
        .unwrap_err();
    assert_eq!(err, ContractError::SrcOrderNotExist);
    // Resuming reopens intake.
    execute(
        &mut state,
        env_at_seconds(0),
        info("G"),
        0,
        ExecuteMsg::SetPauseState { state: 0 },
    )
    .unwrap();
    cross_chain_coin(
        &mut state,
        env_at_seconds(100),
        info_with("alice", "uatom", 5000),
        10000,
        coin_order(1, 5000, 20, 2000),
    )
    .unwrap();
}

#[test]
fn attached_value_must_match_declared_amount() {
    let mut state = setup();
    let err = cross_chain_coin(
        &mut state,
        env_at_seconds(100),
        info_with("alice", "uatom", 4000),
        10000,
        coin_order(1, 5000, 20, 2000),
    )
    .unwrap_err();
    assert_eq!(err, ContractError::AmountMismatchParams);
    assert_eq!(err.message(), "Amount Mismatch Params");
    let err = cross_chain_coin(
        &mut state,
        env_at_seconds(100),
        info("alice"),
        10000,
        coin_order(1, 5000, 20, 2000),
    )
    .unwrap_err();
    assert_eq!(err, ContractError::InvalidSendCoinMsg);
    assert_eq!(err.message(), "Invalid Send Coin Msg");
}

#[test]
fn attached_value_check_finds_first_matching_denomination() {
    let funds = vec![
        Coin { denom: s("uosmo"), amount: 7 },
        Coin { denom: s("uatom"), amount: 5000 },
        Coin { denom: s("uatom"), amount: 1 },
    ];
    let info = MessageInfo { sender: s("alice"), funds };
    assert!(assert_sent_coin_balance(&info, &s("uatom"), 5000).is_ok());
    assert_eq!(
        assert_sent_coin_balance(&info, &s("uatom"), 1).unwrap_err(),
        ContractError::AmountMismatchParams
    );
    assert!(assert_sent_coin_balance(&info, &s("untrn"), 0).is_ok());
}

#[test]
fn governor_gates_configuration() {
    let mut state = setup();
    let err = execute(
        &mut state,
        env_at_seconds(0),
        info("mallory"),
        0,
        ExecuteMsg::SetSupportCoin { asset: s("uosmo"), amount_min: 1 },
    )
    .unwrap_err();
    assert_eq!(err, ContractError::Unauthorized);
    assert_eq!(err.message(), "Unauthorized: Only Governor can call");
    let err = execute(
        &mut state,
        env_at_seconds(0),
        info("mallory"),
        0,
        ExecuteMsg::SetPauseState { state: 1 },
    )
    .unwrap_err();
    assert_eq!(err, ContractError::Unauthorized);
}

#[test]
fn governor_change_hands_over_the_role() {
    let mut state = setup();
    execute(
        &mut state,
        env_at_seconds(0),
        info("G"),
        0,
        ExecuteMsg::ChangeGovernor { new_governor: s("G2") },
    )
    .unwrap();
    let err = execute(
        &mut state,
        env_at_seconds(0),
        info("G"),
        0,
        ExecuteMsg::SetPauseState { state: 1 },
    )
    .unwrap_err();
    assert_eq!(err, ContractError::Unauthorized);
    execute(
        &mut state,
        env_at_seconds(0),
        info("G2"),
        0,
        ExecuteMsg::SetPauseState { state: 1 },
    )
    .unwrap();
}

#[test]
fn support_registration_overwrites_the_floor() {
    let mut state = setup();
    assert_eq!(query_support_coin(&state, s("uatom")).amount_min, 1000);
    execute(
        &mut state,
        env_at_seconds(0),
        info("G"),
        0,
        ExecuteMsg::SetSupportCoin { asset: s("uatom"), amount_min: 2500 },
    )
    .unwrap();
    assert_eq!(query_support_coin(&state, s("uatom")).amount_min, 2500);
    assert_eq!(query_support_coin(&state, s("unknown")).amount_min, 0);
}

#[test]
fn punitive_withdrawal_demands_risk_control() {
    let mut state = setup();
    let err = withdrawal_punish_coin(&mut state, info("C"), 100, s("uatom"), 10).unwrap_err();
    assert_eq!(err, ContractError::UnauthorizedRiskControl);
    assert_eq!(err.message(), "Unauthorized: Only Risk Control can call");
    let resp = withdrawal_punish_coin(&mut state, info("R"), 100, s("uatom"), 10).unwrap();
    assert_eq!(resp.transfers.len(), 1);
    let err = withdrawal_punish_coin(&mut state, info("R"), 100, s("uatom"), 101).unwrap_err();
    assert_eq!(err, ContractError::NotEnoughBalance);
}

#[test]
fn refund_underflow_is_fatal_not_business() {
    let mut state = setup();
    cross_chain_coin(
        &mut state,
        env_at_seconds(100),
        info_with("alice", "uatom", 5000),
        10000,
        coin_order(1, 5000, 20, 2000),
    )
    .unwrap();
    // gas_fee above the refunded amount would underflow the net.
    let err = refund_coin(&mut state, info("L"), 10000, 1, s("uatom"), s("alice"), 5000, 6000)
        .unwrap_err();
    assert_eq!(err, ContractError::ArithmeticInvariantViolation);
    assert_eq!(err.message(), "Fatal: Arithmetic Invariant Violation");
    // Nothing was committed: the order is still refundable.
    refund_coin(&mut state, info("L"), 10000, 1, s("uatom"), s("alice"), 5000, 10).unwrap();
}

#[test]
fn lock_with_balance_below_amount_is_fatal() {
    let mut state = setup();
    let err = cross_chain_coin(
        &mut state,
        env_at_seconds(100),
        info_with("alice", "uatom", 5000),
        4000,
        coin_order(1, 5000, 20, 2000),
    )
    .unwrap_err();
    assert_eq!(err, ContractError::ArithmeticInvariantViolation);
    // The order was not recorded.
    cross_chain_coin(
        &mut state,
        env_at_seconds(100),
        info_with("alice", "uatom", 5000),
        10000,
        coin_order(1, 5000, 20, 2000),
    )
    .unwrap();
}

#[test]
fn lock_fee_scaling_overflow_is_fatal() {
    let mut state = setup();
    let huge = u128::MAX / 100_000 + 1;
    let err = cross_chain_coin(
        &mut state,
        env_at_seconds(100),
        info_with("alice", "uatom", huge),
        u128::MAX,
        coin_order(1, huge, 0, 2000),
    )
    .unwrap_err();
    assert_eq!(err, ContractError::ArithmeticInvariantViolation);
}
