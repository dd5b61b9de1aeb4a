//! The read-only interface and the state model's own API.

use ibridge::contract::{execute, instantiate, query};
use ibridge::msg::{Env, ExecuteMsg, InstantiateMsg, MessageInfo, QueryAnswer, QueryMsg};
use ibridge::state::{
    read_dst_order_state, read_pause, read_src_order_state, read_support_coin_config,
    read_support_token_config, store_dst_order_state, store_pause, store_src_order_state,
    store_support_coin_config, store_support_token_config, BridgeState, Config, SrcOrderStatus,
};

fn s(x: &str) -> String {
    x.to_string()
}

fn info(sender: &str) -> MessageInfo {
    MessageInfo { sender: s(sender), funds: vec![] }
}

fn setup() -> BridgeState {
    let init = InstantiateMsg {
        treasury: s("T"),
        custodian: s("C"),
        risk_control: s("R"),
        relayer: s("L"),
    };
    let (state, _) = instantiate(info("G"), init);
    state
}

#[test]
fn query_dispatch_answers_each_region() {
    let mut state = setup();
    execute(
        &mut state,
        Env { time_nanos: 0 },
        info("G"),
        0,
        ExecuteMsg::SetSupportToken { asset: s("tokenA"), amount_min: 500 },
    )
    .unwrap();
    execute(
        &mut state,
        Env { time_nanos: 0 },
        info("G"),
        0,
        ExecuteMsg::SetSupportCoin { asset: s("uatom"), amount_min: 1000 },
    )
    .unwrap();
    match query(&state, QueryMsg::Config) {
        QueryAnswer::Config(c) => {
            assert_eq!(c.governor, s("G"));
            assert_eq!(c.relayer, s("L"));
        }
        other => panic!("unexpected answer: {:?}", other),
    }
    match query(&state, QueryMsg::QuerySupportToken { asset: s("tokenA") }) {
        QueryAnswer::SupportToken(t) => assert_eq!(t.amount_min, 500),
        other => panic!("unexpected answer: {:?}", other),
    }
    match query(&state, QueryMsg::QuerySupportCoin { asset: s("tokenA") }) {
        // Coins and tokens live in disjoint namespaces: the same
        // string means nothing on the coin side.
        QueryAnswer::SupportCoin(c) => assert_eq!(c.amount_min, 0),
        other => panic!("unexpected answer: {:?}", other),
    }
    match query(&state, QueryMsg::QuerySrcOrderStatus { order_id: 1 }) {
        QueryAnswer::SrcOrderStatus(st) => assert_eq!(st.status, 0),
        other => panic!("unexpected answer: {:?}", other),
    }
    match query(&state, QueryMsg::QueryDstOrderStatus { order_id: 1 }) {
        QueryAnswer::DstOrderStatus(st) => assert_eq!(st.status, 0),
        other => panic!("unexpected answer: {:?}", other),
    }
}

#[test]
fn state_books_store_and_overwrite() {
    let mut state = BridgeState::init(Config {
        governor: s("G"),
        treasury: s("T"),
        custodian: s("C"),
        risk_control: s("R"),
        relayer: s("L"),
    });
    assert_eq!(read_pause(&state), 0);
    store_pause(&mut state, 1);
    assert_eq!(read_pause(&state), 1);

    assert_eq!(read_support_token_config(&state, &s("a")), None);
    store_support_token_config(&mut state, &s("a"), 5);
    store_support_token_config(&mut state, &s("b"), 7);
    store_support_token_config(&mut state, &s("a"), 9);
    assert_eq!(read_support_token_config(&state, &s("a")), Some(9));
    assert_eq!(read_support_token_config(&state, &s("b")), Some(7));
    // The coin registry is untouched by token registrations.
    assert_eq!(read_support_coin_config(&state, &s("a")), None);
    store_support_coin_config(&mut state, &s("a"), 11);
    assert_eq!(read_support_coin_config(&state, &s("a")), Some(11));
    assert_eq!(read_support_token_config(&state, &s("a")), Some(9));

    assert_eq!(read_src_order_state(&state, 1), None);
    store_src_order_state(&mut state, 1, SrcOrderStatus::Completed);
    assert_eq!(read_src_order_state(&state, 1), Some(SrcOrderStatus::Completed));
    store_src_order_state(&mut state, 1, SrcOrderStatus::Refunded);
    assert_eq!(read_src_order_state(&state, 1), Some(SrcOrderStatus::Refunded));
    assert_eq!(read_src_order_state(&state, 2), None);

    // The two ledger sides are independent namespaces.
    assert_eq!(read_dst_order_state(&state, 1), None);
    store_dst_order_state(&mut state, 1, 123456);
    assert_eq!(read_dst_order_state(&state, 1), Some(123456));
    assert_eq!(read_src_order_state(&state, 1), Some(SrcOrderStatus::Refunded));
}

#[test]
fn src_status_codes_follow_the_wire_encoding() {
    assert_eq!(SrcOrderStatus::Completed.code(), 1);
    assert_eq!(SrcOrderStatus::Refunded.code(), 2);
}
