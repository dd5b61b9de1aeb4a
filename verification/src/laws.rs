//! The guarantees the settlement core gives across operations.
//!
//! Each proof function here states one law of the order lifecycle —
//! per-side idempotency, the floor and fee-cap rules, the refund and
//! confirmation guards, and the withdrawal balance bound — over the
//! operations' behaviour predicates, and Verus proves it from them.

use vstd::prelude::*;

use crate::contract::{
    coin_confirm_payout, cross_chain_coin_confirm_post, cross_chain_coin_post,
    cross_chain_token_confirm_post, cross_chain_token_post, fee_mul_overflows, max_fee_cap,
    refund_coin_post, refund_token_post, sent_coin_check, withdrawal_coin_post,
    withdrawal_punish_coin_post, withdrawal_punish_token_post, withdrawal_token_post,
};
use crate::error::ContractError;
use crate::msg::{Env, MessageInfo, Order, Response, Transfer};
use crate::state::{BridgeState, SrcOrderStatus};

verus! {

/// A successful coin lock records its order id as Completed on the
/// source side.
pub proof fn lemma_coin_lock_records(
    pre: BridgeState,
    post: BridgeState,
    env: Env,
    info: MessageInfo,
    balance: u128,
    order: Order,
    r: Result<Response, ContractError>,
)
    requires
        cross_chain_coin_post(pre, post, env, info, balance, order, r),
        r is Ok,
    ensures
        post.src_ledger().contains_key(order.order_id),
        post.src_ledger()[order.order_id] == SrcOrderStatus::Completed,
{
}

/// A successful token lock records its order id as Completed on the
/// source side.
pub proof fn lemma_token_lock_records(
    pre: BridgeState,
    post: BridgeState,
    env: Env,
    balance: u128,
    order: Order,
    r: Result<Response, ContractError>,
)
    requires
        cross_chain_token_post(pre, post, env, balance, order, r),
        r is Ok,
    ensures
        post.src_ledger().contains_key(order.order_id),
        post.src_ledger()[order.order_id] == SrcOrderStatus::Completed,
{
}

/// Locking an order id that already has a source-side status never
/// succeeds and changes nothing, whatever the asset or amount; once
/// the coin path's pause and attached-value gates pass, the error is
/// exactly the already-exists rejection.
pub proof fn lemma_coin_lock_blocked(
    pre: BridgeState,
    post: BridgeState,
    env: Env,
    info: MessageInfo,
    balance: u128,
    order: Order,
    r: Result<Response, ContractError>,
)
    requires
        cross_chain_coin_post(pre, post, env, info, balance, order, r),
        pre.src_ledger().contains_key(order.order_id),
    ensures
        !(r is Ok),
        post == pre,
        pre.spec_pause() != 1 && sent_coin_check(info.funds@, order.asset@, order.amount) is Ok
            ==> r == Result::<Response, ContractError>::Err(ContractError::SrcOrderAlreadyExist),
{
}

/// Locking an order id that already has a source-side status through
/// the token path fails with exactly the already-exists rejection and
/// changes nothing, whatever the asset or amount.
pub proof fn lemma_token_lock_blocked(
    pre: BridgeState,
    post: BridgeState,
    env: Env,
    balance: u128,
    order: Order,
    r: Result<Response, ContractError>,
)
    requires
        cross_chain_token_post(pre, post, env, balance, order, r),
        pre.src_ledger().contains_key(order.order_id),
    ensures
        r == Result::<Response, ContractError>::Err(ContractError::SrcOrderAlreadyExist),
        post == pre,
{
}

/// Locking the same order id twice on the source side always fails
/// the second time with the already-exists rejection, regardless of
/// the second order's asset or amounts (coin path after coin path;
/// the other pairings follow the same way from the records and
/// blocked lemmas).
pub proof fn lemma_lock_same_id_twice_fails(
    s0: BridgeState,
    s1: BridgeState,
    s2: BridgeState,
    env1: Env,
    env2: Env,
    info1: MessageInfo,
    info2: MessageInfo,
    balance1: u128,
    balance2: u128,
    order1: Order,
    order2: Order,
    r1: Result<Response, ContractError>,
    r2: Result<Response, ContractError>,
)
    requires
        cross_chain_coin_post(s0, s1, env1, info1, balance1, order1, r1),
        r1 is Ok,
        cross_chain_coin_post(s1, s2, env2, info2, balance2, order2, r2),
        order2.order_id == order1.order_id,
    ensures
        !(r2 is Ok),
        s2 == s1,
        s1.spec_pause() != 1 && sent_coin_check(info2.funds@, order2.asset@, order2.amount) is Ok
            ==> r2 == Result::<Response, ContractError>::Err(ContractError::SrcOrderAlreadyExist),
{
    lemma_coin_lock_records(s0, s1, env1, info1, balance1, order1, r1);
    lemma_coin_lock_blocked(s1, s2, env2, info2, balance2, order2, r2);
}

/// With the coin lock's gates passed, a fresh order id and a
/// supported asset, an amount below the registered floor is always
/// rejected with the floor error and changes nothing.
pub proof fn lemma_coin_lock_below_floor_rejected(
    pre: BridgeState,
    post: BridgeState,
    env: Env,
    info: MessageInfo,
    balance: u128,
    order: Order,
    r: Result<Response, ContractError>,
)
    requires
        cross_chain_coin_post(pre, post, env, info, balance, order, r),
        pre.spec_pause() != 1,
        sent_coin_check(info.funds@, order.asset@, order.amount) is Ok,
        !pre.src_ledger().contains_key(order.order_id),
        pre.coin_registry().contains_key(order.asset@),
        order.amount < pre.coin_registry()[order.asset@],
    ensures
        r == Result::<Response, ContractError>::Err(ContractError::LessThenAmountMin),
        post == pre,
{
}

/// With every other check passing, a coin lock at or above the floor
/// always succeeds — in particular a cross-chain fee exactly at the
/// 5% cap is accepted — and the order becomes Completed.
pub proof fn lemma_coin_lock_succeeds(
    pre: BridgeState,
    post: BridgeState,
    env: Env,
    info: MessageInfo,
    balance: u128,
    order: Order,
    r: Result<Response, ContractError>,
)
    requires
        cross_chain_coin_post(pre, post, env, info, balance, order, r),
        pre.spec_pause() != 1,
        sent_coin_check(info.funds@, order.asset@, order.amount) is Ok,
        !pre.src_ledger().contains_key(order.order_id),
        pre.coin_registry().contains_key(order.asset@),
        order.amount >= pre.coin_registry()[order.asset@],
        !fee_mul_overflows(order.amount),
        order.cross_chain_fee <= max_fee_cap(order.amount),
        crate::msg::spec_seconds(env) <= order.deadline,
        order.gas_fee + order.cross_chain_fee <= u128::MAX,
        order.amount <= balance,
        order.gas_fee + order.cross_chain_fee <= balance,
    ensures
        r is Ok,
        post.src_ledger() == pre.src_ledger().insert(order.order_id, SrcOrderStatus::Completed),
{
}

/// With the token lock's order and registry checks passing, an amount
/// below the registered floor is always rejected with the floor error
/// and changes nothing.
pub proof fn lemma_token_lock_below_floor_rejected(
    pre: BridgeState,
    post: BridgeState,
    env: Env,
    balance: u128,
    order: Order,
    r: Result<Response, ContractError>,
)
    requires
        cross_chain_token_post(pre, post, env, balance, order, r),
        !pre.src_ledger().contains_key(order.order_id),
        pre.token_registry().contains_key(order.asset@),
        order.amount < pre.token_registry()[order.asset@],
    ensures
        r == Result::<Response, ContractError>::Err(ContractError::LessThenAmountMin),
        post == pre,
{
}

/// With every other check passing, a token lock at or above the floor
/// always succeeds — in particular a cross-chain fee exactly at the
/// 5% cap is accepted — and the order becomes Completed.
pub proof fn lemma_token_lock_succeeds(
    pre: BridgeState,
    post: BridgeState,
    env: Env,
    balance: u128,
    order: Order,
    r: Result<Response, ContractError>,
)
    requires
        cross_chain_token_post(pre, post, env, balance, order, r),
        !pre.src_ledger().contains_key(order.order_id),
        pre.token_registry().contains_key(order.asset@),
        order.amount >= pre.token_registry()[order.asset@],
        !fee_mul_overflows(order.amount),
        order.cross_chain_fee <= max_fee_cap(order.amount),
        crate::msg::spec_seconds(env) <= order.deadline,
        order.gas_fee + order.cross_chain_fee <= u128::MAX,
        order.amount <= balance,
        order.gas_fee + order.cross_chain_fee <= balance,
    ensures
        r is Ok,
        post.src_ledger() == pre.src_ledger().insert(order.order_id, SrcOrderStatus::Completed),
{
}

/// A cross-chain fee above 5% of the amount is always rejected with
/// the fee-cap error once the preceding checks pass (coin path).
pub proof fn lemma_lock_fee_above_cap_rejected(
    pre: BridgeState,
    post: BridgeState,
    env: Env,
    info: MessageInfo,
    balance: u128,
    order: Order,
    r: Result<Response, ContractError>,
)
    requires
        cross_chain_coin_post(pre, post, env, info, balance, order, r),
        pre.spec_pause() != 1,
        sent_coin_check(info.funds@, order.asset@, order.amount) is Ok,
        !pre.src_ledger().contains_key(order.order_id),
        pre.coin_registry().contains_key(order.asset@),
        order.amount >= pre.coin_registry()[order.asset@],
        !fee_mul_overflows(order.amount),
        order.cross_chain_fee > max_fee_cap(order.amount),
    ensures
        r == Result::<Response, ContractError>::Err(ContractError::ExceedMaxCrossChainFee),
        post == pre,
{
}

/// A cross-chain fee above 5% of the amount is always rejected with
/// the fee-cap error once the preceding checks pass (token path).
pub proof fn lemma_token_lock_fee_above_cap_rejected(
    pre: BridgeState,
    post: BridgeState,
    env: Env,
    balance: u128,
    order: Order,
    r: Result<Response, ContractError>,
)
    requires
        cross_chain_token_post(pre, post, env, balance, order, r),
        !pre.src_ledger().contains_key(order.order_id),
        pre.token_registry().contains_key(order.asset@),
        order.amount >= pre.token_registry()[order.asset@],
        !fee_mul_overflows(order.amount),
        order.cross_chain_fee > max_fee_cap(order.amount),
    ensures
        r == Result::<Response, ContractError>::Err(ContractError::ExceedMaxCrossChainFee),
        post == pre,
{
}

/// A refund succeeds only on a source order whose status is exactly
/// Completed; a missing order and an already-refunded order are
/// rejected with their own errors and change nothing (coin path; the
/// token path shares the guard).
pub proof fn lemma_refund_requires_completed(
    pre: BridgeState,
    post: BridgeState,
    info: MessageInfo,
    balance: u128,
    order_id: u128,
    asset: String,
    from: String,
    amount: u128,
    gas_fee: u128,
    r: Result<Response, ContractError>,
)
    requires
        refund_coin_post(pre, post, info, balance, order_id, asset, from, amount, gas_fee, r),
    ensures
        r is Ok ==> pre.src_ledger().contains_key(order_id) && pre.src_ledger()[order_id]
            == SrcOrderStatus::Completed,
        info.sender@ == pre.spec_config().relayer@ && !pre.src_ledger().contains_key(order_id)
            ==> r == Result::<Response, ContractError>::Err(ContractError::SrcOrderNotExist)
            && post == pre,
        info.sender@ == pre.spec_config().relayer@ && pre.src_ledger().contains_key(order_id)
            && pre.src_ledger()[order_id] == SrcOrderStatus::Refunded ==> r == Result::<
            Response,
            ContractError,
        >::Err(ContractError::SrcOrderNotSuccess) && post == pre,
{
}

/// As [`lemma_refund_requires_completed`], for the token path.
pub proof fn lemma_refund_token_requires_completed(
    pre: BridgeState,
    post: BridgeState,
    info: MessageInfo,
    balance: u128,
    order_id: u128,
    asset: String,
    from: String,
    amount: u128,
    gas_fee: u128,
    r: Result<Response, ContractError>,
)
    requires
        refund_token_post(pre, post, info, balance, order_id, asset, from, amount, gas_fee, r),
    ensures
        r is Ok ==> pre.src_ledger().contains_key(order_id) && pre.src_ledger()[order_id]
            == SrcOrderStatus::Completed,
        info.sender@ == pre.spec_config().relayer@ && !pre.src_ledger().contains_key(order_id)
            ==> r == Result::<Response, ContractError>::Err(ContractError::SrcOrderNotExist)
            && post == pre,
        info.sender@ == pre.spec_config().relayer@ && pre.src_ledger().contains_key(order_id)
            && pre.src_ledger()[order_id] == SrcOrderStatus::Refunded ==> r == Result::<
            Response,
            ContractError,
        >::Err(ContractError::SrcOrderNotSuccess) && post == pre,
{
}

/// A second refund of the same order always fails with the
/// not-success rejection and changes nothing: the first refund left
/// the order Refunded, a terminal status.
pub proof fn lemma_refund_twice_fails(
    s0: BridgeState,
    s1: BridgeState,
    s2: BridgeState,
    info1: MessageInfo,
    info2: MessageInfo,
    balance1: u128,
    balance2: u128,
    order_id: u128,
    asset1: String,
    asset2: String,
    from1: String,
    from2: String,
    amount1: u128,
    amount2: u128,
    gas_fee1: u128,
    gas_fee2: u128,
    r1: Result<Response, ContractError>,
    r2: Result<Response, ContractError>,
)
    requires
        refund_coin_post(s0, s1, info1, balance1, order_id, asset1, from1, amount1, gas_fee1, r1),
        r1 is Ok,
        refund_coin_post(s1, s2, info2, balance2, order_id, asset2, from2, amount2, gas_fee2, r2),
        info2.sender@ == s1.spec_config().relayer@,
    ensures
        r2 == Result::<Response, ContractError>::Err(ContractError::SrcOrderNotSuccess),
        s2 == s1,
{
}

/// A successful confirmation records the order id on the destination
/// side (coin path).
pub proof fn lemma_coin_confirm_records(
    pre: BridgeState,
    post: BridgeState,
    env: Env,
    info: MessageInfo,
    balance: u128,
    order_id: u128,
    asset: String,
    to: String,
    amount: u128,
    rewards: u128,
    r: Result<Response, ContractError>,
)
    requires
        cross_chain_coin_confirm_post(
            pre,
            post,
            env,
            info,
            balance,
            order_id,
            asset,
            to,
            amount,
            rewards,
            r,
        ),
        r is Ok,
    ensures
        post.dst_ledger().contains_key(order_id),
{
}

/// Confirming an order id that already has a destination-side status
/// never succeeds and changes nothing, independent of the amount or
/// rewards supplied; once the attached-value and relayer gates pass,
/// the error is exactly the already-exists rejection (coin path).
pub proof fn lemma_coin_confirm_blocked(
    pre: BridgeState,
    post: BridgeState,
    env: Env,
    info: MessageInfo,
    balance: u128,
    order_id: u128,
    asset: String,
    to: String,
    amount: u128,
    rewards: u128,
    r: Result<Response, ContractError>,
)
    requires
        cross_chain_coin_confirm_post(
            pre,
            post,
            env,
            info,
            balance,
            order_id,
            asset,
            to,
            amount,
            rewards,
            r,
        ),
        pre.dst_ledger().contains_key(order_id),
    ensures
        !(r is Ok),
        post == pre,
        sent_coin_check(info.funds@, asset@, rewards) is Ok && info.sender@
            == pre.spec_config().relayer@ ==> r == Result::<Response, ContractError>::Err(
            ContractError::DstOrderAlreadyExist,
        ),
{
}

/// As [`lemma_coin_confirm_blocked`], for the token path: under the
/// relayer gate the error is exactly the already-exists rejection.
pub proof fn lemma_token_confirm_blocked(
    pre: BridgeState,
    post: BridgeState,
    env: Env,
    info: MessageInfo,
    balance: u128,
    order_id: u128,
    asset: String,
    to: String,
    amount: u128,
    rewards: u128,
    r: Result<Response, ContractError>,
)
    requires
        cross_chain_token_confirm_post(
            pre,
            post,
            env,
            info,
            balance,
            order_id,
            asset,
            to,
            amount,
            rewards,
            r,
        ),
        pre.dst_ledger().contains_key(order_id),
    ensures
        !(r is Ok),
        post == pre,
        info.sender@ == pre.spec_config().relayer@ ==> r == Result::<Response, ContractError>::Err(
            ContractError::DstOrderAlreadyExist,
        ),
{
}

/// A second confirmation of the same order id always fails,
/// independent of the amount or rewards supplied (coin path after
/// coin path; the other pairings follow the same way).
pub proof fn lemma_confirm_same_id_twice_fails(
    s0: BridgeState,
    s1: BridgeState,
    s2: BridgeState,
    env1: Env,
    env2: Env,
    info1: MessageInfo,
    info2: MessageInfo,
    balance1: u128,
    balance2: u128,
    order_id: u128,
    asset1: String,
    asset2: String,
    to1: String,
    to2: String,
    amount1: u128,
    amount2: u128,
    rewards1: u128,
    rewards2: u128,
    r1: Result<Response, ContractError>,
    r2: Result<Response, ContractError>,
)
    requires
        cross_chain_coin_confirm_post(
            s0,
            s1,
            env1,
            info1,
            balance1,
            order_id,
            asset1,
            to1,
            amount1,
            rewards1,
            r1,
        ),
        r1 is Ok,
        cross_chain_coin_confirm_post(
            s1,
            s2,
            env2,
            info2,
            balance2,
            order_id,
            asset2,
            to2,
            amount2,
            rewards2,
            r2,
        ),
    ensures
        !(r2 is Ok),
        s2 == s1,
        sent_coin_check(info2.funds@, asset2@, rewards2) is Ok && info2.sender@
            == s1.spec_config().relayer@ ==> r2 == Result::<Response, ContractError>::Err(
            ContractError::DstOrderAlreadyExist,
        ),
{
    lemma_coin_confirm_records(
        s0,
        s1,
        env1,
        info1,
        balance1,
        order_id,
        asset1,
        to1,
        amount1,
        rewards1,
        r1,
    );
    lemma_coin_confirm_blocked(
        s1,
        s2,
        env2,
        info2,
        balance2,
        order_id,
        asset2,
        to2,
        amount2,
        rewards2,
        r2,
    );
}

/// A normal coin withdrawal never succeeds when the requested amount
/// exceeds the custodial balance, always succeeds for the custodian
/// when it does not, pays out exactly the requested amount, and never
/// changes the state.
pub proof fn lemma_withdrawal_coin_balance_guard(
    pre: BridgeState,
    post: BridgeState,
    info: MessageInfo,
    balance: u128,
    asset: String,
    amount: u128,
    r: Result<Response, ContractError>,
)
    requires
        withdrawal_coin_post(pre, post, info, balance, asset, amount, r),
    ensures
        post == pre,
        amount > balance ==> !(r is Ok),
        info.sender@ == pre.spec_config().custodian@ && amount > balance ==> r == Result::<
            Response,
            ContractError,
        >::Err(ContractError::NotEnoughBalance),
        info.sender@ == pre.spec_config().custodian@ && amount <= balance ==> (r matches Ok(resp)
            && resp.transfers@ == seq![
            Transfer::BankSend { to_address: info.sender, denom: asset, amount: amount },
        ]),
{
}

/// As [`lemma_withdrawal_coin_balance_guard`], for the token variant.
pub proof fn lemma_withdrawal_token_balance_guard(
    pre: BridgeState,
    post: BridgeState,
    info: MessageInfo,
    balance: u128,
    asset: String,
    amount: u128,
    r: Result<Response, ContractError>,
)
    requires
        withdrawal_token_post(pre, post, info, balance, asset, amount, r),
    ensures
        post == pre,
        amount > balance ==> !(r is Ok),
        info.sender@ == pre.spec_config().custodian@ && amount > balance ==> r == Result::<
            Response,
            ContractError,
        >::Err(ContractError::NotEnoughBalance),
        info.sender@ == pre.spec_config().custodian@ && amount <= balance ==> (r matches Ok(resp)
            && resp.transfers@ == seq![
            Transfer::TokenTransfer {
                contract_addr: asset,
                recipient: info.sender,
                amount: amount,
            },
        ]),
{
}

/// As [`lemma_withdrawal_coin_balance_guard`], for the punitive coin
/// variant under the risk-control role.
pub proof fn lemma_withdrawal_punish_coin_balance_guard(
    pre: BridgeState,
    post: BridgeState,
    info: MessageInfo,
    balance: u128,
    asset: String,
    amount: u128,
    r: Result<Response, ContractError>,
)
    requires
        withdrawal_punish_coin_post(pre, post, info, balance, asset, amount, r),
    ensures
        post == pre,
        amount > balance ==> !(r is Ok),
        info.sender@ == pre.spec_config().risk_control@ && amount > balance ==> r == Result::<
            Response,
            ContractError,
        >::Err(ContractError::NotEnoughBalance),
        info.sender@ == pre.spec_config().risk_control@ && amount <= balance ==> (r matches Ok(resp)
            && resp.transfers@ == seq![
            Transfer::BankSend { to_address: info.sender, denom: asset, amount: amount },
        ]),
{
}

/// As [`lemma_withdrawal_coin_balance_guard`], for the punitive token
/// variant under the risk-control role.
pub proof fn lemma_withdrawal_punish_token_balance_guard(
    pre: BridgeState,
    post: BridgeState,
    info: MessageInfo,
    balance: u128,
    asset: String,
    amount: u128,
    r: Result<Response, ContractError>,
)
    requires
        withdrawal_punish_token_post(pre, post, info, balance, asset, amount, r),
    ensures
        post == pre,
        amount > balance ==> !(r is Ok),
        info.sender@ == pre.spec_config().risk_control@ && amount > balance ==> r == Result::<
            Response,
            ContractError,
        >::Err(ContractError::NotEnoughBalance),
        info.sender@ == pre.spec_config().risk_control@ && amount <= balance ==> (r matches Ok(resp)
            && resp.transfers@ == seq![
            Transfer::TokenTransfer {
                contract_addr: asset,
                recipient: info.sender,
                amount: amount,
            },
        ]),
{
}

/// A successful coin confirmation pays the recipient exactly the
/// principal plus any rewards.
pub proof fn lemma_coin_confirm_payout_exact(
    pre: BridgeState,
    post: BridgeState,
    env: Env,
    info: MessageInfo,
    balance: u128,
    order_id: u128,
    asset: String,
    to: String,
    amount: u128,
    rewards: u128,
    r: Result<Response, ContractError>,
)
    requires
        cross_chain_coin_confirm_post(
            pre,
            post,
            env,
            info,
            balance,
            order_id,
            asset,
            to,
            amount,
            rewards,
            r,
        ),
        r is Ok,
    ensures
        r matches Ok(resp) && resp.transfers@ == seq![
            Transfer::BankSend {
                to_address: to,
                denom: asset,
                amount: coin_confirm_payout(amount, rewards),
            },
        ],
        rewards == 0 ==> coin_confirm_payout(amount, rewards) == amount,
{
}

} // verus!
