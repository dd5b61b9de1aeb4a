//! The order processor: the decision logic of every settlement
//! operation.
//!
//! Each operation validates its request against the current state,
//! then either commits its state change and answers with the
//! transfers to emit, or rejects with the first failing check's error
//! and leaves the state untouched. A companion `..._post` spec
//! predicate pins the whole behaviour of each operation; the
//! operation's `ensures` is exactly that predicate.

use vstd::prelude::*;

use crate::error::ContractError;
use crate::msg::{
    AuditRecord, Coin, Cw20HookMsg, Cw20ReceiveMsg, Env, ExecuteMsg, InstantiateMsg, MessageInfo,
    Order, QueryAnswer, QueryConfigResponse, QueryMsg, QueryOrderStatusResponse,
    QuerySupportCoinResponse, QuerySupportTokenResponse, Response, Transfer, spec_seconds,
};
use crate::state::{
    BridgeState, Config, SrcOrderStatus, read_config, read_dst_order_state, read_pause,
    read_src_order_state, read_support_coin_config, read_support_token_config, same_but_coin_registry,
    same_but_config, same_but_dst_ledger, same_but_pause, same_but_src_ledger,
    same_but_token_registry, src_status_code, store_config, store_dst_order_state, store_pause,
    store_src_order_state, store_support_coin_config, store_support_token_config,
};

verus! {

/// Numerator of the cross-chain fee cap.
pub const MAX_CROSS_FEE: u128 = 100_000;

/// Denominator of the cross-chain fee cap: together with
/// [`MAX_CROSS_FEE`] the cap is 5% of the order amount.
pub const DENOMINATOR: u128 = 2_000_000;

/// The privileged roles a mutating operation may demand.
#[derive(Clone, Copy, Debug, PartialEq, Eq, Structural)]
pub enum Role {
    Governor,
    Relayer,
    Custodian,
    RiskControl,
}

/// The identity registered for a role.
pub open spec fn role_holder(c: Config, role: Role) -> Seq<char> {
    match role {
        Role::Governor => c.governor@,
        Role::Relayer => c.relayer@,
        Role::Custodian => c.custodian@,
        Role::RiskControl => c.risk_control@,
    }
}

/// The error surfaced when a caller lacks a role.
pub open spec fn role_error(role: Role) -> ContractError {
    match role {
        Role::Governor => ContractError::Unauthorized,
        Role::Relayer => ContractError::UnauthorizedRelayer,
        Role::Custodian => ContractError::UnauthorizedCustodian,
        Role::RiskControl => ContractError::UnauthorizedRiskControl,
    }
}

/// The authorization gate: accept exactly the registered holder of
/// the role.
pub fn require_role(config: &Config, sender: &String, role: Role) -> (r: Result<
    (),
    ContractError,
>)
    ensures
        r == if sender@ == role_holder(*config, role) {
            Result::<(), ContractError>::Ok(())
        } else {
            Result::<(), ContractError>::Err(role_error(role))
        },
{
    let holder: &String = match role {
        Role::Governor => &config.governor,
        Role::Relayer => &config.relayer,
        Role::Custodian => &config.custodian,
        Role::RiskControl => &config.risk_control,
    };
    if *sender == *holder {
        Ok(())
    } else {
        Err(match role {
            Role::Governor => ContractError::Unauthorized,
            Role::Relayer => ContractError::UnauthorizedRelayer,
            Role::Custodian => ContractError::UnauthorizedCustodian,
            Role::RiskControl => ContractError::UnauthorizedRiskControl,
        })
    }
}

/// The pause gate: only new inbound locks consult it.
pub fn assert_not_pause(state: &BridgeState) -> (r: Result<(), ContractError>)
    ensures
        r == if state.spec_pause() == 1 {
            Result::<(), ContractError>::Err(ContractError::Paused)
        } else {
            Result::<(), ContractError>::Ok(())
        },
{
    let status = read_pause(state);
    if status == 1 {
        Err(ContractError::Paused)
    } else {
        Ok(())
    }
}

/// The relayer gate.
pub fn assert_relayer(state: &BridgeState, info: &MessageInfo) -> (r: Result<(), ContractError>)
    ensures
        r == if info.sender@ == state.spec_config().relayer@ {
            Result::<(), ContractError>::Ok(())
        } else {
            Result::<(), ContractError>::Err(ContractError::UnauthorizedRelayer)
        },
{
    require_role(read_config(state), &info.sender, Role::Relayer)
}

/// The custodian gate.
pub fn assert_custodian(state: &BridgeState, info: &MessageInfo) -> (r: Result<(), ContractError>)
    ensures
        r == if info.sender@ == state.spec_config().custodian@ {
            Result::<(), ContractError>::Ok(())
        } else {
            Result::<(), ContractError>::Err(ContractError::UnauthorizedCustodian)
        },
{
    require_role(read_config(state), &info.sender, Role::Custodian)
}

/// The risk-control gate.
pub fn assert_risk_control(state: &BridgeState, info: &MessageInfo) -> (r: Result<
    (),
    ContractError,
>)
    ensures
        r == if info.sender@ == state.spec_config().risk_control@ {
            Result::<(), ContractError>::Ok(())
        } else {
            Result::<(), ContractError>::Err(ContractError::UnauthorizedRiskControl)
        },
{
    require_role(read_config(state), &info.sender, Role::RiskControl)
}

/// The first attached coin of a denomination, if any.
pub open spec fn find_fund(funds: Seq<Coin>, denom: Seq<char>) -> Option<Coin>
    decreases funds.len(),
{
    if funds.len() == 0 {
        None
    } else if funds[0].denom@ == denom {
        Some(funds[0])
    } else {
        find_fund(funds.drop_first(), denom)
    }
}

/// Whether the declared amount matches the value actually attached
/// for the asset: zero attached value is valid only for a zero
/// amount.
pub open spec fn sent_coin_check(funds: Seq<Coin>, denom: Seq<char>, amount: u128) -> Result<
    (),
    ContractError,
> {
    match find_fund(funds, denom) {
        Some(c) => if amount == c.amount {
            Ok(())
        } else {
            Err(ContractError::AmountMismatchParams)
        },
        None => if amount == 0 {
            Ok(())
        } else {
            Err(ContractError::InvalidSendCoinMsg)
        },
    }
}

/// Check the attached value against the declared amount.
pub fn assert_sent_coin_balance(info: &MessageInfo, asset: &String, amount: u128) -> (r: Result<
    (),
    ContractError,
>)
    ensures
        r == sent_coin_check(info.funds@, asset@, amount),
{
    let n = info.funds.len();
    let mut i: usize = 0;
    proof {
        assert(info.funds@.skip(0) =~= info.funds@);
    }
    while i < n
        invariant
            n == info.funds@.len(),
            i <= n,
            find_fund(info.funds@, asset@) == find_fund(info.funds@.skip(i as int), asset@),
        decreases n - i,
    {
        if info.funds[i].denom == *asset {
            proof {
                assert(info.funds@.skip(i as int)[0] == info.funds@[i as int]);
            }
            if amount == info.funds[i].amount {
                return Ok(());
            } else {
                return Err(ContractError::AmountMismatchParams);
            }
        }
        proof {
            assert(info.funds@.skip(i as int)[0] == info.funds@[i as int]);
            assert(info.funds@.skip(i as int).drop_first() =~= info.funds@.skip(i as int + 1));
        }
        i += 1;
    }
    proof {
        assert(info.funds@.skip(n as int).len() == 0);
    }
    if amount == 0 {
        Ok(())
    } else {
        Err(ContractError::InvalidSendCoinMsg)
    }
}

/// Full behaviour of [`instantiate`]: the caller becomes governor,
/// the other roles come from the message, intake starts unpaused and
/// every book empty; no transfers are emitted.
pub open spec fn instantiate_post(
    info: MessageInfo,
    msg: InstantiateMsg,
    state: BridgeState,
    resp: Response,
) -> bool {
    &&& state.wf()
    &&& state.spec_config().governor == info.sender
    &&& state.spec_config().treasury == msg.treasury
    &&& state.spec_config().custodian == msg.custodian
    &&& state.spec_config().risk_control == msg.risk_control
    &&& state.spec_config().relayer == msg.relayer
    &&& state.spec_pause() == 0
    &&& state.token_registry() == Map::<Seq<char>, u128>::empty()
    &&& state.coin_registry() == Map::<Seq<char>, u128>::empty()
    &&& state.src_ledger() == Map::<u128, SrcOrderStatus>::empty()
    &&& state.dst_ledger() == Map::<u128, u128>::empty()
    &&& resp.audit == (AuditRecord::Instantiate {
        governor: info.sender,
        treasury: msg.treasury,
        custodian: msg.custodian,
        risk_control: msg.risk_control,
        relayer: msg.relayer,
    })
    &&& resp.transfers@ == Seq::<Transfer>::empty()
}

/// Create the bridge's state: the caller becomes governor.
pub fn instantiate(info: MessageInfo, msg: InstantiateMsg) -> (r: (BridgeState, Response))
    ensures
        instantiate_post(info, msg, r.0, r.1),
{
    let audit = AuditRecord::Instantiate {
        governor: info.sender.clone(),
        treasury: msg.treasury.clone(),
        custodian: msg.custodian.clone(),
        risk_control: msg.risk_control.clone(),
        relayer: msg.relayer.clone(),
    };
    let config = Config {
        governor: info.sender,
        treasury: msg.treasury,
        custodian: msg.custodian,
        risk_control: msg.risk_control,
        relayer: msg.relayer,
    };
    let state = BridgeState::init(config);
    (state, Response { audit, transfers: Vec::new() })
}

/// Full behaviour of [`change_governor`].
pub open spec fn change_governor_post(
    pre: BridgeState,
    post: BridgeState,
    info: MessageInfo,
    new_governor: String,
    r: Result<Response, ContractError>,
) -> bool {
    if info.sender@ != pre.spec_config().governor@ {
        &&& r == Result::<Response, ContractError>::Err(ContractError::Unauthorized)
        &&& post == pre
    } else {
        &&& post.spec_config().governor == new_governor
        &&& post.spec_config().treasury == pre.spec_config().treasury
        &&& post.spec_config().custodian == pre.spec_config().custodian
        &&& post.spec_config().risk_control == pre.spec_config().risk_control
        &&& post.spec_config().relayer == pre.spec_config().relayer
        &&& same_but_config(pre, post)
        &&& r matches Ok(resp) && resp.audit == (AuditRecord::ChangeGovernor {
            old_governor: pre.spec_config().governor,
            new_governor: new_governor,
        }) && resp.transfers@ == Seq::<Transfer>::empty()
    }
}

/// Replace the governor; only the current governor may.
pub fn change_governor(state: &mut BridgeState, info: MessageInfo, new_governor: String) -> (r:
    Result<Response, ContractError>)
    requires
        old(state).wf(),
    ensures
        final(state).wf(),
        change_governor_post(*old(state), *final(state), info, new_governor, r),
{
    let config = read_config(state);
    if let Err(e) = require_role(config, &info.sender, Role::Governor) {
        return Err(e);
    }
    let old_governor = config.governor.clone();
    let new_config = Config {
        governor: new_governor.clone(),
        treasury: config.treasury.clone(),
        custodian: config.custodian.clone(),
        risk_control: config.risk_control.clone(),
        relayer: config.relayer.clone(),
    };
    store_config(state, new_config);
    Ok(
        Response {
            audit: AuditRecord::ChangeGovernor { old_governor, new_governor },
            transfers: Vec::new(),
        },
    )
}

/// Full behaviour of [`change_treasury`].
pub open spec fn change_treasury_post(
    pre: BridgeState,
    post: BridgeState,
    info: MessageInfo,
    new_treasury: String,
    r: Result<Response, ContractError>,
) -> bool {
    if info.sender@ != pre.spec_config().governor@ {
        &&& r == Result::<Response, ContractError>::Err(ContractError::Unauthorized)
        &&& post == pre
    } else {
        &&& post.spec_config().treasury == new_treasury
        &&& post.spec_config().governor == pre.spec_config().governor
        &&& post.spec_config().custodian == pre.spec_config().custodian
        &&& post.spec_config().risk_control == pre.spec_config().risk_control
        &&& post.spec_config().relayer == pre.spec_config().relayer
        &&& same_but_config(pre, post)
        &&& r matches Ok(resp) && resp.audit == (AuditRecord::ChangeTreasury {
            new_treasury: new_treasury,
        }) && resp.transfers@ == Seq::<Transfer>::empty()
    }
}

/// Replace the treasury; only the governor may.
pub fn change_treasury(state: &mut BridgeState, info: MessageInfo, new_treasury: String) -> (r:
    Result<Response, ContractError>)
    requires
        old(state).wf(),
    ensures
        final(state).wf(),
        change_treasury_post(*old(state), *final(state), info, new_treasury, r),
{
    let config = read_config(state);
    if let Err(e) = require_role(config, &info.sender, Role::Governor) {
        return Err(e);
    }
    let new_config = Config {
        governor: config.governor.clone(),
        treasury: new_treasury.clone(),
        custodian: config.custodian.clone(),
        risk_control: config.risk_control.clone(),
        relayer: config.relayer.clone(),
    };
    store_config(state, new_config);
    Ok(
        Response {
            audit: AuditRecord::ChangeTreasury { new_treasury },
            transfers: Vec::new(),
        },
    )
}

/// Full behaviour of [`change_custodian`].
pub open spec fn change_custodian_post(
    pre: BridgeState,
    post: BridgeState,
    info: MessageInfo,
    new_custodian: String,
    r: Result<Response, ContractError>,
) -> bool {
    if info.sender@ != pre.spec_config().governor@ {
        &&& r == Result::<Response, ContractError>::Err(ContractError::Unauthorized)
        &&& post == pre
    } else {
        &&& post.spec_config().custodian == new_custodian
        &&& post.spec_config().governor == pre.spec_config().governor
        &&& post.spec_config().treasury == pre.spec_config().treasury
        &&& post.spec_config().risk_control == pre.spec_config().risk_control
        &&& post.spec_config().relayer == pre.spec_config().relayer
        &&& same_but_config(pre, post)
        &&& r matches Ok(resp) && resp.audit == (AuditRecord::ChangeCustodian {
            new_custodian: new_custodian,
        }) && resp.transfers@ == Seq::<Transfer>::empty()
    }
}

/// Replace the custodian; only the governor may.
pub fn change_custodian(state: &mut BridgeState, info: MessageInfo, new_custodian: String) -> (r:
    Result<Response, ContractError>)
    requires
        old(state).wf(),
    ensures
        final(state).wf(),
        change_custodian_post(*old(state), *final(state), info, new_custodian, r),
{
    let config = read_config(state);
    if let Err(e) = require_role(config, &info.sender, Role::Governor) {
        return Err(e);
    }
    let new_config = Config {
        governor: config.governor.clone(),
        treasury: config.treasury.clone(),
        custodian: new_custodian.clone(),
        risk_control: config.risk_control.clone(),
        relayer: config.relayer.clone(),
    };
    store_config(state, new_config);
    Ok(
        Response {
            audit: AuditRecord::ChangeCustodian { new_custodian },
            transfers: Vec::new(),
        },
    )
}

/// Full behaviour of [`change_risk_control`].
pub open spec fn change_risk_control_post(
    pre: BridgeState,
    post: BridgeState,
    info: MessageInfo,
    new_risk_control: String,
    r: Result<Response, ContractError>,
) -> bool {
    if info.sender@ != pre.spec_config().governor@ {
        &&& r == Result::<Response, ContractError>::Err(ContractError::Unauthorized)
        &&& post == pre
    } else {
        &&& post.spec_config().risk_control == new_risk_control
        &&& post.spec_config().governor == pre.spec_config().governor
        &&& post.spec_config().treasury == pre.spec_config().treasury
        &&& post.spec_config().custodian == pre.spec_config().custodian
        &&& post.spec_config().relayer == pre.spec_config().relayer
        &&& same_but_config(pre, post)
        &&& r matches Ok(resp) && resp.audit == (AuditRecord::ChangeRiskControl {
            new_risk_control: new_risk_control,
        }) && resp.transfers@ == Seq::<Transfer>::empty()
    }
}

/// Replace the risk-control account; only the governor may.
pub fn change_risk_control(
    state: &mut BridgeState,
    info: MessageInfo,
    new_risk_control: String,
) -> (r: Result<Response, ContractError>)
    requires
        old(state).wf(),
    ensures
        final(state).wf(),
        change_risk_control_post(*old(state), *final(state), info, new_risk_control, r),
{
    let config = read_config(state);
    if let Err(e) = require_role(config, &info.sender, Role::Governor) {
        return Err(e);
    }
    let new_config = Config {
        governor: config.governor.clone(),
        treasury: config.treasury.clone(),
        custodian: config.custodian.clone(),
        risk_control: new_risk_control.clone(),
        relayer: config.relayer.clone(),
    };
    store_config(state, new_config);
    Ok(
        Response {
            audit: AuditRecord::ChangeRiskControl { new_risk_control },
            transfers: Vec::new(),
        },
    )
}

/// Full behaviour of [`change_relayer`].
pub open spec fn change_relayer_post(
    pre: BridgeState,
    post: BridgeState,
    info: MessageInfo,
    new_relayer: String,
    r: Result<Response, ContractError>,
) -> bool {
    if info.sender@ != pre.spec_config().governor@ {
        &&& r == Result::<Response, ContractError>::Err(ContractError::Unauthorized)
        &&& post == pre
    } else {
        &&& post.spec_config().relayer == new_relayer
        &&& post.spec_config().governor == pre.spec_config().governor
        &&& post.spec_config().treasury == pre.spec_config().treasury
        &&& post.spec_config().custodian == pre.spec_config().custodian
        &&& post.spec_config().risk_control == pre.spec_config().risk_control
        &&& same_but_config(pre, post)
        &&& r matches Ok(resp) && resp.audit == (AuditRecord::ChangeRelayer {
            new_relayer: new_relayer,
        }) && resp.transfers@ == Seq::<Transfer>::empty()
    }
}

/// Replace the relayer; only the governor may.
pub fn change_relayer(state: &mut BridgeState, info: MessageInfo, new_relayer: String) -> (r:
    Result<Response, ContractError>)
    requires
        old(state).wf(),
    ensures
        final(state).wf(),
        change_relayer_post(*old(state), *final(state), info, new_relayer, r),
{
    let config = read_config(state);
    if let Err(e) = require_role(config, &info.sender, Role::Governor) {
        return Err(e);
    }
    let new_config = Config {
        governor: config.governor.clone(),
        treasury: config.treasury.clone(),
        custodian: config.custodian.clone(),
        risk_control: config.risk_control.clone(),
        relayer: new_relayer.clone(),
    };
    store_config(state, new_config);
    Ok(
        Response {
            audit: AuditRecord::ChangeRelayer { new_relayer },
            transfers: Vec::new(),
        },
    )
}

/// Full behaviour of [`set_support_coin`]: governor-only upsert of a
/// coin's floor.
pub open spec fn set_support_coin_post(
    pre: BridgeState,
    post: BridgeState,
    info: MessageInfo,
    asset: String,
    amount_min: u128,
    r: Result<Response, ContractError>,
) -> bool {
    if info.sender@ != pre.spec_config().governor@ {
        &&& r == Result::<Response, ContractError>::Err(ContractError::Unauthorized)
        &&& post == pre
    } else {
        &&& post.coin_registry() == pre.coin_registry().insert(asset@, amount_min)
        &&& same_but_coin_registry(pre, post)
        &&& r matches Ok(resp) && resp.audit == (AuditRecord::SetSupportCoin {
            asset: asset,
            amount_min: amount_min,
        }) && resp.transfers@ == Seq::<Transfer>::empty()
    }
}

/// Allow-list a coin denomination with its minimum amount.
pub fn set_support_coin(
    state: &mut BridgeState,
    info: MessageInfo,
    asset: String,
    amount_min: u128,
) -> (r: Result<Response, ContractError>)
    requires
        old(state).wf(),
    ensures
        final(state).wf(),
        set_support_coin_post(*old(state), *final(state), info, asset, amount_min, r),
{
    if let Err(e) = require_role(read_config(state), &info.sender, Role::Governor) {
        return Err(e);
    }
    store_support_coin_config(state, &asset, amount_min);
    Ok(
        Response {
            audit: AuditRecord::SetSupportCoin { asset, amount_min },
            transfers: Vec::new(),
        },
    )
}

/// Full behaviour of [`set_support_token`]: governor-only upsert of a
/// token's floor.
pub open spec fn set_support_token_post(
    pre: BridgeState,
    post: BridgeState,
    info: MessageInfo,
    asset: String,
    amount_min: u128,
    r: Result<Response, ContractError>,
) -> bool {
    if info.sender@ != pre.spec_config().governor@ {
        &&& r == Result::<Response, ContractError>::Err(ContractError::Unauthorized)
        &&& post == pre
    } else {
        &&& post.token_registry() == pre.token_registry().insert(asset@, amount_min)
        &&& same_but_token_registry(pre, post)
        &&& r matches Ok(resp) && resp.audit == (AuditRecord::SetSupportToken {
            asset: asset,
            amount_min: amount_min,
        }) && resp.transfers@ == Seq::<Transfer>::empty()
    }
}

/// Allow-list a token contract with its minimum amount.
pub fn set_support_token(
    state: &mut BridgeState,
    info: MessageInfo,
    asset: String,
    amount_min: u128,
) -> (r: Result<Response, ContractError>)
    requires
        old(state).wf(),
    ensures
        final(state).wf(),
        set_support_token_post(*old(state), *final(state), info, asset, amount_min, r),
{
    if let Err(e) = require_role(read_config(state), &info.sender, Role::Governor) {
        return Err(e);
    }
    store_support_token_config(state, &asset, amount_min);
    Ok(
        Response {
            audit: AuditRecord::SetSupportToken { asset, amount_min },
            transfers: Vec::new(),
        },
    )
}

/// Full behaviour of [`set_pause_state`]: governor-only overwrite of
/// the pause flag.
pub open spec fn set_pause_state_post(
    pre: BridgeState,
    post: BridgeState,
    info: MessageInfo,
    pause: u128,
    r: Result<Response, ContractError>,
) -> bool {
    if info.sender@ != pre.spec_config().governor@ {
        &&& r == Result::<Response, ContractError>::Err(ContractError::Unauthorized)
        &&& post == pre
    } else {
        &&& post.spec_pause() == pause
        &&& same_but_pause(pre, post)
        &&& r matches Ok(resp) && resp.audit == (AuditRecord::SetPauseState { state: pause })
            && resp.transfers@ == Seq::<Transfer>::empty()
    }
}

/// Pause (1) or resume (any other value) new inbound locks.
pub fn set_pause_state(state: &mut BridgeState, info: MessageInfo, pause: u128) -> (r: Result<
    Response,
    ContractError,
>)
    requires
        old(state).wf(),
    ensures
        final(state).wf(),
        set_pause_state_post(*old(state), *final(state), info, pause, r),
{
    if let Err(e) = require_role(read_config(state), &info.sender, Role::Governor) {
        return Err(e);
    }
    store_pause(state, pause);
    Ok(
        Response {
            audit: AuditRecord::SetPauseState { state: pause },
            transfers: Vec::new(),
        },
    )
}

/// Whether computing the fee cap would overflow 128 bits.
pub open spec fn fee_mul_overflows(amount: u128) -> bool {
    amount * MAX_CROSS_FEE > u128::MAX
}

/// The largest admissible cross-chain fee: 5% of the order amount,
/// rounded down.
pub open spec fn max_fee_cap(amount: u128) -> int {
    amount * MAX_CROSS_FEE / (DENOMINATOR as int)
}

/// The total fee a lock collects.
pub open spec fn lock_fee(order: Order) -> u128 {
    (order.gas_fee + order.cross_chain_fee) as u128
}

/// The checks shared by both lock paths, in order: first failing
/// check wins. The last three guard the arithmetic the operation
/// performs; their failure is fatal, not a business rejection.
pub open spec fn lock_check(
    src: Map<u128, SrcOrderStatus>,
    registry: Map<Seq<char>, u128>,
    order: Order,
    now_seconds: int,
    balance: u128,
) -> Result<(), ContractError> {
    if src.contains_key(order.order_id) {
        Err(ContractError::SrcOrderAlreadyExist)
    } else if !registry.contains_key(order.asset@) {
        Err(ContractError::NotSupportToken)
    } else if order.amount < registry[order.asset@] {
        Err(ContractError::LessThenAmountMin)
    } else if fee_mul_overflows(order.amount) {
        Err(ContractError::ArithmeticInvariantViolation)
    } else if order.cross_chain_fee > max_fee_cap(order.amount) {
        Err(ContractError::ExceedMaxCrossChainFee)
    } else if now_seconds > order.deadline {
        Err(ContractError::ExceedDeadline)
    } else if order.gas_fee + order.cross_chain_fee > u128::MAX {
        Err(ContractError::ArithmeticInvariantViolation)
    } else if order.amount > balance {
        Err(ContractError::ArithmeticInvariantViolation)
    } else if order.gas_fee + order.cross_chain_fee > balance {
        Err(ContractError::ArithmeticInvariantViolation)
    } else {
        Ok(())
    }
}

/// The full guard of the coin lock: pause gate, attached-value check,
/// then the shared lock checks against the coin registry.
pub open spec fn coin_lock_guard(
    pre: BridgeState,
    env: Env,
    info: MessageInfo,
    balance: u128,
    order: Order,
) -> Result<(), ContractError> {
    if pre.spec_pause() == 1 {
        Err(ContractError::Paused)
    } else {
        match sent_coin_check(info.funds@, order.asset@, order.amount) {
            Err(e) => Err(e),
            Ok(()) => lock_check(
                pre.src_ledger(),
                pre.coin_registry(),
                order,
                spec_seconds(env),
                balance,
            ),
        }
    }
}

/// Full behaviour of [`cross_chain_coin`]: on success the source
/// order becomes Completed and the collected fee goes to the relayer.
pub open spec fn cross_chain_coin_post(
    pre: BridgeState,
    post: BridgeState,
    env: Env,
    info: MessageInfo,
    balance: u128,
    order: Order,
    r: Result<Response, ContractError>,
) -> bool {
    match coin_lock_guard(pre, env, info, balance, order) {
        Err(e) => r == Result::<Response, ContractError>::Err(e) && post == pre,
        Ok(()) => {
            let fee = lock_fee(order);
            &&& post.src_ledger() == pre.src_ledger().insert(
                order.order_id,
                SrcOrderStatus::Completed,
            )
            &&& same_but_src_ledger(pre, post)
            &&& r matches Ok(resp) && resp.audit == (AuditRecord::CrossChainCoin {
                order_id: order.order_id,
                asset: order.asset,
                from: order.from,
                to: order.to,
                amount: order.amount,
                fee: fee,
                rewards: order.rewards,
                src_chain_id: order.src_chain_id,
                dst_chain_id: order.dst_chain_id,
                channel: order.channel,
                balance_before: (balance - order.amount) as u128,
                balance_after: (balance - fee) as u128,
            }) && resp.transfers@ == seq![
                Transfer::BankSend {
                    to_address: pre.spec_config().relayer,
                    denom: order.asset,
                    amount: fee,
                },
            ]
        },
    }
}

/// Lock an inbound native-coin transfer on the source ledger.
///
/// `balance` is the custodial balance of the order's asset, read
/// before this call's own transfers apply.
pub fn cross_chain_coin(
    state: &mut BridgeState,
    env: Env,
    info: MessageInfo,
    balance: u128,
    order: Order,
) -> (r: Result<Response, ContractError>)
    requires
        old(state).wf(),
    ensures
        final(state).wf(),
        cross_chain_coin_post(*old(state), *final(state), env, info, balance, order, r),
{
    if let Err(e) = assert_not_pause(state) {
        return Err(e);
    }
    if let Err(e) = assert_sent_coin_balance(&info, &order.asset, order.amount) {
        return Err(e);
    }
    let amount_min_op = read_support_coin_config(state, &order.asset);
    if read_src_order_state(state, order.order_id).is_some() {
        return Err(ContractError::SrcOrderAlreadyExist);
    }
    let amount_min = match amount_min_op {
        None => { return Err(ContractError::NotSupportToken) },
        Some(m) => m,
    };
    if order.amount < amount_min {
        return Err(ContractError::LessThenAmountMin);
    }
    let cap = match order.amount.checked_mul(MAX_CROSS_FEE) {
        None => { return Err(ContractError::ArithmeticInvariantViolation) },
        Some(scaled) => scaled / DENOMINATOR,
    };
    if order.cross_chain_fee > cap {
        return Err(ContractError::ExceedMaxCrossChainFee);
    }
    if env.seconds() > order.deadline {
        return Err(ContractError::ExceedDeadline);
    }
    let fee = match order.gas_fee.checked_add(order.cross_chain_fee) {
        None => { return Err(ContractError::ArithmeticInvariantViolation) },
        Some(f) => f,
    };
    let balance_before = match balance.checked_sub(order.amount) {
        None => { return Err(ContractError::ArithmeticInvariantViolation) },
        Some(b) => b,
    };
    let balance_after = match balance.checked_sub(fee) {
        None => { return Err(ContractError::ArithmeticInvariantViolation) },
        Some(b) => b,
    };
    store_src_order_state(state, order.order_id, SrcOrderStatus::Completed);
    let relayer = read_config(state).relayer.clone();
    let mut transfers: Vec<Transfer> = Vec::new();
    transfers.push(
        Transfer::BankSend { to_address: relayer, denom: order.asset.clone(), amount: fee },
    );
    let audit = AuditRecord::CrossChainCoin {
        order_id: order.order_id,
        asset: order.asset,
        from: order.from,
        to: order.to,
        amount: order.amount,
        fee,
        rewards: order.rewards,
        src_chain_id: order.src_chain_id,
        dst_chain_id: order.dst_chain_id,
        channel: order.channel,
        balance_before,
        balance_after,
    };
    Ok(Response { audit, transfers })
}

/// The full guard of the token lock: the shared lock checks against
/// the token registry. The token path is push-triggered by the token
/// contract, so it has no pause gate and no attached-value check.
pub open spec fn token_lock_guard(
    pre: BridgeState,
    env: Env,
    balance: u128,
    order: Order,
) -> Result<(), ContractError> {
    lock_check(pre.src_ledger(), pre.token_registry(), order, spec_seconds(env), balance)
}

/// Full behaviour of [`cross_chain_token`]: on success the source
/// order becomes Completed and the collected fee goes to the
/// treasury through the token contract.
pub open spec fn cross_chain_token_post(
    pre: BridgeState,
    post: BridgeState,
    env: Env,
    balance: u128,
    order: Order,
    r: Result<Response, ContractError>,
) -> bool {
    match token_lock_guard(pre, env, balance, order) {
        Err(e) => r == Result::<Response, ContractError>::Err(e) && post == pre,
        Ok(()) => {
            let fee = lock_fee(order);
            &&& post.src_ledger() == pre.src_ledger().insert(
                order.order_id,
                SrcOrderStatus::Completed,
            )
            &&& same_but_src_ledger(pre, post)
            &&& r matches Ok(resp) && resp.audit == (AuditRecord::CrossChainToken {
                order_id: order.order_id,
                asset: order.asset,
                from: order.from,
                to: order.to,
                amount: order.amount,
                fee: fee,
                rewards: order.rewards,
                src_chain_id: order.src_chain_id,
                dst_chain_id: order.dst_chain_id,
                channel: order.channel,
                balance_before: (balance - order.amount) as u128,
                balance_after: (balance - fee) as u128,
            }) && resp.transfers@ == seq![
                Transfer::TokenTransfer {
                    contract_addr: order.asset,
                    recipient: pre.spec_config().treasury,
                    amount: fee,
                },
            ]
        },
    }
}

/// Lock an inbound token transfer on the source ledger.
///
/// `balance` is the custodial balance of the token, read before this
/// call's own transfers apply.
pub fn cross_chain_token(state: &mut BridgeState, env: Env, balance: u128, order: Order) -> (r:
    Result<Response, ContractError>)
    requires
        old(state).wf(),
    ensures
        final(state).wf(),
        cross_chain_token_post(*old(state), *final(state), env, balance, order, r),
{
    let amount_min_op = read_support_token_config(state, &order.asset);
    if read_src_order_state(state, order.order_id).is_some() {
        return Err(ContractError::SrcOrderAlreadyExist);
    }
    let amount_min = match amount_min_op {
        None => { return Err(ContractError::NotSupportToken) },
        Some(m) => m,
    };
    if order.amount < amount_min {
        return Err(ContractError::LessThenAmountMin);
    }
    let cap = match order.amount.checked_mul(MAX_CROSS_FEE) {
        None => { return Err(ContractError::ArithmeticInvariantViolation) },
        Some(scaled) => scaled / DENOMINATOR,
    };
    if order.cross_chain_fee > cap {
        return Err(ContractError::ExceedMaxCrossChainFee);
    }
    if env.seconds() > order.deadline {
        return Err(ContractError::ExceedDeadline);
    }
    let fee = match order.gas_fee.checked_add(order.cross_chain_fee) {
        None => { return Err(ContractError::ArithmeticInvariantViolation) },
        Some(f) => f,
    };
    let balance_before = match balance.checked_sub(order.amount) {
        None => { return Err(ContractError::ArithmeticInvariantViolation) },
        Some(b) => b,
    };
    let balance_after = match balance.checked_sub(fee) {
        None => { return Err(ContractError::ArithmeticInvariantViolation) },
        Some(b) => b,
    };
    store_src_order_state(state, order.order_id, SrcOrderStatus::Completed);
    let treasury = read_config(state).treasury.clone();
    let mut transfers: Vec<Transfer> = Vec::new();
    transfers.push(
        Transfer::TokenTransfer {
            contract_addr: order.asset.clone(),
            recipient: treasury,
            amount: fee,
        },
    );
    let audit = AuditRecord::CrossChainToken {
        order_id: order.order_id,
        asset: order.asset,
        from: order.from,
        to: order.to,
        amount: order.amount,
        fee,
        rewards: order.rewards,
        src_chain_id: order.src_chain_id,
        dst_chain_id: order.dst_chain_id,
        channel: order.channel,
        balance_before,
        balance_after,
    };
    Ok(Response { audit, transfers })
}

/// Full behaviour of [`receive_cw20`]: a readable hook payload runs
/// the token lock on the order it describes; anything else is
/// rejected.
pub open spec fn receive_cw20_post(
    pre: BridgeState,
    post: BridgeState,
    env: Env,
    info: MessageInfo,
    balance: u128,
    cw20_msg: Cw20ReceiveMsg,
    r: Result<Response, ContractError>,
) -> bool {
    match cw20_msg.msg {
        Some(hook) => match hook {
            Cw20HookMsg::CrossChainToken {
                order_id,
                to,
                gas_fee,
                cross_chain_fee,
                rewards,
                src_chain_id,
                dst_chain_id,
                deadline,
                channel,
            } => cross_chain_token_post(
                pre,
                post,
                env,
                balance,
                Order {
                    order_id,
                    asset: info.sender,
                    from: cw20_msg.sender,
                    to,
                    amount: cw20_msg.amount,
                    gas_fee,
                    cross_chain_fee,
                    rewards,
                    src_chain_id,
                    dst_chain_id,
                    deadline,
                    channel,
                },
                r,
            ),
        },
        None => r == Result::<Response, ContractError>::Err(ContractError::InvalidCw20Msg) && post
            == pre,
    }
}

/// Handle a token-transfer notification: the token contract is the
/// caller, and the amount is the amount actually received.
pub fn receive_cw20(
    state: &mut BridgeState,
    env: Env,
    info: MessageInfo,
    balance: u128,
    cw20_msg: Cw20ReceiveMsg,
) -> (r: Result<Response, ContractError>)
    requires
        old(state).wf(),
    ensures
        final(state).wf(),
        receive_cw20_post(*old(state), *final(state), env, info, balance, cw20_msg, r),
{
    match cw20_msg.msg {
        Some(
            Cw20HookMsg::CrossChainToken {
                order_id,
                to,
                gas_fee,
                cross_chain_fee,
                rewards,
                src_chain_id,
                dst_chain_id,
                deadline,
                channel,
            },
        ) => {
            let order = Order {
                order_id,
                asset: info.sender,
                from: cw20_msg.sender,
                to,
                amount: cw20_msg.amount,
                gas_fee,
                cross_chain_fee,
                rewards,
                src_chain_id,
                dst_chain_id,
                deadline,
                channel,
            };
            cross_chain_token(state, env, balance, order)
        },
        None => Err(ContractError::InvalidCw20Msg),
    }
}

/// The checks shared by both refund paths, in order: relayer-only,
/// the source order must exist and still be Completed, and the two
/// subtractions must not underflow.
pub open spec fn refund_guard(
    pre: BridgeState,
    sender: Seq<char>,
    order_id: u128,
    amount: u128,
    gas_fee: u128,
    balance: u128,
) -> Result<(), ContractError> {
    if sender != pre.spec_config().relayer@ {
        Err(ContractError::UnauthorizedRelayer)
    } else if !pre.src_ledger().contains_key(order_id) {
        Err(ContractError::SrcOrderNotExist)
    } else if pre.src_ledger()[order_id] != SrcOrderStatus::Completed {
        Err(ContractError::SrcOrderNotSuccess)
    } else if gas_fee > amount {
        Err(ContractError::ArithmeticInvariantViolation)
    } else if amount - gas_fee > balance {
        Err(ContractError::ArithmeticInvariantViolation)
    } else {
        Ok(())
    }
}

/// Full behaviour of [`refund_coin`]: on success the source order
/// becomes Refunded and the amount minus the gas fee returns to the
/// original sender.
pub open spec fn refund_coin_post(
    pre: BridgeState,
    post: BridgeState,
    info: MessageInfo,
    balance: u128,
    order_id: u128,
    asset: String,
    from: String,
    amount: u128,
    gas_fee: u128,
    r: Result<Response, ContractError>,
) -> bool {
    match refund_guard(pre, info.sender@, order_id, amount, gas_fee, balance) {
        Err(e) => r == Result::<Response, ContractError>::Err(e) && post == pre,
        Ok(()) => {
            let net = (amount - gas_fee) as u128;
            &&& post.src_ledger() == pre.src_ledger().insert(order_id, SrcOrderStatus::Refunded)
            &&& same_but_src_ledger(pre, post)
            &&& r matches Ok(resp) && resp.audit == (AuditRecord::RefundCoin {
                order_id: order_id,
                asset: asset,
                from: from,
                amount: amount,
                gas_fee: gas_fee,
                balance_before: balance,
                balance_after: (balance - net) as u128,
            }) && resp.transfers@ == seq![
                Transfer::BankSend { to_address: from, denom: asset, amount: net },
            ]
        },
    }
}

/// Refund a locked coin order to its original sender, minus the gas
/// fee.
pub fn refund_coin(
    state: &mut BridgeState,
    info: MessageInfo,
    balance: u128,
    order_id: u128,
    asset: String,
    from: String,
    amount: u128,
    gas_fee: u128,
) -> (r: Result<Response, ContractError>)
    requires
        old(state).wf(),
    ensures
        final(state).wf(),
        refund_coin_post(
            *old(state),
            *final(state),
            info,
            balance,
            order_id,
            asset,
            from,
            amount,
            gas_fee,
            r,
        ),
{
    if let Err(e) = assert_relayer(state, &info) {
        return Err(e);
    }
    match read_src_order_state(state, order_id) {
        None => { return Err(ContractError::SrcOrderNotExist) },
        Some(status) => {
            if status.code() != 1 {
                return Err(ContractError::SrcOrderNotSuccess);
            }
        },
    }
    let net = match amount.checked_sub(gas_fee) {
        None => { return Err(ContractError::ArithmeticInvariantViolation) },
        Some(v) => v,
    };
    let balance_after = match balance.checked_sub(net) {
        None => { return Err(ContractError::ArithmeticInvariantViolation) },
        Some(b) => b,
    };
    store_src_order_state(state, order_id, SrcOrderStatus::Refunded);
    let mut transfers: Vec<Transfer> = Vec::new();
    transfers.push(
        Transfer::BankSend { to_address: from.clone(), denom: asset.clone(), amount: net },
    );
    let audit = AuditRecord::RefundCoin {
        order_id,
        asset,
        from,
        amount,
        gas_fee,
        balance_before: balance,
        balance_after,
    };
    Ok(Response { audit, transfers })
}

/// Full behaviour of [`refund_token`]: as the coin refund, but the
/// return travels through the token contract.
pub open spec fn refund_token_post(
    pre: BridgeState,
    post: BridgeState,
    info: MessageInfo,
    balance: u128,
    order_id: u128,
    asset: String,
    from: String,
    amount: u128,
    gas_fee: u128,
    r: Result<Response, ContractError>,
) -> bool {
    match refund_guard(pre, info.sender@, order_id, amount, gas_fee, balance) {
        Err(e) => r == Result::<Response, ContractError>::Err(e) && post == pre,
        Ok(()) => {
            let net = (amount - gas_fee) as u128;
            &&& post.src_ledger() == pre.src_ledger().insert(order_id, SrcOrderStatus::Refunded)
            &&& same_but_src_ledger(pre, post)
            &&& r matches Ok(resp) && resp.audit == (AuditRecord::RefundToken {
                order_id: order_id,
                asset: asset,
                from: from,
                amount: amount,
                gas_fee: gas_fee,
                balance_before: balance,
                balance_after: (balance - net) as u128,
            }) && resp.transfers@ == seq![
                Transfer::TokenTransfer { contract_addr: asset, recipient: from, amount: net },
            ]
        },
    }
}

/// Refund a locked token order to its original sender, minus the gas
/// fee.
pub fn refund_token(
    state: &mut BridgeState,
    info: MessageInfo,
    balance: u128,
    order_id: u128,
    asset: String,
    from: String,
    amount: u128,
    gas_fee: u128,
) -> (r: Result<Response, ContractError>)
    requires
        old(state).wf(),
    ensures
        final(state).wf(),
        refund_token_post(
            *old(state),
            *final(state),
            info,
            balance,
            order_id,
            asset,
            from,
            amount,
            gas_fee,
            r,
        ),
{
    if let Err(e) = assert_relayer(state, &info) {
        return Err(e);
    }
    match read_src_order_state(state, order_id) {
        None => { return Err(ContractError::SrcOrderNotExist) },
        Some(status) => {
            if status.code() != 1 {
                return Err(ContractError::SrcOrderNotSuccess);
            }
        },
    }
    let net = match amount.checked_sub(gas_fee) {
        None => { return Err(ContractError::ArithmeticInvariantViolation) },
        Some(v) => v,
    };
    let balance_after = match balance.checked_sub(net) {
        None => { return Err(ContractError::ArithmeticInvariantViolation) },
        Some(b) => b,
    };
    store_src_order_state(state, order_id, SrcOrderStatus::Refunded);
    let mut transfers: Vec<Transfer> = Vec::new();
    transfers.push(
        Transfer::TokenTransfer {
            contract_addr: asset.clone(),
            recipient: from.clone(),
            amount: net,
        },
    );
    let audit = AuditRecord::RefundToken {
        order_id,
        asset,
        from,
        amount,
        gas_fee,
        balance_before: balance,
        balance_after,
    };
    Ok(Response { audit, transfers })
}

/// The amount a coin confirmation pays out: the principal, plus the
/// rewards when there are any.
pub open spec fn coin_confirm_payout(amount: u128, rewards: u128) -> u128 {
    if rewards == 0 {
        amount
    } else {
        (amount + rewards) as u128
    }
}

/// The guard of the coin confirmation, in order: the rewards must be
/// attached as actual value, relayer-only, the destination order must
/// be fresh, and the payout arithmetic must stay in bounds.
pub open spec fn coin_confirm_guard(
    pre: BridgeState,
    info: MessageInfo,
    order_id: u128,
    asset: Seq<char>,
    amount: u128,
    rewards: u128,
    balance: u128,
) -> Result<(), ContractError> {
    match sent_coin_check(info.funds@, asset, rewards) {
        Err(e) => Err(e),
        Ok(()) => if info.sender@ != pre.spec_config().relayer@ {
            Err(ContractError::UnauthorizedRelayer)
        } else if pre.dst_ledger().contains_key(order_id) {
            Err(ContractError::DstOrderAlreadyExist)
        } else if rewards > balance {
            Err(ContractError::ArithmeticInvariantViolation)
        } else if rewards != 0 && amount + rewards > u128::MAX {
            Err(ContractError::ArithmeticInvariantViolation)
        } else if coin_confirm_payout(amount, rewards) > balance {
            Err(ContractError::ArithmeticInvariantViolation)
        } else {
            Ok(())
        },
    }
}

/// Full behaviour of [`cross_chain_coin_confirm`]: on success the
/// destination order records the settlement instant and the recipient
/// receives the principal plus any rewards.
pub open spec fn cross_chain_coin_confirm_post(
    pre: BridgeState,
    post: BridgeState,
    env: Env,
    info: MessageInfo,
    balance: u128,
    order_id: u128,
    asset: String,
    to: String,
    amount: u128,
    rewards: u128,
    r: Result<Response, ContractError>,
) -> bool {
    match coin_confirm_guard(pre, info, order_id, asset@, amount, rewards, balance) {
        Err(e) => r == Result::<Response, ContractError>::Err(e) && post == pre,
        Ok(()) => {
            let payout = coin_confirm_payout(amount, rewards);
            &&& post.dst_ledger() == pre.dst_ledger().insert(order_id, env.time_nanos as u128)
            &&& same_but_dst_ledger(pre, post)
            &&& r matches Ok(resp) && resp.audit == (AuditRecord::CrossChainCoinConfirm {
                order_id: order_id,
                asset: asset,
                to: to,
                amount: amount,
                rewards: rewards,
                balance_before: (balance - rewards) as u128,
                balance_after: (balance - payout) as u128,
            }) && resp.transfers@ == seq![
                Transfer::BankSend { to_address: to, denom: asset, amount: payout },
            ]
        },
    }
}

/// Release a confirmed order's funds to the recipient on this chain
/// (native-coin variant).
pub fn cross_chain_coin_confirm(
    state: &mut BridgeState,
    env: Env,
    info: MessageInfo,
    balance: u128,
    order_id: u128,
    asset: String,
    to: String,
    amount: u128,
    rewards: u128,
) -> (r: Result<Response, ContractError>)
    requires
        old(state).wf(),
    ensures
        final(state).wf(),
        cross_chain_coin_confirm_post(
            *old(state),
            *final(state),
            env,
            info,
            balance,
            order_id,
            asset,
            to,
            amount,
            rewards,
            r,
        ),
{
    if let Err(e) = assert_sent_coin_balance(&info, &asset, rewards) {
        return Err(e);
    }
    if let Err(e) = assert_relayer(state, &info) {
        return Err(e);
    }
    if read_dst_order_state(state, order_id).is_some() {
        return Err(ContractError::DstOrderAlreadyExist);
    }
    let balance_before = match balance.checked_sub(rewards) {
        None => { return Err(ContractError::ArithmeticInvariantViolation) },
        Some(b) => b,
    };
    let payout = if rewards != 0 {
        match amount.checked_add(rewards) {
            None => { return Err(ContractError::ArithmeticInvariantViolation) },
            Some(p) => p,
        }
    } else {
        amount
    };
    let balance_after = match balance.checked_sub(payout) {
        None => { return Err(ContractError::ArithmeticInvariantViolation) },
        Some(b) => b,
    };
    store_dst_order_state(state, order_id, env.time_nanos as u128);
    let mut transfers: Vec<Transfer> = Vec::new();
    transfers.push(
        Transfer::BankSend { to_address: to.clone(), denom: asset.clone(), amount: payout },
    );
    let audit = AuditRecord::CrossChainCoinConfirm {
        order_id,
        asset,
        to,
        amount,
        rewards,
        balance_before,
        balance_after,
    };
    Ok(Response { audit, transfers })
}

/// The guard of the token confirmation, in order: relayer-only, the
/// destination order must be fresh, and the principal must not
/// exceed the custodial balance read for auditing.
pub open spec fn token_confirm_guard(
    pre: BridgeState,
    sender: Seq<char>,
    order_id: u128,
    amount: u128,
    balance: u128,
) -> Result<(), ContractError> {
    if sender != pre.spec_config().relayer@ {
        Err(ContractError::UnauthorizedRelayer)
    } else if pre.dst_ledger().contains_key(order_id) {
        Err(ContractError::DstOrderAlreadyExist)
    } else if amount > balance {
        Err(ContractError::ArithmeticInvariantViolation)
    } else {
        Ok(())
    }
}

/// Full behaviour of [`cross_chain_token_confirm`]: on success the
/// destination order records the settlement instant, the recipient
/// receives the principal from the custodial balance, and any rewards
/// travel separately out of the treasury's pre-approved allowance.
pub open spec fn cross_chain_token_confirm_post(
    pre: BridgeState,
    post: BridgeState,
    env: Env,
    info: MessageInfo,
    balance: u128,
    order_id: u128,
    asset: String,
    to: String,
    amount: u128,
    rewards: u128,
    r: Result<Response, ContractError>,
) -> bool {
    match token_confirm_guard(pre, info.sender@, order_id, amount, balance) {
        Err(e) => r == Result::<Response, ContractError>::Err(e) && post == pre,
        Ok(()) => {
            let principal = Transfer::TokenTransfer {
                contract_addr: asset,
                recipient: to,
                amount: amount,
            };
            let commission = Transfer::TokenTransferFrom {
                contract_addr: asset,
                owner: pre.spec_config().treasury,
                recipient: to,
                amount: rewards,
            };
            &&& post.dst_ledger() == pre.dst_ledger().insert(order_id, env.time_nanos as u128)
            &&& same_but_dst_ledger(pre, post)
            &&& r matches Ok(resp) && resp.audit == (AuditRecord::CrossChainTokenConfirm {
                order_id: order_id,
                asset: asset,
                to: to,
                amount: amount,
                rewards: rewards,
                balance_before: balance,
                balance_after: (balance - amount) as u128,
            }) && resp.transfers@ == if rewards == 0 {
                seq![principal]
            } else {
                seq![principal, commission]
            }
        },
    }
}

/// Release a confirmed order's funds to the recipient on this chain
/// (token variant).
pub fn cross_chain_token_confirm(
    state: &mut BridgeState,
    env: Env,
    info: MessageInfo,
    balance: u128,
    order_id: u128,
    asset: String,
    to: String,
    amount: u128,
    rewards: u128,
) -> (r: Result<Response, ContractError>)
    requires
        old(state).wf(),
    ensures
        final(state).wf(),
        cross_chain_token_confirm_post(
            *old(state),
            *final(state),
            env,
            info,
            balance,
            order_id,
            asset,
            to,
            amount,
            rewards,
            r,
        ),
{
    if let Err(e) = assert_relayer(state, &info) {
        return Err(e);
    }
    if read_dst_order_state(state, order_id).is_some() {
        return Err(ContractError::DstOrderAlreadyExist);
    }
    let balance_after = match balance.checked_sub(amount) {
        None => { return Err(ContractError::ArithmeticInvariantViolation) },
        Some(b) => b,
    };
    store_dst_order_state(state, order_id, env.time_nanos as u128);
    let treasury = read_config(state).treasury.clone();
    let ghost spec_principal = Transfer::TokenTransfer {
        contract_addr: asset,
        recipient: to,
        amount: amount,
    };
    let ghost spec_commission = Transfer::TokenTransferFrom {
        contract_addr: asset,
        owner: old(state).spec_config().treasury,
        recipient: to,
        amount: rewards,
    };
    let mut transfers: Vec<Transfer> = Vec::new();
    transfers.push(
        Transfer::TokenTransfer {
            contract_addr: asset.clone(),
            recipient: to.clone(),
            amount,
        },
    );
    if rewards != 0 {
        transfers.push(
            Transfer::TokenTransferFrom {
                contract_addr: asset.clone(),
                owner: treasury,
                recipient: to.clone(),
                amount: rewards,
            },
        );
    }
    proof {
        if rewards != 0 {
            assert(transfers@ =~= seq![spec_principal, spec_commission]);
        } else {
            assert(transfers@ =~= seq![spec_principal]);
        }
    }
    let audit = AuditRecord::CrossChainTokenConfirm {
        order_id,
        asset,
        to,
        amount,
        rewards,
        balance_before: balance,
        balance_after,
    };
    Ok(Response { audit, transfers })
}

/// The guard shared by all withdrawals: the demanded role, then the
/// balance check — a withdrawal never exceeds the custodial balance.
pub open spec fn withdrawal_guard(
    pre: BridgeState,
    sender: Seq<char>,
    role: Role,
    amount: u128,
    balance: u128,
) -> Result<(), ContractError> {
    if sender != role_holder(pre.spec_config(), role) {
        Err(role_error(role))
    } else if amount > balance {
        Err(ContractError::NotEnoughBalance)
    } else {
        Ok(())
    }
}

/// Full behaviour of [`withdrawal_coin`]: custodian-only; the state
/// never changes; on success the caller receives exactly the
/// requested amount.
pub open spec fn withdrawal_coin_post(
    pre: BridgeState,
    post: BridgeState,
    info: MessageInfo,
    balance: u128,
    asset: String,
    amount: u128,
    r: Result<Response, ContractError>,
) -> bool {
    &&& post == pre
    &&& match withdrawal_guard(pre, info.sender@, Role::Custodian, amount, balance) {
        Err(e) => r == Result::<Response, ContractError>::Err(e),
        Ok(()) => r matches Ok(resp) && resp.audit == (AuditRecord::WithdrawalCoin {
            asset: asset,
            amount: amount,
            balance_before: balance,
            balance_after: (balance - amount) as u128,
        }) && resp.transfers@ == seq![
            Transfer::BankSend { to_address: info.sender, denom: asset, amount: amount },
        ],
    }
}

/// Withdraw native coins from the custodial balance (custodian).
pub fn withdrawal_coin(
    state: &mut BridgeState,
    info: MessageInfo,
    balance: u128,
    asset: String,
    amount: u128,
) -> (r: Result<Response, ContractError>)
    requires
        old(state).wf(),
    ensures
        final(state).wf(),
        withdrawal_coin_post(*old(state), *final(state), info, balance, asset, amount, r),
{
    if let Err(e) = assert_custodian(state, &info) {
        return Err(e);
    }
    if amount > balance {
        return Err(ContractError::NotEnoughBalance);
    }
    let balance_after = balance - amount;
    let mut transfers: Vec<Transfer> = Vec::new();
    transfers.push(
        Transfer::BankSend { to_address: info.sender, denom: asset.clone(), amount },
    );
    let audit = AuditRecord::WithdrawalCoin {
        asset,
        amount,
        balance_before: balance,
        balance_after,
    };
    Ok(Response { audit, transfers })
}

/// Full behaviour of [`withdrawal_punish_coin`]: as the normal coin
/// withdrawal, but risk-control-only and labelled punitive.
pub open spec fn withdrawal_punish_coin_post(
    pre: BridgeState,
    post: BridgeState,
    info: MessageInfo,
    balance: u128,
    asset: String,
    amount: u128,
    r: Result<Response, ContractError>,
) -> bool {
    &&& post == pre
    &&& match withdrawal_guard(pre, info.sender@, Role::RiskControl, amount, balance) {
        Err(e) => r == Result::<Response, ContractError>::Err(e),
        Ok(()) => r matches Ok(resp) && resp.audit == (AuditRecord::WithdrawalPunishCoin {
            asset: asset,
            amount: amount,
            balance_before: balance,
            balance_after: (balance - amount) as u128,
        }) && resp.transfers@ == seq![
            Transfer::BankSend { to_address: info.sender, denom: asset, amount: amount },
        ],
    }
}

/// Seize native coins flagged by risk control.
pub fn withdrawal_punish_coin(
    state: &mut BridgeState,
    info: MessageInfo,
    balance: u128,
    asset: String,
    amount: u128,
) -> (r: Result<Response, ContractError>)
    requires
        old(state).wf(),
    ensures
        final(state).wf(),
        withdrawal_punish_coin_post(*old(state), *final(state), info, balance, asset, amount, r),
{
    if let Err(e) = assert_risk_control(state, &info) {
        return Err(e);
    }
    if amount > balance {
        return Err(ContractError::NotEnoughBalance);
    }
    let balance_after = balance - amount;
    let mut transfers: Vec<Transfer> = Vec::new();
    transfers.push(
        Transfer::BankSend { to_address: info.sender, denom: asset.clone(), amount },
    );
    let audit = AuditRecord::WithdrawalPunishCoin {
        asset,
        amount,
        balance_before: balance,
        balance_after,
    };
    Ok(Response { audit, transfers })
}

/// Full behaviour of [`withdrawal_token`]: custodian-only; the state
/// never changes; on success the caller receives exactly the
/// requested amount through the token contract.
pub open spec fn withdrawal_token_post(
    pre: BridgeState,
    post: BridgeState,
    info: MessageInfo,
    balance: u128,
    asset: String,
    amount: u128,
    r: Result<Response, ContractError>,
) -> bool {
    &&& post == pre
    &&& match withdrawal_guard(pre, info.sender@, Role::Custodian, amount, balance) {
        Err(e) => r == Result::<Response, ContractError>::Err(e),
        Ok(()) => r matches Ok(resp) && resp.audit == (AuditRecord::WithdrawalToken {
            asset: asset,
            amount: amount,
            balance_before: balance,
            balance_after: (balance - amount) as u128,
        }) && resp.transfers@ == seq![
            Transfer::TokenTransfer {
                contract_addr: asset,
                recipient: info.sender,
                amount: amount,
            },
        ],
    }
}

/// Withdraw tokens from the custodial balance (custodian).
pub fn withdrawal_token(
    state: &mut BridgeState,
    info: MessageInfo,
    balance: u128,
    asset: String,
    amount: u128,
) -> (r: Result<Response, ContractError>)
    requires
        old(state).wf(),
    ensures
        final(state).wf(),
        withdrawal_token_post(*old(state), *final(state), info, balance, asset, amount, r),
{
    if let Err(e) = assert_custodian(state, &info) {
        return Err(e);
    }
    if amount > balance {
        return Err(ContractError::NotEnoughBalance);
    }
    let balance_after = balance - amount;
    let mut transfers: Vec<Transfer> = Vec::new();
    transfers.push(
        Transfer::TokenTransfer {
            contract_addr: asset.clone(),
            recipient: info.sender,
            amount,
        },
    );
    let audit = AuditRecord::WithdrawalToken {
        asset,
        amount,
        balance_before: balance,
        balance_after,
    };
    Ok(Response { audit, transfers })
}

/// Full behaviour of [`withdrawal_punish_token`]: as the normal token
/// withdrawal, but risk-control-only and labelled punitive.
pub open spec fn withdrawal_punish_token_post(
    pre: BridgeState,
    post: BridgeState,
    info: MessageInfo,
    balance: u128,
    asset: String,
    amount: u128,
    r: Result<Response, ContractError>,
) -> bool {
    &&& post == pre
    &&& match withdrawal_guard(pre, info.sender@, Role::RiskControl, amount, balance) {
        Err(e) => r == Result::<Response, ContractError>::Err(e),
        Ok(()) => r matches Ok(resp) && resp.audit == (AuditRecord::WithdrawalPunishToken {
            asset: asset,
            amount: amount,
            balance_before: balance,
            balance_after: (balance - amount) as u128,
        }) && resp.transfers@ == seq![
            Transfer::TokenTransfer {
                contract_addr: asset,
                recipient: info.sender,
                amount: amount,
            },
        ],
    }
}

/// Seize tokens flagged by risk control.
pub fn withdrawal_punish_token(
    state: &mut BridgeState,
    info: MessageInfo,
    balance: u128,
    asset: String,
    amount: u128,
) -> (r: Result<Response, ContractError>)
    requires
        old(state).wf(),
    ensures
        final(state).wf(),
        withdrawal_punish_token_post(*old(state), *final(state), info, balance, asset, amount, r),
{
    if let Err(e) = assert_risk_control(state, &info) {
        return Err(e);
    }
    if amount > balance {
        return Err(ContractError::NotEnoughBalance);
    }
    let balance_after = balance - amount;
    let mut transfers: Vec<Transfer> = Vec::new();
    transfers.push(
        Transfer::TokenTransfer {
            contract_addr: asset.clone(),
            recipient: info.sender,
            amount,
        },
    );
    let audit = AuditRecord::WithdrawalPunishToken {
        asset,
        amount,
        balance_before: balance,
        balance_after,
    };
    Ok(Response { audit, transfers })
}

/// Full behaviour of [`execute`]: each request behaves exactly as
/// the operation it names.
pub open spec fn execute_post(
    pre: BridgeState,
    post: BridgeState,
    env: Env,
    info: MessageInfo,
    balance: u128,
    msg: ExecuteMsg,
    r: Result<Response, ContractError>,
) -> bool {
    match msg {
        ExecuteMsg::Receive(cw20_msg) => receive_cw20_post(
            pre,
            post,
            env,
            info,
            balance,
            cw20_msg,
            r,
        ),
        ExecuteMsg::CrossChainCoin {
            order_id,
            asset,
            to,
            amount,
            gas_fee,
            cross_chain_fee,
            rewards,
            src_chain_id,
            dst_chain_id,
            deadline,
            channel,
        } => cross_chain_coin_post(
            pre,
            post,
            env,
            info,
            balance,
            Order {
                order_id,
                asset,
                from: info.sender,
                to,
                amount,
                gas_fee,
                cross_chain_fee,
                rewards,
                src_chain_id,
                dst_chain_id,
                deadline,
                channel,
            },
            r,
        ),
        ExecuteMsg::CrossChainCoinConfirm { order_id, asset, to, amount, rewards } => {
            cross_chain_coin_confirm_post(
                pre,
                post,
                env,
                info,
                balance,
                order_id,
                asset,
                to,
                amount,
                rewards,
                r,
            )
        },
        ExecuteMsg::CrossChainTokenConfirm { order_id, asset, to, amount, rewards } => {
            cross_chain_token_confirm_post(
                pre,
                post,
                env,
                info,
                balance,
                order_id,
                asset,
                to,
                amount,
                rewards,
                r,
            )
        },
        ExecuteMsg::ChangeGovernor { new_governor } => change_governor_post(
            pre,
            post,
            info,
            new_governor,
            r,
        ),
        ExecuteMsg::ChangeTreasury { new_treasury } => change_treasury_post(
            pre,
            post,
            info,
            new_treasury,
            r,
        ),
        ExecuteMsg::ChangeCustodian { new_custodian } => change_custodian_post(
            pre,
            post,
            info,
            new_custodian,
            r,
        ),
        ExecuteMsg::ChangeRiskControl { new_risk_control } => change_risk_control_post(
            pre,
            post,
            info,
            new_risk_control,
            r,
        ),
        ExecuteMsg::ChangeRelayer { new_relayer } => change_relayer_post(
            pre,
            post,
            info,
            new_relayer,
            r,
        ),
        ExecuteMsg::SetPauseState { state } => set_pause_state_post(pre, post, info, state, r),
        ExecuteMsg::SetSupportToken { asset, amount_min } => set_support_token_post(
            pre,
            post,
            info,
            asset,
            amount_min,
            r,
        ),
        ExecuteMsg::SetSupportCoin { asset, amount_min } => set_support_coin_post(
            pre,
            post,
            info,
            asset,
            amount_min,
            r,
        ),
        ExecuteMsg::RefundToken { order_id, asset, from, amount, gas_fee } => refund_token_post(
            pre,
            post,
            info,
            balance,
            order_id,
            asset,
            from,
            amount,
            gas_fee,
            r,
        ),
        ExecuteMsg::RefundCoin { order_id, asset, from, amount, gas_fee } => refund_coin_post(
            pre,
            post,
            info,
            balance,
            order_id,
            asset,
            from,
            amount,
            gas_fee,
            r,
        ),
        ExecuteMsg::WithdrawalToken { asset, amount } => withdrawal_token_post(
            pre,
            post,
            info,
            balance,
            asset,
            amount,
            r,
        ),
        ExecuteMsg::WithdrawalCoin { asset, amount } => withdrawal_coin_post(
            pre,
            post,
            info,
            balance,
            asset,
            amount,
            r,
        ),
        ExecuteMsg::WithdrawalPunishToken { asset, amount } => withdrawal_punish_token_post(
            pre,
            post,
            info,
            balance,
            asset,
            amount,
            r,
        ),
        ExecuteMsg::WithdrawalPunishCoin { asset, amount } => withdrawal_punish_coin_post(
            pre,
            post,
            info,
            balance,
            asset,
            amount,
            r,
        ),
    }
}

/// Dispatch a mutating request to its operation.
///
/// `balance` is the custodial balance of the asset the request
/// concerns, read before the call; requests that touch no balance
/// ignore it.
pub fn execute(
    state: &mut BridgeState,
    env: Env,
    info: MessageInfo,
    balance: u128,
    msg: ExecuteMsg,
) -> (r: Result<Response, ContractError>)
    requires
        old(state).wf(),
    ensures
        final(state).wf(),
        execute_post(*old(state), *final(state), env, info, balance, msg, r),
{
    match msg {
        ExecuteMsg::Receive(cw20_msg) => receive_cw20(state, env, info, balance, cw20_msg),
        ExecuteMsg::CrossChainCoin {
            order_id,
            asset,
            to,
            amount,
            gas_fee,
            cross_chain_fee,
            rewards,
            src_chain_id,
            dst_chain_id,
            deadline,
            channel,
        } => {
            let order = Order {
                order_id,
                asset,
                from: info.sender.clone(),
                to,
                amount,
                gas_fee,
                cross_chain_fee,
                rewards,
                src_chain_id,
                dst_chain_id,
                deadline,
                channel,
            };
            cross_chain_coin(state, env, info, balance, order)
        },
        ExecuteMsg::CrossChainCoinConfirm { order_id, asset, to, amount, rewards } => {
            cross_chain_coin_confirm(
                state,
                env,
                info,
                balance,
                order_id,
                asset,
                to,
                amount,
                rewards,
            )
        },
        ExecuteMsg::CrossChainTokenConfirm { order_id, asset, to, amount, rewards } => {
            cross_chain_token_confirm(
                state,
                env,
                info,
                balance,
                order_id,
                asset,
                to,
                amount,
                rewards,
            )
        },
        ExecuteMsg::ChangeGovernor { new_governor } => change_governor(state, info, new_governor),
        ExecuteMsg::ChangeTreasury { new_treasury } => change_treasury(state, info, new_treasury),
        ExecuteMsg::ChangeCustodian { new_custodian } => change_custodian(
            state,
            info,
            new_custodian,
        ),
        ExecuteMsg::ChangeRiskControl { new_risk_control } => change_risk_control(
            state,
            info,
            new_risk_control,
        ),
        ExecuteMsg::ChangeRelayer { new_relayer } => change_relayer(state, info, new_relayer),
        ExecuteMsg::SetPauseState { state: pause } => set_pause_state(state, info, pause),
        ExecuteMsg::SetSupportToken { asset, amount_min } => set_support_token(
            state,
            info,
            asset,
            amount_min,
        ),
        ExecuteMsg::SetSupportCoin { asset, amount_min } => set_support_coin(
            state,
            info,
            asset,
            amount_min,
        ),
        ExecuteMsg::RefundToken { order_id, asset, from, amount, gas_fee } => refund_token(
            state,
            info,
            balance,
            order_id,
            asset,
            from,
            amount,
            gas_fee,
        ),
        ExecuteMsg::RefundCoin { order_id, asset, from, amount, gas_fee } => refund_coin(
            state,
            info,
            balance,
            order_id,
            asset,
            from,
            amount,
            gas_fee,
        ),
        ExecuteMsg::WithdrawalToken { asset, amount } => withdrawal_token(
            state,
            info,
            balance,
            asset,
            amount,
        ),
        ExecuteMsg::WithdrawalCoin { asset, amount } => withdrawal_coin(
            state,
            info,
            balance,
            asset,
            amount,
        ),
        ExecuteMsg::WithdrawalPunishToken { asset, amount } => withdrawal_punish_token(
            state,
            info,
            balance,
            asset,
            amount,
        ),
        ExecuteMsg::WithdrawalPunishCoin { asset, amount } => withdrawal_punish_coin(
            state,
            info,
            balance,
            asset,
            amount,
        ),
    }
}

/// The floor a registry reports: the registered minimum, or zero for
/// an unknown asset.
pub open spec fn support_floor(registry: Map<Seq<char>, u128>, asset: Seq<char>) -> u128 {
    if registry.contains_key(asset) {
        registry[asset]
    } else {
        0
    }
}

/// The code the source ledger reports: 0 none, 1 completed,
/// 2 refunded.
pub open spec fn src_status_of(ledger: Map<u128, SrcOrderStatus>, order_id: u128) -> u128 {
    if ledger.contains_key(order_id) {
        src_status_code(ledger[order_id])
    } else {
        0
    }
}

/// The code the destination ledger reports: 0 none, otherwise the
/// settlement marker.
pub open spec fn dst_status_of(ledger: Map<u128, u128>, order_id: u128) -> u128 {
    if ledger.contains_key(order_id) {
        ledger[order_id]
    } else {
        0
    }
}

/// Report a token's registered floor, or zero.
pub fn query_support_token(state: &BridgeState, asset: String) -> (r: QuerySupportTokenResponse)
    requires
        state.wf(),
    ensures
        r.amount_min == support_floor(state.token_registry(), asset@),
{
    match read_support_token_config(state, &asset) {
        Some(amount_min) => QuerySupportTokenResponse { amount_min },
        None => QuerySupportTokenResponse { amount_min: 0 },
    }
}

/// Report a coin's registered floor, or zero.
pub fn query_support_coin(state: &BridgeState, asset: String) -> (r: QuerySupportCoinResponse)
    requires
        state.wf(),
    ensures
        r.amount_min == support_floor(state.coin_registry(), asset@),
{
    match read_support_coin_config(state, &asset) {
        Some(amount_min) => QuerySupportCoinResponse { amount_min },
        None => QuerySupportCoinResponse { amount_min: 0 },
    }
}

/// Report a source order's status code.
pub fn query_src_order_status(state: &BridgeState, order_id: u128) -> (r: QueryOrderStatusResponse)
    requires
        state.wf(),
    ensures
        r.status == src_status_of(state.src_ledger(), order_id),
{
    match read_src_order_state(state, order_id) {
        Some(status) => QueryOrderStatusResponse { status: status.code() },
        None => QueryOrderStatusResponse { status: 0 },
    }
}

/// Report a destination order's settlement marker, or zero.
pub fn query_dst_order_status(state: &BridgeState, order_id: u128) -> (r: QueryOrderStatusResponse)
    requires
        state.wf(),
    ensures
        r.status == dst_status_of(state.dst_ledger(), order_id),
{
    match read_dst_order_state(state, order_id) {
        Some(marker) => QueryOrderStatusResponse { status: marker },
        None => QueryOrderStatusResponse { status: 0 },
    }
}

/// Report the five privileged identities.
pub fn query_config(state: &BridgeState) -> (r: QueryConfigResponse)
    ensures
        r.governor == state.spec_config().governor,
        r.treasury == state.spec_config().treasury,
        r.custodian == state.spec_config().custodian,
        r.risk_control == state.spec_config().risk_control,
        r.relayer == state.spec_config().relayer,
{
    let config = read_config(state);
    QueryConfigResponse {
        governor: config.governor.clone(),
        treasury: config.treasury.clone(),
        custodian: config.custodian.clone(),
        risk_control: config.risk_control.clone(),
        relayer: config.relayer.clone(),
    }
}

/// Full behaviour of [`query`]: each request is answered from the
/// matching region of the state.
pub open spec fn query_post(state: BridgeState, msg: QueryMsg, r: QueryAnswer) -> bool {
    match msg {
        QueryMsg::Config => r matches QueryAnswer::Config(c) && c.governor
            == state.spec_config().governor && c.treasury == state.spec_config().treasury
            && c.custodian == state.spec_config().custodian && c.risk_control
            == state.spec_config().risk_control && c.relayer == state.spec_config().relayer,
        QueryMsg::QuerySupportToken { asset } => r matches QueryAnswer::SupportToken(t)
            && t.amount_min == support_floor(state.token_registry(), asset@),
        QueryMsg::QuerySupportCoin { asset } => r matches QueryAnswer::SupportCoin(c)
            && c.amount_min == support_floor(state.coin_registry(), asset@),
        QueryMsg::QuerySrcOrderStatus { order_id } => r matches QueryAnswer::SrcOrderStatus(s)
            && s.status == src_status_of(state.src_ledger(), order_id),
        QueryMsg::QueryDstOrderStatus { order_id } => r matches QueryAnswer::DstOrderStatus(s)
            && s.status == dst_status_of(state.dst_ledger(), order_id),
    }
}

/// Dispatch a read-only request to its query.
pub fn query(state: &BridgeState, msg: QueryMsg) -> (r: QueryAnswer)
    requires
        state.wf(),
    ensures
        query_post(*state, msg, r),
{
    match msg {
        QueryMsg::Config => QueryAnswer::Config(query_config(state)),
        QueryMsg::QuerySupportToken { asset } => QueryAnswer::SupportToken(
            query_support_token(state, asset),
        ),
        QueryMsg::QuerySupportCoin { asset } => QueryAnswer::SupportCoin(
            query_support_coin(state, asset),
        ),
        QueryMsg::QuerySrcOrderStatus { order_id } => QueryAnswer::SrcOrderStatus(
            query_src_order_status(state, order_id),
        ),
        QueryMsg::QueryDstOrderStatus { order_id } => QueryAnswer::DstOrderStatus(
            query_dst_order_status(state, order_id),
        ),
    }
}

} // verus!
