//! Inbound requests, outbound instructions and query responses.
//!
//! Account identifiers and asset identifiers arrive already
//! canonicalized as plain strings; amounts are 128-bit integers.
//! Every successful mutating operation answers with a [`Response`]:
//! the transfer instructions the host must emit, and a typed audit
//! record the host renders as key/value attributes.

use vstd::prelude::*;

verus! {

/// The roles handed to the bridge at initialization; the caller
/// becomes governor.
#[derive(Clone, Debug, PartialEq, Eq)]
pub struct InstantiateMsg {
    pub treasury: String,
    pub custodian: String,
    pub risk_control: String,
    pub relayer: String,
}

/// In-flight parameters of one transfer request. Never persisted as a
/// whole: only the derived status is.
#[derive(Clone, Debug, PartialEq, Eq)]
pub struct Order {
    pub order_id: u128,
    pub asset: String,
    pub from: String,
    pub to: String,
    pub amount: u128,
    pub gas_fee: u128,
    pub cross_chain_fee: u128,
    pub rewards: u128,
    pub src_chain_id: u64,
    pub dst_chain_id: u64,
    /// Absolute deadline, in seconds.
    pub deadline: u64,
    pub channel: String,
}

/// One denomination of value attached to a call.
#[derive(Clone, Debug, PartialEq, Eq)]
pub struct Coin {
    pub denom: String,
    pub amount: u128,
}

/// The caller's identity and the value attached to the call.
#[derive(Clone, Debug, PartialEq, Eq)]
pub struct MessageInfo {
    pub sender: String,
    pub funds: Vec<Coin>,
}

/// The ledger instant a call executes at, in nanoseconds.
#[derive(Clone, Copy, Debug, PartialEq, Eq, Structural)]
pub struct Env {
    pub time_nanos: u64,
}

/// The block time in whole seconds.
pub open spec fn spec_seconds(env: Env) -> int {
    env.time_nanos as int / 1_000_000_000
}

impl Env {
    /// The block time in whole seconds.
    pub fn seconds(&self) -> (r: u64)
        ensures
            r == spec_seconds(*self),
    {
        self.time_nanos / 1_000_000_000
    }
}

/// The payload a token contract forwards with an inbound transfer.
#[derive(Clone, Debug, PartialEq, Eq)]
pub enum Cw20HookMsg {
    CrossChainToken {
        order_id: u128,
        to: String,
        gas_fee: u128,
        cross_chain_fee: u128,
        rewards: u128,
        src_chain_id: u64,
        dst_chain_id: u64,
        deadline: u64,
        channel: String,
    },
}

/// A token-transfer notification: the token contract is the caller;
/// the hook payload is `None` when it could not be read.
#[derive(Clone, Debug, PartialEq, Eq)]
pub struct Cw20ReceiveMsg {
    pub sender: String,
    pub amount: u128,
    pub msg: Option<Cw20HookMsg>,
}

/// Every mutating request the bridge accepts.
#[derive(Clone, Debug, PartialEq, Eq)]
pub enum ExecuteMsg {
    Receive(Cw20ReceiveMsg),
    CrossChainCoin {
        order_id: u128,
        asset: String,
        to: String,
        amount: u128,
        gas_fee: u128,
        cross_chain_fee: u128,
        rewards: u128,
        src_chain_id: u64,
        dst_chain_id: u64,
        deadline: u64,
        channel: String,
    },
    CrossChainCoinConfirm { order_id: u128, asset: String, to: String, amount: u128, rewards: u128 },
    CrossChainTokenConfirm {
        order_id: u128,
        asset: String,
        to: String,
        amount: u128,
        rewards: u128,
    },
    ChangeGovernor { new_governor: String },
    ChangeTreasury { new_treasury: String },
    ChangeCustodian { new_custodian: String },
    ChangeRiskControl { new_risk_control: String },
    ChangeRelayer { new_relayer: String },
    SetPauseState { state: u128 },
    SetSupportToken { asset: String, amount_min: u128 },
    SetSupportCoin { asset: String, amount_min: u128 },
    RefundToken { order_id: u128, asset: String, from: String, amount: u128, gas_fee: u128 },
    RefundCoin { order_id: u128, asset: String, from: String, amount: u128, gas_fee: u128 },
    WithdrawalToken { asset: String, amount: u128 },
    WithdrawalCoin { asset: String, amount: u128 },
    WithdrawalPunishToken { asset: String, amount: u128 },
    WithdrawalPunishCoin { asset: String, amount: u128 },
}

/// Every read-only request.
#[derive(Clone, Debug, PartialEq, Eq)]
pub enum QueryMsg {
    Config,
    QuerySupportToken { asset: String },
    QuerySupportCoin { asset: String },
    QuerySrcOrderStatus { order_id: u128 },
    QueryDstOrderStatus { order_id: u128 },
}

/// An outbound balance-moving instruction.
#[derive(Clone, Debug, PartialEq, Eq)]
pub enum Transfer {
    /// Send native coins from the custodial account.
    BankSend { to_address: String, denom: String, amount: u128 },
    /// Ask a token contract to move custodial tokens.
    TokenTransfer { contract_addr: String, recipient: String, amount: u128 },
    /// Ask a token contract to move tokens out of a pre-approved
    /// allowance.
    TokenTransferFrom { contract_addr: String, owner: String, recipient: String, amount: u128 },
}

/// The audit record of one successful mutating call, one variant per
/// method; the host renders it as human-readable attributes.
#[derive(Clone, Debug, PartialEq, Eq)]
pub enum AuditRecord {
    Instantiate {
        governor: String,
        treasury: String,
        custodian: String,
        risk_control: String,
        relayer: String,
    },
    ChangeGovernor { old_governor: String, new_governor: String },
    ChangeTreasury { new_treasury: String },
    ChangeCustodian { new_custodian: String },
    ChangeRiskControl { new_risk_control: String },
    ChangeRelayer { new_relayer: String },
    SetSupportCoin { asset: String, amount_min: u128 },
    SetSupportToken { asset: String, amount_min: u128 },
    SetPauseState { state: u128 },
    CrossChainCoin {
        order_id: u128,
        asset: String,
        from: String,
        to: String,
        amount: u128,
        fee: u128,
        rewards: u128,
        src_chain_id: u64,
        dst_chain_id: u64,
        channel: String,
        balance_before: u128,
        balance_after: u128,
    },
    CrossChainToken {
        order_id: u128,
        asset: String,
        from: String,
        to: String,
        amount: u128,
        fee: u128,
        rewards: u128,
        src_chain_id: u64,
        dst_chain_id: u64,
        channel: String,
        balance_before: u128,
        balance_after: u128,
    },
    RefundCoin {
        order_id: u128,
        asset: String,
        from: String,
        amount: u128,
        gas_fee: u128,
        balance_before: u128,
        balance_after: u128,
    },
    RefundToken {
        order_id: u128,
        asset: String,
        from: String,
        amount: u128,
        gas_fee: u128,
        balance_before: u128,
        balance_after: u128,
    },
    CrossChainCoinConfirm {
        order_id: u128,
        asset: String,
        to: String,
        amount: u128,
        rewards: u128,
        balance_before: u128,
        balance_after: u128,
    },
    CrossChainTokenConfirm {
        order_id: u128,
        asset: String,
        to: String,
        amount: u128,
        rewards: u128,
        balance_before: u128,
        balance_after: u128,
    },
    WithdrawalCoin { asset: String, amount: u128, balance_before: u128, balance_after: u128 },
    WithdrawalToken { asset: String, amount: u128, balance_before: u128, balance_after: u128 },
    WithdrawalPunishCoin { asset: String, amount: u128, balance_before: u128, balance_after: u128 },
    WithdrawalPunishToken {
        asset: String,
        amount: u128,
        balance_before: u128,
        balance_after: u128,
    },
}

/// What a successful mutating call hands back to the host.
#[derive(Clone, Debug, PartialEq, Eq)]
pub struct Response {
    pub audit: AuditRecord,
    pub transfers: Vec<Transfer>,
}

/// The floor registered for a token, or zero.
#[derive(Clone, Copy, Debug, PartialEq, Eq, Structural)]
pub struct QuerySupportTokenResponse {
    pub amount_min: u128,
}

/// The floor registered for a coin, or zero.
#[derive(Clone, Copy, Debug, PartialEq, Eq, Structural)]
pub struct QuerySupportCoinResponse {
    pub amount_min: u128,
}

/// An order's status code: for the source side 0 none, 1 completed,
/// 2 refunded; for the destination side 0 none, otherwise the
/// settlement marker.
#[derive(Clone, Copy, Debug, PartialEq, Eq, Structural)]
pub struct QueryOrderStatusResponse {
    pub status: u128,
}

/// The five privileged identities.
#[derive(Clone, Debug, PartialEq, Eq)]
pub struct QueryConfigResponse {
    pub governor: String,
    pub treasury: String,
    pub custodian: String,
    pub risk_control: String,
    pub relayer: String,
}

/// The answer to a read-only request.
#[derive(Clone, Debug, PartialEq, Eq)]
pub enum QueryAnswer {
    Config(QueryConfigResponse),
    SupportToken(QuerySupportTokenResponse),
    SupportCoin(QuerySupportCoinResponse),
    SrcOrderStatus(QueryOrderStatusResponse),
    DstOrderStatus(QueryOrderStatusResponse),
}

} // verus!
