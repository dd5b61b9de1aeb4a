//! Errors surfaced by the settlement operations.
//!
//! Every error leaves the bridge state untouched: a failing call
//! commits nothing. Arithmetic that would overflow or underflow is a
//! fatal invariant violation, kept distinct from ordinary business
//! rejections.

use vstd::prelude::*;

verus! {

#[derive(Clone, Copy, Debug, PartialEq, Eq, Structural)]
pub enum ContractError {
    /// Caller is not the governor.
    Unauthorized,
    /// Caller is not the relayer.
    UnauthorizedRelayer,
    /// Caller is not the custodian.
    UnauthorizedCustodian,
    /// Caller is not the risk-control account.
    UnauthorizedRiskControl,
    /// The token-transfer notification carried no readable hook payload.
    InvalidCw20Msg,
    /// The asset is not in the relevant support registry.
    NotSupportToken,
    /// The order amount is below the registered floor.
    LessThenAmountMin,
    /// The cross-chain fee exceeds the 5% cap.
    ExceedMaxCrossChainFee,
    /// The order deadline lies in the past.
    ExceedDeadline,
    /// A source-side status already exists for this order id.
    SrcOrderAlreadyExist,
    /// No source-side status exists for this order id.
    SrcOrderNotExist,
    /// The source-side status is not Completed.
    SrcOrderNotSuccess,
    /// A destination-side status already exists for this order id.
    DstOrderAlreadyExist,
    /// No destination-side status exists for this order id.
    DstOrderNotExist,
    /// The requested amount exceeds the custodial balance.
    NotEnoughBalance,
    /// New inbound locks are paused.
    Paused,
    /// The declared amount differs from the value actually attached.
    AmountMismatchParams,
    /// A non-zero amount was declared but no matching value attached.
    InvalidSendCoinMsg,
    /// A balance or fee computation would overflow or underflow.
    ArithmeticInvariantViolation,
}

/// The human-readable text of each error, as the host surfaces it.
pub open spec fn error_text(e: ContractError) -> Seq<char> {
    match e {
        ContractError::Unauthorized => "Unauthorized: Only Governor can call"@,
        ContractError::UnauthorizedRelayer => "Unauthorized: Only Relayer can call"@,
        ContractError::UnauthorizedCustodian => "Unauthorized: Only Custodian can call"@,
        ContractError::UnauthorizedRiskControl => "Unauthorized: Only Risk Control can call"@,
        ContractError::InvalidCw20Msg => "Invalid: Invalid Cw20 Msg"@,
        ContractError::NotSupportToken => "Invalid: Not Support Token"@,
        ContractError::LessThenAmountMin => "Invalid: Less Then Amount Min"@,
        ContractError::ExceedMaxCrossChainFee => "Invalid: Exceed Max Cross Chain Fee"@,
        ContractError::ExceedDeadline => "Invalid: Exceed Deadline"@,
        ContractError::SrcOrderAlreadyExist => "Invalid: Src Order Already Exist"@,
        ContractError::SrcOrderNotExist => "Invalid: Src Order Not Exist"@,
        ContractError::SrcOrderNotSuccess => "Invalid: Src Order Not Success"@,
        ContractError::DstOrderAlreadyExist => "Invalid: Dst Order Already Exist"@,
        ContractError::DstOrderNotExist => "Invalid: Dst Order Not Exist"@,
        ContractError::NotEnoughBalance => "Invalid: Not Enough Balance To Withdraw"@,
        ContractError::Paused => "Only Not Pause Can Call"@,
        ContractError::AmountMismatchParams => "Amount Mismatch Params"@,
        ContractError::InvalidSendCoinMsg => "Invalid Send Coin Msg"@,
        ContractError::ArithmeticInvariantViolation => "Fatal: Arithmetic Invariant Violation"@,
    }
}

impl ContractError {
    /// The error's display text.
    pub fn message(&self) -> (r: &'static str)
        ensures
            r@ == error_text(*self),
    {
        match self {
            ContractError::Unauthorized => "Unauthorized: Only Governor can call",
            ContractError::UnauthorizedRelayer => "Unauthorized: Only Relayer can call",
            ContractError::UnauthorizedCustodian => "Unauthorized: Only Custodian can call",
            ContractError::UnauthorizedRiskControl => "Unauthorized: Only Risk Control can call",
            ContractError::InvalidCw20Msg => "Invalid: Invalid Cw20 Msg",
            ContractError::NotSupportToken => "Invalid: Not Support Token",
            ContractError::LessThenAmountMin => "Invalid: Less Then Amount Min",
            ContractError::ExceedMaxCrossChainFee => "Invalid: Exceed Max Cross Chain Fee",
            ContractError::ExceedDeadline => "Invalid: Exceed Deadline",
            ContractError::SrcOrderAlreadyExist => "Invalid: Src Order Already Exist",
            ContractError::SrcOrderNotExist => "Invalid: Src Order Not Exist",
            ContractError::SrcOrderNotSuccess => "Invalid: Src Order Not Success",
            ContractError::DstOrderAlreadyExist => "Invalid: Dst Order Already Exist",
            ContractError::DstOrderNotExist => "Invalid: Dst Order Not Exist",
            ContractError::NotEnoughBalance => "Invalid: Not Enough Balance To Withdraw",
            ContractError::Paused => "Only Not Pause Can Call",
            ContractError::AmountMismatchParams => "Amount Mismatch Params",
            ContractError::InvalidSendCoinMsg => "Invalid Send Coin Msg",
            ContractError::ArithmeticInvariantViolation => "Fatal: Arithmetic Invariant Violation",
        }
    }
}

} // verus!
