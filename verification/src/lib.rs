//! Custodial cross-chain bridge settlement core.
//!
//! The library holds the verified order lifecycle: locking inbound
//! transfers on the source ledger, confirming releases on the
//! destination ledger, refunding locked orders, and custodial
//! withdrawals, together with the role, pause and support-registry
//! gates that guard them. State lives in an in-memory model
//! ([`state::BridgeState`]); the surrounding host supplies persistence,
//! address canonicalization, wire encoding and balance queries.

pub mod contract;
pub mod laws;
pub mod error;
pub mod msg;
pub mod state;
