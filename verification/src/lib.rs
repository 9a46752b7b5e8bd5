//! A conditional-transfer rule for cw20 tokens.
//!
//! The contract holds a fixed configuration of addresses. When the
//! configured trigger address sends the trigger token to the configured
//! receiver, the handler emits one instruction forwarding the same amount
//! of a different token from a fixed source address back to the sender.
//! Transfers of any other token from the trigger address are ignored;
//! transfers from any other sender are rejected.

pub mod codec;
pub mod contract;
pub mod error;
pub mod msg;
pub mod state;
