//! The messages crossing the contract's boundary: the inbound transfer
//! notification and the outbound transfer instruction.

use vstd::prelude::*;

verus! {

/// An inbound transfer notification.
///
/// `recipient` is the address the notification was delivered to, checked
/// against the configured receiver. `sender` is the account that made
/// the original token transfer. `token` identifies the token contract
/// whose tokens were transferred, and `amount` how many.
#[derive(Clone, Debug, PartialEq)]
pub struct ReceiveMsg {
    pub recipient: String,
    pub sender: String,
    pub token: String,
    pub amount: u128,
}

/// The inbound call: every message the contract accepts after
/// initialization is a transfer notification.
#[derive(Clone, Debug, PartialEq)]
pub enum HandleMsg {
    Receive(ReceiveMsg),
}

/// One outbound transfer instruction: ask the token contract `contract`
/// to move `amount` tokens out of `source`'s account to `recipient`.
#[derive(Clone, Debug, PartialEq)]
pub struct TransferMsg {
    pub contract: String,
    pub source: String,
    pub recipient: String,
    pub amount: u128,
}

/// What the handler returns on success: the emitted transfer
/// instructions, in order. There is at most one.
#[derive(Clone, Debug, PartialEq)]
pub struct HandleResponse {
    pub messages: Vec<TransferMsg>,
}

/// The mathematical content of a [`ReceiveMsg`].
pub ghost struct ReceiveView {
    pub recipient: Seq<char>,
    pub sender: Seq<char>,
    pub token: Seq<char>,
    pub amount: u128,
}

/// The mathematical content of a [`TransferMsg`].
pub ghost struct TransferView {
    pub contract: Seq<char>,
    pub source: Seq<char>,
    pub recipient: Seq<char>,
    pub amount: u128,
}

impl View for ReceiveMsg {
    type V = ReceiveView;

    open spec fn view(&self) -> ReceiveView {
        ReceiveView {
            recipient: self.recipient@,
            sender: self.sender@,
            token: self.token@,
            amount: self.amount,
        }
    }
}

impl View for HandleMsg {
    type V = ReceiveView;

    open spec fn view(&self) -> ReceiveView {
        match self {
            HandleMsg::Receive(m) => m@,
        }
    }
}

impl View for TransferMsg {
    type V = TransferView;

    open spec fn view(&self) -> TransferView {
        TransferView {
            contract: self.contract@,
            source: self.source@,
            recipient: self.recipient@,
            amount: self.amount,
        }
    }
}

impl View for HandleResponse {
    type V = Seq<TransferView>;

    open spec fn view(&self) -> Seq<TransferView> {
        self.messages@.map_values(|t: TransferMsg| t@)
    }
}

/// A message a caller may want to surface about a rejected notification;
/// the variants mirror the two errors.
#[derive(Clone, Copy, Debug, PartialEq, Eq, Structural)]
pub enum CustomMsg {
    InvalidReceiverAddress,
    InvalidSenderAddress,
}

} // verus!
