//! The contract's static configuration: the addresses that the handler
//! checks notifications against. It is built once, at initialization,
//! and never mutated afterwards.

use vstd::prelude::*;

verus! {

/// The addresses handed to [`init`].
///
/// `address1` holds the forwarded token and is the source of every
/// outbound transfer; `address2` is the receiver whose inbound transfers
/// are evaluated; `address3` is the trigger address whose transfers cause
/// forwarding. `token_x_contract` identifies the forwarded token,
/// `token_y_contract` the trigger token, and `token_z_contract` a third
/// token that the handler deliberately ignores.
#[derive(Clone, Debug, PartialEq)]
pub struct InitMsg {
    pub address1: String,
    pub address2: String,
    pub address3: String,
    pub token_x_contract: String,
    pub token_y_contract: String,
    pub token_z_contract: String,
}

/// The configuration record the handler reads. Field for field the same
/// addresses as [`InitMsg`]; a separate type so that a caller cannot hand
/// the handler a record that did not come out of [`init`].
#[derive(Clone, Debug, PartialEq)]
pub struct State {
    pub address1: String,
    pub address2: String,
    pub address3: String,
    pub token_x_contract: String,
    pub token_y_contract: String,
    pub token_z_contract: String,
}

/// The mathematical content of a [`State`]: each address as a sequence
/// of characters.
pub ghost struct StateView {
    pub address1: Seq<char>,
    pub address2: Seq<char>,
    pub address3: Seq<char>,
    pub token_x_contract: Seq<char>,
    pub token_y_contract: Seq<char>,
    pub token_z_contract: Seq<char>,
}

impl View for State {
    type V = StateView;

    open spec fn view(&self) -> StateView {
        StateView {
            address1: self.address1@,
            address2: self.address2@,
            address3: self.address3@,
            token_x_contract: self.token_x_contract@,
            token_y_contract: self.token_y_contract@,
            token_z_contract: self.token_z_contract@,
        }
    }
}

impl View for InitMsg {
    type V = StateView;

    open spec fn view(&self) -> StateView {
        StateView {
            address1: self.address1@,
            address2: self.address2@,
            address3: self.address3@,
            token_x_contract: self.token_x_contract@,
            token_y_contract: self.token_y_contract@,
            token_z_contract: self.token_z_contract@,
        }
    }
}

/// Builds the configuration record from the initialization message.
/// The record carries exactly the addresses of the message.
pub fn init(info: InitMsg) -> (s: State)
    ensures
        s@ == info@,
{
    State {
        address1: info.address1,
        address2: info.address2,
        address3: info.address3,
        token_x_contract: info.token_x_contract,
        token_y_contract: info.token_y_contract,
        token_z_contract: info.token_z_contract,
    }
}

} // verus!
