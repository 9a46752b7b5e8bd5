//! The transfer-notification handler: one atomic decision per inbound
//! notification, with at most one outbound transfer instruction.

use vstd::prelude::*;

use crate::error::CustomError;
use crate::msg::{HandleMsg, HandleResponse, ReceiveMsg, ReceiveView, TransferMsg, TransferView};
use crate::state::{State, StateView};

verus! {

/// The handler's decision, as a mathematical function of the
/// configuration and the notification.
///
/// A notification not addressed to the configured receiver is rejected;
/// one from a sender other than the trigger address is rejected; one of
/// the trigger token from the trigger address yields exactly one
/// instruction forwarding the same amount of the forwarded token from
/// the source address back to the sender; any other token from the
/// trigger address yields no instruction.
pub open spec fn spec_receive(s: StateView, m: ReceiveView) -> Result<
    Seq<TransferView>,
    CustomError,
> {
    if m.recipient != s.address2 {
        Err(CustomError::InvalidReceiverAddress)
    } else if m.sender != s.address3 {
        Err(CustomError::InvalidSenderAddress)
    } else if m.token == s.token_y_contract {
        Ok(
            seq![
                TransferView {
                    contract: s.token_x_contract,
                    source: s.address1,
                    recipient: m.sender,
                    amount: m.amount,
                },
            ],
        )
    } else {
        Ok(Seq::empty())
    }
}

/// Evaluates one transfer notification against the configuration.
pub fn receive_cw20(state: &State, msg: ReceiveMsg) -> (r: Result<HandleResponse, CustomError>)
    ensures
        r is Ok <==> spec_receive(state@, msg@) is Ok,
        r is Ok ==> r->Ok_0@ == spec_receive(state@, msg@)->Ok_0,
        r is Err ==> r->Err_0 == spec_receive(state@, msg@)->Err_0,
{
    if msg.recipient != state.address2 {
        return Err(CustomError::InvalidReceiverAddress);
    }
    if msg.sender != state.address3 {
        return Err(CustomError::InvalidSenderAddress);
    }
    if msg.token == state.token_y_contract {
        let transfer = TransferMsg {
            contract: state.token_x_contract.clone(),
            source: state.address1.clone(),
            recipient: msg.sender,
            amount: msg.amount,
        };
        let messages = vec![transfer];
        let response = HandleResponse { messages };
        proof {
            assert(response@ =~= spec_receive(state@, msg@)->Ok_0);
        }
        Ok(response)
    } else {
        let response = HandleResponse { messages: Vec::new() };
        proof {
            assert(response@ =~= spec_receive(state@, msg@)->Ok_0);
        }
        Ok(response)
    }
}

/// Evaluates one inbound call: a transfer notification is handed to
/// [`receive_cw20`].
pub fn handle(state: &State, msg: HandleMsg) -> (r: Result<HandleResponse, CustomError>)
    ensures
        r is Ok <==> spec_receive(state@, msg@) is Ok,
        r is Ok ==> r->Ok_0@ == spec_receive(state@, msg@)->Ok_0,
        r is Err ==> r->Err_0 == spec_receive(state@, msg@)->Err_0,
{
    match msg {
        HandleMsg::Receive(m) => receive_cw20(state, m),
    }
}

/// A notification whose declared recipient is not the configured
/// receiver fails with the receiver-mismatch error and emits no
/// instruction, whatever its sender, token or amount.
pub proof fn lemma_recipient_mismatch(s: StateView, m: ReceiveView)
    requires
        m.recipient != s.address2,
    ensures
        spec_receive(s, m) == Err::<Seq<TransferView>, CustomError>(
            CustomError::InvalidReceiverAddress,
        ),
{
}

/// A notification addressed to the receiver but sent by an account other
/// than the trigger address fails with the sender-mismatch error and
/// emits no instruction, whatever its token or amount.
pub proof fn lemma_sender_mismatch(s: StateView, m: ReceiveView)
    requires
        m.recipient == s.address2,
        m.sender != s.address3,
    ensures
        spec_receive(s, m) == Err::<Seq<TransferView>, CustomError>(
            CustomError::InvalidSenderAddress,
        ),
{
}

/// A transfer of the trigger token from the trigger address to the
/// receiver succeeds and emits exactly one instruction: the same amount
/// of the forwarded token, moved by the forwarded-token contract from
/// the source address to the sender.
pub proof fn lemma_forward(s: StateView, m: ReceiveView)
    requires
        m.recipient == s.address2,
        m.sender == s.address3,
        m.token == s.token_y_contract,
    ensures
        spec_receive(s, m) is Ok,
        spec_receive(s, m)->Ok_0.len() == 1,
        spec_receive(s, m)->Ok_0[0] == (TransferView {
            contract: s.token_x_contract,
            source: s.address1,
            recipient: m.sender,
            amount: m.amount,
        }),
{
}

/// A transfer of any token other than the trigger token from the trigger
/// address to the receiver succeeds and emits no instruction.
pub proof fn lemma_ignore_other_token(s: StateView, m: ReceiveView)
    requires
        m.recipient == s.address2,
        m.sender == s.address3,
        m.token != s.token_y_contract,
    ensures
        spec_receive(s, m) is Ok,
        spec_receive(s, m)->Ok_0.len() == 0,
{
}

/// The configuration never changes after initialization and the handler
/// decides from the configuration and the notification alone, so two
/// sequential calls with identical inputs produce identical results:
/// any two outcomes that satisfy the handler's contract for the same
/// configuration and notification are equal.
pub proof fn lemma_handler_deterministic(
    s: StateView,
    m: ReceiveView,
    r1: Result<Seq<TransferView>, CustomError>,
    r2: Result<Seq<TransferView>, CustomError>,
)
    requires
        r1 is Ok <==> spec_receive(s, m) is Ok,
        r1 is Ok ==> r1->Ok_0 == spec_receive(s, m)->Ok_0,
        r1 is Err ==> r1->Err_0 == spec_receive(s, m)->Err_0,
        r2 is Ok <==> spec_receive(s, m) is Ok,
        r2 is Ok ==> r2->Ok_0 == spec_receive(s, m)->Ok_0,
        r2 is Err ==> r2->Err_0 == spec_receive(s, m)->Err_0,
    ensures
        r1 == r2,
{
}

} // verus!
