use cw20_forwarder::contract::{handle, receive_cw20};
use cw20_forwarder::error::CustomError;
use cw20_forwarder::msg::{HandleMsg, HandleResponse, ReceiveMsg, TransferMsg};
use cw20_forwarder::state::{init, InitMsg, State};

fn config() -> State {
    init(InitMsg {
        address1: "address1".to_string(),
        address2: "address2".to_string(),
        address3: "address3".to_string(),
        token_x_contract: "token-x".to_string(),
        token_y_contract: "token-y".to_string(),
        token_z_contract: "token-z".to_string(),
    })
}

fn notification(recipient: &str, sender: &str, token: &str, amount: u128) -> ReceiveMsg {
    ReceiveMsg {
        recipient: recipient.to_string(),
        sender: sender.to_string(),
        token: token.to_string(),
        amount,
    }
}

#[test]
fn wrong_recipient_is_rejected() {
    let state = config();
    let r = receive_cw20(&state, notification("nobody", "address3", "token-y", 100));
    assert_eq!(r, Err(CustomError::InvalidReceiverAddress));
}

#[test]
fn wrong_recipient_is_rejected_whatever_the_rest() {
    let state = config();
    // Even a sender mismatch on top reports the recipient mismatch first.
    let r = receive_cw20(&state, notification("address1", "someone", "token-z", 0));
    assert_eq!(r, Err(CustomError::InvalidReceiverAddress));
}

#[test]
fn trigger_token_is_forwarded() {
    let state = config();
    let r = receive_cw20(&state, notification("address2", "address3", "token-y", 250));
    let response = r.expect("the trigger transfer must succeed");
    assert_eq!(
        response,
        HandleResponse {
            messages: vec![TransferMsg {
                contract: "token-x".to_string(),
                source: "address1".to_string(),
                recipient: "address3".to_string(),
                amount: 250,
            }],
        }
    );
}

#[test]
fn forwarded_amount_matches_received_amount() {
    let state = config();
    for amount in [0u128, 1, 42, u128::MAX] {
        let r = receive_cw20(&state, notification("address2", "address3", "token-y", amount));
        let response = r.expect("the trigger transfer must succeed");
        assert_eq!(response.messages.len(), 1);
        assert_eq!(response.messages[0].amount, amount);
        assert_eq!(response.messages[0].recipient, "address3");
        assert_eq!(response.messages[0].contract, "token-x");
        assert_eq!(response.messages[0].source, "address1");
    }
}

#[test]
fn other_token_is_ignored() {
    let state = config();
    let r = receive_cw20(&state, notification("address2", "address3", "token-z", 100));
    assert_eq!(r, Ok(HandleResponse { messages: vec![] }));
}

#[test]
fn unknown_token_is_ignored() {
    let state = config();
    let r = receive_cw20(&state, notification("address2", "address3", "token-w", 5));
    assert_eq!(r, Ok(HandleResponse { messages: vec![] }));
}

#[test]
fn wrong_sender_is_rejected() {
    let state = config();
    for token in ["token-x", "token-y", "token-z"] {
        for amount in [0u128, 7, u128::MAX] {
            let r = receive_cw20(&state, notification("address2", "address1", token, amount));
            assert_eq!(r, Err(CustomError::InvalidSenderAddress));
        }
    }
}

#[test]
fn handle_dispatches_to_receive() {
    let state = config();
    let msg = HandleMsg::Receive(notification("address2", "address3", "token-y", 9));
    let r = handle(&state, msg);
    let response = r.expect("the trigger transfer must succeed");
    assert_eq!(response.messages.len(), 1);
    assert_eq!(response.messages[0].amount, 9);
}

#[test]
fn repeated_calls_give_identical_results() {
    let state = config();
    let msg = notification("address2", "address3", "token-y", 77);
    let first = receive_cw20(&state, msg.clone());
    let second = receive_cw20(&state, msg);
    assert_eq!(first, second);

    let rejected = notification("address2", "intruder", "token-y", 77);
    let first = receive_cw20(&state, rejected.clone());
    let second = receive_cw20(&state, rejected);
    assert_eq!(first, second);
}

#[test]
fn init_records_the_addresses_unchanged() {
    let state = config();
    assert_eq!(state.address1, "address1");
    assert_eq!(state.address2, "address2");
    assert_eq!(state.address3, "address3");
    assert_eq!(state.token_x_contract, "token-x");
    assert_eq!(state.token_y_contract, "token-y");
    assert_eq!(state.token_z_contract, "token-z");
}

#[test]
fn empty_addresses_still_decide_by_equality() {
    let state = init(InitMsg {
        address1: "".to_string(),
        address2: "".to_string(),
        address3: "".to_string(),
        token_x_contract: "".to_string(),
        token_y_contract: "".to_string(),
        token_z_contract: "".to_string(),
    });
    let r = receive_cw20(&state, notification("", "", "", 3));
    let response = r.expect("everything matches, so the transfer is forwarded");
    assert_eq!(response.messages.len(), 1);
    assert_eq!(response.messages[0].amount, 3);
}

#[test]
fn error_messages() {
    assert_eq!(
        CustomError::InvalidReceiverAddress.message(),
        "Invalid receiver address"
    );
    assert_eq!(
        CustomError::InvalidSenderAddress.message(),
        "Invalid sender address"
    );
}
