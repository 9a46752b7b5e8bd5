//! The byte encodings the contract exchanges with cw20 token contracts:
//! the outbound transfer call, the balance query, and the balance
//! response. The encodings themselves come from `cosmwasm_std`'s JSON
//! serializer; each is named here and everything around the calls is
//! verified.

use vstd::prelude::*;
use vstd::pervasive::unreached;

use crate::msg::TransferMsg;

verus! {

/// What went wrong while decoding a cw20 message.
#[derive(Clone, Copy, Debug, PartialEq, Eq, Structural)]
pub enum CodecError {
    Deserialize,
}

/// The JSON encoding of a cw20 transfer-from call moving `amount` tokens
/// out of `source`'s account to `recipient`; a function of the three
/// alone.
pub uninterp spec fn transfer_payload(source: Seq<char>, recipient: Seq<char>, amount: u128) -> Seq<
    u8,
>;

/// The JSON encoding of a cw20 balance query for `address`; a function
/// of the address alone.
pub uninterp spec fn balance_query_payload(address: Seq<char>) -> Seq<u8>;

/// The balance held in a cw20 balance response, if `data` is one; a
/// function of the bytes alone.
pub uninterp spec fn decoded_balance(data: Seq<u8>) -> Option<u128>;

#[verifier::external_type_specification]
#[verifier::external_body]
pub struct ExStdError(cosmwasm_std::StdError);

/// Relies on `cosmwasm_std::to_json_vec` applied to
/// `cw20::Cw20ExecuteMsg::TransferFrom`: the serializer writes the JSON
/// encoding of the message, which depends on source, recipient and
/// amount alone, into a growable buffer; for this fixed-shape message of
/// strings and an integer it cannot fail.
#[verifier::external_body]
fn encode_transfer_call(source: &String, recipient: &String, amount: u128) -> (r: Result<
    Vec<u8>,
    cosmwasm_std::StdError,
>)
    ensures
        r is Ok,
        r->Ok_0@ == transfer_payload(source@, recipient@, amount),
{
    cosmwasm_std::to_json_vec(
        &cw20::Cw20ExecuteMsg::TransferFrom {
            owner: source.clone(),
            recipient: recipient.clone(),
            amount: cosmwasm_std::Uint128::new(amount),
        },
    )
}

/// Relies on `cosmwasm_std::to_json_vec` applied to
/// `cw20::Cw20QueryMsg::Balance`: the serializer writes the JSON
/// encoding of the query, which depends on the address alone, into a
/// growable buffer; for this fixed-shape message of one string it cannot
/// fail.
#[verifier::external_body]
fn encode_balance_query_call(address: &String) -> (r: Result<Vec<u8>, cosmwasm_std::StdError>)
    ensures
        r is Ok,
        r->Ok_0@ == balance_query_payload(address@),
{
    cosmwasm_std::to_json_vec(&cw20::Cw20QueryMsg::Balance { address: address.clone() })
}

/// Relies on `cosmwasm_std::from_json` applied at `cw20::BalanceResponse`:
/// whether the bytes parse, and the balance they carry when they do,
/// depend on the bytes alone.
#[verifier::external_body]
fn decode_balance_call(data: &Vec<u8>) -> (r: Result<u128, cosmwasm_std::StdError>)
    ensures
        r is Ok <==> decoded_balance(data@) is Some,
        r is Ok ==> Some(r->Ok_0) == decoded_balance(data@),
{
    let response: cw20::BalanceResponse = cosmwasm_std::from_json(data)?;
    Ok(response.balance.u128())
}

/// The byte payload that asks the token contract of `msg` to carry out
/// the transfer `msg` describes: the cw20 transfer-from call moving
/// `msg.amount` tokens out of `msg.source`'s account to `msg.recipient`.
pub fn transfer_msg_bytes(msg: &TransferMsg) -> (r: Vec<u8>)
    ensures
        r@ == transfer_payload(msg.source@, msg.recipient@, msg.amount),
{
    match encode_transfer_call(&msg.source, &msg.recipient, msg.amount) {
        Ok(bytes) => bytes,
        Err(_) => unreached(),
    }
}

/// The byte payload of a cw20 balance query for `address`.
pub fn balance_query_bytes(address: &String) -> (r: Vec<u8>)
    ensures
        r@ == balance_query_payload(address@),
{
    match encode_balance_query_call(address) {
        Ok(bytes) => bytes,
        Err(_) => unreached(),
    }
}

/// The balance carried in the cw20 balance response `data`, or the
/// deserialization error when the bytes are not such a response.
pub fn decode_token_balance(data: &Vec<u8>) -> (r: Result<u128, CodecError>)
    ensures
        r is Ok <==> decoded_balance(data@) is Some,
        r is Ok ==> Some(r->Ok_0) == decoded_balance(data@),
        r is Err ==> r->Err_0 == CodecError::Deserialize,
{
    match decode_balance_call(data) {
        Ok(balance) => Ok(balance),
        Err(_) => Err(CodecError::Deserialize),
    }
}

} // verus!
