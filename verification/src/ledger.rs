//! The boundary to the token ledger: the wire form of the messages that the
//! pool sends to it.

use cosmwasm_std::{to_binary, StdError, Uint128};
use cw20::Cw20ExecuteMsg;
use vstd::prelude::*;

verus! {

/// `cosmwasm_std::StdError`, carried through as an opaque value.
#[verifier::external_type_specification]
#[verifier::external_body]
pub struct ExStdError(StdError);

/// The bytes that `cosmwasm_std::to_binary` gives for cw20's `TransferFrom`
/// message with this owner, recipient and amount: its JSON text.
pub uninterp spec fn transfer_from_json(owner: Seq<char>, recipient: Seq<char>, amount: u128) -> Seq<u8>;

/// Calls `cosmwasm_std::to_binary` on `Cw20ExecuteMsg::TransferFrom`.
///
/// Trusted, not proved: the call succeeds, and the bytes are those that
/// [`transfer_from_json`] names for the same three values. It succeeds
/// because the message holds two strings and an amount that is written as a
/// string, and the JSON writer behind `to_binary` turns no string down.
#[verifier::external_body]
pub(crate) fn encode_transfer_from(
    owner: &str,
    recipient: &str,
    amount: u128,
) -> (res: Result<Vec<u8>, StdError>)
    ensures
        res is Ok,
        res matches Ok(bytes) ==> bytes@ == transfer_from_json(owner@, recipient@, amount),
{
    let msg = Cw20ExecuteMsg::TransferFrom {
        owner: owner.to_string(),
        recipient: recipient.to_string(),
        amount: Uint128::new(amount),
    };
    to_binary(&msg).map(|binary| binary.0)
}

} // verus!
