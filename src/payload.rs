//! The JSON payloads of CW20 messages, encoded by cosmwasm-std. Each encoding depends on the
//! message's fields alone; its bytes are named here, not spelled out. The encoder writes strings,
//! integers-as-strings and struct variants, none of which can fail.
use vstd::prelude::*;

verus! {

/// The encoding of cw20's `Transfer { recipient, amount }`.
pub uninterp spec fn cw20_transfer_json(recipient: Seq<char>, amount: u128) -> Seq<u8>;

/// The encoding of cw20's `TransferFrom { owner, recipient, amount }`.
pub uninterp spec fn cw20_transfer_from_json(
    owner: Seq<char>,
    recipient: Seq<char>,
    amount: u128,
) -> Seq<u8>;

/// The encoding of cw20's `Send { contract, amount, msg }`.
pub uninterp spec fn cw20_send_json(contract: Seq<char>, amount: u128, msg: Seq<u8>) -> Seq<u8>;

/// The encoding of cw20's query `Balance { address }`.
pub uninterp spec fn cw20_balance_query_json(address: Seq<char>) -> Seq<u8>;

/// Relies on `cosmwasm_std::to_binary` applied to `cw20::Cw20ExecuteMsg::Transfer`.
#[verifier::external_body]
pub(crate) fn encode_transfer(recipient: &str, amount: u128) -> (r: Result<Vec<u8>, String>)
    ensures
        r is Ok,
        r matches Ok(b) ==> b@ == cw20_transfer_json(recipient@, amount),
{
    cosmwasm_std::to_binary(
        &cw20::Cw20ExecuteMsg::Transfer {
            recipient: recipient.to_string(),
            amount: cosmwasm_std::Uint128::new(amount),
        },
    ).map(|b| b.0).map_err(|e| e.to_string())
}

/// Relies on `cosmwasm_std::to_binary` applied to `cw20::Cw20ExecuteMsg::TransferFrom`.
#[verifier::external_body]
pub(crate) fn encode_transfer_from(owner: &str, recipient: &str, amount: u128) -> (r: Result<
    Vec<u8>,
    String,
>)
    ensures
        r is Ok,
        r matches Ok(b) ==> b@ == cw20_transfer_from_json(owner@, recipient@, amount),
{
    cosmwasm_std::to_binary(
        &cw20::Cw20ExecuteMsg::TransferFrom {
            owner: owner.to_string(),
            recipient: recipient.to_string(),
            amount: cosmwasm_std::Uint128::new(amount),
        },
    ).map(|b| b.0).map_err(|e| e.to_string())
}

/// Relies on `cosmwasm_std::to_binary` applied to `cw20::Cw20ExecuteMsg::Send`.
#[verifier::external_body]
pub(crate) fn encode_send(contract: &str, amount: u128, msg: &[u8]) -> (r: Result<Vec<u8>, String>)
    ensures
        r is Ok,
        r matches Ok(b) ==> b@ == cw20_send_json(contract@, amount, msg@),
{
    cosmwasm_std::to_binary(
        &cw20::Cw20ExecuteMsg::Send {
            contract: contract.to_string(),
            amount: cosmwasm_std::Uint128::new(amount),
            msg: cosmwasm_std::Binary(msg.to_vec()),
        },
    ).map(|b| b.0).map_err(|e| e.to_string())
}

/// Relies on `cosmwasm_std::to_binary` applied to `cw20::Cw20QueryMsg::Balance`.
#[verifier::external_body]
pub(crate) fn encode_balance_query(address: &str) -> (r: Result<Vec<u8>, String>)
    ensures
        r is Ok,
        r matches Ok(b) ==> b@ == cw20_balance_query_json(address@),
{
    cosmwasm_std::to_binary(&cw20::Cw20QueryMsg::Balance { address: address.to_string() }).map(
        |b| b.0,
    ).map_err(|e| e.to_string())
}

} // verus!
