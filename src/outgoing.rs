use vstd::prelude::*;

use crate::settlement::Transfer;
use crate::state::PaymentType;

verus! {

/// The JSON text of a cw20 `Transfer { recipient, amount }` execute message.
pub uninterp spec fn cw20_transfer_json(recipient: Seq<char>, amount: u128) -> Seq<u8>;

/// The JSON text of a cw721 `TransferNft { recipient, token_id }` execute message.
pub uninterp spec fn cw721_transfer_json(recipient: Seq<char>, token_id: Seq<char>) -> Seq<u8>;

/// Relies on `cosmwasm_std::to_json_vec` applied to
/// `cw20::Cw20ExecuteMsg::Transfer`: the bytes are the JSON text of the
/// message, which depends on the recipient and the amount alone. It succeeds:
/// `to_json_vec` only passes on errors of serde-json-wasm, whose serializer
/// has no error path for a struct variant of a string and a `Uint128` (which
/// serializes as a string).
#[verifier::external_body]
fn encode_cw20_transfer(recipient: &String, amount: u128) -> (r: Result<
    Vec<u8>,
    cosmwasm_std::StdError,
>)
    ensures
        r is Ok,
        r matches Ok(b) ==> b@ == cw20_transfer_json(recipient@, amount),
{
    cosmwasm_std::to_json_vec(
        &cw20::Cw20ExecuteMsg::Transfer {
            recipient: recipient.clone(),
            amount: cosmwasm_std::Uint128::new(amount),
        },
    )
}

/// Relies on `cosmwasm_std::to_json_vec` applied to
/// `cw721::Cw721ExecuteMsg::TransferNft`: the bytes are the JSON text of the
/// message, which depends on the recipient and the token id alone. It
/// succeeds: serde-json-wasm has no error path for a struct variant of two
/// strings.
#[verifier::external_body]
fn encode_cw721_transfer(recipient: &String, token_id: &String) -> (r: Result<
    Vec<u8>,
    cosmwasm_std::StdError,
>)
    ensures
        r is Ok,
        r matches Ok(b) ==> b@ == cw721_transfer_json(recipient@, token_id@),
{
    cosmwasm_std::to_json_vec(
        &cw721::Cw721ExecuteMsg::TransferNft {
            recipient: recipient.clone(),
            token_id: token_id.clone(),
        },
    )
}

/// A message for the host to dispatch after the operation succeeds.
#[derive(Clone, Debug, PartialEq, Eq)]
pub enum OutMsg {
    /// Send `amount` of the native denomination `denom` to `to_address`.
    BankSend { to_address: String, denom: String, amount: u128 },
    /// Execute the JSON message `msg` on the contract `contract_addr`, with no funds attached.
    WasmExecute { contract_addr: String, msg: Vec<u8> },
}

/// `m` carries out the transfer `t` of an auction paid in `payment_type` /
/// `payment`: a native payment is a bank send, a token payment a cw20
/// `Transfer` on the token contract, an asset a cw721 `TransferNft` on its
/// contract.
pub open spec fn carries_out(
    m: OutMsg,
    payment_type: PaymentType,
    payment: Seq<char>,
    t: Transfer,
) -> bool {
    match t {
        Transfer::Funds { recipient, amount } => match payment_type {
            PaymentType::Coin => m matches OutMsg::BankSend { to_address, denom, amount: a }
                && to_address@ == recipient@ && denom@ == payment && a == amount,
            PaymentType::Cw20 => m matches OutMsg::WasmExecute { contract_addr, msg }
                && contract_addr@ == payment && msg@ == cw20_transfer_json(recipient@, amount),
        },
        Transfer::Asset { contract, token_id, recipient } => m matches OutMsg::WasmExecute {
            contract_addr,
            msg,
        } && contract_addr@ == contract@ && msg@ == cw721_transfer_json(recipient@, token_id@),
    }
}

/// `msgs` carry out `plan`, one message per transfer, in order.
pub open spec fn carries_out_all(
    msgs: Seq<OutMsg>,
    payment_type: PaymentType,
    payment: Seq<char>,
    plan: Seq<Transfer>,
) -> bool {
    &&& msgs.len() == plan.len()
    &&& forall|i: int|
        0 <= i < plan.len() ==> carries_out(#[trigger] msgs[i], payment_type, payment, plan[i])
}

/// The message that carries out one transfer.
pub fn transfer_message(payment_type: PaymentType, payment: &String, t: &Transfer) -> (r: OutMsg)
    ensures
        carries_out(r, payment_type, payment@, *t),
{
    match t {
        Transfer::Funds { recipient, amount } => match payment_type {
            PaymentType::Coin => OutMsg::BankSend {
                to_address: recipient.clone(),
                denom: payment.clone(),
                amount: *amount,
            },
            PaymentType::Cw20 => OutMsg::WasmExecute {
                contract_addr: payment.clone(),
                msg: encode_cw20_transfer(recipient, *amount).unwrap(),
            },
        },
        Transfer::Asset { contract, token_id, recipient } => OutMsg::WasmExecute {
            contract_addr: contract.clone(),
            msg: encode_cw721_transfer(recipient, token_id).unwrap(),
        },
    }
}

/// The messages that carry out a plan, in order.
pub fn transfer_messages(payment_type: PaymentType, payment: &String, plan: &Vec<Transfer>) -> (r: Vec<OutMsg>)
    ensures
        carries_out_all(r@, payment_type, payment@, plan@),
{
    let mut msgs: Vec<OutMsg> = Vec::new();
    let mut i: usize = 0;
    while i < plan.len()
        invariant
            i <= plan@.len(),
            msgs@.len() == i,
            forall|k: int|
                0 <= k < i ==> carries_out(#[trigger] msgs@[k], payment_type, payment@, plan@[k]),
        decreases plan@.len() - i,
    {
        msgs.push(transfer_message(payment_type, payment, &plan[i]));
        i = i + 1;
    }
    msgs
}

} // verus!
