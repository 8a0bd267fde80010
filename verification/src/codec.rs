use vstd::prelude::*;
use cosmwasm_std::{to_json_binary, OverflowError, StdError, Uint128};
use cw20::Cw20ExecuteMsg;
use crate::error::LedgerError;
use crate::response::{TokenOrder, TokenOrderView, TransferInstruction, TransferInstructionView};

verus! {

/// The error of cosmwasm_std's checked arithmetic. The ledger reads
/// nothing in it.
#[verifier::external_type_specification]
#[verifier::external_body]
pub struct ExOverflowError(OverflowError);

/// The error of cosmwasm_std's serialisation. The ledger reads nothing
/// in it.
#[verifier::external_type_specification]
#[verifier::external_body]
pub struct ExStdError(StdError);

/// Calls `Uint128::checked_sub` of cosmwasm_std on two amounts. The contract
/// claims that the difference comes back exactly when it is not negative, and
/// that the call fails otherwise.
#[verifier::external_body]
pub(crate) fn checked_sub(minuend: u128, subtrahend: u128) -> (r: Result<u128, OverflowError>)
    ensures
        minuend >= subtrahend ==> r is Ok && r->Ok_0 == minuend - subtrahend,
        minuend < subtrahend ==> r is Err,
{
    Uint128::new(minuend).checked_sub(Uint128::new(subtrahend)).map(|d| d.u128())
}

/// The decimal digit of a number below ten.
pub open spec fn digit(d: nat) -> char {
    seq!['0', '1', '2', '3', '4', '5', '6', '7', '8', '9'][d as int]
}

/// A number written in base ten, without sign and without leading zeros.
pub open spec fn decimal(n: nat) -> Seq<char>
    decreases n,
{
    if n < 10 {
        seq![digit(n)]
    } else {
        decimal(n / 10).push(digit(n % 10))
    }
}

/// Formats an amount as cosmwasm_std's `Uint128` displays it. The contract
/// claims that the text is the amount in base ten.
#[verifier::external_body]
pub(crate) fn amount_text(amount: u128) -> (r: String)
    ensures
        r@ == decimal(amount as nat),
{
    Uint128::new(amount).to_string()
}

/// Formats a counter with std's `to_string`. The contract claims that the
/// text is the counter in base ten.
#[verifier::external_body]
pub(crate) fn counter_text(n: u64) -> (r: String)
    ensures
        r@ == decimal(n as nat),
{
    n.to_string()
}

/// The JSON bytes in which cosmwasm_std's `to_json_binary` writes the cw20
/// execute message of an order, or `None` where it reports an error.
pub uninterp spec fn cw20_json(order: TokenOrderView) -> Option<Seq<u8>>;

/// Builds the `Cw20ExecuteMsg` of cw20 that stands for `order` and
/// serialises it with `to_json_binary` of cosmwasm_std. The contract claims
/// only that the outcome is determined by the order.
#[verifier::external_body]
pub(crate) fn encode_order(order: &TokenOrder) -> (r: Result<Vec<u8>, StdError>)
    ensures
        r is Ok ==> cw20_json(order@) == Some(r->Ok_0@),
        r is Err ==> cw20_json(order@) is None,
{
    let msg = match order {
        TokenOrder::Transfer { recipient, amount } => Cw20ExecuteMsg::Transfer {
            recipient: recipient.clone(),
            amount: Uint128::new(*amount),
        },
        TokenOrder::TransferFrom { owner, recipient, amount } => Cw20ExecuteMsg::TransferFrom {
            owner: owner.clone(),
            recipient: recipient.clone(),
            amount: Uint128::new(*amount),
        },
    };
    to_json_binary(&msg).map(Vec::from)
}

/// The instruction that carries `order` in the bytes `msg` to `contract_addr`.
pub open spec fn instruction_view(contract_addr: Seq<char>, order: TokenOrderView, msg: Seq<u8>) -> TransferInstructionView {
    TransferInstructionView { contract_addr, order, msg }
}

/// Makes the instruction for `order` out of the outcome of encoding it:
/// the instruction with the encoded bytes, or `EncodingFailed` where the
/// encoding reported an error.
pub fn instruction_from(contract_addr: String, order: TokenOrder, encoded: Result<Vec<u8>, StdError>) -> (r: Result<
    TransferInstruction,
    LedgerError,
>)
    ensures
        encoded is Ok ==> r is Ok && r->Ok_0@ == instruction_view(contract_addr@, order@, encoded->Ok_0@),
        encoded is Err ==> r is Err && r->Err_0 == LedgerError::EncodingFailed,
{
    match encoded {
        Ok(msg) => Ok(TransferInstruction { contract_addr, order, msg }),
        Err(_) => Err(LedgerError::EncodingFailed),
    }
}

/// Whether `order` can be encoded for a token contract.
pub open spec fn encodable(order: TokenOrderView) -> bool {
    cw20_json(order) is Some
}

/// Encodes `order` for the token contract `contract_addr`.
pub fn instruct(contract_addr: String, order: TokenOrder) -> (r: Result<TransferInstruction, LedgerError>)
    ensures
        encodable(order@) ==> r is Ok && r->Ok_0@ == instruction_view(
            contract_addr@,
            order@,
            cw20_json(order@)->Some_0,
        ),
        !encodable(order@) ==> r is Err && r->Err_0 == LedgerError::EncodingFailed,
{
    let encoded = encode_order(&order);
    instruction_from(contract_addr, order, encoded)
}

} // verus!
