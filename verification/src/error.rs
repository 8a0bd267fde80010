use vstd::prelude::*;

verus! {

/// Why a ledger operation was rejected.
#[derive(Clone, Copy, Debug, PartialEq, Eq, Structural)]
pub enum LedgerError {
    /// The admin profile, user profile or loan that the operation needs is not stored.
    NotFound,
    /// An admin-only operation was attempted by another identity.
    Unauthorized,
    /// No deposited line item of the token holds the requested amount.
    InsufficientBalance,
    /// The supplied token address differs from the one stored on the loan.
    TokenMismatch,
    /// A checked subtraction went below zero.
    ArithmeticError,
    /// The token instruction could not be encoded.
    EncodingFailed,
}

impl LedgerError {
    /// The text that `message` gives for this reason.
    pub open spec fn message_text(self) -> Seq<char> {
        match self {
            LedgerError::NotFound => "Not found"@,
            LedgerError::Unauthorized => "Unauthorized"@,
            LedgerError::InsufficientBalance => "Insufficient collateral balance for the given token"@,
            LedgerError::TokenMismatch => "Token mismatch"@,
            LedgerError::ArithmeticError => "Arithmetic error"@,
            LedgerError::EncodingFailed => "Encoding failed"@,
        }
    }

    /// The message with which this reason is reported to the caller.
    pub fn message(&self) -> (r: String)
        ensures
            r@ == self.message_text(),
    {
        match self {
            LedgerError::NotFound => "Not found".to_owned(),
            LedgerError::Unauthorized => "Unauthorized".to_owned(),
            LedgerError::InsufficientBalance => "Insufficient collateral balance for the given token".to_owned(),
            LedgerError::TokenMismatch => "Token mismatch".to_owned(),
            LedgerError::ArithmeticError => "Arithmetic error".to_owned(),
            LedgerError::EncodingFailed => "Encoding failed".to_owned(),
        }
    }
}

} // verus!
