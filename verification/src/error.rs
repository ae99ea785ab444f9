//! The reasons for which an operation of the ledger is refused.
//!
//! Every refusal is final for the operation that met it: nothing is retried and
//! nothing is written.

use vstd::prelude::*;

verus! {

/// Why an operation was refused.
#[derive(Clone, Copy, Debug, PartialEq, Eq, Structural)]
pub enum ErrorCode {
    /// The caller is not the stored authority.
    Unauthorized,
    /// The points to debit exceed the balance.
    InsufficientPoints,
    /// A conversion rate is zero.
    InvalidConversionRate,
    /// A custom-rate record names another user than the one it is used for.
    InvalidCustomRateAccount,
    /// A custom-rate record was handed over but never initialized.
    CustomRateNotInitialized,
    /// A batch holds more entries than the registry takes.
    BatchTooLarge,
}

impl ErrorCode {
    /// The text shown to an end user for each refusal.
    pub open spec fn message_text(self) -> Seq<char> {
        match self {
            ErrorCode::Unauthorized => "Unauthorized"@,
            ErrorCode::InsufficientPoints => "Insufficient points balance"@,
            ErrorCode::InvalidConversionRate => "Invalid conversion rate"@,
            ErrorCode::InvalidCustomRateAccount => "Invalid custom rate account"@,
            ErrorCode::CustomRateNotInitialized => "Custom rate account not initialized"@,
            ErrorCode::BatchTooLarge => "Batch size too large"@,
        }
    }

    /// The text shown to an end user for this refusal.
    pub fn message(&self) -> (text: &'static str)
        ensures
            text@ == self.message_text(),
    {
        match self {
            ErrorCode::Unauthorized => "Unauthorized",
            ErrorCode::InsufficientPoints => "Insufficient points balance",
            ErrorCode::InvalidConversionRate => "Invalid conversion rate",
            ErrorCode::InvalidCustomRateAccount => "Invalid custom rate account",
            ErrorCode::CustomRateNotInitialized => "Custom rate account not initialized",
            ErrorCode::BatchTooLarge => "Batch size too large",
        }
    }
}

} // verus!
