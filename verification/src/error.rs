//! The reasons for which a call is rejected.

use vstd::prelude::*;

verus! {

/// Why a call was rejected. A rejected call leaves the contract as it was.
#[derive(Clone, Copy, Debug, PartialEq, Eq, Structural)]
pub enum PaymentError {
    /// The caller is not the account that this entry point is reserved for.
    Unauthorized,
    /// The attached deposit is smaller than the declared order amount.
    InsufficientDeposit,
    /// The transfer notification's payload is not a payment message.
    InvalidMessage,
    /// The transferred amount is smaller than the declared order amount.
    InsufficientAmount,
    /// A completed order is already recorded under this id.
    DuplicateOrder,
    /// No order is recorded under this id.
    NotFound,
    /// The order is not completed, or a refund is already pending or confirmed.
    InvalidState,
    /// The continuation did not find exactly one transfer result.
    TooManyResults,
}

impl PaymentError {
    /// The text that names this error to the caller of a failed transaction.
    pub open spec fn text(self) -> Seq<char> {
        match self {
            PaymentError::Unauthorized => "ERROR_UNAUTHORIZED"@,
            PaymentError::InsufficientDeposit => "ERROR_DEPOSIT_NOT_ENOUGH"@,
            PaymentError::InvalidMessage => "ERROR_NOT_VALID_MESSAGE"@,
            PaymentError::InsufficientAmount => "ERROR_AMOUNT_NOT_ENOUGH"@,
            PaymentError::DuplicateOrder => "ERROR_ORDER_ALREADY_COMPLETED"@,
            PaymentError::NotFound => "NOT_FOUND_ORDER_ID"@,
            PaymentError::InvalidState => "ERROR_INVALID_ORDER_STATE"@,
            PaymentError::TooManyResults => "ERROR_TOO_MANY_RESULTS"@,
        }
    }

    /// The error's text as an owned string, for a panic message or a log line.
    pub fn message(&self) -> (text: String)
        ensures
            text@ == self.text(),
    {
        match self {
            PaymentError::Unauthorized => "ERROR_UNAUTHORIZED".to_owned(),
            PaymentError::InsufficientDeposit => "ERROR_DEPOSIT_NOT_ENOUGH".to_owned(),
            PaymentError::InvalidMessage => "ERROR_NOT_VALID_MESSAGE".to_owned(),
            PaymentError::InsufficientAmount => "ERROR_AMOUNT_NOT_ENOUGH".to_owned(),
            PaymentError::DuplicateOrder => "ERROR_ORDER_ALREADY_COMPLETED".to_owned(),
            PaymentError::NotFound => "NOT_FOUND_ORDER_ID".to_owned(),
            PaymentError::InvalidState => "ERROR_INVALID_ORDER_STATE".to_owned(),
            PaymentError::TooManyResults => "ERROR_TOO_MANY_RESULTS".to_owned(),
        }
    }
}

} // verus!
