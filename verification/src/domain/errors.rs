//! Reasons for which the domain refuses an order or a piece of market data.

use vstd::prelude::*;
use vstd::string::StringExecFns;
use crate::decimal::Decimal;

verus! {

/// A refusal by the domain.
#[derive(Debug, Clone, PartialEq)]
pub enum DomainError {
    InvalidOrder(String),
    InsufficientBalance { required: Decimal, available: Decimal },
    RiskLimitExceeded(String),
    InvalidMarketData(String),
    ExchangeError(String),
}

/// Result of a domain operation.
pub type DomainResult<T> = Result<T, DomainError>;

impl DomainError {
    /// The text of [`DomainError::message`].
    pub open spec fn spec_message(self) -> Seq<char> {
        match self {
            DomainError::InvalidOrder(detail) => "Invalid order: "@ + detail@,
            DomainError::InsufficientBalance { required, available } => {
                "Insufficient balance: required "@ + required@.text() + ", available "@
                    + available@.text()
            },
            DomainError::RiskLimitExceeded(detail) => "Risk limit exceeded: "@ + detail@,
            DomainError::InvalidMarketData(detail) => "Invalid market data: "@ + detail@,
            DomainError::ExchangeError(detail) => "Exchange error: "@ + detail@,
        }
    }

    /// The refusal as a sentence for operators.
    pub fn message(&self) -> (text: String)
        ensures
            text@ == self.spec_message(),
    {
        match self {
            DomainError::InvalidOrder(detail) => {
                String::from_str("Invalid order: ").concat(detail.as_str())
            },
            DomainError::InsufficientBalance { required, available } => {
                let mut text: String = String::from_str("Insufficient balance: required ");
                text.append(required.to_text().as_str());
                text.append(", available ");
                text.append(available.to_text().as_str());
                text
            },
            DomainError::RiskLimitExceeded(detail) => {
                String::from_str("Risk limit exceeded: ").concat(detail.as_str())
            },
            DomainError::InvalidMarketData(detail) => {
                String::from_str("Invalid market data: ").concat(detail.as_str())
            },
            DomainError::ExchangeError(detail) => {
                String::from_str("Exchange error: ").concat(detail.as_str())
            },
        }
    }
}

} // verus!
