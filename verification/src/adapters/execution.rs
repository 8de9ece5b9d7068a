//! Execution clients: credentials and the reasons a venue refuses an order.

use vstd::prelude::*;
use vstd::string::StringExecFns;

verus! {

/// Execution layer errors
#[derive(Debug, Clone, PartialEq, Eq)]
pub enum ExecutionError {
    OrderFailed { exchange: String, reason: String },
    CancelFailed { order_id: String, reason: String },
    InvalidOrder(String),
    AuthenticationFailed { exchange: String },
    HttpError(String),
    RateLimitExceeded { exchange: String },
    OrderTimeout(String),
}

/// Result of an execution call.
pub type ExecutionResult<T> = Result<T, ExecutionError>;

impl ExecutionError {
    /// The text of [`ExecutionError::message`].
    pub open spec fn spec_message(self) -> Seq<char> {
        match self {
            ExecutionError::OrderFailed { exchange, reason } => "Failed to place order on "@
                + exchange@ + ": "@ + reason@,
            ExecutionError::CancelFailed { order_id, reason } => "Failed to cancel order '"@
                + order_id@ + "': "@ + reason@,
            ExecutionError::InvalidOrder(detail) => "Invalid order: "@ + detail@,
            ExecutionError::AuthenticationFailed { exchange } => "Authentication failed for "@
                + exchange@,
            ExecutionError::HttpError(detail) => "HTTP request failed: "@ + detail@,
            ExecutionError::RateLimitExceeded { exchange } => "Rate limit exceeded on "@ + exchange@,
            ExecutionError::OrderTimeout(detail) => "Order timeout: "@ + detail@,
        }
    }

    /// The error as a sentence for operators.
    pub fn message(&self) -> (text: String)
        ensures
            text@ == self.spec_message(),
    {
        match self {
            ExecutionError::OrderFailed { exchange, reason } => {
                let mut text: String = String::from_str("Failed to place order on ");
                text.append(exchange.as_str());
                text.append(": ");
                text.append(reason.as_str());
                text
            },
            ExecutionError::CancelFailed { order_id, reason } => {
                let mut text: String = String::from_str("Failed to cancel order '");
                text.append(order_id.as_str());
                text.append("': ");
                text.append(reason.as_str());
                text
            },
            ExecutionError::InvalidOrder(detail) => {
                String::from_str("Invalid order: ").concat(detail.as_str())
            },
            ExecutionError::AuthenticationFailed { exchange } => {
                String::from_str("Authentication failed for ").concat(exchange.as_str())
            },
            ExecutionError::HttpError(detail) => {
                String::from_str("HTTP request failed: ").concat(detail.as_str())
            },
            ExecutionError::RateLimitExceeded { exchange } => {
                String::from_str("Rate limit exceeded on ").concat(exchange.as_str())
            },
            ExecutionError::OrderTimeout(detail) => {
                String::from_str("Order timeout: ").concat(detail.as_str())
            },
        }
    }
}

/// Binance execution client
pub struct BinanceExecutor {
    api_key: String,
    api_secret: String,
}

impl BinanceExecutor {
    /// The key the client signs in with.
    pub closed spec fn key(self) -> Seq<char> {
        self.api_key@
    }

    /// The secret the client signs with.
    pub closed spec fn secret(self) -> Seq<char> {
        self.api_secret@
    }

    pub fn new(api_key: String, api_secret: String) -> (executor: BinanceExecutor)
        ensures
            executor.key() == api_key@,
            executor.secret() == api_secret@,
    {
        BinanceExecutor { api_key, api_secret }
    }

    /// The key the client signs in with.
    pub fn api_key(&self) -> (key: &str)
        ensures
            key@ == self.key(),
    {
        self.api_key.as_str()
    }

    /// The secret the client signs with.
    pub fn api_secret(&self) -> (secret: &str)
        ensures
            secret@ == self.secret(),
    {
        self.api_secret.as_str()
    }
}

/// OKX execution client
pub struct OkxExecutor {
    api_key: String,
    api_secret: String,
    passphrase: String,
}

impl OkxExecutor {
    /// The key the client signs in with.
    pub closed spec fn key(self) -> Seq<char> {
        self.api_key@
    }

    /// The secret the client signs with.
    pub closed spec fn secret(self) -> Seq<char> {
        self.api_secret@
    }

    /// The passphrase that goes with the key.
    pub closed spec fn phrase(self) -> Seq<char> {
        self.passphrase@
    }

    pub fn new(api_key: String, api_secret: String, passphrase: String) -> (executor: OkxExecutor)
        ensures
            executor.key() == api_key@,
            executor.secret() == api_secret@,
            executor.phrase() == passphrase@,
    {
        OkxExecutor { api_key, api_secret, passphrase }
    }

    /// The key the client signs in with.
    pub fn api_key(&self) -> (key: &str)
        ensures
            key@ == self.key(),
    {
        self.api_key.as_str()
    }

    /// The secret the client signs with.
    pub fn api_secret(&self) -> (secret: &str)
        ensures
            secret@ == self.secret(),
    {
        self.api_secret.as_str()
    }

    /// The passphrase that goes with the key.
    pub fn passphrase(&self) -> (phrase: &str)
        ensures
            phrase@ == self.phrase(),
    {
        self.passphrase.as_str()
    }
}

} // verus!
