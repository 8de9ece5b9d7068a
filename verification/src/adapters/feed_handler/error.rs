//! What can go wrong in a feed handler.

use vstd::prelude::*;
use vstd::string::StringExecFns;

verus! {

/// `serde_json::Error`, carried through as the reason a frame is no JSON.
#[verifier::external_type_specification]
#[verifier::external_body]
pub struct ExJsonError(serde_json::Error);

/// `tungstenite::Error`, carried through as the reason a connection failed.
#[verifier::external_type_specification]
#[verifier::external_body]
pub struct ExSocketError(tokio_tungstenite::tungstenite::Error);

/// Feed handler errors
#[derive(Debug)]
pub enum FeedError {
    ConnectionFailed(tokio_tungstenite::tungstenite::Error),
    SubscriptionFailed { symbol: String, reason: String },
    ParseError(serde_json::Error),
    InvalidData(String),
    MissingCredentials { exchange: String },
    WebSocketError(tokio_tungstenite::tungstenite::Error),
    JsonError(serde_json::Error),
    NumberParseError { field: String },
}

/// Result of a feed operation.
pub type FeedResult<T> = Result<T, FeedError>;

/// The class an error falls in, which decides what the handler does about it.
#[derive(Debug, Clone, Copy, PartialEq, Eq, Structural)]
pub enum ErrorClass {
    /// The connection is lost or was never made: retried after the backoff.
    Connection,
    /// One message could not be read: it is skipped, the connection stays.
    Parse,
    /// A required credential is missing: the handler is not built.
    Credential,
}

impl FeedError {
    /// The class of this error.
    pub open spec fn spec_class(self) -> ErrorClass {
        match self {
            FeedError::ConnectionFailed(_) => ErrorClass::Connection,
            FeedError::SubscriptionFailed { .. } => ErrorClass::Connection,
            FeedError::WebSocketError(_) => ErrorClass::Connection,
            FeedError::ParseError(_) => ErrorClass::Parse,
            FeedError::InvalidData(_) => ErrorClass::Parse,
            FeedError::JsonError(_) => ErrorClass::Parse,
            FeedError::NumberParseError { .. } => ErrorClass::Parse,
            FeedError::MissingCredentials { .. } => ErrorClass::Credential,
        }
    }

    /// The class of this error.
    pub fn class(&self) -> (class: ErrorClass)
        ensures
            class == self.spec_class(),
    {
        match self {
            FeedError::ConnectionFailed(_) => ErrorClass::Connection,
            FeedError::SubscriptionFailed { .. } => ErrorClass::Connection,
            FeedError::WebSocketError(_) => ErrorClass::Connection,
            FeedError::ParseError(_) => ErrorClass::Parse,
            FeedError::InvalidData(_) => ErrorClass::Parse,
            FeedError::JsonError(_) => ErrorClass::Parse,
            FeedError::NumberParseError { .. } => ErrorClass::Parse,
            FeedError::MissingCredentials { .. } => ErrorClass::Credential,
        }
    }

    /// The text of [`FeedError::message`].
    pub open spec fn spec_message(self) -> Seq<char> {
        match self {
            FeedError::ConnectionFailed(_) => "WebSocket connection failed"@,
            FeedError::SubscriptionFailed { symbol, reason } => "Failed to subscribe to "@ + symbol@
                + ": "@ + reason@,
            FeedError::ParseError(_) => "Failed to parse message"@,
            FeedError::InvalidData(detail) => "Invalid market data: "@ + detail@,
            FeedError::MissingCredentials { exchange } => "Missing API credentials for "@
                + exchange@,
            FeedError::WebSocketError(_) => "WebSocket error"@,
            FeedError::JsonError(_) => "JSON error"@,
            FeedError::NumberParseError { field } => "Failed to parse number: "@ + field@,
        }
    }

    /// The error as a sentence for operators.
    pub fn message(&self) -> (text: String)
        ensures
            text@ == self.spec_message(),
    {
        match self {
            FeedError::ConnectionFailed(_) => String::from_str("WebSocket connection failed"),
            FeedError::SubscriptionFailed { symbol, reason } => {
                let mut text: String = String::from_str("Failed to subscribe to ");
                text.append(symbol.as_str());
                text.append(": ");
                text.append(reason.as_str());
                text
            },
            FeedError::ParseError(_) => String::from_str("Failed to parse message"),
            FeedError::InvalidData(detail) => {
                String::from_str("Invalid market data: ").concat(detail.as_str())
            },
            FeedError::MissingCredentials { exchange } => {
                String::from_str("Missing API credentials for ").concat(exchange.as_str())
            },
            FeedError::WebSocketError(_) => String::from_str("WebSocket error"),
            FeedError::JsonError(_) => String::from_str("JSON error"),
            FeedError::NumberParseError { field } => {
                String::from_str("Failed to parse number: ").concat(field.as_str())
            },
        }
    }
}

} // verus!
