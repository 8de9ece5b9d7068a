//! What can go wrong when ticks and orders are stored.

use vstd::prelude::*;
use vstd::string::StringExecFns;

verus! {

/// `sqlx::Error`, carried through as the reason the database refused.
#[verifier::external_type_specification]
#[verifier::external_body]
pub struct ExDatabaseError(sqlx::Error);

/// `redis::RedisError`, carried through as the reason the cache refused.
#[verifier::external_type_specification]
#[verifier::external_body]
pub struct ExRedisError(redis::RedisError);

/// Persistence layer errors
#[derive(Debug)]
pub enum PersistenceError {
    ConnectionFailed(String),
    SaveFailed(String),
    PublishFailed { channel: String, reason: String },
    CacheFailed { key: String, reason: String },
    DatabaseError(sqlx::Error),
    RedisError(redis::RedisError),
}

/// Result of a persistence call.
pub type PersistenceResult<T> = Result<T, PersistenceError>;

impl PersistenceError {
    /// The part of the message that does not depend on an outside error:
    /// the whole message for the first four kinds, and for the last two the
    /// words before the outside error's own text.
    pub open spec fn spec_message(self) -> Seq<char> {
        match self {
            PersistenceError::ConnectionFailed(detail) => "Database connection failed: "@ + detail@,
            PersistenceError::SaveFailed(detail) => "Failed to save market tick: "@ + detail@,
            PersistenceError::PublishFailed { channel, reason } => {
                "Failed to publish to Redis channel '"@ + channel@ + "': "@ + reason@
            },
            PersistenceError::CacheFailed { key, reason } => "Failed to set cache key '"@ + key@
                + "': "@ + reason@,
            PersistenceError::DatabaseError(_) => "Database error: "@,
            PersistenceError::RedisError(_) => "Redis error: "@,
        }
    }

    /// The error as a sentence for operators; for a database or Redis error
    /// the words that introduce the outside error's own text.
    pub fn message(&self) -> (text: String)
        ensures
            text@ == self.spec_message(),
    {
        match self {
            PersistenceError::ConnectionFailed(detail) => {
                String::from_str("Database connection failed: ").concat(detail.as_str())
            },
            PersistenceError::SaveFailed(detail) => {
                String::from_str("Failed to save market tick: ").concat(detail.as_str())
            },
            PersistenceError::PublishFailed { channel, reason } => {
                let mut text: String = String::from_str("Failed to publish to Redis channel '");
                text.append(channel.as_str());
                text.append("': ");
                text.append(reason.as_str());
                text
            },
            PersistenceError::CacheFailed { key, reason } => {
                let mut text: String = String::from_str("Failed to set cache key '");
                text.append(key.as_str());
                text.append("': ");
                text.append(reason.as_str());
                text
            },
            PersistenceError::DatabaseError(_) => String::from_str("Database error: "),
            PersistenceError::RedisError(_) => String::from_str("Redis error: "),
        }
    }
}

} // verus!
