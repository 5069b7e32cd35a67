//! The typed failure taxonomy of the client.
//!
//! Every fallible operation returns one of these; the client itself never
//! retries, so each variant records whether a caller may retry it.

use vstd::prelude::*;

verus! {

/// The order field a validation complaint is about.
#[derive(Clone, Copy, Debug, PartialEq, Eq, Structural)]
pub enum OrderField {
    TokenId,
    Price,
    Size,
    Expiration,
}

/// A client-side field violation: which field was rejected, and why.
#[derive(Clone, Debug)]
pub struct ValidationError {
    pub field: OrderField,
    pub reason: String,
}

/// Failure of a trading or query operation.
#[derive(Clone, Debug)]
pub enum ClobError {
    /// The operation needs a completed handshake and the client has none.
    NotAuthenticated,
    /// Client-side field violations; every violated field is listed.
    Validation(Vec<ValidationError>),
    /// The server no longer accepts the session's credentials (HTTP 401).
    AuthExpired,
    /// The server refuses the caller outright (HTTP 403).
    Forbidden,
    /// Too many requests (HTTP 429), with the advertised delay in seconds.
    RateLimited(Option<u64>),
    /// A server-side fault (HTTP 5xx), retryable.
    ServerError(u16),
    /// A status code outside the documented mapping table.
    UnexpectedStatus(u16),
    /// A success status whose body lacked a required field.
    MalformedResponse,
    /// The signer was unavailable or declined to sign.
    Signing,
    /// A field value fell outside its encodable range.
    Encoding,
    /// A connect failure, raised by the transport edge.
    Network,
    /// The operation's deadline passed with no answer.
    Timeout,
}

impl ClobError {
    /// Whether a caller may retry the failed operation (after any advertised
    /// delay): true exactly for transport faults, rate limiting and
    /// server-side faults.
    pub fn retryable(&self) -> (r: bool)
        ensures
            r == (self is RateLimited || self is ServerError || self is Network
                || self is Timeout),
    {
        match self {
            ClobError::RateLimited(_) => true,
            ClobError::ServerError(_) => true,
            ClobError::Network => true,
            ClobError::Timeout => true,
            _ => false,
        }
    }
}

/// Failure of the one-time authentication handshake.
#[derive(Clone, Debug)]
pub enum AuthFailure {
    /// The server judged the challenge signature invalid.
    InvalidSignature,
    /// The server rejected the handshake with a status and body.
    ServerRejected(u16, String),
    /// The transport failed before an answer arrived.
    Network,
}

} // verus!
