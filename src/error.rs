//! Error taxonomy of the client core.
use vstd::prelude::*;
use crate::types::ApiError;

verus! {

/// Why a call failed.
#[derive(Debug)]
pub enum ClientError {
    /// No valid token could be obtained, or the service refused a request already retried
    /// with a fresh token.
    Auth(String),
    /// Connection, timeout or an interrupted stream.
    Transport(String),
    /// A failure status whose body is not the service's error envelope.
    Http { status: u16, body: String },
    /// The service's decoded error envelope.
    Api(ApiError),
    /// A success response whose body does not have the expected shape.
    Decode(String),
    /// The identifier's variant is not accepted by the endpoint.
    InvalidIdentifier,
}

} // verus!
