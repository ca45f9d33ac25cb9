//! The errors that the library reports.
use vstd::prelude::*;

verus! {

/// Failures of the transport layer.
#[derive(Debug, Clone, PartialEq, Eq)]
pub enum TransportError {
    /// No host of the list accepted a connection.
    AllHostsUnreachable,
    /// A host answered with a status outside 2xx; the body is kept.
    RemoteRejected { status: u16, body: String },
}

/// Failures while decoding a response body.
#[derive(Debug, Clone, PartialEq, Eq)]
pub enum DecodeError {
    /// The body is not the expected JSON shape; holds a message and the body text.
    Malformed(String),
    /// A timestamp field holds a value that maps to no calendar time.
    InvalidTimestamp(String),
}

/// Every error that an operation of the library can return.
#[derive(Debug, Clone, PartialEq, Eq)]
pub enum Error {
    /// The transport failed or the remote rejected the request.
    Transport(TransportError),
    /// The response could not be decoded.
    Decode(DecodeError),
    /// The token was rejected while the client was being constructed.
    Forbidden,
    /// A response requested wrapped carried no wrap information.
    MissingWrapInfo,
    /// A host or endpoint could not be turned into a URL.
    Url(String),
    /// A field expected in base64 could not be decoded.
    Base64(String),
    /// The response broke a contract of the operation (a field it needs is absent).
    Vault(String),
}

} // verus!
