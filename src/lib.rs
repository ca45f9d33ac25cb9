//! A typed client library for the Vault secret-management HTTP service.
//!
//! The library builds requests, walks the host list on connection failure,
//! and decodes response envelopes into typed values. Sending bytes over the
//! network is left to the caller, which hands the raw responses back.
use vstd::prelude::*;

pub mod client;
pub mod duration;
pub mod envelope;
pub mod error;
pub mod json;
pub mod text;
pub mod timestamp;
pub mod token_options;
pub mod transport;
pub mod transit;

pub use client::VaultClient;
pub use duration::VaultDuration;
pub use envelope::{EndpointResponse, VaultResponse};
pub use error::{DecodeError, Error, TransportError};
pub use token_options::TokenOptions;
pub use transport::HttpVerb;
