//! A typed client for the neutrinoapi.com lookup service.
//!
//! The library holds the request/response pipeline shared by every endpoint:
//! client construction from a base address and credentials, composition of
//! authenticated requests, classification of responses by status code, and
//! decoding of successful bodies into the typed responses of `neutral_types`.
//! Sending a composed request over the network is left to the caller, who
//! hands the status code and body back to the endpoint's `response` method.
pub mod auth;
pub mod client;
pub mod decode;
pub mod error;
pub mod hlr_lookup;
pub mod ip_blocklist;
pub mod ip_info;
pub mod ip_probe;
pub mod number;
pub mod phone_validate;

pub use auth::ApiAuth;
pub use client::{classify, ComposedRequest, Neutral};
pub use error::ApiError;
