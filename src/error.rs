use vstd::prelude::*;

verus! {

/// The ways a call to the service can fail.
#[derive(Debug, Clone, PartialEq, Eq)]
pub enum ApiError {
    /// The base address given to the client has no scheme or no authority,
    /// or cannot be parsed at all.
    InvalidBaseAddress,
    /// The request could not be composed into a valid URI and header set.
    MalformedRequest,
    /// The transport failed before a status code was obtained.
    Transport(String),
    /// The service answered with a status other than 200.
    RemoteFailure { status: u16, body: String },
    /// A 200 response whose body does not match the expected shape; the raw
    /// bytes are kept for diagnosis.
    Decode(Vec<u8>),
}

} // verus!
