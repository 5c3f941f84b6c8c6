//! The error taxonomy of the library.
//!
//! Configuration and transfer failures are reported through the submission
//! path, decoding failures through the individual response accessors.

use vstd::prelude::*;

verus! {

/// What went wrong while preparing, executing or reading a request.
#[derive(Clone, Copy, Debug, PartialEq, Eq, Structural)]
pub enum RequestError {
    /// The URL string handed to the library could not be parsed.
    InvalidUrl,
    /// A transfer option was rejected by the transfer handle before any
    /// network traffic happened.
    Configuration,
    /// The transfer itself failed: name resolution, connect, TLS, a timeout
    /// or a low-speed abort.
    Transfer,
    /// The response body could not be decoded as requested.
    Decoding,
    /// The completed transfer handle did not report a usable status code,
    /// which breaks the collaborator's contract.
    ContractViolation,
}

impl RequestError {
    /// A short, fixed description of the error.
    pub fn describe(&self) -> (r: &'static str)
        ensures
            r@ == self.describe_spec(),
    {
        match self {
            RequestError::InvalidUrl => "invalid URL",
            RequestError::Configuration => "failed to configure the transfer",
            RequestError::Transfer => "transfer failed",
            RequestError::Decoding => "failed to decode the response body",
            RequestError::ContractViolation => "transfer handle reported no status code",
        }
    }

    /// The description that `describe` returns.
    pub open spec fn describe_spec(&self) -> Seq<char> {
        match self {
            RequestError::InvalidUrl => "invalid URL"@,
            RequestError::Configuration => "failed to configure the transfer"@,
            RequestError::Transfer => "transfer failed"@,
            RequestError::Decoding => "failed to decode the response body"@,
            RequestError::ContractViolation => "transfer handle reported no status code"@,
        }
    }
}

} // verus!
