//! The closed set of errors the orchestrator surfaces, with its one mapping
//! to externally visible status codes and messages.

use vstd::prelude::*;
use vstd::string::*;

verus! {

/// Everything a point operation against the registry can fail with.
#[derive(Debug, PartialEq, Eq)]
pub enum ApiError {
    /// No instance with the given identifier.
    NotFound,
    /// A port span is exhausted.
    PortsExhausted,
    /// The configured instance ceiling is reached.
    MaxInstancesReached,
    /// The supplied payload could not be decoded or validated.
    InvalidDll(String),
    /// Any other failure, with its description.
    Internal(String),
}

impl ApiError {
    /// The HTTP status code each variant maps to.
    pub open spec fn spec_status_code(self) -> u16 {
        match self {
            ApiError::NotFound => 404,
            ApiError::PortsExhausted => 503,
            ApiError::MaxInstancesReached => 503,
            ApiError::InvalidDll(_) => 400,
            ApiError::Internal(_) => 500,
        }
    }

    /// The message each variant surfaces.
    pub open spec fn spec_message(self) -> Seq<char> {
        match self {
            ApiError::NotFound => "Instance not found"@,
            ApiError::PortsExhausted => "No ports available"@,
            ApiError::MaxInstancesReached => "Maximum instances reached"@,
            ApiError::InvalidDll(m) => m@,
            ApiError::Internal(m) => m@,
        }
    }

    /// The status code this error surfaces as.
    pub fn status_code(&self) -> (r: u16)
        ensures
            r == self.spec_status_code(),
    {
        match self {
            ApiError::NotFound => 404,
            ApiError::PortsExhausted => 503,
            ApiError::MaxInstancesReached => 503,
            ApiError::InvalidDll(_) => 400,
            ApiError::Internal(_) => 500,
        }
    }

    /// The message this error surfaces.
    pub fn message(&self) -> (r: String)
        ensures
            r@ == self.spec_message(),
    {
        match self {
            ApiError::NotFound => String::from_str("Instance not found"),
            ApiError::PortsExhausted => String::from_str("No ports available"),
            ApiError::MaxInstancesReached => String::from_str("Maximum instances reached"),
            ApiError::InvalidDll(m) => m.clone(),
            ApiError::Internal(m) => m.clone(),
        }
    }
}

} // verus!
