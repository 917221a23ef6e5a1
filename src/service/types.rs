use vstd::prelude::*;

verus! {

/// Errors surfaced by every fallible step of the login and sponsorship flow.
#[derive(Debug, Clone, PartialEq, Eq)]
pub enum ServiceError {
    /// Catch-all failure.
    Service(String),
    /// Transport failure or a non-success response, with status and body.
    Network(String),
    /// A malformed internal construction (bad URL, bad keystore, bad configuration).
    InvalidResponse(String),
    /// A proof or its parameters do not hold together.
    InvalidProof(String),
    /// A response body that does not have the expected JSON shape.
    JwtFormat(String),
    /// A callback URL whose token or state cannot be extracted.
    JwtExtraction(String),
}

pub type Result<T> = core::result::Result<T, ServiceError>;

impl ServiceError {
    /// The human-readable prefix of each kind of error.
    pub open spec fn prefix_spec(&self) -> Seq<char> {
        match self {
            ServiceError::Service(_) => "Service error: "@,
            ServiceError::Network(_) => "Network error: "@,
            ServiceError::InvalidResponse(_) => "Invalid response: "@,
            ServiceError::InvalidProof(_) => "Invalid proof: "@,
            ServiceError::JwtFormat(_) => "Invalid JSON format: "@,
            ServiceError::JwtExtraction(_) => "Invalid JWT extraction: "@,
        }
    }

    /// The detail carried by the error.
    pub open spec fn detail_spec(&self) -> Seq<char> {
        match self {
            ServiceError::Service(m) => m@,
            ServiceError::Network(m) => m@,
            ServiceError::InvalidResponse(m) => m@,
            ServiceError::InvalidProof(m) => m@,
            ServiceError::JwtFormat(m) => m@,
            ServiceError::JwtExtraction(m) => m@,
        }
    }

    /// The message of the error: its kind's prefix followed by its detail.
    pub fn to_string(&self) -> (r: String)
        ensures
            r@ == self.prefix_spec() + self.detail_spec(),
    {
        let (prefix, detail) = match self {
            ServiceError::Service(m) => (String::from_str("Service error: "), m),
            ServiceError::Network(m) => (String::from_str("Network error: "), m),
            ServiceError::InvalidResponse(m) => (String::from_str("Invalid response: "), m),
            ServiceError::InvalidProof(m) => (String::from_str("Invalid proof: "), m),
            ServiceError::JwtFormat(m) => (String::from_str("Invalid JSON format: "), m),
            ServiceError::JwtExtraction(m) => (String::from_str("Invalid JWT extraction: "), m),
        };
        prefix.concat(detail.as_str())
    }
}

} // verus!
