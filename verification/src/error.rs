//! The error taxonomy and the sanitized responder.
//!
//! Each variant carries only the internal detail needed for logging; the
//! transport mapping is a single exhaustive match, and the body exposed to a
//! caller never leaks internal detail for authentication, authorization,
//! store or configuration failures.

use vstd::prelude::*;
use vstd::string::*;

verus! {

/// The closed set of failure kinds of the request pipeline.
#[derive(Debug, Clone, PartialEq, Eq)]
pub enum Error {
    /// A payload field failed a validation rule: (field, reason).
    InvalidInput(String, String),
    /// No valid principal is attached to the request.
    Unauthenticated(String),
    /// A valid principal is attached, but it is not the declared owner.
    Unauthorized(String),
    /// The persistence layer failed; the detail is never shown to a caller.
    StoreFailure(String),
    /// A credential header could not be parsed; absorbed into an anonymous
    /// outcome by the principal resolver, never surfaced directly.
    MalformedCredential,
    /// A stored password hash could not be parsed.
    MalformedHash,
    /// A startup-time configuration parameter is missing or invalid.
    ConfigurationFailure(String),
}

impl Error {
    /// The transport status code for each kind. The conventional mapping is
    /// used: `Unauthenticated` is 401 and `Unauthorized` is 403.
    pub open spec fn spec_status_code(&self) -> u16 {
        match self {
            Error::InvalidInput(_, _) => 400,
            Error::Unauthenticated(_) => 401,
            Error::Unauthorized(_) => 403,
            Error::StoreFailure(_) => 500,
            Error::MalformedCredential => 400,
            Error::MalformedHash => 500,
            Error::ConfigurationFailure(_) => 500,
        }
    }

    /// Maps the error to its transport status code.
    pub fn status_code(&self) -> (c: u16)
        ensures
            c == self.spec_status_code(),
    {
        match self {
            Error::InvalidInput(_, _) => 400,
            Error::Unauthenticated(_) => 401,
            Error::Unauthorized(_) => 403,
            Error::StoreFailure(_) => 500,
            Error::MalformedCredential => 400,
            Error::MalformedHash => 500,
            Error::ConfigurationFailure(_) => 500,
        }
    }

    /// The body shown to the caller. Only a validation failure names the
    /// offending field and reason; every other kind yields a fixed generic
    /// message, whatever internal detail the error carries.
    pub fn client_message(&self) -> (m: String)
        ensures
            match self {
                Error::InvalidInput(field, reason) => m@ == "Invalid input: "@ + field@ + ": "@
                    + reason@,
                Error::Unauthenticated(_) => m@ == "Authentication required"@,
                Error::Unauthorized(_) => m@ == "Forbidden"@,
                Error::StoreFailure(_) => m@ == "Internal server error"@,
                Error::MalformedCredential => m@ == "Invalid request"@,
                Error::MalformedHash => m@ == "Internal server error"@,
                Error::ConfigurationFailure(_) => m@ == "Internal server error"@,
            },
    {
        match self {
            Error::InvalidInput(field, reason) => String::from_str("Invalid input: ").concat(
                field.as_str(),
            ).concat(": ").concat(reason.as_str()),
            Error::Unauthenticated(_) => String::from_str("Authentication required"),
            Error::Unauthorized(_) => String::from_str("Forbidden"),
            Error::StoreFailure(_) => String::from_str("Internal server error"),
            Error::MalformedCredential => String::from_str("Invalid request"),
            Error::MalformedHash => String::from_str("Internal server error"),
            Error::ConfigurationFailure(_) => String::from_str("Internal server error"),
        }
    }

    /// The full internal description, for logging only.
    pub fn detail(&self) -> (m: String)
        ensures
            match self {
                Error::InvalidInput(field, reason) => m@ == "Invalid input: "@ + field@ + ": "@
                    + reason@,
                Error::Unauthenticated(d) => m@ == "Unauthenticated: "@ + d@,
                Error::Unauthorized(d) => m@ == "Unauthorized: "@ + d@,
                Error::StoreFailure(d) => m@ == "Store failure: "@ + d@,
                Error::MalformedCredential => m@ == "Malformed credential"@,
                Error::MalformedHash => m@ == "Malformed password hash"@,
                Error::ConfigurationFailure(d) => m@
                    == "Invalid or missing configuration parameter: "@ + d@,
            },
    {
        match self {
            Error::InvalidInput(field, reason) => String::from_str("Invalid input: ").concat(
                field.as_str(),
            ).concat(": ").concat(reason.as_str()),
            Error::Unauthenticated(d) => String::from_str("Unauthenticated: ").concat(d.as_str()),
            Error::Unauthorized(d) => String::from_str("Unauthorized: ").concat(d.as_str()),
            Error::StoreFailure(d) => String::from_str("Store failure: ").concat(d.as_str()),
            Error::MalformedCredential => String::from_str("Malformed credential"),
            Error::MalformedHash => String::from_str("Malformed password hash"),
            Error::ConfigurationFailure(d) => String::from_str(
                "Invalid or missing configuration parameter: ",
            ).concat(d.as_str()),
        }
    }
}

} // verus!
