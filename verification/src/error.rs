//! The failures a caller can observe, with their stable codes.

use vstd::prelude::*;
use vstd::string::StringExecFns;

verus! {

/// A failure of one call, as the protocol reports it.
#[derive(Debug, Clone, PartialEq, Eq)]
pub enum Error {
    /// The authentication header is missing.
    NoSignature,
    /// The authentication header is present but cannot be read.
    MalformedHeader,
    /// The signature does not recover to the claimed address for the
    /// digest of the request.
    InvalidSignature,
    /// The method name is not one the endpoint serves.
    UnknownMethod,
    /// The parameters are missing or are not a request; the text says why.
    ValidationFailed(String),
    /// The backend could not be reached or gave up its response slot.
    Internal,
}

/// The error object of a response.
#[derive(Debug, Clone, PartialEq, Eq)]
pub struct JsonError {
    /// The stable code of the failure.
    pub code: i32,
    /// A short description of the failure.
    pub message: String,
}

impl Error {
    /// The code under which a failure is reported.
    pub open spec fn spec_code(&self) -> int {
        match self {
            Error::ValidationFailed(_) => -32000,
            Error::Internal => -32002,
            Error::NoSignature => -32003,
            Error::InvalidSignature => -32004,
            Error::MalformedHeader => -32007,
            Error::UnknownMethod => -32601,
        }
    }

    /// The description with which a failure is reported.
    pub open spec fn spec_message(&self) -> Seq<char> {
        match self {
            Error::ValidationFailed(reason) => "Validation failed: "@ + reason@,
            Error::Internal => "Internal server error"@,
            Error::NoSignature => "Missing 'x-bolt-signature' header"@,
            Error::InvalidSignature => "Invalid signature"@,
            Error::MalformedHeader => "Malformed 'x-bolt-signature' header"@,
            Error::UnknownMethod => "Unknown method"@,
        }
    }

    /// Two failures are of the same kind when they are the same variant,
    /// whatever reason a validation failure carries.
    pub open spec fn same_kind(&self, other: &Error) -> bool {
        match (self, other) {
            (Error::ValidationFailed(_), Error::ValidationFailed(_)) => true,
            (Error::Internal, Error::Internal) => true,
            (Error::NoSignature, Error::NoSignature) => true,
            (Error::InvalidSignature, Error::InvalidSignature) => true,
            (Error::MalformedHeader, Error::MalformedHeader) => true,
            (Error::UnknownMethod, Error::UnknownMethod) => true,
            _ => false,
        }
    }

    /// The HTTP status under which a failure is reported: a server error
    /// where the backend failed, a bad request otherwise.
    pub open spec fn spec_status(&self) -> int {
        match self {
            Error::Internal => 500,
            _ => 400,
        }
    }

    /// Returns the HTTP status under which this failure is reported.
    pub fn status(&self) -> (status: u16)
        ensures
            status == self.spec_status(),
    {
        match self {
            Error::Internal => 500,
            _ => 400,
        }
    }

    /// Returns the stable numeric code of this failure.
    pub fn code(&self) -> (code: i32)
        ensures
            code == self.spec_code(),
    {
        match self {
            Error::ValidationFailed(_) => -32000,
            Error::Internal => -32002,
            Error::NoSignature => -32003,
            Error::InvalidSignature => -32004,
            Error::MalformedHeader => -32007,
            Error::UnknownMethod => -32601,
        }
    }

    /// Returns the short description of this failure.
    pub fn message(&self) -> (message: String)
        ensures
            message@ == self.spec_message(),
    {
        match self {
            Error::ValidationFailed(reason) => {
                String::from_str("Validation failed: ").concat(reason.as_str())
            },
            Error::Internal => String::from_str("Internal server error"),
            Error::NoSignature => String::from_str("Missing 'x-bolt-signature' header"),
            Error::InvalidSignature => String::from_str("Invalid signature"),
            Error::MalformedHeader => String::from_str("Malformed 'x-bolt-signature' header"),
            Error::UnknownMethod => String::from_str("Unknown method"),
        }
    }

    /// Returns the error object that reports this failure.
    pub fn to_json_error(&self) -> (error: JsonError)
        ensures
            error.code == self.spec_code(),
            error.message@ == self.spec_message(),
    {
        JsonError { code: self.code(), message: self.message() }
    }
}

/// The code of a failure tells its kind: no two kinds share a code.
pub proof fn lemma_code_identifies_kind(a: Error, b: Error)
    ensures
        a.spec_code() == b.spec_code() <==> a.same_kind(&b),
{
}

} // verus!
