//! The envelope of a call and of its response.

use vstd::prelude::*;
use vstd::string::StringExecFns;
use serde_json::Value;
use crate::error::{Error, JsonError};
use crate::request::{InclusionCommitment, InclusionRequest};

verus! {

/// The method that asks for the version of the service.
pub const GET_VERSION_METHOD: &'static str = "bolt_getVersion";

/// The method that asks for an inclusion commitment.
pub const REQUEST_INCLUSION_METHOD: &'static str = "bolt_requestInclusion";

/// The methods that the endpoint serves.
#[derive(Debug, Clone, Copy, PartialEq, Eq)]
pub enum Method {
    /// The version query.
    GetVersion,
    /// The request for an inclusion commitment.
    RequestInclusion,
}

impl Method {
    /// The method that a name stands for, if it stands for one.
    pub open spec fn of_name(name: Seq<char>) -> Option<Method> {
        if name == GET_VERSION_METHOD@ {
            Some(Method::GetVersion)
        } else if name == REQUEST_INCLUSION_METHOD@ {
            Some(Method::RequestInclusion)
        } else {
            None
        }
    }

    /// The name of a method.
    pub open spec fn spec_name(self) -> Seq<char> {
        match self {
            Method::GetVersion => GET_VERSION_METHOD@,
            Method::RequestInclusion => REQUEST_INCLUSION_METHOD@,
        }
    }

    /// Looks a method up by its name. Names are matched exactly.
    pub fn from_name(name: &String) -> (method: Option<Method>)
        ensures
            method == Method::of_name(name@),
    {
        if *name == String::from_str(GET_VERSION_METHOD) {
            Some(Method::GetVersion)
        } else if *name == String::from_str(REQUEST_INCLUSION_METHOD) {
            Some(Method::RequestInclusion)
        } else {
            None
        }
    }

    /// Returns the name of the method.
    pub fn name(&self) -> (name: &'static str)
        ensures
            name@ == self.spec_name(),
    {
        match self {
            Method::GetVersion => GET_VERSION_METHOD,
            Method::RequestInclusion => REQUEST_INCLUSION_METHOD,
        }
    }
}

/// Every method is found again under its own name: the names are distinct.
pub proof fn lemma_method_names(method: Method)
    ensures
        Method::of_name(method.spec_name()) == Some(method),
{
    reveal_strlit("bolt_getVersion");
    reveal_strlit("bolt_requestInclusion");
    assert(GET_VERSION_METHOD@.len() != REQUEST_INCLUSION_METHOD@.len());
}

/// The version of this package.
pub const CARGO_PKG_VERSION: &'static str = "0.1.0";

/// A JSON value, from `serde_json`. The library carries the id of a call
/// as such a value and never looks inside it.
#[verifier::external_type_specification]
#[verifier::external_body]
pub struct ExJsonValue(serde_json::Value);

/// The text that a version query is answered with.
pub open spec fn version_text() -> Seq<char> {
    "bolt-sidecar-v"@ + CARGO_PKG_VERSION@
}

/// Returns the text that a version query is answered with.
pub fn version_string() -> (version: String)
    ensures
        version@ == version_text(),
{
    String::from_str("bolt-sidecar-v").concat(CARGO_PKG_VERSION)
}

/// One parameter of a call, as the transport decoded it.
#[derive(Debug, Clone, PartialEq, Eq)]
pub enum Param {
    /// The parameter is an inclusion request.
    Inclusion(InclusionRequest),
    /// The parameter is not an inclusion request; the text says why.
    Invalid(String),
}

/// A call: the caller's id, the method and its parameters.
#[derive(Debug, PartialEq, Eq)]
pub struct JsonPayload {
    /// The protocol version named by the caller.
    pub jsonrpc: String,
    /// The id that the response has to echo.
    pub id: Value,
    /// The name of the method.
    pub method: String,
    /// The parameters, in order.
    pub params: Vec<Param>,
}

/// What a successful call is answered with.
#[derive(Debug, Clone, PartialEq, Eq)]
pub enum RpcResult {
    /// The version of the service.
    Version(String),
    /// The backend's commitment to an inclusion request.
    Commitment(InclusionCommitment),
}

/// A response: the caller's id with either a result or an error.
#[derive(Debug, PartialEq, Eq)]
pub struct JsonResponse {
    /// The id of the call that is answered.
    pub id: Value,
    /// The result of a successful call.
    pub result: Option<RpcResult>,
    /// The error of a failed call.
    pub error: Option<JsonError>,
}

impl JsonResponse {
    /// A response carries a result or an error, and never both.
    pub open spec fn well_formed(&self) -> bool {
        self.result is Some <==> self.error is None
    }

    /// Answers the call `id` with a result.
    pub fn from_result(id: Value, result: RpcResult) -> (response: JsonResponse)
        ensures
            response.id == id,
            response.result == Some(result),
            response.error is None,
            response.well_formed(),
    {
        JsonResponse { id, result: Some(result), error: None }
    }

    /// Answers the call `id` with the code and the description of a failure.
    pub fn from_error(id: Value, error: &Error) -> (response: JsonResponse)
        ensures
            response.id == id,
            response.result is None,
            response.error matches Some(e) && e.code == error.spec_code() && e.message@
                == error.spec_message(),
            response.well_formed(),
    {
        JsonResponse { id, result: None, error: Some(error.to_json_error()) }
    }
}

} // verus!
