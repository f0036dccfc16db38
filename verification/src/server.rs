//! The dispatcher of the commitments endpoint and its bridge to the backend.
//!
//! One call runs in three steps. [`handle_rpc`] authenticates the caller and
//! routes the call: it either answers at once or yields the authenticated
//! request that the backend has to decide on. [`CommitmentsApiInner`] pairs
//! such a request with a fresh single-use response slot in an [`Event`], and
//! reads what the slot resolved to. [`inclusion_response`] wraps the
//! backend's commitment into the response. Pushing the event and awaiting
//! the slot are the embedding program's part.

use vstd::prelude::*;
use vstd::string::StringExecFns;
use axum::http::HeaderMap;
use serde_json::Value;
use tokio::sync::{mpsc, oneshot};
use crate::auth::{auth_from_headers, auth_of_headers};
use crate::error::Error;
use crate::jsonrpc::{
    version_string, version_text, JsonPayload, JsonResponse, Method, Param, RpcResult,
};
use crate::primitives::{Address, SignatureView};
use crate::request::{CommitmentRequest, InclusionCommitment, InclusionRequest, SignedCommitment};

verus! {

/// The sending half of a bounded queue, from `tokio`.
#[verifier::external_type_specification]
#[verifier::external_body]
#[verifier::reject_recursive_types(T)]
pub struct ExQueueSender<T>(mpsc::Sender<T>);

/// The sending half of a single-use slot, from `tokio`.
#[verifier::external_type_specification]
#[verifier::external_body]
#[verifier::reject_recursive_types(T)]
pub struct ExSlotSender<T>(oneshot::Sender<T>);

/// The receiving half of a single-use slot, from `tokio`.
#[verifier::external_type_specification]
#[verifier::external_body]
#[verifier::reject_recursive_types(T)]
pub struct ExSlotReceiver<T>(oneshot::Receiver<T>);

/// What awaiting a slot yields once its sending half is gone, from `tokio`.
#[verifier::external_type_specification]
#[verifier::external_body]
pub struct ExSlotClosed(oneshot::error::RecvError);

/// Event type emitted by the commitments API.
#[derive(Debug)]
pub struct Event {
    /// The request to process.
    pub request: CommitmentRequest,
    /// The response channel.
    pub response: oneshot::Sender<Result<SignedCommitment, Error>>,
}

/// The inner commitments-API handler: it owns the queue on which events
/// reach the backend.
#[derive(Debug)]
pub struct CommitmentsApiInner {
    /// Event notification channel.
    events: mpsc::Sender<Event>,
    /// Optional whitelist of caller addresses. No call reads it.
    #[allow(unused)]
    whitelist: Option<Vec<Address>>,
}

/// Makes a single-use slot with `tokio::sync::oneshot::channel`.
#[verifier::external_body]
fn response_slot() -> (slot: (
    oneshot::Sender<Result<SignedCommitment, Error>>,
    oneshot::Receiver<Result<SignedCommitment, Error>>,
)) {
    oneshot::channel()
}

impl CommitmentsApiInner {
    /// Create a new handler that emits its events on the given queue, with
    /// no whitelist.
    pub fn new(events: mpsc::Sender<Event>) -> (api: CommitmentsApiInner)
        ensures
            api.events() == events,
            !api.has_whitelist(),
    {
        CommitmentsApiInner { events, whitelist: None }
    }

    /// The queue on which events reach the backend.
    pub closed spec fn events(&self) -> mpsc::Sender<Event> {
        self.events
    }

    /// Whether the handler was given a whitelist.
    pub closed spec fn has_whitelist(&self) -> bool {
        self.whitelist is Some
    }

    /// Returns the queue on which events reach the backend.
    pub fn event_queue(&self) -> (events: &mpsc::Sender<Event>)
        ensures
            *events == self.events(),
    {
        &self.events
    }

    /// Pairs an inclusion request with a fresh response slot.
    ///
    /// The event carries the request unchanged together with the sending
    /// half of the slot; the receiving half is returned beside it, for the
    /// caller alone to await.
    pub fn open_request(&self, inclusion_request: InclusionRequest) -> (opened: (
        Event,
        oneshot::Receiver<Result<SignedCommitment, Error>>,
    ))
        ensures
            opened.0.request == CommitmentRequest::Inclusion(inclusion_request),
    {
        let (response_tx, response_rx) = response_slot();
        let event = Event {
            request: CommitmentRequest::Inclusion(inclusion_request),
            response: response_tx,
        };
        (event, response_rx)
    }

    /// Reads what a response slot resolved to.
    ///
    /// A slot that was closed before anything was sent is an `Internal`
    /// failure. Otherwise the backend's answer is passed on: its commitment,
    /// or its error as it is.
    pub fn close_request(
        outcome: Result<Result<SignedCommitment, Error>, oneshot::error::RecvError>,
    ) -> (result: Result<InclusionCommitment, Error>)
        ensures
            match outcome {
                Err(_) => result == Err::<InclusionCommitment, Error>(Error::Internal),
                Ok(Err(e)) => result == Err::<InclusionCommitment, Error>(e),
                Ok(Ok(signed)) => result matches Ok(commitment) && signed
                    == SignedCommitment::Inclusion(commitment),
            },
    {
        match outcome {
            Err(_) => Err(Error::Internal),
            Ok(Err(e)) => Err(e),
            Ok(Ok(signed)) => Ok(InclusionCommitment::from(signed)),
        }
    }
}

/// What the dispatcher decided for one call.
#[derive(Debug, PartialEq, Eq)]
pub enum Dispatch {
    /// The call is answered without the backend.
    Reply(JsonResponse),
    /// The call is an authenticated inclusion request, which the backend has
    /// to decide on.
    Forward {
        /// The id that the response has to echo.
        id: Value,
        /// The request, with its signature and its signer.
        request: InclusionRequest,
    },
}

/// Whether the dispatcher answered a version query as it has to: with the
/// version as the result, no error, and the caller's id.
pub open spec fn is_version_reply(payload: JsonPayload, result: Result<Dispatch, Error>) -> bool {
    &&& result matches Ok(Dispatch::Reply(response))
    &&& response.id == payload.id
    &&& response.error is None
    &&& response.result matches Some(RpcResult::Version(version))
    &&& version@ == version_text()
}

/// Whether the dispatcher failed a call for its parameters, with the given
/// reason.
pub open spec fn is_validation_failure(reason: Seq<char>, result: Result<Dispatch, Error>) -> bool {
    &&& result matches Err(Error::ValidationFailed(text))
    &&& text@ == reason
}

/// Whether the dispatcher decided an inclusion query as it has to, for the
/// claim that the headers make.
pub open spec fn is_inclusion_outcome(
    claimed: Seq<u8>,
    signature: SignatureView,
    payload: JsonPayload,
    result: Result<Dispatch, Error>,
) -> bool {
    if payload.params@.len() == 0 {
        is_validation_failure("Bad params"@, result)
    } else {
        match payload.params@[0] {
            Param::Invalid(reason) => is_validation_failure(reason@, result),
            Param::Inclusion(request) => {
                let recovered = request@.recovers(signature);
                if recovered == Some(claimed) {
                    &&& result matches Ok(Dispatch::Forward { id, request: forwarded })
                    &&& id == payload.id
                    &&& forwarded@ == request@.signed_by(signature, recovered.unwrap())
                } else {
                    result == Err::<Dispatch, Error>(Error::InvalidSignature)
                }
            },
        }
    }
}

/// Handles one call up to the point where the backend is needed.
///
/// The caller's claim is extracted from the headers first, and a call
/// without a readable claim fails before its method is looked at. A version
/// query is then answered at once. An inclusion query needs its first
/// parameter to be an inclusion request whose digest the presented signature
/// signs for the claimed address; the request is then forwarded with that
/// signature and with the recovered address as its signer. Any other method
/// is unknown.
pub fn handle_rpc(headers: &HeaderMap, payload: JsonPayload) -> (result: Result<Dispatch, Error>)
    ensures
        match auth_of_headers(*headers) {
            Err(e) => result == Err::<Dispatch, Error>(e),
            Ok(claim) => match Method::of_name(payload.method@) {
                Some(Method::GetVersion) => is_version_reply(payload, result),
                Some(Method::RequestInclusion) => is_inclusion_outcome(
                    claim.0,
                    claim.1,
                    payload,
                    result,
                ),
                None => result == Err::<Dispatch, Error>(Error::UnknownMethod),
            },
        },
{
    let (signer, signature) = match auth_from_headers(headers) {
        Ok(claim) => claim,
        Err(e) => {
            return Err(e);
        },
    };
    match Method::from_name(&payload.method) {
        Some(Method::GetVersion) => {
            let result = RpcResult::Version(version_string());
            Ok(Dispatch::Reply(JsonResponse::from_result(payload.id, result)))
        },
        Some(Method::RequestInclusion) => {
            let id = payload.id;
            let mut params = payload.params;
            if params.len() == 0 {
                return Err(Error::ValidationFailed(String::from_str("Bad params")));
            }
            match params.swap_remove(0) {
                Param::Invalid(reason) => Err(Error::ValidationFailed(reason)),
                Param::Inclusion(inclusion_request) => {
                    match inclusion_request.authenticate(&signer, signature) {
                        Ok(request) => Ok(Dispatch::Forward { id, request }),
                        Err(e) => Err(e),
                    }
                },
            }
        },
        None => Err(Error::UnknownMethod),
    }
}

/// Wraps the backend's commitment into the response to the call `id`.
pub fn inclusion_response(id: Value, commitment: InclusionCommitment) -> (response: JsonResponse)
    ensures
        response.id == id,
        response.result == Some(RpcResult::Commitment(commitment)),
        response.error is None,
        response.well_formed(),
{
    JsonResponse::from_result(id, RpcResult::Commitment(commitment))
}

} // verus!
