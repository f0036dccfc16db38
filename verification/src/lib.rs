//! Authentication and request/response correlation for a commitments
//! JSON-RPC endpoint.
//!
//! The crate holds the decisions of the endpoint: how a caller's address and
//! signature are read from the request headers, how a request is routed and
//! authenticated, what is handed to the commitment backend, and how the
//! backend's answer becomes a response. Sockets and task scheduling are left
//! to the embedding program.
//!
//! Every function is verified against its contract. Hashing, signature
//! recovery, header storage and channels are taken from `alloy`, `http` and
//! `tokio`; each call into them stands in a small function of its own, whose
//! contract is assumed and says, where it stands, what is assumed.

pub mod auth;
pub mod error;
pub mod hex;
pub mod jsonrpc;
pub mod primitives;
pub mod request;
pub mod server;
