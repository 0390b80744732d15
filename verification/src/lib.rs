//! Client binding for a remote tracing service.
//!
//! The library holds the verified core of the binding: the client
//! configuration (a normalized base URL, an optional API key, a tenant
//! identifier), the construction of the one request the client ever sends
//! (its URL, its headers, its JSON body), and the classification of what
//! comes back (a parsed JSON value, a transport failure, or a body that is
//! not JSON). The network itself is left to callers: they send the request
//! that [`client::TraceRequest`] describes and hand the outcome back to
//! [`client::resolve_trace`].

pub mod client;
pub mod json;
pub mod payload;
pub mod text;
