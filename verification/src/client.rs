//! The trace client: configuration, request construction, and the
//! classification of what a trace call brings back.

use crate::json::json_wf;
use crate::json::parse_json;
use crate::payload::spec_trace_body;
use crate::payload::trace_body;
use crate::text::lemma_trim_trailing_slashes;
use crate::text::trim_trailing_slashes;
use crate::text::trim_trailing_slashes_spec;
use vstd::prelude::*;
use vstd::string::*;

verus! {

/// The fixed path of the trace endpoint, appended to the base URL.
pub open spec fn spec_trace_path() -> Seq<char> {
    "/api/v2/trace"@
}

/// The URL a trace request is sent to, for a given (normalized) base URL.
pub open spec fn spec_trace_url(base_url: Seq<char>) -> Seq<char> {
    base_url + spec_trace_path()
}

/// The client's immutable configuration: a base URL normalized at
/// construction, an optional API key, and a tenant identifier.
pub struct BridgeTraceSdk {
    base_url: String,
    api_key: Option<String>,
    tenant_id: String,
}

/// Everything that goes on the wire for one trace call: a single POST to
/// `url`, with header `X-Tenant-ID: tenant_id`, header `X-API-Key: api_key`
/// exactly when `api_key` is present, and `body` as its JSON body.
pub struct TraceRequest {
    pub url: String,
    pub tenant_id: String,
    pub api_key: Option<String>,
    pub body: String,
}

/// What the network produced for one trace call: either no response at all,
/// or a response with its HTTP status and its raw body bytes.
pub enum TransportOutcome {
    Failed,
    Response(u16, Vec<u8>),
}

/// The two ways a trace call fails: the request could not complete, or the
/// response body was not valid JSON. HTTP status codes are not a failure
/// class: they are not inspected at all.
#[derive(Clone, Copy, Debug, PartialEq, Eq, Structural)]
pub enum TraceError {
    Transport,
    Decode,
}

impl BridgeTraceSdk {
    /// The stored base URL.
    pub closed spec fn spec_base_url(&self) -> Seq<char> {
        self.base_url@
    }

    /// The stored API key, if one was supplied at construction.
    pub closed spec fn spec_api_key(&self) -> Option<String> {
        self.api_key
    }

    /// The stored tenant identifier.
    pub closed spec fn spec_tenant_id(&self) -> Seq<char> {
        self.tenant_id@
    }

    /// The constructor's one invariant: the stored base URL never ends in a
    /// slash.
    pub open spec fn well_formed(&self) -> bool {
        self.spec_base_url().len() == 0 || self.spec_base_url().last() != '/'
    }

    /// A client for the service rooted at `base_url`. The base URL is
    /// stored with every trailing `'/'` removed; the API key and the tenant
    /// identifier are stored unchanged. The URL is not otherwise validated:
    /// a malformed one surfaces only when a request is attempted.
    pub fn new(base_url: &str, api_key: Option<String>, tenant_id: &str) -> (r: Self)
        ensures
            r.spec_base_url() == trim_trailing_slashes_spec(base_url@),
            r.spec_api_key() == api_key,
            r.spec_tenant_id() == tenant_id@,
            r.well_formed(),
    {
        let r = BridgeTraceSdk {
            base_url: trim_trailing_slashes(base_url),
            api_key,
            tenant_id: tenant_id.to_owned(),
        };
        proof {
            lemma_trim_trailing_slashes(base_url@);
        }
        r
    }

    /// The one request a trace call for `source_id` issues: a POST to
    /// `<base_url>/api/v2/trace`, with the stored tenant identifier as its
    /// `X-Tenant-ID` header, the stored API key as its `X-API-Key` header
    /// exactly when one is present, and the fixed-shape JSON body for
    /// `source_id`.
    pub fn trace_request(&self, source_id: &str) -> (r: TraceRequest)
        ensures
            r.url@ == spec_trace_url(self.spec_base_url()),
            r.tenant_id@ == self.spec_tenant_id(),
            r.api_key == self.spec_api_key(),
            r.body@ == spec_trace_body(source_id@),
    {
        let api_key = match &self.api_key {
            Some(k) => Some(k.clone()),
            None => None,
        };
        TraceRequest {
            url: self.base_url.clone().concat("/api/v2/trace"),
            tenant_id: self.tenant_id.clone(),
            api_key,
            body: trace_body(source_id),
        }
    }
}

/// What a trace call returns, given what the network produced. A missing
/// response is a transport error; a response body that is not valid JSON is
/// a decoding error; any response with a valid JSON body — whatever its
/// HTTP status — is a success carrying the parsed value unchanged.
pub fn resolve_trace(outcome: TransportOutcome) -> (r: Result<serde_json::Value, TraceError>)
    ensures
        outcome is Failed ==> r == Result::<serde_json::Value, TraceError>::Err(
            TraceError::Transport,
        ),
        outcome is Response ==> (r is Ok <==> json_wf(outcome->Response_1@)),
        outcome is Response && !json_wf(outcome->Response_1@) ==> r == Result::<
            serde_json::Value,
            TraceError,
        >::Err(TraceError::Decode),
{
    match outcome {
        TransportOutcome::Failed => Err(TraceError::Transport),
        TransportOutcome::Response(_status, body) => match parse_json(body.as_slice()) {
            Some(v) => Ok(v),
            None => Err(TraceError::Decode),
        },
    }
}

} // verus!
