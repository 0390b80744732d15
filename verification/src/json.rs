//! Trusted boundary to serde_json.
//!
//! The response body of a trace call is arbitrary JSON, kept as a
//! `serde_json::Value` and passed through to the caller unparsed by this
//! library. The value type is declared opaque; whether a byte sequence
//! parses is given a name, `json_wf`, that the parsing wrapper's contract
//! ties to what serde_json decides.

use vstd::prelude::*;

verus! {

#[verifier::external_type_specification]
#[verifier::external_body]
pub struct ExValue(serde_json::Value);

/// Whether serde_json accepts `bytes` as one complete JSON document. The
/// JSON grammar is not restated here: the name stands for exactly the set
/// of byte sequences that `serde_json::from_slice::<Value>` deserializes.
pub uninterp spec fn json_wf(bytes: Seq<u8>) -> bool;

/// Relies on `serde_json::from_slice::<Value>`: deserializing into `Value`
/// succeeds exactly when the input is a complete, valid JSON document, and
/// the outcome depends on the bytes alone.
#[verifier::external_body]
pub(crate) fn parse_json(body: &[u8]) -> (r: Option<serde_json::Value>)
    ensures
        r is Some <==> json_wf(body@),
{
    serde_json::from_slice(body).ok()
}

} // verus!
