use bridge_trace_sdk::client::BridgeTraceSdk;
use bridge_trace_sdk::client::TraceError;
use bridge_trace_sdk::client::TransportOutcome;
use bridge_trace_sdk::client::resolve_trace;

fn request_url(base: &str) -> String {
    BridgeTraceSdk::new(base, None, "tenant").trace_request("src").url
}

#[test]
fn construction_trims_one_trailing_slash() {
    assert_eq!(request_url("http://example.com/"), "http://example.com/api/v2/trace");
}

#[test]
fn construction_trims_many_trailing_slashes() {
    assert_eq!(request_url("http://example.com////"), "http://example.com/api/v2/trace");
}

#[test]
fn construction_keeps_base_without_trailing_slash() {
    assert_eq!(request_url("http://example.com"), "http://example.com/api/v2/trace");
}

#[test]
fn construction_keeps_inner_slashes() {
    assert_eq!(request_url("http://example.com/v1//"), "http://example.com/v1/api/v2/trace");
}

#[test]
fn construction_trims_all_slash_base_to_empty() {
    assert_eq!(request_url("///"), "/api/v2/trace");
    assert_eq!(request_url(""), "/api/v2/trace");
}

#[test]
fn request_carries_tenant_id_always() {
    let with_key = BridgeTraceSdk::new("http://h", Some(String::from("k")), "acme");
    assert_eq!(with_key.trace_request("s").tenant_id, "acme");
    let without_key = BridgeTraceSdk::new("http://h", None, "acme");
    assert_eq!(without_key.trace_request("s").tenant_id, "acme");
}

#[test]
fn request_carries_api_key_iff_configured() {
    let with_key = BridgeTraceSdk::new("http://h", Some(String::from("secret")), "t");
    assert_eq!(with_key.trace_request("s").api_key, Some(String::from("secret")));
    let without_key = BridgeTraceSdk::new("http://h", None, "t");
    assert_eq!(without_key.trace_request("s").api_key, None);
}

#[test]
fn body_has_fixed_shape() {
    let client = BridgeTraceSdk::new("http://h", None, "t");
    assert_eq!(
        client.trace_request("abc").body,
        "{\"source_id\":\"abc\",\"max_hops\":5,\"min_amount\":0}"
    );
    assert_eq!(
        client.trace_request("").body,
        "{\"source_id\":\"\",\"max_hops\":5,\"min_amount\":0}"
    );
}

#[test]
fn body_escapes_quotes_and_backslashes() {
    let client = BridgeTraceSdk::new("http://h", None, "t");
    assert_eq!(
        client.trace_request("a\"b\\c").body,
        "{\"source_id\":\"a\\\"b\\\\c\",\"max_hops\":5,\"min_amount\":0}"
    );
}

#[test]
fn body_escapes_control_characters() {
    let client = BridgeTraceSdk::new("http://h", None, "t");
    assert_eq!(
        client.trace_request("a\nb\tc\rd\u{08}e\u{0C}f").body,
        "{\"source_id\":\"a\\nb\\tc\\rd\\be\\ff\",\"max_hops\":5,\"min_amount\":0}"
    );
    assert_eq!(
        client.trace_request("\u{01}\u{1f}").body,
        "{\"source_id\":\"\\u0001\\u001f\",\"max_hops\":5,\"min_amount\":0}"
    );
}

#[test]
fn body_keeps_other_characters() {
    let client = BridgeTraceSdk::new("http://h", None, "t");
    assert_eq!(
        client.trace_request("h\u{e9}llo \u{2603}").body,
        "{\"source_id\":\"h\u{e9}llo \u{2603}\",\"max_hops\":5,\"min_amount\":0}"
    );
}

#[test]
fn body_matches_what_serde_json_would_send() {
    let client = BridgeTraceSdk::new("http://h", None, "t");
    for source_id in ["plain", "", "a\"b\\c", "a\nb\u{01}", "h\u{e9}llo"] {
        let body = client.trace_request(source_id).body;
        let parsed: serde_json::Value = serde_json::from_str(&body).unwrap();
        let mut expected = serde_json::Map::new();
        expected.insert(String::from("source_id"), serde_json::Value::from(source_id));
        expected.insert(String::from("max_hops"), serde_json::Value::from(5));
        expected.insert(String::from("min_amount"), serde_json::Value::from(0));
        assert_eq!(parsed, serde_json::Value::Object(expected));
    }
}

#[test]
fn valid_json_response_is_returned_unchanged() {
    let body = b"{\"nodes\":[1,2,3],\"ok\":true}".to_vec();
    let expected: serde_json::Value = serde_json::from_slice(&body).unwrap();
    let got = resolve_trace(TransportOutcome::Response(200, body)).unwrap();
    assert_eq!(got, expected);
}

#[test]
fn non_2xx_status_with_valid_json_is_still_success() {
    for status in [400u16, 404, 500, 503] {
        let body = b"{\"error\":\"boom\"}".to_vec();
        let expected: serde_json::Value = serde_json::from_slice(&body).unwrap();
        let got = resolve_trace(TransportOutcome::Response(status, body)).unwrap();
        assert_eq!(got, expected);
    }
}

#[test]
fn transport_failure_is_a_transport_error() {
    let got = resolve_trace(TransportOutcome::Failed);
    assert_eq!(got.unwrap_err(), TraceError::Transport);
}

#[test]
fn non_json_body_is_a_decoding_error() {
    let got = resolve_trace(TransportOutcome::Response(200, b"<html>oops</html>".to_vec()));
    assert_eq!(got.unwrap_err(), TraceError::Decode);
    let empty = resolve_trace(TransportOutcome::Response(200, Vec::new()));
    assert_eq!(empty.unwrap_err(), TraceError::Decode);
}
