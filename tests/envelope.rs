use apply_task_bridge::codec::{decode_response, encode_json, frame, parse_json, Message, RpcError};
use apply_task_bridge::envelope::{call_result, decode_text, unwrap_envelope};
use apply_task_bridge::error::BridgeError;
use apply_task_bridge::json::{find_key, get, Json};
use apply_task_bridge::codec::Response;

fn doc(text: &str) -> Json {
    parse_json(text).expect("test document parses")
}

#[test]
fn envelope_json_item_is_returned() {
    let r = unwrap_envelope(doc(r#"{"content":[{"type":"json","json":{"a":1}}]}"#));
    assert_eq!(r, Ok(doc(r#"{"a":1}"#)));
}

#[test]
fn envelope_text_item_is_parsed() {
    let r = unwrap_envelope(doc(r#"{"content":[{"type":"text","text":"{\"a\":1}"}]}"#));
    assert_eq!(r, Ok(doc(r#"{"a":1}"#)));
}

#[test]
fn envelope_empty_content_returns_raw_result() {
    let r = unwrap_envelope(doc(r#"{"content":[]}"#));
    assert_eq!(r, Ok(doc(r#"{"content":[]}"#)));
}

#[test]
fn envelope_without_content_returns_raw_result() {
    let r = unwrap_envelope(doc(r#"{"tasks":[1,2]}"#));
    assert_eq!(r, Ok(doc(r#"{"tasks":[1,2]}"#)));
}

#[test]
fn envelope_item_without_json_or_text_returns_raw_result() {
    let raw = r#"{"content":[{"type":"image","data":"x"}]}"#;
    assert_eq!(unwrap_envelope(doc(raw)), Ok(doc(raw)));
}

#[test]
fn envelope_json_item_wins_over_text() {
    let r = unwrap_envelope(doc(r#"{"content":[{"json":[true],"text":"{}"}]}"#));
    assert_eq!(r, Ok(doc("[true]")));
}

#[test]
fn envelope_bad_text_is_decode_error() {
    let r = unwrap_envelope(doc(r#"{"content":[{"type":"text","text":"not json"}]}"#));
    assert_eq!(r, Err(BridgeError::EnvelopeDecodeError));
}

#[test]
fn decode_text_maps_parse_failure() {
    assert_eq!(decode_text(None), Err(BridgeError::EnvelopeDecodeError));
    assert_eq!(decode_text(Some(Json::UInt(4))), Ok(Json::UInt(4)));
}

#[test]
fn response_error_becomes_tool_invocation_error() {
    let resp = Response {
        id: 3,
        result: None,
        error: Some(RpcError { code: -32601, message: "no such tool".to_string() }),
    };
    assert_eq!(
        call_result(resp),
        Err(BridgeError::ToolInvocationError { code: -32601, message: "no such tool".to_string() })
    );
}

#[test]
fn missing_result_is_empty_tool_response() {
    let resp = Response { id: 3, result: None, error: None };
    assert_eq!(call_result(resp), Err(BridgeError::EmptyToolResponse));
}

#[test]
fn decode_response_reads_fields() {
    let r = decode_response(doc(r#"{"jsonrpc":"2.0","id":7,"result":{"ok":true}}"#)).unwrap();
    assert_eq!(r.id, 7);
    assert_eq!(r.result, Some(doc(r#"{"ok":true}"#)));
    assert_eq!(r.error, None);
    let e = decode_response(doc(r#"{"id":8,"error":{"code":-5,"message":"bad"}}"#)).unwrap();
    assert_eq!(e.error, Some(RpcError { code: -5, message: "bad".to_string() }));
    let n = decode_response(doc(r#"{"id":9,"result":null}"#)).unwrap();
    assert_eq!(n.result, None);
}

#[test]
fn decode_response_rejects_unreadable_documents() {
    assert_eq!(decode_response(doc(r#"{"result":1}"#)), None);
    assert_eq!(decode_response(doc(r#"{"id":"1","result":1}"#)), None);
    assert_eq!(decode_response(doc(r#"{"id":-1,"result":1}"#)), None);
    assert_eq!(decode_response(doc(r#"{"id":1,"error":{"code":"x","message":"m"}}"#)), None);
    assert_eq!(decode_response(doc("[1]")), None);
}

#[test]
fn parse_reads_numbers_and_rejects_garbage() {
    assert_eq!(parse_json("18446744073709551615"), Some(Json::UInt(u64::MAX)));
    assert_eq!(parse_json("-3"), Some(Json::NegInt(-3)));
    assert_eq!(parse_json("2.5"), Some(Json::Decimal("2.5".to_string())));
    assert_eq!(parse_json("{\"a\":"), None);
    assert_eq!(parse_json("1 2"), None);
}

#[test]
fn encode_is_compact_and_escapes_line_feeds() {
    let text = encode_json(&Json::Object(vec![
        ("k".to_string(), Json::Str("a\nb".to_string())),
        ("n".to_string(), Json::Array(vec![Json::Null, Json::Bool(false), Json::NegInt(-2)])),
    ]));
    assert_eq!(text, r#"{"k":"a\nb","n":[null,false,-2]}"#);
    assert!(!text.contains('\n'));
}

#[test]
fn frame_is_one_line() {
    let line = frame(&Json::Str("x\ny".to_string()));
    assert_eq!(line, "\"x\\ny\"\n");
    assert_eq!(line.matches('\n').count(), 1);
}

#[test]
fn notification_has_no_id() {
    let line = frame(&Message::Notification { method: "notifications/initialized".to_string() }.to_json());
    let v: serde_json::Value = serde_json::from_str(&line).unwrap();
    assert_eq!(v.get("id"), None);
    assert_eq!(v.get("jsonrpc").and_then(|x| x.as_str()), Some("2.0"));
    assert_eq!(v.get("method").and_then(|x| x.as_str()), Some("notifications/initialized"));
}

#[test]
fn request_without_params_omits_them() {
    let line = frame(&Message::Request { id: 5, method: "ping".to_string(), params: None }.to_json());
    let v: serde_json::Value = serde_json::from_str(&line).unwrap();
    assert_eq!(v.get("id").and_then(|x| x.as_u64()), Some(5));
    assert_eq!(v.get("params"), None);
}

#[test]
fn lookup_takes_first_matching_key() {
    let entries = vec![
        ("a".to_string(), Json::UInt(1)),
        ("b".to_string(), Json::UInt(2)),
        ("b".to_string(), Json::UInt(3)),
    ];
    assert_eq!(find_key(&entries, "b"), Some(1));
    assert_eq!(find_key(&entries, "c"), None);
    let obj = Json::Object(entries);
    assert_eq!(get(&obj, "b"), Some(&Json::UInt(2)));
    assert_eq!(get(&Json::Null, "b"), None);
}
