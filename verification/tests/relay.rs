use kolosal_supervisor::json::JsonValue;
use kolosal_supervisor::relay::decode_response;
use kolosal_supervisor::relay::encode_request;
use kolosal_supervisor::relay::extract_chat;
use kolosal_supervisor::relay::extract_content;
use kolosal_supervisor::relay::relay_response;
use kolosal_supervisor::ApiError;

#[test]
fn plain_output_yields_content_and_no_tool_calls() {
    let r = decode_response(200, "{\"output\": \"hi\"}").unwrap();
    assert_eq!(r.content, "hi");
    assert!(r.tool_calls.is_none());
}

#[test]
fn tool_call_entry_extracted_and_other_entries_ignored() {
    let body = "{\"output\": \"ok\", \"messages\": [\
        {\"type\":\"tool_call\",\"name\":\"search\",\"arguments\":{\"q\":\"x\"}}, \
        {\"type\":\"text\"}]}";
    let r = decode_response(200, body).unwrap();
    assert_eq!(r.content, "ok");
    let calls = r.tool_calls.expect("one tool call expected");
    assert_eq!(calls.len(), 1);
    assert_eq!(calls[0].name, "search");
    assert_eq!(
        calls[0].arguments,
        JsonValue::Obj(vec![("q".to_string(), JsonValue::Str("x".to_string()))])
    );
}

#[test]
fn missing_output_yields_placeholder_not_error() {
    let r = decode_response(200, "{\"messages\": []}").unwrap();
    assert_eq!(r.content, "No response");
    assert!(r.tool_calls.is_none());
}

#[test]
fn non_string_output_yields_placeholder() {
    let r = decode_response(200, "{\"output\": 5}").unwrap();
    assert_eq!(r.content, "No response");
}

#[test]
fn http_500_yields_server_error_without_parsing_body() {
    // The body is perfectly decodable; the status alone decides.
    assert_eq!(
        decode_response(500, "{\"output\": \"hi\"}"),
        Err(ApiError::ServerError(500))
    );
    // So does a body that is not JSON at all: same error either way.
    assert_eq!(decode_response(500, "no json here"), Err(ApiError::ServerError(500)));
}

#[test]
fn invalid_json_yields_decode_error() {
    assert_eq!(decode_response(200, "not json"), Err(ApiError::DecodeError));
}

#[test]
fn malformed_entry_skipped_sibling_kept() {
    let body = "{\"output\": \"ok\", \"messages\": [\
        {\"type\":\"tool_call\",\"name\":\"broken\"}, \
        {\"type\":\"tool_call\",\"name\":\"works\",\"arguments\":1}]}";
    let r = decode_response(200, body).unwrap();
    let calls = r.tool_calls.expect("the well-formed sibling must survive");
    assert_eq!(calls.len(), 1);
    assert_eq!(calls[0].name, "works");
    assert_eq!(calls[0].arguments, JsonValue::Num("1".to_string()));
}

#[test]
fn entry_missing_name_is_skipped() {
    let body = "{\"messages\": [{\"type\":\"tool_call\",\"arguments\":{}}]}";
    let r = decode_response(200, body).unwrap();
    assert!(r.tool_calls.is_none());
}

#[test]
fn messages_not_an_array_means_no_tool_calls() {
    let r = decode_response(200, "{\"output\":\"x\",\"messages\":\"oops\"}").unwrap();
    assert!(r.tool_calls.is_none());
}

#[test]
fn encode_request_fixes_stream_false_and_escapes() {
    let (value, body) = encode_request("say \"hi\"".to_string());
    // The rendered body is real JSON from the built value, not the input text.
    assert_eq!(body, "{\"input\":\"say \\\"hi\\\"\",\"stream\":false}");
    match value {
        JsonValue::Obj(fields) => {
            assert_eq!(fields.len(), 2);
            assert_eq!(fields[0].0, "input");
            assert_eq!(fields[0].1, JsonValue::Str("say \"hi\"".to_string()));
            assert_eq!(fields[1].0, "stream");
            assert_eq!(fields[1].1, JsonValue::Bool(false));
        },
        other => panic!("request must be an object, got {:?}", other),
    }
}

#[test]
fn encode_request_round_trips_through_serde() {
    let (_, body) = encode_request("hello".to_string());
    let v: serde_json::Value = serde_json::from_str(&body).unwrap();
    assert_eq!(v.get("input").and_then(|x| x.as_str()), Some("hello"));
    assert_eq!(v.get("stream").and_then(|x| x.as_bool()), Some(false));
}

#[test]
fn extract_content_reads_first_output_binding() {
    let v = JsonValue::Obj(vec![
        ("output".to_string(), JsonValue::Str("first".to_string())),
        ("output".to_string(), JsonValue::Str("second".to_string())),
    ]);
    assert_eq!(extract_content(&v), "first");
}

#[test]
fn extract_chat_on_non_object() {
    let m = extract_chat(JsonValue::Arr(vec![]));
    assert_eq!(m.content, "No response");
    assert!(m.tool_calls.is_none());
}

#[test]
fn transport_failure_yields_transport_error() {
    assert_eq!(relay_response(None), Err(ApiError::TransportError));
    let ok = relay_response(Some((200, "{\"output\":\"hi\"}".to_string()))).unwrap();
    assert_eq!(ok.content, "hi");
    assert_eq!(
        relay_response(Some((502, "ignored".to_string()))),
        Err(ApiError::ServerError(502))
    );
}
