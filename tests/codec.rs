use anthropic::decode::{decode_response, decode_response_json};
use anthropic::error::ClientError;
use anthropic::json::{decimal_text, get, get_str, parse_u64, JsonValue};
use anthropic::messages::{
    Content, ContentPart, CreateMessageResponse, ImageSource, MediaType, Message, Role, StopReason,
    Usage,
};

fn round_trip(c: &Content) -> Result<Option<Content>, ()> {
    let text = c.to_json().to_text().expect("printable");
    let back = JsonValue::from_text(&text).expect("parsable");
    Content::optional_from_json(&back)
}

#[test]
fn single_content_round_trips() {
    match round_trip(&Content::text("hi")) {
        Ok(Some(Content::Single(s))) => assert_eq!(s, "hi"),
        other => panic!("unexpected {:?}", other),
    }
}

#[test]
fn multi_content_round_trips() {
    let c = Content::Multi(vec![
        ContentPart::text("Hello"),
        ContentPart::Image {
            source: ImageSource { kind: "base64".to_string(), media_type: MediaType::ImagePng, data: "AAEC".to_string() },
        },
        ContentPart::ToolUse {
            id: "t1".to_string(),
            name: "calc".to_string(),
            input: JsonValue::from_text(r#"{"x":[1,2.5,"s",null,true]}"#).unwrap(),
        },
        ContentPart::ToolResult { tool_use_id: "t1".to_string(), content: "3".to_string() },
    ]);
    match round_trip(&c) {
        Ok(Some(Content::Multi(parts))) => {
            assert_eq!(parts.len(), 4);
            assert!(matches!(&parts[0], ContentPart::Text { text } if text == "Hello"));
            match &parts[1] {
                ContentPart::Image { source } => {
                    assert_eq!(source.kind, "base64");
                    assert_eq!(source.media_type, MediaType::ImagePng);
                    assert_eq!(source.data, "AAEC");
                }
                other => panic!("unexpected {:?}", other),
            }
            match &parts[2] {
                ContentPart::ToolUse { id, name, input } => {
                    assert_eq!(id, "t1");
                    assert_eq!(name, "calc");
                    assert_eq!(input.to_text().unwrap(), r#"{"x":[1,2.5,"s",null,true]}"#);
                }
                other => panic!("unexpected {:?}", other),
            }
            assert!(matches!(&parts[3], ContentPart::ToolResult { tool_use_id, content } if tool_use_id == "t1" && content == "3"));
        }
        other => panic!("unexpected {:?}", other),
    }
}

#[test]
fn content_wire_forms() {
    assert_eq!(Content::text("hi").to_json().to_text().unwrap(), r#""hi""#);
    let multi = Content::Multi(vec![ContentPart::text("a")]);
    assert_eq!(multi.to_json().to_text().unwrap(), r#"[{"text":"a","type":"text"}]"#);
}

#[test]
fn empty_or_null_content_is_absent() {
    assert!(matches!(Content::optional_from_json(&JsonValue::from_text(r#""""#).unwrap()), Ok(None)));
    assert!(matches!(Content::optional_from_json(&JsonValue::from_text("null").unwrap()), Ok(None)));
    assert!(Content::optional_from_json(&JsonValue::from_text("3").unwrap()).is_err());
    assert!(Content::optional_from_json(&JsonValue::from_text(r#"[{"type":"bogus"}]"#).unwrap()).is_err());
}

#[test]
fn message_needs_present_content() {
    let m = Message::from_json(&JsonValue::from_text(r#"{"role":"user","content":"Hi!"}"#).unwrap()).unwrap();
    assert_eq!(m.role, Role::User);
    assert!(matches!(m.content, Content::Single(ref s) if s == "Hi!"));
    assert!(Message::from_json(&JsonValue::from_text(r#"{"role":"user","content":""}"#).unwrap()).is_none());
    assert!(Message::from_json(&JsonValue::from_text(r#"{"role":"robot","content":"x"}"#).unwrap()).is_none());
    let user = Message::user(Content::text("Hi!"));
    assert_eq!(user.to_json().to_text().unwrap(), r#"{"content":"Hi!","role":"user"}"#);
}

#[test]
fn role_names() {
    assert_eq!(Role::User.display_name(), "User");
    assert_eq!(Role::Assistant.display_name(), "Assistant");
    assert_eq!(Role::Assistant.wire_name(), "assistant");
    assert_eq!(Role::from_wire_name(&"assistant".to_string()), Some(Role::Assistant));
}

#[test]
fn non_streaming_message_decodes() {
    let body = r#"{"type":"message","id":"1","model":"m","role":"assistant","content":[{"type":"text","text":"Hello"}],"stop_reason":"end_turn","stop_sequence":null,"usage":{"output_tokens":3}}"#;
    let r = decode_response(body).unwrap();
    assert_eq!(r.id, "1");
    assert_eq!(r.model, "m");
    assert_eq!(r.role, "assistant");
    assert_eq!(r.content.len(), 1);
    assert!(matches!(&r.content[0], ContentPart::Text { text } if text == "Hello"));
    assert_eq!(r.stop_reason, Some(StopReason::EndTurn));
    assert!(r.stop_sequence.is_none());
    assert_eq!(r.usage, Usage { input_tokens: None, output_tokens: 3 });
}

#[test]
fn error_envelope_decodes_to_api_error() {
    let body = r#"{"type":"error","error":{"type":"invalid_request_error","message":"bad model"}}"#;
    match decode_response(body) {
        Err(ClientError::Api(e)) => {
            assert_eq!(e.kind, "invalid_request_error");
            assert_eq!(e.message, "bad model");
        }
        other => panic!("unexpected {:?}", other),
    }
    match CreateMessageResponse::from_json(&JsonValue::from_text(body).unwrap()) {
        Some(CreateMessageResponse::Error { error }) => assert_eq!(error.kind, "invalid_request_error"),
        other => panic!("unexpected {:?}", other),
    }
}

#[test]
fn unknown_shapes_are_decode_errors_with_the_body() {
    for body in ["not json", r#"{"type":"surprise"}"#, r#"{"type":"message","id":"1"}"#] {
        match decode_response(body) {
            Err(ClientError::Decode(raw)) => assert_eq!(raw, body),
            other => panic!("unexpected {:?}", other),
        }
    }
    match decode_response_json(&JsonValue::Null, "null") {
        Err(ClientError::Decode(raw)) => assert_eq!(raw, "null"),
        other => panic!("unexpected {:?}", other),
    }
}

#[test]
fn stop_reasons_and_usage_are_checked() {
    let body = r#"{"type":"message","id":"1","model":"m","role":"assistant","content":[],"stop_reason":"max_tokens","usage":{"input_tokens":4,"output_tokens":4294967295}}"#;
    let r = decode_response(body).unwrap();
    assert_eq!(r.stop_reason, Some(StopReason::MaxTokens));
    assert_eq!(r.usage, Usage { input_tokens: Some(4), output_tokens: u32::MAX });
    let too_big = r#"{"type":"message","id":"1","model":"m","role":"assistant","content":[],"usage":{"output_tokens":4294967296}}"#;
    assert!(matches!(decode_response(too_big), Err(ClientError::Decode(_))));
    let bad_reason = r#"{"type":"message","id":"1","model":"m","role":"assistant","content":[],"stop_reason":"tired","usage":{"output_tokens":1}}"#;
    assert!(matches!(decode_response(bad_reason), Err(ClientError::Decode(_))));
    let fraction = r#"{"type":"message","id":"1","model":"m","role":"assistant","content":[],"usage":{"output_tokens":1.5}}"#;
    assert!(matches!(decode_response(fraction), Err(ClientError::Decode(_))));
}

#[test]
fn decimal_numbers() {
    assert_eq!(decimal_text(0), "0");
    assert_eq!(decimal_text(100), "100");
    assert_eq!(decimal_text(u64::MAX), "18446744073709551615");
    assert_eq!(parse_u64(&"18446744073709551615".to_string()), Some(u64::MAX));
    assert_eq!(parse_u64(&"18446744073709551616".to_string()), None);
    assert_eq!(parse_u64(&"".to_string()), None);
    assert_eq!(parse_u64(&"-1".to_string()), None);
    assert_eq!(parse_u64(&"0042".to_string()), Some(42));
}

#[test]
fn json_lookup() {
    let v = JsonValue::from_text(r#"{"a":{"b":"c"},"n":1}"#).unwrap();
    let a = get(&v, "a").unwrap();
    assert_eq!(get_str(a, "b").unwrap(), "c");
    assert!(get_str(&v, "n").is_none());
    assert!(get(&v, "missing").is_none());
    assert!(get(&JsonValue::Null, "a").is_none());
    assert!(JsonValue::from_text("{").is_none());
    let copy = v.clone();
    assert_eq!(copy.to_text().unwrap(), v.to_text().unwrap());
}

#[test]
fn delta_parts_decode() {
    let d = JsonValue::from_text(r#"{"type":"input_json_delta","partial_json":"{\"a\""}"#).unwrap();
    assert!(matches!(ContentPart::from_json(&d), Some(ContentPart::InputJsonDelta { partial_json }) if partial_json == "{\"a\""));
    let t = JsonValue::from_text(r#"{"type":"text_delta","text":"x"}"#).unwrap();
    assert!(matches!(ContentPart::from_json(&t), Some(ContentPart::TextDelta { text }) if text == "x"));
    let missing = JsonValue::from_text(r#"{"type":"tool_use","id":"a","name":"b"}"#).unwrap();
    assert!(ContentPart::from_json(&missing).is_none());
}
