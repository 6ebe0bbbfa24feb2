use anthropic::anthropic::{endpoint_url, request_headers, resolve_settings, DEFAULT_API_ENDPOINT};
use anthropic::bedrock::{converse_message, response_from_converse, system_blocks, ConverseBlock};
use anthropic::error::ClientError;
use anthropic::json::JsonValue;
use anthropic::messages::{Content, ContentPart, ImageSource, MediaType, Message, Role, StopReason};
use anthropic::passthrough::body_text;
use anthropic::reconstruct::NativeUsage;
use anthropic::request::{
    CreateMessageRequest, CreateMessageRequestWithStream, Metadata, Tool, ToolChoice, ToolChoiceKind,
    ToolInputSchema,
};
use anthropic::{bedrock, vertex_ai, vertexai};

fn hi() -> Vec<Message> {
    vec![Message::user(Content::text("Hi!"))]
}

fn minimal() -> CreateMessageRequest {
    CreateMessageRequest::builder()
        .model("m".to_string())
        .messages(hi())
        .max_tokens(100)
        .build()
        .unwrap()
}

fn body(req: CreateMessageRequest, stream: bool) -> CreateMessageRequestWithStream {
    CreateMessageRequestWithStream { create_message_request: req, stream }
}

fn validation_field(r: Result<CreateMessageRequest, ClientError>) -> String {
    match r {
        Err(ClientError::Validation(f)) => f,
        other => panic!("unexpected {:?}", other),
    }
}

#[test]
fn build_needs_model_messages_and_max_tokens() {
    let no_model = CreateMessageRequest::builder().messages(hi()).max_tokens(100).build();
    assert_eq!(validation_field(no_model), "model");
    let no_messages = CreateMessageRequest::builder().model("m".to_string()).max_tokens(100).build();
    assert_eq!(validation_field(no_messages), "messages");
    let no_max = CreateMessageRequest::builder().model("m".to_string()).messages(hi()).build();
    assert_eq!(validation_field(no_max), "max_tokens");
    assert_eq!(validation_field(CreateMessageRequest::builder().build()), "model");
    assert_eq!(
        ClientError::Validation("model".to_string()).describe(),
        "model is required"
    );
}

#[test]
fn build_keeps_the_fields() {
    let r = CreateMessageRequest::builder()
        .model("m".to_string())
        .messages(hi())
        .max_tokens(100)
        .system("be brief".to_string())
        .top_k(5)
        .temperature("0.5".to_string())
        .build()
        .unwrap();
    assert_eq!(r.model, "m");
    assert_eq!(r.max_tokens, 100);
    assert!(matches!(r.system, Some(Content::Single(ref s)) if s == "be brief"));
    assert_eq!(r.top_k, Some(5));
    assert_eq!(r.temperature.as_deref(), Some("0.5"));
    assert!(r.top_p.is_none() && r.tools.is_none() && r.metadata.is_none());
}

#[test]
fn direct_body_omits_absent_fields() {
    let j = body(minimal(), false).to_json().unwrap();
    assert_eq!(
        body_text(&j).unwrap(),
        r#"{"max_tokens":100,"messages":[{"content":"Hi!","role":"user"}],"model":"m","stream":false}"#
    );
}

#[test]
fn direct_body_carries_every_optional_field() {
    let req = CreateMessageRequest::builder()
        .model("m".to_string())
        .messages(hi())
        .max_tokens(1024)
        .metadata(Metadata { user_id: Some("u1".to_string()) })
        .stop_sequences(vec!["END".to_string()])
        .system("sys".to_string())
        .temperature("0.5".to_string())
        .tool_choice(ToolChoice::from(ToolChoiceKind::Tool { name: "calc".to_string() }))
        .tools(vec![Tool {
            description: None,
            name: "calc".to_string(),
            input_schema: ToolInputSchema {
                kind: "object".to_string(),
                properties: JsonValue::from_text(r#"{"x":{"type":"number"}}"#).unwrap(),
                required: vec!["x".to_string()],
            },
        }])
        .top_k(3)
        .top_p("0.9".to_string())
        .build()
        .unwrap();
    let j = body(req, true).to_json().unwrap();
    let v = JsonValue::from_text(&body_text(&j).unwrap()).unwrap();
    let expected = JsonValue::from_text(r#"{"model":"m","messages":[{"role":"user","content":"Hi!"}],"max_tokens":1024,"metadata":{"user_id":"u1"},"stop_sequences":["END"],"system":"sys","temperature":0.5,"tool_choice":{"type":"tool","name":"calc"},"tools":[{"name":"calc","input_schema":{"type":"object","properties":{"x":{"type":"number"}},"required":["x"]}}],"top_k":3,"top_p":0.9,"stream":true}"#).unwrap();
    assert_eq!(v.to_text().unwrap(), expected.to_text().unwrap());
}

#[test]
fn tool_choice_forms() {
    assert_eq!(ToolChoice::from(ToolChoiceKind::Auto).to_json().to_text().unwrap(), r#"{"type":"auto"}"#);
    assert_eq!(ToolChoice::from(ToolChoiceKind::Any).to_json().to_text().unwrap(), r#"{"type":"any"}"#);
    assert_eq!((Metadata { user_id: None }.to_json()).to_text().unwrap(), "{}");
}

#[test]
fn streamed_fragments_are_never_submitted() {
    let req = CreateMessageRequest::builder()
        .model("m".to_string())
        .messages(vec![Message { role: Role::Assistant, content: Content::Multi(vec![ContentPart::TextDelta { text: "x".to_string() }]) }])
        .max_tokens(1)
        .build()
        .unwrap();
    assert!(!req.is_submittable());
    let b = body(req, false);
    assert!(matches!(b.to_json(), Err(ClientError::Validation(ref f)) if f == "messages"));
    assert!(matches!(vertexai::request_body(&b), Err(ClientError::Validation(_))));
    assert!(matches!(bedrock::request_body(&b), Err(ClientError::Validation(_))));
}

#[test]
fn unprintable_number_is_a_validation_error() {
    let req = CreateMessageRequest::builder()
        .model("m".to_string())
        .messages(hi())
        .max_tokens(1)
        .temperature("warm".to_string())
        .build()
        .unwrap();
    let j = body(req, false).to_json().unwrap();
    assert!(matches!(body_text(&j), Err(ClientError::Validation(ref f)) if f == "body"));
}

#[test]
fn gateway_bodies() {
    let v = vertexai::request_body(&body(minimal(), true)).unwrap();
    assert_eq!(
        body_text(&v).unwrap(),
        r#"{"anthropic_version":"vertex-2023-10-16","max_tokens":100,"messages":[{"content":"Hi!","role":"user"}],"stream":true}"#
    );
    let b = bedrock::request_body(&body(minimal(), true)).unwrap();
    assert_eq!(
        body_text(&b).unwrap(),
        r#"{"anthropic_version":"bedrock-2023-05-31","max_tokens":100,"messages":[{"content":"Hi!","role":"user"}]}"#
    );
}

#[test]
fn direct_backend_headers_and_path() {
    assert_eq!(endpoint_url(), "/v1/messages");
    let plain = request_headers("k", false);
    assert_eq!(
        plain,
        vec![
            ("x-api-key".to_string(), "k".to_string()),
            ("anthropic-version".to_string(), "2023-06-01".to_string()),
            ("content-type".to_string(), "application/json".to_string()),
        ]
    );
    let streaming = request_headers("k", true);
    assert_eq!(streaming.len(), 4);
    assert_eq!(streaming[0], ("X-Stainless-Helper-Method".to_string(), "stream".to_string()));
}

#[test]
fn settings_resolution() {
    let s = resolve_settings(Some("a".to_string()), Some("b".to_string()), None, None, true).unwrap();
    assert_eq!(s.api_key, "a");
    assert_eq!(s.base_url, DEFAULT_API_ENDPOINT);
    let s = resolve_settings(None, Some("b".to_string()), None, Some("http://env".to_string()), true).unwrap();
    assert_eq!(s.api_key, "b");
    assert_eq!(s.base_url, "http://env");
    let s = resolve_settings(Some("a".to_string()), None, Some("http://x".to_string()), Some("http://env".to_string()), true).unwrap();
    assert_eq!(s.base_url, "http://x");
    assert!(matches!(resolve_settings(None, None, None, None, true), Err(ClientError::Auth(ref m)) if m == "API key is required"));
    assert!(matches!(resolve_settings(Some("a".to_string()), None, None, None, false), Err(ClientError::Validation(ref f)) if f == "http_client"));
}

#[test]
fn gateway_urls_and_headers() {
    assert_eq!(
        vertexai::base_url(&"us-east5".to_string(), &"proj".to_string()),
        "https://us-east5-aiplatform.googleapis.com/v1/projects/proj/locations/us-east5/publishers/anthropic"
    );
    assert_eq!(vertexai::endpoint_url(&body(minimal(), false)), "/models/m:rawPredict");
    assert_eq!(vertexai::endpoint_url(&body(minimal(), true)), "/models/m:streamRawPredict");
    let h = vertexai::request_headers("proj", "Bearer t", false);
    assert_eq!(h[0], ("x-goog-user-project".to_string(), "proj".to_string()));
    assert_eq!(h[1], ("authorization".to_string(), "Bearer t".to_string()));
    let h = vertex_ai::request_headers("proj", "key", true);
    assert_eq!(h[1], ("authorization".to_string(), "Bearer key".to_string()));
    assert_eq!(h.len(), 4);
}

#[test]
fn gateway_blocks_keep_only_tool_results_when_present() {
    let m = Message {
        role: Role::User,
        content: Content::Multi(vec![
            ContentPart::text("ignored"),
            ContentPart::ToolResult { tool_use_id: "t".to_string(), content: "42".to_string() },
        ]),
    };
    let c = converse_message(&m).unwrap();
    assert_eq!(c.role, Role::User);
    assert_eq!(c.content.len(), 1);
    assert!(matches!(&c.content[0], ConverseBlock::ToolResult { tool_use_id, text } if tool_use_id == "t" && text == "42"));
}

#[test]
fn gateway_blocks_decode_images() {
    let m = Message {
        role: Role::User,
        content: Content::Multi(vec![
            ContentPart::text("Hello"),
            ContentPart::Image {
                source: ImageSource { kind: "base64".to_string(), media_type: MediaType::ImageJpeg, data: "AAEC".to_string() },
            },
        ]),
    };
    let c = converse_message(&m).unwrap();
    assert_eq!(c.content.len(), 2);
    assert!(matches!(&c.content[0], ConverseBlock::Text(t) if t == "Hello"));
    match &c.content[1] {
        ConverseBlock::Image { format, bytes } => {
            assert_eq!(*format, MediaType::ImageJpeg);
            assert_eq!(bytes, &vec![0u8, 1, 2]);
        }
        other => panic!("unexpected {:?}", other),
    }
    let bad = Message {
        role: Role::User,
        content: Content::Multi(vec![ContentPart::Image {
            source: ImageSource { kind: "base64".to_string(), media_type: MediaType::ImageGif, data: "@@@".to_string() },
        }]),
    };
    assert!(matches!(converse_message(&bad), Err(ClientError::Validation(_))));
    let single = converse_message(&Message::user(Content::text("Hi!"))).unwrap();
    assert!(matches!(&single.content[..], [ConverseBlock::Text(t)] if t == "Hi!"));
}

#[test]
fn gateway_system_keeps_text_only() {
    assert_eq!(system_blocks(&Content::text("sys")).unwrap(), vec!["sys".to_string()]);
    let multi = Content::Multi(vec![
        ContentPart::text("a"),
        ContentPart::ToolResult { tool_use_id: "t".to_string(), content: "x".to_string() },
        ContentPart::text("b"),
    ]);
    assert_eq!(system_blocks(&multi).unwrap(), vec!["a".to_string(), "b".to_string()]);
    let fragment = Content::Multi(vec![ContentPart::text("a"), ContentPart::TextDelta { text: "x".to_string() }]);
    assert!(matches!(system_blocks(&fragment), Err(ClientError::Validation(ref f)) if f == "system"));
}

#[test]
fn gateway_answer_becomes_a_response() {
    let r = response_from_converse(
        "req".to_string(),
        "m".to_string(),
        vec![ConverseBlock::Text("Hi".to_string()), ConverseBlock::Image { format: MediaType::ImageWebp, bytes: vec![0, 1, 2] }],
        StopReason::StopSequence,
        NativeUsage { input_tokens: 5, output_tokens: 2 },
    );
    assert_eq!(r.id, "req");
    assert_eq!(r.role, "assistant");
    assert_eq!(r.stop_reason, Some(StopReason::StopSequence));
    assert_eq!(r.usage.input_tokens, Some(5));
    match &r.content[1] {
        ContentPart::Image { source } => {
            assert_eq!(source.kind, "image");
            assert_eq!(source.data, "AAEC");
        }
        other => panic!("unexpected {:?}", other),
    }
}

use anthropic::request::IncomingCreateMessageRequest;

#[test]
fn submitted_request_reads_both_content_forms() {
    let j = JsonValue::from_text(r#"{"model":"m","max_tokens":100,"messages":[{"role":"user","content":"Hi!"},{"role":"assistant","content":[{"type":"text","text":"Hello"}]}],"stream":true}"#).unwrap();
    let inc = IncomingCreateMessageRequest::from_json(&j).unwrap();
    assert_eq!(inc.stream, Some(true));
    let r = inc.create_message_request;
    assert_eq!(r.model, "m");
    assert_eq!(r.max_tokens, 100);
    assert_eq!(r.messages.len(), 2);
    assert!(matches!(r.messages[0].content, Content::Single(ref s) if s == "Hi!"));
    assert!(matches!(r.messages[1].content, Content::Multi(ref p) if p.len() == 1));
    assert!(r.system.is_none());
}

#[test]
fn submitted_system_prompt_may_be_empty_or_null() {
    for sys in [r#""""#, "null"] {
        let text = format!(r#"{{"model":"m","max_tokens":1,"messages":[{{"role":"user","content":"Hi!"}}],"system":{}}}"#, sys);
        let r = CreateMessageRequest::from_json(&JsonValue::from_text(&text).unwrap()).unwrap();
        assert!(r.system.is_none());
    }
    let r = CreateMessageRequest::from_json(&JsonValue::from_text(r#"{"model":"m","max_tokens":1,"messages":[{"role":"user","content":"Hi!"}],"system":"be brief"}"#).unwrap()).unwrap();
    assert!(matches!(r.system, Some(Content::Single(ref s)) if s == "be brief"));
}

#[test]
fn submitted_request_reads_optional_fields() {
    let j = JsonValue::from_text(r#"{"model":"m","max_tokens":7,"messages":[{"role":"user","content":"Hi!"}],"metadata":{"user_id":"u"},"stop_sequences":["a","b"],"temperature":0.25,"tool_choice":{"type":"tool","name":"calc"},"tools":[{"description":"adds","name":"calc","input_schema":{"type":"object","properties":{},"required":[]}}],"top_k":4,"top_p":0.5}"#).unwrap();
    let r = CreateMessageRequest::from_json(&j).unwrap();
    assert_eq!(r.metadata.unwrap().user_id.as_deref(), Some("u"));
    assert_eq!(r.stop_sequences.unwrap(), vec!["a".to_string(), "b".to_string()]);
    assert_eq!(r.temperature.as_deref(), Some("0.25"));
    assert!(matches!(r.tool_choice, Some(ToolChoice { kind: ToolChoiceKind::Tool { ref name } }) if name == "calc"));
    let tools = r.tools.unwrap();
    assert_eq!(tools[0].description.as_deref(), Some("adds"));
    assert_eq!(tools[0].input_schema.kind, "object");
    assert_eq!(r.top_k, Some(4));
    assert_eq!(r.top_p.as_deref(), Some("0.5"));
}

#[test]
fn submitted_request_needs_its_mandatory_fields() {
    for text in [
        r#"{"max_tokens":1,"messages":[{"role":"user","content":"Hi!"}]}"#,
        r#"{"model":"m","messages":[{"role":"user","content":"Hi!"}]}"#,
        r#"{"model":"m","max_tokens":1}"#,
        r#"{"model":"m","max_tokens":-1,"messages":[{"role":"user","content":"Hi!"}]}"#,
        r#"{"model":"m","max_tokens":1,"messages":[{"role":"user","content":"Hi!"}],"stream":"yes"}"#,
        r#"{"model":"m","max_tokens":1,"messages":[{"role":"user","content":""}]}"#,
        r#"{"model":"m","max_tokens":1,"messages":[]}"#,
        r#"{"model":"m","max_tokens":0,"messages":[{"role":"user","content":"Hi!"}]}"#,
    ] {
        assert!(IncomingCreateMessageRequest::from_json(&JsonValue::from_text(text).unwrap()).is_none(), "{}", text);
    }
}

#[test]
fn gateway_settings() {
    let l = vertexai::resolve_location(Some("p".to_string()), Some("r".to_string())).unwrap();
    assert_eq!((l.project.as_str(), l.region.as_str()), ("p", "r"));
    assert!(matches!(vertexai::resolve_location(None, Some("r".to_string())), Err(ClientError::Validation(ref f)) if f == "project"));
    assert!(matches!(vertexai::resolve_location(Some("p".to_string()), None), Err(ClientError::Validation(ref f)) if f == "region"));
    assert_eq!(vertex_ai::resolve_api_key(None, Some("env".to_string())).unwrap(), "env");
    assert_eq!(vertex_ai::resolve_api_key(Some("a".to_string()), Some("env".to_string())).unwrap(), "a");
    assert!(matches!(vertex_ai::resolve_api_key(None, None), Err(ClientError::Auth(_))));
}

#[test]
fn direct_body_reads_back_as_the_same_request() {
    let req = CreateMessageRequest::builder()
        .model("m".to_string())
        .messages(hi())
        .max_tokens(4096)
        .system("sys".to_string())
        .top_k(3)
        .top_p("0.9".to_string())
        .tool_choice(ToolChoice::from(ToolChoiceKind::Any))
        .build()
        .unwrap();
    let text = body_text(&body(req, true).to_json().unwrap()).unwrap();
    let back = IncomingCreateMessageRequest::from_json(&JsonValue::from_text(&text).unwrap()).unwrap();
    assert_eq!(back.stream, Some(true));
    let r = back.create_message_request;
    assert_eq!(r.model, "m");
    assert_eq!(r.max_tokens, 4096);
    assert!(matches!(r.messages[0].content, Content::Single(ref s) if s == "Hi!"));
    assert!(matches!(r.system, Some(Content::Single(ref s)) if s == "sys"));
    assert_eq!(r.top_k, Some(3));
    assert_eq!(r.top_p.as_deref(), Some("0.9"));
    assert!(matches!(r.tool_choice, Some(ToolChoice { kind: ToolChoiceKind::Any })));
    assert!(r.metadata.is_none() && r.tools.is_none() && r.temperature.is_none() && r.stop_sequences.is_none());
}

#[test]
fn build_refuses_empty_messages_and_zero_tokens() {
    let empty = CreateMessageRequest::builder().model("m".to_string()).messages(Vec::new()).max_tokens(100).build();
    assert_eq!(validation_field(empty), "messages");
    let zero = CreateMessageRequest::builder().model("m".to_string()).messages(hi()).max_tokens(0).build();
    assert_eq!(validation_field(zero), "max_tokens");
    let both = CreateMessageRequest::builder().model("m".to_string()).messages(Vec::new()).max_tokens(0).build();
    assert_eq!(validation_field(both), "messages");
}
