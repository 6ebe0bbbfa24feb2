use anthropic::error::{ClientError, ProtocolViolation};
use anthropic::json::JsonValue;
use anthropic::messages::{ContentPart, Event, StopReason, Usage};
use anthropic::passthrough::{passthrough_all, passthrough_step, SseSignal, StreamAction};
use anthropic::reconstruct::{reconstruct_all, NativeBlockStart, NativeDelta, NativeEvent, NativeUsage, Reconstructor};

fn feed_all(events: Vec<NativeEvent>) -> (Vec<Event>, Vec<ProtocolViolation>) {
    let mut r = Reconstructor::new();
    let mut out = vec![Reconstructor::opening_event(&"req-1".to_string(), &"m".to_string())];
    let mut errors = Vec::new();
    for e in events {
        match r.feed(e) {
            Ok(evs) => out.extend(evs),
            Err(p) => errors.push(p),
        }
    }
    (out, errors)
}

fn text_delta(index: u64, t: &str) -> NativeEvent {
    NativeEvent::ContentBlockDelta { index, delta: NativeDelta::Text(t.to_string()) }
}

fn stop(reason: StopReason) -> NativeEvent {
    NativeEvent::MessageStop { stop_reason: reason }
}

fn metadata(input: u32, output: u32) -> NativeEvent {
    NativeEvent::Metadata { usage: Some(NativeUsage { input_tokens: input, output_tokens: output }) }
}

#[test]
fn reconstruction_scenario_end_to_end() {
    let (out, errors) = feed_all(vec![
        NativeEvent::MessageStart,
        text_delta(0, "Hi"),
        NativeEvent::ContentBlockStop { index: 0 },
        stop(StopReason::EndTurn),
        metadata(5, 2),
    ]);
    assert!(errors.is_empty());
    assert_eq!(out.len(), 6);
    match &out[0] {
        Event::MessageStart { message } => {
            assert_eq!(message.kind, "message");
            assert_eq!(message.message_response.id, "req-1");
            assert_eq!(message.message_response.model, "m");
            assert_eq!(message.message_response.role, "assistant");
            assert!(message.message_response.content.is_empty());
            assert_eq!(message.message_response.usage, Usage { input_tokens: Some(0), output_tokens: 0 });
        }
        other => panic!("unexpected {:?}", other),
    }
    match &out[1] {
        Event::ContentBlockStart { index: 0, content_block: ContentPart::Text { text } } => assert_eq!(text, ""),
        other => panic!("unexpected {:?}", other),
    }
    match &out[2] {
        Event::ContentBlockDelta { index: 0, delta: ContentPart::TextDelta { text } } => assert_eq!(text, "Hi"),
        other => panic!("unexpected {:?}", other),
    }
    assert!(matches!(out[3], Event::ContentBlockStop { index: 0 }));
    match &out[4] {
        Event::MessageDelta { delta, usage } => {
            assert_eq!(delta.stop_reason, StopReason::EndTurn);
            assert!(delta.stop_sequence.is_none());
            assert_eq!(*usage, Usage { input_tokens: Some(5), output_tokens: 2 });
        }
        other => panic!("unexpected {:?}", other),
    }
    assert!(matches!(out[5], Event::MessageStop));
}

#[test]
fn completed_stream_opens_and_closes_canonically() {
    let (out, errors) = feed_all(vec![
        text_delta(0, "a"),
        text_delta(1, "b"),
        stop(StopReason::MaxTokens),
        metadata(1, 1),
    ]);
    assert!(errors.is_empty());
    assert!(matches!(out[0], Event::MessageStart { .. }));
    assert!(matches!(out[out.len() - 1], Event::MessageStop));
    assert!(matches!(out[out.len() - 2], Event::MessageDelta { .. }));
    let deltas = out.iter().filter(|e| matches!(e, Event::MessageDelta { .. })).count();
    assert_eq!(deltas, 1);
}

#[test]
fn delta_without_start_gets_a_synthesized_start() {
    let (out, errors) = feed_all(vec![text_delta(3, "x"), text_delta(3, "y")]);
    assert!(errors.is_empty());
    assert_eq!(out.len(), 4);
    assert!(matches!(out[1], Event::ContentBlockStart { index: 3, .. }));
    assert!(matches!(out[2], Event::ContentBlockDelta { index: 3, .. }));
    assert!(matches!(out[3], Event::ContentBlockDelta { index: 3, .. }));
}

#[test]
fn explicit_tool_start_is_not_repeated() {
    let (out, errors) = feed_all(vec![
        NativeEvent::ContentBlockStart {
            index: 1,
            start: Some(NativeBlockStart::ToolUse { tool_use_id: "t1".to_string(), name: "lookup".to_string() }),
        },
        NativeEvent::ContentBlockDelta { index: 1, delta: NativeDelta::ToolUse("{\"q\":".to_string()) },
    ]);
    assert!(errors.is_empty());
    assert_eq!(out.len(), 3);
    match &out[1] {
        Event::ContentBlockStart { index: 1, content_block: ContentPart::ToolUse { id, name, input } } => {
            assert_eq!(id, "t1");
            assert_eq!(name, "lookup");
            assert!(matches!(input, JsonValue::Object(es) if es.is_empty()));
        }
        other => panic!("unexpected {:?}", other),
    }
    match &out[2] {
        Event::ContentBlockDelta { index: 1, delta: ContentPart::InputJsonDelta { partial_json } } => {
            assert_eq!(partial_json, "{\"q\":")
        }
        other => panic!("unexpected {:?}", other),
    }
}

#[test]
fn plain_start_is_an_empty_text_block() {
    let (out, _) = feed_all(vec![NativeEvent::ContentBlockStart { index: 0, start: None }]);
    match &out[1] {
        Event::ContentBlockStart { index: 0, content_block: ContentPart::Text { text } } => assert_eq!(text, ""),
        other => panic!("unexpected {:?}", other),
    }
}

#[test]
fn duplicated_terminal_signal_fails_once_and_stops() {
    let (out, errors) = feed_all(vec![
        text_delta(0, "a"),
        stop(StopReason::EndTurn),
        NativeEvent::ContentBlockStop { index: 0 },
        stop(StopReason::EndTurn),
        text_delta(0, "late"),
        metadata(1, 1),
    ]);
    assert_eq!(errors, vec![ProtocolViolation::DuplicatedTerminalSignal]);
    assert_eq!(out.len(), 4);
    assert!(matches!(out[3], Event::ContentBlockStop { index: 0 }));
}

#[test]
fn second_terminal_signal_after_usage_fails_the_stream() {
    let (out, errors) = feed_all(vec![
        stop(StopReason::EndTurn),
        metadata(1, 1),
        stop(StopReason::ToolUse),
        metadata(2, 2),
    ]);
    assert_eq!(errors, vec![ProtocolViolation::DuplicatedTerminalSignal]);
    assert_eq!(out.len(), 3);
    assert!(matches!(out[1], Event::MessageDelta { ref delta, .. } if delta.stop_reason == StopReason::EndTurn));
    assert!(matches!(out[2], Event::MessageStop));
    let deltas = out.iter().filter(|e| matches!(e, Event::MessageDelta { .. })).count();
    assert_eq!(deltas, 1);
}

#[test]
fn content_after_the_message_stop_produces_nothing() {
    let (out, errors) = feed_all(vec![
        text_delta(0, "a"),
        stop(StopReason::EndTurn),
        metadata(1, 1),
        text_delta(0, "late"),
        NativeEvent::ContentBlockStop { index: 0 },
    ]);
    assert!(errors.is_empty());
    assert_eq!(out.len(), 5);
    assert!(matches!(out[4], Event::MessageStop));
}

#[test]
fn metadata_before_stop_reason_fails() {
    let (out, errors) = feed_all(vec![text_delta(0, "a"), metadata(1, 1), stop(StopReason::EndTurn)]);
    assert_eq!(errors, vec![ProtocolViolation::MissingStopReason]);
    assert_eq!(out.len(), 3);
}

#[test]
fn metadata_without_usage_is_unrecognized() {
    let (_, errors) = feed_all(vec![stop(StopReason::EndTurn), NativeEvent::Metadata { usage: None }]);
    assert_eq!(errors, vec![ProtocolViolation::UnrecognizedEvent("metadata without usage".to_string())]);
}

#[test]
fn unrecognized_native_event_fails() {
    let mut r = Reconstructor::new();
    assert_eq!(
        r.feed(NativeEvent::Unrecognized("Citation".to_string())).unwrap_err(),
        ProtocolViolation::UnrecognizedEvent("Citation".to_string())
    );
    assert!(r.has_failed());
    assert!(r.feed(text_delta(0, "x")).unwrap().is_empty());
}

#[test]
fn native_message_start_produces_nothing() {
    let mut r = Reconstructor::new();
    assert!(r.feed(NativeEvent::MessageStart).unwrap().is_empty());
    assert!(!r.has_failed());
}

#[test]
fn passthrough_ignores_open_and_finishes_cleanly() {
    assert!(matches!(passthrough_step(SseSignal::Open), StreamAction::Skip));
    assert!(matches!(passthrough_step(SseSignal::StreamEnded), StreamAction::Finish));
}

#[test]
fn passthrough_emits_canonical_events() {
    let data = r#"{"type":"content_block_delta","index":2,"delta":{"type":"text_delta","text":"lo"}}"#;
    match passthrough_step(SseSignal::Message(data.to_string())) {
        StreamAction::Emit(Event::ContentBlockDelta { index: 2, delta: ContentPart::TextDelta { text } }) => {
            assert_eq!(text, "lo")
        }
        other => panic!("unexpected {:?}", other),
    }
    let delta = r#"{"type":"message_delta","delta":{"stop_reason":"tool_use","stop_sequence":null},"usage":{"output_tokens":7}}"#;
    match passthrough_step(SseSignal::Message(delta.to_string())) {
        StreamAction::Emit(Event::MessageDelta { delta, usage }) => {
            assert_eq!(delta.stop_reason, StopReason::ToolUse);
            assert_eq!(usage, Usage { input_tokens: None, output_tokens: 7 });
        }
        other => panic!("unexpected {:?}", other),
    }
    assert!(matches!(
        passthrough_step(SseSignal::Message(r#"{"type":"ping"}"#.to_string())),
        StreamAction::Emit(Event::Ping)
    ));
    assert!(matches!(
        passthrough_step(SseSignal::Message(r#"{"type":"message_stop"}"#.to_string())),
        StreamAction::Emit(Event::MessageStop)
    ));
}

#[test]
fn passthrough_reads_start_and_error_events() {
    let start = r#"{"type":"message_start","message":{"type":"message","id":"msg_1","model":"m","role":"assistant","content":[],"stop_reason":null,"stop_sequence":null,"usage":{"input_tokens":9,"output_tokens":1}}}"#;
    match passthrough_step(SseSignal::Message(start.to_string())) {
        StreamAction::Emit(Event::MessageStart { message }) => {
            assert_eq!(message.kind, "message");
            assert_eq!(message.message_response.id, "msg_1");
            assert_eq!(message.message_response.usage, Usage { input_tokens: Some(9), output_tokens: 1 });
        }
        other => panic!("unexpected {:?}", other),
    }
    let err = r#"{"type":"error","error":{"type":"overloaded_error","message":"Overloaded"}}"#;
    match passthrough_step(SseSignal::Message(err.to_string())) {
        StreamAction::Emit(Event::Error(details)) => {
            assert_eq!(details.kind, "overloaded_error");
            assert_eq!(details.message, "Overloaded");
        }
        other => panic!("unexpected {:?}", other),
    }
}

#[test]
fn passthrough_fails_on_bad_frames_and_transport_errors() {
    match passthrough_step(SseSignal::Message("not json".to_string())) {
        StreamAction::Fail(ClientError::Decode(d)) => assert_eq!(d, "not json"),
        other => panic!("unexpected {:?}", other),
    }
    match passthrough_step(SseSignal::Message(r#"{"type":"mystery"}"#.to_string())) {
        StreamAction::Fail(ClientError::Decode(d)) => assert_eq!(d, r#"{"type":"mystery"}"#),
        other => panic!("unexpected {:?}", other),
    }
    match passthrough_step(SseSignal::Failed("connection reset".to_string())) {
        StreamAction::Fail(ClientError::Transport(t)) => assert_eq!(t, "connection reset"),
        other => panic!("unexpected {:?}", other),
    }
}

#[test]
fn protocol_violations_describe_themselves() {
    assert_eq!(ProtocolViolation::DuplicatedTerminalSignal.describe(), "duplicated terminal signal");
    assert_eq!(ProtocolViolation::MissingStopReason.describe(), "missing stop reason");
    assert_eq!(
        ClientError::Protocol(ProtocolViolation::UnrecognizedEvent("Citation".to_string())).describe(),
        "protocol violation: unrecognized native event: Citation"
    );
}

#[test]
fn whole_stream_reconstruction_matches_step_by_step() {
    let native = vec![
        NativeEvent::MessageStart,
        text_delta(0, "Hi"),
        NativeEvent::ContentBlockStop { index: 0 },
        stop(StopReason::EndTurn),
        metadata(5, 2),
        stop(StopReason::EndTurn),
        stop(StopReason::EndTurn),
        text_delta(1, "never"),
    ];
    let (out, errors) = reconstruct_all(&"req-1".to_string(), &"m".to_string(), native);
    assert_eq!(errors, vec![ProtocolViolation::DuplicatedTerminalSignal]);
    assert_eq!(out.len(), 6);
    assert!(matches!(out[0], Event::MessageStart { .. }));
    assert!(matches!(out[4], Event::MessageDelta { .. }));
    assert!(matches!(out[5], Event::MessageStop));
}

#[test]
fn passthrough_relays_a_whole_stream_unchanged() {
    let frames = [
        r#"{"type":"message_start","message":{"type":"message","id":"1","model":"m","role":"assistant","content":[],"usage":{"output_tokens":0}}}"#,
        r#"{"type":"content_block_start","index":0,"content_block":{"type":"text","text":""}}"#,
        r#"{"type":"content_block_delta","index":0,"delta":{"type":"text_delta","text":"Hi"}}"#,
        r#"{"type":"content_block_stop","index":0}"#,
        r#"{"type":"message_delta","delta":{"stop_reason":"end_turn"},"usage":{"output_tokens":2}}"#,
        r#"{"type":"message_stop"}"#,
    ];
    let mut signals = vec![SseSignal::Open];
    signals.extend(frames.iter().map(|f| SseSignal::Message(f.to_string())));
    signals.push(SseSignal::StreamEnded);
    signals.push(SseSignal::Message("ignored after the end".to_string()));
    let (out, err) = passthrough_all(signals);
    assert!(err.is_none());
    assert_eq!(out.len(), 6);
    assert!(matches!(out[0], Event::MessageStart { .. }));
    assert!(matches!(out[2], Event::ContentBlockDelta { index: 0, .. }));
    assert!(matches!(out[4], Event::MessageDelta { .. }));
    assert!(matches!(out[5], Event::MessageStop));
}

#[test]
fn passthrough_stops_at_the_first_bad_frame() {
    let signals = vec![
        SseSignal::Message(r#"{"type":"ping"}"#.to_string()),
        SseSignal::Message("{".to_string()),
        SseSignal::Message(r#"{"type":"ping"}"#.to_string()),
    ];
    let (out, err) = passthrough_all(signals);
    assert_eq!(out.len(), 1);
    assert!(matches!(err, Some(ClientError::Decode(ref d)) if d == "{"));
}

#[test]
fn an_earlier_failure_stays_the_only_one() {
    let (out, errors) = feed_all(vec![
        NativeEvent::Unrecognized("Citation".to_string()),
        stop(StopReason::EndTurn),
        stop(StopReason::EndTurn),
        metadata(1, 1),
    ]);
    assert_eq!(errors, vec![ProtocolViolation::UnrecognizedEvent("Citation".to_string())]);
    assert_eq!(out.len(), 1);
}
