use codex_dialects::api::{HttpHeader, Provider, ResponseEvent, RetryConfig};
use codex_dialects::claude_code::stream::{
    decode_stream, map_stop_reason, map_usage, parse_sse, DecodeError, IncrementalDecoder,
};
use codex_dialects::claude_code::policy::{assemble_request, AssembleRequest};
use codex_dialects::claude_code::transport::{
    request_id, request_path, ClaudeHttpAdapter, NativeStreamError, StreamDriver, StreamInput, StreamItem,
};
use codex_dialects::claude_code::types::{
    CacheCreationUsage, DecodedBlock, DecodedStream, PresentationDelta, Usage,
};
use codex_dialects::json::{parse_json, Json};
use codex_dialects::protocol::{
    AnthropicThinkingPolicy, ContentItem, InferenceDialect, ModelInferenceConfig, ReasoningEffort,
    ReasoningItemContent, ResponseItem, TerminalOutcome, TokenUsage, WireApi,
};

fn title() -> String {
    let name = "claude_code".split('_').next().unwrap_or_default();
    name[..1].to_uppercase() + &name[1..]
}

fn event(name: &str, data: &str) -> String {
    format!("event: {name}\ndata: {data}\n\n")
}

fn start(usage: &str) -> String {
    event(
        "message_start",
        &format!(
            r#"{{"type":"message_start","message":{{"id":"msg-1","type":"message","role":"assistant","model":"native-test","content":[],"stop_reason":null,"stop_sequence":null,"usage":{usage}}}}}"#
        ),
    )
}

fn block_start(index: usize, block: &str) -> String {
    event(
        "content_block_start",
        &format!(r#"{{"type":"content_block_start","index":{index},"content_block":{block}}}"#),
    )
}

fn delta(index: usize, delta: &str) -> String {
    event(
        "content_block_delta",
        &format!(r#"{{"type":"content_block_delta","index":{index},"delta":{delta}}}"#),
    )
}

fn block_stop(index: usize) -> String {
    event("content_block_stop", &format!(r#"{{"type":"content_block_stop","index":{index}}}"#))
}

fn finish(reason: &str, usage: &str) -> String {
    event(
        "message_delta",
        &format!(r#"{{"type":"message_delta","delta":{{"stop_reason":{reason}}},"usage":{usage}}}"#),
    ) + &event("message_stop", r#"{"type":"message_stop"}"#)
}

fn minimal(reason: &str, usage: &str) -> String {
    start(r#"{"input_tokens":10,"output_tokens":0}"#) + &finish(reason, usage)
}

fn decode(body: &[u8]) -> Result<DecodedStream, DecodeError> {
    let mut presentation = Vec::new();
    decode_stream(body, &mut presentation)
}

fn expected_usage(write: Option<u64>, read: Option<u64>, thinking: Option<u64>) -> (Usage, TokenUsage) {
    let input = 10 + write.unwrap_or(0) as i64 + read.unwrap_or(0) as i64;
    (
        Usage {
            input_tokens: 10,
            output_tokens: 4,
            cache_creation_input_tokens: write,
            cache_read_input_tokens: read,
            thinking_tokens: thinking,
            cache_creation: None,
        },
        TokenUsage {
            input_tokens: input,
            cached_input_tokens: read.unwrap_or(0) as i64,
            cache_write_input_tokens: write.unwrap_or(0) as i64,
            output_tokens: 4,
            reasoning_output_tokens: thinking.unwrap_or(0) as i64,
            total_tokens: input + 4,
        },
    )
}

fn json(text: &str) -> Json {
    parse_json(text).expect("JSON fixture")
}

fn interleaved() -> String {
    [
        event("ping", r#"{"type":"ping"}"#),
        start(
            r#"{"input_tokens":100,"output_tokens":0,"cache_creation_input_tokens":20,"cache_read_input_tokens":30,"thinking_tokens":null,"cache_creation":{"ephemeral_5m_input_tokens":7,"ephemeral_1h_input_tokens":13}}"#,
        ),
        block_start(0, r#"{"type":"thinking","thinking":""}"#),
        block_start(1, r#"{"type":"redacted_thinking","data":"opaque"}"#),
        block_start(2, r#"{"type":"text","text":""}"#),
        block_start(3, r#"{"type":"tool_use","id":"call-a","name":"alpha","input":{}}"#),
        block_start(4, r#"{"type":"tool_use","id":"call-b","name":"beta","input":{}}"#),
        delta(3, r#"{"type":"input_json_delta","partial_json":"{\"x\":"}"#),
        delta(0, r#"{"type":"thinking_delta","thinking":"consider "}"#),
        delta(4, r#"{"type":"input_json_delta","partial_json":"{\"y\":"}"#),
        delta(2, r#"{"type":"text_delta","text":"hello "}"#),
        delta(3, r#"{"type":"input_json_delta","partial_json":"1}"}"#),
        delta(0, r#"{"type":"thinking_delta","thinking":"carefully"}"#),
        delta(0, r#"{"type":"signature_delta","signature":"sig"}"#),
        delta(4, r#"{"type":"input_json_delta","partial_json":"2}"}"#),
        delta(2, r#"{"type":"text_delta","text":"world"}"#),
        block_stop(0),
        block_stop(1),
        block_stop(2),
        block_stop(3),
        block_stop(4),
        finish("\"tool_use\"", r#"{"output_tokens":40,"thinking_tokens":11}"#),
    ]
    .concat()
}

fn interleaved_shown() -> Vec<PresentationDelta> {
    vec![
        PresentationDelta::ToolInput { index: 3, delta: "{\"x\":".into() },
        PresentationDelta::Thinking { index: 0, delta: "consider ".into() },
        PresentationDelta::ToolInput { index: 4, delta: "{\"y\":".into() },
        PresentationDelta::Text { index: 2, delta: "hello ".into() },
        PresentationDelta::ToolInput { index: 3, delta: "1}".into() },
        PresentationDelta::Thinking { index: 0, delta: "carefully".into() },
        PresentationDelta::ToolInput { index: 4, delta: "2}".into() },
        PresentationDelta::Text { index: 2, delta: "world".into() },
    ]
}

#[test]
fn reconstructs_ordered_interleaved_blocks_and_usage() {
    let mut presentation = Vec::new();
    let decoded = decode_stream(interleaved().as_bytes(), &mut presentation).expect("interleaved stream");
    assert_eq!(
        decoded,
        DecodedStream {
            message_id: "msg-1".into(),
            model: "native-test".into(),
            blocks: vec![
                DecodedBlock::Thinking { thinking: "consider carefully".into(), signature: "sig".into() },
                DecodedBlock::RedactedThinking { data: "opaque".into() },
                DecodedBlock::Text { text: "hello world".into() },
                DecodedBlock::ToolUse { id: "call-a".into(), name: "alpha".into(), input: json(r#"{"x":1}"#) },
                DecodedBlock::ToolUse { id: "call-b".into(), name: "beta".into(), input: json(r#"{"y":2}"#) },
            ],
            terminal_outcome: TerminalOutcome::ToolsReady,
            usage: Usage {
                input_tokens: 100,
                output_tokens: 40,
                cache_creation_input_tokens: Some(20),
                cache_read_input_tokens: Some(30),
                thinking_tokens: Some(11),
                cache_creation: Some(CacheCreationUsage {
                    ephemeral_5m_input_tokens: 7,
                    ephemeral_1h_input_tokens: 13,
                }),
            },
            token_usage: TokenUsage {
                input_tokens: 150,
                cached_input_tokens: 30,
                cache_write_input_tokens: 20,
                output_tokens: 40,
                reasoning_output_tokens: 11,
                total_tokens: 190,
            },
        }
    );
    assert_eq!(presentation, interleaved_shown());
}

#[test]
fn cuts_inside_frames_do_not_matter() {
    let body = interleaved();
    let whole = decode(body.as_bytes());
    for size in [1, 2, 3, 7, 64, 4096] {
        let mut decoder = IncrementalDecoder::new();
        for piece in body.as_bytes().chunks(size) {
            assert_eq!(decoder.feed(piece), Ok(()));
        }
        assert!(decoder.is_complete());
        let mut shown = decoder.take_presentation();
        assert_eq!(decoder.finish(&mut shown), whole);
        assert_eq!(shown, interleaved_shown());
    }
}

#[test]
fn maps_every_supported_stop_reason_exhaustively() {
    let cases = [
        ("end_turn", TerminalOutcome::Completed),
        ("stop_sequence", TerminalOutcome::Completed),
        ("tool_use", TerminalOutcome::ToolsReady),
        ("pause_turn", TerminalOutcome::Continue),
        ("max_tokens", TerminalOutcome::OutputExhausted),
        ("refusal", TerminalOutcome::Refusal),
        ("safety", TerminalOutcome::Refusal),
    ];
    for (reason, expected) in cases {
        let decoded = decode(minimal(&format!("\"{reason}\""), r#"{"output_tokens":2}"#).as_bytes())
            .expect("supported stop reason");
        assert_eq!(decoded.terminal_outcome, expected, "stop reason {reason}");
        assert_eq!(map_stop_reason(reason), Ok(expected));
    }
    assert_eq!(
        decode(minimal("\"future_reason\"", r#"{"output_tokens":2}"#).as_bytes()),
        Err(DecodeError::UnknownStopReason("future_reason".into()))
    );
}

#[test]
fn usage_preserves_optional_native_counters_without_double_counting() {
    let cases = [
        (r#"{"input_tokens":10,"output_tokens":0}"#, r#"{"output_tokens":4}"#, (None, None, None)),
        (
            r#"{"input_tokens":10,"output_tokens":0,"cache_creation_input_tokens":null,"cache_read_input_tokens":null}"#,
            r#"{"output_tokens":4,"thinking_tokens":null}"#,
            (None, None, None),
        ),
        (
            r#"{"input_tokens":10,"output_tokens":0,"cache_creation_input_tokens":0,"cache_read_input_tokens":0}"#,
            r#"{"output_tokens":4,"thinking_tokens":0}"#,
            (Some(0), Some(0), Some(0)),
        ),
        (
            r#"{"input_tokens":10,"output_tokens":0,"cache_creation_input_tokens":3,"cache_read_input_tokens":2}"#,
            r#"{"output_tokens":4,"thinking_tokens":1}"#,
            (Some(3), Some(2), Some(1)),
        ),
    ];
    for (start_usage, delta_usage, expected) in cases {
        let fixture = start(start_usage) + &finish("\"end_turn\"", delta_usage);
        let decoded = decode(fixture.as_bytes()).expect("usage");
        assert_eq!(
            (decoded.usage, decoded.token_usage),
            expected_usage(expected.0, expected.1, expected.2)
        );
    }
}

#[test]
fn sums_of_usage_wrap() {
    let usage = Usage {
        input_tokens: i64::MAX as u64,
        output_tokens: 1,
        cache_creation_input_tokens: Some(1),
        cache_read_input_tokens: None,
        thinking_tokens: None,
        cache_creation: None,
    };
    assert_eq!(map_usage(&usage).input_tokens, i64::MIN);
}

#[test]
fn every_incomplete_or_malformed_terminal_path_is_typed_failure() {
    let usage = r#"{"input_tokens":1,"output_tokens":0}"#;
    let invalid_transition = start(usage) + &block_stop(0);
    let invalid_json = [
        start(usage),
        block_start(0, r#"{"type":"tool_use","id":"c","name":"f","input":{}}"#),
        delta(0, r#"{"type":"input_json_delta","partial_json":"{"}"#),
        block_stop(0),
        finish("\"tool_use\"", r#"{"output_tokens":1}"#),
    ]
    .concat();
    let cases = [
        (String::new(), DecodeError::EmptyStream),
        (
            event("message_start", r#"{"type":"message_start"}"#),
            DecodeError::MalformedEvent {
                event: "message_start".into(),
                message: "missing field `message`".into(),
            },
        ),
        (
            event("error", r#"{"type":"error","error":{"type":"overloaded_error","message":"busy"}}"#),
            DecodeError::ProviderError { error_type: "overloaded_error".into(), message: "busy".into() },
        ),
        (
            invalid_transition,
            DecodeError::InvalidTransition {
                event: "content_block_stop".into(),
                reason: "stop referenced an unknown block".into(),
            },
        ),
        (invalid_json, DecodeError::InvalidToolJson { index: 0, input: "{".into() }),
        (minimal("null", r#"{"output_tokens":1}"#), DecodeError::MissingStopReason),
        (
            start(usage),
            DecodeError::PrematureEof { expected: "recognized non-null stop reason".into() },
        ),
    ];
    for (fixture, expected) in cases {
        assert_eq!(decode(fixture.as_bytes()), Err(expected));
    }
}

#[test]
fn other_failures_of_a_native_stream_are_typed() {
    assert_eq!(decode(b"event: ping\ndata: \xff\n\n"), Err(DecodeError::InvalidUtf8));
    assert!(matches!(decode(b"nonsense\n\n"), Err(DecodeError::MalformedSse(_))));
    assert_eq!(
        decode(event("future_event", r#"{"type":"future_event"}"#).as_bytes()),
        Err(DecodeError::UnknownEvent("future_event".into()))
    );
    let usage = r#"{"input_tokens":1,"output_tokens":0}"#;
    let twice = start(usage) + &start(usage);
    assert_eq!(
        decode(twice.as_bytes()),
        Err(DecodeError::InvalidTransition {
            event: "message_start".into(),
            reason: "duplicate message_start".into(),
        })
    );
    assert_eq!(
        DecodeError::EmptyStream.message(),
        format!("native {} stream was empty", title())
    );
}

#[test]
fn presentation_deltas_survive_failure_without_a_pending_result() {
    let fixture = [
        start(r#"{"input_tokens":1,"output_tokens":0}"#),
        block_start(0, r#"{"type":"thinking","thinking":""}"#),
        delta(0, r#"{"type":"thinking_delta","thinking":"partial"}"#),
        event("error", r#"{"type":"error","error":{"type":"api_error","message":"failed"}}"#),
    ]
    .concat();
    let mut presentation = Vec::new();
    let result = decode_stream(fixture.as_bytes(), &mut presentation);
    assert_eq!(
        result,
        Err(DecodeError::ProviderError { error_type: "api_error".into(), message: "failed".into() })
    );
    assert_eq!(presentation, vec![PresentationDelta::Thinking { index: 0, delta: "partial".into() }]);
}

#[test]
fn frames_are_read_line_by_line() {
    let events = parse_sse("event: a\ndata: one\ndata: two\n\n\r\nevent: b\ndata: x\n\n").expect("frames");
    assert_eq!(events.len(), 2);
    assert_eq!((events[0].event.as_str(), events[0].data.as_str()), ("a", "one\ntwo"));
    assert_eq!((events[1].event.as_str(), events[1].data.as_str()), ("b", "x"));
    let refused = |body: &str, message: &str| {
        assert_eq!(parse_sse(body), Err(DecodeError::MalformedSse(message.to_string())));
    };
    refused("data: x\n\n", "frame had data but no event");
    refused("event: a\n\n", "a frame had no data");
    refused("nonsense\n\n", "invalid line \"nonsense\"");
    refused("event: a\nevent: b\n", "frame had duplicate event fields");
    refused(": comment\n", "unsupported SSE field ");
}

fn fixture(reason: &str) -> String {
    [
        start(r#"{"input_tokens":3,"output_tokens":0}"#),
        block_start(0, r#"{"type":"text","text":""}"#),
        delta(0, r#"{"type":"text_delta","text":"ok"}"#),
        block_stop(0),
        finish(&format!("\"{reason}\""), r#"{"output_tokens":2}"#),
    ]
    .concat()
}

fn run(body: &str, size: usize) -> Vec<StreamItem> {
    let mut items = Vec::new();
    let mut driver = Some(StreamDriver::new());
    for piece in body.as_bytes().chunks(size) {
        if let Some(current) = driver {
            let step = current.step(StreamInput::Bytes(piece.to_vec()));
            items.extend(step.items);
            driver = step.next;
        }
    }
    if let Some(current) = driver {
        items.extend(current.step(StreamInput::Ended).items);
    }
    items
}

#[test]
fn terminal_streams_commit_only_success_and_continue_outcomes() {
    for (reason, end_turn) in [("end_turn", true), ("pause_turn", false)] {
        let items = run(&fixture(reason), 5);
        assert!(matches!(
            items.last(),
            Some(StreamItem::Event(ResponseEvent::Completed { end_turn: Some(actual), .. })) if *actual == end_turn
        ));
        assert!(items
            .iter()
            .any(|item| matches!(item, StreamItem::Event(ResponseEvent::OutputItemDone(ResponseItem::Message { .. })))));
    }
    for (reason, outcome) in [("max_tokens", TerminalOutcome::OutputExhausted), ("refusal", TerminalOutcome::Refusal)] {
        let items = run(&fixture(reason), 5);
        assert!(matches!(
            items.last(),
            Some(StreamItem::Failure(NativeStreamError::UnsuccessfulTerminal(actual))) if *actual == outcome
        ));
        assert!(!items.iter().any(|item| matches!(item, StreamItem::Event(ResponseEvent::OutputItemDone(_)))));
    }
}

#[test]
fn cancellation_and_idle_are_distinct_typed_failures() {
    let cancelled = StreamDriver::new().step(StreamInput::Cancelled);
    assert_eq!(cancelled.items, vec![StreamItem::Failure(NativeStreamError::Cancelled)]);
    assert!(cancelled.next.is_none());
    let idle = StreamDriver::new().step(StreamInput::Idle);
    assert_eq!(idle.items, vec![StreamItem::Failure(NativeStreamError::IdleTimeout)]);
    assert!(idle.next.is_none());
    let broken = StreamDriver::new().step(StreamInput::Failed("network error: gone".into()));
    assert_eq!(
        broken.items,
        vec![StreamItem::Failure(NativeStreamError::Transport("network error: gone".into()))]
    );
}

#[test]
fn items_are_announced_once_and_committed_at_the_end() {
    let items = run(&interleaved(), 11);
    let id = |prefix: &str, index: usize| {
        format!("{prefix}_{}_{index}", "claude_code".split('_').next().unwrap_or_default())
    };
    let announced = items
        .iter()
        .filter(|item| matches!(item, StreamItem::Event(ResponseEvent::OutputItemAdded(_))))
        .count();
    assert_eq!(announced, 4);
    assert_eq!(
        items[0],
        StreamItem::Event(ResponseEvent::OutputItemAdded(ResponseItem::FunctionCall {
            id: Some(id("fc", 3)),
            name: "alpha".into(),
            namespace: None,
            arguments: String::new(),
            call_id: "call-a".into(),
        }))
    );
    assert_eq!(
        items[1],
        StreamItem::Event(ResponseEvent::ToolCallInputDelta {
            item_id: id("fc", 3),
            call_id: Some("call-a".into()),
            delta: "{\"x\":".into(),
        })
    );
    let done = items
        .iter()
        .filter_map(|item| match item {
            StreamItem::Event(ResponseEvent::OutputItemDone(item)) => Some(item.clone()),
            _ => None,
        })
        .collect::<Vec<_>>();
    assert_eq!(done.len(), 5);
    let ResponseItem::Reasoning { content, encrypted_content, .. } = &done[0] else {
        panic!("reasoning");
    };
    assert_eq!(
        content,
        &Some(vec![ReasoningItemContent::ReasoningText { text: "consider carefully".into() }])
    );
    assert!(encrypted_content.as_ref().is_some_and(|text| text.starts_with("codex:anthropic-thinking:{")));
    assert_eq!(
        done[2],
        ResponseItem::Message {
            id: Some(id("msg", 2)),
            role: "assistant".into(),
            content: vec![ContentItem::OutputText { text: "hello world".into() }],
        }
    );
    assert!(matches!(&done[4], ResponseItem::FunctionCall { arguments, .. } if arguments == "{\"y\":2}"));
}

#[test]
fn adapters_keep_what_they_are_made_of() {
    let provider = Provider {
        name: "native".into(),
        base_url: "http://127.0.0.1:8080/v1".into(),
        query_params: None,
        headers: Vec::new(),
        retry: RetryConfig {
            max_attempts: 1,
            base_delay_millis: 1,
            retry_429: false,
            retry_5xx: false,
            retry_transport: false,
        },
        stream_idle_timeout_millis: 1000,
    };
    let adapter = ClaudeHttpAdapter::<u8, u16, u32>::new(1, provider, 2).with_telemetry(Some(3));
    assert_eq!((adapter.transport, adapter.auth, adapter.telemetry), (1, 2, Some(3)));
    assert_eq!(adapter.provider.name, "native");

    let headers = vec![
        HttpHeader { name: "x-other".into(), value: Some("no".into()) },
        HttpHeader { name: "x-request-id".into(), value: Some("request-47".into()) },
        HttpHeader { name: "x-request-id".into(), value: Some("later".into()) },
    ];
    assert_eq!(request_id(&headers).as_deref(), Some("request-47"));
    assert_eq!(request_id(&Vec::new()), None);
}

#[test]
fn what_is_shown_is_what_is_decoded() {
    let mut presentation = Vec::new();
    let decoded = decode_stream(interleaved().as_bytes(), &mut presentation).expect("interleaved stream");
    for (place, block) in decoded.blocks.iter().enumerate() {
        let shown = presentation
            .iter()
            .map(|delta| match delta {
                PresentationDelta::Text { index, delta }
                | PresentationDelta::Thinking { index, delta }
                | PresentationDelta::ToolInput { index, delta } => {
                    if *index == place { delta.as_str() } else { "" }
                }
            })
            .collect::<String>();
        match block {
            DecodedBlock::Text { text } => assert_eq!(*text, shown),
            DecodedBlock::Thinking { thinking, .. } => assert_eq!(*thinking, shown),
            DecodedBlock::ToolUse { input, .. } => assert_eq!(*input, json(&shown)),
            DecodedBlock::RedactedThinking { .. } => assert_eq!(shown, ""),
        }
    }
}

#[test]
fn exact_request_and_successful_stream_use_generic_transport_contracts() {
    let family = "claude_code".split('_').next().unwrap_or_default();
    let profile = ModelInferenceConfig::Anthropic {
        wire_api: WireApi::AnthropicMessages,
        dialect: InferenceDialect::ClaudeCode,
        route: "claude_code".to_string(),
        wire_model: format!("{family}-haiku-4-5-20251001"),
        max_output_tokens: 32_000,
        thinking: AnthropicThinkingPolicy::Budgeted { budget_tokens: 31_999 },
        supports_disabled_thinking: true,
    };
    let expected = assemble_request(AssembleRequest {
        profile: &profile,
        effort: &ReasoningEffort::High,
        messages: &[],
        system: &[],
        tools: &[],
        resumable_session_id: "019fbf00-0000-7000-8000-000000000047",
        codex_version: "0.153.4",
        opus_compatibility: None,
        sonnet_compatibility: None,
    })
    .expect("request assembles");
    assert_eq!(request_path(&expected), "/v1/messages?beta=true");
    assert_eq!(expected.transport.method, "POST");
    assert_eq!(
        expected.body.body(),
        format!(
            r#"{{"model":"{family}-haiku-4-5-20251001","max_tokens":32000,"stream":true,"messages":[],"thinking":{{"type":"enabled","budget_tokens":31999,"display":"omitted"}},"context_management":{{"edits":[{{"type":"clear_thinking_20251015","keep":"all"}}]}}}}"#
        )
    );
    let items = run(&fixture("end_turn"), 4096);
    assert_eq!(
        items.last(),
        Some(&StreamItem::Event(ResponseEvent::Completed {
            response_id: "msg-1".into(),
            token_usage: Some(TokenUsage {
                input_tokens: 3,
                cached_input_tokens: 0,
                cache_write_input_tokens: 0,
                output_tokens: 2,
                reasoning_output_tokens: 0,
                total_tokens: 5,
            }),
            usage_metadata: None,
            end_turn: Some(true),
        }))
    );
}

fn feed_in_pieces(body: &str, size: usize) -> (Result<DecodedStream, DecodeError>, Vec<PresentationDelta>) {
    let mut decoder = IncrementalDecoder::new();
    let mut shown = Vec::new();
    for piece in body.as_bytes().chunks(size) {
        if let Err(error) = decoder.feed(piece) {
            let _ = decoder.finish(&mut shown);
            return (Err(error), shown);
        }
    }
    let decoded = decoder.finish(&mut shown);
    (decoded, shown)
}

#[test]
fn frames_decode_in_pieces_as_they_do_as_a_whole() {
    let cut = start(r#"{"input_tokens":1,"output_tokens":0}"#)
        + &block_start(0, r#"{"type":"text","text":""}"#)
        + &delta(0, r#"{"type":"text_delta","text":"é"}"#);
    for body in [interleaved(), cut.clone(), cut + &event("other", "{}"), String::new()] {
        let mut whole = Vec::new();
        let decoded = decode_stream(body.as_bytes(), &mut whole);
        for size in [1, 2, 3, 7, 64, 100_000] {
            let (pieces, shown) = feed_in_pieces(&body, size);
            assert_eq!(pieces, decoded);
            if decoded.is_ok() {
                assert_eq!(shown, whole);
            }
            for end in ["\r", "\r\n"] {
                let ended = body.replace('\n', end);
                assert_eq!(decode(ended.as_bytes()), decoded);
                assert_eq!(feed_in_pieces(&ended, size), (pieces.clone(), shown.clone()));
            }
        }
    }
}

#[test]
fn events_may_give_their_fields_by_position() {
    let named = start(r#"{"input_tokens":1,"output_tokens":0}"#)
        + &block_start(0, r#"{"type":"text","text":""}"#)
        + &delta(0, r#"{"type":"text_delta","text":"hi"}"#)
        + &block_stop(0)
        + &finish("\"end_turn\"", r#"{"output_tokens":2}"#);
    let placed = [
        event("ping", r#"["ping"]"#),
        event(
            "message_start",
            r#"["message_start",["msg-1","message","assistant","native-test",[],null,null,[1,0]]]"#,
        ),
        event("content_block_start", r#"["content_block_start",0,["text",""]]"#),
        event("content_block_delta", r#"["content_block_delta",0,{"type":0,"text":"hi"}]"#),
        event("content_block_stop", r#"["content_block_stop",0]"#),
        event("message_delta", r#"["message_delta",["end_turn"],[2]]"#),
        event("message_stop", r#"["message_stop"]"#),
    ]
    .concat();
    assert!(decode(named.as_bytes()).is_ok());
    assert_eq!(decode(placed.as_bytes()), decode(named.as_bytes()));
    let refused = |name: &str, data: &str, message: &str| {
        assert_eq!(
            decode(event(name, data).as_bytes()),
            Err(DecodeError::MalformedEvent { event: name.into(), message: message.into() })
        );
    };
    refused("ping", r#"["ping",1]"#, "invalid length 1, expected 0 elements in sequence");
    refused(
        "content_block_stop",
        r#"["content_block_stop"]"#,
        "invalid length 0, expected struct variant WireEvent::ContentBlockStop with 1 element",
    );
    refused(
        "content_block_stop",
        r#"["content_block_stop",1,2]"#,
        "invalid length 2, expected 1 element in sequence",
    );
    refused(
        "content_block_delta",
        r#"["content_block_delta",0,[9,"hi"]]"#,
        "invalid value: integer `9`, expected variant index 0 <= i < 4",
    );
    refused(
        "error",
        r#"["error",["overloaded_error"]]"#,
        "invalid length 1, expected struct ProviderError with 2 elements",
    );
    assert_eq!(
        decode(event("error", r#"["error",["overloaded_error","busy"]]"#).as_bytes()),
        Err(DecodeError::ProviderError { error_type: "overloaded_error".into(), message: "busy".into() })
    );
}
