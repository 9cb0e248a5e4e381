use std::sync::Mutex;

use codex_dialects::chat_completions::dialect::{
    AssistantReasoningReplay, DialectContext, DialectError, DialectHooks, PlainDialect, ReasoningDelta,
    UsageMergePolicy,
};
use codex_dialects::chat_completions::stream::{decode_stream, DecodeError, DecodeStream, IncrementalDecoder};
use codex_dialects::chat_completions::types::{
    ChatCompletionChunk, ChunkUsage, DecodedStream, FinishReason, PendingResult, PresentationDelta, ResponseMetadata, ToolCall,
    ToolCallFunction, ToolCallKind, UsageDetails,
};
use codex_dialects::fields::StringMap;
use codex_dialects::json::{parse_json, Json, JsonNumber};
use codex_dialects::protocol::{InferenceDialect, TerminalOutcome};

struct TestDialect {
    seen: Mutex<Vec<(InferenceDialect, String, &'static str)>>,
    policy: UsageMergePolicy,
}

impl TestDialect {
    fn new() -> Self {
        TestDialect { seen: Mutex::new(Vec::new()), policy: UsageMergePolicy::RequireIdentical }
    }

    fn record(&self, context: DialectContext<'_>, hook: &'static str) {
        self.seen.lock().expect("test dialect mutex").push((context.dialect, context.model.to_string(), hook));
    }
}

impl DialectHooks for TestDialect {
    fn request_extensions(&self, _context: DialectContext<'_>) -> Result<StringMap<Json>, DialectError> {
        unreachable!()
    }

    fn assistant_reasoning(
        &self,
        _context: DialectContext<'_>,
        _replay: AssistantReasoningReplay<'_>,
    ) -> Result<StringMap<Json>, DialectError> {
        unreachable!()
    }

    fn reasoning_delta(
        &self,
        context: DialectContext<'_>,
        extensions: &StringMap<Json>,
    ) -> Result<Option<ReasoningDelta>, DialectError> {
        self.record(context, "reasoning");
        Ok(match extensions.get("reasoning_content") {
            Some(Json::Text(text)) => {
                Some(ReasoningDelta { text: text.clone(), provenance: "reasoning_content".into() })
            }
            _ => None,
        })
    }

    fn finish_reason(
        &self,
        context: DialectContext<'_>,
        reason: FinishReason,
    ) -> Result<TerminalOutcome, DialectError> {
        self.record(context, "finish");
        Ok(match reason {
            FinishReason::Stop => TerminalOutcome::Completed,
            FinishReason::ToolCalls | FinishReason::FunctionCall => TerminalOutcome::ToolsReady,
            FinishReason::Length | FinishReason::MaxTokens => TerminalOutcome::OutputExhausted,
            FinishReason::ContentFilter => TerminalOutcome::Refusal,
        })
    }

    fn usage_details(&self, context: DialectContext<'_>, usage: &ChunkUsage) -> Result<UsageDetails, DialectError> {
        self.record(context, "usage");
        let reasoning_tokens = match usage.details.get("completion_tokens_details").and_then(|d| d.get("reasoning_tokens")) {
            Some(Json::Number(JsonNumber::Unsigned(count))) => *count,
            _ => 0,
        };
        Ok(UsageDetails { cached_prompt_tokens: 0, reasoning_tokens })
    }

    fn usage_merge_policy(&self, _context: DialectContext<'_>) -> Result<UsageMergePolicy, DialectError> {
        Ok(self.policy)
    }
}

fn frame(value: &str) -> String {
    format!("data: {value}\r\ndata:\r\n\r\n")
}

fn choice(delta: &str, finish_reason: &str, usage: Option<&str>) -> String {
    match usage {
        Some(usage) => format!(r#"{{"index":0,"delta":{delta},"finish_reason":{finish_reason},"usage":{usage}}}"#),
        None => format!(r#"{{"index":0,"delta":{delta},"finish_reason":{finish_reason}}}"#),
    }
}

fn chunk(choices: &[String], usage: Option<&str>) -> String {
    let choices = choices.join(",");
    match usage {
        Some(usage) => frame(&format!(r#"{{"id":"chat-1","choices":[{choices}],"usage":{usage}}}"#)),
        None => frame(&format!(r#"{{"id":"chat-1","choices":[{choices}]}}"#)),
    }
}

fn params(dialect: &TestDialect) -> DecodeStream<'_, TestDialect> {
    DecodeStream {
        context: DialectContext { dialect: InferenceDialect::Kimi, model: "deliberately-misleading-openai-slug" },
        dialect,
        metadata: ResponseMetadata { trace_id: Some("trace-7".into()) },
    }
}

fn pieces(body: &str, size: usize) -> Vec<Vec<u8>> {
    body.as_bytes().chunks(size).map(|piece| piece.to_vec()).collect()
}

fn decode(body: &str, dialect: &TestDialect) -> (Result<DecodedStream, DecodeError>, Vec<PresentationDelta>) {
    let mut presentation = Vec::new();
    let result = decode_stream(params(dialect), &pieces(body, 1), &mut presentation);
    (result, presentation)
}

fn details(text: &str) -> StringMap<Json> {
    let mut fields = StringMap::new();
    if let Ok(Json::Object(entries)) = parse_json(text) {
        for (name, value) in entries {
            fields.insert(name, value);
        }
    }
    fields
}

fn tool_call(id: &str, name: &str, arguments: &str) -> ToolCall {
    ToolCall {
        id: id.into(),
        kind: ToolCallKind::Function,
        function: ToolCallFunction { name: name.into(), arguments: arguments.into() },
    }
}

const TOOL: &str = r#"{"tool_calls":[{"index":0,"id":"c","type":"function","function":{"name":"f","arguments":"{}"}}]}"#;
const DONE: &str = "data: [DONE]\n\n";

#[test]
fn reconstructs_fragmented_interleaved_reasoning_content_parallel_tools_and_metadata() {
    let usage = r#"{"prompt_tokens":10,"completion_tokens":8,"total_tokens":18,"completion_tokens_details":{"reasoning_tokens":3}}"#;
    let body = [
        ": keepalive\r\n\r\n".to_string(),
        chunk(&[choice(r#"{"role":"assistant","reasoning_content":"th🧠ink "}"#, "null", None)], None),
        chunk(&[choice(r#"{"tool_calls":[{"index":4,"id":"call-b","type":"function","function":{"name":"beta","arguments":"{\"b\":"}}]}"#, "null", None)], None),
        chunk(&[choice(r#"{"content":"hello ","tool_calls":[{"index":2,"id":"call-a","type":"function","function":{"name":"alpha","arguments":"{\"a\":"}}]}"#, "null", None)], None),
        chunk(&[choice(r#"{"reasoning_content":"carefully","tool_calls":[{"index":4,"function":{"arguments":"2}"}},{"index":2,"function":{"arguments":"1}"}}]}"#, "\"tool_calls\"", Some(usage))], Some(usage)),
        DONE.to_string(),
    ]
    .concat();
    let dialect = TestDialect::new();
    let (decoded, presentation) = decode(&body, &dialect);
    assert_eq!(
        decoded,
        Ok(DecodedStream {
            response_id: "chat-1".into(),
            terminal_outcome: TerminalOutcome::ToolsReady,
            pending: Some(PendingResult {
                content: "hello ".into(),
                reasoning: "th🧠ink carefully".into(),
                reasoning_provenance: Some("reasoning_content".into()),
                tool_calls: vec![
                    tool_call("call-b", "beta", "{\"b\":2}"),
                    tool_call("call-a", "alpha", "{\"a\":1}"),
                ],
            }),
            usage: Some(ChunkUsage {
                prompt_tokens: 10,
                completion_tokens: 8,
                total_tokens: 18,
                details: details(r#"{"completion_tokens_details":{"reasoning_tokens":3}}"#),
            }),
            usage_details: UsageDetails { cached_prompt_tokens: 0, reasoning_tokens: 3 },
            metadata: ResponseMetadata { trace_id: Some("trace-7".into()) },
        })
    );
    assert_eq!(
        presentation,
        vec![
            PresentationDelta::Reasoning("th🧠ink ".into()),
            PresentationDelta::Tool { index: 4, id: "call-b".into(), name: "beta".into(), delta: "{\"b\":".into() },
            PresentationDelta::Content("hello ".into()),
            PresentationDelta::Tool { index: 2, id: "call-a".into(), name: "alpha".into(), delta: "{\"a\":".into() },
            PresentationDelta::Reasoning("carefully".into()),
            PresentationDelta::Tool { index: 4, id: "call-b".into(), name: "beta".into(), delta: "2}".into() },
            PresentationDelta::Tool { index: 2, id: "call-a".into(), name: "alpha".into(), delta: "1}".into() },
        ]
    );
    let seen = dialect.seen.lock().expect("test dialect mutex");
    assert!(seen.iter().all(|(dialect, model, _)| *dialect == InferenceDialect::Kimi
        && model == "deliberately-misleading-openai-slug"));
    assert_eq!(
        seen.iter().map(|entry| entry.2).collect::<Vec<_>>(),
        vec!["reasoning", "reasoning", "reasoning", "reasoning", "finish", "usage"]
    );
}

#[test]
fn presents_a_complete_frame_before_requesting_later_fragments() {
    let dialect = TestDialect::new();
    let mut decoder = IncrementalDecoder::new(params(&dialect));
    let first = chunk(&[choice(r#"{"content":"early"}"#, "null", None)], None);
    assert_eq!(decoder.feed(first.as_bytes()), Ok(()));
    assert_eq!(decoder.take_presentation(), vec![PresentationDelta::Content("early".into())]);
    assert!(!decoder.is_complete());
    let second = chunk(&[choice("{}", "\"stop\"", None)], None) + DONE;
    assert_eq!(decoder.feed(second.as_bytes()), Ok(()));
    assert!(decoder.is_complete());
    let mut rest = Vec::new();
    assert!(decoder.finish(&mut rest).is_ok());
    assert!(rest.is_empty());
}

#[test]
fn maps_finish_reasons_and_discards_noncommittable_output() {
    let cases = [
        ("stop", TerminalOutcome::Completed, true),
        ("tool_calls", TerminalOutcome::ToolsReady, true),
        ("function_call", TerminalOutcome::ToolsReady, true),
        ("length", TerminalOutcome::OutputExhausted, false),
        ("max_tokens", TerminalOutcome::OutputExhausted, false),
        ("content_filter", TerminalOutcome::Refusal, false),
    ];
    for (reason, outcome, pending) in cases {
        let delta = if outcome == TerminalOutcome::ToolsReady { TOOL } else { r#"{"content":"partial"}"# };
        let body = chunk(&[choice(delta, &format!("\"{reason}\""), None)], None) + DONE;
        let (decoded, _) = decode(&body, &TestDialect::new());
        let decoded = decoded.expect("decoded stream");
        assert_eq!((decoded.terminal_outcome, decoded.pending.is_some()), (outcome, pending), "{reason}");
    }
}

#[test]
fn rejects_every_strict_failure_without_returning_pending_tools() {
    let said = |reason: &str| chunk(&[choice(r#"{"content":"x"}"#, reason, None)], None);
    let incomplete = r#"{"tool_calls":[{"index":0,"id":"c","type":"function","function":{"arguments":"{}"}}]}"#;
    let no_object = r#"{"tool_calls":[{"index":0,"id":"c","function":{"name":"f","arguments":"[1]"}}]}"#;
    let cases = [
        (String::new(), DecodeError::EmptyStream),
        (
            "data: {\n\n".to_string(),
            DecodeError::MalformedChunk("EOF while parsing an object at line 1 column 1".into()),
        ),
        (
            chunk(&[r#"{"index":1,"delta":{},"finish_reason":"stop"}"#.to_string()], None),
            DecodeError::InvalidTransition("unsupported choice index 1".into()),
        ),
        (
            chunk(&[choice(no_object, "\"tool_calls\"", None)], None) + DONE,
            DecodeError::InvalidToolJson { index: 0, arguments: "[1]".into() },
        ),
        (
            chunk(&[choice(incomplete, "\"tool_calls\"", None)], None) + DONE,
            DecodeError::IncompleteTool { index: 0, field: "name".into() },
        ),
        (said("\"future\"") + DONE, DecodeError::UnknownFinishReason("future".into())),
        (said("null") + DONE, DecodeError::NullFinishReason),
        (frame(r#"{"id":"chat-1","choices":[]}"#) + DONE, DecodeError::MissingFinishReason),
        (said("\"stop\""), DecodeError::PrematureEof { expected: "[DONE]".into() }),
        (
            chunk(&[choice(TOOL, "\"tool_calls\"", None)], None)
                + &chunk(&[choice(TOOL, "\"tool_calls\"", None)], None)
                + DONE,
            DecodeError::DuplicateTerminal,
        ),
        (
            said("\"stop\"") + &chunk(&[choice("{}", "\"length\"", None)], None) + DONE,
            DecodeError::ConflictingTerminal,
        ),
    ];
    for (body, expected) in cases {
        assert_eq!(decode(&body, &TestDialect::new()).0, Err(expected));
    }
}

#[test]
fn rejects_conflicting_usage_instead_of_double_counting() {
    let top = r#"{"prompt_tokens":1,"completion_tokens":2,"total_tokens":3}"#;
    let other = r#"{"prompt_tokens":1,"completion_tokens":3,"total_tokens":4}"#;
    let body = chunk(&[choice(r#"{"content":"x"}"#, "\"stop\"", Some(other))], Some(top)) + DONE;
    assert_eq!(decode(&body, &TestDialect::new()).0, Err(DecodeError::ConflictingUsage));

    let latest = TestDialect { policy: UsageMergePolicy::PreferLatest, ..TestDialect::new() };
    let decoded = decode(&body, &latest).0.expect("latest usage");
    assert_eq!(decoded.usage.map(|usage| usage.total_tokens), Some(3));
}

#[test]
fn cuts_between_fragments_do_not_matter() {
    let body = ": hello\r\n".to_string()
        + &chunk(&[choice(r#"{"content":"ä🧠"}"#, "\"stop\"", None)], None)
        + DONE;
    let mut whole = Vec::new();
    let dialect = TestDialect::new();
    let once = decode_stream(params(&dialect), &pieces(&body, body.len()), &mut whole);
    assert!(once.is_ok());
    for size in 1..20 {
        let mut shown = Vec::new();
        assert_eq!(decode_stream(params(&dialect), &pieces(&body, size), &mut shown), once);
        assert_eq!(shown, whole);
    }
}

#[test]
fn white_space_at_the_start_keeps_its_error_back() {
    let dialect = TestDialect::new();
    let mut decoder = IncrementalDecoder::new(params(&dialect));
    assert_eq!(decoder.feed(b" \n"), Ok(()));
    let mut shown = Vec::new();
    assert_eq!(decoder.finish(&mut shown), Err(DecodeError::EmptyStream));

    let mut decoder = IncrementalDecoder::new(params(&dialect));
    assert_eq!(decoder.feed(b" \n"), Ok(()));
    assert_eq!(
        decoder.feed(DONE.as_bytes()),
        Err(DecodeError::MalformedFraming("unsupported stream line \" \"".into()))
    );
}

#[test]
fn other_failures_of_a_stream_are_typed() {
    let cases: Vec<(Vec<u8>, DecodeError)> = vec![
        (b"data: \xff\n\n".to_vec(), DecodeError::InvalidUtf8),
        (
            b"event: ping\n".to_vec(),
            DecodeError::MalformedFraming("unsupported stream line \"event: ping\"".into()),
        ),
        (
            b": nothing\n\n".to_vec(),
            DecodeError::PrematureEof { expected: "a recognized chunk".into() },
        ),
        (
            (DONE.to_string() + DONE).into_bytes(),
            DecodeError::InvalidTransition("data followed [DONE]".into()),
        ),
        (
            frame(r#"{"id":"chat-1"}"#).into_bytes(),
            DecodeError::MalformedChunk("missing field `choices`".into()),
        ),
        (
            (frame(r#"{"id":"a","choices":[]}"#) + &frame(r#"{"id":"b","choices":[]}"#)).into_bytes(),
            DecodeError::InvalidTransition("response id changed between chunks".into()),
        ),
        (
            chunk(&[choice(r#"{"role":"user"}"#, "null", None)], None).into_bytes(),
            DecodeError::InvalidTransition("unexpected delta role user".into()),
        ),
        (
            chunk(&[choice(r#"{"tool_calls":[{"index":0,"type":"other"}]}"#, "null", None)], None).into_bytes(),
            DecodeError::InvalidTransition("unsupported tool type other".into()),
        ),
        (
            chunk(&[choice(r#"{"tool_calls":[{"index":0,"id":"a"},{"index":0,"id":"b"}]}"#, "null", None)], None)
                .into_bytes(),
            DecodeError::InvalidTransition("conflicting tool id fragments".into()),
        ),
        (
            (chunk(&[choice("{}", "\"stop\"", None)], None) + DONE).into_bytes(),
            DecodeError::InvalidTransition("successful terminal had no content".into()),
        ),
    ];
    for (body, expected) in cases {
        let dialect = TestDialect::new();
        let mut shown = Vec::new();
        assert_eq!(decode_stream(params(&dialect), &vec![body], &mut shown), Err(expected));
    }
}

#[test]
fn a_plain_dialect_has_no_response_hooks() {
    let dialect = PlainDialect;
    let params = DecodeStream {
        context: DialectContext { dialect: InferenceDialect::OpenAi, model: "m" },
        dialect: &dialect,
        metadata: ResponseMetadata { trace_id: None },
    };
    let body = chunk(&[choice(r#"{"content":"x"}"#, "\"stop\"", None)], None) + DONE;
    let mut shown = Vec::new();
    let error = decode_stream(params, &pieces(&body, 64), &mut shown).expect_err("no hooks");
    assert!(matches!(error, DecodeError::Dialect(_)));
}

#[test]
fn what_is_shown_is_what_may_be_committed() {
    let body = chunk(&[choice(r#"{"content":"a","reasoning_content":"x"}"#, "null", None)], None)
        + &chunk(&[choice(r#"{"content":"","reasoning_content":"y"}"#, "null", None)], None)
        + &chunk(&[choice(r#"{"content":"b"}"#, "\"stop\"", None)], None)
        + DONE;
    let (decoded, shown) = decode(&body, &TestDialect::new());
    let pending = decoded.expect("decoded stream").pending.expect("committable output");
    let content = shown
        .iter()
        .map(|delta| match delta {
            PresentationDelta::Content(text) => text.as_str(),
            _ => "",
        })
        .collect::<String>();
    let reasoning = shown
        .iter()
        .map(|delta| match delta {
            PresentationDelta::Reasoning(text) => text.as_str(),
            _ => "",
        })
        .collect::<String>();
    assert_eq!((pending.content, pending.reasoning), (content, reasoning));
}

#[test]
fn chunks_may_give_their_fields_by_position() {
    let usage = r#"{"prompt_tokens":1,"completion_tokens":2,"total_tokens":3}"#;
    let named = format!(
        r#"{{"id":"a","choices":[{{"index":0,"delta":{{"tool_calls":[{{"index":0,"id":"c","type":"function","function":{{"name":"f","arguments":"{{}}"}}}}]}},"finish_reason":"stop","usage":{usage}}}],"usage":null}}"#
    );
    let placed = format!(
        r#"["a",[[0,{{"tool_calls":[[0,"c","function",["f","{{}}"]]]}},"stop",{usage}]]]"#
    );
    let read = |text: &str| ChatCompletionChunk::from_json(&parse_json(text).expect("JSON fixture"));
    assert!(read(&named).is_ok());
    assert_eq!(read(&placed), read(&named));
    let refused = |text: &str, message: &str| assert_eq!(read(text), Err(message.to_string()));
    refused("[]", "invalid length 0, expected struct ChatCompletionChunk with 3 elements");
    refused("[1]", "invalid type: integer `1`, expected a string");
    refused(r#"["a",[],null,4]"#, "invalid length 4, expected fewer elements in array");
    refused(r#"["a",[[0]]]"#, "invalid length 1, expected struct ChunkChoice with 4 elements");
    refused(r#"["a",[[0,[]]]]"#, "invalid type: sequence, expected struct ChunkDelta");
    let dialect = TestDialect::new();
    let mut shown = Vec::new();
    assert_eq!(
        decode_stream(params(&dialect), &vec![frame(r#"["a",[]]"#).into_bytes()], &mut shown),
        Err(DecodeError::MalformedChunk("choices was not an array".into()))
    );
}

#[test]
fn empty_lines_at_the_start_do_no_harm() {
    let body = "\n\r\n\r".to_string()
        + &chunk(&[choice(r#"{"content":"a"}"#, "\"stop\"", None)], None)
        + DONE;
    let dialect = TestDialect::new();
    let mut whole = Vec::new();
    let decoded = decode_stream(params(&dialect), &vec![body.clone().into_bytes()], &mut whole);
    assert!(decoded.is_ok());
    for size in [1, 2, 3, 50] {
        let mut shown = Vec::new();
        assert_eq!(decode_stream(params(&dialect), &pieces(&body, size), &mut shown), decoded);
        assert_eq!(shown, whole);
    }
    for size in [1, 2, 100] {
        let mut shown = Vec::new();
        assert_eq!(
            decode_stream(params(&dialect), &pieces(&(" \n".to_string() + DONE), size), &mut shown),
            Err(DecodeError::MalformedFraming("unsupported stream line \" \"".into()))
        );
        assert_eq!(
            decode_stream(params(&dialect), &pieces(" \n\t\n", size), &mut shown),
            Err(DecodeError::EmptyStream)
        );
    }
}
