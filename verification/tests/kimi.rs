use codex_dialects::api::{
    ApiError, Delay, HttpHeader, Provider, ResponseEvent, ResponseUsageMetadata, RetryConfig, TransportError,
};
use codex_dialects::json::{parse_json, sort_json, Json};
use codex_dialects::kimi_chat::client::{
    classify_kimi_api_error_at, delay_until, map_stream_error, map_usage, request_body, trace_id, KimiChatClient,
    KimiStreamDriver, KimiStreamInput, KimiStreamItem, Moment, PresentationState,
};
use codex_dialects::kimi_chat::request::{
    build_kimi_chat_request, estimate_kimi_input_tokens, normalize_call_id, KimiAssistantMessage,
    KimiAssistantMessageInput, KimiChatRequest, KimiContent, KimiFunctionDefinition, KimiFunctionTool,
    KimiInputEstimate, KimiMessage, KimiReasoning, KimiReasoningKey, KimiRequestError, KimiRequestSettings,
    KimiThinkingEffort, KimiToolCall,
};
use codex_dialects::kimi_chat::schema::{normalize_kimi_schema, KimiSchemaError};
use codex_dialects::kimi_chat::stream::KimiStreamDecoder;
use codex_dialects::kimi_chat::stream_types::{
    KimiDecodedResponse, KimiStreamError, KimiStreamEvent, KimiTerminal, KimiUsage,
};
use codex_dialects::protocol::{
    ContentItem, InferenceDialect, KimiInferenceConfig, KimiThinkingPolicy, ReasoningItemContent, ResponseItem,
    TokenUsage, WireApi,
};

fn settings(input: u64, effort: Option<KimiThinkingEffort>) -> KimiRequestSettings {
    KimiRequestSettings {
        context_window: 262_144,
        input_estimate: KimiInputEstimate::Fixed(input),
        prompt_cache_key: "stable-session-affinity".to_string(),
        thinking_effort: effort,
        reasoning_key: None,
    }
}

fn profile(wire_model: &str, max_output_tokens: u32, thinking: KimiThinkingPolicy) -> KimiInferenceConfig {
    KimiInferenceConfig {
        wire_api: WireApi::ChatCompletions,
        dialect: InferenceDialect::Kimi,
        route: "kimi_code".to_string(),
        wire_model: wire_model.to_string(),
        max_output_tokens,
        thinking,
    }
}

fn k3() -> KimiInferenceConfig {
    profile("k3", 131_072, KimiThinkingPolicy::RequiredWithEffort)
}

fn message(role: &str, content: &str) -> KimiMessage {
    match role {
        "system" => KimiMessage::System { content: KimiContent::Text(content.to_string()) },
        "user" => KimiMessage::User { content: KimiContent::Text(content.to_string()) },
        _ => panic!("unsupported test role"),
    }
}

fn decode(stream: &str) -> Result<KimiDecodedResponse, KimiStreamError> {
    let mut decoder = KimiStreamDecoder::new("k3".to_string()).with_trace_id("trace-1".to_string());
    for fragment in stream.as_bytes().chunks(17) {
        decoder.feed(fragment)?;
    }
    decoder.finish()
}

fn json(text: &str) -> Json {
    parse_json(text).expect("JSON fixture")
}

fn call(id: &str, name: &str, arguments: &str) -> KimiToolCall {
    KimiToolCall::function(id.to_string(), name.to_string(), arguments.to_string())
}

fn field<'a>(value: &'a Json, name: &str) -> &'a Json {
    value.get(name).expect("field")
}

fn item(value: &Json, index: usize) -> &Json {
    match value {
        Json::Array(items) => &items[index],
        _ => panic!("array"),
    }
}

#[test]
fn exact_requests_cover_profiles_thinking_and_budget_edges() {
    let cases = [
        (k3(), 1_048_576, 0, Some(KimiThinkingEffort::Low)),
        (
            profile("k3-256k", 131_072, KimiThinkingPolicy::RequiredWithEffort),
            262_144,
            131_073,
            Some(KimiThinkingEffort::High),
        ),
        (
            profile("k3-256k", 131_072, KimiThinkingPolicy::RequiredWithEffort),
            262_144,
            262_144,
            Some(KimiThinkingEffort::Max),
        ),
        (profile("kimi-for-coding", 32_768, KimiThinkingPolicy::Required), 262_144, 0, None),
        (profile("kimi-for-coding-highspeed", 32_768, KimiThinkingPolicy::Required), 262_144, 229_377, None),
    ];
    let requests = cases
        .into_iter()
        .map(|(profile, context_window, input, effort)| {
            let mut request_settings = settings(input, effort);
            request_settings.context_window = context_window;
            let request = build_kimi_chat_request(
                &profile,
                request_settings,
                vec![message("system", "You are Codex.")],
                Vec::new(),
            )
            .expect("valid Kimi request");
            sort_json(&request.to_json())
        })
        .collect::<Vec<_>>();
    assert_eq!(
        requests,
        vec![
            json(r#"{"model":"k3","messages":[{"role":"system","content":"You are Codex."}],"stream":true,"stream_options":{"include_usage":true},"max_completion_tokens":131072,"prompt_cache_key":"stable-session-affinity","thinking":{"type":"enabled","keep":"all","effort":"low"}}"#),
            json(r#"{"model":"k3-256k","messages":[{"role":"system","content":"You are Codex."}],"stream":true,"stream_options":{"include_usage":true},"max_completion_tokens":131071,"prompt_cache_key":"stable-session-affinity","thinking":{"type":"enabled","keep":"all","effort":"high"}}"#),
            json(r#"{"model":"k3-256k","messages":[{"role":"system","content":"You are Codex."}],"stream":true,"stream_options":{"include_usage":true},"max_completion_tokens":1,"prompt_cache_key":"stable-session-affinity","thinking":{"type":"enabled","keep":"all","effort":"max"}}"#),
            json(r#"{"model":"kimi-for-coding","messages":[{"role":"system","content":"You are Codex."}],"stream":true,"stream_options":{"include_usage":true},"max_completion_tokens":32768,"prompt_cache_key":"stable-session-affinity","thinking":{"type":"enabled","keep":"all"}}"#),
            json(r#"{"model":"kimi-for-coding-highspeed","messages":[{"role":"system","content":"You are Codex."}],"stream":true,"stream_options":{"include_usage":true},"max_completion_tokens":32767,"prompt_cache_key":"stable-session-affinity","thinking":{"type":"enabled","keep":"all"}}"#),
        ]
    );
    assert_eq!(
        [
            build_kimi_chat_request(&k3(), settings(0, None), Vec::new(), Vec::new()),
            build_kimi_chat_request(
                &profile("kimi-for-coding", 32_768, KimiThinkingPolicy::Required),
                settings(0, Some(KimiThinkingEffort::High)),
                Vec::new(),
                Vec::new()
            ),
        ],
        [Err(KimiRequestError::MissingThinkingEffort), Err(KimiRequestError::UnsupportedThinkingEffort)]
    );
    assert_eq!(
        build_kimi_chat_request(
            &profile(&"\\".repeat(256), 131_072, KimiThinkingPolicy::RequiredWithEffort),
            settings(0, Some(KimiThinkingEffort::High)),
            Vec::new(),
            Vec::new(),
        ),
        Err(KimiRequestError::InvalidProfile)
    );
}

#[test]
fn profiles_and_cache_keys_that_do_not_fit_are_refused() {
    let build = |profile: KimiInferenceConfig, settings: KimiRequestSettings| {
        build_kimi_chat_request(&profile, settings, Vec::new(), Vec::new())
    };
    let high = || settings(0, Some(KimiThinkingEffort::High));
    assert_eq!(
        build(KimiInferenceConfig { wire_api: WireApi::Responses, ..k3() }, high()),
        Err(KimiRequestError::InvalidProfile)
    );
    assert_eq!(
        build(KimiInferenceConfig { dialect: InferenceDialect::OpenAi, ..k3() }, high()),
        Err(KimiRequestError::InvalidProfile)
    );
    assert_eq!(
        build(KimiInferenceConfig { max_output_tokens: 0, ..k3() }, high()),
        Err(KimiRequestError::InvalidProfile)
    );
    assert_eq!(
        build(k3(), KimiRequestSettings { context_window: 0, ..high() }),
        Err(KimiRequestError::InvalidProfile)
    );
    for key in [String::new(), "k".repeat(257)] {
        assert_eq!(
            build(k3(), KimiRequestSettings { prompt_cache_key: key, ..high() }),
            Err(KimiRequestError::InvalidPromptCacheKey)
        );
    }
    assert!(build(k3(), KimiRequestSettings { prompt_cache_key: "k".repeat(256), ..high() }).is_ok());
}

#[test]
fn interleaved_tools_reasoning_and_final_usage_decode_transactionally() {
    let stream = [
        "data: {\"id\":\"chat-1\",\"choices\":[{\"index\":0,\"delta\":{\"role\":\"assistant\",\"reasoning\":\"think \"}}]}\n\n",
        "data: {\"id\":\"chat-1\",\"choices\":[{\"index\":0,\"delta\":{\"tool_calls\":[{\"index\":0,\"id\":\"call-0\",\"type\":\"function\",\"function\":{\"name\":\"first\",\"arguments\":\"{\\\"a\\\":\"}},{\"index\":1,\"id\":\"call-1\",\"type\":\"function\",\"function\":{\"name\":\"second\",\"arguments\":\"{\"}}]}}]}\n\n",
        "data: {\"id\":\"chat-1\",\"choices\":[{\"index\":0,\"delta\":{\"reasoning\":\"then\",\"tool_calls\":[{\"index\":1,\"function\":{\"arguments\":\"}\\n\"}},{\"index\":0,\"function\":{\"arguments\":\"1}\"}}]},\"finish_reason\":\"tool_calls\",\"usage\":{\"prompt_tokens\":16646,\"completion_tokens\":654,\"total_tokens\":17300}}]}\n\n",
        "data: {\"id\":\"chat-1\",\"choices\":[],\"usage\":{\"prompt_tokens\":16648,\"completion_tokens\":654,\"total_tokens\":17302,\"prompt_tokens_details\":{\"cached_tokens\":4000},\"completion_tokens_details\":{\"reasoning_tokens\":378}}}\n\n",
        "data: [DONE]\n\n",
    ]
    .concat();
    let mut decoder = KimiStreamDecoder::new("k3".to_string()).with_trace_id("trace-1".to_string());
    let mut events = Vec::new();
    for fragment in stream.as_bytes().chunks(13) {
        events.extend(decoder.feed(fragment).expect("valid stream fragment"));
    }
    let decoded = decoder.finish().expect("valid Kimi stream");
    assert_eq!(decoded.terminal, KimiTerminal::ToolsReady);
    assert_eq!(decoded.trace_id.as_deref(), Some("trace-1"));
    assert_eq!(
        decoded.usage,
        Some(KimiUsage {
            prompt_tokens: 16_648,
            completion_tokens: 654,
            total_tokens: 17_302,
            cached_prompt_tokens: 4_000,
            reasoning_tokens: 378,
        })
    );
    let pending = decoded.pending.expect("committable output");
    assert_eq!(pending.reasoning.text, "think then");
    assert_eq!(
        pending.tool_calls,
        vec![call("call-0", "first", "{\"a\":1}"), call("call-1", "second", "{}\n")]
    );
    assert_eq!(events.len(), 6);
    assert!(events.iter().all(|event| match event {
        KimiStreamEvent::Content { response_id, .. }
        | KimiStreamEvent::Reasoning { response_id, .. }
        | KimiStreamEvent::ToolCall { response_id, .. } => response_id == "chat-1",
    }));

    let mut whole = KimiStreamDecoder::new("k3".to_string());
    assert_eq!(whole.feed(stream.as_bytes()), Ok(events));
    assert!(whole.is_done());
}

fn assistant_input<'a>(content: &str, reasoning: Option<&'a KimiReasoning>) -> KimiAssistantMessageInput<'a> {
    KimiAssistantMessageInput { content: Some(content.to_string()), tool_calls: Vec::new(), reasoning }
}

#[test]
fn learned_reasoning_key_replays_only_to_the_exact_wire_model() {
    let decoded = decode(
        &[
            "data: {\"id\":\"chat-2\",\"choices\":[{\"index\":0,\"delta\":{\"reasoning_details\":\"private\",\"content\":\"answer\"},\"finish_reason\":null}]}\n\n",
            "data: {\"id\":\"chat-2\",\"choices\":[]}\n\n",
            "data: [DONE]\n\n",
        ]
        .concat(),
    )
    .expect("optional finish reason is valid");
    let reasoning = &decoded.pending.expect("committable output").reasoning;
    let persisted =
        KimiReasoning::from_persisted(reasoning.text.clone(), reasoning.opaque_marker().to_string())
            .expect("bounded replay marker round trip");
    assert_eq!(
        KimiReasoning::from_persisted("unsafe".to_string(), "responses-encrypted".to_string()),
        Err(KimiRequestError::MalformedReplayMarker)
    );
    let exact = KimiAssistantMessage::from_input(assistant_input("answer", Some(&persisted)), "k3")
        .expect("matching replay");
    let switched = KimiAssistantMessage::from_input(assistant_input("answer", Some(&persisted)), "k3-256k")
        .expect("model switch drops replay");
    assert_eq!(exact.to_json(), json(r#"{"content":"answer","reasoning_details":"private"}"#));
    assert_eq!(switched.to_json(), json(r#"{"content":"answer"}"#));
    let earlier = KimiAssistantMessage::from_input(assistant_input("earlier", None), "k3")
        .expect("default reasoning key");
    let mut request_settings = settings(0, Some(KimiThinkingEffort::High));
    request_settings.reasoning_key = Some(persisted.key().expect("learned reasoning key"));
    let request = build_kimi_chat_request(
        &k3(),
        request_settings,
        vec![KimiMessage::Assistant(earlier), KimiMessage::Assistant(exact)],
        Vec::new(),
    )
    .expect("learned key applies to every assistant message");
    let value = request.to_json();
    let messages = field(&value, "messages");
    assert_eq!(item(messages, 0).get("reasoning_details"), Some(&Json::Text(String::new())));
    assert_eq!(item(messages, 1).get("reasoning_details"), Some(&Json::Text("private".to_string())));
}

#[test]
fn markers_hold_their_model_and_field() {
    let reasoning = KimiReasoning::for_model("k3", KimiReasoningKey::Reasoning, "t".to_string()).expect("marker");
    assert_eq!(
        reasoning.opaque_marker(),
        r#"codex:kimi-chat-reasoning:{"dialect":"kimi_chat","key":"reasoning","model":"k3","version":1}"#
    );
    assert_eq!(reasoning.key(), Ok(KimiReasoningKey::Reasoning));
    assert_eq!(
        KimiReasoning::for_model(&"m".repeat(500), KimiReasoningKey::Reasoning, String::new()),
        Err(KimiRequestError::ReplayMarkerTooLarge)
    );
    for marker in [
        r#"codex:kimi-chat-reasoning:{"dialect":"kimi_chat","key":"reasoning","model":"k3","version":2}"#,
        r#"codex:kimi-chat-reasoning:{"dialect":"other","key":"reasoning","model":"k3","version":1}"#,
        r#"codex:kimi-chat-reasoning:{"dialect":"kimi_chat","key":"other","model":"k3","version":1}"#,
        r#"codex:kimi-chat-reasoning:{"dialect":"kimi_chat","key":"reasoning","model":"k3","version":1,"more":1}"#,
        r#"codex:kimi-chat-reasoning:{"dialect":"kimi_chat","key":"reasoning","version":1}"#,
        "codex:kimi-chat-reasoning:not json",
    ] {
        assert_eq!(
            KimiReasoning::from_persisted(String::new(), marker.to_string()),
            Err(KimiRequestError::MalformedReplayMarker)
        );
    }
}

const LONG_ID: &str = "call-that-is-deliberately-longer-than-the-kimi-sixty-four-byte-limit-aaaa";

#[test]
fn normalized_parallel_calls_keep_results_matched_and_omit_empty_content() {
    let assistant = KimiAssistantMessage::from_input(
        KimiAssistantMessageInput {
            content: Some(String::new()),
            tool_calls: vec![call(LONG_ID, "inspect", "{}")],
            reasoning: None,
        },
        "k3",
    )
    .expect("assistant message");
    let request = build_kimi_chat_request(
        &k3(),
        settings(0, Some(KimiThinkingEffort::High)),
        vec![
            KimiMessage::Assistant(assistant),
            KimiMessage::Tool {
                tool_call_id: LONG_ID.to_string(),
                content: KimiContent::Text("done".to_string()),
            },
        ],
        Vec::new(),
    )
    .expect("valid Kimi request");
    let value = request.to_json();
    let messages = field(&value, "messages");
    let call_id = field(item(field(item(messages, 0), "tool_calls"), 0), "id").as_str().expect("normalized call ID");
    assert!(call_id.len() <= 64);
    assert_eq!(item(messages, 1).get("tool_call_id").and_then(|id| id.as_str()), Some(call_id));
    assert_eq!(item(messages, 0).get("content"), None);
    assert_eq!(item(messages, 0).get("reasoning_content"), Some(&Json::Text(String::new())));
}

#[test]
fn long_call_ids_become_a_start_and_a_hash() {
    assert_eq!(
        normalize_call_id(LONG_ID),
        "call-that-is-deliberately-longer-than-the-kimi--e0ee9bbd4c486e9b"
    );
    assert_eq!(normalize_call_id(&"x".repeat(64)), "x".repeat(64));
    let wide = "é".repeat(40);
    let short = normalize_call_id(&wide);
    assert!(short.starts_with(&("é".repeat(23) + "-")));
    assert_eq!(short.len(), 46 + 1 + 16);
    assert_eq!(normalize_call_id(&short), short);
}

#[test]
fn calls_that_collide_are_refused() {
    let short = normalize_call_id(LONG_ID);
    let assistant = KimiAssistantMessage::from_input(
        KimiAssistantMessageInput {
            content: None,
            tool_calls: vec![call(LONG_ID, "inspect", "{}"), call(&short, "inspect", "{}")],
            reasoning: None,
        },
        "k3",
    )
    .expect("assistant message");
    assert_eq!(
        build_kimi_chat_request(
            &k3(),
            settings(0, Some(KimiThinkingEffort::High)),
            vec![KimiMessage::Assistant(assistant)],
            Vec::new(),
        ),
        Err(KimiRequestError::DuplicateToolCallId(short))
    );
}

#[test]
fn the_input_is_estimated_from_its_bytes() {
    let messages = vec![message("user", "hello")];
    // [[{"role":"user","content":"hello"}],[]]
    assert_eq!(estimate_kimi_input_tokens(&messages, &Vec::new()), 10);
    let mut request_settings = settings(0, Some(KimiThinkingEffort::High));
    request_settings.input_estimate = KimiInputEstimate::FinalSerialized;
    request_settings.context_window = 1_000;
    let request = build_kimi_chat_request(&k3(), request_settings, messages, Vec::new()).expect("estimated request");
    assert_eq!(request.max_completion_tokens, 990);
}

#[test]
fn invalid_or_noncommittable_streams_never_return_pending_output() {
    let exhausted = decode(
        &[
            "data: {\"id\":\"chat-3\",\"choices\":[{\"index\":0,\"delta\":{\"reasoning_content\":\"unfinished\"},\"finish_reason\":\"length\"}]}\n\n",
            "data: [DONE]\n\n",
        ]
        .concat(),
    )
    .expect("valid exhaustion terminal");
    assert_eq!(exhausted.terminal, KimiTerminal::OutputExhausted);
    assert_eq!(exhausted.pending, None);

    let failures = [
        decode(""),
        decode("data: not-json\n\n"),
        decode("data: {\"id\":\"x\",\"choices\":[]}\n\n"),
        decode(
            &[
                "data: {\"id\":\"x\",\"choices\":[{\"index\":0,\"delta\":{},\"finish_reason\":\"stop\"}]}\n\n",
                "data: [DONE]\n\n",
            ]
            .concat(),
        ),
        decode(
            &[
                "data: {\"id\":\"x\",\"choices\":[{\"index\":0,\"delta\":{\"reasoning_content\":\"thinking only\"}}]}\n\n",
                "data: [DONE]\n\n",
            ]
            .concat(),
        ),
        decode(
            &[
                "data: {\"id\":\"x\",\"choices\":[{\"index\":0,\"delta\":{\"tool_calls\":[{\"index\":0,\"id\":\"call\",\"type\":\"function\",\"function\":{\"name\":\"bad\",\"arguments\":\"[1]\"}}]},\"finish_reason\":\"tool_calls\"}]}\n\n",
                "data: [DONE]\n\n",
            ]
            .concat(),
        ),
    ];
    assert!(failures.into_iter().all(|failure| failure.is_err()));
}

#[test]
fn failures_of_a_kimi_stream_are_typed() {
    let done = "data: [DONE]\n\n";
    let choice = |body: &str| format!("data: {{\"id\":\"x\",\"choices\":[{body}]}}\n\n");
    let delta = |body: &str| choice(&format!("{{\"index\":0,\"delta\":{body}}}"));
    let cases = [
        (String::new(), KimiStreamError::EmptyStream),
        ("event: ping\n\n".to_string(), KimiStreamError::MalformedFraming("event: ping".to_string())),
        ("data: {\n\n".to_string(), KimiStreamError::MalformedChunk("EOF while parsing an object at line 1 column 1".to_string())),
        (": nothing\n".to_string(), KimiStreamError::PrematureEof("a recognized chunk")),
        (choice(""), KimiStreamError::PrematureEof("[DONE]")),
        (done.to_string() + done, KimiStreamError::InvalidTransition("data followed [DONE]")),
        (
            choice("{\"index\":1,\"delta\":{}}"),
            KimiStreamError::InvalidTransition("only choice index zero is supported"),
        ),
        (
            choice("{\"index\":0,\"delta\":{},\"finish_reason\":\"future\"}"),
            KimiStreamError::UnknownFinishReason("future".to_string()),
        ),
        (
            choice("{\"index\":0,\"delta\":{},\"finish_reason\":\"stop\"}") + &delta("{}"),
            KimiStreamError::DuplicateTerminal,
        ),
        (
            delta("{\"reasoning\":\"a\"}") + &delta("{\"reasoning_content\":\"b\"}"),
            KimiStreamError::ConflictingReasoningKeys,
        ),
        (
            delta("{\"tool_calls\":[{\"index\":0,\"id\":\"a\"},{\"index\":0,\"id\":\"b\"}]}"),
            KimiStreamError::ConflictingToolField("tool id"),
        ),
        (
            delta("{\"tool_calls\":[{\"index\":1,\"id\":\"a\"}]}") + done,
            KimiStreamError::InvalidTransition("tool indexes were not contiguous from zero"),
        ),
        (
            delta("{\"tool_calls\":[{\"index\":0,\"id\":\"a\"}]}") + done,
            KimiStreamError::IncompleteTool { index: 0, field: "name" },
        ),
        (
            delta("{\"tool_calls\":[{\"index\":0,\"id\":\"a\",\"function\":{\"name\":\"f\",\"arguments\":\"1\"}}]}") + done,
            KimiStreamError::InvalidToolJson { index: 0, arguments: "1".to_string() },
        ),
        (
            choice("") + "data: {\"id\":\"y\",\"choices\":[]}\n\n",
            KimiStreamError::InvalidTransition("response id changed between chunks"),
        ),
    ];
    for (body, expected) in cases {
        assert_eq!(decode(&body), Err(expected));
    }
    let swapped = delta(
        "{\"tool_calls\":[{\"index\":1,\"id\":\"b\",\"function\":{\"name\":\"g\",\"arguments\":\"{}\"}},{\"index\":0,\"id\":\"a\",\"function\":{\"name\":\"f\",\"arguments\":\"{}\"}}]}",
    ) + done;
    assert_eq!(
        decode(&swapped).map(|decoded| decoded.pending.map(|pending| pending.tool_calls)),
        Ok(Some(vec![call("a", "f", "{}"), call("b", "g", "{}")]))
    );
}

#[test]
fn non_string_reasoning_details_are_ignored_for_compatibility() {
    let decoded = decode(
        &[
            "data: {\"id\":\"chat-4\",\"choices\":[{\"index\":0,\"delta\":{\"reasoning_details\":[{\"type\":\"summary\"}],\"content\":\"ok\"},\"finish_reason\":\"stop\"}]}\n\n",
            "data: [DONE]\n\n",
        ]
        .concat(),
    )
    .expect("array-shaped compatibility details are ignored");
    assert_eq!(decoded.pending.expect("committable response").content, "ok");
}

#[test]
fn request_shape_never_contains_legacy_max_tokens() {
    let request = build_kimi_chat_request(
        &profile("kimi-for-coding", 32_768, KimiThinkingPolicy::Required),
        settings(0, None),
        vec![message("user", "hello")],
        vec![KimiFunctionTool::new(KimiFunctionDefinition {
            name: "inspect".to_string(),
            description: "Inspect".to_string(),
            parameters: json(r#"{"type":"object","properties":{}}"#),
            strict: true,
        })],
    )
    .expect("valid request");
    let value = request.to_json();
    assert_eq!(value.get("max_tokens"), None);
    assert_eq!(item(field(&value, "tools"), 0).get("type"), Some(&Json::Text("function".to_string())));
}

#[test]
fn tool_schemas_resolve_local_definitions_and_complete_nested_types() {
    let normalized = normalize_kimi_schema(&json(
        r##"{
            "type": "object",
            "$defs": {
                "entry": {
                    "type": "object",
                    "properties": {
                        "label": {"minLength": 1},
                        "enabled": {"const": true}
                    },
                    "required": ["label"]
                }
            },
            "properties": {
                "entry": {"$ref": "#/$defs/entry", "description": "Selected entry"}
            }
        }"##,
    ))
    .expect("supported Kimi schema");
    assert_eq!(
        normalized,
        json(
            r#"{
                "type": "object",
                "properties": {
                    "entry": {
                        "type": "object",
                        "description": "Selected entry",
                        "properties": {
                            "label": {"type": "string", "minLength": 1},
                            "enabled": {"type": "boolean", "const": true}
                        },
                        "required": ["label"]
                    }
                }
            }"#
        )
    );
    assert_eq!(
        normalize_kimi_schema(&json(
            r#"{"type":"object","properties":{"entry":{"$ref":"https://example.test/schema"}}}"#
        )),
        Err(KimiSchemaError::UnsupportedReference("https://example.test/schema".to_string()))
    );
    let request = build_kimi_chat_request(
        &k3(),
        settings(0, Some(KimiThinkingEffort::High)),
        Vec::new(),
        vec![KimiFunctionTool::new(KimiFunctionDefinition {
            name: "loop".to_string(),
            description: String::new(),
            parameters: json(r##"{"$defs":{"a":{"$ref":"#/$defs/a"}},"properties":{"x":{"$ref":"#/$defs/a"}}}"##),
            strict: false,
        })],
    );
    assert_eq!(
        request.map_err(|error| error.message()),
        Err("Kimi tool schema at index 0 is unsupported: unsupported schema reference `#/$defs/a`".to_string())
    );
}

fn http_error(status: u16, headers: Vec<(&str, &str)>, body: &str) -> ApiError {
    ApiError::Transport(TransportError::Http {
        status,
        url: Some("https://example.test/chat/completions".to_string()),
        headers: Some(
            headers
                .into_iter()
                .map(|(name, value)| HttpHeader { name: name.to_string(), value: Some(value.to_string()) })
                .collect(),
        ),
        body: Some(body.to_string()),
    })
}

// 2 August 2026, midnight
const NOW: Moment = Moment { seconds: 1_785_628_800, nanos: 0 };

#[test]
fn kimi_http_errors_preserve_retry_delays_and_recovery_classification() {
    for (error, expected_delay) in [
        (
            http_error(429, vec![("retry-after-ms", "2750")], "rate limited"),
            Some(Delay { seconds: 2, nanos: 750_000_000 }),
        ),
        (
            http_error(529, vec![("retry-after", "Sun, 2 Aug 2026 00:00:03 +0000")], "overloaded"),
            Some(Delay { seconds: 3, nanos: 0 }),
        ),
        (http_error(503, Vec::new(), r#"{"error":{"code":"server_is_overloaded"}}"#), None),
        (http_error(408, vec![("retry-after", "+7")], ""), Some(Delay { seconds: 7, nanos: 0 })),
        (http_error(409, vec![("retry-after", "Sat, 1 Aug 2026 23:59:59 +0000")], ""), None),
        (http_error(500, vec![("retry-after", "soon")], ""), None),
        (
            http_error(500, vec![("retry-after-ms", "soon"), ("retry-after", "1")], ""),
            Some(Delay { seconds: 1, nanos: 0 }),
        ),
    ] {
        let ApiError::Retryable { delay, .. } = classify_kimi_api_error_at(error, NOW) else {
            panic!("expected retryable Kimi error")
        };
        assert_eq!(delay, expected_delay);
    }
    assert_eq!(
        classify_kimi_api_error_at(
            http_error(400, Vec::new(), r#"{"error":{"message":"maximum context length exceeded"}}"#),
            NOW,
        ),
        ApiError::ContextWindowExceeded
    );
    assert_eq!(
        classify_kimi_api_error_at(
            http_error(
                429,
                Vec::new(),
                r#"{"error":{"type":"billing_error","message":"credit balance is too low"}}"#,
            ),
            NOW,
        ),
        ApiError::QuotaExceeded
    );
    assert_eq!(
        classify_kimi_api_error_at(http_error(503, Vec::new(), ""), NOW),
        ApiError::Retryable {
            message: "native Kimi request failed with HTTP 503 Service Unavailable".to_string(),
            delay: None,
        }
    );
    let unchanged = http_error(404, Vec::new(), "nothing here");
    assert_eq!(classify_kimi_api_error_at(unchanged.clone(), NOW), unchanged);
    assert_eq!(
        classify_kimi_api_error_at(ApiError::RateLimit("slow down".to_string()), NOW),
        ApiError::Retryable { message: "slow down".to_string(), delay: None }
    );
    assert_eq!(
        classify_kimi_api_error_at(ApiError::ServerOverloaded, NOW),
        ApiError::Retryable { message: "server overloaded".to_string(), delay: None }
    );
}

#[test]
fn delays_are_the_time_to_a_later_moment() {
    let later = Moment { seconds: NOW.seconds + 1, nanos: 250_000_000 };
    let now = Moment { seconds: NOW.seconds, nanos: 500_000_000 };
    assert_eq!(delay_until(Some(later), now), Some(Delay { seconds: 0, nanos: 750_000_000 }));
    assert_eq!(delay_until(Some(now), now), None);
    assert_eq!(delay_until(Some(now), later), None);
    assert_eq!(delay_until(None, now), None);
}

fn request() -> KimiChatRequest {
    build_kimi_chat_request(
        &k3(),
        KimiRequestSettings {
            context_window: 1_048_576,
            input_estimate: KimiInputEstimate::Fixed(100),
            prompt_cache_key: "session-affinity".to_string(),
            thinking_effort: Some(KimiThinkingEffort::High),
            reasoning_key: None,
        },
        vec![message("user", "inspect")],
        Vec::new(),
    )
    .expect("valid Kimi request")
}

fn run(body: &str, size: usize) -> Vec<KimiStreamItem> {
    let mut items = Vec::new();
    let mut driver = Some(KimiStreamDriver::new("k3".to_string(), Some("trace-kimi-1".to_string())));
    let mut count = 0;
    for piece in body.as_bytes().chunks(size) {
        if let Some(current) = driver {
            let step = current.step(KimiStreamInput::Bytes(piece.to_vec()), &format!("s{count}"));
            items.extend(step.items);
            driver = step.next;
            count += 1;
        }
    }
    if let Some(current) = driver {
        items.extend(current.step(KimiStreamInput::Ended, "end").items);
    }
    items
}

#[test]
fn posts_exact_request_and_maps_stream_metadata_and_items() {
    let expected = request();
    assert_eq!(parse_json(&request_body(&expected)), Ok(sort_json(&expected.to_json())));
    assert_eq!(
        request_body(&expected),
        r#"{"model":"k3","messages":[{"role":"user","content":"inspect"}],"stream":true,"stream_options":{"include_usage":true},"max_completion_tokens":131072,"prompt_cache_key":"session-affinity","thinking":{"effort":"high","keep":"all","type":"enabled"}}"#
    );
    let body = [
        "data: {\"id\":\"chat-kimi-1\",\"choices\":[{\"index\":0,\"delta\":{\"reasoning_content\":\"think \"}}]}\n\n",
        "data: {\"id\":\"chat-kimi-1\",\"choices\":[{\"index\":0,\"delta\":{\"content\":\"answer\"}}]}\n\n",
        "data: {\"id\":\"chat-kimi-1\",\"choices\":[{\"index\":0,\"delta\":{\"tool_calls\":[{\"index\":0,\"id\":\"call-1\",\"type\":\"function\",\"function\":{\"name\":\"inspect\",\"arguments\":\"{}\"}}]},\"finish_reason\":\"tool_calls\"}],\"usage\":{\"prompt_tokens\":20,\"completion_tokens\":9,\"total_tokens\":29,\"prompt_tokens_details\":{\"cached_tokens\":7},\"completion_tokens_details\":{\"reasoning_tokens\":4}}}\n\n",
        "data: [DONE]\n\n",
    ]
    .concat();
    let items = run(&body, 11);
    let events = items
        .iter()
        .map(|item| match item {
            KimiStreamItem::Event(event) => event.clone(),
            KimiStreamItem::Failure(error) => panic!("{}", error.message()),
        })
        .collect::<Vec<_>>();
    let added = |wanted: fn(&ResponseItem) -> Option<String>| {
        events
            .iter()
            .find_map(|event| match event {
                ResponseEvent::OutputItemAdded(item) => wanted(item),
                _ => None,
            })
            .expect("item was presented")
    };
    let reasoning_id = added(|item| match item {
        ResponseItem::Reasoning { id, .. } => id.clone(),
        _ => None,
    });
    let message_id = added(|item| match item {
        ResponseItem::Message { id, .. } => id.clone(),
        _ => None,
    });
    let tool_id = added(|item| match item {
        ResponseItem::FunctionCall { id, .. } => id.clone(),
        _ => None,
    });
    let marker = KimiReasoning::for_model("k3", KimiReasoningKey::ReasoningContent, "think ".to_string())
        .expect("valid reasoning marker")
        .opaque_marker()
        .to_string();
    let done = events
        .iter()
        .filter_map(|event| match event {
            ResponseEvent::OutputItemDone(item) => Some(item.clone()),
            _ => None,
        })
        .collect::<Vec<_>>();
    assert_eq!(
        done,
        vec![
            ResponseItem::Reasoning {
                id: Some(reasoning_id),
                summary: Vec::new(),
                content: Some(vec![ReasoningItemContent::ReasoningText { text: "think ".to_string() }]),
                encrypted_content: Some(marker),
            },
            ResponseItem::Message {
                id: Some(message_id),
                role: "assistant".to_string(),
                content: vec![ContentItem::OutputText { text: "answer".to_string() }],
            },
            ResponseItem::FunctionCall {
                id: Some(tool_id),
                name: "inspect".to_string(),
                namespace: None,
                arguments: "{}".to_string(),
                call_id: "call-1".to_string(),
            },
        ]
    );
    assert!(events.iter().any(|event| matches!(
        event,
        ResponseEvent::ReasoningContentDelta { delta, content_index: 0, .. } if delta == "think "
    )));
    assert!(events
        .iter()
        .any(|event| matches!(event, ResponseEvent::OutputTextDelta { delta, .. } if delta == "answer")));
    assert!(events.iter().any(|event| matches!(
        event,
        ResponseEvent::ToolCallInputDelta { call_id: Some(call_id), delta, .. } if call_id == "call-1" && delta == "{}"
    )));
    assert_eq!(
        events.last(),
        Some(&ResponseEvent::Completed {
            response_id: "chat-kimi-1".to_string(),
            token_usage: Some(TokenUsage {
                input_tokens: 20,
                cached_input_tokens: 7,
                cache_write_input_tokens: 0,
                output_tokens: 9,
                reasoning_output_tokens: 4,
                total_tokens: 29,
            }),
            usage_metadata: Some(ResponseUsageMetadata {
                amount: None,
                metadata: Some(json(r#"{"x-trace-id":"trace-kimi-1"}"#)),
            }),
            end_turn: Some(false),
        })
    );
}

#[test]
fn a_failed_kimi_stream_commits_nothing() {
    let cut_off = "data: {\"id\":\"x\",\"choices\":[{\"index\":0,\"delta\":{\"content\":\"a\"},\"finish_reason\":\"length\"}]}\n\ndata: [DONE]\n\n";
    let items = run(cut_off, 7);
    assert!(!items.iter().any(|item| matches!(item, KimiStreamItem::Event(ResponseEvent::OutputItemDone(_)))));
    assert_eq!(
        items.last(),
        Some(&KimiStreamItem::Failure(ApiError::InvalidRequest {
            message: "native Kimi output exhausted before completion".to_string(),
        }))
    );
    let filtered = "data: {\"id\":\"x\",\"choices\":[{\"index\":0,\"delta\":{},\"finish_reason\":\"content_filter\"}]}\n\ndata: [DONE]\n\n";
    assert_eq!(
        run(filtered, 7),
        vec![KimiStreamItem::Failure(ApiError::InvalidRequest {
            message: "invalid Kimi Chat transition: native Kimi response was filtered".to_string(),
        })]
    );
    let driver = || KimiStreamDriver::new("k3".to_string(), None);
    assert_eq!(
        driver().step(KimiStreamInput::Idle, "s").items,
        vec![KimiStreamItem::Failure(ApiError::Stream(
            "native Kimi stream was idle past its deadline".to_string()
        ))]
    );
    assert_eq!(
        driver().step(KimiStreamInput::Failed { error: TransportError::Timeout, now: NOW }, "s").items,
        vec![KimiStreamItem::Failure(ApiError::Transport(TransportError::Timeout))]
    );
}

#[test]
fn stream_errors_are_mapped_by_what_they_mean() {
    assert_eq!(
        map_stream_error(KimiStreamError::EmptyStream),
        ApiError::Stream("Kimi Chat stream was empty".to_string())
    );
    assert_eq!(
        map_stream_error(KimiStreamError::InvalidTransition("successful terminal had no content")),
        ApiError::Stream("native Kimi stop contained no usable output".to_string())
    );
    assert_eq!(
        map_stream_error(KimiStreamError::DuplicateTerminal),
        ApiError::InvalidRequest { message: "Kimi Chat stream contained a duplicate terminal".to_string() }
    );
}

#[test]
fn usage_that_does_not_fit_is_refused() {
    let usage = KimiUsage {
        prompt_tokens: 1,
        completion_tokens: 2,
        total_tokens: u64::MAX,
        cached_prompt_tokens: 0,
        reasoning_tokens: 0,
    };
    assert_eq!(
        map_usage(usage),
        Err(ApiError::InvalidRequest {
            message: "native Kimi usage exceeded canonical integer bounds".to_string(),
        })
    );
    assert!(map_usage(KimiUsage { total_tokens: i64::MAX as u64, ..usage }).is_ok());
}

#[test]
fn clients_keep_what_they_are_made_of() {
    let provider = Provider {
        name: "kimi".to_string(),
        base_url: "http://127.0.0.1:8080/v1/kimi".to_string(),
        query_params: None,
        headers: Vec::new(),
        retry: RetryConfig {
            max_attempts: 0,
            base_delay_millis: 1,
            retry_429: false,
            retry_5xx: false,
            retry_transport: false,
        },
        stream_idle_timeout_millis: 1000,
    };
    let client = KimiChatClient::<u8, u16, u32>::new(1, provider, 2).with_telemetry(Some(3));
    assert_eq!((client.transport, client.auth, client.telemetry), (1, 2, Some(3)));
    let headers = vec![HttpHeader { name: "x-trace-id".to_string(), value: Some("t".to_string()) }];
    assert_eq!(trace_id(&headers).as_deref(), Some("t"));
}

#[test]
fn kimi_items_are_announced_once_and_show_what_is_committed() {
    let delta = |body: &str| format!("data: {{\"id\":\"x\",\"choices\":[{{\"index\":0,\"delta\":{body}}}]}}\n\n");
    let body = delta("{\"reasoning\":\"r\"}")
        + &delta("{\"reasoning\":\"s\",\"content\":\"a\"}")
        + &delta("{\"content\":\"b\"}")
        + "data: [DONE]\n\n";
    for size in [3, 50, 1000] {
        let items = run(&body, size);
        let added = items
            .iter()
            .filter(|item| matches!(item, KimiStreamItem::Event(ResponseEvent::OutputItemAdded(_))))
            .count();
        assert_eq!(added, 2);
        let shown = items
            .iter()
            .map(|item| match item {
                KimiStreamItem::Event(ResponseEvent::OutputTextDelta { delta, .. }) => delta.as_str(),
                _ => "",
            })
            .collect::<String>();
        assert_eq!(shown, "ab");
        assert!(items.iter().any(|item| matches!(
            item,
            KimiStreamItem::Event(ResponseEvent::OutputItemDone(ResponseItem::Message { content, .. }))
                if *content == vec![ContentItem::OutputText { text: shown.clone() }]
        )));
    }
}

#[test]
fn arguments_are_shown_as_they_are_committed() {
    let stream = [
        "data: {\"id\":\"chat-1\",\"choices\":[{\"index\":0,\"delta\":{\"tool_calls\":[{\"index\":1,\"id\":\"call-1\",\"type\":\"function\",\"function\":{\"arguments\":\"{\\\"b\\\"\"}},{\"index\":0,\"id\":\"call-0\",\"type\":\"function\",\"function\":{\"name\":\"first\",\"arguments\":\"{\"}}]}}]}\n\n",
        "data: {\"id\":\"chat-1\",\"choices\":[{\"index\":0,\"delta\":{\"tool_calls\":[{\"index\":1,\"function\":{\"name\":\"second\",\"arguments\":\":2\"}},{\"index\":0,\"function\":{\"arguments\":\"}\"}}]}}]}\n\n",
        "data: {\"id\":\"chat-1\",\"choices\":[{\"index\":0,\"delta\":{\"tool_calls\":[{\"index\":1,\"function\":{\"arguments\":\"}\"}}]},\"finish_reason\":\"tool_calls\"}]}\n\n",
        "data: [DONE]\n\n",
    ]
    .concat();
    let mut decoder = KimiStreamDecoder::new("k3".to_string());
    let mut shown = vec![Vec::new(), Vec::new()];
    for fragment in stream.as_bytes().chunks(11) {
        for event in decoder.feed(fragment).expect("valid stream fragment") {
            if let KimiStreamEvent::ToolCall { index, arguments_delta, .. } = event {
                shown[index].push(arguments_delta);
            }
        }
    }
    assert_eq!(shown, vec![vec!["{", "}"], vec!["{\"b\":2", "}"]]);
    let pending = decoder.finish().expect("valid Kimi stream").pending.expect("committable output");
    assert_eq!(pending.tool_calls, vec![call("call-0", "first", &shown[0].concat()), call("call-1", "second", &shown[1].concat())]);
}

#[test]
fn kimi_chunks_and_markers_may_give_their_fields_by_position() {
    let named = [
        "data: {\"id\":\"x\",\"choices\":[{\"index\":0,\"delta\":{\"tool_calls\":[{\"index\":0,\"id\":\"a\",\"type\":\"function\",\"function\":{\"name\":\"f\",\"arguments\":\"{}\"}}]},\"finish_reason\":\"tool_calls\"}],\"usage\":{\"prompt_tokens\":1,\"completion_tokens\":2,\"total_tokens\":3,\"prompt_tokens_details\":{\"cached_tokens\":4},\"completion_tokens_details\":{\"reasoning_tokens\":5}}}\n\n",
        "data: [DONE]\n\n",
    ]
    .concat();
    let placed = [
        "data: [\"x\",[]]\n\n",
        "data: [\"x\",[[0,{\"tool_calls\":[[0,\"a\",\"function\",[\"f\",\"{}\"]]]},\"tool_calls\"]],[1,2,3,null,null,[4],[5]]]\n\n",
        "data: [DONE]\n\n",
    ]
    .concat();
    assert!(decode(&named).is_ok());
    assert_eq!(decode(&placed), decode(&named));
    assert_eq!(
        decode("data: [\"x\"]\n\n").map_err(|error| match error {
            KimiStreamError::MalformedChunk(message) => message
                .starts_with("invalid length 1, expected struct Chunk with 3 elements"),
            _ => false,
        }),
        Err(true)
    );
    let read = |marker: &str| {
        KimiReasoning::from_persisted(String::new(), format!("codex:kimi-chat-reasoning:{marker}"))
            .and_then(|reasoning| reasoning.key())
    };
    assert_eq!(read(r#"[1,"kimi_chat","k3","reasoning"]"#), Ok(KimiReasoningKey::Reasoning));
    assert_eq!(read(r#"[1,"kimi_chat","k3"]"#), Err(KimiRequestError::MalformedReplayMarker));
    assert_eq!(read(r#"[1,"kimi_chat","k3","reasoning",0]"#), Err(KimiRequestError::MalformedReplayMarker));
}

fn feed_all(stream: &str, size: usize) -> (Result<Vec<KimiStreamEvent>, KimiStreamError>, bool) {
    let mut decoder = KimiStreamDecoder::new("k3".to_string());
    let mut events = Vec::new();
    for fragment in stream.as_bytes().chunks(size) {
        match decoder.feed(fragment) {
            Ok(more) => events.extend(more),
            Err(error) => return (Err(error), decoder.is_done()),
        }
    }
    let done = decoder.is_done();
    (decoder.finish().map(|_| events), done)
}

#[test]
fn cuts_and_line_ends_of_a_kimi_stream_do_not_matter() {
    let good = [
        ": comment é\n",
        "data: {\"id\":\"x\",\"choices\":[{\"index\":0,\"delta\":{\"content\":\"é\"}}]}\n\n",
        "data: {\"id\":\"x\",\"choices\":[{\"index\":0,\"delta\":{\"content\":\"!\"},\"finish_reason\":\"stop\"}]}\n\n",
        "data: [DONE]\n\n",
    ]
    .concat();
    let bad = "data: {\"id\":\"x\",\"choices\":[]}\n\nevent: ping\n\ndata: [DONE]\n\n".to_string();
    for stream in [good, bad] {
        let whole = feed_all(&stream, 100_000);
        for size in 1..40 {
            assert_eq!(feed_all(&stream, size), whole);
            assert_eq!(feed_all(&stream.replace('\n', "\r\n"), size), whole);
            assert_eq!(feed_all(&stream.replace('\n', "\r"), size), whole);
        }
    }
}

#[test]
fn a_kimi_stream_is_done_once_its_end_is_announced() {
    let mut decoder = KimiStreamDecoder::new("k3".to_string());
    assert_eq!(decoder.feed(b"data: {\"id\":\"x\",\"choices\":[]}\n\ndata: [DONE]\n"), Ok(Vec::new()));
    assert!(!decoder.is_done());
    assert_eq!(decoder.feed(b"\n"), Ok(Vec::new()));
    assert!(decoder.is_done());
    assert_eq!(decoder.feed(b": bye\n\n\r\n: again\r"), Ok(Vec::new()));
    assert!(decoder.is_done());
    assert_eq!(decoder.feed(b"data: more\n"), Ok(Vec::new()));
    assert_eq!(
        decoder.feed(b"\n"),
        Err(KimiStreamError::InvalidTransition("data followed [DONE]"))
    );
    assert!(decoder.is_done());
}

#[test]
fn a_run_of_events_announces_each_item_once() {
    let call = |index: usize, delta: &str| KimiStreamEvent::ToolCall {
        response_id: "x".to_string(),
        index,
        id: format!("call-{index}"),
        name: "f".to_string(),
        arguments_delta: delta.to_string(),
    };
    let text = |delta: &str| KimiStreamEvent::Content { response_id: "x".to_string(), delta: delta.to_string() };
    let mut state = PresentationState::new();
    let events = [call(1, ""), text("a"), call(0, "{"), call(1, "{"), text("b"), call(1, "}")];
    let mut told = Vec::new();
    for (number, event) in events.into_iter().enumerate() {
        told.extend(state.events(event, &number.to_string()));
    }
    let announced = told
        .iter()
        .filter_map(|event| match event {
            ResponseEvent::OutputItemAdded(ResponseItem::FunctionCall { id, call_id, .. }) => {
                Some((id.clone().unwrap_or_default(), call_id.clone()))
            }
            _ => None,
        })
        .collect::<Vec<_>>();
    assert_eq!(
        announced,
        vec![("fc_0".to_string(), "call-1".to_string()), ("fc_2".to_string(), "call-0".to_string())]
    );
    let deltas = told
        .iter()
        .filter_map(|event| match event {
            ResponseEvent::ToolCallInputDelta { item_id, delta, .. } => Some((item_id.as_str(), delta.as_str())),
            _ => None,
        })
        .collect::<Vec<_>>();
    assert_eq!(deltas, vec![("fc_2", "{"), ("fc_0", "{"), ("fc_0", "}")]);
    assert_eq!(told.len(), 3 + 2 + 3);
}
