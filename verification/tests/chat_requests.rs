use std::cell::RefCell;

use codex_dialects::chat_completions::dialect::{
    AssistantReasoningReplay, DialectContext, DialectError, DialectHooks, OpaqueReasoning, ReasoningDelta,
    UsageMergePolicy,
};
use codex_dialects::chat_completions::encoder::{encode_request, EncodeError, EncodeRequest};
use codex_dialects::chat_completions::types::{
    ChatCompletionsRequest, ChatMessage, ChunkUsage, FinishReason, MessageContent, UsageDetails,
};
use codex_dialects::fields::StringMap;
use codex_dialects::json::{parse_json, sort_json, Json};
use codex_dialects::protocol::{
    ContentItem, FunctionCallOutputBody, FunctionCallOutputContentItem, FunctionCallOutputPayload, ImageDetail,
    InferenceDialect, ReasoningItemContent, ReasoningItemReasoningSummary, ResponseItem, ResponsesApiTool,
    TerminalOutcome, ToolSpec,
};

type Extensions = StringMap<Json>;

struct RecordingDialect(RefCell<Vec<(InferenceDialect, String)>>);

impl RecordingDialect {
    fn new() -> Self {
        RecordingDialect(RefCell::new(Vec::new()))
    }

    fn record(&self, context: DialectContext<'_>) {
        self.0.borrow_mut().push((context.dialect, context.model.to_string()));
    }
}

fn one_field(name: &str, value: Json) -> Extensions {
    let mut fields = StringMap::new();
    fields.insert(name.to_string(), value);
    fields
}

fn object(entries: Vec<(&str, Json)>) -> Json {
    Json::Object(entries.into_iter().map(|(name, value)| (name.to_string(), value)).collect())
}

impl DialectHooks for RecordingDialect {
    fn request_extensions(&self, context: DialectContext<'_>) -> Result<Extensions, DialectError> {
        self.record(context);
        Ok(one_field(
            "dialect_request",
            object(vec![
                ("dialect", Json::Text(context.dialect.name().to_string())),
                ("model", Json::Text(context.model.to_string())),
            ]),
        ))
    }

    fn assistant_reasoning(
        &self,
        context: DialectContext<'_>,
        replay: AssistantReasoningReplay<'_>,
    ) -> Result<Extensions, DialectError> {
        self.record(context);
        let opaque = match replay.opaque {
            OpaqueReasoning::Absent => Json::Null,
            OpaqueReasoning::Other("malformed") => {
                return Err(DialectError::MalformedReplay("invalid fixture".into()));
            }
            OpaqueReasoning::Other(opaque) => Json::Text(opaque.to_string()),
        };
        let visible = replay.visible.iter().map(|text| Json::Text(text.to_string())).collect();
        Ok(one_field(
            "reasoning_content",
            object(vec![("visible", Json::Array(visible)), ("opaque", opaque)]),
        ))
    }

    fn reasoning_delta(
        &self,
        context: DialectContext<'_>,
        _extensions: &Extensions,
    ) -> Result<Option<ReasoningDelta>, DialectError> {
        self.record(context);
        Ok(None)
    }

    fn finish_reason(
        &self,
        context: DialectContext<'_>,
        reason: FinishReason,
    ) -> Result<TerminalOutcome, DialectError> {
        self.record(context);
        Ok(match reason {
            FinishReason::Stop => TerminalOutcome::Completed,
            FinishReason::ToolCalls | FinishReason::FunctionCall => TerminalOutcome::ToolsReady,
            FinishReason::Length | FinishReason::MaxTokens => TerminalOutcome::OutputExhausted,
            FinishReason::ContentFilter => TerminalOutcome::Refusal,
        })
    }

    fn usage_details(&self, context: DialectContext<'_>, _usage: &ChunkUsage) -> Result<UsageDetails, DialectError> {
        self.record(context);
        Ok(UsageDetails { cached_prompt_tokens: 0, reasoning_tokens: 0 })
    }

    fn usage_merge_policy(&self, _context: DialectContext<'_>) -> Result<UsageMergePolicy, DialectError> {
        Ok(UsageMergePolicy::RequireIdentical)
    }
}

fn json(text: &str) -> Json {
    parse_json(text).expect("JSON fixture")
}

fn message(role: &str, content: Vec<ContentItem>) -> ResponseItem {
    ResponseItem::Message { id: None, role: role.to_string(), content }
}

fn call(name: &str, arguments: &str, call_id: &str) -> ResponseItem {
    ResponseItem::FunctionCall {
        id: None,
        name: name.to_string(),
        namespace: None,
        arguments: arguments.to_string(),
        call_id: call_id.to_string(),
    }
}

fn output(call_id: &str, text: &str) -> ResponseItem {
    ResponseItem::FunctionCallOutput {
        call_id: call_id.to_string(),
        output: FunctionCallOutputPayload { body: FunctionCallOutputBody::Text(text.to_string()), success: None },
    }
}

fn reasoning(content: Option<Vec<ReasoningItemContent>>, encrypted: Option<&str>) -> ResponseItem {
    ResponseItem::Reasoning {
        id: None,
        summary: Vec::new(),
        content,
        encrypted_content: encrypted.map(|text| text.to_string()),
    }
}

fn encode<'a>(
    context: DialectContext<'a>,
    history: &'a [ResponseItem],
    tools: &'a [ToolSpec],
    dialect: &'a RecordingDialect,
) -> Result<ChatCompletionsRequest, EncodeError> {
    encode_request(EncodeRequest { context, system: Some("You are Codex."), history, tools, dialect })
}

fn openai() -> DialectContext<'static> {
    DialectContext { dialect: InferenceDialect::OpenAi, model: "kimi-looking-but-resolved-openai" }
}

#[test]
fn encodes_complete_ordered_request_parallel_calls_results_and_schema() {
    let history = [
        message(
            "user",
            vec![
                ContentItem::InputText { text: "inspect ".into() },
                ContentItem::InputImage { image_url: "data:image/png;base64,aGVsbG8=".into(), detail: None },
            ],
        ),
        reasoning(
            Some(vec![ReasoningItemContent::ReasoningText { text: "think exactly".into() }]),
            Some("replay-v1"),
        ),
        message("assistant", vec![ContentItem::OutputText { text: "Checking both.".into() }]),
        call("read", "{ \"path\": \"a\" }", "call-a"),
        call("read", "{\"path\":\"b\"}", "call-b"),
        output("call-b", "second result"),
        output("call-a", "first result"),
    ];
    let schema = r##"{
        "type":"object", "properties": {
            "target":{"$ref":"#/$defs/target"},
            "options":{"type":"array", "items":{"oneOf":[{"type":"string"}, {"type":"integer"}]}}
        },
        "required":["target"], "additionalProperties":false,
        "$defs":{"target":{"type":"string", "enum":["a", "b"]}}
    }"##;
    let tools = [ToolSpec::Function(ResponsesApiTool {
        name: "read".into(),
        description: "Read one target".into(),
        strict: true,
        defer_loading: None,
        parameters: json(schema),
        output_schema: None,
    })];
    let dialect = RecordingDialect::new();
    let context = DialectContext { dialect: InferenceDialect::Kimi, model: "gpt-looking-but-resolved-kimi" };
    let request = encode(context, &history, &tools, &dialect).expect("complete request");
    let expected = format!(
        "{}{}{}",
        r##"{
            "model":"gpt-looking-but-resolved-kimi",
            "messages":[
                {"role":"system", "content":"You are Codex."},
                {"role":"user", "content":[
                    {"type":"text", "text":"inspect "},
                    {"type":"image_url", "image_url":{"url":"data:image/png;base64,aGVsbG8="}}
                ]},
                {"role":"assistant", "content":"Checking both.",
                 "reasoning_content":{"visible":["think exactly"], "opaque":"replay-v1"},
                 "tool_calls":[
                    {"id":"call-a", "type":"function", "function":{"name":"read", "arguments":"{ \"path\": \"a\" }"}},
                    {"id":"call-b", "type":"function", "function":{"name":"read", "arguments":"{\"path\":\"b\"}"}}
                 ]},
                {"role":"tool", "tool_call_id":"call-b", "content":"second result"},
                {"role":"tool", "tool_call_id":"call-a", "content":"first result"}
            ],
            "tools":[{"type":"function", "function":{
                "name":"read", "description":"Read one target", "parameters":"##,
        schema,
        r##", "strict":true
            }}],
            "dialect_request":{"dialect":"kimi", "model":"gpt-looking-but-resolved-kimi"}
        }"##
    );
    assert_eq!(sort_json(&request.to_json()), json(&expected));
    assert_eq!(parse_json(&request.body()), Ok(json(&expected)));
    assert_eq!(dialect.0.into_inner(), vec![(context.dialect, context.model.to_string()); 2]);
}

#[test]
fn failures_are_typed_and_return_no_partial_request() {
    let dialect = RecordingDialect::new();
    let cases = [
        (
            call("tool", "[]", "bad"),
            EncodeError::InvalidToolArguments { call_id: "bad".into(), message: "expected a JSON object".into() },
        ),
        (output("missing", "orphan"), EncodeError::UnmatchedToolResult { call_id: "missing".into() }),
        (
            reasoning(None, Some("malformed")),
            EncodeError::Dialect(DialectError::MalformedReplay("invalid fixture".into())),
        ),
        (
            ResponseItem::CustomToolCall { call_id: "free".into(), name: "free".into(), input: "raw".into() },
            EncodeError::UnsupportedHistoryItem { index: 0, kind: "freeform tool call" },
        ),
    ];
    for (history, expected) in cases {
        assert_eq!(encode(openai(), &[history], &[], &dialect), Err(expected));
    }

    let unsupported = [ToolSpec::ToolSearch {
        execution: "server".into(),
        description: "search".into(),
        parameters: Json::Object(Vec::new()),
    }];
    assert_eq!(
        encode(openai(), &[], &unsupported, &dialect),
        Err(EncodeError::UnsupportedTool { index: 0, kind: "tool search" })
    );
}

#[test]
fn unmatched_and_repeated_calls_are_refused() {
    let dialect = RecordingDialect::new();
    let twice = [call("read", "{}", "same"), call("read", "{}", "same")];
    assert_eq!(
        encode(openai(), &twice, &[], &dialect),
        Err(EncodeError::DuplicateToolCall { call_id: "same".into() })
    );
    let answered_twice = [call("read", "{}", "one"), output("one", "first"), output("one", "second")];
    assert_eq!(
        encode(openai(), &answered_twice, &[], &dialect),
        Err(EncodeError::UnmatchedToolResult { call_id: "one".into() })
    );
    let again = [call("read", "{}", "one"), output("one", "first"), call("read", "{}", "one")];
    assert!(encode(openai(), &again, &[], &dialect).is_ok());
}

#[test]
fn arguments_that_are_no_json_say_why() {
    let dialect = RecordingDialect::new();
    assert_eq!(
        encode(openai(), &[call("tool", "{", "bad")], &[], &dialect),
        Err(EncodeError::InvalidToolArguments {
            call_id: "bad".into(),
            message: "EOF while parsing an object at line 1 column 1".into(),
        })
    );
}

#[test]
fn an_empty_model_is_refused_before_the_dialect_is_asked() {
    let dialect = RecordingDialect::new();
    let context = DialectContext { dialect: InferenceDialect::Kimi, model: "" };
    assert_eq!(encode(context, &[], &[], &dialect), Err(EncodeError::EmptyModel));
    assert!(dialect.0.into_inner().is_empty());
}

#[test]
fn unsupported_items_and_contents_are_named() {
    let dialect = RecordingDialect::new();
    let items = [
        (ResponseItem::AdditionalTools, "additional tools"),
        (
            ResponseItem::AgentMessage { author: "a".into(), recipient: "b".into(), content: Vec::new() },
            "structured agent message",
        ),
        (ResponseItem::LocalShellCall, "local shell call"),
        (ResponseItem::ToolSearchCall, "hosted tool search"),
        (ResponseItem::WebSearchCall, "hosted web search"),
        (ResponseItem::ImageGenerationCall, "image generation"),
        (ResponseItem::CompactionTrigger, "compaction trigger"),
        (ResponseItem::Other, "unknown input"),
        (message("system", Vec::new()), "message role"),
    ];
    for (item, kind) in items {
        assert_eq!(
            encode(openai(), &[item], &[], &dialect),
            Err(EncodeError::UnsupportedHistoryItem { index: 0, kind })
        );
    }
    let audio = message("user", vec![ContentItem::InputAudio { audio_url: "data:audio/wav;base64,AA==".into() }]);
    assert_eq!(
        encode(openai(), &[audio], &[], &dialect),
        Err(EncodeError::UnsupportedContent { item_index: 0, block_index: 0, kind: "audio" })
    );
    let wrong = message("assistant", vec![ContentItem::InputText { text: "wrong role".into() }]);
    assert_eq!(
        encode(openai(), &[wrong], &[], &dialect),
        Err(EncodeError::UnsupportedContent {
            item_index: 0,
            block_index: 0,
            kind: "content role/type combination",
        })
    );
}

#[test]
fn tool_results_keep_their_parts_and_details() {
    let dialect = RecordingDialect::new();
    let parts = ResponseItem::FunctionCallOutput {
        call_id: "one".into(),
        output: FunctionCallOutputPayload {
            body: FunctionCallOutputBody::ContentItems(vec![
                FunctionCallOutputContentItem::InputText { text: "first".into() },
                FunctionCallOutputContentItem::InputImage {
                    image_url: "https://example.test/a.png".into(),
                    detail: Some(ImageDetail::High),
                },
            ]),
            success: Some(true),
        },
    };
    let request = encode(openai(), &[call("read", "{}", "one"), parts], &[], &dialect).expect("tool result parts");
    assert_eq!(
        sort_json(&request.messages[2].to_json()),
        json(
            r#"{"role":"tool","tool_call_id":"one","content":[
                {"type":"text","text":"first"},
                {"type":"image_url","image_url":{"url":"https://example.test/a.png","detail":"high"}}
            ]}"#
        )
    );
}

#[test]
fn a_summary_stands_in_for_missing_reasoning() {
    let dialect = RecordingDialect::new();
    let item = ResponseItem::Reasoning {
        id: None,
        summary: vec![ReasoningItemReasoningSummary::SummaryText { text: "in short".into() }],
        content: None,
        encrypted_content: None,
    };
    let request = encode(openai(), &[item], &[], &dialect).expect("summary replay");
    let ChatMessage::Assistant(assistant) = &request.messages[1] else {
        panic!("assistant message");
    };
    assert_eq!(
        assistant.reasoning.get("reasoning_content").map(sort_json),
        Some(json(r#"{"visible":["in short"],"opaque":null}"#))
    );
}

#[test]
fn texts_of_one_turn_are_joined() {
    let dialect = RecordingDialect::new();
    let history = [
        message("user", vec![ContentItem::InputText { text: "a".into() }, ContentItem::InputText { text: "b".into() }]),
        message("assistant", vec![ContentItem::OutputText { text: "one ".into() }]),
        message("assistant", vec![ContentItem::OutputText { text: "two".into() }]),
    ];
    let request = encode(openai(), &history, &[], &dialect).expect("joined texts");
    assert_eq!(request.messages.len(), 3);
    let ChatMessage::Assistant(assistant) = &request.messages[2] else {
        panic!("assistant message");
    };
    assert_eq!(assistant.content.as_deref(), Some("one two"));
    assert!(matches!(&request.messages[0], ChatMessage::System { content: MessageContent::Text(text) } if text == "You are Codex."));
}

struct GreedyDialect(&'static str);

impl DialectHooks for GreedyDialect {
    fn request_extensions(&self, _context: DialectContext<'_>) -> Result<Extensions, DialectError> {
        Ok(one_field(self.0, Json::Null))
    }

    fn assistant_reasoning(
        &self,
        _context: DialectContext<'_>,
        _replay: AssistantReasoningReplay<'_>,
    ) -> Result<Extensions, DialectError> {
        Ok(one_field(self.0, Json::Null))
    }

    fn reasoning_delta(
        &self,
        _context: DialectContext<'_>,
        _extensions: &Extensions,
    ) -> Result<Option<ReasoningDelta>, DialectError> {
        Ok(None)
    }

    fn finish_reason(
        &self,
        _context: DialectContext<'_>,
        _reason: FinishReason,
    ) -> Result<TerminalOutcome, DialectError> {
        Ok(TerminalOutcome::Completed)
    }

    fn usage_details(&self, _context: DialectContext<'_>, _usage: &ChunkUsage) -> Result<UsageDetails, DialectError> {
        Ok(UsageDetails { cached_prompt_tokens: 0, reasoning_tokens: 0 })
    }

    fn usage_merge_policy(&self, _context: DialectContext<'_>) -> Result<UsageMergePolicy, DialectError> {
        Ok(UsageMergePolicy::PreferLatest)
    }
}

fn encode_greedy(dialect: &GreedyDialect, history: &[ResponseItem]) -> Result<ChatCompletionsRequest, EncodeError> {
    encode_request(EncodeRequest { context: openai(), system: None, history, tools: &[], dialect })
}

#[test]
fn a_dialect_cannot_take_fields_of_the_request() {
    assert_eq!(
        encode_greedy(&GreedyDialect("messages"), &[]),
        Err(EncodeError::ReservedExtension { target: "request", field: "messages".into() })
    );
    let thought = [reasoning(None, None)];
    assert_eq!(
        encode_greedy(&GreedyDialect("content"), &thought),
        Err(EncodeError::ReservedExtension { target: "assistant", field: "content".into() })
    );
    let twice = [reasoning(None, None), reasoning(None, None)];
    assert_eq!(
        encode_greedy(&GreedyDialect("own"), &twice),
        Err(EncodeError::ReservedExtension { target: "assistant reasoning", field: "own".into() })
    );
    assert!(encode_greedy(&GreedyDialect("own"), &thought).is_ok());
}
