use codex_dialects::claude_code::encoder::{encode_request, CanonicalOutputSchema, EncodeError, EncodeRequest};
use codex_dialects::claude_code::history::encode_history;
use codex_dialects::claude_code::identity::{ClaudeCodeIdentity, ClaudeCodeRequestKind};
use codex_dialects::claude_code::opus_compatibility::{
    ClaudeCodeEnvironment, OpusCompatibilityContext, OpusEnvironment, OpusRequestKind,
};
use codex_dialects::claude_code::policy::{assemble_request, session_text, AssembleError, AssembleRequest};
use codex_dialects::claude_code::replay::{
    decode_thinking_replay, encode_thinking_replay, ReplayDecision, ReplayError, ThinkingReplayBlock,
};
use codex_dialects::claude_code::sonnet_compatibility::{SonnetCompatibilityContext, SonnetPrompt};
use codex_dialects::api::ResponseEvent;
use codex_dialects::claude_code::transport::{canonical_events, request_headers, request_path};
use codex_dialects::claude_code::types::{
    AssembledRequest, CacheControl, CacheTtl, ContentBlock, DecodedBlock, DecodedStream, ImageSource, Message,
    OutputConfig, OutputEffort, Role, SystemBlock, Thinking, ThinkingDisplay, ToolResultBlock, ToolResultContent,
    Usage,
};
use codex_dialects::json::{parse_json, sort_json, Json};
use codex_dialects::protocol::{
    AgentMessageInputContent, AnthropicThinkingPolicy, ContentItem, FreeformTool, FreeformToolFormat,
    FunctionCallOutputBody, FunctionCallOutputContentItem, FunctionCallOutputPayload, InferenceDialect,
    ModelInferenceConfig, ReasoningEffort, ReasoningItemContent, ResponseItem, ResponsesApiTool, TerminalOutcome,
    TokenUsage, ToolSpec, WireApi,
};

const SESSION: &str = "019fbf00-0000-7000-8000-000000000043";
const THREAD: &str = "019fbf00-0000-7000-8000-000000000044";
const INSTALLATION: &str = "019fbf00-0000-7000-8000-000000000045";

fn family() -> String {
    "claude_code".split('_').next().unwrap_or_default().to_string()
}

fn title() -> String {
    let name = family();
    name[..1].to_uppercase() + &name[1..]
}

fn model(rest: &str) -> String {
    format!("{}-{rest}", family())
}

fn header(rest: &str) -> String {
    format!("x-{}-code-{rest}", family())
}

fn json(text: &str) -> Json {
    parse_json(text).expect("JSON fixture")
}

fn anthropic(
    model: &str,
    max_output_tokens: u32,
    thinking: AnthropicThinkingPolicy,
    supports_disabled_thinking: bool,
) -> ModelInferenceConfig {
    ModelInferenceConfig::Anthropic {
        wire_api: WireApi::AnthropicMessages,
        dialect: InferenceDialect::ClaudeCode,
        route: "claude_code".to_string(),
        wire_model: model.to_string(),
        max_output_tokens,
        thinking,
        supports_disabled_thinking,
    }
}

fn adaptive(model: &str, supports_disabled_thinking: bool) -> ModelInferenceConfig {
    anthropic(model, 64_000, AnthropicThinkingPolicy::Adaptive, supports_disabled_thinking)
}

fn system(text: &str, cache_control: Option<CacheControl>) -> SystemBlock {
    SystemBlock::Text { text: text.to_string(), cache_control }
}

fn text_block(text: &str, cache_control: Option<CacheControl>) -> ContentBlock {
    ContentBlock::Text { text: text.to_string(), cache_control }
}

fn user_text(text: &str, cache_control: Option<CacheControl>) -> Message {
    Message { role: Role::User, content: vec![text_block(text, cache_control)] }
}

fn one_hour() -> Option<CacheControl> {
    Some(CacheControl::Ephemeral { ttl: Some(CacheTtl::OneHour) })
}

fn function_tool(name: &str) -> ToolSpec {
    ToolSpec::Function(ResponsesApiTool {
        name: name.to_string(),
        description: format!("Run {name}"),
        strict: true,
        defer_loading: None,
        parameters: json(
            r#"{"type":"object","properties":{"path":{"type":"string"}},"required":["path"],"additionalProperties":false}"#,
        ),
        output_schema: None,
    })
}

fn environment() -> ClaudeCodeEnvironment {
    ClaudeCodeEnvironment {
        cwd: "/workspace/project".to_string(),
        is_git_repository: true,
        platform: "linux".to_string(),
        architecture: "x86_64".to_string(),
        shell: "bash".to_string(),
        os_version: "Linux test".to_string(),
    }
}

fn assemble(
    profile: &ModelInferenceConfig,
    effort: &ReasoningEffort,
    messages: &[Message],
    system: &[SystemBlock],
    tools: &[ToolSpec],
) -> Result<AssembledRequest, AssembleError> {
    assemble_request(AssembleRequest {
        profile,
        effort,
        messages,
        system,
        tools,
        resumable_session_id: SESSION,
        codex_version: "0.153.4",
        opus_compatibility: None,
        sonnet_compatibility: None,
    })
}

fn cache_control_count(value: &Json) -> usize {
    match value {
        Json::Array(values) => values.iter().map(cache_control_count).sum(),
        Json::Object(entries) => {
            entries.iter().filter(|entry| entry.0 == "cache_control").count()
                + entries.iter().map(|entry| cache_control_count(&entry.1)).sum::<usize>()
        }
        _ => 0,
    }
}

fn header_of<'a>(request: &'a AssembledRequest, name: &str) -> Option<&'a str> {
    request.transport.headers.get(name).map(|value| value.as_str())
}

#[test]
fn assembles_haiku_policy_headers_and_bounded_cache_breakpoints() {
    let five_minutes = Some(CacheControl::Ephemeral { ttl: Some(CacheTtl::FiveMinutes) });
    let systems = (0..6).map(|index| system(&format!("system {index}"), five_minutes)).collect::<Vec<_>>();
    let messages = vec![
        user_text("old", five_minutes),
        Message { role: Role::Assistant, content: vec![text_block("answer", five_minutes)] },
        user_text("latest", five_minutes),
    ];
    let tools = vec![function_tool("read"), function_tool("write")];
    let request = assemble(
        &anthropic(
            &model("haiku-4-5-20251001"),
            32_000,
            AnthropicThinkingPolicy::Budgeted { budget_tokens: 31_999 },
            true,
        ),
        &ReasoningEffort::High,
        &messages,
        &systems,
        &tools,
    )
    .expect("assemble Haiku request");

    assert_eq!(request.transport.method, "POST");
    assert_eq!(request.transport.path, "/v1/messages");
    assert_eq!(request.transport.query.get("beta").map(|value| value.as_str()), Some("true"));
    assert_eq!(header_of(&request, "User-Agent"), Some("codex-cli/0.153.4"));
    assert_eq!(header_of(&request, "x-app"), Some("codex"));
    assert_eq!(request.body.max_tokens, 32_000);
    assert_eq!(
        request.body.thinking,
        Thinking::Enabled { budget_tokens: 31_999, display: ThinkingDisplay::Omitted }
    );
    assert_eq!(request.body.output_config, None);
    assert_eq!(
        request.body.tools[0].input_schema,
        json(
            r#"{"type":"object","properties":{"path":{"type":"string"}},"required":["path"],"additionalProperties":false}"#
        )
    );
    assert_eq!(request.body.tools.iter().map(|tool| tool.cache_control).collect::<Vec<_>>(), vec![None, None]);
    assert_eq!(cache_control_count(&request.body.to_json()), 2);
    assert_eq!(
        request.body.system.iter().map(|block| sort_json(&block.to_json())).collect::<Vec<_>>(),
        vec![
            json(r#"{"type":"text","text":"system 0"}"#),
            json(r#"{"type":"text","text":"system 1"}"#),
            json(r#"{"type":"text","text":"system 2"}"#),
            json(r#"{"type":"text","text":"system 3"}"#),
            json(r#"{"type":"text","text":"system 4"}"#),
            json(r#"{"type":"text","text":"system 5","cache_control":{"type":"ephemeral","ttl":"1h"}}"#),
        ]
    );
}

#[test]
fn thinking_policy_maps_all_supported_efforts_and_omits_disabled_context_management() {
    let profile = adaptive(&model("opus-4-8"), true);
    for (effort, output_effort) in [
        (ReasoningEffort::Minimal, OutputEffort::Low),
        (ReasoningEffort::Low, OutputEffort::Low),
        (ReasoningEffort::Medium, OutputEffort::Medium),
        (ReasoningEffort::High, OutputEffort::High),
        (ReasoningEffort::XHigh, OutputEffort::Xhigh),
        (ReasoningEffort::Max, OutputEffort::Max),
    ] {
        let request = assemble(&profile, &effort, &[], &[], &[]).expect("adaptive request");
        assert_eq!(
            (request.body.thinking, request.body.output_config),
            (
                Thinking::Adaptive { display: Some(ThinkingDisplay::Omitted) },
                Some(OutputConfig { effort: output_effort }),
            )
        );
        assert!(request.body.context_management.is_some());
    }

    let disabled = assemble(&profile, &ReasoningEffort::Off, &[], &[], &[]).expect("disabled thinking");
    assert_eq!(disabled.body.thinking, Thinking::Disabled);
    assert_eq!(disabled.body.output_config, None);
    assert_eq!(disabled.body.context_management, None);

    assert_eq!(
        assemble(&adaptive(&model("fable-5"), false), &ReasoningEffort::Off, &[], &[], &[]),
        Err(AssembleError::DisabledThinkingUnsupported { model: model("fable-5") })
    );
}

fn opus_context(kind: OpusRequestKind) -> OpusCompatibilityContext {
    OpusCompatibilityContext {
        kind,
        session_id: SESSION.to_string(),
        thread_id: THREAD.to_string(),
        installation_id: INSTALLATION.to_string(),
        environment: environment(),
    }
}

#[test]
fn compatibility_profiles_preserve_effort_and_exact_identity_shapes() {
    let tools = [function_tool("read")];
    let messages = [user_text("inspect", None)];
    let opus = opus_context(OpusRequestKind::Subagent);
    let opus_request = assemble_request(AssembleRequest {
        profile: &adaptive(&model("opus-5"), true),
        effort: &ReasoningEffort::Max,
        messages: &messages,
        system: &[system("replaced", None)],
        tools: &tools,
        resumable_session_id: SESSION,
        codex_version: "ignored",
        opus_compatibility: Some(&opus),
        sonnet_compatibility: None,
    })
    .expect("Opus request");
    assert_eq!(opus_request.body.max_tokens, 64_000);
    assert_eq!(opus_request.body.thinking, Thinking::Adaptive { display: None });
    assert_eq!(opus_request.body.output_config, Some(OutputConfig { effort: OutputEffort::Max }));
    assert_eq!(
        header_of(&opus_request, "User-Agent"),
        Some(format!("{}-cli/2.1.224 (external, cli)", family()).as_str())
    );
    assert_eq!(header_of(&opus_request, "x-app"), Some("cli"));
    assert_eq!(header_of(&opus_request, &header("session-id")), Some(SESSION));
    assert!(header_of(&opus_request, &header("agent-id"))
        .is_some_and(|value| value.len() == 17 && value.starts_with('a')));
    assert_eq!(cache_control_count(&opus_request.body.to_json()), 3);
    assert!(
        matches!(&opus_request.body.system[0], SystemBlock::Text { text, cache_control: None } if text.contains("cc_is_subagent=true"))
    );

    let sonnet = SonnetCompatibilityContext {
        identity: ClaudeCodeIdentity {
            kind: ClaudeCodeRequestKind::Root,
            session_id: SESSION.to_string(),
            thread_id: "019fbf00-0000-7000-8000-000000000046".to_string(),
        },
        prompt: Some(SonnetPrompt { installation_id: INSTALLATION.to_string(), environment: environment() }),
    };
    let sonnet_request = assemble_request(AssembleRequest {
        profile: &adaptive(&model("sonnet-5"), true),
        effort: &ReasoningEffort::Low,
        messages: &messages,
        system: &[],
        tools: &tools,
        resumable_session_id: SESSION,
        codex_version: "ignored",
        opus_compatibility: None,
        sonnet_compatibility: Some(&sonnet),
    })
    .expect("Sonnet request");
    assert_eq!(sonnet_request.body.output_config, Some(OutputConfig { effort: OutputEffort::Low }));
    assert_eq!(
        header_of(&sonnet_request, "User-Agent"),
        Some(format!("{}-cli/2.1.223 (external, cli)", family()).as_str())
    );
    assert!(!sonnet_request.transport.headers.contains_key(&header("agent-id")));
    let expected = format!("You are {} Code, Anthropic's official CLI for {}.", title(), title());
    assert!(
        matches!(&sonnet_request.body.system[1], SystemBlock::Text { text, .. } if *text == expected)
    );
}

#[test]
fn identities_are_derived_in_a_stable_way() {
    let opus = opus_context(OpusRequestKind::Subagent);
    let request = assemble_request(AssembleRequest {
        profile: &adaptive(&model("opus-5"), true),
        effort: &ReasoningEffort::High,
        messages: &[],
        system: &[],
        tools: &[],
        resumable_session_id: "not looked at",
        codex_version: "ignored",
        opus_compatibility: Some(&opus),
        sonnet_compatibility: None,
    })
    .expect("Opus request");
    assert_eq!(header_of(&request, &header("agent-id")), Some("ae6597ba9beaf540b"));
    let user_id = request.body.metadata.and_then(|metadata| metadata.user_id).expect("user");
    assert_eq!(
        user_id,
        format!(
            r#"{{"account_uuid":"","device_id":"{}{}","session_id":"{SESSION}"}}"#,
            "44d65f01bf9657d08f945ea7ed5ee693", "866b17d2d4e15f689d1381499c76ad4e"
        )
    );
}

#[test]
fn sessions_are_derived_from_resumable_sessions() {
    let request = assemble(&adaptive(&model("opus-4-8"), true), &ReasoningEffort::Medium, &[], &[], &[])
        .expect("native request");
    assert_eq!(
        header_of(&request, &header("session-id")),
        Some("be0be928-3354-5656-a778-823cfe32886f")
    );
    assert_eq!(
        session_text(Some(0x019fbf00_0000_7000_8000_000000000043)).as_deref(),
        Some("be0be928-3354-5656-a778-823cfe32886f")
    );
    assert_eq!(session_text(None), None);
    let refused = assemble_request(AssembleRequest {
        profile: &adaptive(&model("opus-4-8"), true),
        effort: &ReasoningEffort::Medium,
        messages: &[],
        system: &[],
        tools: &[],
        resumable_session_id: "no session",
        codex_version: "0",
        opus_compatibility: None,
        sonnet_compatibility: None,
    });
    assert_eq!(refused, Err(AssembleError::InvalidSessionId { session_id: "no session".to_string() }));
}

#[test]
fn rejects_incompatible_routes_unsupported_tools_and_invalid_native_blocks() {
    let non_anthropic = ModelInferenceConfig::OpenAi {
        wire_api: WireApi::Responses,
        dialect: InferenceDialect::OpenAi,
        route: "openai".to_string(),
        wire_model: "gpt-test".to_string(),
    };
    assert_eq!(
        assemble(&non_anthropic, &ReasoningEffort::Medium, &[], &[], &[]),
        Err(AssembleError::NotAnthropicModel)
    );
    let incompatible = ModelInferenceConfig::Anthropic {
        wire_api: WireApi::Responses,
        dialect: InferenceDialect::ClaudeCode,
        route: "claude_code".to_string(),
        wire_model: model("opus-4-8"),
        max_output_tokens: 64_000,
        thinking: AnthropicThinkingPolicy::Adaptive,
        supports_disabled_thinking: true,
    };
    assert_eq!(
        assemble(&incompatible, &ReasoningEffort::Medium, &[], &[], &[]),
        Err(AssembleError::UnsupportedRouteContract {
            wire_api: WireApi::Responses,
            dialect: InferenceDialect::ClaudeCode,
        })
    );
    assert_eq!(
        assemble(
            &adaptive(&model("opus-4-8"), true),
            &ReasoningEffort::Medium,
            &[],
            &[],
            &[ToolSpec::Freeform(FreeformTool {
                name: "patch".to_string(),
                description: "Apply a patch".to_string(),
                defer_loading: None,
                format: FreeformToolFormat {
                    kind: "grammar".to_string(),
                    syntax: "lark".to_string(),
                    definition: "start: /.+/".to_string(),
                },
            })],
        ),
        Err(AssembleError::UnsupportedTool { index: 0, kind: "freeform", name: "patch".to_string() })
    );
    let invalid = [Message {
        role: Role::User,
        content: vec![ContentBlock::ToolUse {
            id: "call".to_string(),
            name: "read".to_string(),
            input: Json::Object(Vec::new()),
        }],
    }];
    assert_eq!(
        assemble(&adaptive(&model("opus-4-8"), true), &ReasoningEffort::Medium, &invalid, &[], &[]),
        Err(AssembleError::UnsupportedNativeBlock { index: 0, role: "user", kind: "tool use" })
    );
}

#[test]
fn efforts_and_profiles_that_do_not_fit_are_refused() {
    for effort in [ReasoningEffort::Ultra, ReasoningEffort::Persistent, ReasoningEffort::Custom("own".to_string())] {
        let name = effort.name().to_string();
        assert_eq!(
            assemble(&adaptive(&model("opus-4-8"), true), &effort, &[], &[], &[]),
            Err(AssembleError::UnsupportedEffort { effort: name })
        );
    }
    let error = assemble(&adaptive(&model("opus-5"), true), &ReasoningEffort::High, &[], &[], &[])
        .expect_err("Opus without its profile");
    assert_eq!(error, AssembleError::MissingOpusCompatibilityContext);
    assert_eq!(
        error.message(),
        format!("{} requires a {} Code compatibility context", model("opus-5"), title())
    );
}

fn sonnet_context(kind: ClaudeCodeRequestKind) -> SonnetCompatibilityContext {
    SonnetCompatibilityContext {
        identity: ClaudeCodeIdentity { kind, session_id: SESSION.to_string(), thread_id: THREAD.to_string() },
        prompt: None,
    }
}

fn sonnet_request(context: Option<&SonnetCompatibilityContext>) -> AssembledRequest {
    let profile = adaptive(&model("sonnet-5"), true);
    let system = [system("Preserve this native system prompt.", None)];
    let messages = [
        user_text("Inspect the workspace.", None),
        Message {
            role: Role::Assistant,
            content: vec![ContentBlock::ToolUse {
                id: "call-1".to_string(),
                name: "read".to_string(),
                input: json(r#"{"path":"src/lib.rs"}"#),
            }],
        },
        Message {
            role: Role::User,
            content: vec![ContentBlock::ToolResult {
                tool_use_id: "call-1".to_string(),
                content: ToolResultContent::Text("contents".to_string()),
                is_error: false,
                cache_control: None,
            }],
        },
    ];
    let tools = [ToolSpec::Function(ResponsesApiTool {
        name: "read".to_string(),
        description: "Read a file".to_string(),
        strict: true,
        defer_loading: None,
        parameters: json(
            r#"{"type":"object","properties":{"path":{"type":"string"}},"required":["path"],"additionalProperties":false}"#,
        ),
        output_schema: None,
    })];
    assemble_request(AssembleRequest {
        profile: &profile,
        effort: &ReasoningEffort::High,
        messages: &messages,
        system: &system,
        tools: &tools,
        resumable_session_id: SESSION,
        codex_version: "0.146.0",
        opus_compatibility: None,
        sonnet_compatibility: context,
    })
    .expect("assemble Sonnet request")
}

#[test]
fn snapshots_complete_sonnet_root_and_subagent_requests() {
    let root = sonnet_request(Some(&sonnet_context(ClaudeCodeRequestKind::Root)));
    let subagent = sonnet_request(Some(&sonnet_context(ClaudeCodeRequestKind::Subagent)));
    let body = format!(
        r#"{{
            "model":"{}","max_tokens":64000,"stream":true,
            "system":[{{"type":"text","text":"Preserve this native system prompt.","cache_control":{{"type":"ephemeral","ttl":"1h"}}}}],
            "messages":[
                {{"role":"user","content":[{{"type":"text","text":"Inspect the workspace."}}]}},
                {{"role":"assistant","content":[{{"type":"tool_use","id":"call-1","name":"read","input":{{"path":"src/lib.rs"}}}}]}},
                {{"role":"user","content":[{{"type":"tool_result","tool_use_id":"call-1","content":"contents","is_error":false,"cache_control":{{"type":"ephemeral","ttl":"1h"}}}}]}}
            ],
            "tools":[{{"name":"read","description":"Read a file","input_schema":{{"type":"object","properties":{{"path":{{"type":"string"}}}},"required":["path"],"additionalProperties":false}}}}],
            "thinking":{{"type":"adaptive","display":"omitted"}},
            "output_config":{{"effort":"high"}},
            "context_management":{{"edits":[{{"type":"clear_thinking_20251015","keep":"all"}}]}}
        }}"#,
        model("sonnet-5")
    );
    assert_eq!(sort_json(&root.body.to_json()), json(&body));
    assert_eq!(sort_json(&subagent.body.to_json()), json(&body));
    assert_eq!(parse_json(&root.body.body()), Ok(json(&body)));

    let betas = format!(
        "{}-code-20250219,interleaved-thinking-2025-05-14,redact-thinking-2026-02-12,thinking-token-count-2026-05-13,context-management-2025-06-27,prompt-caching-scope-2026-01-05,mid-conversation-system-2026-04-07,advisor-tool-2026-03-01,effort-2025-11-24",
        family()
    );
    let mut expected = vec![
        ("User-Agent".to_string(), format!("{}-cli/2.1.223 (external, cli)", family())),
        ("accept".to_string(), "application/json".to_string()),
        ("anthropic-beta".to_string(), betas),
        ("anthropic-dangerous-direct-browser-access".to_string(), "true".to_string()),
        ("anthropic-version".to_string(), "2023-06-01".to_string()),
        ("x-app".to_string(), "cli".to_string()),
        (header("session-id"), SESSION.to_string()),
        ("x-stainless-arch".to_string(), "x64".to_string()),
        ("x-stainless-lang".to_string(), "js".to_string()),
        ("x-stainless-os".to_string(), "Linux".to_string()),
        ("x-stainless-package-version".to_string(), "0.94.0".to_string()),
        ("x-stainless-retry-count".to_string(), "0".to_string()),
        ("x-stainless-runtime".to_string(), "node".to_string()),
        ("x-stainless-runtime-version".to_string(), "v26.3.0".to_string()),
        ("x-stainless-timeout".to_string(), "600".to_string()),
    ];
    let entries = |request: &AssembledRequest| {
        (0..request.transport.headers.len())
            .map(|index| request.transport.headers.entry(index).clone())
            .collect::<Vec<_>>()
    };
    expected.sort();
    assert_eq!(entries(&root), expected);
    expected.push((header("agent-id"), "ae6597ba9beaf540b".to_string()));
    expected.sort();
    assert_eq!(entries(&subagent), expected);
}

#[test]
fn sonnet_compatibility_changes_only_transport_headers() {
    let native = sonnet_request(None);
    let root = sonnet_request(Some(&sonnet_context(ClaudeCodeRequestKind::Root)));
    let subagent = sonnet_request(Some(&sonnet_context(ClaudeCodeRequestKind::Subagent)));

    assert_eq!(root.body.body(), native.body.body());
    assert_eq!(subagent.body.body(), native.body.body());
    assert!(!root.transport.headers.contains_key(&header("agent-id")));
    let agent_id = header_of(&subagent, &header("agent-id")).expect("subagent agent ID");
    assert_eq!(agent_id.len(), 17);
    assert!(agent_id.starts_with('a'));
    assert!(agent_id[1..].bytes().all(|byte| byte.is_ascii_hexdigit()));
    assert!(agent_id[1..].bytes().all(|byte| !byte.is_ascii_uppercase()));
}

#[test]
fn prompts_tell_the_environment() {
    let request = |kind: OpusRequestKind| {
        assemble_request(AssembleRequest {
            profile: &adaptive(&model("opus-5"), true),
            effort: &ReasoningEffort::High,
            messages: &[],
            system: &[],
            tools: &[],
            resumable_session_id: SESSION,
            codex_version: "ignored",
            opus_compatibility: Some(&opus_context(kind)),
            sonnet_compatibility: None,
        })
        .expect("Opus request")
    };
    let root = request(OpusRequestKind::Root);
    let SystemBlock::Text { text, .. } = &root.body.system[2];
    assert!(text.starts_with("\nYou are an interactive agent that helps users with software engineering tasks."));
    assert!(text.contains(" - Primary working directory: /workspace/project\n - Is a git repository: true\n - Platform: linux\n - Shell: bash\n - OS Version: Linux test\n"));
    assert!(text.contains(&format!("The exact model ID is {}[1m].\n", model("opus-5"))));
    assert!(text.contains(&format!(
        "Model IDs — Fable 5: '{}', Opus 5: '{}', Sonnet 5: '{}', Haiku 4.5: '{}'. When building AI applications, default to the latest and most capable {} models.\n",
        model("fable-5"),
        model("opus-5"),
        model("sonnet-5"),
        model("haiku-4-5-20251001"),
        title()
    )));
    let subagent = request(OpusRequestKind::Subagent);
    let SystemBlock::Text { text, .. } = &subagent.body.system[2];
    assert!(text.starts_with(&format!(
        "You are an agent for {} Code, Anthropic's official CLI for {}. Given the user's message,",
        title(),
        title()
    )));
    assert!(text.contains("<env>\nWorking directory: /workspace/project\nIs directory a git repo: Yes\nPlatform: linux\n"));
    assert!(text.contains("Assistant knowledge cutoff is May 2026."));
}

fn message(role: &str, content: Vec<ContentItem>) -> ResponseItem {
    ResponseItem::Message { id: None, role: role.to_string(), content }
}

fn call(call_id: &str, name: &str, arguments: &str) -> ResponseItem {
    ResponseItem::FunctionCall {
        id: None,
        name: name.to_string(),
        namespace: None,
        arguments: arguments.to_string(),
        call_id: call_id.to_string(),
    }
}

fn result(call_id: &str, body: FunctionCallOutputBody, success: bool) -> ResponseItem {
    ResponseItem::FunctionCallOutput {
        call_id: call_id.to_string(),
        output: FunctionCallOutputPayload { body, success: Some(success) },
    }
}

fn encode_for(profile: &ModelInferenceConfig, history: &[ResponseItem]) -> Result<AssembledRequest, EncodeError> {
    let opus_compatibility = match profile {
        ModelInferenceConfig::Anthropic { wire_model, .. } if *wire_model == model("opus-5") => {
            Some(OpusCompatibilityContext {
                kind: OpusRequestKind::Root,
                session_id: SESSION.to_string(),
                thread_id: THREAD.to_string(),
                installation_id: INSTALLATION.to_string(),
                environment: OpusEnvironment {
                    cwd: "/workspace/project".to_string(),
                    is_git_repository: true,
                    platform: "linux".to_string(),
                    architecture: "x86_64".to_string(),
                    shell: "bash".to_string(),
                    os_version: "Linux 6.17.0-test".to_string(),
                },
            })
        }
        _ => None,
    };
    encode_request(EncodeRequest {
        profile,
        effort: &ReasoningEffort::High,
        system: &[],
        history,
        tools: &[],
        output_schema: CanonicalOutputSchema::Disabled,
        resumable_session_id: SESSION,
        codex_version: "0.146.0",
        opus_compatibility: opus_compatibility.as_ref(),
        sonnet_compatibility: None,
    })
}

#[test]
fn structured_output_schema_is_rejected_before_request_assembly() {
    let profile = adaptive(&model("sonnet-5"), true);
    let schema = json(r#"{"type":"object"}"#);
    let refused = encode_request(EncodeRequest {
        profile: &profile,
        effort: &ReasoningEffort::High,
        system: &[],
        history: &[],
        tools: &[],
        output_schema: CanonicalOutputSchema::JsonSchema { schema: &schema },
        resumable_session_id: "invalid-if-assembly-runs",
        codex_version: "0.146.0",
        opus_compatibility: None,
        sonnet_compatibility: None,
    });
    assert_eq!(refused, Err(EncodeError::UnsupportedStructuredOutput));
}

#[test]
fn encodes_plaintext_agent_messages_as_user_input_and_rejects_encrypted_content() {
    let profile = adaptive(&model("sonnet-5"), true);
    let plaintext = ResponseItem::AgentMessage {
        author: "/root".to_string(),
        recipient: "/root/worker".to_string(),
        content: vec![AgentMessageInputContent::InputText { text: "inspect the request".to_string() }],
    };
    let ordered = [
        message("user", vec![ContentItem::InputText { text: "before".to_string() }]),
        plaintext,
        message("assistant", vec![ContentItem::OutputText { text: "after".to_string() }]),
    ];
    assert_eq!(
        encode_for(&profile, &ordered).expect("encode plaintext agent message").body.messages,
        vec![
            Message {
                role: Role::User,
                content: vec![
                    text_block("before", None),
                    text_block("Agent message from /root to /root/worker:\ninspect the request", one_hour()),
                ],
            },
            Message { role: Role::Assistant, content: vec![text_block("after", None)] },
        ]
    );

    let encrypted = ResponseItem::AgentMessage {
        author: "/root".to_string(),
        recipient: "/root/worker".to_string(),
        content: vec![AgentMessageInputContent::EncryptedContent { encrypted_content: "must-not-leak".to_string() }],
    };
    assert_eq!(
        encode_for(&profile, &[encrypted]),
        Err(EncodeError::UnsupportedHistoryItem { index: 0, kind: "non-plaintext structured agent message" })
    );
}

fn replay_blocks() -> Vec<ThinkingReplayBlock> {
    vec![
        ThinkingReplayBlock::Signed {
            thinking: "think\0\nexact".to_string(),
            signature: "sig+/=\0".to_string(),
        },
        ThinkingReplayBlock::Redacted { data: "redacted+/=\0".to_string() },
    ]
}

fn tool_use(id: &str, path: &str) -> ContentBlock {
    ContentBlock::ToolUse {
        id: id.to_string(),
        name: "read".to_string(),
        input: json(&format!(r#"{{"path":"{path}"}}"#)),
    }
}

fn tool_result(
    id: &str,
    content: ToolResultContent,
    is_error: bool,
    cache_control: Option<CacheControl>,
) -> ContentBlock {
    ContentBlock::ToolResult { tool_use_id: id.to_string(), content, is_error, cache_control }
}

#[test]
fn snapshots_ordered_transcript_replay_images_results_and_orphans() {
    let native_model = adaptive(&model("sonnet-5"), true);
    let replay = encode_thinking_replay(InferenceDialect::ClaudeCode, &model("sonnet-5"), replay_blocks())
        .expect("encode replay");
    let history = vec![
        message(
            "user",
            vec![
                ContentItem::InputText { text: "inspect these".to_string() },
                ContentItem::InputImage { image_url: "data:image/png;base64,aGVsbG8=".to_string(), detail: None },
                ContentItem::InputText { text: "in order".to_string() },
            ],
        ),
        ResponseItem::Reasoning {
            id: None,
            summary: vec![],
            content: Some(vec![ReasoningItemContent::ReasoningText { text: "visible thought".to_string() }]),
            encrypted_content: Some(replay),
        },
        message("assistant", vec![ContentItem::OutputText { text: "Checking both.".to_string() }]),
        call("call-a", "read", r#"{"path":"a"}"#),
        call("call-b", "read", r#"{"path":"b"}"#),
        result(
            "call-a",
            FunctionCallOutputBody::ContentItems(vec![
                FunctionCallOutputContentItem::InputText { text: "first".to_string() },
                FunctionCallOutputContentItem::InputImage {
                    image_url: "data:image/jpeg;base64,d29ybGQ=".to_string(),
                    detail: None,
                },
                FunctionCallOutputContentItem::InputText { text: "after image".to_string() },
            ]),
            true,
        ),
        result("call-b", FunctionCallOutputBody::Text("failed".to_string()), false),
        call("call-c", "read", r#"{"path":"c"}"#),
        call("call-d", "read", r#"{"path":"d"}"#),
        result("call-c", FunctionCallOutputBody::Text("completed".to_string()), true),
    ];
    let request = encode_for(&native_model, &history).expect("encode complete transcript");
    let image = |media_type: &str, data: &str| ImageSource::Base64 {
        media_type: media_type.to_string(),
        data: data.to_string(),
    };
    assert_eq!(
        request.body.messages,
        vec![
            Message {
                role: Role::User,
                content: vec![
                    text_block("inspect these", None),
                    ContentBlock::Image { source: image("image/png", "aGVsbG8="), cache_control: None },
                    text_block("in order", None),
                ],
            },
            Message {
                role: Role::Assistant,
                content: vec![
                    ContentBlock::Thinking {
                        thinking: "think\0\nexact".to_string(),
                        signature: "sig+/=\0".to_string(),
                    },
                    ContentBlock::RedactedThinking { data: "redacted+/=\0".to_string() },
                    text_block("Checking both.", None),
                    tool_use("call-a", "a"),
                    tool_use("call-b", "b"),
                ],
            },
            Message {
                role: Role::User,
                content: vec![
                    tool_result(
                        "call-a",
                        ToolResultContent::Blocks(vec![
                            ToolResultBlock::Text { text: "first".to_string() },
                            ToolResultBlock::Image { source: image("image/jpeg", "d29ybGQ=") },
                            ToolResultBlock::Text { text: "after image".to_string() },
                        ]),
                        false,
                        None,
                    ),
                    tool_result("call-b", ToolResultContent::Text("failed".to_string()), true, None),
                ],
            },
            Message { role: Role::Assistant, content: vec![tool_use("call-c", "c"), tool_use("call-d", "d")] },
            Message {
                role: Role::User,
                content: vec![
                    tool_result("call-c", ToolResultContent::Text("completed".to_string()), false, None),
                    tool_result(
                        "call-d",
                        ToolResultContent::Text("Tool execution result was not recorded by Codex.".to_string()),
                        true,
                        one_hour(),
                    ),
                ],
            },
        ]
    );
}

#[test]
fn replay_is_native_only_for_the_exact_model_and_dialect() {
    let replay = encode_thinking_replay(
        InferenceDialect::ClaudeCode,
        &model("sonnet-5"),
        vec![
            ThinkingReplayBlock::Signed {
                thinking: "exact thinking".to_string(),
                signature: "exact signature".to_string(),
            },
            ThinkingReplayBlock::Redacted { data: "must disappear after switch".to_string() },
        ],
    )
    .expect("encode replay");
    let history = [ResponseItem::Reasoning {
        id: None,
        summary: vec![],
        content: Some(vec![ReasoningItemContent::ReasoningText { text: "visible fallback".to_string() }]),
        encrypted_content: Some(replay),
    }];

    let same = encode_for(&adaptive(&model("sonnet-5"), true), &history).expect("same model replay");
    assert_eq!(
        same.body.messages[0].content,
        vec![
            ContentBlock::Thinking {
                thinking: "exact thinking".to_string(),
                signature: "exact signature".to_string(),
            },
            ContentBlock::RedactedThinking { data: "must disappear after switch".to_string() },
        ]
    );

    let switched = encode_for(&adaptive(&model("opus-5"), true), &history).expect("model downgrade");
    assert_eq!(switched.body.messages[0].content, vec![text_block("visible fallback", None)]);

    let other_dialect = ModelInferenceConfig::Anthropic {
        wire_api: WireApi::AnthropicMessages,
        dialect: InferenceDialect::OpenAi,
        route: "claude_code".to_string(),
        wire_model: model("sonnet-5"),
        max_output_tokens: 64_000,
        thinking: AnthropicThinkingPolicy::Adaptive,
        supports_disabled_thinking: true,
    };
    let dialect_switched = encode_history(&history, &other_dialect).expect("dialect downgrade");
    assert_eq!(dialect_switched, switched.body.messages);

    let malformed = [ResponseItem::Reasoning {
        id: None,
        summary: vec![],
        content: None,
        encrypted_content: Some("codex:anthropic-thinking:not-json".to_string()),
    }];
    assert!(matches!(
        encode_for(&adaptive(&model("sonnet-5"), true), &malformed),
        Err(EncodeError::Replay(_))
    ));
}

#[test]
fn carried_thinking_is_read_back() {
    let carried = encode_thinking_replay(InferenceDialect::ClaudeCode, "m", replay_blocks()).expect("carried");
    assert_eq!(
        decode_thinking_replay(&carried, Vec::new(), InferenceDialect::ClaudeCode, "m"),
        Ok(ReplayDecision::Native(replay_blocks()))
    );
    let visible = vec!["seen".to_string()];
    assert_eq!(
        decode_thinking_replay(&carried, visible.clone(), InferenceDialect::ClaudeCode, "other"),
        Ok(ReplayDecision::ModelOrDialectChanged { visible: visible.clone() })
    );
    assert_eq!(
        decode_thinking_replay("anything else", visible.clone(), InferenceDialect::ClaudeCode, "m"),
        Ok(ReplayDecision::UnrelatedOpaqueContent { visible })
    );
    assert_eq!(
        encode_thinking_replay(InferenceDialect::ClaudeCode, "", Vec::new()),
        Err(ReplayError::EmptyModel)
    );
    assert_eq!(
        decode_thinking_replay(
            r#"codex:anthropic-thinking:{"version":9}"#,
            Vec::new(),
            InferenceDialect::ClaudeCode,
            "m"
        ),
        Err(ReplayError::UnknownVersion(9))
    );
    assert_eq!(
        decode_thinking_replay("codex:anthropic-thinking:{}", Vec::new(), InferenceDialect::ClaudeCode, "m"),
        Err(ReplayError::Malformed("missing numeric version".to_string()))
    );
}

#[test]
fn every_unsupported_canonical_item_and_content_kind_is_rejected() {
    let profile = adaptive(&model("sonnet-5"), true);
    let raw = FunctionCallOutputPayload { body: FunctionCallOutputBody::Text("raw".to_string()), success: None };
    let unsupported = [
        ResponseItem::AdditionalTools,
        ResponseItem::LocalShellCall,
        ResponseItem::CustomToolCall {
            call_id: "free".to_string(),
            name: "free".to_string(),
            input: "raw".to_string(),
        },
        ResponseItem::CustomToolCallOutput { call_id: "free".to_string(), output: raw },
        ResponseItem::ToolSearchCall,
        ResponseItem::ToolSearchOutput,
        ResponseItem::WebSearchCall,
        ResponseItem::ImageGenerationCall,
        ResponseItem::Compaction { encrypted_content: "opaque".to_string() },
        ResponseItem::CompactionTrigger,
        ResponseItem::ContextCompaction { encrypted_content: Some("opaque".to_string()) },
        ResponseItem::Other,
    ];
    for item in unsupported {
        assert!(matches!(
            encode_for(&profile, &[item]),
            Err(EncodeError::UnsupportedHistoryItem { index: 0, .. })
        ));
    }

    let unsupported_content = [
        message("user", vec![ContentItem::InputAudio { audio_url: "data:audio/wav;base64,AA==".to_string() }]),
        message("user", vec![ContentItem::OutputText { text: "structured output".to_string() }]),
        message("assistant", vec![ContentItem::InputText { text: "wrong role".to_string() }]),
    ];
    for item in unsupported_content {
        assert!(matches!(encode_for(&profile, &[item]), Err(EncodeError::UnsupportedContent { .. })));
    }
    let encrypted_result = [
        call("call", "read", "{}"),
        result(
            "call",
            FunctionCallOutputBody::ContentItems(vec![FunctionCallOutputContentItem::EncryptedContent {
                encrypted_content: "opaque".to_string(),
            }]),
            true,
        ),
    ];
    assert!(matches!(encode_for(&profile, &encrypted_result), Err(EncodeError::UnsupportedContent { .. })));

    let namespaced = [ResponseItem::FunctionCall {
        id: None,
        name: "read".to_string(),
        namespace: Some("apps".to_string()),
        arguments: "{}".to_string(),
        call_id: "namespaced".to_string(),
    }];
    assert!(matches!(
        encode_for(&profile, &namespaced),
        Err(EncodeError::UnsupportedHistoryItem { kind: "namespace function call", .. })
    ));
}

#[test]
fn images_and_calls_that_do_not_fit_say_why() {
    let profile = adaptive(&model("sonnet-5"), true);
    let image = |url: &str| {
        [message("user", vec![ContentItem::InputImage { image_url: url.to_string(), detail: None }])]
    };
    let refused = |url: &str, message: &str| {
        assert_eq!(
            encode_for(&profile, &image(url)),
            Err(EncodeError::InvalidImage { item_index: 0, block_index: 0, message: message.to_string() })
        );
    };
    refused("https://example.test/a.png", "expected a data URL");
    refused("data:image/png", "expected a data URL");
    refused("data:text/plain;base64,aGVsbG8=", "expected an image/* base64 data URL");
    refused("data:image/png,aGVsbG8=", "expected an image/* base64 data URL");
    refused("data:image/png;base64,a?", "Invalid symbol 63, offset 1.");
    assert!(encode_for(&profile, &image("data:image/png;base64,aGVsbG8=")).is_ok());

    let twice = [call("same", "read", "{}"), call("same", "read", "{}")];
    assert_eq!(
        encode_for(&profile, &twice),
        Err(EncodeError::DuplicateToolUse { call_id: "same".to_string() })
    );
    assert_eq!(
        encode_for(&profile, &[result("none", FunctionCallOutputBody::Text(String::new()), true)]),
        Err(EncodeError::UnmatchedToolResult { call_id: "none".to_string() })
    );
    assert_eq!(
        encode_for(&profile, &[call("bad", "read", "[]")]),
        Err(EncodeError::InvalidToolArguments {
            call_id: "bad".to_string(),
            message: "expected a JSON object".to_string(),
        })
    );
}

#[test]
fn every_call_is_answered_before_the_user_speaks() {
    let profile = adaptive(&model("sonnet-5"), true);
    let history = [
        call("one", "read", "{}"),
        message("user", vec![ContentItem::InputText { text: "never mind".to_string() }]),
    ];
    let request = encode_for(&profile, &history).expect("orphaned call");
    assert_eq!(request.body.messages.len(), 3);
    assert!(matches!(
        &request.body.messages[1].content[0],
        ContentBlock::ToolResult { tool_use_id, is_error: true, .. } if tool_use_id == "one"
    ));
}

#[test]
fn paths_and_headers_are_ready_to_send() {
    let request = sonnet_request(None);
    assert_eq!(request_path(&request), "/v1/messages?beta=true");
    let headers = request_headers(&request).expect("headers");
    assert_eq!(headers.get("user-agent").map(|value| value.as_str()), Some("codex-cli/0.146.0"));
    assert_eq!(headers.get("User-Agent"), None);

    let mut wrong = sonnet_request(None);
    wrong.transport.headers.insert("no name".to_string(), "value".to_string());
    assert!(request_headers(&wrong).is_err());
    let mut wrong = sonnet_request(None);
    wrong.transport.headers.insert("x-test".to_string(), "line\nbreak".to_string());
    let error = request_headers(&wrong).expect_err("no header value");
    assert_eq!(
        error.message(),
        format!("invalid native {} request metadata: failed to parse header value", title())
    );
}

#[test]
fn breakpoints_of_the_caller_do_not_matter() {
    let profile = adaptive(&model("opus-4-8"), true);
    let with = |control: Option<CacheControl>| {
        assemble(
            &profile,
            &ReasoningEffort::Medium,
            &[user_text("a", control), user_text("b", None)],
            &[system("s", control), system("t", control)],
            &[function_tool("read")],
        )
        .expect("request")
    };
    assert_eq!(with(None), with(Some(CacheControl::Ephemeral { ttl: None })));
    assert_eq!(with(None), with(one_hour()));
}

#[test]
fn thinking_of_a_response_stands_in_the_next_request() {
    let wire_model = model("sonnet-5");
    let events = canonical_events(DecodedStream {
        message_id: "msg-1".to_string(),
        model: wire_model.clone(),
        blocks: vec![
            DecodedBlock::Thinking { thinking: "because".to_string(), signature: "signed".to_string() },
            DecodedBlock::RedactedThinking { data: "hidden".to_string() },
            DecodedBlock::Text { text: "so".to_string() },
        ],
        terminal_outcome: TerminalOutcome::Completed,
        usage: Usage {
            input_tokens: 1,
            output_tokens: 1,
            cache_creation_input_tokens: None,
            cache_read_input_tokens: None,
            thinking_tokens: None,
            cache_creation: None,
        },
        token_usage: TokenUsage {
            input_tokens: 1,
            cached_input_tokens: 0,
            cache_write_input_tokens: 0,
            output_tokens: 1,
            reasoning_output_tokens: 0,
            total_tokens: 2,
        },
    })
    .expect("committed response");
    let history = events
        .into_iter()
        .filter_map(|event| match event {
            ResponseEvent::OutputItemDone(item) => Some(item),
            _ => None,
        })
        .collect::<Vec<_>>();
    let messages = encode_history(&history, &adaptive(&wire_model, true)).expect("replayed response");
    assert_eq!(
        messages,
        vec![Message {
            role: Role::Assistant,
            content: vec![
                ContentBlock::Thinking { thinking: "because".to_string(), signature: "signed".to_string() },
                ContentBlock::RedactedThinking { data: "hidden".to_string() },
                text_block("so", None),
            ],
        }]
    );
    let elsewhere = encode_history(&history, &adaptive(&model("opus-4-8"), true)).expect("another model");
    assert_eq!(elsewhere[0].content, vec![text_block("because", None), text_block("so", None)]);
}

#[test]
fn carried_blocks_may_give_their_fields_by_position() {
    let carried = r#"codex:anthropic-thinking:{"version":1,"dialect":"claude_code","model":"m","blocks":[["signed","t","s"],["redacted","d"]]}"#;
    assert_eq!(
        decode_thinking_replay(carried, Vec::new(), InferenceDialect::ClaudeCode, "m"),
        Ok(ReplayDecision::Native(vec![
            ThinkingReplayBlock::Signed { thinking: "t".to_string(), signature: "s".to_string() },
            ThinkingReplayBlock::Redacted { data: "d".to_string() },
        ]))
    );
    let short = r#"codex:anthropic-thinking:{"version":1,"dialect":"claude_code","model":"m","blocks":[["signed","t"]]}"#;
    assert_eq!(
        decode_thinking_replay(short, Vec::new(), InferenceDialect::ClaudeCode, "m"),
        Err(ReplayError::Malformed(
            "invalid length 1, expected struct variant ThinkingReplayBlock::Signed with 2 elements".to_string()
        ))
    );
}
