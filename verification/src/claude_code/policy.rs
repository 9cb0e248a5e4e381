//! The policies of a request: thinking, tools, cache breakpoints and
//! transport.
use crate::claude_code::identity::{beta_query, query_parameters};
use crate::claude_code::names::{in_small, in_title, spell_small, spell_title};
use crate::claude_code::opus_compatibility::{
    default_breakpoint, default_cache_control, opus_model, opus_wire_model, profile_metadata,
    OpusCompatibilityContext, OpusCompatibilityContextModel,
};
use crate::claude_code::sonnet_compatibility::{
    sonnet_model, sonnet_wire_model, SonnetCompatibilityContext, SonnetCompatibilityContextModel,
};
use crate::claude_code::types::{
    AssembledRequest, AssembledRequestModel, CacheControl, CacheTtl, ClaudeFunctionTool, ClaudeFunctionToolModel,
    ClaudeRequestProfile, ClaudeRequestProfileModel, ClaudeToolSpec, ClaudeToolSpecModel, ContentBlock,
    ContentBlockModel, ContextEdit, ContextKeep, ContextManagement, ContextManagementModel, Message, MessageModel,
    MessagesRequest, MessagesRequestModel, OutputConfig, OutputEffort, RequestMetadata, RequestMetadataModel,
    RequestTransport, RequestTransportModel, Role, SystemBlock, SystemBlockModel, Thinking, ThinkingDisplay, Tool,
    ToolModel,
};
use crate::fields::{put, StringMap};
use crate::ids::{big_endian, derive_uuid, hyphenate, hyphenated, read_uuid, to_bytes, uuid_derived, uuid_read};
use crate::model::{no_items, outcome, push_item, Duplicate};
use crate::protocol::{
    AnthropicThinkingPolicy, InferenceDialect, ModelInferenceConfig, ModelInferenceConfigModel, ReasoningEffort,
    ReasoningEffortModel, ToolSpec, ToolSpecModel, WireApi,
};
use crate::text::{concat, concat3, decimal, decimal_text};
use vstd::prelude::*;
use vstd::string::*;

verus! {

/// The betas that a native request asks for.
pub open spec fn native_betas() -> Seq<char> {
    in_small(
        "oauth-2025-04-20,interleaved-thinking-2025-05-14,thinking-token-count-2026-05-13,context-management-2025-06-27,prompt-caching-scope-2026-01-05,"@,
        "-code-20250219,extended-cache-ttl-2025-04-11"@,
    )
}

/// The betas that a native request asks for.
pub fn anthropic_betas() -> (betas: String)
    ensures
        betas@ == native_betas(),
{
    spell_small(
        "oauth-2025-04-20,interleaved-thinking-2025-05-14,thinking-token-count-2026-05-13,context-management-2025-06-27,prompt-caching-scope-2026-01-05,",
        "-code-20250219,extended-cache-ttl-2025-04-11",
    )
}

/// The namespace of session identities.
pub const CLAUDE_SESSION_NAMESPACE: u128 = 0x2d2e_1ea2_4fd0_5c0b_918d_17aa_1299_302d;

/// The output limit of a request whose prompt is replaced.
pub const COMPATIBILITY_MAX_TOKENS: u32 = 64_000;

/// Native inputs assembled into a Messages request without history conversion.
pub struct AssembleRequest<'a> {
    pub profile: &'a ModelInferenceConfig,
    pub effort: &'a ReasoningEffort,
    pub messages: &'a [Message],
    pub system: &'a [SystemBlock],
    pub tools: &'a [ToolSpec],
    pub resumable_session_id: &'a str,
    pub codex_version: &'a str,
    pub opus_compatibility: Option<&'a OpusCompatibilityContext>,
    pub sonnet_compatibility: Option<&'a SonnetCompatibilityContext>,
}

/// Why a request cannot be assembled.
#[derive(Debug, Clone, PartialEq, Eq)]
pub enum AssembleError {
    /// The model is not one of Anthropic's.
    NotAnthropicModel,
    /// The model is not reached by this protocol and dialect.
    UnsupportedRouteContract {
        wire_api: WireApi,
        dialect: InferenceDialect,
    },
    /// The model has no form for this effort.
    UnsupportedEffort {
        effort: String,
    },
    /// The model cannot stop thinking.
    DisabledThinkingUnsupported {
        model: String,
    },
    /// The session is no UUID.
    InvalidSessionId {
        session_id: String,
    },
    /// Opus 5 needs its profile.
    MissingOpusCompatibilityContext,
    /// A tool that cannot be offered.
    UnsupportedTool {
        index: usize,
        kind: &'static str,
        name: String,
    },
    /// A tool schema that is no JSON.
    InvalidToolSchema {
        index: usize,
        name: String,
        message: String,
    },
    /// A block that its role cannot have.
    UnsupportedNativeBlock {
        index: usize,
        role: &'static str,
        kind: &'static str,
    },
}

/// The model of [`AssembleError`].
#[verifier::ext_equal]
pub enum AssembleErrorModel {
    NotAnthropicModel,
    UnsupportedRouteContract {
        wire_api: WireApi,
        dialect: InferenceDialect,
    },
    UnsupportedEffort {
        effort: Seq<char>,
    },
    DisabledThinkingUnsupported {
        model: Seq<char>,
    },
    InvalidSessionId {
        session_id: Seq<char>,
    },
    MissingOpusCompatibilityContext,
    UnsupportedTool {
        index: usize,
        kind: Seq<char>,
        name: Seq<char>,
    },
    InvalidToolSchema {
        index: usize,
        name: Seq<char>,
        message: Seq<char>,
    },
    UnsupportedNativeBlock {
        index: usize,
        role: Seq<char>,
        kind: Seq<char>,
    },
}

impl DeepView for AssembleError {
    type V = AssembleErrorModel;

    open spec fn deep_view(&self) -> AssembleErrorModel {
        match self {
            AssembleError::NotAnthropicModel => AssembleErrorModel::NotAnthropicModel,
            AssembleError::UnsupportedRouteContract {
                wire_api,
                dialect,
            } => AssembleErrorModel::UnsupportedRouteContract {
                wire_api: wire_api.deep_view(),
                dialect: dialect.deep_view(),
            },
            AssembleError::UnsupportedEffort { effort } => AssembleErrorModel::UnsupportedEffort {
                effort: effort.deep_view(),
            },
            AssembleError::DisabledThinkingUnsupported { model } => AssembleErrorModel::DisabledThinkingUnsupported {
                model: model.deep_view(),
            },
            AssembleError::InvalidSessionId { session_id } => AssembleErrorModel::InvalidSessionId {
                session_id: session_id.deep_view(),
            },
            AssembleError::MissingOpusCompatibilityContext => AssembleErrorModel::MissingOpusCompatibilityContext,
            AssembleError::UnsupportedTool { index, kind, name } => AssembleErrorModel::UnsupportedTool {
                index: index.deep_view(),
                kind: kind.deep_view(),
                name: name.deep_view(),
            },
            AssembleError::InvalidToolSchema { index, name, message } => AssembleErrorModel::InvalidToolSchema {
                index: index.deep_view(),
                name: name.deep_view(),
                message: message.deep_view(),
            },
            AssembleError::UnsupportedNativeBlock { index, role, kind } => AssembleErrorModel::UnsupportedNativeBlock {
                index: index.deep_view(),
                role: role.deep_view(),
                kind: kind.deep_view(),
            },
        }
    }
}

impl Duplicate for AssembleError {
    fn duplicate(&self) -> (copy: Self) {
        match self {
            AssembleError::NotAnthropicModel => AssembleError::NotAnthropicModel,
            AssembleError::UnsupportedRouteContract { wire_api, dialect } => AssembleError::UnsupportedRouteContract {
                wire_api: wire_api.duplicate(),
                dialect: dialect.duplicate(),
            },
            AssembleError::UnsupportedEffort { effort } => AssembleError::UnsupportedEffort {
                effort: effort.duplicate(),
            },
            AssembleError::DisabledThinkingUnsupported { model } => AssembleError::DisabledThinkingUnsupported {
                model: model.duplicate(),
            },
            AssembleError::InvalidSessionId { session_id } => AssembleError::InvalidSessionId {
                session_id: session_id.duplicate(),
            },
            AssembleError::MissingOpusCompatibilityContext => AssembleError::MissingOpusCompatibilityContext,
            AssembleError::UnsupportedTool { index, kind, name } => AssembleError::UnsupportedTool {
                index: index.duplicate(),
                kind: kind.duplicate(),
                name: name.duplicate(),
            },
            AssembleError::InvalidToolSchema { index, name, message } => AssembleError::InvalidToolSchema {
                index: index.duplicate(),
                name: name.duplicate(),
                message: message.duplicate(),
            },
            AssembleError::UnsupportedNativeBlock { index, role, kind } => AssembleError::UnsupportedNativeBlock {
                index: index.duplicate(),
                role: role.duplicate(),
                kind: kind.duplicate(),
            },
        }
    }
}

impl AssembleErrorModel {
    /// The message of the error.
    pub open spec fn text(self) -> Seq<char> {
        match self {
            AssembleErrorModel::NotAnthropicModel =>
                in_title(""@, " Messages assembly requires an Anthropic model profile"@),
            AssembleErrorModel::UnsupportedRouteContract { wire_api, dialect } =>
                "unsupported Anthropic route contract: "@ + wire_api.label() + "/"@ + dialect.label(),
            AssembleErrorModel::UnsupportedEffort { effort } => "reasoning effort `"@ + effort
                + in_title("` is unsupported by adaptive "@, " thinking"@),
            AssembleErrorModel::DisabledThinkingUnsupported { model } =>
                "reasoning effort `none` is unsupported by native model `"@ + model + "`"@,
            AssembleErrorModel::InvalidSessionId { session_id } => "resumable Codex session ID must be a UUID: "@
                + session_id,
            AssembleErrorModel::MissingOpusCompatibilityContext =>
                in_small(""@, "-opus-5 requires a "@) + in_title(""@, " Code compatibility context"@),
            AssembleErrorModel::UnsupportedTool { index, kind, name } => "unsupported tool at index "@ + decimal(
                index as nat,
            ) + ": "@ + kind + " `"@ + name + "`; only JSON-schema function tools are supported"@,
            AssembleErrorModel::InvalidToolSchema { index, name, message } => "tool `"@ + name + "` at index "@
                + decimal(index as nat) + " contains an invalid JSON schema: "@ + message,
            AssembleErrorModel::UnsupportedNativeBlock { index, role, kind } => "native message at index "@ + decimal(
                index as nat,
            ) + " has unsupported "@ + role + " block `"@ + kind,
        }
    }
}

impl AssembleError {
    /// The message of the error.
    pub fn message(&self) -> (message: String)
        ensures
            message@ == self.deep_view().text(),
    {
        match self {
            AssembleError::NotAnthropicModel =>
                spell_title("", " Messages assembly requires an Anthropic model profile"),
            AssembleError::UnsupportedRouteContract { wire_api, dialect } => {
                let mut text = concat3("unsupported Anthropic route contract: ", wire_api.name(), "/");
                text.append(dialect.name());
                text
            },
            AssembleError::UnsupportedEffort { effort } => concat3(
                "reasoning effort `",
                effort,
                &spell_title("` is unsupported by adaptive ", " thinking"),
            ),
            AssembleError::DisabledThinkingUnsupported { model } => concat3(
                "reasoning effort `none` is unsupported by native model `",
                model,
                "`",
            ),
            AssembleError::InvalidSessionId { session_id } => concat(
                "resumable Codex session ID must be a UUID: ",
                session_id,
            ),
            AssembleError::MissingOpusCompatibilityContext =>
                concat(&spell_small("", "-opus-5 requires a "), &spell_title("", " Code compatibility context")),
            AssembleError::UnsupportedTool { index, kind, name } => {
                let mut text = concat3("unsupported tool at index ", &decimal_text(*index as u64), ": ");
                text.append(kind);
                text.append(" `");
                text.append(name);
                text.append("`; only JSON-schema function tools are supported");
                text
            },
            AssembleError::InvalidToolSchema { index, name, message } => {
                let mut text = concat3("tool `", name, "` at index ");
                text.append(&decimal_text(*index as u64));
                text.append(" contains an invalid JSON schema: ");
                text.append(message);
                text
            },
            AssembleError::UnsupportedNativeBlock { index, role, kind } => {
                let mut text = concat3("native message at index ", &decimal_text(*index as u64), " has unsupported ");
                text.append(role);
                text.append(" block `");
                text.append(kind);
                text
            },
        }
    }
}

// ---- profiles ----

/// What a request is made with, where the model is one of Anthropic's.
pub open spec fn profile_of(config: ModelInferenceConfigModel) -> Option<ClaudeRequestProfileModel> {
    match config {
        ModelInferenceConfigModel::Anthropic {
            wire_api,
            dialect,
            wire_model,
            max_output_tokens,
            thinking,
            supports_disabled_thinking,
            ..
        } => Some(
            ClaudeRequestProfileModel {
                wire_api,
                dialect,
                wire_model,
                max_output_tokens,
                thinking,
                supports_disabled_thinking,
            },
        ),
        _ => None,
    }
}

impl ClaudeRequestProfile {
    /// What a request is made with, where the model is one of Anthropic's.
    pub fn of(config: &ModelInferenceConfig) -> (profile: Option<ClaudeRequestProfile>)
        ensures
            profile.deep_view() == profile_of(config.deep_view()),
    {
        match config {
            ModelInferenceConfig::Anthropic {
                wire_api,
                dialect,
                wire_model,
                max_output_tokens,
                thinking,
                supports_disabled_thinking,
                ..
            } => Some(
                ClaudeRequestProfile {
                    wire_api: *wire_api,
                    dialect: *dialect,
                    wire_model: wire_model.duplicate(),
                    max_output_tokens: *max_output_tokens,
                    thinking: *thinking,
                    supports_disabled_thinking: *supports_disabled_thinking,
                },
            ),
            _ => None,
        }
    }
}

// ---- thinking ----

/// The output effort for an effort that is common to all models.
pub open spec fn output_effort(effort: ReasoningEffortModel) -> Option<OutputEffort> {
    match effort {
        ReasoningEffortModel::Minimal | ReasoningEffortModel::Low => Some(OutputEffort::Low),
        ReasoningEffortModel::Medium => Some(OutputEffort::Medium),
        ReasoningEffortModel::High => Some(OutputEffort::High),
        ReasoningEffortModel::XHigh => Some(OutputEffort::Xhigh),
        ReasoningEffortModel::Max => Some(OutputEffort::Max),
        ReasoningEffortModel::Off | ReasoningEffortModel::Ultra | ReasoningEffortModel::Persistent
        | ReasoningEffortModel::Custom(_) => None,
    }
}

/// How a native request thinks.
pub open spec fn native_thinking(
    policy: AnthropicThinkingPolicy,
    supports_disabled: bool,
    effort: ReasoningEffortModel,
    model: Seq<char>,
) -> Result<(Thinking, Option<OutputConfig>), AssembleErrorModel> {
    if effort is Off {
        if supports_disabled {
            Ok((Thinking::Disabled, None))
        } else {
            Err(AssembleErrorModel::DisabledThinkingUnsupported { model })
        }
    } else {
        match policy {
            AnthropicThinkingPolicy::Budgeted { budget_tokens } => Ok(
                (Thinking::Enabled { budget_tokens, display: ThinkingDisplay::Omitted }, None),
            ),
            AnthropicThinkingPolicy::Adaptive => match output_effort(effort) {
                Some(level) => Ok(
                    (
                        Thinking::Adaptive { display: Some(ThinkingDisplay::Omitted) },
                        Some(OutputConfig { effort: level }),
                    ),
                ),
                None => Err(AssembleErrorModel::UnsupportedEffort { effort: effort.label() }),
            },
        }
    }
}

/// How a request thinks whose prompt is replaced: as it sees fit, with the
/// effort that was asked for where it is common to all models.
pub open spec fn profile_thinking(effort: ReasoningEffortModel) -> (Thinking, Option<OutputConfig>) {
    (
        Thinking::Adaptive { display: None },
        Some(
            OutputConfig {
                effort: match output_effort(effort) {
                    Some(level) => level,
                    None => OutputEffort::Medium,
                },
            },
        ),
    )
}

fn common_effort(effort: &ReasoningEffort) -> (level: Option<OutputEffort>)
    ensures
        level == output_effort(effort.deep_view()),
{
    match effort {
        ReasoningEffort::Minimal | ReasoningEffort::Low => Some(OutputEffort::Low),
        ReasoningEffort::Medium => Some(OutputEffort::Medium),
        ReasoningEffort::High => Some(OutputEffort::High),
        ReasoningEffort::XHigh => Some(OutputEffort::Xhigh),
        ReasoningEffort::Max => Some(OutputEffort::Max),
        _ => None,
    }
}

/// The settings of thinking and output.
pub type ThinkingSettings = (Thinking, Option<OutputConfig>);

fn thinking_config(
    policy: AnthropicThinkingPolicy,
    supports_disabled: bool,
    effort: &ReasoningEffort,
    model: &str,
) -> (settings: Result<ThinkingSettings, AssembleError>)
    ensures
        outcome(settings) == native_thinking(policy, supports_disabled, effort.deep_view(), model@),
{
    if let ReasoningEffort::Off = effort {
        return if supports_disabled {
            Ok((Thinking::Disabled, None))
        } else {
            Err(AssembleError::DisabledThinkingUnsupported { model: model.to_owned() })
        };
    }
    match policy {
        AnthropicThinkingPolicy::Budgeted { budget_tokens } => Ok(
            (Thinking::Enabled { budget_tokens, display: ThinkingDisplay::Omitted }, None),
        ),
        AnthropicThinkingPolicy::Adaptive => match common_effort(effort) {
            Some(level) => Ok(
                (
                    Thinking::Adaptive { display: Some(ThinkingDisplay::Omitted) },
                    Some(OutputConfig { effort: level }),
                ),
            ),
            None => Err(AssembleError::UnsupportedEffort { effort: effort.name().to_owned() }),
        },
    }
}

fn profile_thinking_config(effort: &ReasoningEffort) -> (settings: ThinkingSettings)
    ensures
        settings == profile_thinking(effort.deep_view()),
{
    let level = match common_effort(effort) {
        Some(level) => level,
        None => OutputEffort::Medium,
    };
    (Thinking::Adaptive { display: None }, Some(OutputConfig { effort: level }))
}

// ---- tools ----

/// A tool as the model sees it.
pub open spec fn claude_tool(tool: ToolSpecModel) -> ClaudeToolSpecModel {
    match tool {
        ToolSpecModel::Function(function) => ClaudeToolSpecModel::Function(
            ClaudeFunctionToolModel {
                name: function.name,
                description: function.description,
                input_schema: function.parameters,
            },
        ),
        ToolSpecModel::Namespace(tools) => ClaudeToolSpecModel::Unsupported {
            kind: "namespace"@,
            name: tools.name,
        },
        ToolSpecModel::ToolSearch { .. } => ClaudeToolSpecModel::Unsupported {
            kind: "hosted tool search"@,
            name: tool.label(),
        },
        ToolSpecModel::WebSearch { .. } => ClaudeToolSpecModel::Unsupported {
            kind: "hosted web search"@,
            name: tool.label(),
        },
        ToolSpecModel::Freeform(tool) => ClaudeToolSpecModel::Unsupported { kind: "freeform"@, name: tool.name },
    }
}

/// The tools from `at` on behind those that are done: all of them, or the
/// first that cannot be offered.
pub open spec fn claude_tools_from(tools: Seq<ToolSpecModel>, at: int, done: Seq<ToolModel>) -> Result<
    Seq<ToolModel>,
    AssembleErrorModel,
>
    decreases tools.len() - at,
{
    if at < 0 || at >= tools.len() {
        Ok(done)
    } else {
        match claude_tool(tools[at]) {
            ClaudeToolSpecModel::Function(tool) => claude_tools_from(
                tools,
                at + 1,
                done.push(
                    ToolModel {
                        name: tool.name,
                        description: tool.description,
                        input_schema: tool.input_schema,
                        cache_control: None,
                    },
                ),
            ),
            ClaudeToolSpecModel::Unsupported { kind, name } => Err(
                AssembleErrorModel::UnsupportedTool { index: at as usize, kind, name },
            ),
        }
    }
}

impl ClaudeToolSpec {
    /// A tool as the model sees it.
    pub fn of(tool: &ToolSpec) -> (seen: ClaudeToolSpec)
        ensures
            seen.deep_view() == claude_tool(tool.deep_view()),
    {
        match tool {
            ToolSpec::Function(function) => ClaudeToolSpec::Function(
                ClaudeFunctionTool {
                    name: function.name.duplicate(),
                    description: function.description.duplicate(),
                    input_schema: function.parameters.duplicate(),
                },
            ),
            ToolSpec::Namespace(tools) => ClaudeToolSpec::Unsupported {
                kind: "namespace",
                name: tools.name.duplicate(),
            },
            ToolSpec::ToolSearch { .. } => ClaudeToolSpec::Unsupported {
                kind: "hosted tool search",
                name: tool.name().to_owned(),
            },
            ToolSpec::WebSearch { .. } => ClaudeToolSpec::Unsupported {
                kind: "hosted web search",
                name: tool.name().to_owned(),
            },
            ToolSpec::Freeform(tool) => ClaudeToolSpec::Unsupported { kind: "freeform", name: tool.name.duplicate() },
        }
    }
}

fn encode_tools(tools: &[ToolSpec]) -> (encoded: Result<Vec<Tool>, AssembleError>)
    ensures
        outcome(encoded) == claude_tools_from(tools.deep_view(), 0, Seq::empty()),
{
    let mut done: Vec<Tool> = no_items();
    let mut i: usize = 0;
    while i < tools.len()
        invariant
            i <= tools.len(),
            claude_tools_from(tools.deep_view(), 0, Seq::empty()) == claude_tools_from(
                tools.deep_view(),
                i as int,
                done.deep_view(),
            ),
        decreases tools.len() - i,
    {
        assert(tools.deep_view()[i as int] == tools@[i as int].deep_view());
        match ClaudeToolSpec::of(&tools[i]) {
            ClaudeToolSpec::Function(tool) => {
                push_item(
                    &mut done,
                    Tool {
                        name: tool.name,
                        description: tool.description,
                        input_schema: tool.input_schema,
                        cache_control: None,
                    },
                );
            },
            ClaudeToolSpec::Unsupported { kind, name } => {
                return Err(AssembleError::UnsupportedTool { index: i, kind, name });
            },
        }
        i += 1;
    }
    Ok(done)
}

// ---- native blocks ----

/// Whether a role can have a block.
pub open spec fn allowed(role: Role, block: ContentBlockModel) -> bool {
    match role {
        Role::User => block is Text || block is Image || block is ToolResult,
        Role::Assistant => block is Text || block is Thinking || block is RedactedThinking || block is ToolUse,
    }
}

/// What a block is called in a message.
pub open spec fn block_kind(block: ContentBlockModel) -> Seq<char> {
    match block {
        ContentBlockModel::Text { .. } => "text"@,
        ContentBlockModel::Image { .. } => "image"@,
        ContentBlockModel::Thinking { .. } => "thinking"@,
        ContentBlockModel::RedactedThinking { .. } => "redacted thinking"@,
        ContentBlockModel::ToolUse { .. } => "tool use"@,
        ContentBlockModel::ToolResult { .. } => "tool result"@,
    }
}

/// What a role is called in a message.
pub open spec fn role_name(role: Role) -> Seq<char> {
    match role {
        Role::User => "user"@,
        Role::Assistant => "assistant"@,
    }
}

/// The first block from `at` on that its role cannot have.
pub open spec fn foreign_block_from(role: Role, content: Seq<ContentBlockModel>, at: int) -> Option<Seq<char>>
    decreases content.len() - at,
{
    if at < 0 || at >= content.len() {
        None
    } else if !allowed(role, content[at]) {
        Some(block_kind(content[at]))
    } else {
        foreign_block_from(role, content, at + 1)
    }
}

/// The error for the first block of the messages from `at` on that its role
/// cannot have.
pub open spec fn messages_error_from(messages: Seq<MessageModel>, at: int) -> Option<AssembleErrorModel>
    decreases messages.len() - at,
{
    if at < 0 || at >= messages.len() {
        None
    } else {
        match foreign_block_from(messages[at].role, messages[at].content, 0) {
            Some(kind) => Some(
                AssembleErrorModel::UnsupportedNativeBlock {
                    index: at as usize,
                    role: role_name(messages[at].role),
                    kind,
                },
            ),
            None => messages_error_from(messages, at + 1),
        }
    }
}

fn content_block_kind(block: &ContentBlock) -> (kind: &'static str)
    ensures
        kind@ == block_kind(block.deep_view()),
{
    match block {
        ContentBlock::Text { .. } => "text",
        ContentBlock::Image { .. } => "image",
        ContentBlock::Thinking { .. } => "thinking",
        ContentBlock::RedactedThinking { .. } => "redacted thinking",
        ContentBlock::ToolUse { .. } => "tool use",
        ContentBlock::ToolResult { .. } => "tool result",
    }
}

fn role_allows(role: Role, block: &ContentBlock) -> (allows: bool)
    ensures
        allows == allowed(role, block.deep_view()),
{
    match role {
        Role::User => match block {
            ContentBlock::Text { .. } | ContentBlock::Image { .. } | ContentBlock::ToolResult { .. } => true,
            _ => false,
        },
        Role::Assistant => match block {
            ContentBlock::Text { .. } | ContentBlock::Thinking { .. } | ContentBlock::RedactedThinking { .. }
            | ContentBlock::ToolUse { .. } => true,
            _ => false,
        },
    }
}

fn foreign_block(message: &Message) -> (kind: Option<&'static str>)
    ensures
        kind.deep_view() == foreign_block_from(message.role, message.content.deep_view(), 0),
{
    let content = &message.content;
    let mut i: usize = 0;
    while i < content.len()
        invariant
            i <= content.len(),
            content == message.content,
            foreign_block_from(message.role, content.deep_view(), 0) == foreign_block_from(
                message.role,
                content.deep_view(),
                i as int,
            ),
        decreases content.len() - i,
    {
        assert(content.deep_view()[i as int] == content@[i as int].deep_view());
        if !role_allows(message.role, &content[i]) {
            return Some(content_block_kind(&content[i]));
        }
        i += 1;
    }
    None
}

fn validate_messages(messages: &[Message]) -> (error: Option<AssembleError>)
    ensures
        error.deep_view() == messages_error_from(messages.deep_view(), 0),
{
    let mut i: usize = 0;
    while i < messages.len()
        invariant
            i <= messages.len(),
            messages_error_from(messages.deep_view(), 0) == messages_error_from(messages.deep_view(), i as int),
        decreases messages.len() - i,
    {
        assert(messages.deep_view()[i as int] == messages@[i as int].deep_view());
        if let Some(kind) = foreign_block(&messages[i]) {
            let role = match messages[i].role {
                Role::User => "user",
                Role::Assistant => "assistant",
            };
            return Some(AssembleError::UnsupportedNativeBlock { index: i, role, kind });
        }
        i += 1;
    }
    None
}

// ---- cache breakpoints ----

/// The breakpoint of a native request.
pub open spec fn one_hour() -> CacheControl {
    CacheControl::Ephemeral { ttl: Some(CacheTtl::OneHour) }
}

/// A block with this breakpoint, where it can have one.
pub open spec fn with_breakpoint(block: ContentBlockModel, control: Option<CacheControl>) -> ContentBlockModel {
    match block {
        ContentBlockModel::Text { text, .. } => ContentBlockModel::Text { text, cache_control: control },
        ContentBlockModel::Image { source, .. } => ContentBlockModel::Image { source, cache_control: control },
        ContentBlockModel::ToolResult { tool_use_id, content, is_error, .. } => ContentBlockModel::ToolResult {
            tool_use_id,
            content,
            is_error,
            cache_control: control,
        },
        other => other,
    }
}

/// Whether a block can have a breakpoint.
pub open spec fn cacheable(block: ContentBlockModel) -> bool {
    block is Text || block is Image || block is ToolResult
}

/// A message without breakpoints.
pub open spec fn cleared(message: MessageModel) -> MessageModel {
    MessageModel {
        role: message.role,
        content: Seq::new(message.content.len(), |i: int| with_breakpoint(message.content[i], None)),
    }
}

/// Messages without breakpoints.
pub open spec fn all_cleared(messages: Seq<MessageModel>) -> Seq<MessageModel> {
    Seq::new(messages.len(), |i: int| cleared(messages[i]))
}

/// The last place below `below` of a message of the user.
pub open spec fn last_user(messages: Seq<MessageModel>, below: int) -> Option<int>
    decreases below,
{
    if below <= 0 || below > messages.len() {
        None
    } else if messages[below - 1].role == Role::User {
        Some(below - 1)
    } else {
        last_user(messages, below - 1)
    }
}

/// The last place below `below` of a block that can have a breakpoint.
pub open spec fn last_cacheable(content: Seq<ContentBlockModel>, below: int) -> Option<int>
    decreases below,
{
    if below <= 0 || below > content.len() {
        None
    } else if cacheable(content[below - 1]) {
        Some(below - 1)
    } else {
        last_cacheable(content, below - 1)
    }
}

/// The messages with one breakpoint at most: on the last block of the user's
/// last message that can have one.
pub open spec fn cached_messages(messages: Seq<MessageModel>, control: CacheControl) -> Seq<MessageModel> {
    let clear = all_cleared(messages);
    match last_user(clear, clear.len() as int) {
        None => clear,
        Some(place) => {
            let content = clear[place].content;
            match last_cacheable(content, content.len() as int) {
                None => clear,
                Some(block) => clear.update(
                    place,
                    MessageModel {
                        content: content.update(block, with_breakpoint(content[block], Some(control))),
                        ..clear[place]
                    },
                ),
            }
        },
    }
}

/// The system prompt with one breakpoint, on its last block.
pub open spec fn cached_system(system: Seq<SystemBlockModel>) -> Seq<SystemBlockModel> {
    Seq::new(
        system.len(),
        |i: int|
            SystemBlockModel::Text {
                text: system[i]->text,
                cache_control: if i == system.len() - 1 {
                    Some(one_hour())
                } else {
                    None
                },
            },
    )
}

fn set_breakpoint(block: &ContentBlock, control: Option<CacheControl>) -> (marked: ContentBlock)
    ensures
        marked.deep_view() == with_breakpoint(block.deep_view(), control),
{
    match block {
        ContentBlock::Text { text, .. } => ContentBlock::Text { text: text.duplicate(), cache_control: control },
        ContentBlock::Image { source, .. } => ContentBlock::Image {
            source: source.duplicate(),
            cache_control: control,
        },
        ContentBlock::ToolResult { tool_use_id, content, is_error, .. } => ContentBlock::ToolResult {
            tool_use_id: tool_use_id.duplicate(),
            content: content.duplicate(),
            is_error: *is_error,
            cache_control: control,
        },
        other => other.duplicate(),
    }
}

fn clear_message(message: &Message) -> (clear: Message)
    ensures
        clear.deep_view() == cleared(message.deep_view()),
{
    let mut content: Vec<ContentBlock> = Vec::new();
    let mut i: usize = 0;
    while i < message.content.len()
        invariant
            i <= message.content.len(),
            content.len() == i,
            forall|j: int|
                0 <= j < i ==> (#[trigger] content@[j]).deep_view() == with_breakpoint(
                    message.content@[j].deep_view(),
                    None,
                ),
        decreases message.content.len() - i,
    {
        content.push(set_breakpoint(&message.content[i], None));
        i += 1;
    }
    assert(content.deep_view() =~= cleared(message.deep_view()).content);
    Message { role: message.role, content }
}

fn is_cacheable(block: &ContentBlock) -> (found: bool)
    ensures
        found == cacheable(block.deep_view()),
{
    match block {
        ContentBlock::Text { .. } | ContentBlock::Image { .. } | ContentBlock::ToolResult { .. } => true,
        _ => false,
    }
}

fn cache_messages(messages: &[Message], control: CacheControl) -> (cached: Vec<Message>)
    ensures
        cached.deep_view() == cached_messages(messages.deep_view(), control),
{
    let mut cached: Vec<Message> = Vec::new();
    let mut i: usize = 0;
    while i < messages.len()
        invariant
            i <= messages.len(),
            cached.len() == i,
            forall|j: int| 0 <= j < i ==> (#[trigger] cached@[j]).deep_view() == cleared(messages@[j].deep_view()),
        decreases messages.len() - i,
    {
        cached.push(clear_message(&messages[i]));
        i += 1;
    }
    let ghost clear = all_cleared(messages.deep_view());
    assert(cached.deep_view() =~= clear);
    let mut below: usize = cached.len();
    while below > 0
        invariant
            below <= cached.len(),
            cached.deep_view() == clear,
            clear == all_cleared(messages.deep_view()),
            last_user(clear, clear.len() as int) == last_user(clear, below as int),
        decreases below,
    {
        assert(clear[below - 1] == cached@[below - 1].deep_view());
        if cached[below - 1].role == Role::User {
            let place: usize = below - 1;
            let mut block: usize = cached[place].content.len();
            let ghost content = clear[place as int].content;
            while block > 0
                invariant
                    place < cached.len(),
                    block <= cached@[place as int].content.len(),
                    cached.deep_view() == clear,
                    clear == all_cleared(messages.deep_view()),
                    content == clear[place as int].content,
                    content == cached@[place as int].content.deep_view(),
                    last_user(clear, clear.len() as int) == Some(place as int),
                    last_cacheable(content, content.len() as int) == last_cacheable(content, block as int),
                decreases block,
            {
                assert(content[block - 1] == cached@[place as int].content@[block - 1].deep_view());
                if is_cacheable(&cached[place].content[block - 1]) {
                    let marked = set_breakpoint(&cached[place].content[block - 1], Some(control));
                    let mut message = cached[place].duplicate();
                    let ghost before = message.content.deep_view();
                    message.content.set(block - 1, marked);
                    assert(message.content.deep_view() =~= before.update(block - 1, marked.deep_view()));
                    cached.set(place, message);
                    assert(cached.deep_view() =~= clear.update(place as int, message.deep_view()));
                    return cached;
                }
                block -= 1;
            }
            return cached;
        }
        below -= 1;
    }
    cached
}

fn cache_system(system: &[SystemBlock]) -> (cached: Vec<SystemBlock>)
    ensures
        cached.deep_view() == cached_system(system.deep_view()),
{
    let mut cached: Vec<SystemBlock> = Vec::new();
    let mut i: usize = 0;
    while i < system.len()
        invariant
            i <= system.len(),
            cached.len() == i,
            forall|j: int|
                0 <= j < i ==> (#[trigger] cached@[j]).deep_view() == cached_system(system.deep_view())[j],
        decreases system.len() - i,
    {
        let SystemBlock::Text { text, .. } = &system[i];
        let control = if i == system.len() - 1 {
            Some(CacheControl::Ephemeral { ttl: Some(CacheTtl::OneHour) })
        } else {
            None
        };
        cached.push(SystemBlock::Text { text: text.duplicate(), cache_control: control });
        i += 1;
    }
    assert(cached.deep_view() =~= cached_system(system.deep_view()));
    cached
}

// ---- transport ----

/// The session that the provider is told of: derived from the resumable session.
pub open spec fn derived_session(resumable: Option<u128>) -> Option<Seq<char>> {
    match resumable {
        None => None,
        Some(session) => Some(hyphenated(uuid_derived(CLAUDE_SESSION_NAMESPACE, big_endian(session)))),
    }
}

/// The session that the provider is told of.
pub open spec fn claude_session(resumable_session_id: Seq<char>) -> Result<Seq<char>, AssembleErrorModel> {
    match derived_session(uuid_read(resumable_session_id)) {
        None => Err(AssembleErrorModel::InvalidSessionId { session_id: resumable_session_id }),
        Some(session) => Ok(session),
    }
}

/// The session that the provider is told of, from a resumable session that was read.
pub fn session_text(resumable: Option<u128>) -> (session: Option<String>)
    ensures
        session.deep_view() == derived_session(resumable),
{
    match resumable {
        None => None,
        Some(value) => {
            let bytes = to_bytes(value);
            Some(hyphenate(derive_uuid(CLAUDE_SESSION_NAMESPACE, bytes.as_slice())))
        },
    }
}

fn claude_session_id(resumable_session_id: &str) -> (session: Result<String, AssembleError>)
    ensures
        outcome(session) == claude_session(resumable_session_id@),
{
    match session_text(read_uuid(resumable_session_id)) {
        None => Err(AssembleError::InvalidSessionId { session_id: resumable_session_id.to_owned() }),
        Some(session) => Ok(session),
    }
}

/// The transport facts of a native request.
pub open spec fn native_transport(codex_version: Seq<char>, session_id: Seq<char>) -> RequestTransportModel {
    let headers = Seq::empty();
    let headers = put(headers, "User-Agent"@, "codex-cli/"@ + codex_version);
    let headers = put(headers, "anthropic-beta"@, native_betas());
    let headers = put(headers, "anthropic-version"@, "2023-06-01"@);
    let headers = put(headers, "x-app"@, "codex"@);
    let headers = put(headers, in_small("x-"@, "-code-session-id"@), session_id);
    RequestTransportModel { method: "POST"@, path: "/v1/messages"@, query: beta_query(), headers }
}

fn request_transport(codex_version: &str, session_id: String) -> (transport: RequestTransport)
    ensures
        transport.deep_view() == native_transport(codex_version@, session_id@),
        transport.headers.in_order(),
        transport.query.in_order(),
{
    let mut headers: StringMap<String> = StringMap::new();
    headers.insert("User-Agent".to_owned(), concat("codex-cli/", codex_version));
    headers.insert("anthropic-beta".to_owned(), anthropic_betas());
    headers.insert("anthropic-version".to_owned(), "2023-06-01".to_owned());
    headers.insert("x-app".to_owned(), "codex".to_owned());
    headers.insert(spell_small("x-", "-code-session-id"), session_id);
    RequestTransport { method: "POST", path: "/v1/messages", query: query_parameters(), headers }
}

// ---- assembly ----

/// The edits of the context for a way of thinking: none where there is no
/// thinking.
pub open spec fn context_edits(thinking: Thinking) -> Option<ContextManagementModel> {
    match thinking {
        Thinking::Disabled => None,
        _ => Some(
            ContextManagementModel { edits: seq![ContextEdit::ClearThinking20251015 { keep: ContextKeep::All }] },
        ),
    }
}

fn context_management(thinking: Thinking) -> (management: Option<ContextManagement>)
    ensures
        management.deep_view() == context_edits(thinking),
{
    match thinking {
        Thinking::Disabled => None,
        _ => {
            let mut edits: Vec<ContextEdit> = no_items();
            push_item(&mut edits, ContextEdit::ClearThinking20251015 { keep: ContextKeep::All });
            assert(edits.deep_view() =~= seq![ContextEdit::ClearThinking20251015 { keep: ContextKeep::All }]);
            Some(ContextManagement { edits })
        },
    }
}

/// What a profile puts in place of the native system prompt and metadata.
pub open spec fn replacement_for(
    opus: Option<OpusCompatibilityContextModel>,
    sonnet: Option<SonnetCompatibilityContextModel>,
) -> Option<(Seq<SystemBlockModel>, RequestMetadataModel)> {
    match (opus, sonnet) {
        (Some(context), _) => Some(
            (context.prompt(), profile_metadata(context.installation_id, context.session_id)),
        ),
        (None, Some(context)) => context.replaced(),
        (None, None) => None,
    }
}

/// The transport facts of a request.
pub open spec fn transport_for(
    opus: Option<OpusCompatibilityContextModel>,
    sonnet: Option<SonnetCompatibilityContextModel>,
    resumable_session_id: Seq<char>,
    codex_version: Seq<char>,
) -> Result<RequestTransportModel, AssembleErrorModel> {
    match (opus, sonnet) {
        (Some(context), _) => Ok(context.request_transport()),
        (None, Some(context)) => Ok(context.request_transport()),
        (None, None) => match claude_session(resumable_session_id) {
            Ok(session) => Ok(native_transport(codex_version, session)),
            Err(error) => Err(error),
        },
    }
}

/// The body of a request: native, or with what a profile puts in its place.
pub open spec fn body_for(
    profile: ClaudeRequestProfileModel,
    messages: Seq<MessageModel>,
    system: Seq<SystemBlockModel>,
    tools: Seq<ToolModel>,
    thinking: Thinking,
    output_config: Option<OutputConfig>,
    replacement: Option<(Seq<SystemBlockModel>, RequestMetadataModel)>,
) -> MessagesRequestModel {
    MessagesRequestModel {
        model: profile.wire_model,
        max_tokens: if replacement is Some {
            COMPATIBILITY_MAX_TOKENS
        } else {
            profile.max_output_tokens
        },
        stream: true,
        system: match replacement {
            Some((prompt, _)) => prompt,
            None => cached_system(system),
        },
        messages: cached_messages(
            messages,
            if replacement is Some {
                default_breakpoint()
            } else {
                one_hour()
            },
        ),
        tools,
        thinking,
        output_config,
        context_management: context_edits(thinking),
        metadata: match replacement {
            Some((_, metadata)) => Some(metadata),
            None => None,
        },
    }
}

/// A request for a profile of Anthropic's, or the first thing that stands
/// against it: the route, a missing context, the session, the effort, a block,
/// a tool.
pub open spec fn assembled_for(
    profile: ClaudeRequestProfileModel,
    effort: ReasoningEffortModel,
    messages: Seq<MessageModel>,
    system: Seq<SystemBlockModel>,
    tools: Seq<ToolSpecModel>,
    resumable_session_id: Seq<char>,
    codex_version: Seq<char>,
    opus_context: Option<OpusCompatibilityContextModel>,
    sonnet_context: Option<SonnetCompatibilityContextModel>,
) -> Result<AssembledRequestModel, AssembleErrorModel> {
    let opus = if profile.wire_model == opus_model() {
        opus_context
    } else {
        None
    };
    let sonnet = if profile.wire_model == sonnet_model() {
        sonnet_context
    } else {
        None
    };
    if profile.wire_api != WireApi::AnthropicMessages || profile.dialect != InferenceDialect::ClaudeCode {
        Err(
            AssembleErrorModel::UnsupportedRouteContract { wire_api: profile.wire_api, dialect: profile.dialect },
        )
    } else if profile.wire_model == opus_model() && opus is None {
        Err(AssembleErrorModel::MissingOpusCompatibilityContext)
    } else {
        let replacement = replacement_for(opus, sonnet);
        let settings = if replacement is Some {
            Ok(profile_thinking(effort))
        } else {
            native_thinking(profile.thinking, profile.supports_disabled_thinking, effort, profile.wire_model)
        };
        match transport_for(opus, sonnet, resumable_session_id, codex_version) {
            Err(error) => Err(error),
            Ok(transport) => match settings {
                Err(error) => Err(error),
                Ok((thinking, output_config)) => match messages_error_from(messages, 0) {
                    Some(error) => Err(error),
                    None => match claude_tools_from(tools, 0, Seq::empty()) {
                        Err(error) => Err(error),
                        Ok(tools) => Ok(
                            AssembledRequestModel {
                                transport,
                                body: body_for(
                                    profile,
                                    messages,
                                    system,
                                    tools,
                                    thinking,
                                    output_config,
                                    replacement,
                                ),
                            },
                        ),
                    },
                },
            },
        }
    }
}

/// A request for a model, or the first thing that stands against it.
pub open spec fn assembled(
    config: ModelInferenceConfigModel,
    effort: ReasoningEffortModel,
    messages: Seq<MessageModel>,
    system: Seq<SystemBlockModel>,
    tools: Seq<ToolSpecModel>,
    resumable_session_id: Seq<char>,
    codex_version: Seq<char>,
    opus_context: Option<OpusCompatibilityContextModel>,
    sonnet_context: Option<SonnetCompatibilityContextModel>,
) -> Result<AssembledRequestModel, AssembleErrorModel> {
    match profile_of(config) {
        None => Err(AssembleErrorModel::NotAnthropicModel),
        Some(profile) => assembled_for(
            profile,
            effort,
            messages,
            system,
            tools,
            resumable_session_id,
            codex_version,
            opus_context,
            sonnet_context,
        ),
    }
}

/// Assembles an exact Messages request from already-native content.
pub fn assemble_request(params: AssembleRequest<'_>) -> (request: Result<AssembledRequest, AssembleError>)
    ensures
        outcome(request) == assembled(
            params.profile.deep_view(),
            params.effort.deep_view(),
            params.messages.deep_view(),
            params.system.deep_view(),
            params.tools.deep_view(),
            params.resumable_session_id@,
            params.codex_version@,
            params.opus_compatibility.deep_view(),
            params.sonnet_compatibility.deep_view(),
        ),
{
    let profile = match ClaudeRequestProfile::of(params.profile) {
        None => {
            return Err(AssembleError::NotAnthropicModel);
        },
        Some(profile) => profile,
    };
    if profile.wire_api != WireApi::AnthropicMessages || profile.dialect != InferenceDialect::ClaudeCode {
        return Err(
            AssembleError::UnsupportedRouteContract { wire_api: profile.wire_api, dialect: profile.dialect },
        );
    }
    let is_opus = *profile.wire_model.as_str() == *opus_wire_model().as_str();
    let is_sonnet = *profile.wire_model.as_str() == *sonnet_wire_model().as_str();
    let opus = if is_opus {
        params.opus_compatibility
    } else {
        None
    };
    if is_opus && opus.is_none() {
        return Err(AssembleError::MissingOpusCompatibilityContext);
    }
    let sonnet = if is_sonnet {
        params.sonnet_compatibility
    } else {
        None
    };
    let (transport, replacement): (RequestTransport, Option<(Vec<SystemBlock>, RequestMetadata)>) = match (
        opus,
        sonnet,
    ) {
        (Some(context), _) => (context.transport(), Some((context.system(), context.metadata()))),
        (None, Some(context)) => (context.transport(), context.replacement()),
        (None, None) => match claude_session_id(params.resumable_session_id) {
            Err(error) => {
                return Err(error);
            },
            Ok(session) => (request_transport(params.codex_version, session), None),
        },
    };
    let (thinking, output_config) = if replacement.is_some() {
        profile_thinking_config(params.effort)
    } else {
        match thinking_config(
            profile.thinking,
            profile.supports_disabled_thinking,
            params.effort,
            &profile.wire_model,
        ) {
            Err(error) => {
                return Err(error);
            },
            Ok(settings) => settings,
        }
    };
    if let Some(error) = validate_messages(params.messages) {
        return Err(error);
    }
    let tools = match encode_tools(params.tools) {
        Err(error) => {
            return Err(error);
        },
        Ok(tools) => tools,
    };
    let (system, metadata, max_tokens, control) = match replacement {
        Some(replaced) => (replaced.0, Some(replaced.1), COMPATIBILITY_MAX_TOKENS, default_cache_control()),
        None => (
            cache_system(params.system),
            None,
            profile.max_output_tokens,
            CacheControl::Ephemeral { ttl: Some(CacheTtl::OneHour) },
        ),
    };
    Ok(
        AssembledRequest {
            transport,
            body: MessagesRequest {
                model: profile.wire_model,
                max_tokens,
                stream: true,
                system,
                messages: cache_messages(params.messages, control),
                tools,
                thinking,
                output_config,
                context_management: context_management(thinking),
                metadata,
            },
        },
    )
}

} // verus!
