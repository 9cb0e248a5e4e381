//! The native Messages grammar.
use crate::fields::StringMap;
use crate::json::{Json, JsonModel};
use crate::model::Duplicate;
use crate::protocol::{AnthropicThinkingPolicy, InferenceDialect, TerminalOutcome, TokenUsage, WireApi};
use vstd::prelude::*;

verus! {

/// How long a cache breakpoint lasts.
#[derive(Debug, Clone, Copy, PartialEq, Eq, Structural)]
pub enum CacheTtl {
    /// Five minutes.
    FiveMinutes,
    /// One hour.
    OneHour,
}

impl DeepView for CacheTtl {
    type V = CacheTtl;

    open spec fn deep_view(&self) -> CacheTtl {
        *self
    }
}

impl Duplicate for CacheTtl {
    fn duplicate(&self) -> (copy: Self) {
        *self
    }
}

/// A cache breakpoint.
#[derive(Debug, Clone, Copy, PartialEq, Eq, Structural)]
pub enum CacheControl {
    /// One that passes.
    Ephemeral {
        ttl: Option<CacheTtl>,
    },
}

impl DeepView for CacheControl {
    type V = CacheControl;

    open spec fn deep_view(&self) -> CacheControl {
        *self
    }
}

impl Duplicate for CacheControl {
    fn duplicate(&self) -> (copy: Self) {
        *self
    }
}

/// Who speaks.
#[derive(Debug, Clone, Copy, PartialEq, Eq, Structural)]
pub enum Role {
    /// The user.
    User,
    /// The model.
    Assistant,
}

impl DeepView for Role {
    type V = Role;

    open spec fn deep_view(&self) -> Role {
        *self
    }
}

impl Duplicate for Role {
    fn duplicate(&self) -> (copy: Self) {
        *self
    }
}

/// Where an image comes from.
#[derive(Debug, Clone, PartialEq, Eq)]
pub enum ImageSource {
    /// Its bytes, in base64.
    Base64 {
        media_type: String,
        data: String,
    },
}

/// The model of [`ImageSource`].
#[verifier::ext_equal]
pub enum ImageSourceModel {
    Base64 {
        media_type: Seq<char>,
        data: Seq<char>,
    },
}

impl DeepView for ImageSource {
    type V = ImageSourceModel;

    open spec fn deep_view(&self) -> ImageSourceModel {
        match self {
            ImageSource::Base64 { media_type, data } => ImageSourceModel::Base64 {
                media_type: media_type.deep_view(),
                data: data.deep_view(),
            },
        }
    }
}

impl Duplicate for ImageSource {
    fn duplicate(&self) -> (copy: Self) {
        match self {
            ImageSource::Base64 { media_type, data } => ImageSource::Base64 {
                media_type: media_type.duplicate(),
                data: data.duplicate(),
            },
        }
    }
}

/// One part of a tool result.
#[derive(Debug, Clone, PartialEq, Eq)]
pub enum ToolResultBlock {
    /// Text.
    Text {
        text: String,
    },
    /// An image.
    Image {
        source: ImageSource,
    },
}

/// The model of [`ToolResultBlock`].
#[verifier::ext_equal]
pub enum ToolResultBlockModel {
    Text {
        text: Seq<char>,
    },
    Image {
        source: ImageSourceModel,
    },
}

impl DeepView for ToolResultBlock {
    type V = ToolResultBlockModel;

    open spec fn deep_view(&self) -> ToolResultBlockModel {
        match self {
            ToolResultBlock::Text { text } => ToolResultBlockModel::Text { text: text.deep_view() },
            ToolResultBlock::Image { source } => ToolResultBlockModel::Image { source: source.deep_view() },
        }
    }
}

impl Duplicate for ToolResultBlock {
    fn duplicate(&self) -> (copy: Self) {
        match self {
            ToolResultBlock::Text { text } => ToolResultBlock::Text { text: text.duplicate() },
            ToolResultBlock::Image { source } => ToolResultBlock::Image { source: source.duplicate() },
        }
    }
}

/// What a tool gave back.
#[derive(Debug, Clone, PartialEq, Eq)]
pub enum ToolResultContent {
    /// Plain text.
    Text(String),
    /// Several parts.
    Blocks(Vec<ToolResultBlock>),
}

/// The model of [`ToolResultContent`].
#[verifier::ext_equal]
pub enum ToolResultContentModel {
    Text(Seq<char>),
    Blocks(Seq<ToolResultBlockModel>),
}

impl DeepView for ToolResultContent {
    type V = ToolResultContentModel;

    open spec fn deep_view(&self) -> ToolResultContentModel {
        match self {
            ToolResultContent::Text(inner) => ToolResultContentModel::Text(inner.deep_view()),
            ToolResultContent::Blocks(inner) => ToolResultContentModel::Blocks(inner.deep_view()),
        }
    }
}

impl Duplicate for ToolResultContent {
    fn duplicate(&self) -> (copy: Self) {
        match self {
            ToolResultContent::Text(inner) => ToolResultContent::Text(inner.duplicate()),
            ToolResultContent::Blocks(inner) => ToolResultContent::Blocks(inner.duplicate()),
        }
    }
}

/// One block of a message.
#[derive(Debug, Clone, PartialEq, Eq)]
pub enum ContentBlock {
    /// Text.
    Text {
        text: String,
        cache_control: Option<CacheControl>,
    },
    /// An image.
    Image {
        source: ImageSource,
        cache_control: Option<CacheControl>,
    },
    /// Signed thinking.
    Thinking {
        thinking: String,
        signature: String,
    },
    /// Thinking that only the provider can read.
    RedactedThinking {
        data: String,
    },
    /// A tool call.
    ToolUse {
        id: String,
        name: String,
        input: Json,
    },
    /// A tool result.
    ToolResult {
        tool_use_id: String,
        content: ToolResultContent,
        is_error: bool,
        cache_control: Option<CacheControl>,
    },
}

/// The model of [`ContentBlock`].
#[verifier::ext_equal]
pub enum ContentBlockModel {
    Text {
        text: Seq<char>,
        cache_control: Option<CacheControl>,
    },
    Image {
        source: ImageSourceModel,
        cache_control: Option<CacheControl>,
    },
    Thinking {
        thinking: Seq<char>,
        signature: Seq<char>,
    },
    RedactedThinking {
        data: Seq<char>,
    },
    ToolUse {
        id: Seq<char>,
        name: Seq<char>,
        input: JsonModel,
    },
    ToolResult {
        tool_use_id: Seq<char>,
        content: ToolResultContentModel,
        is_error: bool,
        cache_control: Option<CacheControl>,
    },
}

impl DeepView for ContentBlock {
    type V = ContentBlockModel;

    open spec fn deep_view(&self) -> ContentBlockModel {
        match self {
            ContentBlock::Text { text, cache_control } => ContentBlockModel::Text {
                text: text.deep_view(),
                cache_control: cache_control.deep_view(),
            },
            ContentBlock::Image { source, cache_control } => ContentBlockModel::Image {
                source: source.deep_view(),
                cache_control: cache_control.deep_view(),
            },
            ContentBlock::Thinking { thinking, signature } => ContentBlockModel::Thinking {
                thinking: thinking.deep_view(),
                signature: signature.deep_view(),
            },
            ContentBlock::RedactedThinking { data } => ContentBlockModel::RedactedThinking { data: data.deep_view() },
            ContentBlock::ToolUse { id, name, input } => ContentBlockModel::ToolUse {
                id: id.deep_view(),
                name: name.deep_view(),
                input: input.deep_view(),
            },
            ContentBlock::ToolResult {
                tool_use_id,
                content,
                is_error,
                cache_control,
            } => ContentBlockModel::ToolResult {
                tool_use_id: tool_use_id.deep_view(),
                content: content.deep_view(),
                is_error: is_error.deep_view(),
                cache_control: cache_control.deep_view(),
            },
        }
    }
}

impl Duplicate for ContentBlock {
    fn duplicate(&self) -> (copy: Self) {
        match self {
            ContentBlock::Text { text, cache_control } => ContentBlock::Text {
                text: text.duplicate(),
                cache_control: cache_control.duplicate(),
            },
            ContentBlock::Image { source, cache_control } => ContentBlock::Image {
                source: source.duplicate(),
                cache_control: cache_control.duplicate(),
            },
            ContentBlock::Thinking { thinking, signature } => ContentBlock::Thinking {
                thinking: thinking.duplicate(),
                signature: signature.duplicate(),
            },
            ContentBlock::RedactedThinking { data } => ContentBlock::RedactedThinking { data: data.duplicate() },
            ContentBlock::ToolUse { id, name, input } => ContentBlock::ToolUse {
                id: id.duplicate(),
                name: name.duplicate(),
                input: input.duplicate(),
            },
            ContentBlock::ToolResult { tool_use_id, content, is_error, cache_control } => ContentBlock::ToolResult {
                tool_use_id: tool_use_id.duplicate(),
                content: content.duplicate(),
                is_error: is_error.duplicate(),
                cache_control: cache_control.duplicate(),
            },
        }
    }
}

/// One message.
#[derive(Debug, Clone, PartialEq, Eq)]
pub struct Message {
    pub role: Role,
    pub content: Vec<ContentBlock>,
}

/// The model of [`Message`].
#[verifier::ext_equal]
pub struct MessageModel {
    pub role: Role,
    pub content: Seq<ContentBlockModel>,
}

impl DeepView for Message {
    type V = MessageModel;

    open spec fn deep_view(&self) -> MessageModel {
        MessageModel {
            role: self.role.deep_view(),
            content: self.content.deep_view(),
        }
    }
}

impl Duplicate for Message {
    fn duplicate(&self) -> (copy: Self) {
        Message {
            role: self.role.duplicate(),
            content: self.content.duplicate(),
        }
    }
}

/// One block of the system prompt.
#[derive(Debug, Clone, PartialEq, Eq)]
pub enum SystemBlock {
    /// Text.
    Text {
        text: String,
        cache_control: Option<CacheControl>,
    },
}

/// The model of [`SystemBlock`].
#[verifier::ext_equal]
pub enum SystemBlockModel {
    Text {
        text: Seq<char>,
        cache_control: Option<CacheControl>,
    },
}

impl DeepView for SystemBlock {
    type V = SystemBlockModel;

    open spec fn deep_view(&self) -> SystemBlockModel {
        match self {
            SystemBlock::Text { text, cache_control } => SystemBlockModel::Text {
                text: text.deep_view(),
                cache_control: cache_control.deep_view(),
            },
        }
    }
}

impl Duplicate for SystemBlock {
    fn duplicate(&self) -> (copy: Self) {
        match self {
            SystemBlock::Text { text, cache_control } => SystemBlock::Text {
                text: text.duplicate(),
                cache_control: cache_control.duplicate(),
            },
        }
    }
}

/// A tool offered to the model.
#[derive(Debug, Clone, PartialEq, Eq)]
pub struct Tool {
    pub name: String,
    pub description: String,
    pub input_schema: Json,
    pub cache_control: Option<CacheControl>,
}

/// The model of [`Tool`].
#[verifier::ext_equal]
pub struct ToolModel {
    pub name: Seq<char>,
    pub description: Seq<char>,
    pub input_schema: JsonModel,
    pub cache_control: Option<CacheControl>,
}

impl DeepView for Tool {
    type V = ToolModel;

    open spec fn deep_view(&self) -> ToolModel {
        ToolModel {
            name: self.name.deep_view(),
            description: self.description.deep_view(),
            input_schema: self.input_schema.deep_view(),
            cache_control: self.cache_control.deep_view(),
        }
    }
}

impl Duplicate for Tool {
    fn duplicate(&self) -> (copy: Self) {
        Tool {
            name: self.name.duplicate(),
            description: self.description.duplicate(),
            input_schema: self.input_schema.duplicate(),
            cache_control: self.cache_control.duplicate(),
        }
    }
}

/// How thinking is shown.
#[derive(Debug, Clone, Copy, PartialEq, Eq, Structural)]
pub enum ThinkingDisplay {
    /// Not at all.
    Omitted,
}

impl DeepView for ThinkingDisplay {
    type V = ThinkingDisplay;

    open spec fn deep_view(&self) -> ThinkingDisplay {
        *self
    }
}

impl Duplicate for ThinkingDisplay {
    fn duplicate(&self) -> (copy: Self) {
        *self
    }
}

/// How the model thinks.
#[derive(Debug, Clone, Copy, PartialEq, Eq, Structural)]
pub enum Thinking {
    /// Within a budget of tokens.
    Enabled {
        budget_tokens: u32,
        display: ThinkingDisplay,
    },
    /// As it sees fit.
    Adaptive {
        display: Option<ThinkingDisplay>,
    },
    /// Not at all.
    Disabled,
}

impl DeepView for Thinking {
    type V = Thinking;

    open spec fn deep_view(&self) -> Thinking {
        *self
    }
}

impl Duplicate for Thinking {
    fn duplicate(&self) -> (copy: Self) {
        *self
    }
}

/// How much the model puts into its output.
#[derive(Debug, Clone, Copy, PartialEq, Eq, Structural)]
pub enum OutputEffort {
    /// Little.
    Low,
    /// Some.
    Medium,
    /// Much.
    High,
    /// Very much.
    Xhigh,
    /// The most.
    Max,
}

impl DeepView for OutputEffort {
    type V = OutputEffort;

    open spec fn deep_view(&self) -> OutputEffort {
        *self
    }
}

impl Duplicate for OutputEffort {
    fn duplicate(&self) -> (copy: Self) {
        *self
    }
}

/// The output settings of a request.
#[derive(Debug, Clone, Copy, PartialEq, Eq, Structural)]
pub struct OutputConfig {
    pub effort: OutputEffort,
}

impl DeepView for OutputConfig {
    type V = OutputConfig;

    open spec fn deep_view(&self) -> OutputConfig {
        *self
    }
}

impl Duplicate for OutputConfig {
    fn duplicate(&self) -> (copy: Self) {
        *self
    }
}

/// What an edit of the context keeps.
#[derive(Debug, Clone, Copy, PartialEq, Eq, Structural)]
pub enum ContextKeep {
    /// Everything.
    All,
}

impl DeepView for ContextKeep {
    type V = ContextKeep;

    open spec fn deep_view(&self) -> ContextKeep {
        *self
    }
}

impl Duplicate for ContextKeep {
    fn duplicate(&self) -> (copy: Self) {
        *self
    }
}

/// An edit of the context.
#[derive(Debug, Clone, Copy, PartialEq, Eq, Structural)]
pub enum ContextEdit {
    /// Clears thinking.
    ClearThinking20251015 {
        keep: ContextKeep,
    },
}

impl DeepView for ContextEdit {
    type V = ContextEdit;

    open spec fn deep_view(&self) -> ContextEdit {
        *self
    }
}

impl Duplicate for ContextEdit {
    fn duplicate(&self) -> (copy: Self) {
        *self
    }
}

/// The edits of the context that a request asks for.
#[derive(Debug, Clone, PartialEq, Eq)]
pub struct ContextManagement {
    pub edits: Vec<ContextEdit>,
}

/// The model of [`ContextManagement`].
#[verifier::ext_equal]
pub struct ContextManagementModel {
    pub edits: Seq<ContextEdit>,
}

impl DeepView for ContextManagement {
    type V = ContextManagementModel;

    open spec fn deep_view(&self) -> ContextManagementModel {
        ContextManagementModel {
            edits: self.edits.deep_view(),
        }
    }
}

impl Duplicate for ContextManagement {
    fn duplicate(&self) -> (copy: Self) {
        ContextManagement {
            edits: self.edits.duplicate(),
        }
    }
}

/// Who a request is made for.
#[derive(Debug, Clone, PartialEq, Eq)]
pub struct RequestMetadata {
    pub user_id: Option<String>,
}

/// The model of [`RequestMetadata`].
#[verifier::ext_equal]
pub struct RequestMetadataModel {
    pub user_id: Option<Seq<char>>,
}

impl DeepView for RequestMetadata {
    type V = RequestMetadataModel;

    open spec fn deep_view(&self) -> RequestMetadataModel {
        RequestMetadataModel {
            user_id: self.user_id.deep_view(),
        }
    }
}

impl Duplicate for RequestMetadata {
    fn duplicate(&self) -> (copy: Self) {
        RequestMetadata {
            user_id: self.user_id.duplicate(),
        }
    }
}

/// A request.
#[derive(Debug, Clone, PartialEq, Eq)]
pub struct MessagesRequest {
    pub model: String,
    pub max_tokens: u32,
    pub stream: bool,
    pub system: Vec<SystemBlock>,
    pub messages: Vec<Message>,
    pub tools: Vec<Tool>,
    pub thinking: Thinking,
    pub output_config: Option<OutputConfig>,
    pub context_management: Option<ContextManagement>,
    pub metadata: Option<RequestMetadata>,
}

/// The model of [`MessagesRequest`].
#[verifier::ext_equal]
pub struct MessagesRequestModel {
    pub model: Seq<char>,
    pub max_tokens: u32,
    pub stream: bool,
    pub system: Seq<SystemBlockModel>,
    pub messages: Seq<MessageModel>,
    pub tools: Seq<ToolModel>,
    pub thinking: Thinking,
    pub output_config: Option<OutputConfig>,
    pub context_management: Option<ContextManagementModel>,
    pub metadata: Option<RequestMetadataModel>,
}

impl DeepView for MessagesRequest {
    type V = MessagesRequestModel;

    open spec fn deep_view(&self) -> MessagesRequestModel {
        MessagesRequestModel {
            model: self.model.deep_view(),
            max_tokens: self.max_tokens.deep_view(),
            stream: self.stream.deep_view(),
            system: self.system.deep_view(),
            messages: self.messages.deep_view(),
            tools: self.tools.deep_view(),
            thinking: self.thinking.deep_view(),
            output_config: self.output_config.deep_view(),
            context_management: self.context_management.deep_view(),
            metadata: self.metadata.deep_view(),
        }
    }
}

impl Duplicate for MessagesRequest {
    fn duplicate(&self) -> (copy: Self) {
        MessagesRequest {
            model: self.model.duplicate(),
            max_tokens: self.max_tokens.duplicate(),
            stream: self.stream.duplicate(),
            system: self.system.duplicate(),
            messages: self.messages.duplicate(),
            tools: self.tools.duplicate(),
            thinking: self.thinking.duplicate(),
            output_config: self.output_config.duplicate(),
            context_management: self.context_management.duplicate(),
            metadata: self.metadata.duplicate(),
        }
    }
}

/// HTTP method, endpoint, query parameters, and headers for one request.
#[derive(Debug, Clone, PartialEq, Eq)]
pub struct RequestTransport {
    pub method: &'static str,
    pub path: &'static str,
    pub query: StringMap<String>,
    pub headers: StringMap<String>,
}

/// The model of [`RequestTransport`].
#[verifier::ext_equal]
pub struct RequestTransportModel {
    pub method: Seq<char>,
    pub path: Seq<char>,
    pub query: Seq<(Seq<char>, Seq<char>)>,
    pub headers: Seq<(Seq<char>, Seq<char>)>,
}

impl DeepView for RequestTransport {
    type V = RequestTransportModel;

    open spec fn deep_view(&self) -> RequestTransportModel {
        RequestTransportModel {
            method: self.method.deep_view(),
            path: self.path.deep_view(),
            query: self.query.deep_view(),
            headers: self.headers.deep_view(),
        }
    }
}

impl Duplicate for RequestTransport {
    fn duplicate(&self) -> (copy: Self) {
        RequestTransport {
            method: self.method.duplicate(),
            path: self.path.duplicate(),
            query: self.query.duplicate(),
            headers: self.headers.duplicate(),
        }
    }
}

/// The complete native Messages request and the transport facts required to send it.
#[derive(Debug, Clone, PartialEq, Eq)]
pub struct AssembledRequest {
    pub transport: RequestTransport,
    pub body: MessagesRequest,
}

/// The model of [`AssembledRequest`].
#[verifier::ext_equal]
pub struct AssembledRequestModel {
    pub transport: RequestTransportModel,
    pub body: MessagesRequestModel,
}

impl DeepView for AssembledRequest {
    type V = AssembledRequestModel;

    open spec fn deep_view(&self) -> AssembledRequestModel {
        AssembledRequestModel {
            transport: self.transport.deep_view(),
            body: self.body.deep_view(),
        }
    }
}

impl Duplicate for AssembledRequest {
    fn duplicate(&self) -> (copy: Self) {
        AssembledRequest {
            transport: self.transport.duplicate(),
            body: self.body.duplicate(),
        }
    }
}

/// Tokens that were written to the cache, by how long they last.
#[derive(Debug, Clone, Copy, PartialEq, Eq, Structural)]
pub struct CacheCreationUsage {
    pub ephemeral_5m_input_tokens: u64,
    pub ephemeral_1h_input_tokens: u64,
}

impl DeepView for CacheCreationUsage {
    type V = CacheCreationUsage;

    open spec fn deep_view(&self) -> CacheCreationUsage {
        *self
    }
}

impl Duplicate for CacheCreationUsage {
    fn duplicate(&self) -> (copy: Self) {
        *self
    }
}

/// Reported usage.
#[derive(Debug, Clone, Copy, PartialEq, Eq, Structural)]
pub struct Usage {
    pub input_tokens: u64,
    pub output_tokens: u64,
    pub cache_creation_input_tokens: Option<u64>,
    pub cache_read_input_tokens: Option<u64>,
    pub thinking_tokens: Option<u64>,
    pub cache_creation: Option<CacheCreationUsage>,
}

impl DeepView for Usage {
    type V = Usage;

    open spec fn deep_view(&self) -> Usage {
        *self
    }
}

impl Duplicate for Usage {
    fn duplicate(&self) -> (copy: Self) {
        *self
    }
}

/// What a request is made with, of the profile of a model.
#[derive(Debug, Clone, PartialEq, Eq)]
pub struct ClaudeRequestProfile {
    pub wire_api: WireApi,
    pub dialect: InferenceDialect,
    pub wire_model: String,
    pub max_output_tokens: u32,
    pub thinking: AnthropicThinkingPolicy,
    pub supports_disabled_thinking: bool,
}

/// The model of [`ClaudeRequestProfile`].
#[verifier::ext_equal]
pub struct ClaudeRequestProfileModel {
    pub wire_api: WireApi,
    pub dialect: InferenceDialect,
    pub wire_model: Seq<char>,
    pub max_output_tokens: u32,
    pub thinking: AnthropicThinkingPolicy,
    pub supports_disabled_thinking: bool,
}

impl DeepView for ClaudeRequestProfile {
    type V = ClaudeRequestProfileModel;

    open spec fn deep_view(&self) -> ClaudeRequestProfileModel {
        ClaudeRequestProfileModel {
            wire_api: self.wire_api.deep_view(),
            dialect: self.dialect.deep_view(),
            wire_model: self.wire_model.deep_view(),
            max_output_tokens: self.max_output_tokens.deep_view(),
            thinking: self.thinking.deep_view(),
            supports_disabled_thinking: self.supports_disabled_thinking.deep_view(),
        }
    }
}

impl Duplicate for ClaudeRequestProfile {
    fn duplicate(&self) -> (copy: Self) {
        ClaudeRequestProfile {
            wire_api: self.wire_api.duplicate(),
            dialect: self.dialect.duplicate(),
            wire_model: self.wire_model.duplicate(),
            max_output_tokens: self.max_output_tokens.duplicate(),
            thinking: self.thinking.duplicate(),
            supports_disabled_thinking: self.supports_disabled_thinking.duplicate(),
        }
    }
}

/// A function in the form that the provider takes.
#[derive(Debug, Clone, PartialEq, Eq)]
pub struct ClaudeFunctionTool {
    pub name: String,
    pub description: String,
    pub input_schema: Json,
}

/// The model of [`ClaudeFunctionTool`].
#[verifier::ext_equal]
pub struct ClaudeFunctionToolModel {
    pub name: Seq<char>,
    pub description: Seq<char>,
    pub input_schema: JsonModel,
}

impl DeepView for ClaudeFunctionTool {
    type V = ClaudeFunctionToolModel;

    open spec fn deep_view(&self) -> ClaudeFunctionToolModel {
        ClaudeFunctionToolModel {
            name: self.name.deep_view(),
            description: self.description.deep_view(),
            input_schema: self.input_schema.deep_view(),
        }
    }
}

impl Duplicate for ClaudeFunctionTool {
    fn duplicate(&self) -> (copy: Self) {
        ClaudeFunctionTool {
            name: self.name.duplicate(),
            description: self.description.duplicate(),
            input_schema: self.input_schema.duplicate(),
        }
    }
}

/// A tool as the model sees it.
#[derive(Debug, Clone, PartialEq, Eq)]
pub enum ClaudeToolSpec {
    /// A function.
    Function(ClaudeFunctionTool),
    /// A tool that cannot be offered.
    Unsupported {
        kind: &'static str,
        name: String,
    },
}

/// The model of [`ClaudeToolSpec`].
#[verifier::ext_equal]
pub enum ClaudeToolSpecModel {
    Function(ClaudeFunctionToolModel),
    Unsupported {
        kind: Seq<char>,
        name: Seq<char>,
    },
}

impl DeepView for ClaudeToolSpec {
    type V = ClaudeToolSpecModel;

    open spec fn deep_view(&self) -> ClaudeToolSpecModel {
        match self {
            ClaudeToolSpec::Function(inner) => ClaudeToolSpecModel::Function(inner.deep_view()),
            ClaudeToolSpec::Unsupported { kind, name } => ClaudeToolSpecModel::Unsupported {
                kind: kind.deep_view(),
                name: name.deep_view(),
            },
        }
    }
}

impl Duplicate for ClaudeToolSpec {
    fn duplicate(&self) -> (copy: Self) {
        match self {
            ClaudeToolSpec::Function(inner) => ClaudeToolSpec::Function(inner.duplicate()),
            ClaudeToolSpec::Unsupported { kind, name } => ClaudeToolSpec::Unsupported {
                kind: kind.duplicate(),
                name: name.duplicate(),
            },
        }
    }
}

/// One block of a decoded response.
#[derive(Debug, Clone, PartialEq, Eq)]
pub enum DecodedBlock {
    /// Text.
    Text {
        text: String,
    },
    /// Signed thinking.
    Thinking {
        thinking: String,
        signature: String,
    },
    /// Thinking that only the provider can read.
    RedactedThinking {
        data: String,
    },
    /// A tool call.
    ToolUse {
        id: String,
        name: String,
        input: Json,
    },
}

/// The model of [`DecodedBlock`].
#[verifier::ext_equal]
pub enum DecodedBlockModel {
    Text {
        text: Seq<char>,
    },
    Thinking {
        thinking: Seq<char>,
        signature: Seq<char>,
    },
    RedactedThinking {
        data: Seq<char>,
    },
    ToolUse {
        id: Seq<char>,
        name: Seq<char>,
        input: JsonModel,
    },
}

impl DeepView for DecodedBlock {
    type V = DecodedBlockModel;

    open spec fn deep_view(&self) -> DecodedBlockModel {
        match self {
            DecodedBlock::Text { text } => DecodedBlockModel::Text { text: text.deep_view() },
            DecodedBlock::Thinking { thinking, signature } => DecodedBlockModel::Thinking {
                thinking: thinking.deep_view(),
                signature: signature.deep_view(),
            },
            DecodedBlock::RedactedThinking { data } => DecodedBlockModel::RedactedThinking { data: data.deep_view() },
            DecodedBlock::ToolUse { id, name, input } => DecodedBlockModel::ToolUse {
                id: id.deep_view(),
                name: name.deep_view(),
                input: input.deep_view(),
            },
        }
    }
}

impl Duplicate for DecodedBlock {
    fn duplicate(&self) -> (copy: Self) {
        match self {
            DecodedBlock::Text { text } => DecodedBlock::Text { text: text.duplicate() },
            DecodedBlock::Thinking { thinking, signature } => DecodedBlock::Thinking {
                thinking: thinking.duplicate(),
                signature: signature.duplicate(),
            },
            DecodedBlock::RedactedThinking { data } => DecodedBlock::RedactedThinking { data: data.duplicate() },
            DecodedBlock::ToolUse { id, name, input } => DecodedBlock::ToolUse {
                id: id.duplicate(),
                name: name.duplicate(),
                input: input.duplicate(),
            },
        }
    }
}

/// Output as it comes in, for display.
#[derive(Debug, Clone, PartialEq, Eq)]
pub enum PresentationDelta {
    /// Text.
    Text {
        index: usize,
        delta: String,
    },
    /// Thinking.
    Thinking {
        index: usize,
        delta: String,
    },
    /// Input of a tool call.
    ToolInput {
        index: usize,
        delta: String,
    },
}

/// The model of [`PresentationDelta`].
#[verifier::ext_equal]
pub enum PresentationDeltaModel {
    Text {
        index: usize,
        delta: Seq<char>,
    },
    Thinking {
        index: usize,
        delta: Seq<char>,
    },
    ToolInput {
        index: usize,
        delta: Seq<char>,
    },
}

impl DeepView for PresentationDelta {
    type V = PresentationDeltaModel;

    open spec fn deep_view(&self) -> PresentationDeltaModel {
        match self {
            PresentationDelta::Text { index, delta } => PresentationDeltaModel::Text {
                index: index.deep_view(),
                delta: delta.deep_view(),
            },
            PresentationDelta::Thinking { index, delta } => PresentationDeltaModel::Thinking {
                index: index.deep_view(),
                delta: delta.deep_view(),
            },
            PresentationDelta::ToolInput { index, delta } => PresentationDeltaModel::ToolInput {
                index: index.deep_view(),
                delta: delta.deep_view(),
            },
        }
    }
}

impl Duplicate for PresentationDelta {
    fn duplicate(&self) -> (copy: Self) {
        match self {
            PresentationDelta::Text { index, delta } => PresentationDelta::Text {
                index: index.duplicate(),
                delta: delta.duplicate(),
            },
            PresentationDelta::Thinking { index, delta } => PresentationDelta::Thinking {
                index: index.duplicate(),
                delta: delta.duplicate(),
            },
            PresentationDelta::ToolInput { index, delta } => PresentationDelta::ToolInput {
                index: index.duplicate(),
                delta: delta.duplicate(),
            },
        }
    }
}

/// A whole streamed response.
#[derive(Debug, Clone, PartialEq, Eq)]
pub struct DecodedStream {
    pub message_id: String,
    pub model: String,
    pub blocks: Vec<DecodedBlock>,
    pub terminal_outcome: TerminalOutcome,
    pub usage: Usage,
    pub token_usage: TokenUsage,
}

/// The model of [`DecodedStream`].
#[verifier::ext_equal]
pub struct DecodedStreamModel {
    pub message_id: Seq<char>,
    pub model: Seq<char>,
    pub blocks: Seq<DecodedBlockModel>,
    pub terminal_outcome: TerminalOutcome,
    pub usage: Usage,
    pub token_usage: TokenUsage,
}

impl DeepView for DecodedStream {
    type V = DecodedStreamModel;

    open spec fn deep_view(&self) -> DecodedStreamModel {
        DecodedStreamModel {
            message_id: self.message_id.deep_view(),
            model: self.model.deep_view(),
            blocks: self.blocks.deep_view(),
            terminal_outcome: self.terminal_outcome.deep_view(),
            usage: self.usage.deep_view(),
            token_usage: self.token_usage.deep_view(),
        }
    }
}

impl Duplicate for DecodedStream {
    fn duplicate(&self) -> (copy: Self) {
        DecodedStream {
            message_id: self.message_id.duplicate(),
            model: self.model.duplicate(),
            blocks: self.blocks.duplicate(),
            terminal_outcome: self.terminal_outcome.duplicate(),
            usage: self.usage.duplicate(),
            token_usage: self.token_usage.duplicate(),
        }
    }
}

impl ClaudeToolSpecModel {
    /// The name that the tool goes by.
    pub open spec fn label(self) -> Seq<char> {
        match self {
            ClaudeToolSpecModel::Function(tool) => tool.name,
            ClaudeToolSpecModel::Unsupported { name, .. } => name,
        }
    }
}

impl ClaudeToolSpec {
    /// The name that the tool goes by.
    pub fn name(&self) -> (name: &str)
        ensures
            name@ == self.deep_view().label(),
    {
        match self {
            ClaudeToolSpec::Function(tool) => tool.name.as_str(),
            ClaudeToolSpec::Unsupported { name, .. } => name.as_str(),
        }
    }
}

} // verus!
