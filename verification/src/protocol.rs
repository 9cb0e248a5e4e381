//! The provider-neutral vocabulary: conversation items, tools and outcomes.
use crate::json::{Json, JsonModel};
use crate::model::Duplicate;
use vstd::prelude::*;

verus! {

/// The inference dialect that a model was resolved to.
#[derive(Debug, Clone, Copy, PartialEq, Eq, Structural)]
pub enum InferenceDialect {
    /// OpenAI's own.
    OpenAi,
    /// The coding client of Anthropic.
    ClaudeCode,
    /// Kimi.
    Kimi,
    /// Grok.
    Grok,
}

impl DeepView for InferenceDialect {
    type V = InferenceDialect;

    open spec fn deep_view(&self) -> InferenceDialect {
        *self
    }
}

impl Duplicate for InferenceDialect {
    fn duplicate(&self) -> (copy: Self) {
        *self
    }
}

/// The wire protocol that a model is reached by.
#[derive(Debug, Clone, Copy, PartialEq, Eq, Structural)]
pub enum WireApi {
    /// The Responses API.
    Responses,
    /// The Anthropic Messages API.
    AnthropicMessages,
    /// The Chat Completions API.
    ChatCompletions,
}

impl DeepView for WireApi {
    type V = WireApi;

    open spec fn deep_view(&self) -> WireApi {
        *self
    }
}

impl Duplicate for WireApi {
    fn duplicate(&self) -> (copy: Self) {
        *self
    }
}

/// How a model is asked to think.
#[derive(Debug, Clone, Copy, PartialEq, Eq, Structural)]
pub enum AnthropicThinkingPolicy {
    /// Within a budget of tokens.
    Budgeted {
        budget_tokens: u32,
    },
    /// As it sees fit.
    Adaptive,
}

impl DeepView for AnthropicThinkingPolicy {
    type V = AnthropicThinkingPolicy;

    open spec fn deep_view(&self) -> AnthropicThinkingPolicy {
        *self
    }
}

impl Duplicate for AnthropicThinkingPolicy {
    fn duplicate(&self) -> (copy: Self) {
        *self
    }
}

/// How much reasoning a turn asks for.
#[derive(Debug, Clone, PartialEq, Eq)]
pub enum ReasoningEffort {
    /// None at all.
    Off,
    /// The least.
    Minimal,
    /// Little.
    Low,
    /// Some.
    Medium,
    /// Much.
    High,
    /// Very much.
    XHigh,
    /// The most of the common levels.
    Max,
    /// Beyond the common levels.
    Ultra,
    /// Without an end of its own.
    Persistent,
    /// A level that only the provider knows.
    Custom(String),
}

/// The model of [`ReasoningEffort`].
#[verifier::ext_equal]
pub enum ReasoningEffortModel {
    Off,
    Minimal,
    Low,
    Medium,
    High,
    XHigh,
    Max,
    Ultra,
    Persistent,
    Custom(Seq<char>),
}

impl DeepView for ReasoningEffort {
    type V = ReasoningEffortModel;

    open spec fn deep_view(&self) -> ReasoningEffortModel {
        match self {
            ReasoningEffort::Off => ReasoningEffortModel::Off,
            ReasoningEffort::Minimal => ReasoningEffortModel::Minimal,
            ReasoningEffort::Low => ReasoningEffortModel::Low,
            ReasoningEffort::Medium => ReasoningEffortModel::Medium,
            ReasoningEffort::High => ReasoningEffortModel::High,
            ReasoningEffort::XHigh => ReasoningEffortModel::XHigh,
            ReasoningEffort::Max => ReasoningEffortModel::Max,
            ReasoningEffort::Ultra => ReasoningEffortModel::Ultra,
            ReasoningEffort::Persistent => ReasoningEffortModel::Persistent,
            ReasoningEffort::Custom(inner) => ReasoningEffortModel::Custom(inner.deep_view()),
        }
    }
}

impl Duplicate for ReasoningEffort {
    fn duplicate(&self) -> (copy: Self) {
        match self {
            ReasoningEffort::Off => ReasoningEffort::Off,
            ReasoningEffort::Minimal => ReasoningEffort::Minimal,
            ReasoningEffort::Low => ReasoningEffort::Low,
            ReasoningEffort::Medium => ReasoningEffort::Medium,
            ReasoningEffort::High => ReasoningEffort::High,
            ReasoningEffort::XHigh => ReasoningEffort::XHigh,
            ReasoningEffort::Max => ReasoningEffort::Max,
            ReasoningEffort::Ultra => ReasoningEffort::Ultra,
            ReasoningEffort::Persistent => ReasoningEffort::Persistent,
            ReasoningEffort::Custom(inner) => ReasoningEffort::Custom(inner.duplicate()),
        }
    }
}

/// How a response ended.
#[derive(Debug, Clone, Copy, PartialEq, Eq, Structural)]
pub enum TerminalOutcome {
    /// The turn is complete.
    Completed,
    /// Tool calls wait for their results.
    ToolsReady,
    /// The provider paused and wants to go on.
    Continue,
    /// The output limit was reached.
    OutputExhausted,
    /// The model declined.
    Refusal,
}

impl DeepView for TerminalOutcome {
    type V = TerminalOutcome;

    open spec fn deep_view(&self) -> TerminalOutcome {
        *self
    }
}

impl Duplicate for TerminalOutcome {
    fn duplicate(&self) -> (copy: Self) {
        *self
    }
}

/// Tokens that a response used.
#[derive(Debug, Clone, Copy, PartialEq, Eq, Structural)]
pub struct TokenUsage {
    pub input_tokens: i64,
    pub cached_input_tokens: i64,
    pub cache_write_input_tokens: i64,
    pub output_tokens: i64,
    pub reasoning_output_tokens: i64,
    pub total_tokens: i64,
}

impl DeepView for TokenUsage {
    type V = TokenUsage;

    open spec fn deep_view(&self) -> TokenUsage {
        *self
    }
}

impl Duplicate for TokenUsage {
    fn duplicate(&self) -> (copy: Self) {
        *self
    }
}

/// Whether and how a Kimi model thinks.
#[derive(Debug, Clone, Copy, PartialEq, Eq, Structural)]
pub enum KimiThinkingPolicy {
    /// It always thinks, as much as it is asked to.
    RequiredWithEffort,
    /// It always thinks.
    Required,
}

impl DeepView for KimiThinkingPolicy {
    type V = KimiThinkingPolicy;

    open spec fn deep_view(&self) -> KimiThinkingPolicy {
        *self
    }
}

impl Duplicate for KimiThinkingPolicy {
    fn duplicate(&self) -> (copy: Self) {
        *self
    }
}

/// What a Kimi model is reached with.
#[derive(Debug, Clone, PartialEq, Eq)]
pub struct KimiInferenceConfig {
    pub wire_api: WireApi,
    pub dialect: InferenceDialect,
    pub route: String,
    pub wire_model: String,
    pub max_output_tokens: u32,
    pub thinking: KimiThinkingPolicy,
}

/// The model of [`KimiInferenceConfig`].
#[verifier::ext_equal]
pub struct KimiInferenceConfigModel {
    pub wire_api: WireApi,
    pub dialect: InferenceDialect,
    pub route: Seq<char>,
    pub wire_model: Seq<char>,
    pub max_output_tokens: u32,
    pub thinking: KimiThinkingPolicy,
}

impl DeepView for KimiInferenceConfig {
    type V = KimiInferenceConfigModel;

    open spec fn deep_view(&self) -> KimiInferenceConfigModel {
        KimiInferenceConfigModel {
            wire_api: self.wire_api.deep_view(),
            dialect: self.dialect.deep_view(),
            route: self.route.deep_view(),
            wire_model: self.wire_model.deep_view(),
            max_output_tokens: self.max_output_tokens.deep_view(),
            thinking: self.thinking.deep_view(),
        }
    }
}

impl Duplicate for KimiInferenceConfig {
    fn duplicate(&self) -> (copy: Self) {
        KimiInferenceConfig {
            wire_api: self.wire_api.duplicate(),
            dialect: self.dialect.duplicate(),
            route: self.route.duplicate(),
            wire_model: self.wire_model.duplicate(),
            max_output_tokens: self.max_output_tokens.duplicate(),
            thinking: self.thinking.duplicate(),
        }
    }
}

/// What a model is reached with.
#[derive(Debug, Clone, PartialEq, Eq)]
pub enum ModelInferenceConfig {
    /// A model of OpenAI.
    OpenAi {
        wire_api: WireApi,
        dialect: InferenceDialect,
        route: String,
        wire_model: String,
    },
    /// A model of Anthropic.
    Anthropic {
        wire_api: WireApi,
        dialect: InferenceDialect,
        route: String,
        wire_model: String,
        max_output_tokens: u32,
        thinking: AnthropicThinkingPolicy,
        supports_disabled_thinking: bool,
    },
    /// A Kimi model.
    Kimi(KimiInferenceConfig),
}

/// The model of [`ModelInferenceConfig`].
#[verifier::ext_equal]
pub enum ModelInferenceConfigModel {
    OpenAi {
        wire_api: WireApi,
        dialect: InferenceDialect,
        route: Seq<char>,
        wire_model: Seq<char>,
    },
    Anthropic {
        wire_api: WireApi,
        dialect: InferenceDialect,
        route: Seq<char>,
        wire_model: Seq<char>,
        max_output_tokens: u32,
        thinking: AnthropicThinkingPolicy,
        supports_disabled_thinking: bool,
    },
    Kimi(KimiInferenceConfigModel),
}

impl DeepView for ModelInferenceConfig {
    type V = ModelInferenceConfigModel;

    open spec fn deep_view(&self) -> ModelInferenceConfigModel {
        match self {
            ModelInferenceConfig::OpenAi { wire_api, dialect, route, wire_model } => ModelInferenceConfigModel::OpenAi {
                wire_api: wire_api.deep_view(),
                dialect: dialect.deep_view(),
                route: route.deep_view(),
                wire_model: wire_model.deep_view(),
            },
            ModelInferenceConfig::Anthropic {
                wire_api,
                dialect,
                route,
                wire_model,
                max_output_tokens,
                thinking,
                supports_disabled_thinking,
            } => ModelInferenceConfigModel::Anthropic {
                wire_api: wire_api.deep_view(),
                dialect: dialect.deep_view(),
                route: route.deep_view(),
                wire_model: wire_model.deep_view(),
                max_output_tokens: max_output_tokens.deep_view(),
                thinking: thinking.deep_view(),
                supports_disabled_thinking: supports_disabled_thinking.deep_view(),
            },
            ModelInferenceConfig::Kimi(inner) => ModelInferenceConfigModel::Kimi(inner.deep_view()),
        }
    }
}

impl Duplicate for ModelInferenceConfig {
    fn duplicate(&self) -> (copy: Self) {
        match self {
            ModelInferenceConfig::OpenAi { wire_api, dialect, route, wire_model } => ModelInferenceConfig::OpenAi {
                wire_api: wire_api.duplicate(),
                dialect: dialect.duplicate(),
                route: route.duplicate(),
                wire_model: wire_model.duplicate(),
            },
            ModelInferenceConfig::Anthropic {
                wire_api,
                dialect,
                route,
                wire_model,
                max_output_tokens,
                thinking,
                supports_disabled_thinking,
            } => ModelInferenceConfig::Anthropic {
                wire_api: wire_api.duplicate(),
                dialect: dialect.duplicate(),
                route: route.duplicate(),
                wire_model: wire_model.duplicate(),
                max_output_tokens: max_output_tokens.duplicate(),
                thinking: thinking.duplicate(),
                supports_disabled_thinking: supports_disabled_thinking.duplicate(),
            },
            ModelInferenceConfig::Kimi(inner) => ModelInferenceConfig::Kimi(inner.duplicate()),
        }
    }
}

/// The detail at which an image is read.
#[derive(Debug, Clone, Copy, PartialEq, Eq, Structural)]
pub enum ImageDetail {
    /// Left to the provider.
    Auto,
    /// Low.
    Low,
    /// High.
    High,
    /// As it is.
    Original,
}

impl DeepView for ImageDetail {
    type V = ImageDetail;

    open spec fn deep_view(&self) -> ImageDetail {
        *self
    }
}

impl Duplicate for ImageDetail {
    fn duplicate(&self) -> (copy: Self) {
        *self
    }
}

/// One part of a message.
#[derive(Debug, Clone, PartialEq, Eq)]
pub enum ContentItem {
    /// Text given to the model.
    InputText {
        text: String,
    },
    /// An image given to the model.
    InputImage {
        image_url: String,
        detail: Option<ImageDetail>,
    },
    /// Audio given to the model.
    InputAudio {
        audio_url: String,
    },
    /// Text from the model.
    OutputText {
        text: String,
    },
}

/// The model of [`ContentItem`].
#[verifier::ext_equal]
pub enum ContentItemModel {
    InputText {
        text: Seq<char>,
    },
    InputImage {
        image_url: Seq<char>,
        detail: Option<ImageDetail>,
    },
    InputAudio {
        audio_url: Seq<char>,
    },
    OutputText {
        text: Seq<char>,
    },
}

impl DeepView for ContentItem {
    type V = ContentItemModel;

    open spec fn deep_view(&self) -> ContentItemModel {
        match self {
            ContentItem::InputText { text } => ContentItemModel::InputText { text: text.deep_view() },
            ContentItem::InputImage { image_url, detail } => ContentItemModel::InputImage {
                image_url: image_url.deep_view(),
                detail: detail.deep_view(),
            },
            ContentItem::InputAudio { audio_url } => ContentItemModel::InputAudio { audio_url: audio_url.deep_view() },
            ContentItem::OutputText { text } => ContentItemModel::OutputText { text: text.deep_view() },
        }
    }
}

impl Duplicate for ContentItem {
    fn duplicate(&self) -> (copy: Self) {
        match self {
            ContentItem::InputText { text } => ContentItem::InputText { text: text.duplicate() },
            ContentItem::InputImage { image_url, detail } => ContentItem::InputImage {
                image_url: image_url.duplicate(),
                detail: detail.duplicate(),
            },
            ContentItem::InputAudio { audio_url } => ContentItem::InputAudio { audio_url: audio_url.duplicate() },
            ContentItem::OutputText { text } => ContentItem::OutputText { text: text.duplicate() },
        }
    }
}

/// One part of a tool result.
#[derive(Debug, Clone, PartialEq, Eq)]
pub enum FunctionCallOutputContentItem {
    /// Text.
    InputText {
        text: String,
    },
    /// An image.
    InputImage {
        image_url: String,
        detail: Option<ImageDetail>,
    },
    /// Audio.
    InputAudio {
        audio_url: String,
    },
    /// Content that only its provider can read.
    EncryptedContent {
        encrypted_content: String,
    },
}

/// The model of [`FunctionCallOutputContentItem`].
#[verifier::ext_equal]
pub enum FunctionCallOutputContentItemModel {
    InputText {
        text: Seq<char>,
    },
    InputImage {
        image_url: Seq<char>,
        detail: Option<ImageDetail>,
    },
    InputAudio {
        audio_url: Seq<char>,
    },
    EncryptedContent {
        encrypted_content: Seq<char>,
    },
}

impl DeepView for FunctionCallOutputContentItem {
    type V = FunctionCallOutputContentItemModel;

    open spec fn deep_view(&self) -> FunctionCallOutputContentItemModel {
        match self {
            FunctionCallOutputContentItem::InputText { text } => FunctionCallOutputContentItemModel::InputText {
                text: text.deep_view(),
            },
            FunctionCallOutputContentItem::InputImage {
                image_url,
                detail,
            } => FunctionCallOutputContentItemModel::InputImage {
                image_url: image_url.deep_view(),
                detail: detail.deep_view(),
            },
            FunctionCallOutputContentItem::InputAudio { audio_url } => FunctionCallOutputContentItemModel::InputAudio {
                audio_url: audio_url.deep_view(),
            },
            FunctionCallOutputContentItem::EncryptedContent {
                encrypted_content,
            } => FunctionCallOutputContentItemModel::EncryptedContent {
                encrypted_content: encrypted_content.deep_view(),
            },
        }
    }
}

impl Duplicate for FunctionCallOutputContentItem {
    fn duplicate(&self) -> (copy: Self) {
        match self {
            FunctionCallOutputContentItem::InputText { text } => FunctionCallOutputContentItem::InputText {
                text: text.duplicate(),
            },
            FunctionCallOutputContentItem::InputImage {
                image_url,
                detail,
            } => FunctionCallOutputContentItem::InputImage {
                image_url: image_url.duplicate(),
                detail: detail.duplicate(),
            },
            FunctionCallOutputContentItem::InputAudio { audio_url } => FunctionCallOutputContentItem::InputAudio {
                audio_url: audio_url.duplicate(),
            },
            FunctionCallOutputContentItem::EncryptedContent {
                encrypted_content,
            } => FunctionCallOutputContentItem::EncryptedContent {
                encrypted_content: encrypted_content.duplicate(),
            },
        }
    }
}

/// What a tool gave back.
#[derive(Debug, Clone, PartialEq, Eq)]
pub enum FunctionCallOutputBody {
    /// Plain text.
    Text(String),
    /// Several parts.
    ContentItems(Vec<FunctionCallOutputContentItem>),
}

/// The model of [`FunctionCallOutputBody`].
#[verifier::ext_equal]
pub enum FunctionCallOutputBodyModel {
    Text(Seq<char>),
    ContentItems(Seq<FunctionCallOutputContentItemModel>),
}

impl DeepView for FunctionCallOutputBody {
    type V = FunctionCallOutputBodyModel;

    open spec fn deep_view(&self) -> FunctionCallOutputBodyModel {
        match self {
            FunctionCallOutputBody::Text(inner) => FunctionCallOutputBodyModel::Text(inner.deep_view()),
            FunctionCallOutputBody::ContentItems(inner) => FunctionCallOutputBodyModel::ContentItems(inner.deep_view()),
        }
    }
}

impl Duplicate for FunctionCallOutputBody {
    fn duplicate(&self) -> (copy: Self) {
        match self {
            FunctionCallOutputBody::Text(inner) => FunctionCallOutputBody::Text(inner.duplicate()),
            FunctionCallOutputBody::ContentItems(inner) => FunctionCallOutputBody::ContentItems(inner.duplicate()),
        }
    }
}

/// What a tool gave back, and whether it succeeded.
#[derive(Debug, Clone, PartialEq, Eq)]
pub struct FunctionCallOutputPayload {
    pub body: FunctionCallOutputBody,
    pub success: Option<bool>,
}

/// The model of [`FunctionCallOutputPayload`].
#[verifier::ext_equal]
pub struct FunctionCallOutputPayloadModel {
    pub body: FunctionCallOutputBodyModel,
    pub success: Option<bool>,
}

impl DeepView for FunctionCallOutputPayload {
    type V = FunctionCallOutputPayloadModel;

    open spec fn deep_view(&self) -> FunctionCallOutputPayloadModel {
        FunctionCallOutputPayloadModel {
            body: self.body.deep_view(),
            success: self.success.deep_view(),
        }
    }
}

impl Duplicate for FunctionCallOutputPayload {
    fn duplicate(&self) -> (copy: Self) {
        FunctionCallOutputPayload {
            body: self.body.duplicate(),
            success: self.success.duplicate(),
        }
    }
}

/// One part of visible reasoning.
#[derive(Debug, Clone, PartialEq, Eq)]
pub enum ReasoningItemContent {
    /// Reasoning as the model gave it.
    ReasoningText {
        text: String,
    },
    /// Plain text.
    Text {
        text: String,
    },
}

/// The model of [`ReasoningItemContent`].
#[verifier::ext_equal]
pub enum ReasoningItemContentModel {
    ReasoningText {
        text: Seq<char>,
    },
    Text {
        text: Seq<char>,
    },
}

impl DeepView for ReasoningItemContent {
    type V = ReasoningItemContentModel;

    open spec fn deep_view(&self) -> ReasoningItemContentModel {
        match self {
            ReasoningItemContent::ReasoningText { text } => ReasoningItemContentModel::ReasoningText {
                text: text.deep_view(),
            },
            ReasoningItemContent::Text { text } => ReasoningItemContentModel::Text { text: text.deep_view() },
        }
    }
}

impl Duplicate for ReasoningItemContent {
    fn duplicate(&self) -> (copy: Self) {
        match self {
            ReasoningItemContent::ReasoningText { text } => ReasoningItemContent::ReasoningText {
                text: text.duplicate(),
            },
            ReasoningItemContent::Text { text } => ReasoningItemContent::Text { text: text.duplicate() },
        }
    }
}

/// One part of a summary of reasoning.
#[derive(Debug, Clone, PartialEq, Eq)]
pub enum ReasoningItemReasoningSummary {
    /// Text.
    SummaryText {
        text: String,
    },
}

/// The model of [`ReasoningItemReasoningSummary`].
#[verifier::ext_equal]
pub enum ReasoningItemReasoningSummaryModel {
    SummaryText {
        text: Seq<char>,
    },
}

impl DeepView for ReasoningItemReasoningSummary {
    type V = ReasoningItemReasoningSummaryModel;

    open spec fn deep_view(&self) -> ReasoningItemReasoningSummaryModel {
        match self {
            ReasoningItemReasoningSummary::SummaryText { text } => ReasoningItemReasoningSummaryModel::SummaryText {
                text: text.deep_view(),
            },
        }
    }
}

impl Duplicate for ReasoningItemReasoningSummary {
    fn duplicate(&self) -> (copy: Self) {
        match self {
            ReasoningItemReasoningSummary::SummaryText { text } => ReasoningItemReasoningSummary::SummaryText {
                text: text.duplicate(),
            },
        }
    }
}

/// One part of a message between agents.
#[derive(Debug, Clone, PartialEq, Eq)]
pub enum AgentMessageInputContent {
    /// Plain text.
    InputText {
        text: String,
    },
    /// Content that only its provider can read.
    EncryptedContent {
        encrypted_content: String,
    },
}

/// The model of [`AgentMessageInputContent`].
#[verifier::ext_equal]
pub enum AgentMessageInputContentModel {
    InputText {
        text: Seq<char>,
    },
    EncryptedContent {
        encrypted_content: Seq<char>,
    },
}

impl DeepView for AgentMessageInputContent {
    type V = AgentMessageInputContentModel;

    open spec fn deep_view(&self) -> AgentMessageInputContentModel {
        match self {
            AgentMessageInputContent::InputText { text } => AgentMessageInputContentModel::InputText {
                text: text.deep_view(),
            },
            AgentMessageInputContent::EncryptedContent {
                encrypted_content,
            } => AgentMessageInputContentModel::EncryptedContent {
                encrypted_content: encrypted_content.deep_view(),
            },
        }
    }
}

impl Duplicate for AgentMessageInputContent {
    fn duplicate(&self) -> (copy: Self) {
        match self {
            AgentMessageInputContent::InputText { text } => AgentMessageInputContent::InputText {
                text: text.duplicate(),
            },
            AgentMessageInputContent::EncryptedContent {
                encrypted_content,
            } => AgentMessageInputContent::EncryptedContent {
                encrypted_content: encrypted_content.duplicate(),
            },
        }
    }
}

/// One item of a conversation.
#[derive(Debug, Clone, PartialEq, Eq)]
pub enum ResponseItem {
    /// A message.
    Message {
        id: Option<String>,
        role: String,
        content: Vec<ContentItem>,
    },
    /// Reasoning.
    Reasoning {
        id: Option<String>,
        summary: Vec<ReasoningItemReasoningSummary>,
        content: Option<Vec<ReasoningItemContent>>,
        encrypted_content: Option<String>,
    },
    /// A tool call.
    FunctionCall {
        id: Option<String>,
        name: String,
        namespace: Option<String>,
        arguments: String,
        call_id: String,
    },
    /// A tool result.
    FunctionCallOutput {
        call_id: String,
        output: FunctionCallOutputPayload,
    },
    /// A message between agents.
    AgentMessage {
        author: String,
        recipient: String,
        content: Vec<AgentMessageInputContent>,
    },
    /// Tools announced in the conversation.
    AdditionalTools,
    /// A local shell call.
    LocalShellCall,
    /// A call of a tool that takes free text.
    CustomToolCall {
        call_id: String,
        name: String,
        input: String,
    },
    /// A result of a tool that takes free text.
    CustomToolCallOutput {
        call_id: String,
        output: FunctionCallOutputPayload,
    },
    /// A hosted tool search.
    ToolSearchCall,
    /// What a hosted tool search found.
    ToolSearchOutput,
    /// A hosted web search.
    WebSearchCall,
    /// An image generation.
    ImageGenerationCall,
    /// A compacted conversation.
    Compaction {
        encrypted_content: String,
    },
    /// A compacted context.
    ContextCompaction {
        encrypted_content: Option<String>,
    },
    /// A request to compact.
    CompactionTrigger,
    /// Anything else.
    Other,
}

/// The model of [`ResponseItem`].
#[verifier::ext_equal]
pub enum ResponseItemModel {
    Message {
        id: Option<Seq<char>>,
        role: Seq<char>,
        content: Seq<ContentItemModel>,
    },
    Reasoning {
        id: Option<Seq<char>>,
        summary: Seq<ReasoningItemReasoningSummaryModel>,
        content: Option<Seq<ReasoningItemContentModel>>,
        encrypted_content: Option<Seq<char>>,
    },
    FunctionCall {
        id: Option<Seq<char>>,
        name: Seq<char>,
        namespace: Option<Seq<char>>,
        arguments: Seq<char>,
        call_id: Seq<char>,
    },
    FunctionCallOutput {
        call_id: Seq<char>,
        output: FunctionCallOutputPayloadModel,
    },
    AgentMessage {
        author: Seq<char>,
        recipient: Seq<char>,
        content: Seq<AgentMessageInputContentModel>,
    },
    AdditionalTools,
    LocalShellCall,
    CustomToolCall {
        call_id: Seq<char>,
        name: Seq<char>,
        input: Seq<char>,
    },
    CustomToolCallOutput {
        call_id: Seq<char>,
        output: FunctionCallOutputPayloadModel,
    },
    ToolSearchCall,
    ToolSearchOutput,
    WebSearchCall,
    ImageGenerationCall,
    Compaction {
        encrypted_content: Seq<char>,
    },
    ContextCompaction {
        encrypted_content: Option<Seq<char>>,
    },
    CompactionTrigger,
    Other,
}

impl DeepView for ResponseItem {
    type V = ResponseItemModel;

    open spec fn deep_view(&self) -> ResponseItemModel {
        match self {
            ResponseItem::Message { id, role, content } => ResponseItemModel::Message {
                id: id.deep_view(),
                role: role.deep_view(),
                content: content.deep_view(),
            },
            ResponseItem::Reasoning { id, summary, content, encrypted_content } => ResponseItemModel::Reasoning {
                id: id.deep_view(),
                summary: summary.deep_view(),
                content: content.deep_view(),
                encrypted_content: encrypted_content.deep_view(),
            },
            ResponseItem::FunctionCall { id, name, namespace, arguments, call_id } => ResponseItemModel::FunctionCall {
                id: id.deep_view(),
                name: name.deep_view(),
                namespace: namespace.deep_view(),
                arguments: arguments.deep_view(),
                call_id: call_id.deep_view(),
            },
            ResponseItem::FunctionCallOutput { call_id, output } => ResponseItemModel::FunctionCallOutput {
                call_id: call_id.deep_view(),
                output: output.deep_view(),
            },
            ResponseItem::AgentMessage { author, recipient, content } => ResponseItemModel::AgentMessage {
                author: author.deep_view(),
                recipient: recipient.deep_view(),
                content: content.deep_view(),
            },
            ResponseItem::AdditionalTools => ResponseItemModel::AdditionalTools,
            ResponseItem::LocalShellCall => ResponseItemModel::LocalShellCall,
            ResponseItem::CustomToolCall { call_id, name, input } => ResponseItemModel::CustomToolCall {
                call_id: call_id.deep_view(),
                name: name.deep_view(),
                input: input.deep_view(),
            },
            ResponseItem::CustomToolCallOutput { call_id, output } => ResponseItemModel::CustomToolCallOutput {
                call_id: call_id.deep_view(),
                output: output.deep_view(),
            },
            ResponseItem::ToolSearchCall => ResponseItemModel::ToolSearchCall,
            ResponseItem::ToolSearchOutput => ResponseItemModel::ToolSearchOutput,
            ResponseItem::WebSearchCall => ResponseItemModel::WebSearchCall,
            ResponseItem::ImageGenerationCall => ResponseItemModel::ImageGenerationCall,
            ResponseItem::Compaction { encrypted_content } => ResponseItemModel::Compaction {
                encrypted_content: encrypted_content.deep_view(),
            },
            ResponseItem::ContextCompaction { encrypted_content } => ResponseItemModel::ContextCompaction {
                encrypted_content: encrypted_content.deep_view(),
            },
            ResponseItem::CompactionTrigger => ResponseItemModel::CompactionTrigger,
            ResponseItem::Other => ResponseItemModel::Other,
        }
    }
}

impl Duplicate for ResponseItem {
    fn duplicate(&self) -> (copy: Self) {
        match self {
            ResponseItem::Message { id, role, content } => ResponseItem::Message {
                id: id.duplicate(),
                role: role.duplicate(),
                content: content.duplicate(),
            },
            ResponseItem::Reasoning { id, summary, content, encrypted_content } => ResponseItem::Reasoning {
                id: id.duplicate(),
                summary: summary.duplicate(),
                content: content.duplicate(),
                encrypted_content: encrypted_content.duplicate(),
            },
            ResponseItem::FunctionCall { id, name, namespace, arguments, call_id } => ResponseItem::FunctionCall {
                id: id.duplicate(),
                name: name.duplicate(),
                namespace: namespace.duplicate(),
                arguments: arguments.duplicate(),
                call_id: call_id.duplicate(),
            },
            ResponseItem::FunctionCallOutput { call_id, output } => ResponseItem::FunctionCallOutput {
                call_id: call_id.duplicate(),
                output: output.duplicate(),
            },
            ResponseItem::AgentMessage { author, recipient, content } => ResponseItem::AgentMessage {
                author: author.duplicate(),
                recipient: recipient.duplicate(),
                content: content.duplicate(),
            },
            ResponseItem::AdditionalTools => ResponseItem::AdditionalTools,
            ResponseItem::LocalShellCall => ResponseItem::LocalShellCall,
            ResponseItem::CustomToolCall { call_id, name, input } => ResponseItem::CustomToolCall {
                call_id: call_id.duplicate(),
                name: name.duplicate(),
                input: input.duplicate(),
            },
            ResponseItem::CustomToolCallOutput { call_id, output } => ResponseItem::CustomToolCallOutput {
                call_id: call_id.duplicate(),
                output: output.duplicate(),
            },
            ResponseItem::ToolSearchCall => ResponseItem::ToolSearchCall,
            ResponseItem::ToolSearchOutput => ResponseItem::ToolSearchOutput,
            ResponseItem::WebSearchCall => ResponseItem::WebSearchCall,
            ResponseItem::ImageGenerationCall => ResponseItem::ImageGenerationCall,
            ResponseItem::Compaction { encrypted_content } => ResponseItem::Compaction {
                encrypted_content: encrypted_content.duplicate(),
            },
            ResponseItem::ContextCompaction { encrypted_content } => ResponseItem::ContextCompaction {
                encrypted_content: encrypted_content.duplicate(),
            },
            ResponseItem::CompactionTrigger => ResponseItem::CompactionTrigger,
            ResponseItem::Other => ResponseItem::Other,
        }
    }
}

/// A function that the model may call.
#[derive(Debug, Clone, PartialEq, Eq)]
pub struct ResponsesApiTool {
    pub name: String,
    pub description: String,
    pub strict: bool,
    pub defer_loading: Option<bool>,
    pub parameters: Json,
    pub output_schema: Option<Json>,
}

/// The model of [`ResponsesApiTool`].
#[verifier::ext_equal]
pub struct ResponsesApiToolModel {
    pub name: Seq<char>,
    pub description: Seq<char>,
    pub strict: bool,
    pub defer_loading: Option<bool>,
    pub parameters: JsonModel,
    pub output_schema: Option<JsonModel>,
}

impl DeepView for ResponsesApiTool {
    type V = ResponsesApiToolModel;

    open spec fn deep_view(&self) -> ResponsesApiToolModel {
        ResponsesApiToolModel {
            name: self.name.deep_view(),
            description: self.description.deep_view(),
            strict: self.strict.deep_view(),
            defer_loading: self.defer_loading.deep_view(),
            parameters: self.parameters.deep_view(),
            output_schema: self.output_schema.deep_view(),
        }
    }
}

impl Duplicate for ResponsesApiTool {
    fn duplicate(&self) -> (copy: Self) {
        ResponsesApiTool {
            name: self.name.duplicate(),
            description: self.description.duplicate(),
            strict: self.strict.duplicate(),
            defer_loading: self.defer_loading.duplicate(),
            parameters: self.parameters.duplicate(),
            output_schema: self.output_schema.duplicate(),
        }
    }
}

/// Functions under a common name.
#[derive(Debug, Clone, PartialEq, Eq)]
pub struct ResponsesApiNamespace {
    pub name: String,
    pub description: String,
    pub tools: Vec<ResponsesApiTool>,
}

/// The model of [`ResponsesApiNamespace`].
#[verifier::ext_equal]
pub struct ResponsesApiNamespaceModel {
    pub name: Seq<char>,
    pub description: Seq<char>,
    pub tools: Seq<ResponsesApiToolModel>,
}

impl DeepView for ResponsesApiNamespace {
    type V = ResponsesApiNamespaceModel;

    open spec fn deep_view(&self) -> ResponsesApiNamespaceModel {
        ResponsesApiNamespaceModel {
            name: self.name.deep_view(),
            description: self.description.deep_view(),
            tools: self.tools.deep_view(),
        }
    }
}

impl Duplicate for ResponsesApiNamespace {
    fn duplicate(&self) -> (copy: Self) {
        ResponsesApiNamespace {
            name: self.name.duplicate(),
            description: self.description.duplicate(),
            tools: self.tools.duplicate(),
        }
    }
}

/// The grammar of a tool that takes free text.
#[derive(Debug, Clone, PartialEq, Eq)]
pub struct FreeformToolFormat {
    pub kind: String,
    pub syntax: String,
    pub definition: String,
}

/// The model of [`FreeformToolFormat`].
#[verifier::ext_equal]
pub struct FreeformToolFormatModel {
    pub kind: Seq<char>,
    pub syntax: Seq<char>,
    pub definition: Seq<char>,
}

impl DeepView for FreeformToolFormat {
    type V = FreeformToolFormatModel;

    open spec fn deep_view(&self) -> FreeformToolFormatModel {
        FreeformToolFormatModel {
            kind: self.kind.deep_view(),
            syntax: self.syntax.deep_view(),
            definition: self.definition.deep_view(),
        }
    }
}

impl Duplicate for FreeformToolFormat {
    fn duplicate(&self) -> (copy: Self) {
        FreeformToolFormat {
            kind: self.kind.duplicate(),
            syntax: self.syntax.duplicate(),
            definition: self.definition.duplicate(),
        }
    }
}

/// A tool that takes free text.
#[derive(Debug, Clone, PartialEq, Eq)]
pub struct FreeformTool {
    pub name: String,
    pub description: String,
    pub defer_loading: Option<bool>,
    pub format: FreeformToolFormat,
}

/// The model of [`FreeformTool`].
#[verifier::ext_equal]
pub struct FreeformToolModel {
    pub name: Seq<char>,
    pub description: Seq<char>,
    pub defer_loading: Option<bool>,
    pub format: FreeformToolFormatModel,
}

impl DeepView for FreeformTool {
    type V = FreeformToolModel;

    open spec fn deep_view(&self) -> FreeformToolModel {
        FreeformToolModel {
            name: self.name.deep_view(),
            description: self.description.deep_view(),
            defer_loading: self.defer_loading.deep_view(),
            format: self.format.deep_view(),
        }
    }
}

impl Duplicate for FreeformTool {
    fn duplicate(&self) -> (copy: Self) {
        FreeformTool {
            name: self.name.duplicate(),
            description: self.description.duplicate(),
            defer_loading: self.defer_loading.duplicate(),
            format: self.format.duplicate(),
        }
    }
}

/// A tool offered to the model.
#[derive(Debug, Clone, PartialEq, Eq)]
pub enum ToolSpec {
    /// A function.
    Function(ResponsesApiTool),
    /// Functions under a common name.
    Namespace(ResponsesApiNamespace),
    /// A search over tools.
    ToolSearch {
        execution: String,
        description: String,
        parameters: Json,
    },
    /// A search of the web.
    WebSearch {
        external_web_access: Option<bool>,
    },
    /// A tool that takes free text.
    Freeform(FreeformTool),
}

/// The model of [`ToolSpec`].
#[verifier::ext_equal]
pub enum ToolSpecModel {
    Function(ResponsesApiToolModel),
    Namespace(ResponsesApiNamespaceModel),
    ToolSearch {
        execution: Seq<char>,
        description: Seq<char>,
        parameters: JsonModel,
    },
    WebSearch {
        external_web_access: Option<bool>,
    },
    Freeform(FreeformToolModel),
}

impl DeepView for ToolSpec {
    type V = ToolSpecModel;

    open spec fn deep_view(&self) -> ToolSpecModel {
        match self {
            ToolSpec::Function(inner) => ToolSpecModel::Function(inner.deep_view()),
            ToolSpec::Namespace(inner) => ToolSpecModel::Namespace(inner.deep_view()),
            ToolSpec::ToolSearch { execution, description, parameters } => ToolSpecModel::ToolSearch {
                execution: execution.deep_view(),
                description: description.deep_view(),
                parameters: parameters.deep_view(),
            },
            ToolSpec::WebSearch { external_web_access } => ToolSpecModel::WebSearch {
                external_web_access: external_web_access.deep_view(),
            },
            ToolSpec::Freeform(inner) => ToolSpecModel::Freeform(inner.deep_view()),
        }
    }
}

impl Duplicate for ToolSpec {
    fn duplicate(&self) -> (copy: Self) {
        match self {
            ToolSpec::Function(inner) => ToolSpec::Function(inner.duplicate()),
            ToolSpec::Namespace(inner) => ToolSpec::Namespace(inner.duplicate()),
            ToolSpec::ToolSearch { execution, description, parameters } => ToolSpec::ToolSearch {
                execution: execution.duplicate(),
                description: description.duplicate(),
                parameters: parameters.duplicate(),
            },
            ToolSpec::WebSearch { external_web_access } => ToolSpec::WebSearch {
                external_web_access: external_web_access.duplicate(),
            },
            ToolSpec::Freeform(inner) => ToolSpec::Freeform(inner.duplicate()),
        }
    }
}

impl InferenceDialect {
    /// The name of the dialect.
    pub open spec fn label(&self) -> Seq<char> {
        match self {
            InferenceDialect::OpenAi => "open_ai"@,
            InferenceDialect::ClaudeCode => "claude_code"@,
            InferenceDialect::Kimi => "kimi"@,
            InferenceDialect::Grok => "grok"@,
        }
    }

    /// The name of the dialect.
    pub fn name(&self) -> (name: &'static str)
        ensures
            name@ == self.label(),
    {
        match self {
            InferenceDialect::OpenAi => "open_ai",
            InferenceDialect::ClaudeCode => "claude_code",
            InferenceDialect::Kimi => "kimi",
            InferenceDialect::Grok => "grok",
        }
    }
}

impl WireApi {
    /// The name of the protocol.
    pub open spec fn label(&self) -> Seq<char> {
        match self {
            WireApi::Responses => "responses"@,
            WireApi::AnthropicMessages => "anthropic_messages"@,
            WireApi::ChatCompletions => "chat_completions"@,
        }
    }

    /// The name of the protocol.
    pub fn name(&self) -> (name: &'static str)
        ensures
            name@ == self.label(),
    {
        match self {
            WireApi::Responses => "responses",
            WireApi::AnthropicMessages => "anthropic_messages",
            WireApi::ChatCompletions => "chat_completions",
        }
    }
}

impl ReasoningEffortModel {
    /// The name of the level.
    pub open spec fn label(self) -> Seq<char> {
        match self {
            ReasoningEffortModel::Off => "none"@,
            ReasoningEffortModel::Minimal => "minimal"@,
            ReasoningEffortModel::Low => "low"@,
            ReasoningEffortModel::Medium => "medium"@,
            ReasoningEffortModel::High => "high"@,
            ReasoningEffortModel::XHigh => "xhigh"@,
            ReasoningEffortModel::Max => "max"@,
            ReasoningEffortModel::Ultra => "ultra"@,
            ReasoningEffortModel::Persistent => "persistent"@,
            ReasoningEffortModel::Custom(name) => name,
        }
    }
}

impl ReasoningEffort {
    /// The name of the level.
    pub fn name(&self) -> (name: &str)
        ensures
            name@ == self.deep_view().label(),
    {
        match self {
            ReasoningEffort::Off => "none",
            ReasoningEffort::Minimal => "minimal",
            ReasoningEffort::Low => "low",
            ReasoningEffort::Medium => "medium",
            ReasoningEffort::High => "high",
            ReasoningEffort::XHigh => "xhigh",
            ReasoningEffort::Max => "max",
            ReasoningEffort::Ultra => "ultra",
            ReasoningEffort::Persistent => "persistent",
            ReasoningEffort::Custom(name) => name.as_str(),
        }
    }
}

impl ToolSpecModel {
    /// The name that the tool goes by.
    pub open spec fn label(self) -> Seq<char> {
        match self {
            ToolSpecModel::Function(tool) => tool.name,
            ToolSpecModel::Namespace(tools) => tools.name,
            ToolSpecModel::ToolSearch { .. } => "tool_search"@,
            ToolSpecModel::WebSearch { .. } => "web_search"@,
            ToolSpecModel::Freeform(tool) => tool.name,
        }
    }
}

impl ToolSpec {
    /// The name that the tool goes by.
    pub fn name(&self) -> (name: &str)
        ensures
            name@ == self.deep_view().label(),
    {
        match self {
            ToolSpec::Function(tool) => tool.name.as_str(),
            ToolSpec::Namespace(tools) => tools.name.as_str(),
            ToolSpec::ToolSearch { .. } => "tool_search",
            ToolSpec::WebSearch { .. } => "web_search",
            ToolSpec::Freeform(tool) => tool.name.as_str(),
        }
    }
}

} // verus!
