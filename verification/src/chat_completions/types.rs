//! The Chat Completions request grammar and the parts of a streamed response.
use crate::fields::StringMap;
use crate::json::{Json, JsonModel};
use crate::model::Duplicate;
use crate::protocol::{ImageDetail, TerminalOutcome};
use vstd::prelude::*;

verus! {

/// The kind of a tool: only functions are offered.
#[derive(Debug, Clone, Copy, PartialEq, Eq, Structural)]
pub enum FunctionToolKind {
    /// A function.
    Function,
}

impl DeepView for FunctionToolKind {
    type V = FunctionToolKind;

    open spec fn deep_view(&self) -> FunctionToolKind {
        *self
    }
}

impl Duplicate for FunctionToolKind {
    fn duplicate(&self) -> (copy: Self) {
        *self
    }
}

/// The kind of a tool call: only functions are called.
#[derive(Debug, Clone, Copy, PartialEq, Eq, Structural)]
pub enum ToolCallKind {
    /// A function.
    Function,
}

impl DeepView for ToolCallKind {
    type V = ToolCallKind;

    open spec fn deep_view(&self) -> ToolCallKind {
        *self
    }
}

impl Duplicate for ToolCallKind {
    fn duplicate(&self) -> (copy: Self) {
        *self
    }
}

/// The function that a call names, and its arguments as JSON text.
#[derive(Debug, Clone, PartialEq, Eq)]
pub struct ToolCallFunction {
    pub name: String,
    pub arguments: String,
}

/// The model of [`ToolCallFunction`].
#[verifier::ext_equal]
pub struct ToolCallFunctionModel {
    pub name: Seq<char>,
    pub arguments: Seq<char>,
}

impl DeepView for ToolCallFunction {
    type V = ToolCallFunctionModel;

    open spec fn deep_view(&self) -> ToolCallFunctionModel {
        ToolCallFunctionModel {
            name: self.name.deep_view(),
            arguments: self.arguments.deep_view(),
        }
    }
}

impl Duplicate for ToolCallFunction {
    fn duplicate(&self) -> (copy: Self) {
        ToolCallFunction {
            name: self.name.duplicate(),
            arguments: self.arguments.duplicate(),
        }
    }
}

/// A tool call of the model.
#[derive(Debug, Clone, PartialEq, Eq)]
pub struct ToolCall {
    pub id: String,
    pub kind: ToolCallKind,
    pub function: ToolCallFunction,
}

/// The model of [`ToolCall`].
#[verifier::ext_equal]
pub struct ToolCallModel {
    pub id: Seq<char>,
    pub kind: ToolCallKind,
    pub function: ToolCallFunctionModel,
}

impl DeepView for ToolCall {
    type V = ToolCallModel;

    open spec fn deep_view(&self) -> ToolCallModel {
        ToolCallModel {
            id: self.id.deep_view(),
            kind: self.kind.deep_view(),
            function: self.function.deep_view(),
        }
    }
}

impl Duplicate for ToolCall {
    fn duplicate(&self) -> (copy: Self) {
        ToolCall {
            id: self.id.duplicate(),
            kind: self.kind.duplicate(),
            function: self.function.duplicate(),
        }
    }
}

/// What the model said, called and thought in one message.
#[derive(Debug, Clone, PartialEq, Eq)]
pub struct AssistantMessage {
    pub content: Option<String>,
    pub tool_calls: Vec<ToolCall>,
    pub reasoning: StringMap<Json>,
}

/// The model of [`AssistantMessage`].
#[verifier::ext_equal]
pub struct AssistantMessageModel {
    pub content: Option<Seq<char>>,
    pub tool_calls: Seq<ToolCallModel>,
    pub reasoning: Seq<(Seq<char>, JsonModel)>,
}

impl DeepView for AssistantMessage {
    type V = AssistantMessageModel;

    open spec fn deep_view(&self) -> AssistantMessageModel {
        AssistantMessageModel {
            content: self.content.deep_view(),
            tool_calls: self.tool_calls.deep_view(),
            reasoning: self.reasoning.deep_view(),
        }
    }
}

impl Duplicate for AssistantMessage {
    fn duplicate(&self) -> (copy: Self) {
        AssistantMessage {
            content: self.content.duplicate(),
            tool_calls: self.tool_calls.duplicate(),
            reasoning: self.reasoning.duplicate(),
        }
    }
}

/// An image by its address.
#[derive(Debug, Clone, PartialEq, Eq)]
pub struct ImageUrl {
    pub url: String,
    pub detail: Option<ImageDetail>,
}

/// The model of [`ImageUrl`].
#[verifier::ext_equal]
pub struct ImageUrlModel {
    pub url: Seq<char>,
    pub detail: Option<ImageDetail>,
}

impl DeepView for ImageUrl {
    type V = ImageUrlModel;

    open spec fn deep_view(&self) -> ImageUrlModel {
        ImageUrlModel {
            url: self.url.deep_view(),
            detail: self.detail.deep_view(),
        }
    }
}

impl Duplicate for ImageUrl {
    fn duplicate(&self) -> (copy: Self) {
        ImageUrl {
            url: self.url.duplicate(),
            detail: self.detail.duplicate(),
        }
    }
}

/// One part of a message.
#[derive(Debug, Clone, PartialEq, Eq)]
pub enum ContentPart {
    /// Text.
    Text {
        text: String,
    },
    /// An image.
    ImageUrl {
        image_url: ImageUrl,
    },
}

/// The model of [`ContentPart`].
#[verifier::ext_equal]
pub enum ContentPartModel {
    Text {
        text: Seq<char>,
    },
    ImageUrl {
        image_url: ImageUrlModel,
    },
}

impl DeepView for ContentPart {
    type V = ContentPartModel;

    open spec fn deep_view(&self) -> ContentPartModel {
        match self {
            ContentPart::Text { text } => ContentPartModel::Text { text: text.deep_view() },
            ContentPart::ImageUrl { image_url } => ContentPartModel::ImageUrl { image_url: image_url.deep_view() },
        }
    }
}

impl Duplicate for ContentPart {
    fn duplicate(&self) -> (copy: Self) {
        match self {
            ContentPart::Text { text } => ContentPart::Text { text: text.duplicate() },
            ContentPart::ImageUrl { image_url } => ContentPart::ImageUrl { image_url: image_url.duplicate() },
        }
    }
}

/// What a message holds.
#[derive(Debug, Clone, PartialEq, Eq)]
pub enum MessageContent {
    /// Plain text.
    Text(String),
    /// Several parts.
    Parts(Vec<ContentPart>),
}

/// The model of [`MessageContent`].
#[verifier::ext_equal]
pub enum MessageContentModel {
    Text(Seq<char>),
    Parts(Seq<ContentPartModel>),
}

impl DeepView for MessageContent {
    type V = MessageContentModel;

    open spec fn deep_view(&self) -> MessageContentModel {
        match self {
            MessageContent::Text(inner) => MessageContentModel::Text(inner.deep_view()),
            MessageContent::Parts(inner) => MessageContentModel::Parts(inner.deep_view()),
        }
    }
}

impl Duplicate for MessageContent {
    fn duplicate(&self) -> (copy: Self) {
        match self {
            MessageContent::Text(inner) => MessageContent::Text(inner.duplicate()),
            MessageContent::Parts(inner) => MessageContent::Parts(inner.duplicate()),
        }
    }
}

/// One message of a request.
#[derive(Debug, Clone, PartialEq, Eq)]
pub enum ChatMessage {
    /// Instructions.
    System {
        content: MessageContent,
    },
    /// From the user.
    User {
        content: MessageContent,
    },
    /// From the model.
    Assistant(AssistantMessage),
    /// The result of a tool call.
    Tool {
        tool_call_id: String,
        content: MessageContent,
    },
}

/// The model of [`ChatMessage`].
#[verifier::ext_equal]
pub enum ChatMessageModel {
    System {
        content: MessageContentModel,
    },
    User {
        content: MessageContentModel,
    },
    Assistant(AssistantMessageModel),
    Tool {
        tool_call_id: Seq<char>,
        content: MessageContentModel,
    },
}

impl DeepView for ChatMessage {
    type V = ChatMessageModel;

    open spec fn deep_view(&self) -> ChatMessageModel {
        match self {
            ChatMessage::System { content } => ChatMessageModel::System { content: content.deep_view() },
            ChatMessage::User { content } => ChatMessageModel::User { content: content.deep_view() },
            ChatMessage::Assistant(inner) => ChatMessageModel::Assistant(inner.deep_view()),
            ChatMessage::Tool { tool_call_id, content } => ChatMessageModel::Tool {
                tool_call_id: tool_call_id.deep_view(),
                content: content.deep_view(),
            },
        }
    }
}

impl Duplicate for ChatMessage {
    fn duplicate(&self) -> (copy: Self) {
        match self {
            ChatMessage::System { content } => ChatMessage::System { content: content.duplicate() },
            ChatMessage::User { content } => ChatMessage::User { content: content.duplicate() },
            ChatMessage::Assistant(inner) => ChatMessage::Assistant(inner.duplicate()),
            ChatMessage::Tool { tool_call_id, content } => ChatMessage::Tool {
                tool_call_id: tool_call_id.duplicate(),
                content: content.duplicate(),
            },
        }
    }
}

/// The definition of a function.
#[derive(Debug, Clone, PartialEq, Eq)]
pub struct FunctionDefinition {
    pub name: String,
    pub description: String,
    pub parameters: Json,
    pub strict: bool,
}

/// The model of [`FunctionDefinition`].
#[verifier::ext_equal]
pub struct FunctionDefinitionModel {
    pub name: Seq<char>,
    pub description: Seq<char>,
    pub parameters: JsonModel,
    pub strict: bool,
}

impl DeepView for FunctionDefinition {
    type V = FunctionDefinitionModel;

    open spec fn deep_view(&self) -> FunctionDefinitionModel {
        FunctionDefinitionModel {
            name: self.name.deep_view(),
            description: self.description.deep_view(),
            parameters: self.parameters.deep_view(),
            strict: self.strict.deep_view(),
        }
    }
}

impl Duplicate for FunctionDefinition {
    fn duplicate(&self) -> (copy: Self) {
        FunctionDefinition {
            name: self.name.duplicate(),
            description: self.description.duplicate(),
            parameters: self.parameters.duplicate(),
            strict: self.strict.duplicate(),
        }
    }
}

/// A function offered to the model.
#[derive(Debug, Clone, PartialEq, Eq)]
pub struct FunctionTool {
    pub kind: FunctionToolKind,
    pub function: FunctionDefinition,
}

/// The model of [`FunctionTool`].
#[verifier::ext_equal]
pub struct FunctionToolModel {
    pub kind: FunctionToolKind,
    pub function: FunctionDefinitionModel,
}

impl DeepView for FunctionTool {
    type V = FunctionToolModel;

    open spec fn deep_view(&self) -> FunctionToolModel {
        FunctionToolModel {
            kind: self.kind.deep_view(),
            function: self.function.deep_view(),
        }
    }
}

impl Duplicate for FunctionTool {
    fn duplicate(&self) -> (copy: Self) {
        FunctionTool {
            kind: self.kind.duplicate(),
            function: self.function.duplicate(),
        }
    }
}

/// A request. The extensions are the dialect's own fields.
#[derive(Debug, Clone, PartialEq, Eq)]
pub struct ChatCompletionsRequest {
    pub model: String,
    pub messages: Vec<ChatMessage>,
    pub tools: Vec<FunctionTool>,
    pub extensions: StringMap<Json>,
}

/// The model of [`ChatCompletionsRequest`].
#[verifier::ext_equal]
pub struct ChatCompletionsRequestModel {
    pub model: Seq<char>,
    pub messages: Seq<ChatMessageModel>,
    pub tools: Seq<FunctionToolModel>,
    pub extensions: Seq<(Seq<char>, JsonModel)>,
}

impl DeepView for ChatCompletionsRequest {
    type V = ChatCompletionsRequestModel;

    open spec fn deep_view(&self) -> ChatCompletionsRequestModel {
        ChatCompletionsRequestModel {
            model: self.model.deep_view(),
            messages: self.messages.deep_view(),
            tools: self.tools.deep_view(),
            extensions: self.extensions.deep_view(),
        }
    }
}

impl Duplicate for ChatCompletionsRequest {
    fn duplicate(&self) -> (copy: Self) {
        ChatCompletionsRequest {
            model: self.model.duplicate(),
            messages: self.messages.duplicate(),
            tools: self.tools.duplicate(),
            extensions: self.extensions.duplicate(),
        }
    }
}

/// Part of the function of a streamed tool call.
#[derive(Debug, Clone, PartialEq, Eq)]
pub struct ToolFunctionFragment {
    pub name: Option<String>,
    pub arguments: Option<String>,
}

/// The model of [`ToolFunctionFragment`].
#[verifier::ext_equal]
pub struct ToolFunctionFragmentModel {
    pub name: Option<Seq<char>>,
    pub arguments: Option<Seq<char>>,
}

impl DeepView for ToolFunctionFragment {
    type V = ToolFunctionFragmentModel;

    open spec fn deep_view(&self) -> ToolFunctionFragmentModel {
        ToolFunctionFragmentModel {
            name: self.name.deep_view(),
            arguments: self.arguments.deep_view(),
        }
    }
}

impl Duplicate for ToolFunctionFragment {
    fn duplicate(&self) -> (copy: Self) {
        ToolFunctionFragment {
            name: self.name.duplicate(),
            arguments: self.arguments.duplicate(),
        }
    }
}

/// Part of a streamed tool call.
#[derive(Debug, Clone, PartialEq, Eq)]
pub struct ToolCallFragment {
    pub index: usize,
    pub id: Option<String>,
    pub kind: Option<String>,
    pub function: Option<ToolFunctionFragment>,
}

/// The model of [`ToolCallFragment`].
#[verifier::ext_equal]
pub struct ToolCallFragmentModel {
    pub index: usize,
    pub id: Option<Seq<char>>,
    pub kind: Option<Seq<char>>,
    pub function: Option<ToolFunctionFragmentModel>,
}

impl DeepView for ToolCallFragment {
    type V = ToolCallFragmentModel;

    open spec fn deep_view(&self) -> ToolCallFragmentModel {
        ToolCallFragmentModel {
            index: self.index.deep_view(),
            id: self.id.deep_view(),
            kind: self.kind.deep_view(),
            function: self.function.deep_view(),
        }
    }
}

impl Duplicate for ToolCallFragment {
    fn duplicate(&self) -> (copy: Self) {
        ToolCallFragment {
            index: self.index.duplicate(),
            id: self.id.duplicate(),
            kind: self.kind.duplicate(),
            function: self.function.duplicate(),
        }
    }
}

/// Reported usage; the details are the provider's own fields.
#[derive(Debug, Clone, PartialEq, Eq)]
pub struct ChunkUsage {
    pub prompt_tokens: u64,
    pub completion_tokens: u64,
    pub total_tokens: u64,
    pub details: StringMap<Json>,
}

/// The model of [`ChunkUsage`].
#[verifier::ext_equal]
pub struct ChunkUsageModel {
    pub prompt_tokens: u64,
    pub completion_tokens: u64,
    pub total_tokens: u64,
    pub details: Seq<(Seq<char>, JsonModel)>,
}

impl DeepView for ChunkUsage {
    type V = ChunkUsageModel;

    open spec fn deep_view(&self) -> ChunkUsageModel {
        ChunkUsageModel {
            prompt_tokens: self.prompt_tokens.deep_view(),
            completion_tokens: self.completion_tokens.deep_view(),
            total_tokens: self.total_tokens.deep_view(),
            details: self.details.deep_view(),
        }
    }
}

impl Duplicate for ChunkUsage {
    fn duplicate(&self) -> (copy: Self) {
        ChunkUsage {
            prompt_tokens: self.prompt_tokens.duplicate(),
            completion_tokens: self.completion_tokens.duplicate(),
            total_tokens: self.total_tokens.duplicate(),
            details: self.details.duplicate(),
        }
    }
}

/// What one chunk adds; the extensions are the dialect's own fields.
#[derive(Debug, Clone, PartialEq, Eq)]
pub struct ChunkDelta {
    pub role: Option<String>,
    pub content: Option<String>,
    pub tool_calls: Vec<ToolCallFragment>,
    pub extensions: StringMap<Json>,
}

/// The model of [`ChunkDelta`].
#[verifier::ext_equal]
pub struct ChunkDeltaModel {
    pub role: Option<Seq<char>>,
    pub content: Option<Seq<char>>,
    pub tool_calls: Seq<ToolCallFragmentModel>,
    pub extensions: Seq<(Seq<char>, JsonModel)>,
}

impl DeepView for ChunkDelta {
    type V = ChunkDeltaModel;

    open spec fn deep_view(&self) -> ChunkDeltaModel {
        ChunkDeltaModel {
            role: self.role.deep_view(),
            content: self.content.deep_view(),
            tool_calls: self.tool_calls.deep_view(),
            extensions: self.extensions.deep_view(),
        }
    }
}

impl Duplicate for ChunkDelta {
    fn duplicate(&self) -> (copy: Self) {
        ChunkDelta {
            role: self.role.duplicate(),
            content: self.content.duplicate(),
            tool_calls: self.tool_calls.duplicate(),
            extensions: self.extensions.duplicate(),
        }
    }
}

/// One choice of a chunk.
#[derive(Debug, Clone, PartialEq, Eq)]
pub struct ChunkChoice {
    pub index: usize,
    pub delta: ChunkDelta,
    pub finish_reason: Option<String>,
    pub usage: Option<ChunkUsage>,
}

/// The model of [`ChunkChoice`].
#[verifier::ext_equal]
pub struct ChunkChoiceModel {
    pub index: usize,
    pub delta: ChunkDeltaModel,
    pub finish_reason: Option<Seq<char>>,
    pub usage: Option<ChunkUsageModel>,
}

impl DeepView for ChunkChoice {
    type V = ChunkChoiceModel;

    open spec fn deep_view(&self) -> ChunkChoiceModel {
        ChunkChoiceModel {
            index: self.index.deep_view(),
            delta: self.delta.deep_view(),
            finish_reason: self.finish_reason.deep_view(),
            usage: self.usage.deep_view(),
        }
    }
}

impl Duplicate for ChunkChoice {
    fn duplicate(&self) -> (copy: Self) {
        ChunkChoice {
            index: self.index.duplicate(),
            delta: self.delta.duplicate(),
            finish_reason: self.finish_reason.duplicate(),
            usage: self.usage.duplicate(),
        }
    }
}

/// One chunk of a streamed response.
#[derive(Debug, Clone, PartialEq, Eq)]
pub struct ChatCompletionChunk {
    pub id: String,
    pub choices: Vec<ChunkChoice>,
    pub usage: Option<ChunkUsage>,
}

/// The model of [`ChatCompletionChunk`].
#[verifier::ext_equal]
pub struct ChatCompletionChunkModel {
    pub id: Seq<char>,
    pub choices: Seq<ChunkChoiceModel>,
    pub usage: Option<ChunkUsageModel>,
}

impl DeepView for ChatCompletionChunk {
    type V = ChatCompletionChunkModel;

    open spec fn deep_view(&self) -> ChatCompletionChunkModel {
        ChatCompletionChunkModel {
            id: self.id.deep_view(),
            choices: self.choices.deep_view(),
            usage: self.usage.deep_view(),
        }
    }
}

impl Duplicate for ChatCompletionChunk {
    fn duplicate(&self) -> (copy: Self) {
        ChatCompletionChunk {
            id: self.id.duplicate(),
            choices: self.choices.duplicate(),
            usage: self.usage.duplicate(),
        }
    }
}

/// Why the model stopped.
#[derive(Debug, Clone, Copy, PartialEq, Eq, Structural)]
pub enum FinishReason {
    /// It was done.
    Stop,
    /// It called tools.
    ToolCalls,
    /// It called a function, in the older form.
    FunctionCall,
    /// The output limit was reached.
    Length,
    /// The output limit was reached, in another form.
    MaxTokens,
    /// The content was filtered.
    ContentFilter,
}

impl DeepView for FinishReason {
    type V = FinishReason;

    open spec fn deep_view(&self) -> FinishReason {
        *self
    }
}

impl Duplicate for FinishReason {
    fn duplicate(&self) -> (copy: Self) {
        *self
    }
}

/// What the transport knows of a response.
#[derive(Debug, Clone, PartialEq, Eq)]
pub struct ResponseMetadata {
    pub trace_id: Option<String>,
}

/// The model of [`ResponseMetadata`].
#[verifier::ext_equal]
pub struct ResponseMetadataModel {
    pub trace_id: Option<Seq<char>>,
}

impl DeepView for ResponseMetadata {
    type V = ResponseMetadataModel;

    open spec fn deep_view(&self) -> ResponseMetadataModel {
        ResponseMetadataModel {
            trace_id: self.trace_id.deep_view(),
        }
    }
}

impl Duplicate for ResponseMetadata {
    fn duplicate(&self) -> (copy: Self) {
        ResponseMetadata {
            trace_id: self.trace_id.duplicate(),
        }
    }
}

/// Output that may be committed to the conversation.
#[derive(Debug, Clone, PartialEq, Eq)]
pub struct PendingResult {
    pub content: String,
    pub reasoning: String,
    pub reasoning_provenance: Option<String>,
    pub tool_calls: Vec<ToolCall>,
}

/// The model of [`PendingResult`].
#[verifier::ext_equal]
pub struct PendingResultModel {
    pub content: Seq<char>,
    pub reasoning: Seq<char>,
    pub reasoning_provenance: Option<Seq<char>>,
    pub tool_calls: Seq<ToolCallModel>,
}

impl DeepView for PendingResult {
    type V = PendingResultModel;

    open spec fn deep_view(&self) -> PendingResultModel {
        PendingResultModel {
            content: self.content.deep_view(),
            reasoning: self.reasoning.deep_view(),
            reasoning_provenance: self.reasoning_provenance.deep_view(),
            tool_calls: self.tool_calls.deep_view(),
        }
    }
}

impl Duplicate for PendingResult {
    fn duplicate(&self) -> (copy: Self) {
        PendingResult {
            content: self.content.duplicate(),
            reasoning: self.reasoning.duplicate(),
            reasoning_provenance: self.reasoning_provenance.duplicate(),
            tool_calls: self.tool_calls.duplicate(),
        }
    }
}

/// Token counts that only a dialect can read.
#[derive(Debug, Clone, Copy, PartialEq, Eq, Structural)]
pub struct UsageDetails {
    pub cached_prompt_tokens: u64,
    pub reasoning_tokens: u64,
}

impl DeepView for UsageDetails {
    type V = UsageDetails;

    open spec fn deep_view(&self) -> UsageDetails {
        *self
    }
}

impl Duplicate for UsageDetails {
    fn duplicate(&self) -> (copy: Self) {
        *self
    }
}

/// A whole streamed response.
#[derive(Debug, Clone, PartialEq, Eq)]
pub struct DecodedStream {
    pub response_id: String,
    pub terminal_outcome: TerminalOutcome,
    pub pending: Option<PendingResult>,
    pub usage: Option<ChunkUsage>,
    pub usage_details: UsageDetails,
    pub metadata: ResponseMetadata,
}

/// The model of [`DecodedStream`].
#[verifier::ext_equal]
pub struct DecodedStreamModel {
    pub response_id: Seq<char>,
    pub terminal_outcome: TerminalOutcome,
    pub pending: Option<PendingResultModel>,
    pub usage: Option<ChunkUsageModel>,
    pub usage_details: UsageDetails,
    pub metadata: ResponseMetadataModel,
}

impl DeepView for DecodedStream {
    type V = DecodedStreamModel;

    open spec fn deep_view(&self) -> DecodedStreamModel {
        DecodedStreamModel {
            response_id: self.response_id.deep_view(),
            terminal_outcome: self.terminal_outcome.deep_view(),
            pending: self.pending.deep_view(),
            usage: self.usage.deep_view(),
            usage_details: self.usage_details.deep_view(),
            metadata: self.metadata.deep_view(),
        }
    }
}

impl Duplicate for DecodedStream {
    fn duplicate(&self) -> (copy: Self) {
        DecodedStream {
            response_id: self.response_id.duplicate(),
            terminal_outcome: self.terminal_outcome.duplicate(),
            pending: self.pending.duplicate(),
            usage: self.usage.duplicate(),
            usage_details: self.usage_details.duplicate(),
            metadata: self.metadata.duplicate(),
        }
    }
}

/// Output as it comes in, for display.
#[derive(Debug, Clone, PartialEq, Eq)]
pub enum PresentationDelta {
    /// Text.
    Content(String),
    /// Reasoning.
    Reasoning(String),
    /// Arguments of a tool call.
    Tool {
        index: usize,
        id: String,
        name: String,
        delta: String,
    },
}

/// The model of [`PresentationDelta`].
#[verifier::ext_equal]
pub enum PresentationDeltaModel {
    Content(Seq<char>),
    Reasoning(Seq<char>),
    Tool {
        index: usize,
        id: Seq<char>,
        name: Seq<char>,
        delta: Seq<char>,
    },
}

impl DeepView for PresentationDelta {
    type V = PresentationDeltaModel;

    open spec fn deep_view(&self) -> PresentationDeltaModel {
        match self {
            PresentationDelta::Content(inner) => PresentationDeltaModel::Content(inner.deep_view()),
            PresentationDelta::Reasoning(inner) => PresentationDeltaModel::Reasoning(inner.deep_view()),
            PresentationDelta::Tool { index, id, name, delta } => PresentationDeltaModel::Tool {
                index: index.deep_view(),
                id: id.deep_view(),
                name: name.deep_view(),
                delta: delta.deep_view(),
            },
        }
    }
}

impl Duplicate for PresentationDelta {
    fn duplicate(&self) -> (copy: Self) {
        match self {
            PresentationDelta::Content(inner) => PresentationDelta::Content(inner.duplicate()),
            PresentationDelta::Reasoning(inner) => PresentationDelta::Reasoning(inner.duplicate()),
            PresentationDelta::Tool { index, id, name, delta } => PresentationDelta::Tool {
                index: index.duplicate(),
                id: id.duplicate(),
                name: name.duplicate(),
                delta: delta.duplicate(),
            },
        }
    }
}

/// The finish reason that a name stands for.
pub open spec fn finish_reason_named(name: Seq<char>) -> Option<FinishReason> {
    if name == "stop"@ {
        Some(FinishReason::Stop)
    } else if name == "tool_calls"@ {
        Some(FinishReason::ToolCalls)
    } else if name == "function_call"@ {
        Some(FinishReason::FunctionCall)
    } else if name == "length"@ {
        Some(FinishReason::Length)
    } else if name == "max_tokens"@ {
        Some(FinishReason::MaxTokens)
    } else if name == "content_filter"@ {
        Some(FinishReason::ContentFilter)
    } else {
        None
    }
}

impl FinishReason {
    /// The finish reason that a name stands for.
    pub fn parse(name: &str) -> (reason: Option<FinishReason>)
        ensures
            reason == finish_reason_named(name@),
    {
        if *name == *"stop" {
            Some(FinishReason::Stop)
        } else if *name == *"tool_calls" {
            Some(FinishReason::ToolCalls)
        } else if *name == *"function_call" {
            Some(FinishReason::FunctionCall)
        } else if *name == *"length" {
            Some(FinishReason::Length)
        } else if *name == *"max_tokens" {
            Some(FinishReason::MaxTokens)
        } else if *name == *"content_filter" {
            Some(FinishReason::ContentFilter)
        } else {
            None
        }
    }
}

} // verus!
