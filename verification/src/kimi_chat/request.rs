//! Kimi requests.
use crate::fields::{lemma_put_last, lookup, put, StringMap};
use crate::ids::{digits, hex_char, hex_digits};
use crate::json::{
    add_field, add_text, canonical, distinct, json_parse, json_print, lemma_array_model, lemma_object_canonical,
    lemma_object_model, member, nesting, parse_json, print_json, sorted, sorted_from, Json, JsonModel, JsonNumber,
    JsonNumberModel,
};
use crate::kimi_chat::schema::{normal_schema, normalize_kimi_schema, KimiSchemaError, KimiSchemaErrorModel};
use crate::model::{no_items, outcome, push_item, Duplicate};
use crate::protocol::{InferenceDialect, KimiInferenceConfig, KimiInferenceConfigModel, KimiThinkingPolicy, WireApi};
use crate::text::{
    byte_length, bytes_in, concat, concat3, decimal, decimal_text, fitting_prefix, place, position, prefix_within,
    strip_prefix, stripped, text_less,
};
use vstd::prelude::*;
use vstd::string::*;
use vstd::utf8::encode_utf8;

verus! {

/// How long names that tie requests together may be, in bytes.
pub const MAX_AFFINITY_LEN: usize = 256;

/// How long a replay marker may be, in bytes.
pub const MAX_REPLAY_MARKER_LEN: usize = 512;

/// How long the name of a tool call may be, in bytes.
pub const MAX_CALL_ID_LEN: usize = 64;

/// How much of a longer name of a tool call is kept, in bytes.
pub const CALL_ID_PREFIX_LEN: usize = 47;

/// What stands before a replay marker.
pub const REPLAY_PREFIX: &'static str = "codex:kimi-chat-reasoning:";

/// How much a request makes the model think.
#[derive(Debug, Clone, Copy, PartialEq, Eq, Structural)]
pub enum KimiThinkingEffort {
    /// Little.
    Low,
    /// Much.
    High,
    /// The most.
    Max,
}

impl DeepView for KimiThinkingEffort {
    type V = KimiThinkingEffort;

    open spec fn deep_view(&self) -> KimiThinkingEffort {
        *self
    }
}

impl Duplicate for KimiThinkingEffort {
    fn duplicate(&self) -> (copy: Self) {
        *self
    }
}

/// How the size of the input is known.
#[derive(Debug, Clone, Copy, PartialEq, Eq, Structural)]
pub enum KimiInputEstimate {
    /// From the request as it is sent.
    FinalSerialized,
    /// From elsewhere.
    Fixed(u64),
}

impl DeepView for KimiInputEstimate {
    type V = KimiInputEstimate;

    open spec fn deep_view(&self) -> KimiInputEstimate {
        *self
    }
}

impl Duplicate for KimiInputEstimate {
    fn duplicate(&self) -> (copy: Self) {
        *self
    }
}

/// The field that a provider's reasoning stands in.
#[derive(Debug, Clone, Copy, PartialEq, Eq, Structural)]
pub enum KimiReasoningKey {
    /// `reasoning_content`.
    ReasoningContent,
    /// `reasoning`.
    Reasoning,
    /// `reasoning_details`.
    ReasoningDetails,
}

impl DeepView for KimiReasoningKey {
    type V = KimiReasoningKey;

    open spec fn deep_view(&self) -> KimiReasoningKey {
        *self
    }
}

impl Duplicate for KimiReasoningKey {
    fn duplicate(&self) -> (copy: Self) {
        *self
    }
}

/// The settings of a request.
#[derive(Debug, Clone, PartialEq, Eq)]
pub struct KimiRequestSettings {
    pub context_window: u64,
    pub input_estimate: KimiInputEstimate,
    pub prompt_cache_key: String,
    pub thinking_effort: Option<KimiThinkingEffort>,
    pub reasoning_key: Option<KimiReasoningKey>,
}

/// The model of [`KimiRequestSettings`].
#[verifier::ext_equal]
pub struct KimiRequestSettingsModel {
    pub context_window: u64,
    pub input_estimate: KimiInputEstimate,
    pub prompt_cache_key: Seq<char>,
    pub thinking_effort: Option<KimiThinkingEffort>,
    pub reasoning_key: Option<KimiReasoningKey>,
}

impl DeepView for KimiRequestSettings {
    type V = KimiRequestSettingsModel;

    open spec fn deep_view(&self) -> KimiRequestSettingsModel {
        KimiRequestSettingsModel {
            context_window: self.context_window.deep_view(),
            input_estimate: self.input_estimate.deep_view(),
            prompt_cache_key: self.prompt_cache_key.deep_view(),
            thinking_effort: self.thinking_effort.deep_view(),
            reasoning_key: self.reasoning_key.deep_view(),
        }
    }
}

impl Duplicate for KimiRequestSettings {
    fn duplicate(&self) -> (copy: Self) {
        KimiRequestSettings {
            context_window: self.context_window.duplicate(),
            input_estimate: self.input_estimate.duplicate(),
            prompt_cache_key: self.prompt_cache_key.duplicate(),
            thinking_effort: self.thinking_effort.duplicate(),
            reasoning_key: self.reasoning_key.duplicate(),
        }
    }
}

/// What a message holds.
#[derive(Debug, Clone, PartialEq, Eq)]
pub enum KimiContent {
    /// Plain text.
    Text(String),
    /// Several parts.
    Parts(Vec<Json>),
}

/// The model of [`KimiContent`].
#[verifier::ext_equal]
pub enum KimiContentModel {
    Text(Seq<char>),
    Parts(Seq<JsonModel>),
}

impl DeepView for KimiContent {
    type V = KimiContentModel;

    open spec fn deep_view(&self) -> KimiContentModel {
        match self {
            KimiContent::Text(inner) => KimiContentModel::Text(inner.deep_view()),
            KimiContent::Parts(inner) => KimiContentModel::Parts(inner.deep_view()),
        }
    }
}

impl Duplicate for KimiContent {
    fn duplicate(&self) -> (copy: Self) {
        match self {
            KimiContent::Text(inner) => KimiContent::Text(inner.duplicate()),
            KimiContent::Parts(inner) => KimiContent::Parts(inner.duplicate()),
        }
    }
}

/// The kind of a tool: only functions are offered.
#[derive(Debug, Clone, Copy, PartialEq, Eq, Structural)]
pub enum KimiToolKind {
    /// A function.
    Function,
}

impl DeepView for KimiToolKind {
    type V = KimiToolKind;

    open spec fn deep_view(&self) -> KimiToolKind {
        *self
    }
}

impl Duplicate for KimiToolKind {
    fn duplicate(&self) -> (copy: Self) {
        *self
    }
}

/// The function that a call names, and its arguments as JSON text.
#[derive(Debug, Clone, PartialEq, Eq)]
pub struct KimiFunction {
    pub name: String,
    pub arguments: String,
}

/// The model of [`KimiFunction`].
#[verifier::ext_equal]
pub struct KimiFunctionModel {
    pub name: Seq<char>,
    pub arguments: Seq<char>,
}

impl DeepView for KimiFunction {
    type V = KimiFunctionModel;

    open spec fn deep_view(&self) -> KimiFunctionModel {
        KimiFunctionModel {
            name: self.name.deep_view(),
            arguments: self.arguments.deep_view(),
        }
    }
}

impl Duplicate for KimiFunction {
    fn duplicate(&self) -> (copy: Self) {
        KimiFunction {
            name: self.name.duplicate(),
            arguments: self.arguments.duplicate(),
        }
    }
}

/// A tool call of the model.
#[derive(Debug, Clone, PartialEq, Eq)]
pub struct KimiToolCall {
    pub id: String,
    pub kind: KimiToolKind,
    pub function: KimiFunction,
}

/// The model of [`KimiToolCall`].
#[verifier::ext_equal]
pub struct KimiToolCallModel {
    pub id: Seq<char>,
    pub kind: KimiToolKind,
    pub function: KimiFunctionModel,
}

impl DeepView for KimiToolCall {
    type V = KimiToolCallModel;

    open spec fn deep_view(&self) -> KimiToolCallModel {
        KimiToolCallModel {
            id: self.id.deep_view(),
            kind: self.kind.deep_view(),
            function: self.function.deep_view(),
        }
    }
}

impl Duplicate for KimiToolCall {
    fn duplicate(&self) -> (copy: Self) {
        KimiToolCall {
            id: self.id.duplicate(),
            kind: self.kind.duplicate(),
            function: self.function.duplicate(),
        }
    }
}

/// What the model said, called and thought in one message.
#[derive(Debug, Clone, PartialEq, Eq)]
pub struct KimiAssistantMessage {
    pub content: Option<String>,
    pub tool_calls: Vec<KimiToolCall>,
    pub reasoning: StringMap<Json>,
}

/// The model of [`KimiAssistantMessage`].
#[verifier::ext_equal]
pub struct KimiAssistantMessageModel {
    pub content: Option<Seq<char>>,
    pub tool_calls: Seq<KimiToolCallModel>,
    pub reasoning: Seq<(Seq<char>, JsonModel)>,
}

impl DeepView for KimiAssistantMessage {
    type V = KimiAssistantMessageModel;

    open spec fn deep_view(&self) -> KimiAssistantMessageModel {
        KimiAssistantMessageModel {
            content: self.content.deep_view(),
            tool_calls: self.tool_calls.deep_view(),
            reasoning: self.reasoning.deep_view(),
        }
    }
}

impl Duplicate for KimiAssistantMessage {
    fn duplicate(&self) -> (copy: Self) {
        KimiAssistantMessage {
            content: self.content.duplicate(),
            tool_calls: self.tool_calls.duplicate(),
            reasoning: self.reasoning.duplicate(),
        }
    }
}

/// One message of a request.
#[derive(Debug, Clone, PartialEq, Eq)]
pub enum KimiMessage {
    /// Instructions.
    System {
        content: KimiContent,
    },
    /// From the user.
    User {
        content: KimiContent,
    },
    /// From the model.
    Assistant(KimiAssistantMessage),
    /// The result of a tool call.
    Tool {
        tool_call_id: String,
        content: KimiContent,
    },
}

/// The model of [`KimiMessage`].
#[verifier::ext_equal]
pub enum KimiMessageModel {
    System {
        content: KimiContentModel,
    },
    User {
        content: KimiContentModel,
    },
    Assistant(KimiAssistantMessageModel),
    Tool {
        tool_call_id: Seq<char>,
        content: KimiContentModel,
    },
}

impl DeepView for KimiMessage {
    type V = KimiMessageModel;

    open spec fn deep_view(&self) -> KimiMessageModel {
        match self {
            KimiMessage::System { content } => KimiMessageModel::System { content: content.deep_view() },
            KimiMessage::User { content } => KimiMessageModel::User { content: content.deep_view() },
            KimiMessage::Assistant(inner) => KimiMessageModel::Assistant(inner.deep_view()),
            KimiMessage::Tool { tool_call_id, content } => KimiMessageModel::Tool {
                tool_call_id: tool_call_id.deep_view(),
                content: content.deep_view(),
            },
        }
    }
}

impl Duplicate for KimiMessage {
    fn duplicate(&self) -> (copy: Self) {
        match self {
            KimiMessage::System { content } => KimiMessage::System { content: content.duplicate() },
            KimiMessage::User { content } => KimiMessage::User { content: content.duplicate() },
            KimiMessage::Assistant(inner) => KimiMessage::Assistant(inner.duplicate()),
            KimiMessage::Tool { tool_call_id, content } => KimiMessage::Tool {
                tool_call_id: tool_call_id.duplicate(),
                content: content.duplicate(),
            },
        }
    }
}

/// The definition of a function.
#[derive(Debug, Clone, PartialEq, Eq)]
pub struct KimiFunctionDefinition {
    pub name: String,
    pub description: String,
    pub parameters: Json,
    pub strict: bool,
}

/// The model of [`KimiFunctionDefinition`].
#[verifier::ext_equal]
pub struct KimiFunctionDefinitionModel {
    pub name: Seq<char>,
    pub description: Seq<char>,
    pub parameters: JsonModel,
    pub strict: bool,
}

impl DeepView for KimiFunctionDefinition {
    type V = KimiFunctionDefinitionModel;

    open spec fn deep_view(&self) -> KimiFunctionDefinitionModel {
        KimiFunctionDefinitionModel {
            name: self.name.deep_view(),
            description: self.description.deep_view(),
            parameters: self.parameters.deep_view(),
            strict: self.strict.deep_view(),
        }
    }
}

impl Duplicate for KimiFunctionDefinition {
    fn duplicate(&self) -> (copy: Self) {
        KimiFunctionDefinition {
            name: self.name.duplicate(),
            description: self.description.duplicate(),
            parameters: self.parameters.duplicate(),
            strict: self.strict.duplicate(),
        }
    }
}

/// A function offered to the model.
#[derive(Debug, Clone, PartialEq, Eq)]
pub struct KimiFunctionTool {
    pub kind: KimiToolKind,
    pub function: KimiFunctionDefinition,
}

/// The model of [`KimiFunctionTool`].
#[verifier::ext_equal]
pub struct KimiFunctionToolModel {
    pub kind: KimiToolKind,
    pub function: KimiFunctionDefinitionModel,
}

impl DeepView for KimiFunctionTool {
    type V = KimiFunctionToolModel;

    open spec fn deep_view(&self) -> KimiFunctionToolModel {
        KimiFunctionToolModel {
            kind: self.kind.deep_view(),
            function: self.function.deep_view(),
        }
    }
}

impl Duplicate for KimiFunctionTool {
    fn duplicate(&self) -> (copy: Self) {
        KimiFunctionTool {
            kind: self.kind.duplicate(),
            function: self.function.duplicate(),
        }
    }
}

/// A request.
#[derive(Debug, Clone, PartialEq, Eq)]
pub struct KimiChatRequest {
    pub model: String,
    pub messages: Vec<KimiMessage>,
    pub tools: Vec<KimiFunctionTool>,
    pub stream: bool,
    pub stream_options: Json,
    pub max_completion_tokens: u64,
    pub prompt_cache_key: String,
    pub thinking: Json,
}

/// The model of [`KimiChatRequest`].
#[verifier::ext_equal]
pub struct KimiChatRequestModel {
    pub model: Seq<char>,
    pub messages: Seq<KimiMessageModel>,
    pub tools: Seq<KimiFunctionToolModel>,
    pub stream: bool,
    pub stream_options: JsonModel,
    pub max_completion_tokens: u64,
    pub prompt_cache_key: Seq<char>,
    pub thinking: JsonModel,
}

impl DeepView for KimiChatRequest {
    type V = KimiChatRequestModel;

    open spec fn deep_view(&self) -> KimiChatRequestModel {
        KimiChatRequestModel {
            model: self.model.deep_view(),
            messages: self.messages.deep_view(),
            tools: self.tools.deep_view(),
            stream: self.stream.deep_view(),
            stream_options: self.stream_options.deep_view(),
            max_completion_tokens: self.max_completion_tokens.deep_view(),
            prompt_cache_key: self.prompt_cache_key.deep_view(),
            thinking: self.thinking.deep_view(),
        }
    }
}

impl Duplicate for KimiChatRequest {
    fn duplicate(&self) -> (copy: Self) {
        KimiChatRequest {
            model: self.model.duplicate(),
            messages: self.messages.duplicate(),
            tools: self.tools.duplicate(),
            stream: self.stream.duplicate(),
            stream_options: self.stream_options.duplicate(),
            max_completion_tokens: self.max_completion_tokens.duplicate(),
            prompt_cache_key: self.prompt_cache_key.duplicate(),
            thinking: self.thinking.duplicate(),
        }
    }
}

/// Plaintext Kimi reasoning paired with its bounded, dialect-specific replay marker.
#[derive(Debug, Clone, PartialEq, Eq)]
pub struct KimiReasoning {
    pub text: String,
    pub marker: String,
}

/// The model of [`KimiReasoning`].
#[verifier::ext_equal]
pub struct KimiReasoningModel {
    pub text: Seq<char>,
    pub marker: Seq<char>,
}

impl DeepView for KimiReasoning {
    type V = KimiReasoningModel;

    open spec fn deep_view(&self) -> KimiReasoningModel {
        KimiReasoningModel {
            text: self.text.deep_view(),
            marker: self.marker.deep_view(),
        }
    }
}

impl Duplicate for KimiReasoning {
    fn duplicate(&self) -> (copy: Self) {
        KimiReasoning {
            text: self.text.duplicate(),
            marker: self.marker.duplicate(),
        }
    }
}

/// What a replay marker says: the model that thought, and its field.
#[derive(Debug, Clone, PartialEq, Eq)]
pub struct ReplayMarker {
    pub model: String,
    pub key: KimiReasoningKey,
}

/// The model of [`ReplayMarker`].
#[verifier::ext_equal]
pub struct ReplayMarkerModel {
    pub model: Seq<char>,
    pub key: KimiReasoningKey,
}

impl DeepView for ReplayMarker {
    type V = ReplayMarkerModel;

    open spec fn deep_view(&self) -> ReplayMarkerModel {
        ReplayMarkerModel {
            model: self.model.deep_view(),
            key: self.key.deep_view(),
        }
    }
}

impl Duplicate for ReplayMarker {
    fn duplicate(&self) -> (copy: Self) {
        ReplayMarker {
            model: self.model.duplicate(),
            key: self.key.duplicate(),
        }
    }
}

/// Why a request cannot be built.
#[derive(Debug, Clone, PartialEq, Eq)]
pub enum KimiRequestError {
    /// The model is not reached in this way.
    InvalidProfile,
    /// The cache key is empty or too long.
    InvalidPromptCacheKey,
    /// The model has to be told how much to think.
    MissingThinkingEffort,
    /// The model cannot be told how much to think.
    UnsupportedThinkingEffort,
    /// Two tool calls have the same name once it is shortened.
    DuplicateToolCallId(String),
    /// A replay marker that cannot be read.
    MalformedReplayMarker,
    /// A replay marker that is too long.
    ReplayMarkerTooLarge,
    /// A tool schema that cannot be used.
    ToolSchema {
        index: usize,
        source: KimiSchemaError,
    },
}

/// The model of [`KimiRequestError`].
#[verifier::ext_equal]
pub enum KimiRequestErrorModel {
    InvalidProfile,
    InvalidPromptCacheKey,
    MissingThinkingEffort,
    UnsupportedThinkingEffort,
    DuplicateToolCallId(Seq<char>),
    MalformedReplayMarker,
    ReplayMarkerTooLarge,
    ToolSchema {
        index: usize,
        source: KimiSchemaErrorModel,
    },
}

impl DeepView for KimiRequestError {
    type V = KimiRequestErrorModel;

    open spec fn deep_view(&self) -> KimiRequestErrorModel {
        match self {
            KimiRequestError::InvalidProfile => KimiRequestErrorModel::InvalidProfile,
            KimiRequestError::InvalidPromptCacheKey => KimiRequestErrorModel::InvalidPromptCacheKey,
            KimiRequestError::MissingThinkingEffort => KimiRequestErrorModel::MissingThinkingEffort,
            KimiRequestError::UnsupportedThinkingEffort => KimiRequestErrorModel::UnsupportedThinkingEffort,
            KimiRequestError::DuplicateToolCallId(inner) => {
                KimiRequestErrorModel::DuplicateToolCallId(inner.deep_view())
            },
            KimiRequestError::MalformedReplayMarker => KimiRequestErrorModel::MalformedReplayMarker,
            KimiRequestError::ReplayMarkerTooLarge => KimiRequestErrorModel::ReplayMarkerTooLarge,
            KimiRequestError::ToolSchema { index, source } => KimiRequestErrorModel::ToolSchema {
                index: index.deep_view(),
                source: source.deep_view(),
            },
        }
    }
}

impl Duplicate for KimiRequestError {
    fn duplicate(&self) -> (copy: Self) {
        match self {
            KimiRequestError::InvalidProfile => KimiRequestError::InvalidProfile,
            KimiRequestError::InvalidPromptCacheKey => KimiRequestError::InvalidPromptCacheKey,
            KimiRequestError::MissingThinkingEffort => KimiRequestError::MissingThinkingEffort,
            KimiRequestError::UnsupportedThinkingEffort => KimiRequestError::UnsupportedThinkingEffort,
            KimiRequestError::DuplicateToolCallId(inner) => KimiRequestError::DuplicateToolCallId(inner.duplicate()),
            KimiRequestError::MalformedReplayMarker => KimiRequestError::MalformedReplayMarker,
            KimiRequestError::ReplayMarkerTooLarge => KimiRequestError::ReplayMarkerTooLarge,
            KimiRequestError::ToolSchema { index, source } => KimiRequestError::ToolSchema {
                index: index.duplicate(),
                source: source.duplicate(),
            },
        }
    }
}

/// What an assistant message is made of.
pub struct KimiAssistantMessageInput<'a> {
    pub content: Option<String>,
    pub tool_calls: Vec<KimiToolCall>,
    pub reasoning: Option<&'a KimiReasoning>,
}

impl KimiRequestErrorModel {
    /// The message of the error.
    pub open spec fn text(self) -> Seq<char> {
        match self {
            KimiRequestErrorModel::InvalidProfile => "invalid Kimi inference profile"@,
            KimiRequestErrorModel::InvalidPromptCacheKey => "invalid Kimi prompt cache key"@,
            KimiRequestErrorModel::MissingThinkingEffort => "this Kimi profile requires a thinking effort"@,
            KimiRequestErrorModel::UnsupportedThinkingEffort =>
                "this Kimi profile does not accept a thinking effort"@,
            KimiRequestErrorModel::DuplicateToolCallId(id) =>
                "two tool-call IDs normalize to the same Kimi ID `"@ + id + "`"@,
            KimiRequestErrorModel::MalformedReplayMarker => "Kimi reasoning replay marker is malformed"@,
            KimiRequestErrorModel::ReplayMarkerTooLarge => "Kimi reasoning replay marker exceeds its size bound"@,
            KimiRequestErrorModel::ToolSchema { index, source } => "Kimi tool schema at index "@ + decimal(
                index as nat,
            ) + " is unsupported: "@ + source.text(),
        }
    }
}

impl KimiRequestError {
    /// The message of the error.
    pub fn message(&self) -> (message: String)
        ensures
            message@ == self.deep_view().text(),
    {
        match self {
            KimiRequestError::InvalidProfile => "invalid Kimi inference profile".to_owned(),
            KimiRequestError::InvalidPromptCacheKey => "invalid Kimi prompt cache key".to_owned(),
            KimiRequestError::MissingThinkingEffort => "this Kimi profile requires a thinking effort".to_owned(),
            KimiRequestError::UnsupportedThinkingEffort =>
                "this Kimi profile does not accept a thinking effort".to_owned(),
            KimiRequestError::DuplicateToolCallId(id) => concat3(
                "two tool-call IDs normalize to the same Kimi ID `",
                id,
                "`",
            ),
            KimiRequestError::MalformedReplayMarker => "Kimi reasoning replay marker is malformed".to_owned(),
            KimiRequestError::ReplayMarkerTooLarge =>
                "Kimi reasoning replay marker exceeds its size bound".to_owned(),
            KimiRequestError::ToolSchema { index, source } => {
                let mut text = concat3(
                    "Kimi tool schema at index ",
                    &decimal_text(*index as u64),
                    " is unsupported: ",
                );
                text.append(&source.message());
                text
            },
        }
    }
}

impl KimiThinkingEffort {
    /// The name of the level.
    pub open spec fn label(self) -> Seq<char> {
        match self {
            KimiThinkingEffort::Low => "low"@,
            KimiThinkingEffort::High => "high"@,
            KimiThinkingEffort::Max => "max"@,
        }
    }

    /// The name of the level.
    pub fn as_str(self) -> (name: &'static str)
        ensures
            name@ == self.label(),
    {
        match self {
            KimiThinkingEffort::Low => "low",
            KimiThinkingEffort::High => "high",
            KimiThinkingEffort::Max => "max",
        }
    }
}

impl KimiReasoningKey {
    /// The name of the field.
    pub open spec fn label(self) -> Seq<char> {
        match self {
            KimiReasoningKey::ReasoningContent => "reasoning_content"@,
            KimiReasoningKey::Reasoning => "reasoning"@,
            KimiReasoningKey::ReasoningDetails => "reasoning_details"@,
        }
    }

    /// The name of the field.
    pub fn as_str(self) -> (name: &'static str)
        ensures
            name@ == self.label(),
    {
        match self {
            KimiReasoningKey::ReasoningContent => "reasoning_content",
            KimiReasoningKey::Reasoning => "reasoning",
            KimiReasoningKey::ReasoningDetails => "reasoning_details",
        }
    }
}

impl KimiToolCall {
    /// A call of a function.
    pub fn function(id: String, name: String, arguments: String) -> (call: Self)
        ensures
            call.deep_view() == (KimiToolCallModel {
                id: id@,
                kind: KimiToolKind::Function,
                function: KimiFunctionModel { name: name@, arguments: arguments@ },
            }),
    {
        KimiToolCall { id, kind: KimiToolKind::Function, function: KimiFunction { name, arguments } }
    }
}

impl KimiFunctionTool {
    /// A function to offer.
    pub fn new(function: KimiFunctionDefinition) -> (tool: Self)
        ensures
            tool.deep_view() == (KimiFunctionToolModel {
                kind: KimiToolKind::Function,
                function: function.deep_view(),
            }),
    {
        KimiFunctionTool { kind: KimiToolKind::Function, function }
    }
}

// ---- replay markers ----

/// A replay marker as JSON.
pub open spec fn marker_json(model: Seq<char>, key: KimiReasoningKey) -> JsonModel {
    JsonModel::Object(
        seq![
            ("dialect"@, JsonModel::Text("kimi_chat"@)),
            ("key"@, JsonModel::Text(key.label())),
            ("model"@, JsonModel::Text(model)),
            ("version"@, JsonModel::Number(JsonNumberModel::Unsigned(1))),
        ],
    )
}

/// The replay marker for a model and its field.
pub open spec fn marker_text(model: Seq<char>, key: KimiReasoningKey) -> Seq<char> {
    REPLAY_PREFIX@ + json_print(marker_json(model, key))
}

/// Whether the replay marker for a model and its field is short enough.
pub open spec fn marker_fits(model: Seq<char>, key: KimiReasoningKey) -> bool {
    byte_length(marker_text(model, key)) <= MAX_REPLAY_MARKER_LEN
}

/// The field of a name.
pub open spec fn key_named(name: Seq<char>) -> Option<KimiReasoningKey> {
    if name == "reasoning_content"@ {
        Some(KimiReasoningKey::ReasoningContent)
    } else if name == "reasoning"@ {
        Some(KimiReasoningKey::Reasoning)
    } else if name == "reasoning_details"@ {
        Some(KimiReasoningKey::ReasoningDetails)
    } else {
        None
    }
}

/// The field that a value names: by a text, or by the only name of an object
/// that holds nothing.
pub open spec fn key_of(json: JsonModel) -> Option<KimiReasoningKey> {
    match json {
        JsonModel::Text(name) => key_named(name),
        JsonModel::Object(entries) => if entries.len() == 1 && entries[0].1 is Null {
            key_named(entries[0].0)
        } else {
            None
        },
        _ => None,
    }
}

/// Whether a marker may have this name.
pub open spec fn marker_name(name: Seq<char>) -> bool {
    name == "version"@ || name == "dialect"@ || name == "model"@ || name == "key"@
}

/// Whether a marker has no names but its own.
pub open spec fn only_marker_names(entries: Seq<(Seq<char>, JsonModel)>) -> bool {
    forall|i: int| 0 <= i < entries.len() ==> marker_name((#[trigger] entries[i]).0)
}

/// What the fields of a marker say.
pub open spec fn marker_with(
    version: JsonModel,
    dialect: JsonModel,
    model: JsonModel,
    key: JsonModel,
) -> Option<ReplayMarkerModel> {
    match (version, dialect, model, key_of(key)) {
        (
            JsonModel::Number(JsonNumberModel::Unsigned(version)),
            JsonModel::Text(dialect),
            JsonModel::Text(model),
            Some(key),
        ) => if version == 1 && dialect == "kimi_chat"@ {
            Some(ReplayMarkerModel { model, key })
        } else {
            None
        },
        _ => None,
    }
}

/// What a marker says that was parsed: its fields stand under their names, or
/// in an array in the order of the structure.
pub open spec fn marker_of(parsed: Result<JsonModel, Seq<char>>) -> Option<ReplayMarkerModel> {
    match parsed {
        Ok(JsonModel::Object(entries)) => {
            let json = JsonModel::Object(entries);
            match (member(json, "version"@), member(json, "dialect"@), member(json, "model"@), member(json, "key"@)) {
                (Some(version), Some(dialect), Some(model), Some(key)) => if only_marker_names(entries) {
                    marker_with(version, dialect, model, key)
                } else {
                    None
                },
                _ => None,
            }
        },
        Ok(JsonModel::Array(items)) => if items.len() == 4 {
            marker_with(items[0], items[1], items[2], items[3])
        } else {
            None
        },
        _ => None,
    }
}

/// What a marker says.
pub open spec fn marker_read(marker: Seq<char>) -> Option<ReplayMarkerModel> {
    if byte_length(marker) > MAX_REPLAY_MARKER_LEN {
        None
    } else {
        match stripped(marker, REPLAY_PREFIX@) {
            None => None,
            Some(encoded) => marker_of(json_parse(encoded)),
        }
    }
}

fn parse_key(name: &str) -> (key: Option<KimiReasoningKey>)
    ensures
        key == key_named(name@),
{
    if *name == *"reasoning_content" {
        Some(KimiReasoningKey::ReasoningContent)
    } else if *name == *"reasoning" {
        Some(KimiReasoningKey::Reasoning)
    } else if *name == *"reasoning_details" {
        Some(KimiReasoningKey::ReasoningDetails)
    } else {
        None
    }
}

fn read_key(json: &Json) -> (key: Option<KimiReasoningKey>)
    ensures
        key == key_of(json.deep_view()),
{
    broadcast use lemma_object_model;
    match json {
        Json::Text(name) => parse_key(name),
        Json::Object(entries) => {
            if entries.len() == 1 {
                assert(entries.deep_view()[0] == entries@[0].deep_view());
                if let Json::Null = &entries[0].1 {
                    return parse_key(&entries[0].0);
                }
            }
            None
        },
        _ => None,
    }
}

fn has_only_marker_names(entries: &Vec<(String, Json)>) -> (only: bool)
    ensures
        only == only_marker_names(entries.deep_view()),
{
    let mut i: usize = 0;
    while i < entries.len()
        invariant
            i <= entries.len(),
            forall|j: int| 0 <= j < i ==> marker_name((#[trigger] entries.deep_view()[j]).0),
        decreases entries.len() - i,
    {
        let name = entries[i].0.as_str();
        assert(entries.deep_view()[i as int].0 == name@);
        if !(*name == *"version" || *name == *"dialect" || *name == *"model" || *name == *"key") {
            return false;
        }
        i += 1;
    }
    true
}

fn make_marker(version: &Json, dialect: &Json, model: &Json, key: &Json) -> (marker: Option<ReplayMarker>)
    ensures
        marker.deep_view() == marker_with(
            version.deep_view(),
            dialect.deep_view(),
            model.deep_view(),
            key.deep_view(),
        ),
{
    match (version, dialect, model, read_key(key)) {
        (Json::Number(JsonNumber::Unsigned(version)), Json::Text(dialect), Json::Text(model), Some(key)) => {
            if *version == 1 && *dialect.as_str() == *"kimi_chat" {
                Some(ReplayMarker { model: model.duplicate(), key })
            } else {
                None
            }
        },
        _ => None,
    }
}

/// What a marker says that was parsed.
pub fn read_marker(parsed: Result<Json, String>) -> (marker: Option<ReplayMarker>)
    ensures
        marker.deep_view() == marker_of(outcome(parsed)),
{
    broadcast use {lemma_array_model, lemma_object_model};
    match parsed {
        Ok(json) => match &json {
            Json::Object(entries) => match (
                json.get("version"),
                json.get("dialect"),
                json.get("model"),
                json.get("key"),
            ) {
                (Some(version), Some(dialect), Some(model), Some(key)) => {
                    if has_only_marker_names(entries) {
                        make_marker(version, dialect, model, key)
                    } else {
                        None
                    }
                },
                _ => None,
            },
            Json::Array(items) => {
                if items.len() == 4 {
                    assert(forall|i: int| 0 <= i < 4 ==> items.deep_view()[i] == (#[trigger] items@[i]).deep_view());
                    make_marker(&items[0], &items[1], &items[2], &items[3])
                } else {
                    None
                }
            },
            _ => None,
        },
        Err(_) => None,
    }
}

fn write_marker(model: &str, key: KimiReasoningKey) -> (json: Json)
    ensures
        json.deep_view() == marker_json(model@, key),
{
    broadcast use lemma_object_model;
    let mut entries: Vec<(String, Json)> = no_items();
    push_item(&mut entries, ("dialect".to_owned(), Json::Text("kimi_chat".to_owned())));
    push_item(&mut entries, ("key".to_owned(), Json::Text(key.as_str().to_owned())));
    push_item(&mut entries, ("model".to_owned(), Json::Text(model.to_owned())));
    push_item(&mut entries, ("version".to_owned(), Json::Number(JsonNumber::Unsigned(1))));
    assert(entries.deep_view() =~= marker_json(model@, key)->Object_0);
    Json::Object(entries)
}

proof fn lemma_marker_names()
    ensures
        text_less("dialect"@, "key"@),
        text_less("dialect"@, "model"@),
        text_less("dialect"@, "version"@),
        text_less("key"@, "model"@),
        text_less("key"@, "version"@),
        text_less("model"@, "version"@),
        "dialect"@ != "key"@,
        "dialect"@ != "model"@,
        "dialect"@ != "version"@,
        "key"@ != "model"@,
        "key"@ != "version"@,
        "model"@ != "version"@,
{
    reveal_strlit("dialect");
    reveal_strlit("key");
    reveal_strlit("model");
    reveal_strlit("version");
    assert("dialect"@.len() == 7 && "key"@.len() == 3 && "model"@.len() == 5 && "version"@.len() == 7);
    assert("dialect"@[0] == 'd' && "key"@[0] == 'k' && "model"@[0] == 'm' && "version"@[0] == 'v');
}

proof fn lemma_key_label(key: KimiReasoningKey)
    ensures
        key_named(key.label()) == Some(key),
{
    reveal_strlit("reasoning_content");
    reveal_strlit("reasoning");
    reveal_strlit("reasoning_details");
    assert("reasoning_content"@.len() == 17 && "reasoning"@.len() == 9 && "reasoning_details"@.len() == 17);
    assert("reasoning_content"@[10] == 'c' && "reasoning_details"@[10] == 'd');
}

proof fn lemma_marker_read(model: Seq<char>, key: KimiReasoningKey)
    ensures
        sorted(marker_json(model, key)) == marker_json(model, key),
        canonical(marker_json(model, key)),
        nesting(marker_json(model, key), 127),
        marker_of(Ok(marker_json(model, key))) == Some(ReplayMarkerModel { model, key }),
{
    lemma_marker_names();
    lemma_key_label(key);
    let json = marker_json(model, key);
    let entries = json->Object_0;
    assert(distinct(entries));
    lemma_object_canonical(entries, 0, 126);
    let one = Seq::<(Seq<char>, JsonModel)>::empty().push(entries[0]);
    let two = one.push(entries[1]);
    let three = two.push(entries[2]);
    lemma_put_last(Seq::<(Seq<char>, JsonModel)>::empty(), entries[0].0, entries[0].1);
    lemma_put_last(one, entries[1].0, entries[1].1);
    lemma_put_last(two, entries[2].0, entries[2].1);
    lemma_put_last(three, entries[3].0, entries[3].1);
    reveal_with_fuel(sorted_from, 6);
    assert(sorted_from(entries, 0, Seq::empty()) == three.push(entries[3]));
    assert(three.push(entries[3]) =~= entries);
    reveal_with_fuel(lookup, 5);
    assert(entries.drop_first().drop_first().drop_first() =~= seq![entries[3]]);
    assert(entries.drop_first().drop_first() =~= seq![entries[2], entries[3]]);
    assert(entries.drop_first() =~= seq![entries[1], entries[2], entries[3]]);
    assert(only_marker_names(entries));
}

impl KimiReasoning {
    /// Reasoning with a marker that was kept; the marker has to be readable.
    pub fn from_persisted(text: String, marker: String) -> (reasoning: Result<Self, KimiRequestError>)
        ensures
            outcome(reasoning) == if marker_read(marker@) is Some {
                Ok(KimiReasoningModel { text: text@, marker: marker@ })
            } else {
                Err(KimiRequestErrorModel::MalformedReplayMarker)
            },
    {
        let reasoning = KimiReasoning { text, marker };
        match reasoning.decode_marker() {
            Ok(_) => Ok(reasoning),
            Err(error) => Err(error),
        }
    }

    /// The marker, which only this dialect reads.
    pub fn opaque_marker(&self) -> (marker: &str)
        ensures
            marker@ == self.marker@,
    {
        self.marker.as_str()
    }

    /// The field that the reasoning stood in.
    pub fn key(&self) -> (key: Result<KimiReasoningKey, KimiRequestError>)
        ensures
            outcome(key) == match marker_read(self.marker@) {
                Some(marker) => Ok(marker.key),
                None => Err(KimiRequestErrorModel::MalformedReplayMarker),
            },
    {
        match self.decode_marker() {
            Ok(marker) => Ok(marker.key),
            Err(error) => Err(error),
        }
    }

    /// Reasoning of a model in one of its fields. The marker says of which model
    /// and in which field.
    pub fn for_model(wire_model: &str, key: KimiReasoningKey, text: String) -> (reasoning: Result<
        Self,
        KimiRequestError,
    >)
        ensures
            outcome(reasoning) == if marker_fits(wire_model@, key) {
                Ok(KimiReasoningModel { text: text@, marker: marker_text(wire_model@, key) })
            } else {
                Err(KimiRequestErrorModel::ReplayMarkerTooLarge)
            },
            reasoning matches Ok(reasoning) ==> marker_read(reasoning.marker@) == Some(
                ReplayMarkerModel { model: wire_model@, key },
            ),
    {
        let json = print_json(&write_marker(wire_model, key));
        let marker = concat(REPLAY_PREFIX, &json);
        if bytes_in(&marker) > MAX_REPLAY_MARKER_LEN {
            return Err(KimiRequestError::ReplayMarkerTooLarge);
        }
        proof {
            lemma_marker_read(wire_model@, key);
            assert(marker@.take(REPLAY_PREFIX@.len() as int) =~= REPLAY_PREFIX@);
            assert(marker@.skip(REPLAY_PREFIX@.len() as int) =~= json@);
        }
        Ok(KimiReasoning { text, marker })
    }

    /// The field and the text that are replayed: only to exactly the model that
    /// thought.
    pub fn replay_for(&self, wire_model: &str) -> (replay: Result<Option<(KimiReasoningKey, String)>, KimiRequestError>)
        ensures
            outcome(replay) == replay_to(self.deep_view(), wire_model@),
    {
        match self.decode_marker() {
            Err(error) => Err(error),
            Ok(marker) => {
                if *marker.model.as_str() == *wire_model {
                    Ok(Some((marker.key, self.text.duplicate())))
                } else {
                    Ok(None)
                }
            },
        }
    }

    fn decode_marker(&self) -> (marker: Result<ReplayMarker, KimiRequestError>)
        ensures
            outcome(marker) == match marker_read(self.marker@) {
                Some(marker) => Ok(marker),
                None => Err(KimiRequestErrorModel::MalformedReplayMarker),
            },
    {
        if bytes_in(&self.marker) > MAX_REPLAY_MARKER_LEN {
            return Err(KimiRequestError::MalformedReplayMarker);
        }
        match strip_prefix(&self.marker, REPLAY_PREFIX) {
            None => Err(KimiRequestError::MalformedReplayMarker),
            Some(encoded) => match read_marker(parse_json(&encoded)) {
                None => Err(KimiRequestError::MalformedReplayMarker),
                Some(marker) => Ok(marker),
            },
        }
    }
}

/// What is replayed of reasoning to a model.
pub open spec fn replay_to(reasoning: KimiReasoningModel, wire_model: Seq<char>) -> Result<
    Option<(KimiReasoningKey, Seq<char>)>,
    KimiRequestErrorModel,
> {
    match marker_read(reasoning.marker) {
        None => Err(KimiRequestErrorModel::MalformedReplayMarker),
        Some(marker) => if marker.model == wire_model {
            Ok(Some((marker.key, reasoning.text)))
        } else {
            Ok(None)
        },
    }
}

/// The reasoning fields of an assistant message.
pub open spec fn reasoning_fields(reasoning: Option<KimiReasoningModel>, wire_model: Seq<char>) -> Result<
    Seq<(Seq<char>, JsonModel)>,
    KimiRequestErrorModel,
> {
    match reasoning {
        None => Ok(put(Seq::empty(), KimiReasoningKey::ReasoningContent.label(), JsonModel::Text(Seq::empty()))),
        Some(reasoning) => match replay_to(reasoning, wire_model) {
            Err(error) => Err(error),
            Ok(None) => Ok(Seq::empty()),
            Ok(Some((key, text))) => Ok(put(Seq::empty(), key.label(), JsonModel::Text(text))),
        },
    }
}

impl KimiAssistantMessage {
    /// An assistant message for a model: its reasoning is replayed where that
    /// model thought it, and an empty one stands where there is none.
    pub fn from_input(input: KimiAssistantMessageInput<'_>, wire_model: &str) -> (message: Result<
        Self,
        KimiRequestError,
    >)
        ensures
            outcome(message) == match reasoning_fields(input.reasoning.deep_view(), wire_model@) {
                Err(error) => Err(error),
                Ok(reasoning) => Ok(
                    KimiAssistantMessageModel {
                        content: input.content.deep_view(),
                        tool_calls: input.tool_calls.deep_view(),
                        reasoning,
                    },
                ),
            },
    {
        let mut reasoning: StringMap<Json> = StringMap::new();
        match input.reasoning {
            None => {
                reasoning.insert(
                    KimiReasoningKey::ReasoningContent.as_str().to_owned(),
                    Json::Text(String::new()),
                );
            },
            Some(given) => match given.replay_for(wire_model) {
                Err(error) => {
                    return Err(error);
                },
                Ok(None) => {},
                Ok(Some(replay)) => {
                    reasoning.insert(replay.0.as_str().to_owned(), Json::Text(replay.1));
                },
            },
        }
        Ok(KimiAssistantMessage { content: input.content, tool_calls: input.tool_calls, reasoning })
    }
}

// ---- names of tool calls ----

/// A hash of the bytes from `at` on behind what was hashed.
pub open spec fn hashed_from(bytes: Seq<u8>, at: int, hash: u64) -> u64
    decreases bytes.len() - at,
{
    if at < 0 || at >= bytes.len() {
        hash
    } else {
        hashed_from(bytes, at + 1, (hash ^ (bytes[at] as u64)).wrapping_mul(0x100000001b3))
    }
}

/// The hash of a text.
pub open spec fn text_hash(text: Seq<char>) -> u64 {
    hashed_from(encode_utf8(text), 0, 0xcbf29ce484222325)
}

/// The name of a tool call as Kimi takes it: a long one is its start and a hash
/// of the whole.
pub open spec fn normal_call_id(call_id: Seq<char>) -> Seq<char> {
    if byte_length(call_id) <= MAX_CALL_ID_LEN {
        call_id
    } else {
        fitting_prefix(call_id, CALL_ID_PREFIX_LEN as nat) + "-"@ + digits(
            text_hash(call_id) as nat,
            16,
            16,
        ).map_values(|digit: nat| hex_char(digit))
    }
}

fn hash_text(text: &str) -> (hash: u64)
    ensures
        hash == text_hash(text@),
{
    let bytes = text.as_bytes();
    let mut hash: u64 = 0xcbf29ce484222325;
    let mut i: usize = 0;
    while i < bytes.len()
        invariant
            i <= bytes.len(),
            bytes@ == encode_utf8(text@),
            text_hash(text@) == hashed_from(bytes@, i as int, hash),
        decreases bytes.len() - i,
    {
        hash = (hash ^ (bytes[i] as u64)).wrapping_mul(0x100000001b3);
        i += 1;
    }
    hash
}

/// The name of a tool call as Kimi takes it.
pub fn normalize_call_id(call_id: &str) -> (id: String)
    ensures
        id@ == normal_call_id(call_id@),
{
    if bytes_in(call_id) <= MAX_CALL_ID_LEN {
        return call_id.to_owned();
    }
    let hash = hash_text(call_id);
    concat3(&prefix_within(call_id, CALL_ID_PREFIX_LEN), "-", &hex_digits(hash as u128, 16))
}

// ---- messages ----

/// The names of the calls of a message.
pub open spec fn message_call_ids(message: KimiMessageModel) -> Seq<Seq<char>> {
    match message {
        KimiMessageModel::Assistant(assistant) => Seq::new(
            assistant.tool_calls.len(),
            |i: int| assistant.tool_calls[i].id,
        ),
        _ => Seq::empty(),
    }
}

/// The names of the calls of the messages from `at` on behind those that are
/// done.
pub open spec fn call_ids_from(messages: Seq<KimiMessageModel>, at: int, done: Seq<Seq<char>>) -> Seq<Seq<char>>
    decreases messages.len() - at,
{
    if at < 0 || at >= messages.len() {
        done
    } else {
        call_ids_from(messages, at + 1, done + message_call_ids(messages[at]))
    }
}

/// The names of all calls, in order.
pub open spec fn all_call_ids(messages: Seq<KimiMessageModel>) -> Seq<Seq<char>> {
    call_ids_from(messages, 0, Seq::empty())
}

/// The first name from `at` on that is shortened to the same as another one
/// before it.
pub open spec fn collision_from(ids: Seq<Seq<char>>, at: int, normal: Seq<Seq<char>>) -> Option<Seq<char>>
    decreases ids.len() - at,
{
    if at < 0 || at >= ids.len() {
        None
    } else {
        let id = normal_call_id(ids[at]);
        if place(normal, id) is Some && place(ids.take(at), ids[at]) is None {
            Some(id)
        } else {
            collision_from(ids, at + 1, normal.push(id))
        }
    }
}

/// The field that the last message with reasoning has it in, of those below
/// `below`.
pub open spec fn last_reasoning_key(messages: Seq<KimiMessageModel>, below: int) -> Option<Seq<char>>
    decreases below,
{
    if below <= 0 || below > messages.len() {
        None
    } else {
        match messages[below - 1] {
            KimiMessageModel::Assistant(assistant) => if assistant.reasoning.len() > 0 {
                Some(assistant.reasoning[0].0)
            } else {
                last_reasoning_key(messages, below - 1)
            },
            _ => last_reasoning_key(messages, below - 1),
        }
    }
}

/// The field that all messages have their reasoning in.
pub open spec fn shared_reasoning_key(messages: Seq<KimiMessageModel>, selected: Option<KimiReasoningKey>) -> Seq<char> {
    match selected {
        Some(key) => key.label(),
        None => match last_reasoning_key(messages, messages.len() as int) {
            Some(key) => key,
            None => KimiReasoningKey::ReasoningContent.label(),
        },
    }
}

/// A call under its normal name.
pub open spec fn normal_call(call: KimiToolCallModel) -> KimiToolCallModel {
    KimiToolCallModel { id: normal_call_id(call.id), ..call }
}

/// An assistant message in its normal form: reasoning in the shared field, calls
/// under their normal names, and no empty text beside calls.
pub open spec fn normal_assistant(message: KimiAssistantMessageModel, key: Seq<char>) -> KimiAssistantMessageModel {
    let value = if message.reasoning.len() > 0 {
        message.reasoning[0].1
    } else {
        JsonModel::Text(Seq::empty())
    };
    let others = if message.reasoning.len() > 0 {
        message.reasoning.drop_first()
    } else {
        message.reasoning
    };
    KimiAssistantMessageModel {
        content: if message.tool_calls.len() > 0 && message.content == Some(Seq::<char>::empty()) {
            None
        } else {
            message.content
        },
        tool_calls: Seq::new(message.tool_calls.len(), |i: int| normal_call(message.tool_calls[i])),
        reasoning: put(others, key, value),
    }
}

/// A message in its normal form. A tool result follows the name of its call.
pub open spec fn normal_message(message: KimiMessageModel, ids: Seq<Seq<char>>, key: Seq<char>) -> KimiMessageModel {
    match message {
        KimiMessageModel::Assistant(assistant) => KimiMessageModel::Assistant(normal_assistant(assistant, key)),
        KimiMessageModel::Tool { tool_call_id, content } => KimiMessageModel::Tool {
            tool_call_id: if place(ids, tool_call_id) is Some {
                normal_call_id(tool_call_id)
            } else {
                tool_call_id
            },
            content,
        },
        other => other,
    }
}

/// The messages in their normal form, or the name under which two calls
/// collide.
pub open spec fn normal_messages(messages: Seq<KimiMessageModel>, selected: Option<KimiReasoningKey>) -> Result<
    Seq<KimiMessageModel>,
    KimiRequestErrorModel,
> {
    let ids = all_call_ids(messages);
    match collision_from(ids, 0, Seq::empty()) {
        Some(id) => Err(KimiRequestErrorModel::DuplicateToolCallId(id)),
        None => Ok(
            Seq::new(
                messages.len(),
                |i: int| normal_message(messages[i], ids, shared_reasoning_key(messages, selected)),
            ),
        ),
    }
}

fn collect_call_ids(messages: &Vec<KimiMessage>) -> (ids: Vec<String>)
    ensures
        ids.deep_view() == all_call_ids(messages.deep_view()),
{
    let mut ids: Vec<String> = no_items();
    let mut i: usize = 0;
    while i < messages.len()
        invariant
            i <= messages.len(),
            all_call_ids(messages.deep_view()) == call_ids_from(messages.deep_view(), i as int, ids.deep_view()),
        decreases messages.len() - i,
    {
        assert(messages.deep_view()[i as int] == messages@[i as int].deep_view());
        let ghost before = ids.deep_view();
        let ghost all = message_call_ids(messages.deep_view()[i as int]);
        if let KimiMessage::Assistant(assistant) = &messages[i] {
            let mut j: usize = 0;
            assert(before + all.take(0) =~= before);
            while j < assistant.tool_calls.len()
                invariant
                    j <= assistant.tool_calls.len(),
                    all == Seq::new(
                        assistant.tool_calls.deep_view().len(),
                        |k: int| assistant.tool_calls.deep_view()[k].id,
                    ),
                    ids.deep_view() == before + all.take(j as int),
                decreases assistant.tool_calls.len() - j,
            {
                push_item(&mut ids, assistant.tool_calls[j].id.duplicate());
                j += 1;
                assert(before + all.take(j as int) =~= (before + all.take(j - 1)).push(all[j - 1]));
            }
            assert(all.take(all.len() as int) =~= all);
        } else {
            assert(before + all =~= before);
        }
        i += 1;
    }
    ids
}

fn find_collision(ids: &Vec<String>) -> (collision: Option<String>)
    ensures
        collision.deep_view() == collision_from(ids.deep_view(), 0, Seq::empty()),
{
    let mut normal: Vec<String> = no_items();
    let mut seen: Vec<String> = no_items();
    let mut i: usize = 0;
    assert(ids.deep_view().take(0) =~= Seq::empty());
    while i < ids.len()
        invariant
            i <= ids.len(),
            seen.deep_view() == ids.deep_view().take(i as int),
            collision_from(ids.deep_view(), 0, Seq::empty()) == collision_from(
                ids.deep_view(),
                i as int,
                normal.deep_view(),
            ),
        decreases ids.len() - i,
    {
        assert(ids.deep_view()[i as int] == ids@[i as int]@);
        let id = normalize_call_id(&ids[i]);
        if position(&normal, &id).is_some() && position(&seen, &ids[i]).is_none() {
            return Some(id);
        }
        push_item(&mut normal, id);
        push_item(&mut seen, ids[i].duplicate());
        i += 1;
        assert(seen.deep_view() =~= ids.deep_view().take(i as int));
    }
    None
}

fn choose_reasoning_key(messages: &Vec<KimiMessage>, selected: Option<KimiReasoningKey>) -> (key: String)
    ensures
        key@ == shared_reasoning_key(messages.deep_view(), selected),
{
    if let Some(key) = selected {
        return key.as_str().to_owned();
    }
    let mut below: usize = messages.len();
    while below > 0
        invariant
            below <= messages.len(),
            selected is None,
            last_reasoning_key(messages.deep_view(), messages.deep_view().len() as int) == last_reasoning_key(
                messages.deep_view(),
                below as int,
            ),
        decreases below,
    {
        assert(messages.deep_view()[below - 1] == messages@[below - 1].deep_view());
        if let KimiMessage::Assistant(assistant) = &messages[below - 1] {
            if assistant.reasoning.len() > 0 {
                return assistant.reasoning.entry(0).0.duplicate();
            }
        }
        below -= 1;
    }
    KimiReasoningKey::ReasoningContent.as_str().to_owned()
}

fn normalize_assistant(message: &KimiAssistantMessage, key: &str) -> (normal: KimiAssistantMessage)
    ensures
        normal.deep_view() == normal_assistant(message.deep_view(), key@),
{
    let mut reasoning = message.reasoning.duplicate();
    let value = match reasoning.pop_first() {
        Some(entry) => entry.1,
        None => Json::Text(String::new()),
    };
    reasoning.insert(key.to_owned(), value);
    let mut tool_calls: Vec<KimiToolCall> = Vec::new();
    let mut i: usize = 0;
    while i < message.tool_calls.len()
        invariant
            i <= message.tool_calls.len(),
            tool_calls.len() == i,
            forall|j: int|
                0 <= j < i ==> (#[trigger] tool_calls@[j]).deep_view() == normal_call(
                    message.tool_calls@[j].deep_view(),
                ),
        decreases message.tool_calls.len() - i,
    {
        let call = &message.tool_calls[i];
        tool_calls.push(
            KimiToolCall {
                id: normalize_call_id(&call.id),
                kind: call.kind,
                function: call.function.duplicate(),
            },
        );
        i += 1;
    }
    assert(tool_calls.deep_view() =~= normal_assistant(message.deep_view(), key@).tool_calls);
    let blank = match &message.content {
        Some(text) => text.as_str().is_empty(),
        None => false,
    };
    assert(blank == (message.content.deep_view() == Some(Seq::<char>::empty()))) by {
        if let Some(text) = message.content {
            assert(text@.len() == 0 ==> text@ =~= Seq::<char>::empty());
        }
    }
    let content = if message.tool_calls.len() > 0 && blank {
        None
    } else {
        message.content.duplicate()
    };
    KimiAssistantMessage { content, tool_calls, reasoning }
}

fn normalize_message(message: &KimiMessage, ids: &Vec<String>, key: &str) -> (normal: KimiMessage)
    ensures
        normal.deep_view() == normal_message(message.deep_view(), ids.deep_view(), key@),
{
    match message {
        KimiMessage::Assistant(assistant) => KimiMessage::Assistant(normalize_assistant(assistant, key)),
        KimiMessage::Tool { tool_call_id, content } => {
            let id = if position(ids, tool_call_id).is_some() {
                normalize_call_id(tool_call_id)
            } else {
                tool_call_id.duplicate()
            };
            KimiMessage::Tool { tool_call_id: id, content: content.duplicate() }
        },
        other => other.duplicate(),
    }
}

fn normalize_messages(messages: &Vec<KimiMessage>, selected: Option<KimiReasoningKey>) -> (normal: Result<
    Vec<KimiMessage>,
    KimiRequestError,
>)
    ensures
        outcome(normal) == normal_messages(messages.deep_view(), selected),
{
    let ids = collect_call_ids(messages);
    if let Some(id) = find_collision(&ids) {
        return Err(KimiRequestError::DuplicateToolCallId(id));
    }
    let key = choose_reasoning_key(messages, selected);
    let mut normal: Vec<KimiMessage> = Vec::new();
    let mut i: usize = 0;
    while i < messages.len()
        invariant
            i <= messages.len(),
            normal.len() == i,
            forall|j: int|
                0 <= j < i ==> (#[trigger] normal@[j]).deep_view() == normal_message(
                    messages@[j].deep_view(),
                    ids.deep_view(),
                    key@,
                ),
        decreases messages.len() - i,
    {
        normal.push(normalize_message(&messages[i], &ids, &key));
        i += 1;
    }
    assert(normal.deep_view() =~= Seq::new(
        messages.deep_view().len(),
        |i: int| normal_message(messages.deep_view()[i], ids.deep_view(), key@),
    ));
    Ok(normal)
}

// ---- tools ----

/// The tools from `at` on behind those that are done, with their schemas in
/// normal form.
pub open spec fn normal_tools_from(tools: Seq<KimiFunctionToolModel>, at: int, done: Seq<KimiFunctionToolModel>) -> Result<
    Seq<KimiFunctionToolModel>,
    KimiRequestErrorModel,
>
    decreases tools.len() - at,
{
    if at < 0 || at >= tools.len() {
        Ok(done)
    } else {
        match normal_schema(tools[at].function.parameters) {
            Err(source) => Err(KimiRequestErrorModel::ToolSchema { index: at as usize, source }),
            Ok(parameters) => normal_tools_from(
                tools,
                at + 1,
                done.push(
                    KimiFunctionToolModel {
                        function: KimiFunctionDefinitionModel { parameters, ..tools[at].function },
                        ..tools[at]
                    },
                ),
            ),
        }
    }
}

fn normalize_tools(tools: &Vec<KimiFunctionTool>) -> (normal: Result<Vec<KimiFunctionTool>, KimiRequestError>)
    ensures
        outcome(normal) == normal_tools_from(tools.deep_view(), 0, Seq::empty()),
{
    let mut done: Vec<KimiFunctionTool> = no_items();
    let mut i: usize = 0;
    while i < tools.len()
        invariant
            i <= tools.len(),
            normal_tools_from(tools.deep_view(), 0, Seq::empty()) == normal_tools_from(
                tools.deep_view(),
                i as int,
                done.deep_view(),
            ),
        decreases tools.len() - i,
    {
        assert(tools.deep_view()[i as int] == tools@[i as int].deep_view());
        let tool = &tools[i];
        match normalize_kimi_schema(&tool.function.parameters) {
            Err(source) => {
                return Err(KimiRequestError::ToolSchema { index: i, source });
            },
            Ok(parameters) => {
                push_item(
                    &mut done,
                    KimiFunctionTool {
                        kind: tool.kind,
                        function: KimiFunctionDefinition {
                            name: tool.function.name.duplicate(),
                            description: tool.function.description.duplicate(),
                            parameters,
                            strict: tool.function.strict,
                        },
                    },
                );
            },
        }
        i += 1;
    }
    Ok(done)
}

// ---- wire form ----

/// The entries of an object.
pub type Entries = Seq<(Seq<char>, JsonModel)>;

/// Content as JSON.
pub open spec fn content_json(content: KimiContentModel) -> JsonModel {
    match content {
        KimiContentModel::Text(text) => JsonModel::Text(text),
        KimiContentModel::Parts(parts) => JsonModel::Array(parts),
    }
}

/// A call as JSON.
pub open spec fn call_json(call: KimiToolCallModel) -> JsonModel {
    JsonModel::Object(
        seq![
            ("id"@, JsonModel::Text(call.id)),
            ("type"@, JsonModel::Text("function"@)),
            (
                "function"@,
                JsonModel::Object(
                    seq![
                        ("name"@, JsonModel::Text(call.function.name)),
                        ("arguments"@, JsonModel::Text(call.function.arguments)),
                    ],
                ),
            ),
        ],
    )
}

/// The entries of an assistant message: what there is of text, calls and
/// reasoning.
pub open spec fn assistant_entries(message: KimiAssistantMessageModel, first: Entries) -> Entries {
    let entries = match message.content {
        Some(text) => first.push(("content"@, JsonModel::Text(text))),
        None => first,
    };
    let entries = if message.tool_calls.len() > 0 {
        entries.push(
            (
                "tool_calls"@,
                JsonModel::Array(Seq::new(message.tool_calls.len(), |i: int| call_json(message.tool_calls[i]))),
            ),
        )
    } else {
        entries
    };
    entries + message.reasoning
}

/// A message as JSON.
pub open spec fn message_json(message: KimiMessageModel) -> JsonModel {
    JsonModel::Object(
        match message {
            KimiMessageModel::System { content } => seq![
                ("role"@, JsonModel::Text("system"@)),
                ("content"@, content_json(content)),
            ],
            KimiMessageModel::User { content } => seq![
                ("role"@, JsonModel::Text("user"@)),
                ("content"@, content_json(content)),
            ],
            KimiMessageModel::Assistant(message) => assistant_entries(
                message,
                seq![("role"@, JsonModel::Text("assistant"@))],
            ),
            KimiMessageModel::Tool { tool_call_id, content } => seq![
                ("role"@, JsonModel::Text("tool"@)),
                ("tool_call_id"@, JsonModel::Text(tool_call_id)),
                ("content"@, content_json(content)),
            ],
        },
    )
}

/// A tool as JSON.
pub open spec fn tool_json(tool: KimiFunctionToolModel) -> JsonModel {
    JsonModel::Object(
        seq![
            ("type"@, JsonModel::Text("function"@)),
            (
                "function"@,
                JsonModel::Object(
                    seq![
                        ("name"@, JsonModel::Text(tool.function.name)),
                        ("description"@, JsonModel::Text(tool.function.description)),
                        ("parameters"@, tool.function.parameters),
                        ("strict"@, JsonModel::Bool(tool.function.strict)),
                    ],
                ),
            ),
        ],
    )
}

/// Messages as JSON.
pub open spec fn messages_json(messages: Seq<KimiMessageModel>) -> JsonModel {
    JsonModel::Array(Seq::new(messages.len(), |i: int| message_json(messages[i])))
}

/// Tools as JSON.
pub open spec fn tools_json(tools: Seq<KimiFunctionToolModel>) -> JsonModel {
    JsonModel::Array(Seq::new(tools.len(), |i: int| tool_json(tools[i])))
}

/// A request as JSON.
pub open spec fn request_json(request: KimiChatRequestModel) -> JsonModel {
    let entries = seq![
        ("model"@, JsonModel::Text(request.model)),
        ("messages"@, messages_json(request.messages)),
    ];
    let entries = if request.tools.len() > 0 {
        entries.push(("tools"@, tools_json(request.tools)))
    } else {
        entries
    };
    JsonModel::Object(
        entries + seq![
            ("stream"@, JsonModel::Bool(request.stream)),
            ("stream_options"@, request.stream_options),
            (
                "max_completion_tokens"@,
                JsonModel::Number(JsonNumberModel::Unsigned(request.max_completion_tokens)),
            ),
            ("prompt_cache_key"@, JsonModel::Text(request.prompt_cache_key)),
            ("thinking"@, request.thinking),
        ],
    )
}

impl KimiContent {
    /// The content as JSON.
    pub fn to_json(&self) -> (json: Json)
        ensures
            json.deep_view() == content_json(self.deep_view()),
    {
        broadcast use lemma_array_model;
        match self {
            KimiContent::Text(text) => Json::Text(text.duplicate()),
            KimiContent::Parts(parts) => Json::Array(parts.duplicate()),
        }
    }
}

impl KimiToolCall {
    /// The call as JSON.
    pub fn to_json(&self) -> (json: Json)
        ensures
            json.deep_view() == call_json(self.deep_view()),
    {
        broadcast use lemma_object_model;
        let mut function: Vec<(String, Json)> = no_items();
        add_text(&mut function, "name", &self.function.name);
        add_text(&mut function, "arguments", &self.function.arguments);
        let ghost inner = function.deep_view();
        let mut entries: Vec<(String, Json)> = no_items();
        add_text(&mut entries, "id", &self.id);
        add_text(&mut entries, "type", "function");
        add_field(&mut entries, "function", Json::Object(function));
        assert(inner =~= seq![
            ("name"@, JsonModel::Text(self.function.name@)),
            ("arguments"@, JsonModel::Text(self.function.arguments@)),
        ]);
        assert(entries.deep_view() =~= call_json(self.deep_view())->Object_0);
        Json::Object(entries)
    }
}

impl KimiAssistantMessage {
    /// The message as JSON behind the entries that are there.
    fn write(&self, entries: &mut Vec<(String, Json)>)
        ensures
            final(entries).deep_view() == assistant_entries(self.deep_view(), old(entries).deep_view()),
    {
        broadcast use lemma_array_model;
        if let Some(text) = &self.content {
            add_text(entries, "content", text);
        }
        if self.tool_calls.len() > 0 {
            let mut calls: Vec<Json> = no_items();
            let mut i: usize = 0;
            let ghost all = self.tool_calls.deep_view();
            while i < self.tool_calls.len()
                invariant
                    i <= self.tool_calls.len(),
                    all == self.tool_calls.deep_view(),
                    calls.deep_view() == Seq::new(i as nat, |j: int| call_json(all[j])),
                decreases self.tool_calls.len() - i,
            {
                push_item(&mut calls, self.tool_calls[i].to_json());
                i += 1;
                assert(calls.deep_view() =~= Seq::new(i as nat, |j: int| call_json(all[j])));
            }
            add_field(entries, "tool_calls", Json::Array(calls));
        }
        let ghost before = entries.deep_view();
        let ghost fields = self.reasoning.deep_view();
        let mut i: usize = 0;
        assert(before + fields.take(0) =~= before);
        while i < self.reasoning.len()
            invariant
                i <= fields.len(),
                fields == self.reasoning.deep_view(),
                entries.deep_view() == before + fields.take(i as int),
            decreases fields.len() - i,
        {
            let field = self.reasoning.entry(i);
            add_field(entries, &field.0, field.1.duplicate());
            i += 1;
            assert(before + fields.take(i as int) =~= (before + fields.take(i - 1)).push(fields[i - 1]));
        }
        assert(fields.take(fields.len() as int) =~= fields);
    }

    /// The message as JSON, without its role.
    pub fn to_json(&self) -> (json: Json)
        ensures
            json.deep_view() == JsonModel::Object(assistant_entries(self.deep_view(), Seq::empty())),
    {
        broadcast use lemma_object_model;
        let mut entries: Vec<(String, Json)> = no_items();
        self.write(&mut entries);
        Json::Object(entries)
    }
}

impl KimiMessage {
    /// The message as JSON.
    pub fn to_json(&self) -> (json: Json)
        ensures
            json.deep_view() == message_json(self.deep_view()),
    {
        broadcast use lemma_object_model;
        let mut entries: Vec<(String, Json)> = no_items();
        match self {
            KimiMessage::System { content } => {
                add_text(&mut entries, "role", "system");
                add_field(&mut entries, "content", content.to_json());
            },
            KimiMessage::User { content } => {
                add_text(&mut entries, "role", "user");
                add_field(&mut entries, "content", content.to_json());
            },
            KimiMessage::Assistant(message) => {
                add_text(&mut entries, "role", "assistant");
                assert(entries.deep_view() =~= seq![("role"@, JsonModel::Text("assistant"@))]);
                message.write(&mut entries);
            },
            KimiMessage::Tool { tool_call_id, content } => {
                add_text(&mut entries, "role", "tool");
                add_text(&mut entries, "tool_call_id", tool_call_id);
                add_field(&mut entries, "content", content.to_json());
            },
        }
        assert(entries.deep_view() =~= message_json(self.deep_view())->Object_0);
        Json::Object(entries)
    }
}

impl KimiFunctionTool {
    /// The tool as JSON.
    pub fn to_json(&self) -> (json: Json)
        ensures
            json.deep_view() == tool_json(self.deep_view()),
    {
        broadcast use lemma_object_model;
        let mut function: Vec<(String, Json)> = no_items();
        add_text(&mut function, "name", &self.function.name);
        add_text(&mut function, "description", &self.function.description);
        add_field(&mut function, "parameters", self.function.parameters.duplicate());
        add_field(&mut function, "strict", Json::Bool(self.function.strict));
        let ghost inner = function.deep_view();
        assert(inner =~= seq![
            ("name"@, JsonModel::Text(self.function.name@)),
            ("description"@, JsonModel::Text(self.function.description@)),
            ("parameters"@, self.function.parameters.deep_view()),
            ("strict"@, JsonModel::Bool(self.function.strict)),
        ]);
        let mut entries: Vec<(String, Json)> = no_items();
        add_text(&mut entries, "type", "function");
        add_field(&mut entries, "function", Json::Object(function));
        assert(entries.deep_view() =~= tool_json(self.deep_view())->Object_0);
        Json::Object(entries)
    }
}

fn write_messages(messages: &Vec<KimiMessage>) -> (json: Json)
    ensures
        json.deep_view() == messages_json(messages.deep_view()),
{
    broadcast use lemma_array_model;
    let mut items: Vec<Json> = no_items();
    let mut i: usize = 0;
    while i < messages.len()
        invariant
            i <= messages.len(),
            items.deep_view() == Seq::new(i as nat, |j: int| message_json(messages.deep_view()[j])),
        decreases messages.len() - i,
    {
        push_item(&mut items, messages[i].to_json());
        i += 1;
        assert(items.deep_view() =~= Seq::new(i as nat, |j: int| message_json(messages.deep_view()[j])));
    }
    Json::Array(items)
}

fn write_tools(tools: &Vec<KimiFunctionTool>) -> (json: Json)
    ensures
        json.deep_view() == tools_json(tools.deep_view()),
{
    broadcast use lemma_array_model;
    let mut items: Vec<Json> = no_items();
    let mut i: usize = 0;
    while i < tools.len()
        invariant
            i <= tools.len(),
            items.deep_view() == Seq::new(i as nat, |j: int| tool_json(tools.deep_view()[j])),
        decreases tools.len() - i,
    {
        push_item(&mut items, tools[i].to_json());
        i += 1;
        assert(items.deep_view() =~= Seq::new(i as nat, |j: int| tool_json(tools.deep_view()[j])));
    }
    Json::Array(items)
}

impl KimiChatRequest {
    /// The request as JSON.
    pub fn to_json(&self) -> (json: Json)
        ensures
            json.deep_view() == request_json(self.deep_view()),
    {
        broadcast use lemma_object_model;
        let mut entries: Vec<(String, Json)> = no_items();
        add_text(&mut entries, "model", &self.model);
        add_field(&mut entries, "messages", write_messages(&self.messages));
        if self.tools.len() > 0 {
            add_field(&mut entries, "tools", write_tools(&self.tools));
        }
        add_field(&mut entries, "stream", Json::Bool(self.stream));
        add_field(&mut entries, "stream_options", self.stream_options.duplicate());
        add_field(
            &mut entries,
            "max_completion_tokens",
            Json::Number(JsonNumber::Unsigned(self.max_completion_tokens)),
        );
        add_text(&mut entries, "prompt_cache_key", &self.prompt_cache_key);
        add_field(&mut entries, "thinking", self.thinking.duplicate());
        assert(self.tools.deep_view().len() == self.tools.len());
        assert(entries.deep_view() =~= request_json(self.deep_view())->Object_0);
        Json::Object(entries)
    }
}

// ---- the request ----

/// How many tokens the bytes of an input may be: one for four, rounded up.
pub open spec fn tokens_for_bytes(bytes: nat) -> nat {
    (bytes + 3) / 4
}

/// How many tokens the input may be, from its wire form.
pub open spec fn estimated_tokens(messages: Seq<KimiMessageModel>, tools: Seq<KimiFunctionToolModel>) -> nat {
    tokens_for_bytes(
        byte_length(json_print(JsonModel::Array(seq![messages_json(messages), tools_json(tools)]))),
    )
}

/// How many tokens the input may be, from its wire form.
pub fn estimate_kimi_input_tokens(messages: &Vec<KimiMessage>, tools: &Vec<KimiFunctionTool>) -> (tokens: u64)
    ensures
        tokens == estimated_tokens(messages.deep_view(), tools.deep_view()),
{
    broadcast use lemma_array_model;
    let mut parts: Vec<Json> = no_items();
    push_item(&mut parts, write_messages(messages));
    push_item(&mut parts, write_tools(tools));
    assert(parts.deep_view() =~= seq![messages_json(messages.deep_view()), tools_json(tools.deep_view())]);
    let text = print_json(&Json::Array(parts));
    let bytes = bytes_in(&text) as u64;
    if bytes % 4 == 0 {
        bytes / 4
    } else {
        bytes / 4 + 1
    }
}

/// How a request makes the model think, as JSON.
pub open spec fn thinking_json(effort: Option<KimiThinkingEffort>) -> JsonModel {
    let entries = seq![("keep"@, JsonModel::Text("all"@)), ("type"@, JsonModel::Text("enabled"@))];
    JsonModel::Object(
        match effort {
            Some(effort) => put(entries, "effort"@, JsonModel::Text(effort.label())),
            None => entries,
        },
    )
}

fn write_thinking(effort: Option<KimiThinkingEffort>) -> (json: Json)
    ensures
        json.deep_view() == thinking_json(effort),
{
    broadcast use lemma_object_model;
    let mut entries: Vec<(String, Json)> = no_items();
    add_text(&mut entries, "keep", "all");
    add_text(&mut entries, "type", "enabled");
    assert(entries.deep_view() =~= seq![
        ("keep"@, JsonModel::Text("all"@)),
        ("type"@, JsonModel::Text("enabled"@)),
    ]);
    if let Some(effort) = effort {
        crate::fields::put_field(&mut entries, "effort".to_owned(), Json::Text(effort.as_str().to_owned()));
    }
    Json::Object(entries)
}

/// The stream options of every request, as JSON.
pub open spec fn usage_option() -> JsonModel {
    JsonModel::Object(seq![("include_usage"@, JsonModel::Bool(true))])
}

fn write_usage_option() -> (json: Json)
    ensures
        json.deep_view() == usage_option(),
{
    broadcast use lemma_object_model;
    let mut entries: Vec<(String, Json)> = no_items();
    add_field(&mut entries, "include_usage", Json::Bool(true));
    assert(entries.deep_view() =~= seq![("include_usage"@, JsonModel::Bool(true))]);
    Json::Object(entries)
}

/// Whether a model can be reached in this way.
pub open spec fn valid_profile(config: KimiInferenceConfigModel, context_window: u64) -> bool {
    config.wire_api == WireApi::ChatCompletions && config.dialect == InferenceDialect::Kimi && config.wire_model.len()
        > 0 && byte_length(config.wire_model) <= MAX_AFFINITY_LEN && marker_fits(
        config.wire_model,
        KimiReasoningKey::ReasoningContent,
    ) && marker_fits(config.wire_model, KimiReasoningKey::Reasoning) && marker_fits(
        config.wire_model,
        KimiReasoningKey::ReasoningDetails,
    ) && config.max_output_tokens != 0 && context_window != 0
}

/// How many tokens the output may have: what the model gives at most, and what
/// the input leaves, but one at least.
pub open spec fn output_limit(context_window: u64, input_tokens: nat, max_output_tokens: u32) -> u64 {
    let remaining = if input_tokens < context_window {
        (context_window - input_tokens) as u64
    } else {
        1u64
    };
    if max_output_tokens < remaining {
        max_output_tokens as u64
    } else {
        remaining
    }
}

/// A request, or the first thing that stands against it: the profile, the cache
/// key, the effort, a collision of names, a schema.
pub open spec fn kimi_request(
    config: KimiInferenceConfigModel,
    settings: KimiRequestSettingsModel,
    messages: Seq<KimiMessageModel>,
    tools: Seq<KimiFunctionToolModel>,
) -> Result<KimiChatRequestModel, KimiRequestErrorModel> {
    if !valid_profile(config, settings.context_window) {
        Err(KimiRequestErrorModel::InvalidProfile)
    } else if settings.prompt_cache_key.len() == 0 || byte_length(settings.prompt_cache_key) > MAX_AFFINITY_LEN {
        Err(KimiRequestErrorModel::InvalidPromptCacheKey)
    } else if config.thinking == KimiThinkingPolicy::RequiredWithEffort && settings.thinking_effort is None {
        Err(KimiRequestErrorModel::MissingThinkingEffort)
    } else if config.thinking == KimiThinkingPolicy::Required && settings.thinking_effort is Some {
        Err(KimiRequestErrorModel::UnsupportedThinkingEffort)
    } else {
        match normal_messages(messages, settings.reasoning_key) {
            Err(error) => Err(error),
            Ok(messages) => match normal_tools_from(tools, 0, Seq::empty()) {
                Err(error) => Err(error),
                Ok(tools) => {
                    let input_tokens = match settings.input_estimate {
                        KimiInputEstimate::FinalSerialized => estimated_tokens(messages, tools),
                        KimiInputEstimate::Fixed(tokens) => tokens as nat,
                    };
                    Ok(
                        KimiChatRequestModel {
                            model: config.wire_model,
                            messages,
                            tools,
                            stream: true,
                            stream_options: usage_option(),
                            max_completion_tokens: output_limit(
                                settings.context_window,
                                input_tokens,
                                config.max_output_tokens,
                            ),
                            prompt_cache_key: settings.prompt_cache_key,
                            thinking: thinking_json(settings.thinking_effort),
                        },
                    )
                },
            },
        }
    }
}

fn marker_is_short(model: &str, key: KimiReasoningKey) -> (short: bool)
    ensures
        short == marker_fits(model@, key),
{
    match KimiReasoning::for_model(model, key, String::new()) {
        Ok(_) => true,
        Err(_) => false,
    }
}

/// Builds a request.
pub fn build_kimi_chat_request(
    config: &KimiInferenceConfig,
    settings: KimiRequestSettings,
    messages: Vec<KimiMessage>,
    tools: Vec<KimiFunctionTool>,
) -> (request: Result<KimiChatRequest, KimiRequestError>)
    ensures
        outcome(request) == kimi_request(
            config.deep_view(),
            settings.deep_view(),
            messages.deep_view(),
            tools.deep_view(),
        ),
{
    if config.wire_api != WireApi::ChatCompletions || config.dialect != InferenceDialect::Kimi
        || config.wire_model.as_str().is_empty() || bytes_in(&config.wire_model) > MAX_AFFINITY_LEN
        || !marker_is_short(&config.wire_model, KimiReasoningKey::ReasoningContent) || !marker_is_short(
        &config.wire_model,
        KimiReasoningKey::Reasoning,
    ) || !marker_is_short(&config.wire_model, KimiReasoningKey::ReasoningDetails) || config.max_output_tokens == 0
        || settings.context_window == 0 {
        return Err(KimiRequestError::InvalidProfile);
    }
    if settings.prompt_cache_key.as_str().is_empty() || bytes_in(&settings.prompt_cache_key) > MAX_AFFINITY_LEN {
        return Err(KimiRequestError::InvalidPromptCacheKey);
    }
    match config.thinking {
        KimiThinkingPolicy::RequiredWithEffort => {
            if settings.thinking_effort.is_none() {
                return Err(KimiRequestError::MissingThinkingEffort);
            }
        },
        KimiThinkingPolicy::Required => {
            if settings.thinking_effort.is_some() {
                return Err(KimiRequestError::UnsupportedThinkingEffort);
            }
        },
    }
    let messages = match normalize_messages(&messages, settings.reasoning_key) {
        Err(error) => {
            return Err(error);
        },
        Ok(messages) => messages,
    };
    let tools = match normalize_tools(&tools) {
        Err(error) => {
            return Err(error);
        },
        Ok(tools) => tools,
    };
    let input_tokens = match settings.input_estimate {
        KimiInputEstimate::FinalSerialized => estimate_kimi_input_tokens(&messages, &tools),
        KimiInputEstimate::Fixed(tokens) => tokens,
    };
    let remaining = if input_tokens < settings.context_window {
        settings.context_window - input_tokens
    } else {
        1
    };
    let limit = config.max_output_tokens as u64;
    Ok(
        KimiChatRequest {
            model: config.wire_model.duplicate(),
            messages,
            tools,
            stream: true,
            stream_options: write_usage_option(),
            max_completion_tokens: if limit < remaining {
                limit
            } else {
                remaining
            },
            prompt_cache_key: settings.prompt_cache_key,
            thinking: write_thinking(settings.thinking_effort),
        },
    )
}

} // verus!
