//! What a Kimi stream carries and what it becomes.
use crate::chat_completions::chunk::{given_delta, read_given_delta, DeltaForm};
use crate::chat_completions::types::{ChunkDelta, ChunkDeltaModel};
use crate::json::{lemma_array_model, member, Json, JsonModel};
use crate::kimi_chat::request::{
    KimiReasoning, KimiReasoningModel, KimiRequestError, KimiRequestErrorModel, KimiToolCall, KimiToolCallModel,
};
use crate::model::{no_items, outcome, push_item, Duplicate};
use crate::read::{
    fill, filled, given_text, given_whole, length_error, missing, missing_field, not_object, object_error,
    optional_text, optional_whole, read_given_text, read_given_whole, read_optional_text, read_optional_whole,
    seat, take_seat, type_error, wrong_length, wrong_type, Source,
};
use crate::text::{concat, concat3, decimal, decimal_text};
use vstd::prelude::*;
use vstd::string::*;

verus! {

/// How a response ended.
#[derive(Debug, Clone, Copy, PartialEq, Eq, Structural)]
pub enum KimiTerminal {
    /// It is complete.
    Completed,
    /// Its tools can be called.
    ToolsReady,
    /// It was cut off.
    OutputExhausted,
    /// It was filtered.
    Refusal,
}

impl DeepView for KimiTerminal {
    type V = KimiTerminal;

    open spec fn deep_view(&self) -> KimiTerminal {
        *self
    }
}

impl Duplicate for KimiTerminal {
    fn duplicate(&self) -> (copy: Self) {
        *self
    }
}

/// What is for display.
#[derive(Debug, Clone, PartialEq, Eq)]
pub enum KimiStreamEvent {
    /// Text.
    Content {
        response_id: String,
        delta: String,
    },
    /// Reasoning.
    Reasoning {
        response_id: String,
        delta: String,
    },
    /// Arguments of a tool call.
    ToolCall {
        response_id: String,
        index: usize,
        id: String,
        name: String,
        arguments_delta: String,
    },
}

/// The model of [`KimiStreamEvent`].
#[verifier::ext_equal]
pub enum KimiStreamEventModel {
    Content {
        response_id: Seq<char>,
        delta: Seq<char>,
    },
    Reasoning {
        response_id: Seq<char>,
        delta: Seq<char>,
    },
    ToolCall {
        response_id: Seq<char>,
        index: usize,
        id: Seq<char>,
        name: Seq<char>,
        arguments_delta: Seq<char>,
    },
}

impl DeepView for KimiStreamEvent {
    type V = KimiStreamEventModel;

    open spec fn deep_view(&self) -> KimiStreamEventModel {
        match self {
            KimiStreamEvent::Content { response_id, delta } => KimiStreamEventModel::Content {
                response_id: response_id.deep_view(),
                delta: delta.deep_view(),
            },
            KimiStreamEvent::Reasoning { response_id, delta } => KimiStreamEventModel::Reasoning {
                response_id: response_id.deep_view(),
                delta: delta.deep_view(),
            },
            KimiStreamEvent::ToolCall {
                response_id,
                index,
                id,
                name,
                arguments_delta,
            } => KimiStreamEventModel::ToolCall {
                response_id: response_id.deep_view(),
                index: index.deep_view(),
                id: id.deep_view(),
                name: name.deep_view(),
                arguments_delta: arguments_delta.deep_view(),
            },
        }
    }
}

impl Duplicate for KimiStreamEvent {
    fn duplicate(&self) -> (copy: Self) {
        match self {
            KimiStreamEvent::Content { response_id, delta } => KimiStreamEvent::Content {
                response_id: response_id.duplicate(),
                delta: delta.duplicate(),
            },
            KimiStreamEvent::Reasoning { response_id, delta } => KimiStreamEvent::Reasoning {
                response_id: response_id.duplicate(),
                delta: delta.duplicate(),
            },
            KimiStreamEvent::ToolCall { response_id, index, id, name, arguments_delta } => KimiStreamEvent::ToolCall {
                response_id: response_id.duplicate(),
                index: index.duplicate(),
                id: id.duplicate(),
                name: name.duplicate(),
                arguments_delta: arguments_delta.duplicate(),
            },
        }
    }
}

/// What a response used.
#[derive(Debug, Clone, Copy, PartialEq, Eq, Structural)]
pub struct KimiUsage {
    pub prompt_tokens: u64,
    pub completion_tokens: u64,
    pub total_tokens: u64,
    pub cached_prompt_tokens: u64,
    pub reasoning_tokens: u64,
}

impl DeepView for KimiUsage {
    type V = KimiUsage;

    open spec fn deep_view(&self) -> KimiUsage {
        *self
    }
}

impl Duplicate for KimiUsage {
    fn duplicate(&self) -> (copy: Self) {
        *self
    }
}

/// Output that may be committed.
#[derive(Debug, Clone, PartialEq, Eq)]
pub struct KimiPendingResponse {
    pub content: String,
    pub reasoning: KimiReasoning,
    pub tool_calls: Vec<KimiToolCall>,
}

/// The model of [`KimiPendingResponse`].
#[verifier::ext_equal]
pub struct KimiPendingResponseModel {
    pub content: Seq<char>,
    pub reasoning: KimiReasoningModel,
    pub tool_calls: Seq<KimiToolCallModel>,
}

impl DeepView for KimiPendingResponse {
    type V = KimiPendingResponseModel;

    open spec fn deep_view(&self) -> KimiPendingResponseModel {
        KimiPendingResponseModel {
            content: self.content.deep_view(),
            reasoning: self.reasoning.deep_view(),
            tool_calls: self.tool_calls.deep_view(),
        }
    }
}

impl Duplicate for KimiPendingResponse {
    fn duplicate(&self) -> (copy: Self) {
        KimiPendingResponse {
            content: self.content.duplicate(),
            reasoning: self.reasoning.duplicate(),
            tool_calls: self.tool_calls.duplicate(),
        }
    }
}

/// A whole response. The output is there only where the end permits to commit
/// it.
#[derive(Debug, Clone, PartialEq, Eq)]
pub struct KimiDecodedResponse {
    pub response_id: String,
    pub terminal: KimiTerminal,
    pub pending: Option<KimiPendingResponse>,
    pub usage: Option<KimiUsage>,
    pub trace_id: Option<String>,
}

/// The model of [`KimiDecodedResponse`].
#[verifier::ext_equal]
pub struct KimiDecodedResponseModel {
    pub response_id: Seq<char>,
    pub terminal: KimiTerminal,
    pub pending: Option<KimiPendingResponseModel>,
    pub usage: Option<KimiUsage>,
    pub trace_id: Option<Seq<char>>,
}

impl DeepView for KimiDecodedResponse {
    type V = KimiDecodedResponseModel;

    open spec fn deep_view(&self) -> KimiDecodedResponseModel {
        KimiDecodedResponseModel {
            response_id: self.response_id.deep_view(),
            terminal: self.terminal.deep_view(),
            pending: self.pending.deep_view(),
            usage: self.usage.deep_view(),
            trace_id: self.trace_id.deep_view(),
        }
    }
}

impl Duplicate for KimiDecodedResponse {
    fn duplicate(&self) -> (copy: Self) {
        KimiDecodedResponse {
            response_id: self.response_id.duplicate(),
            terminal: self.terminal.duplicate(),
            pending: self.pending.duplicate(),
            usage: self.usage.duplicate(),
            trace_id: self.trace_id.duplicate(),
        }
    }
}

/// One choice of a chunk.
#[derive(Debug, Clone, PartialEq, Eq)]
pub struct KimiChoice {
    pub index: usize,
    pub delta: ChunkDelta,
    pub finish_reason: Option<String>,
    pub usage: Option<KimiUsage>,
}

/// The model of [`KimiChoice`].
#[verifier::ext_equal]
pub struct KimiChoiceModel {
    pub index: usize,
    pub delta: ChunkDeltaModel,
    pub finish_reason: Option<Seq<char>>,
    pub usage: Option<KimiUsage>,
}

impl DeepView for KimiChoice {
    type V = KimiChoiceModel;

    open spec fn deep_view(&self) -> KimiChoiceModel {
        KimiChoiceModel {
            index: self.index.deep_view(),
            delta: self.delta.deep_view(),
            finish_reason: self.finish_reason.deep_view(),
            usage: self.usage.deep_view(),
        }
    }
}

impl Duplicate for KimiChoice {
    fn duplicate(&self) -> (copy: Self) {
        KimiChoice {
            index: self.index.duplicate(),
            delta: self.delta.duplicate(),
            finish_reason: self.finish_reason.duplicate(),
            usage: self.usage.duplicate(),
        }
    }
}

/// One chunk of a stream.
#[derive(Debug, Clone, PartialEq, Eq)]
pub struct KimiChunk {
    pub id: String,
    pub choices: Vec<KimiChoice>,
    pub usage: Option<KimiUsage>,
}

/// The model of [`KimiChunk`].
#[verifier::ext_equal]
pub struct KimiChunkModel {
    pub id: Seq<char>,
    pub choices: Seq<KimiChoiceModel>,
    pub usage: Option<KimiUsage>,
}

impl DeepView for KimiChunk {
    type V = KimiChunkModel;

    open spec fn deep_view(&self) -> KimiChunkModel {
        KimiChunkModel {
            id: self.id.deep_view(),
            choices: self.choices.deep_view(),
            usage: self.usage.deep_view(),
        }
    }
}

impl Duplicate for KimiChunk {
    fn duplicate(&self) -> (copy: Self) {
        KimiChunk {
            id: self.id.duplicate(),
            choices: self.choices.duplicate(),
            usage: self.usage.duplicate(),
        }
    }
}

/// Why a stream cannot be decoded.
#[derive(Debug, Clone, PartialEq, Eq)]
pub enum KimiStreamError {
    /// Nothing came.
    EmptyStream,
    /// A line is no UTF-8.
    InvalidUtf8,
    /// A line is no data line.
    MalformedFraming(String),
    /// Data is no chunk.
    MalformedChunk(String),
    /// A chunk does not follow from those before it.
    InvalidTransition(&'static str),
    /// The stream ended too early.
    PrematureEof(&'static str),
    /// A finish reason without a meaning.
    UnknownFinishReason(String),
    /// A choice came behind a finish reason.
    DuplicateTerminal,
    /// Reasoning came in two fields.
    ConflictingReasoningKeys,
    /// A tool call got two identities.
    ConflictingToolField(&'static str),
    /// A tool call without its name or its number.
    IncompleteTool {
        index: usize,
        field: &'static str,
    },
    /// Arguments of a tool call that are no JSON object.
    InvalidToolJson {
        index: usize,
        arguments: String,
    },
    /// The reasoning cannot be kept.
    Request(KimiRequestError),
}

/// The model of [`KimiStreamError`].
#[verifier::ext_equal]
pub enum KimiStreamErrorModel {
    EmptyStream,
    InvalidUtf8,
    MalformedFraming(Seq<char>),
    MalformedChunk(Seq<char>),
    InvalidTransition(Seq<char>),
    PrematureEof(Seq<char>),
    UnknownFinishReason(Seq<char>),
    DuplicateTerminal,
    ConflictingReasoningKeys,
    ConflictingToolField(Seq<char>),
    IncompleteTool {
        index: usize,
        field: Seq<char>,
    },
    InvalidToolJson {
        index: usize,
        arguments: Seq<char>,
    },
    Request(KimiRequestErrorModel),
}

impl DeepView for KimiStreamError {
    type V = KimiStreamErrorModel;

    open spec fn deep_view(&self) -> KimiStreamErrorModel {
        match self {
            KimiStreamError::EmptyStream => KimiStreamErrorModel::EmptyStream,
            KimiStreamError::InvalidUtf8 => KimiStreamErrorModel::InvalidUtf8,
            KimiStreamError::MalformedFraming(inner) => KimiStreamErrorModel::MalformedFraming(inner.deep_view()),
            KimiStreamError::MalformedChunk(inner) => KimiStreamErrorModel::MalformedChunk(inner.deep_view()),
            KimiStreamError::InvalidTransition(inner) => KimiStreamErrorModel::InvalidTransition(inner.deep_view()),
            KimiStreamError::PrematureEof(inner) => KimiStreamErrorModel::PrematureEof(inner.deep_view()),
            KimiStreamError::UnknownFinishReason(inner) => KimiStreamErrorModel::UnknownFinishReason(inner.deep_view()),
            KimiStreamError::DuplicateTerminal => KimiStreamErrorModel::DuplicateTerminal,
            KimiStreamError::ConflictingReasoningKeys => KimiStreamErrorModel::ConflictingReasoningKeys,
            KimiStreamError::ConflictingToolField(inner) => {
                KimiStreamErrorModel::ConflictingToolField(inner.deep_view())
            },
            KimiStreamError::IncompleteTool { index, field } => KimiStreamErrorModel::IncompleteTool {
                index: index.deep_view(),
                field: field.deep_view(),
            },
            KimiStreamError::InvalidToolJson { index, arguments } => KimiStreamErrorModel::InvalidToolJson {
                index: index.deep_view(),
                arguments: arguments.deep_view(),
            },
            KimiStreamError::Request(inner) => KimiStreamErrorModel::Request(inner.deep_view()),
        }
    }
}

impl Duplicate for KimiStreamError {
    fn duplicate(&self) -> (copy: Self) {
        match self {
            KimiStreamError::EmptyStream => KimiStreamError::EmptyStream,
            KimiStreamError::InvalidUtf8 => KimiStreamError::InvalidUtf8,
            KimiStreamError::MalformedFraming(inner) => KimiStreamError::MalformedFraming(inner.duplicate()),
            KimiStreamError::MalformedChunk(inner) => KimiStreamError::MalformedChunk(inner.duplicate()),
            KimiStreamError::InvalidTransition(inner) => KimiStreamError::InvalidTransition(inner.duplicate()),
            KimiStreamError::PrematureEof(inner) => KimiStreamError::PrematureEof(inner.duplicate()),
            KimiStreamError::UnknownFinishReason(inner) => KimiStreamError::UnknownFinishReason(inner.duplicate()),
            KimiStreamError::DuplicateTerminal => KimiStreamError::DuplicateTerminal,
            KimiStreamError::ConflictingReasoningKeys => KimiStreamError::ConflictingReasoningKeys,
            KimiStreamError::ConflictingToolField(inner) => KimiStreamError::ConflictingToolField(inner.duplicate()),
            KimiStreamError::IncompleteTool { index, field } => KimiStreamError::IncompleteTool {
                index: index.duplicate(),
                field: field.duplicate(),
            },
            KimiStreamError::InvalidToolJson { index, arguments } => KimiStreamError::InvalidToolJson {
                index: index.duplicate(),
                arguments: arguments.duplicate(),
            },
            KimiStreamError::Request(inner) => KimiStreamError::Request(inner.duplicate()),
        }
    }
}

impl KimiStreamErrorModel {
    /// The message of the error.
    pub open spec fn text(self) -> Seq<char> {
        match self {
            KimiStreamErrorModel::EmptyStream => "Kimi Chat stream was empty"@,
            KimiStreamErrorModel::InvalidUtf8 => "Kimi Chat stream was not UTF-8"@,
            KimiStreamErrorModel::MalformedFraming(line) => "malformed Kimi Chat SSE line `"@ + line + "`"@,
            KimiStreamErrorModel::MalformedChunk(message) => "malformed Kimi Chat chunk: "@ + message,
            KimiStreamErrorModel::InvalidTransition(message) => "invalid Kimi Chat transition: "@ + message,
            KimiStreamErrorModel::PrematureEof(expected) => "Kimi Chat stream ended before "@ + expected,
            KimiStreamErrorModel::UnknownFinishReason(reason) => "unknown Kimi Chat finish reason `"@ + reason + "`"@,
            KimiStreamErrorModel::DuplicateTerminal => "Kimi Chat stream contained a duplicate terminal"@,
            KimiStreamErrorModel::ConflictingReasoningKeys =>
                "Kimi Chat reasoning keys changed during one response"@,
            KimiStreamErrorModel::ConflictingToolField(field) => "Kimi Chat tool contained conflicting "@ + field
                + " fragments"@,
            KimiStreamErrorModel::IncompleteTool { index, field } => "Kimi Chat tool "@ + decimal(index as nat)
                + " was incomplete: "@ + field,
            KimiStreamErrorModel::InvalidToolJson { index, arguments } => "Kimi Chat tool "@ + decimal(index as nat)
                + " contained invalid JSON object: "@ + arguments,
            KimiStreamErrorModel::Request(error) => error.text(),
        }
    }
}

impl KimiStreamError {
    /// The message of the error.
    pub fn message(&self) -> (message: String)
        ensures
            message@ == self.deep_view().text(),
    {
        match self {
            KimiStreamError::EmptyStream => "Kimi Chat stream was empty".to_owned(),
            KimiStreamError::InvalidUtf8 => "Kimi Chat stream was not UTF-8".to_owned(),
            KimiStreamError::MalformedFraming(line) => concat3("malformed Kimi Chat SSE line `", line, "`"),
            KimiStreamError::MalformedChunk(message) => concat("malformed Kimi Chat chunk: ", message),
            KimiStreamError::InvalidTransition(message) => concat("invalid Kimi Chat transition: ", message),
            KimiStreamError::PrematureEof(expected) => concat("Kimi Chat stream ended before ", expected),
            KimiStreamError::UnknownFinishReason(reason) => concat3(
                "unknown Kimi Chat finish reason `",
                reason,
                "`",
            ),
            KimiStreamError::DuplicateTerminal => "Kimi Chat stream contained a duplicate terminal".to_owned(),
            KimiStreamError::ConflictingReasoningKeys =>
                "Kimi Chat reasoning keys changed during one response".to_owned(),
            KimiStreamError::ConflictingToolField(field) => concat3(
                "Kimi Chat tool contained conflicting ",
                field,
                " fragments",
            ),
            KimiStreamError::IncompleteTool { index, field } => {
                let mut text = concat3("Kimi Chat tool ", &decimal_text(*index as u64), " was incomplete: ");
                text.append(field);
                text
            },
            KimiStreamError::InvalidToolJson { index, arguments } => {
                let mut text = concat3(
                    "Kimi Chat tool ",
                    &decimal_text(*index as u64),
                    " contained invalid JSON object: ",
                );
                text.append(arguments);
                text
            },
            KimiStreamError::Request(error) => error.message(),
        }
    }
}

// ---- usage ----

/// A number in the details of usage, where there are any.
pub open spec fn nested_whole(json: JsonModel, name: Seq<char>, structure: Seq<char>, field: Seq<char>) -> Result<
    Option<u64>,
    Seq<char>,
> {
    match member(json, name) {
        None => Ok(None),
        Some(JsonModel::Null) => Ok(None),
        Some(JsonModel::Array(items)) => match optional_whole(seat(items, 0, field), field) {
            Err(message) => Err(message),
            Ok(value) => filled(value, items.len(), 1, Source::Text),
        },
        Some(details) => match not_object(details, structure) {
            Some(message) => Err(message),
            None => optional_whole(details, field),
        },
    }
}

fn read_nested_whole(json: &Json, name: &str, structure: &str, field: &str) -> (value: Result<Option<u64>, String>)
    ensures
        outcome(value) == nested_whole(json.deep_view(), name@, structure@, field@),
{
    broadcast use lemma_array_model;
    match json.get(name) {
        None => Ok(None),
        Some(Json::Null) => Ok(None),
        Some(Json::Array(items)) => match read_optional_whole(&take_seat(items, 0, field), field) {
            Err(message) => Err(message),
            Ok(value) => fill(value, items.len(), 1, Source::Text),
        },
        Some(details) => match object_error(details, structure) {
            Some(message) => Err(message),
            None => read_optional_whole(details, field),
        },
    }
}

/// The first number that was given, or none.
pub open spec fn first_given(plain: Option<u64>, nested: Option<u64>) -> u64 {
    match (plain, nested) {
        (Some(value), _) => value,
        (None, Some(value)) => value,
        (None, None) => 0,
    }
}

fn choose_given(plain: Option<u64>, nested: Option<u64>) -> (value: u64)
    ensures
        value == first_given(plain, nested),
{
    match (plain, nested) {
        (Some(value), _) => value,
        (None, Some(value)) => value,
        (None, None) => 0,
    }
}

/// The usage that an array holds by position.
pub open spec fn seated_usage(items: Seq<JsonModel>) -> Result<KimiUsage, Seq<char>> {
    match given_whole(seat(items, 0, "prompt_tokens"@), "prompt_tokens"@, u64::MAX, "u64"@) {
        Err(message) => Err(message),
        Ok(None) => Err(wrong_length(0, "struct RawUsage with 7 elements"@)),
        Ok(Some(prompt_tokens)) => match given_whole(
            seat(items, 1, "completion_tokens"@),
            "completion_tokens"@,
            u64::MAX,
            "u64"@,
        ) {
            Err(message) => Err(message),
            Ok(None) => Err(wrong_length(1, "struct RawUsage with 7 elements"@)),
            Ok(Some(completion_tokens)) => match given_whole(
                seat(items, 2, "total_tokens"@),
                "total_tokens"@,
                u64::MAX,
                "u64"@,
            ) {
                Err(message) => Err(message),
                Ok(None) => Err(wrong_length(2, "struct RawUsage with 7 elements"@)),
                Ok(Some(total_tokens)) => match optional_whole(seat(items, 3, "cached_tokens"@), "cached_tokens"@) {
                    Err(message) => Err(message),
                    Ok(cached) => match optional_whole(seat(items, 4, "reasoning_tokens"@), "reasoning_tokens"@) {
                        Err(message) => Err(message),
                        Ok(reasoning) => match nested_whole(
                            seat(items, 5, "prompt_tokens_details"@),
                            "prompt_tokens_details"@,
                            "struct PromptDetails"@,
                            "cached_tokens"@,
                        ) {
                            Err(message) => Err(message),
                            Ok(nested_cached) => match nested_whole(
                                seat(items, 6, "completion_tokens_details"@),
                                "completion_tokens_details"@,
                                "struct CompletionDetails"@,
                                "reasoning_tokens"@,
                            ) {
                                Err(message) => Err(message),
                                Ok(nested_reasoning) => filled(
                                    KimiUsage {
                                        prompt_tokens,
                                        completion_tokens,
                                        total_tokens,
                                        cached_prompt_tokens: first_given(cached, nested_cached),
                                        reasoning_tokens: first_given(reasoning, nested_reasoning),
                                    },
                                    items.len(),
                                    7,
                                    Source::Text,
                                ),
                            },
                        },
                    },
                },
            },
        },
    }
}

fn read_seated_usage(items: &Vec<Json>) -> (read: Result<KimiUsage, String>)
    ensures
        outcome(read) == seated_usage(items.deep_view()),
{
    let json = take_seat(items, 0, "prompt_tokens");
    let prompt_tokens = match read_given_whole(&json, "prompt_tokens", u64::MAX, "u64") {
        Err(message) => {
            return Err(message);
        },
        Ok(None) => {
            return Err(length_error(0, "struct RawUsage with 7 elements"));
        },
        Ok(Some(value)) => value,
    };
    let json = take_seat(items, 1, "completion_tokens");
    let completion_tokens = match read_given_whole(&json, "completion_tokens", u64::MAX, "u64") {
        Err(message) => {
            return Err(message);
        },
        Ok(None) => {
            return Err(length_error(1, "struct RawUsage with 7 elements"));
        },
        Ok(Some(value)) => value,
    };
    let json = take_seat(items, 2, "total_tokens");
    let total_tokens = match read_given_whole(&json, "total_tokens", u64::MAX, "u64") {
        Err(message) => {
            return Err(message);
        },
        Ok(None) => {
            return Err(length_error(2, "struct RawUsage with 7 elements"));
        },
        Ok(Some(value)) => value,
    };
    let json = take_seat(items, 3, "cached_tokens");
    let cached = match read_optional_whole(&json, "cached_tokens") {
        Err(message) => {
            return Err(message);
        },
        Ok(value) => value,
    };
    let json = take_seat(items, 4, "reasoning_tokens");
    let reasoning = match read_optional_whole(&json, "reasoning_tokens") {
        Err(message) => {
            return Err(message);
        },
        Ok(value) => value,
    };
    let json = take_seat(items, 5, "prompt_tokens_details");
    let nested_cached = match read_nested_whole(
        &json,
        "prompt_tokens_details",
        "struct PromptDetails",
        "cached_tokens",
    ) {
        Err(message) => {
            return Err(message);
        },
        Ok(value) => value,
    };
    let json = take_seat(items, 6, "completion_tokens_details");
    let nested_reasoning = match read_nested_whole(
        &json,
        "completion_tokens_details",
        "struct CompletionDetails",
        "reasoning_tokens",
    ) {
        Err(message) => {
            return Err(message);
        },
        Ok(value) => value,
    };
    fill(
        KimiUsage {
            prompt_tokens,
            completion_tokens,
            total_tokens,
            cached_prompt_tokens: choose_given(cached, nested_cached),
            reasoning_tokens: choose_given(reasoning, nested_reasoning),
        },
        items.len(),
        7,
        Source::Text,
    )
}

/// The usage that a value reports. Details that stand beside the counts come
/// before those that are nested.
pub open spec fn usage_of(json: JsonModel) -> Result<KimiUsage, Seq<char>> {
    match json {
        JsonModel::Array(items) => seated_usage(items),
        _ => match not_object(json, "struct RawUsage"@) {
            Some(message) => Err(message),
            None => match optional_whole(json, "cached_tokens"@) {
                Err(message) => Err(message),
                Ok(cached) => match given_whole(json, "completion_tokens"@, u64::MAX, "u64"@) {
                    Err(message) => Err(message),
                    Ok(completion) => match nested_whole(
                        json,
                        "completion_tokens_details"@,
                        "struct CompletionDetails"@,
                        "reasoning_tokens"@,
                    ) {
                        Err(message) => Err(message),
                        Ok(nested_reasoning) => match given_whole(json, "prompt_tokens"@, u64::MAX, "u64"@) {
                            Err(message) => Err(message),
                            Ok(prompt) => match nested_whole(
                                json,
                                "prompt_tokens_details"@,
                                "struct PromptDetails"@,
                                "cached_tokens"@,
                            ) {
                                Err(message) => Err(message),
                                Ok(nested_cached) => match optional_whole(json, "reasoning_tokens"@) {
                                    Err(message) => Err(message),
                                    Ok(reasoning) => match given_whole(json, "total_tokens"@, u64::MAX, "u64"@) {
                                        Err(message) => Err(message),
                                        Ok(total) => match (prompt, completion, total) {
                                            (None, _, _) => Err(missing("prompt_tokens"@)),
                                            (_, None, _) => Err(missing("completion_tokens"@)),
                                            (_, _, None) => Err(missing("total_tokens"@)),
                                            (Some(prompt_tokens), Some(completion_tokens), Some(total_tokens)) => Ok(
                                                KimiUsage {
                                                    prompt_tokens,
                                                    completion_tokens,
                                                    total_tokens,
                                                    cached_prompt_tokens: first_given(cached, nested_cached),
                                                    reasoning_tokens: first_given(reasoning, nested_reasoning),
                                                },
                                            ),
                                        },
                                    },
                                },
                            },
                        },
                    },
                },
            },
        },
    }
}

fn read_usage(json: &Json) -> (usage: Result<KimiUsage, String>)
    ensures
        outcome(usage) == usage_of(json.deep_view()),
{
    broadcast use lemma_array_model;
    if let Json::Array(items) = json {
        return read_seated_usage(items);
    }
    if let Some(message) = object_error(json, "struct RawUsage") {
        return Err(message);
    }
    let cached = match read_optional_whole(json, "cached_tokens") {
        Ok(value) => value,
        Err(message) => {
            return Err(message);
        },
    };
    let completion = match read_given_whole(json, "completion_tokens", u64::MAX, "u64") {
        Ok(value) => value,
        Err(message) => {
            return Err(message);
        },
    };
    let nested_reasoning = match read_nested_whole(
        json,
        "completion_tokens_details",
        "struct CompletionDetails",
        "reasoning_tokens",
    ) {
        Ok(value) => value,
        Err(message) => {
            return Err(message);
        },
    };
    let prompt = match read_given_whole(json, "prompt_tokens", u64::MAX, "u64") {
        Ok(value) => value,
        Err(message) => {
            return Err(message);
        },
    };
    let nested_cached = match read_nested_whole(
        json,
        "prompt_tokens_details",
        "struct PromptDetails",
        "cached_tokens",
    ) {
        Ok(value) => value,
        Err(message) => {
            return Err(message);
        },
    };
    let reasoning = match read_optional_whole(json, "reasoning_tokens") {
        Ok(value) => value,
        Err(message) => {
            return Err(message);
        },
    };
    let total = match read_given_whole(json, "total_tokens", u64::MAX, "u64") {
        Ok(value) => value,
        Err(message) => {
            return Err(message);
        },
    };
    match (prompt, completion, total) {
        (None, _, _) => Err(missing_field("prompt_tokens")),
        (_, None, _) => Err(missing_field("completion_tokens")),
        (_, _, None) => Err(missing_field("total_tokens")),
        (Some(prompt_tokens), Some(completion_tokens), Some(total_tokens)) => Ok(
            KimiUsage {
                prompt_tokens,
                completion_tokens,
                total_tokens,
                cached_prompt_tokens: choose_given(cached, nested_cached),
                reasoning_tokens: choose_given(reasoning, nested_reasoning),
            },
        ),
    }
}

/// The usage under `usage`, where there is a value that is not null.
pub open spec fn given_usage(json: JsonModel) -> Result<Option<KimiUsage>, Seq<char>> {
    match member(json, "usage"@) {
        None => Ok(None),
        Some(JsonModel::Null) => Ok(None),
        Some(value) => match usage_of(value) {
            Ok(usage) => Ok(Some(usage)),
            Err(message) => Err(message),
        },
    }
}

fn read_given_usage(json: &Json) -> (usage: Result<Option<KimiUsage>, String>)
    ensures
        outcome(usage) == given_usage(json.deep_view()),
{
    match json.get("usage") {
        None => Ok(None),
        Some(Json::Null) => Ok(None),
        Some(value) => match read_usage(value) {
            Ok(usage) => Ok(Some(usage)),
            Err(message) => Err(message),
        },
    }
}

// ---- chunks ----

/// The choice that an array holds by position.
pub open spec fn seated_choice(items: Seq<JsonModel>) -> Result<KimiChoiceModel, Seq<char>> {
    match given_whole(seat(items, 0, "index"@), "index"@, usize::MAX as u64, "usize"@) {
        Err(message) => Err(message),
        Ok(None) => Err(wrong_length(0, "struct Choice with 4 elements"@)),
        Ok(Some(index)) => match given_delta(seat(items, 1, "delta"@), DeltaForm::Kimi) {
            Err(message) => Err(message),
            Ok(None) => Err(wrong_length(1, "struct Choice with 4 elements"@)),
            Ok(Some(delta)) => match optional_text(seat(items, 2, "finish_reason"@), "finish_reason"@) {
                Err(message) => Err(message),
                Ok(finish_reason) => match given_usage(seat(items, 3, "usage"@)) {
                    Err(message) => Err(message),
                    Ok(usage) => filled(
                        KimiChoiceModel { index: index as usize, delta, finish_reason, usage },
                        items.len(),
                        4,
                        Source::Text,
                    ),
                },
            },
        },
    }
}

fn read_seated_choice(items: &Vec<Json>) -> (read: Result<KimiChoice, String>)
    ensures
        outcome(read) == seated_choice(items.deep_view()),
{
    let json = take_seat(items, 0, "index");
    let index = match read_given_whole(&json, "index", usize::MAX as u64, "usize") {
        Err(message) => {
            return Err(message);
        },
        Ok(None) => {
            return Err(length_error(0, "struct Choice with 4 elements"));
        },
        Ok(Some(value)) => value,
    };
    let json = take_seat(items, 1, "delta");
    let delta = match read_given_delta(&json, DeltaForm::Kimi) {
        Err(message) => {
            return Err(message);
        },
        Ok(None) => {
            return Err(length_error(1, "struct Choice with 4 elements"));
        },
        Ok(Some(value)) => value,
    };
    let json = take_seat(items, 2, "finish_reason");
    let finish_reason = match read_optional_text(&json, "finish_reason") {
        Err(message) => {
            return Err(message);
        },
        Ok(value) => value,
    };
    let json = take_seat(items, 3, "usage");
    let usage = match read_given_usage(&json) {
        Err(message) => {
            return Err(message);
        },
        Ok(value) => value,
    };
    fill(KimiChoice { index: index as usize, delta, finish_reason, usage }, items.len(), 4, Source::Text)
}

/// The choice that a value holds.
pub open spec fn choice_of(json: JsonModel) -> Result<KimiChoiceModel, Seq<char>> {
    match json {
        JsonModel::Array(items) => seated_choice(items),
        _ => match not_object(json, "struct Choice"@) {
            Some(message) => Err(message),
            None => match given_delta(json, DeltaForm::Kimi) {
                Err(message) => Err(message),
                Ok(delta) => match optional_text(json, "finish_reason"@) {
                    Err(message) => Err(message),
                    Ok(finish_reason) => match given_whole(json, "index"@, usize::MAX as u64, "usize"@) {
                        Err(message) => Err(message),
                        Ok(index) => match given_usage(json) {
                            Err(message) => Err(message),
                            Ok(usage) => match (index, delta) {
                                (None, _) => Err(missing("index"@)),
                                (_, None) => Err(missing("delta"@)),
                                (Some(index), Some(delta)) => Ok(
                                    KimiChoiceModel { index: index as usize, delta, finish_reason, usage },
                                ),
                            },
                        },
                    },
                },
            },
        },
    }
}

fn read_choice(json: &Json) -> (choice: Result<KimiChoice, String>)
    ensures
        outcome(choice) == choice_of(json.deep_view()),
{
    broadcast use lemma_array_model;
    if let Json::Array(items) = json {
        return read_seated_choice(items);
    }
    if let Some(message) = object_error(json, "struct Choice") {
        return Err(message);
    }
    let delta = match read_given_delta(json, DeltaForm::Kimi) {
        Ok(delta) => delta,
        Err(message) => {
            return Err(message);
        },
    };
    let finish_reason = match read_optional_text(json, "finish_reason") {
        Ok(reason) => reason,
        Err(message) => {
            return Err(message);
        },
    };
    let index = match read_given_whole(json, "index", usize::MAX as u64, "usize") {
        Ok(index) => index,
        Err(message) => {
            return Err(message);
        },
    };
    match read_given_usage(json) {
        Err(message) => Err(message),
        Ok(usage) => match (index, delta) {
            (None, _) => Err(missing_field("index")),
            (_, None) => Err(missing_field("delta")),
            (Some(index), Some(delta)) => Ok(KimiChoice { index: index as usize, delta, finish_reason, usage }),
        },
    }
}

/// The choices from `at` on behind those that are done.
pub open spec fn choices_from(items: Seq<JsonModel>, at: int, done: Seq<KimiChoiceModel>) -> Result<
    Seq<KimiChoiceModel>,
    Seq<char>,
>
    decreases items.len() - at,
{
    if at < 0 || at >= items.len() {
        Ok(done)
    } else {
        match choice_of(items[at]) {
            Ok(choice) => choices_from(items, at + 1, done.push(choice)),
            Err(message) => Err(message),
        }
    }
}

/// The choices under `choices`, where there is a value.
pub open spec fn given_choices(json: JsonModel) -> Result<Option<Seq<KimiChoiceModel>>, Seq<char>> {
    match member(json, "choices"@) {
        None => Ok(None),
        Some(JsonModel::Array(items)) => match choices_from(items, 0, Seq::empty()) {
            Ok(choices) => Ok(Some(choices)),
            Err(message) => Err(message),
        },
        Some(value) => Err(wrong_type(value, "a sequence"@)),
    }
}

fn read_choices(json: &Json) -> (choices: Result<Option<Vec<KimiChoice>>, String>)
    ensures
        outcome(choices) == given_choices(json.deep_view()),
{
    broadcast use lemma_array_model;
    match json.get("choices") {
        None => Ok(None),
        Some(Json::Array(items)) => {
            let mut done: Vec<KimiChoice> = no_items();
            let mut i: usize = 0;
            while i < items.len()
                invariant
                    i <= items.len(),
                    member(json.deep_view(), "choices"@) == Some(JsonModel::Array(items.deep_view())),
                    choices_from(items.deep_view(), 0, Seq::empty()) == choices_from(
                        items.deep_view(),
                        i as int,
                        done.deep_view(),
                    ),
                decreases items.len() - i,
            {
                assert(items.deep_view()[i as int] == items@[i as int].deep_view());
                match read_choice(&items[i]) {
                    Ok(choice) => {
                        push_item(&mut done, choice);
                    },
                    Err(message) => {
                        return Err(message);
                    },
                }
                i += 1;
            }
            Ok(Some(done))
        },
        Some(value) => Err(type_error(value, "a sequence")),
    }
}

/// The chunk that an array holds by position.
pub open spec fn seated_chunk(items: Seq<JsonModel>) -> Result<KimiChunkModel, Seq<char>> {
    match given_text(seat(items, 0, "id"@), "id"@) {
        Err(message) => Err(message),
        Ok(None) => Err(wrong_length(0, "struct Chunk with 3 elements"@)),
        Ok(Some(id)) => match given_choices(seat(items, 1, "choices"@)) {
            Err(message) => Err(message),
            Ok(None) => Err(wrong_length(1, "struct Chunk with 3 elements"@)),
            Ok(Some(choices)) => match given_usage(seat(items, 2, "usage"@)) {
                Err(message) => Err(message),
                Ok(usage) => filled(KimiChunkModel { id, choices, usage }, items.len(), 3, Source::Text),
            },
        },
    }
}

fn read_seated_chunk(items: &Vec<Json>) -> (read: Result<KimiChunk, String>)
    ensures
        outcome(read) == seated_chunk(items.deep_view()),
{
    let json = take_seat(items, 0, "id");
    let id = match read_given_text(&json, "id") {
        Err(message) => {
            return Err(message);
        },
        Ok(None) => {
            return Err(length_error(0, "struct Chunk with 3 elements"));
        },
        Ok(Some(value)) => value,
    };
    let json = take_seat(items, 1, "choices");
    let choices = match read_choices(&json) {
        Err(message) => {
            return Err(message);
        },
        Ok(None) => {
            return Err(length_error(1, "struct Chunk with 3 elements"));
        },
        Ok(Some(value)) => value,
    };
    let json = take_seat(items, 2, "usage");
    let usage = match read_given_usage(&json) {
        Err(message) => {
            return Err(message);
        },
        Ok(value) => value,
    };
    fill(KimiChunk { id, choices, usage }, items.len(), 3, Source::Text)
}

/// The chunk that a value holds.
pub open spec fn chunk_of(json: JsonModel) -> Result<KimiChunkModel, Seq<char>> {
    match json {
        JsonModel::Array(items) => seated_chunk(items),
        _ => match not_object(json, "struct Chunk"@) {
            Some(message) => Err(message),
            None => match given_choices(json) {
                Err(message) => Err(message),
                Ok(choices) => match given_text(json, "id"@) {
                    Err(message) => Err(message),
                    Ok(id) => match given_usage(json) {
                        Err(message) => Err(message),
                        Ok(usage) => match (id, choices) {
                            (None, _) => Err(missing("id"@)),
                            (_, None) => Err(missing("choices"@)),
                            (Some(id), Some(choices)) => Ok(KimiChunkModel { id, choices, usage }),
                        },
                    },
                },
            },
        },
    }
}

impl KimiChunk {
    /// The chunk that a value holds.
    pub fn from_json(json: &Json) -> (chunk: Result<KimiChunk, String>)
        ensures
            outcome(chunk) == chunk_of(json.deep_view()),
    {
        broadcast use lemma_array_model;
        if let Json::Array(items) = json {
            return read_seated_chunk(items);
        }
        if let Some(message) = object_error(json, "struct Chunk") {
            return Err(message);
        }
        let choices = match read_choices(json) {
            Ok(choices) => choices,
            Err(message) => {
                return Err(message);
            },
        };
        let id = match read_given_text(json, "id") {
            Ok(id) => id,
            Err(message) => {
                return Err(message);
            },
        };
        match read_given_usage(json) {
            Err(message) => Err(message),
            Ok(usage) => match (id, choices) {
                (None, _) => Err(missing_field("id")),
                (_, None) => Err(missing_field("choices")),
                (Some(id), Some(choices)) => Ok(KimiChunk { id, choices, usage }),
            },
        }
    }
}

} // verus!
