//! The events of a streamed response, read from JSON.
use crate::claude_code::types::{CacheCreationUsage, Usage};
use crate::json::{lemma_array_model, member, Json, JsonModel, JsonNumber, JsonNumberModel};
use crate::model::{outcome, Duplicate};
use crate::read::{
    both_texts, fill, filled, given_text, given_whole, length_error, missing, missing_field, not_object,
    number_error, object_error, one_text, optional_text, optional_whole, read_both_texts, read_given_text,
    read_given_whole, read_one_text, read_optional_text, read_optional_whole, read_tag, read_tag_value, seat,
    tag_of, tag_value, take_seat, type_error, unknown_number, unknown_variant, variant_error, wrong_length,
    wrong_type, Source,
};
use vstd::prelude::*;

verus! {

/// The names of the events, for a message.
pub const EVENT_NAMES: &'static str =
    "one of `ping`, `message_start`, `content_block_start`, `content_block_delta`, `content_block_stop`, `message_delta`, `message_stop`, `error`";

/// The names of the blocks, for a message.
pub const BLOCK_NAMES: &'static str = "one of `text`, `thinking`, `redacted_thinking`, `tool_use`";

/// The names of the deltas, for a message.
pub const DELTA_NAMES: &'static str = "one of `text_delta`, `thinking_delta`, `signature_delta`, `input_json_delta`";

/// The message that a stream starts with.
#[derive(Debug, Clone, PartialEq, Eq)]
pub struct StartMessage {
    pub id: String,
    pub kind: String,
    pub role: String,
    pub model: String,
    pub content: Vec<Json>,
    pub stop_reason: Json,
    pub stop_sequence: Json,
    pub usage: Usage,
}

/// The model of [`StartMessage`].
#[verifier::ext_equal]
pub struct StartMessageModel {
    pub id: Seq<char>,
    pub kind: Seq<char>,
    pub role: Seq<char>,
    pub model: Seq<char>,
    pub content: Seq<JsonModel>,
    pub stop_reason: JsonModel,
    pub stop_sequence: JsonModel,
    pub usage: Usage,
}

impl DeepView for StartMessage {
    type V = StartMessageModel;

    open spec fn deep_view(&self) -> StartMessageModel {
        StartMessageModel {
            id: self.id.deep_view(),
            kind: self.kind.deep_view(),
            role: self.role.deep_view(),
            model: self.model.deep_view(),
            content: self.content.deep_view(),
            stop_reason: self.stop_reason.deep_view(),
            stop_sequence: self.stop_sequence.deep_view(),
            usage: self.usage.deep_view(),
        }
    }
}

impl Duplicate for StartMessage {
    fn duplicate(&self) -> (copy: Self) {
        StartMessage {
            id: self.id.duplicate(),
            kind: self.kind.duplicate(),
            role: self.role.duplicate(),
            model: self.model.duplicate(),
            content: self.content.duplicate(),
            stop_reason: self.stop_reason.duplicate(),
            stop_sequence: self.stop_sequence.duplicate(),
            usage: self.usage.duplicate(),
        }
    }
}

/// The block that is started.
#[derive(Debug, Clone, PartialEq, Eq)]
pub enum StartBlock {
    /// Text.
    Text {
        text: String,
    },
    /// Signed thinking.
    Thinking {
        thinking: String,
    },
    /// Thinking that only the provider can read.
    RedactedThinking {
        data: String,
    },
    /// A tool call.
    ToolUse {
        id: String,
        name: String,
        input: Json,
    },
}

/// The model of [`StartBlock`].
#[verifier::ext_equal]
pub enum StartBlockModel {
    Text {
        text: Seq<char>,
    },
    Thinking {
        thinking: Seq<char>,
    },
    RedactedThinking {
        data: Seq<char>,
    },
    ToolUse {
        id: Seq<char>,
        name: Seq<char>,
        input: JsonModel,
    },
}

impl DeepView for StartBlock {
    type V = StartBlockModel;

    open spec fn deep_view(&self) -> StartBlockModel {
        match self {
            StartBlock::Text { text } => StartBlockModel::Text { text: text.deep_view() },
            StartBlock::Thinking { thinking } => StartBlockModel::Thinking { thinking: thinking.deep_view() },
            StartBlock::RedactedThinking { data } => StartBlockModel::RedactedThinking { data: data.deep_view() },
            StartBlock::ToolUse { id, name, input } => StartBlockModel::ToolUse {
                id: id.deep_view(),
                name: name.deep_view(),
                input: input.deep_view(),
            },
        }
    }
}

impl Duplicate for StartBlock {
    fn duplicate(&self) -> (copy: Self) {
        match self {
            StartBlock::Text { text } => StartBlock::Text { text: text.duplicate() },
            StartBlock::Thinking { thinking } => StartBlock::Thinking { thinking: thinking.duplicate() },
            StartBlock::RedactedThinking { data } => StartBlock::RedactedThinking { data: data.duplicate() },
            StartBlock::ToolUse { id, name, input } => StartBlock::ToolUse {
                id: id.duplicate(),
                name: name.duplicate(),
                input: input.duplicate(),
            },
        }
    }
}

/// What is added to a block.
#[derive(Debug, Clone, PartialEq, Eq)]
pub enum Delta {
    /// Text.
    Text {
        text: String,
    },
    /// Thinking.
    Thinking {
        thinking: String,
    },
    /// Part of a signature.
    Signature {
        signature: String,
    },
    /// Part of the input of a tool call.
    InputJson {
        partial_json: String,
    },
}

/// The model of [`Delta`].
#[verifier::ext_equal]
pub enum DeltaModel {
    Text {
        text: Seq<char>,
    },
    Thinking {
        thinking: Seq<char>,
    },
    Signature {
        signature: Seq<char>,
    },
    InputJson {
        partial_json: Seq<char>,
    },
}

impl DeepView for Delta {
    type V = DeltaModel;

    open spec fn deep_view(&self) -> DeltaModel {
        match self {
            Delta::Text { text } => DeltaModel::Text { text: text.deep_view() },
            Delta::Thinking { thinking } => DeltaModel::Thinking { thinking: thinking.deep_view() },
            Delta::Signature { signature } => DeltaModel::Signature { signature: signature.deep_view() },
            Delta::InputJson { partial_json } => DeltaModel::InputJson { partial_json: partial_json.deep_view() },
        }
    }
}

impl Duplicate for Delta {
    fn duplicate(&self) -> (copy: Self) {
        match self {
            Delta::Text { text } => Delta::Text { text: text.duplicate() },
            Delta::Thinking { thinking } => Delta::Thinking { thinking: thinking.duplicate() },
            Delta::Signature { signature } => Delta::Signature { signature: signature.duplicate() },
            Delta::InputJson { partial_json } => Delta::InputJson { partial_json: partial_json.duplicate() },
        }
    }
}

/// The tokens at the end of a response.
#[derive(Debug, Clone, Copy, PartialEq, Eq, Structural)]
pub struct DeltaUsage {
    pub output_tokens: u64,
    pub thinking_tokens: Option<u64>,
}

impl DeepView for DeltaUsage {
    type V = DeltaUsage;

    open spec fn deep_view(&self) -> DeltaUsage {
        *self
    }
}

impl Duplicate for DeltaUsage {
    fn duplicate(&self) -> (copy: Self) {
        *self
    }
}

/// One event of a stream.
#[derive(Debug, Clone, PartialEq, Eq)]
pub enum WireEvent {
    /// A sign of life.
    Ping,
    /// The response starts.
    MessageStart {
        message: StartMessage,
    },
    /// A block starts.
    ContentBlockStart {
        index: usize,
        content_block: StartBlock,
    },
    /// A block grows.
    ContentBlockDelta {
        index: usize,
        delta: Delta,
    },
    /// A block ends.
    ContentBlockStop {
        index: usize,
    },
    /// The response ends, for this reason.
    MessageDelta {
        stop_reason: Option<String>,
        usage: DeltaUsage,
    },
    /// The stream ends.
    MessageStop,
    /// The provider failed.
    Error {
        error_type: String,
        message: String,
    },
}

/// The model of [`WireEvent`].
#[verifier::ext_equal]
pub enum WireEventModel {
    Ping,
    MessageStart {
        message: StartMessageModel,
    },
    ContentBlockStart {
        index: usize,
        content_block: StartBlockModel,
    },
    ContentBlockDelta {
        index: usize,
        delta: DeltaModel,
    },
    ContentBlockStop {
        index: usize,
    },
    MessageDelta {
        stop_reason: Option<Seq<char>>,
        usage: DeltaUsage,
    },
    MessageStop,
    Error {
        error_type: Seq<char>,
        message: Seq<char>,
    },
}

impl DeepView for WireEvent {
    type V = WireEventModel;

    open spec fn deep_view(&self) -> WireEventModel {
        match self {
            WireEvent::Ping => WireEventModel::Ping,
            WireEvent::MessageStart { message } => WireEventModel::MessageStart { message: message.deep_view() },
            WireEvent::ContentBlockStart { index, content_block } => WireEventModel::ContentBlockStart {
                index: index.deep_view(),
                content_block: content_block.deep_view(),
            },
            WireEvent::ContentBlockDelta { index, delta } => WireEventModel::ContentBlockDelta {
                index: index.deep_view(),
                delta: delta.deep_view(),
            },
            WireEvent::ContentBlockStop { index } => WireEventModel::ContentBlockStop { index: index.deep_view() },
            WireEvent::MessageDelta { stop_reason, usage } => WireEventModel::MessageDelta {
                stop_reason: stop_reason.deep_view(),
                usage: usage.deep_view(),
            },
            WireEvent::MessageStop => WireEventModel::MessageStop,
            WireEvent::Error { error_type, message } => WireEventModel::Error {
                error_type: error_type.deep_view(),
                message: message.deep_view(),
            },
        }
    }
}

impl Duplicate for WireEvent {
    fn duplicate(&self) -> (copy: Self) {
        match self {
            WireEvent::Ping => WireEvent::Ping,
            WireEvent::MessageStart { message } => WireEvent::MessageStart { message: message.duplicate() },
            WireEvent::ContentBlockStart { index, content_block } => WireEvent::ContentBlockStart {
                index: index.duplicate(),
                content_block: content_block.duplicate(),
            },
            WireEvent::ContentBlockDelta { index, delta } => WireEvent::ContentBlockDelta {
                index: index.duplicate(),
                delta: delta.duplicate(),
            },
            WireEvent::ContentBlockStop { index } => WireEvent::ContentBlockStop { index: index.duplicate() },
            WireEvent::MessageDelta { stop_reason, usage } => WireEvent::MessageDelta {
                stop_reason: stop_reason.duplicate(),
                usage: usage.duplicate(),
            },
            WireEvent::MessageStop => WireEvent::MessageStop,
            WireEvent::Error { error_type, message } => WireEvent::Error {
                error_type: error_type.duplicate(),
                message: message.duplicate(),
            },
        }
    }
}

impl WireEventModel {
    /// The name of the event.
    pub open spec fn label(self) -> Seq<char> {
        match self {
            WireEventModel::Ping => "ping"@,
            WireEventModel::MessageStart { .. } => "message_start"@,
            WireEventModel::ContentBlockStart { .. } => "content_block_start"@,
            WireEventModel::ContentBlockDelta { .. } => "content_block_delta"@,
            WireEventModel::ContentBlockStop { .. } => "content_block_stop"@,
            WireEventModel::MessageDelta { .. } => "message_delta"@,
            WireEventModel::MessageStop => "message_stop"@,
            WireEventModel::Error { .. } => "error"@,
        }
    }
}

impl WireEvent {
    /// The name of the event.
    pub fn name(&self) -> (name: &'static str)
        ensures
            name@ == self.deep_view().label(),
    {
        match self {
            WireEvent::Ping => "ping",
            WireEvent::MessageStart { .. } => "message_start",
            WireEvent::ContentBlockStart { .. } => "content_block_start",
            WireEvent::ContentBlockDelta { .. } => "content_block_delta",
            WireEvent::ContentBlockStop { .. } => "content_block_stop",
            WireEvent::MessageDelta { .. } => "message_delta",
            WireEvent::MessageStop => "message_stop",
            WireEvent::Error { .. } => "error",
        }
    }
}

// ---- usage ----

/// The tokens written to the cache that an array holds by position.
pub open spec fn seated_cache_creation(items: Seq<JsonModel>) -> Result<CacheCreationUsage, Seq<char>> {
    match given_whole(seat(items, 0, "ephemeral_5m_input_tokens"@), "ephemeral_5m_input_tokens"@, u64::MAX, "u64"@) {
        Err(message) => Err(message),
        Ok(None) => Err(wrong_length(0, "struct CacheCreationUsage with 2 elements"@)),
        Ok(Some(minutes)) => match given_whole(
            seat(items, 1, "ephemeral_1h_input_tokens"@),
            "ephemeral_1h_input_tokens"@,
            u64::MAX,
            "u64"@,
        ) {
            Err(message) => Err(message),
            Ok(None) => Err(wrong_length(1, "struct CacheCreationUsage with 2 elements"@)),
            Ok(Some(hour)) => filled(
                CacheCreationUsage { ephemeral_5m_input_tokens: minutes, ephemeral_1h_input_tokens: hour },
                items.len(),
                2,
                Source::Buffer,
            ),
        },
    }
}

fn read_seated_cache_creation(items: &Vec<Json>) -> (read: Result<CacheCreationUsage, String>)
    ensures
        outcome(read) == seated_cache_creation(items.deep_view()),
{
    let json = take_seat(items, 0, "ephemeral_5m_input_tokens");
    let minutes = match read_given_whole(&json, "ephemeral_5m_input_tokens", u64::MAX, "u64") {
        Err(message) => {
            return Err(message);
        },
        Ok(None) => {
            return Err(length_error(0, "struct CacheCreationUsage with 2 elements"));
        },
        Ok(Some(value)) => value,
    };
    let json = take_seat(items, 1, "ephemeral_1h_input_tokens");
    let hour = match read_given_whole(&json, "ephemeral_1h_input_tokens", u64::MAX, "u64") {
        Err(message) => {
            return Err(message);
        },
        Ok(None) => {
            return Err(length_error(1, "struct CacheCreationUsage with 2 elements"));
        },
        Ok(Some(value)) => value,
    };
    fill(
        CacheCreationUsage { ephemeral_5m_input_tokens: minutes, ephemeral_1h_input_tokens: hour },
        items.len(),
        2,
        Source::Buffer,
    )
}

/// The tokens written to the cache that a value reports.
pub open spec fn cache_creation_of(json: JsonModel) -> Result<CacheCreationUsage, Seq<char>> {
    match json {
        JsonModel::Array(items) => seated_cache_creation(items),
        _ => match not_object(json, "struct CacheCreationUsage"@) {
            Some(message) => Err(message),
            None => match given_whole(json, "ephemeral_1h_input_tokens"@, u64::MAX, "u64"@) {
                Err(message) => Err(message),
                Ok(hour) => match given_whole(json, "ephemeral_5m_input_tokens"@, u64::MAX, "u64"@) {
                    Err(message) => Err(message),
                    Ok(minutes) => match (minutes, hour) {
                        (None, _) => Err(missing("ephemeral_5m_input_tokens"@)),
                        (_, None) => Err(missing("ephemeral_1h_input_tokens"@)),
                        (Some(minutes), Some(hour)) => Ok(
                            CacheCreationUsage { ephemeral_5m_input_tokens: minutes, ephemeral_1h_input_tokens: hour },
                        ),
                    },
                },
            },
        },
    }
}

/// The tokens under `cache_creation`, where there is a value that is not null.
pub open spec fn optional_cache_creation(json: JsonModel) -> Result<Option<CacheCreationUsage>, Seq<char>> {
    match member(json, "cache_creation"@) {
        None => Ok(None),
        Some(JsonModel::Null) => Ok(None),
        Some(value) => match cache_creation_of(value) {
            Ok(usage) => Ok(Some(usage)),
            Err(message) => Err(message),
        },
    }
}

fn read_cache_creation(json: &Json) -> (usage: Result<Option<CacheCreationUsage>, String>)
    ensures
        outcome(usage) == optional_cache_creation(json.deep_view()),
{
    let value = match json.get("cache_creation") {
        None => {
            return Ok(None);
        },
        Some(Json::Null) => {
            return Ok(None);
        },
        Some(value) => value,
    };
    broadcast use lemma_array_model;
    if let Json::Array(items) = value {
        return match read_seated_cache_creation(items) {
            Ok(usage) => Ok(Some(usage)),
            Err(message) => Err(message),
        };
    }
    if let Some(message) = object_error(value, "struct CacheCreationUsage") {
        return Err(message);
    }
    match read_given_whole(value, "ephemeral_1h_input_tokens", u64::MAX, "u64") {
        Err(message) => Err(message),
        Ok(hour) => match read_given_whole(value, "ephemeral_5m_input_tokens", u64::MAX, "u64") {
            Err(message) => Err(message),
            Ok(minutes) => match (minutes, hour) {
                (None, _) => Err(missing_field("ephemeral_5m_input_tokens")),
                (_, None) => Err(missing_field("ephemeral_1h_input_tokens")),
                (Some(minutes), Some(hour)) => Ok(
                    Some(CacheCreationUsage { ephemeral_5m_input_tokens: minutes, ephemeral_1h_input_tokens: hour }),
                ),
            },
        },
    }
}

/// The usage that an array holds by position.
pub open spec fn seated_usage(items: Seq<JsonModel>) -> Result<Usage, Seq<char>> {
    match given_whole(seat(items, 0, "input_tokens"@), "input_tokens"@, u64::MAX, "u64"@) {
        Err(message) => Err(message),
        Ok(None) => Err(wrong_length(0, "struct Usage with 6 elements"@)),
        Ok(Some(input_tokens)) => match given_whole(
            seat(items, 1, "output_tokens"@),
            "output_tokens"@,
            u64::MAX,
            "u64"@,
        ) {
            Err(message) => Err(message),
            Ok(None) => Err(wrong_length(1, "struct Usage with 6 elements"@)),
            Ok(Some(output_tokens)) => match optional_whole(
                seat(items, 2, "cache_creation_input_tokens"@),
                "cache_creation_input_tokens"@,
            ) {
                Err(message) => Err(message),
                Ok(cache_creation_input_tokens) => match optional_whole(
                    seat(items, 3, "cache_read_input_tokens"@),
                    "cache_read_input_tokens"@,
                ) {
                    Err(message) => Err(message),
                    Ok(cache_read_input_tokens) => match optional_whole(
                        seat(items, 4, "thinking_tokens"@),
                        "thinking_tokens"@,
                    ) {
                        Err(message) => Err(message),
                        Ok(thinking_tokens) => match optional_cache_creation(seat(items, 5, "cache_creation"@)) {
                            Err(message) => Err(message),
                            Ok(cache_creation) => filled(
                                Usage {
                                    input_tokens,
                                    output_tokens,
                                    cache_creation_input_tokens,
                                    cache_read_input_tokens,
                                    thinking_tokens,
                                    cache_creation,
                                },
                                items.len(),
                                6,
                                Source::Buffer,
                            ),
                        },
                    },
                },
            },
        },
    }
}

fn read_seated_usage(items: &Vec<Json>) -> (read: Result<Usage, String>)
    ensures
        outcome(read) == seated_usage(items.deep_view()),
{
    let json = take_seat(items, 0, "input_tokens");
    let input_tokens = match read_given_whole(&json, "input_tokens", u64::MAX, "u64") {
        Err(message) => {
            return Err(message);
        },
        Ok(None) => {
            return Err(length_error(0, "struct Usage with 6 elements"));
        },
        Ok(Some(value)) => value,
    };
    let json = take_seat(items, 1, "output_tokens");
    let output_tokens = match read_given_whole(&json, "output_tokens", u64::MAX, "u64") {
        Err(message) => {
            return Err(message);
        },
        Ok(None) => {
            return Err(length_error(1, "struct Usage with 6 elements"));
        },
        Ok(Some(value)) => value,
    };
    let json = take_seat(items, 2, "cache_creation_input_tokens");
    let cache_creation_input_tokens = match read_optional_whole(&json, "cache_creation_input_tokens") {
        Err(message) => {
            return Err(message);
        },
        Ok(value) => value,
    };
    let json = take_seat(items, 3, "cache_read_input_tokens");
    let cache_read_input_tokens = match read_optional_whole(&json, "cache_read_input_tokens") {
        Err(message) => {
            return Err(message);
        },
        Ok(value) => value,
    };
    let json = take_seat(items, 4, "thinking_tokens");
    let thinking_tokens = match read_optional_whole(&json, "thinking_tokens") {
        Err(message) => {
            return Err(message);
        },
        Ok(value) => value,
    };
    let json = take_seat(items, 5, "cache_creation");
    let cache_creation = match read_cache_creation(&json) {
        Err(message) => {
            return Err(message);
        },
        Ok(value) => value,
    };
    fill(
        Usage {
            input_tokens,
            output_tokens,
            cache_creation_input_tokens,
            cache_read_input_tokens,
            thinking_tokens,
            cache_creation,
        },
        items.len(),
        6,
        Source::Buffer,
    )
}

/// The usage that a value reports.
pub open spec fn usage_of(json: JsonModel) -> Result<Usage, Seq<char>> {
    match json {
        JsonModel::Array(items) => seated_usage(items),
        _ => match not_object(json, "struct Usage"@) {
            Some(message) => Err(message),
            None => match optional_cache_creation(json) {
                Err(message) => Err(message),
                Ok(cache_creation) => match optional_whole(json, "cache_creation_input_tokens"@) {
                    Err(message) => Err(message),
                    Ok(cache_creation_input_tokens) => match optional_whole(json, "cache_read_input_tokens"@) {
                        Err(message) => Err(message),
                        Ok(cache_read_input_tokens) => match given_whole(json, "input_tokens"@, u64::MAX, "u64"@) {
                            Err(message) => Err(message),
                            Ok(input) => match given_whole(json, "output_tokens"@, u64::MAX, "u64"@) {
                                Err(message) => Err(message),
                                Ok(output) => match optional_whole(json, "thinking_tokens"@) {
                                    Err(message) => Err(message),
                                    Ok(thinking_tokens) => match (input, output) {
                                        (None, _) => Err(missing("input_tokens"@)),
                                        (_, None) => Err(missing("output_tokens"@)),
                                        (Some(input_tokens), Some(output_tokens)) => Ok(
                                            Usage {
                                                input_tokens,
                                                output_tokens,
                                                cache_creation_input_tokens,
                                                cache_read_input_tokens,
                                                thinking_tokens,
                                                cache_creation,
                                            },
                                        ),
                                    },
                                },
                            },
                        },
                    },
                },
            },
        },
    }
}

fn read_usage(json: &Json) -> (usage: Result<Usage, String>)
    ensures
        outcome(usage) == usage_of(json.deep_view()),
{
    broadcast use lemma_array_model;
    if let Json::Array(items) = json {
        return read_seated_usage(items);
    }
    if let Some(message) = object_error(json, "struct Usage") {
        return Err(message);
    }
    let cache_creation = match read_cache_creation(json) {
        Ok(value) => value,
        Err(message) => {
            return Err(message);
        },
    };
    let cache_creation_input_tokens = match read_optional_whole(json, "cache_creation_input_tokens") {
        Ok(value) => value,
        Err(message) => {
            return Err(message);
        },
    };
    let cache_read_input_tokens = match read_optional_whole(json, "cache_read_input_tokens") {
        Ok(value) => value,
        Err(message) => {
            return Err(message);
        },
    };
    let input = match read_given_whole(json, "input_tokens", u64::MAX, "u64") {
        Ok(value) => value,
        Err(message) => {
            return Err(message);
        },
    };
    let output = match read_given_whole(json, "output_tokens", u64::MAX, "u64") {
        Ok(value) => value,
        Err(message) => {
            return Err(message);
        },
    };
    match read_optional_whole(json, "thinking_tokens") {
        Err(message) => Err(message),
        Ok(thinking_tokens) => match (input, output) {
            (None, _) => Err(missing_field("input_tokens")),
            (_, None) => Err(missing_field("output_tokens")),
            (Some(input_tokens), Some(output_tokens)) => Ok(
                Usage {
                    input_tokens,
                    output_tokens,
                    cache_creation_input_tokens,
                    cache_read_input_tokens,
                    thinking_tokens,
                    cache_creation,
                },
            ),
        },
    }
}

// ---- messages ----

/// The items under `content`, where there is a value.
pub open spec fn given_content(json: JsonModel) -> Result<Option<Seq<JsonModel>>, Seq<char>> {
    match member(json, "content"@) {
        None => Ok(None),
        Some(JsonModel::Array(items)) => Ok(Some(items)),
        Some(value) => Err(wrong_type(value, "a sequence"@)),
    }
}

/// The usage under `usage`, where there is a value.
pub open spec fn given_usage(json: JsonModel) -> Result<Option<Usage>, Seq<char>> {
    match member(json, "usage"@) {
        None => Ok(None),
        Some(value) => match usage_of(value) {
            Ok(usage) => Ok(Some(usage)),
            Err(message) => Err(message),
        },
    }
}

/// The message that an array holds by position.
pub open spec fn seated_start_message(items: Seq<JsonModel>) -> Result<StartMessageModel, Seq<char>> {
    match given_text(seat(items, 0, "id"@), "id"@) {
        Err(message) => Err(message),
        Ok(None) => Err(wrong_length(0, "struct StartMessage with 8 elements"@)),
        Ok(Some(id)) => match given_text(seat(items, 1, "type"@), "type"@) {
            Err(message) => Err(message),
            Ok(None) => Err(wrong_length(1, "struct StartMessage with 8 elements"@)),
            Ok(Some(kind)) => match given_text(seat(items, 2, "role"@), "role"@) {
                Err(message) => Err(message),
                Ok(None) => Err(wrong_length(2, "struct StartMessage with 8 elements"@)),
                Ok(Some(role)) => match given_text(seat(items, 3, "model"@), "model"@) {
                    Err(message) => Err(message),
                    Ok(None) => Err(wrong_length(3, "struct StartMessage with 8 elements"@)),
                    Ok(Some(model)) => match given_content(seat(items, 4, "content"@)) {
                        Err(message) => Err(message),
                        Ok(None) => Err(wrong_length(4, "struct StartMessage with 8 elements"@)),
                        Ok(Some(content)) => match member(seat(items, 5, "stop_reason"@), "stop_reason"@) {
                            None => Err(wrong_length(5, "struct StartMessage with 8 elements"@)),
                            Some(stop_reason) => match member(seat(items, 6, "stop_sequence"@), "stop_sequence"@) {
                                None => Err(wrong_length(6, "struct StartMessage with 8 elements"@)),
                                Some(stop_sequence) => match given_usage(seat(items, 7, "usage"@)) {
                                    Err(message) => Err(message),
                                    Ok(None) => Err(wrong_length(7, "struct StartMessage with 8 elements"@)),
                                    Ok(Some(usage)) => filled(
                                        StartMessageModel {
                                            id,
                                            kind,
                                            role,
                                            model,
                                            content,
                                            stop_reason,
                                            stop_sequence,
                                            usage,
                                        },
                                        items.len(),
                                        8,
                                        Source::Buffer,
                                    ),
                                },
                            },
                        },
                    },
                },
            },
        },
    }
}

fn read_seated_start_message(items: &Vec<Json>) -> (read: Result<StartMessage, String>)
    ensures
        outcome(read) == seated_start_message(items.deep_view()),
{
    let json = take_seat(items, 0, "id");
    let id = match read_given_text(&json, "id") {
        Err(message) => {
            return Err(message);
        },
        Ok(None) => {
            return Err(length_error(0, "struct StartMessage with 8 elements"));
        },
        Ok(Some(value)) => value,
    };
    let json = take_seat(items, 1, "type");
    let kind = match read_given_text(&json, "type") {
        Err(message) => {
            return Err(message);
        },
        Ok(None) => {
            return Err(length_error(1, "struct StartMessage with 8 elements"));
        },
        Ok(Some(value)) => value,
    };
    let json = take_seat(items, 2, "role");
    let role = match read_given_text(&json, "role") {
        Err(message) => {
            return Err(message);
        },
        Ok(None) => {
            return Err(length_error(2, "struct StartMessage with 8 elements"));
        },
        Ok(Some(value)) => value,
    };
    let json = take_seat(items, 3, "model");
    let model = match read_given_text(&json, "model") {
        Err(message) => {
            return Err(message);
        },
        Ok(None) => {
            return Err(length_error(3, "struct StartMessage with 8 elements"));
        },
        Ok(Some(value)) => value,
    };
    let json = take_seat(items, 4, "content");
    let content = match read_given_content(&json) {
        Err(message) => {
            return Err(message);
        },
        Ok(None) => {
            return Err(length_error(4, "struct StartMessage with 8 elements"));
        },
        Ok(Some(value)) => value,
    };
    let json = take_seat(items, 5, "stop_reason");
    let stop_reason = match json.get("stop_reason") {
        None => {
            return Err(length_error(5, "struct StartMessage with 8 elements"));
        },
        Some(value) => value.duplicate(),
    };
    let json = take_seat(items, 6, "stop_sequence");
    let stop_sequence = match json.get("stop_sequence") {
        None => {
            return Err(length_error(6, "struct StartMessage with 8 elements"));
        },
        Some(value) => value.duplicate(),
    };
    let json = take_seat(items, 7, "usage");
    let usage = match read_given_usage(&json) {
        Err(message) => {
            return Err(message);
        },
        Ok(None) => {
            return Err(length_error(7, "struct StartMessage with 8 elements"));
        },
        Ok(Some(value)) => value,
    };
    fill(
        StartMessage { id, kind, role, model, content, stop_reason, stop_sequence, usage },
        items.len(),
        8,
        Source::Buffer,
    )
}

fn read_given_content(json: &Json) -> (content: Result<Option<Vec<Json>>, String>)
    ensures
        outcome(content) == given_content(json.deep_view()),
{
    broadcast use lemma_array_model;
    match json.get("content") {
        None => Ok(None),
        Some(Json::Array(items)) => Ok(Some(items.duplicate())),
        Some(value) => Err(type_error(value, "a sequence")),
    }
}

/// The message that a value starts a stream with.
pub open spec fn start_message_of(json: JsonModel) -> Result<StartMessageModel, Seq<char>> {
    match json {
        JsonModel::Array(items) => seated_start_message(items),
        _ => match not_object(json, "struct StartMessage"@) {
            Some(message) => Err(message),
            None => match given_content(json) {
                Err(message) => Err(message),
                Ok(content) => match given_text(json, "id"@) {
                    Err(message) => Err(message),
                    Ok(id) => match given_text(json, "model"@) {
                        Err(message) => Err(message),
                        Ok(model) => match given_text(json, "role"@) {
                            Err(message) => Err(message),
                            Ok(role) => match given_text(json, "type"@) {
                                Err(message) => Err(message),
                                Ok(kind) => match given_usage(json) {
                                    Err(message) => Err(message),
                                    Ok(usage) => if id is None {
                                        Err(missing("id"@))
                                    } else if kind is None {
                                        Err(missing("type"@))
                                    } else if role is None {
                                        Err(missing("role"@))
                                    } else if model is None {
                                        Err(missing("model"@))
                                    } else if content is None {
                                        Err(missing("content"@))
                                    } else if member(json, "stop_reason"@) is None {
                                        Err(missing("stop_reason"@))
                                    } else if member(json, "stop_sequence"@) is None {
                                        Err(missing("stop_sequence"@))
                                    } else if usage is None {
                                        Err(missing("usage"@))
                                    } else {
                                        Ok(
                                            StartMessageModel {
                                                id: id->0,
                                                kind: kind->0,
                                                role: role->0,
                                                model: model->0,
                                                content: content->0,
                                                stop_reason: member(json, "stop_reason"@)->0,
                                                stop_sequence: member(json, "stop_sequence"@)->0,
                                                usage: usage->0,
                                            },
                                        )
                                    },
                                },
                            },
                        },
                    },
                },
            },
        },
    }
}

fn read_given_usage(json: &Json) -> (usage: Result<Option<Usage>, String>)
    ensures
        outcome(usage) == given_usage(json.deep_view()),
{
    match json.get("usage") {
        None => Ok(None),
        Some(value) => match read_usage(value) {
            Ok(usage) => Ok(Some(usage)),
            Err(message) => Err(message),
        },
    }
}

fn read_start_message(json: &Json) -> (message: Result<StartMessage, String>)
    ensures
        outcome(message) == start_message_of(json.deep_view()),
{
    broadcast use lemma_array_model;
    if let Json::Array(items) = json {
        return read_seated_start_message(items);
    }
    if let Some(message) = object_error(json, "struct StartMessage") {
        return Err(message);
    }
    let content = match read_given_content(json) {
        Ok(items) => items,
        Err(message) => {
            return Err(message);
        },
    };
    let id = match read_given_text(json, "id") {
        Ok(text) => text,
        Err(message) => {
            return Err(message);
        },
    };
    let model = match read_given_text(json, "model") {
        Ok(text) => text,
        Err(message) => {
            return Err(message);
        },
    };
    let role = match read_given_text(json, "role") {
        Ok(text) => text,
        Err(message) => {
            return Err(message);
        },
    };
    let kind = match read_given_text(json, "type") {
        Ok(text) => text,
        Err(message) => {
            return Err(message);
        },
    };
    let usage = match read_given_usage(json) {
        Ok(usage) => usage,
        Err(message) => {
            return Err(message);
        },
    };
    let id = match id {
        None => {
            return Err(missing_field("id"));
        },
        Some(text) => text,
    };
    let kind = match kind {
        None => {
            return Err(missing_field("type"));
        },
        Some(text) => text,
    };
    let role = match role {
        None => {
            return Err(missing_field("role"));
        },
        Some(text) => text,
    };
    let model = match model {
        None => {
            return Err(missing_field("model"));
        },
        Some(text) => text,
    };
    let content = match content {
        None => {
            return Err(missing_field("content"));
        },
        Some(items) => items,
    };
    let stop_reason = match json.get("stop_reason") {
        None => {
            return Err(missing_field("stop_reason"));
        },
        Some(value) => value.duplicate(),
    };
    let stop_sequence = match json.get("stop_sequence") {
        None => {
            return Err(missing_field("stop_sequence"));
        },
        Some(value) => value.duplicate(),
    };
    match usage {
        None => Err(missing_field("usage")),
        Some(usage) => Ok(StartMessage { id, kind, role, model, content, stop_reason, stop_sequence, usage }),
    }
}

// ---- blocks and deltas ----

/// The name of a block that has a number.
pub open spec fn block_numbered(number: u64) -> Option<Seq<char>> {
    if number == 0 {
        Some("text"@)
    } else if number == 1 {
        Some("thinking"@)
    } else if number == 2 {
        Some("redacted_thinking"@)
    } else if number == 3 {
        Some("tool_use"@)
    } else {
        None
    }
}

fn name_block(number: u64) -> (name: Option<&'static str>)
    ensures
        match name {
            Some(name) => block_numbered(number) == Some(name@),
            None => block_numbered(number) is None,
        },
{
    if number == 0 {
        Some("text")
    } else if number == 1 {
        Some("thinking")
    } else if number == 2 {
        Some("redacted_thinking")
    } else if number == 3 {
        Some("tool_use")
    } else {
        None
    }
}

/// The tag of a block, by its name or by its number.
pub open spec fn block_tag(json: JsonModel) -> Result<Seq<char>, Seq<char>> {
    match tag_value(json, "internally tagged enum StartBlock"@) {
        Err(message) => Err(message),
        Ok(JsonModel::Text(tag)) => Ok(tag),
        Ok(JsonModel::Number(JsonNumberModel::Unsigned(number))) => match block_numbered(number) {
            Some(tag) => Ok(tag),
            None => Err(unknown_number(number, "0 <= i < 4"@)),
        },
        Ok(value) => Err(wrong_type(value, "variant identifier"@)),
    }
}

fn read_block_tag(json: &Json) -> (tag: Result<String, String>)
    ensures
        outcome(tag) == block_tag(json.deep_view()),
{
    match read_tag_value(json, "internally tagged enum StartBlock") {
        Err(message) => Err(message),
        Ok(Json::Text(tag)) => Ok(tag),
        Ok(Json::Number(JsonNumber::Unsigned(number))) => match name_block(number) {
            Some(tag) => Ok(tag.to_owned()),
            None => Err(number_error(number, "0 <= i < 4")),
        },
        Ok(value) => Err(type_error(&value, "variant identifier")),
    }
}

/// The block that an array holds by position.
pub open spec fn seated_text_block(items: Seq<JsonModel>) -> Result<StartBlockModel, Seq<char>> {
    match given_text(seat(items, 1, "text"@), "text"@) {
        Err(message) => Err(message),
        Ok(None) => Err(wrong_length(0, "struct variant StartBlock::Text with 1 element"@)),
        Ok(Some(text)) => filled(StartBlockModel::Text { text }, (items.len() - 1) as nat, 1, Source::Buffer),
    }
}

fn read_seated_text_block(items: &Vec<Json>) -> (read: Result<StartBlock, String>)
    requires
        items.len() > 0,
    ensures
        outcome(read) == seated_text_block(items.deep_view()),
{
    let json = take_seat(items, 1, "text");
    let text = match read_given_text(&json, "text") {
        Err(message) => {
            return Err(message);
        },
        Ok(None) => {
            return Err(length_error(0, "struct variant StartBlock::Text with 1 element"));
        },
        Ok(Some(value)) => value,
    };
    fill(StartBlock::Text { text }, items.len() - 1, 1, Source::Buffer)
}

/// The block that an array holds by position.
pub open spec fn seated_thinking_block(items: Seq<JsonModel>) -> Result<StartBlockModel, Seq<char>> {
    match given_text(seat(items, 1, "thinking"@), "thinking"@) {
        Err(message) => Err(message),
        Ok(None) => Err(wrong_length(0, "struct variant StartBlock::Thinking with 1 element"@)),
        Ok(Some(thinking)) => filled(
            StartBlockModel::Thinking { thinking },
            (items.len() - 1) as nat,
            1,
            Source::Buffer,
        ),
    }
}

fn read_seated_thinking_block(items: &Vec<Json>) -> (read: Result<StartBlock, String>)
    requires
        items.len() > 0,
    ensures
        outcome(read) == seated_thinking_block(items.deep_view()),
{
    let json = take_seat(items, 1, "thinking");
    let thinking = match read_given_text(&json, "thinking") {
        Err(message) => {
            return Err(message);
        },
        Ok(None) => {
            return Err(length_error(0, "struct variant StartBlock::Thinking with 1 element"));
        },
        Ok(Some(value)) => value,
    };
    fill(StartBlock::Thinking { thinking }, items.len() - 1, 1, Source::Buffer)
}

/// The block that an array holds by position.
pub open spec fn seated_redacted_block(items: Seq<JsonModel>) -> Result<StartBlockModel, Seq<char>> {
    match given_text(seat(items, 1, "data"@), "data"@) {
        Err(message) => Err(message),
        Ok(None) => Err(wrong_length(0, "struct variant StartBlock::RedactedThinking with 1 element"@)),
        Ok(Some(data)) => filled(
            StartBlockModel::RedactedThinking { data },
            (items.len() - 1) as nat,
            1,
            Source::Buffer,
        ),
    }
}

fn read_seated_redacted_block(items: &Vec<Json>) -> (read: Result<StartBlock, String>)
    requires
        items.len() > 0,
    ensures
        outcome(read) == seated_redacted_block(items.deep_view()),
{
    let json = take_seat(items, 1, "data");
    let data = match read_given_text(&json, "data") {
        Err(message) => {
            return Err(message);
        },
        Ok(None) => {
            return Err(length_error(0, "struct variant StartBlock::RedactedThinking with 1 element"));
        },
        Ok(Some(value)) => value,
    };
    fill(StartBlock::RedactedThinking { data }, items.len() - 1, 1, Source::Buffer)
}

/// The block that an array holds by position.
pub open spec fn seated_tool_block(items: Seq<JsonModel>) -> Result<StartBlockModel, Seq<char>> {
    match given_text(seat(items, 1, "id"@), "id"@) {
        Err(message) => Err(message),
        Ok(None) => Err(wrong_length(0, "struct variant StartBlock::ToolUse with 3 elements"@)),
        Ok(Some(id)) => match given_text(seat(items, 2, "name"@), "name"@) {
            Err(message) => Err(message),
            Ok(None) => Err(wrong_length(1, "struct variant StartBlock::ToolUse with 3 elements"@)),
            Ok(Some(name)) => match member(seat(items, 3, "input"@), "input"@) {
                None => Err(wrong_length(2, "struct variant StartBlock::ToolUse with 3 elements"@)),
                Some(input) => filled(
                    StartBlockModel::ToolUse { id, name, input },
                    (items.len() - 1) as nat,
                    3,
                    Source::Buffer,
                ),
            },
        },
    }
}

fn read_seated_tool_block(items: &Vec<Json>) -> (read: Result<StartBlock, String>)
    requires
        items.len() > 0,
    ensures
        outcome(read) == seated_tool_block(items.deep_view()),
{
    let json = take_seat(items, 1, "id");
    let id = match read_given_text(&json, "id") {
        Err(message) => {
            return Err(message);
        },
        Ok(None) => {
            return Err(length_error(0, "struct variant StartBlock::ToolUse with 3 elements"));
        },
        Ok(Some(value)) => value,
    };
    let json = take_seat(items, 2, "name");
    let name = match read_given_text(&json, "name") {
        Err(message) => {
            return Err(message);
        },
        Ok(None) => {
            return Err(length_error(1, "struct variant StartBlock::ToolUse with 3 elements"));
        },
        Ok(Some(value)) => value,
    };
    let json = take_seat(items, 3, "input");
    let input = match json.get("input") {
        None => {
            return Err(length_error(2, "struct variant StartBlock::ToolUse with 3 elements"));
        },
        Some(value) => value.duplicate(),
    };
    fill(StartBlock::ToolUse { id, name, input }, items.len() - 1, 3, Source::Buffer)
}

/// The block that a value starts.
pub open spec fn start_block_of(json: JsonModel) -> Result<StartBlockModel, Seq<char>> {
    match block_tag(json) {
        Err(message) => Err(message),
        Ok(tag) => if tag == "text"@ {
            match json {
                JsonModel::Array(items) => seated_text_block(items),
                _ => match one_text(json, "text"@) {
                        Ok(text) => Ok(StartBlockModel::Text { text }),
                        Err(message) => Err(message),
                    },
            }
        } else if tag == "thinking"@ {
            match json {
                JsonModel::Array(items) => seated_thinking_block(items),
                _ => match one_text(json, "thinking"@) {
                        Ok(thinking) => Ok(StartBlockModel::Thinking { thinking }),
                        Err(message) => Err(message),
                    },
            }
        } else if tag == "redacted_thinking"@ {
            match json {
                JsonModel::Array(items) => seated_redacted_block(items),
                _ => match one_text(json, "data"@) {
                        Ok(data) => Ok(StartBlockModel::RedactedThinking { data }),
                        Err(message) => Err(message),
                    },
            }
        } else if tag == "tool_use"@ {
            match json {
                JsonModel::Array(items) => seated_tool_block(items),
                _ => match both_texts(json, "id"@, "name"@, false) {
                        Err(message) => Err(message),
                        Ok((id, name)) => match member(json, "input"@) {
                            None => Err(missing("input"@)),
                            Some(input) => Ok(StartBlockModel::ToolUse { id, name, input }),
                        },
                    },
            }
        } else {
            Err(unknown_variant(tag, BLOCK_NAMES@))
        },
    }
}

fn read_start_block(json: &Json) -> (block: Result<StartBlock, String>)
    ensures
        outcome(block) == start_block_of(json.deep_view()),
{
    broadcast use lemma_array_model;
    let tag = match read_block_tag(json) {
        Err(message) => {
            return Err(message);
        },
        Ok(tag) => tag,
    };
    if *tag.as_str() == *"text" {
        if let Json::Array(items) = json {
            return read_seated_text_block(items);
        }
        match read_one_text(json, "text") {
            Ok(text) => Ok(StartBlock::Text { text }),
            Err(message) => Err(message),
        }
    } else if *tag.as_str() == *"thinking" {
        if let Json::Array(items) = json {
            return read_seated_thinking_block(items);
        }
        match read_one_text(json, "thinking") {
            Ok(thinking) => Ok(StartBlock::Thinking { thinking }),
            Err(message) => Err(message),
        }
    } else if *tag.as_str() == *"redacted_thinking" {
        if let Json::Array(items) = json {
            return read_seated_redacted_block(items);
        }
        match read_one_text(json, "data") {
            Ok(data) => Ok(StartBlock::RedactedThinking { data }),
            Err(message) => Err(message),
        }
    } else if *tag.as_str() == *"tool_use" {
        if let Json::Array(items) = json {
            return read_seated_tool_block(items);
        }
        match read_both_texts(json, "id", "name", false) {
            Err(message) => Err(message),
            Ok(texts) => match json.get("input") {
                None => Err(missing_field("input")),
                Some(input) => Ok(StartBlock::ToolUse { id: texts.0, name: texts.1, input: input.duplicate() }),
            },
        }
    } else {
        Err(variant_error(&tag, BLOCK_NAMES))
    }
}

/// The name of a delta that has a number.
pub open spec fn delta_numbered(number: u64) -> Option<Seq<char>> {
    if number == 0 {
        Some("text_delta"@)
    } else if number == 1 {
        Some("thinking_delta"@)
    } else if number == 2 {
        Some("signature_delta"@)
    } else if number == 3 {
        Some("input_json_delta"@)
    } else {
        None
    }
}

fn name_delta(number: u64) -> (name: Option<&'static str>)
    ensures
        match name {
            Some(name) => delta_numbered(number) == Some(name@),
            None => delta_numbered(number) is None,
        },
{
    if number == 0 {
        Some("text_delta")
    } else if number == 1 {
        Some("thinking_delta")
    } else if number == 2 {
        Some("signature_delta")
    } else if number == 3 {
        Some("input_json_delta")
    } else {
        None
    }
}

/// The tag of a delta, by its name or by its number.
pub open spec fn delta_tag(json: JsonModel) -> Result<Seq<char>, Seq<char>> {
    match tag_value(json, "internally tagged enum Delta"@) {
        Err(message) => Err(message),
        Ok(JsonModel::Text(tag)) => Ok(tag),
        Ok(JsonModel::Number(JsonNumberModel::Unsigned(number))) => match delta_numbered(number) {
            Some(tag) => Ok(tag),
            None => Err(unknown_number(number, "0 <= i < 4"@)),
        },
        Ok(value) => Err(wrong_type(value, "variant identifier"@)),
    }
}

fn read_delta_tag(json: &Json) -> (tag: Result<String, String>)
    ensures
        outcome(tag) == delta_tag(json.deep_view()),
{
    match read_tag_value(json, "internally tagged enum Delta") {
        Err(message) => Err(message),
        Ok(Json::Text(tag)) => Ok(tag),
        Ok(Json::Number(JsonNumber::Unsigned(number))) => match name_delta(number) {
            Some(tag) => Ok(tag.to_owned()),
            None => Err(number_error(number, "0 <= i < 4")),
        },
        Ok(value) => Err(type_error(&value, "variant identifier")),
    }
}

/// The delta that an array holds by position.
pub open spec fn seated_text_delta(items: Seq<JsonModel>) -> Result<DeltaModel, Seq<char>> {
    match given_text(seat(items, 1, "text"@), "text"@) {
        Err(message) => Err(message),
        Ok(None) => Err(wrong_length(0, "struct variant Delta::Text with 1 element"@)),
        Ok(Some(text)) => filled(DeltaModel::Text { text }, (items.len() - 1) as nat, 1, Source::Buffer),
    }
}

fn read_seated_text_delta(items: &Vec<Json>) -> (read: Result<Delta, String>)
    requires
        items.len() > 0,
    ensures
        outcome(read) == seated_text_delta(items.deep_view()),
{
    let json = take_seat(items, 1, "text");
    let text = match read_given_text(&json, "text") {
        Err(message) => {
            return Err(message);
        },
        Ok(None) => {
            return Err(length_error(0, "struct variant Delta::Text with 1 element"));
        },
        Ok(Some(value)) => value,
    };
    fill(Delta::Text { text }, items.len() - 1, 1, Source::Buffer)
}

/// The delta that an array holds by position.
pub open spec fn seated_thinking_delta(items: Seq<JsonModel>) -> Result<DeltaModel, Seq<char>> {
    match given_text(seat(items, 1, "thinking"@), "thinking"@) {
        Err(message) => Err(message),
        Ok(None) => Err(wrong_length(0, "struct variant Delta::Thinking with 1 element"@)),
        Ok(Some(thinking)) => filled(DeltaModel::Thinking { thinking }, (items.len() - 1) as nat, 1, Source::Buffer),
    }
}

fn read_seated_thinking_delta(items: &Vec<Json>) -> (read: Result<Delta, String>)
    requires
        items.len() > 0,
    ensures
        outcome(read) == seated_thinking_delta(items.deep_view()),
{
    let json = take_seat(items, 1, "thinking");
    let thinking = match read_given_text(&json, "thinking") {
        Err(message) => {
            return Err(message);
        },
        Ok(None) => {
            return Err(length_error(0, "struct variant Delta::Thinking with 1 element"));
        },
        Ok(Some(value)) => value,
    };
    fill(Delta::Thinking { thinking }, items.len() - 1, 1, Source::Buffer)
}

/// The delta that an array holds by position.
pub open spec fn seated_signature_delta(items: Seq<JsonModel>) -> Result<DeltaModel, Seq<char>> {
    match given_text(seat(items, 1, "signature"@), "signature"@) {
        Err(message) => Err(message),
        Ok(None) => Err(wrong_length(0, "struct variant Delta::Signature with 1 element"@)),
        Ok(Some(signature)) => filled(DeltaModel::Signature { signature }, (items.len() - 1) as nat, 1, Source::Buffer),
    }
}

fn read_seated_signature_delta(items: &Vec<Json>) -> (read: Result<Delta, String>)
    requires
        items.len() > 0,
    ensures
        outcome(read) == seated_signature_delta(items.deep_view()),
{
    let json = take_seat(items, 1, "signature");
    let signature = match read_given_text(&json, "signature") {
        Err(message) => {
            return Err(message);
        },
        Ok(None) => {
            return Err(length_error(0, "struct variant Delta::Signature with 1 element"));
        },
        Ok(Some(value)) => value,
    };
    fill(Delta::Signature { signature }, items.len() - 1, 1, Source::Buffer)
}

/// The delta that an array holds by position.
pub open spec fn seated_input_delta(items: Seq<JsonModel>) -> Result<DeltaModel, Seq<char>> {
    match given_text(seat(items, 1, "partial_json"@), "partial_json"@) {
        Err(message) => Err(message),
        Ok(None) => Err(wrong_length(0, "struct variant Delta::InputJson with 1 element"@)),
        Ok(Some(partial_json)) => filled(
            DeltaModel::InputJson { partial_json },
            (items.len() - 1) as nat,
            1,
            Source::Buffer,
        ),
    }
}

fn read_seated_input_delta(items: &Vec<Json>) -> (read: Result<Delta, String>)
    requires
        items.len() > 0,
    ensures
        outcome(read) == seated_input_delta(items.deep_view()),
{
    let json = take_seat(items, 1, "partial_json");
    let partial_json = match read_given_text(&json, "partial_json") {
        Err(message) => {
            return Err(message);
        },
        Ok(None) => {
            return Err(length_error(0, "struct variant Delta::InputJson with 1 element"));
        },
        Ok(Some(value)) => value,
    };
    fill(Delta::InputJson { partial_json }, items.len() - 1, 1, Source::Buffer)
}

/// What a value adds to a block.
pub open spec fn delta_of(json: JsonModel) -> Result<DeltaModel, Seq<char>> {
    match delta_tag(json) {
        Err(message) => Err(message),
        Ok(tag) => if tag == "text_delta"@ {
            match json {
                JsonModel::Array(items) => seated_text_delta(items),
                _ => match one_text(json, "text"@) {
                        Ok(text) => Ok(DeltaModel::Text { text }),
                        Err(message) => Err(message),
                    },
            }
        } else if tag == "thinking_delta"@ {
            match json {
                JsonModel::Array(items) => seated_thinking_delta(items),
                _ => match one_text(json, "thinking"@) {
                        Ok(thinking) => Ok(DeltaModel::Thinking { thinking }),
                        Err(message) => Err(message),
                    },
            }
        } else if tag == "signature_delta"@ {
            match json {
                JsonModel::Array(items) => seated_signature_delta(items),
                _ => match one_text(json, "signature"@) {
                        Ok(signature) => Ok(DeltaModel::Signature { signature }),
                        Err(message) => Err(message),
                    },
            }
        } else if tag == "input_json_delta"@ {
            match json {
                JsonModel::Array(items) => seated_input_delta(items),
                _ => match one_text(json, "partial_json"@) {
                        Ok(partial_json) => Ok(DeltaModel::InputJson { partial_json }),
                        Err(message) => Err(message),
                    },
            }
        } else {
            Err(unknown_variant(tag, DELTA_NAMES@))
        },
    }
}

fn read_delta(json: &Json) -> (delta: Result<Delta, String>)
    ensures
        outcome(delta) == delta_of(json.deep_view()),
{
    broadcast use lemma_array_model;
    let tag = match read_delta_tag(json) {
        Err(message) => {
            return Err(message);
        },
        Ok(tag) => tag,
    };
    if *tag.as_str() == *"text_delta" {
        if let Json::Array(items) = json {
            return read_seated_text_delta(items);
        }
        match read_one_text(json, "text") {
            Ok(text) => Ok(Delta::Text { text }),
            Err(message) => Err(message),
        }
    } else if *tag.as_str() == *"thinking_delta" {
        if let Json::Array(items) = json {
            return read_seated_thinking_delta(items);
        }
        match read_one_text(json, "thinking") {
            Ok(thinking) => Ok(Delta::Thinking { thinking }),
            Err(message) => Err(message),
        }
    } else if *tag.as_str() == *"signature_delta" {
        if let Json::Array(items) = json {
            return read_seated_signature_delta(items);
        }
        match read_one_text(json, "signature") {
            Ok(signature) => Ok(Delta::Signature { signature }),
            Err(message) => Err(message),
        }
    } else if *tag.as_str() == *"input_json_delta" {
        if let Json::Array(items) = json {
            return read_seated_input_delta(items);
        }
        match read_one_text(json, "partial_json") {
            Ok(partial_json) => Ok(Delta::InputJson { partial_json }),
            Err(message) => Err(message),
        }
    } else {
        Err(variant_error(&tag, DELTA_NAMES))
    }
}

// ---- events ----

/// The stop reason that an array holds by position.
pub open spec fn seated_stop_reason(items: Seq<JsonModel>) -> Result<Option<Seq<char>>, Seq<char>> {
    match optional_text(seat(items, 0, "stop_reason"@), "stop_reason"@) {
        Err(message) => Err(message),
        Ok(reason) => filled(reason, items.len(), 1, Source::Buffer),
    }
}

fn read_seated_stop_reason(items: &Vec<Json>) -> (read: Result<Option<String>, String>)
    ensures
        outcome(read) == seated_stop_reason(items.deep_view()),
{
    let json = take_seat(items, 0, "stop_reason");
    let reason = match read_optional_text(&json, "stop_reason") {
        Err(message) => {
            return Err(message);
        },
        Ok(value) => value,
    };
    fill(reason, items.len(), 1, Source::Buffer)
}

/// The stop reason in a value, where there is one that is not null.
pub open spec fn stop_reason_of(json: JsonModel) -> Result<Option<Seq<char>>, Seq<char>> {
    match json {
        JsonModel::Array(items) => seated_stop_reason(items),
        _ => match not_object(json, "struct MessageDeltaFields"@) {
            Some(message) => Err(message),
            None => optional_text(json, "stop_reason"@),
        },
    }
}

fn read_stop_reason(json: &Json) -> (reason: Result<Option<String>, String>)
    ensures
        outcome(reason) == stop_reason_of(json.deep_view()),
{
    broadcast use lemma_array_model;
    if let Json::Array(items) = json {
        return read_seated_stop_reason(items);
    }
    if let Some(message) = object_error(json, "struct MessageDeltaFields") {
        return Err(message);
    }
    read_optional_text(json, "stop_reason")
}

/// The tokens at the end of a response that an array holds by position.
pub open spec fn seated_delta_usage(items: Seq<JsonModel>) -> Result<DeltaUsage, Seq<char>> {
    match given_whole(seat(items, 0, "output_tokens"@), "output_tokens"@, u64::MAX, "u64"@) {
        Err(message) => Err(message),
        Ok(None) => Err(wrong_length(0, "struct DeltaUsage with 2 elements"@)),
        Ok(Some(output_tokens)) => match optional_whole(seat(items, 1, "thinking_tokens"@), "thinking_tokens"@) {
            Err(message) => Err(message),
            Ok(thinking_tokens) => filled(
                DeltaUsage { output_tokens, thinking_tokens },
                items.len(),
                2,
                Source::Buffer,
            ),
        },
    }
}

fn read_seated_delta_usage(items: &Vec<Json>) -> (read: Result<DeltaUsage, String>)
    ensures
        outcome(read) == seated_delta_usage(items.deep_view()),
{
    let json = take_seat(items, 0, "output_tokens");
    let output_tokens = match read_given_whole(&json, "output_tokens", u64::MAX, "u64") {
        Err(message) => {
            return Err(message);
        },
        Ok(None) => {
            return Err(length_error(0, "struct DeltaUsage with 2 elements"));
        },
        Ok(Some(value)) => value,
    };
    let json = take_seat(items, 1, "thinking_tokens");
    let thinking_tokens = match read_optional_whole(&json, "thinking_tokens") {
        Err(message) => {
            return Err(message);
        },
        Ok(value) => value,
    };
    fill(DeltaUsage { output_tokens, thinking_tokens }, items.len(), 2, Source::Buffer)
}

/// The tokens at the end of a response that a value reports.
pub open spec fn delta_usage_of(json: JsonModel) -> Result<DeltaUsage, Seq<char>> {
    match json {
        JsonModel::Array(items) => seated_delta_usage(items),
        _ => match not_object(json, "struct DeltaUsage"@) {
            Some(message) => Err(message),
            None => match given_whole(json, "output_tokens"@, u64::MAX, "u64"@) {
                Err(message) => Err(message),
                Ok(output) => match optional_whole(json, "thinking_tokens"@) {
                    Err(message) => Err(message),
                    Ok(thinking_tokens) => match output {
                        None => Err(missing("output_tokens"@)),
                        Some(output_tokens) => Ok(DeltaUsage { output_tokens, thinking_tokens }),
                    },
                },
            },
        },
    }
}

fn read_delta_usage(json: &Json) -> (usage: Result<DeltaUsage, String>)
    ensures
        outcome(usage) == delta_usage_of(json.deep_view()),
{
    broadcast use lemma_array_model;
    if let Json::Array(items) = json {
        return read_seated_delta_usage(items);
    }
    if let Some(message) = object_error(json, "struct DeltaUsage") {
        return Err(message);
    }
    match read_given_whole(json, "output_tokens", u64::MAX, "u64") {
        Err(message) => Err(message),
        Ok(output) => match read_optional_whole(json, "thinking_tokens") {
            Err(message) => Err(message),
            Ok(thinking_tokens) => match output {
                None => Err(missing_field("output_tokens")),
                Some(output_tokens) => Ok(DeltaUsage { output_tokens, thinking_tokens }),
            },
        },
    }
}

/// The block under `content_block`, where there is a value.
pub open spec fn given_block(json: JsonModel) -> Result<Option<StartBlockModel>, Seq<char>> {
    match member(json, "content_block"@) {
        None => Ok(None),
        Some(value) => match start_block_of(value) {
            Ok(read) => Ok(Some(read)),
            Err(message) => Err(message),
        },
    }
}

fn read_given_block(json: &Json) -> (read: Result<Option<StartBlock>, String>)
    ensures
        outcome(read) == given_block(json.deep_view()),
{
    match json.get("content_block") {
        None => Ok(None),
        Some(value) => match read_start_block(value) {
            Ok(read) => Ok(Some(read)),
            Err(message) => Err(message),
        },
    }
}

/// The delta under `delta`, where there is a value.
pub open spec fn given_delta(json: JsonModel) -> Result<Option<DeltaModel>, Seq<char>> {
    match member(json, "delta"@) {
        None => Ok(None),
        Some(value) => match delta_of(value) {
            Ok(read) => Ok(Some(read)),
            Err(message) => Err(message),
        },
    }
}

fn read_given_delta(json: &Json) -> (read: Result<Option<Delta>, String>)
    ensures
        outcome(read) == given_delta(json.deep_view()),
{
    match json.get("delta") {
        None => Ok(None),
        Some(value) => match read_delta(value) {
            Ok(read) => Ok(Some(read)),
            Err(message) => Err(message),
        },
    }
}

/// The stop reason under `delta`, where there is a value.
pub open spec fn given_stop_reason(json: JsonModel) -> Result<Option<Option<Seq<char>>>, Seq<char>> {
    match member(json, "delta"@) {
        None => Ok(None),
        Some(value) => match stop_reason_of(value) {
            Ok(read) => Ok(Some(read)),
            Err(message) => Err(message),
        },
    }
}

fn read_given_stop_reason(json: &Json) -> (read: Result<Option<Option<String>>, String>)
    ensures
        outcome(read) == given_stop_reason(json.deep_view()),
{
    match json.get("delta") {
        None => Ok(None),
        Some(value) => match read_stop_reason(value) {
            Ok(read) => Ok(Some(read)),
            Err(message) => Err(message),
        },
    }
}

/// The tokens under `usage`, where there is a value.
pub open spec fn given_delta_usage(json: JsonModel) -> Result<Option<DeltaUsage>, Seq<char>> {
    match member(json, "usage"@) {
        None => Ok(None),
        Some(value) => match delta_usage_of(value) {
            Ok(read) => Ok(Some(read)),
            Err(message) => Err(message),
        },
    }
}

fn read_given_delta_usage(json: &Json) -> (read: Result<Option<DeltaUsage>, String>)
    ensures
        outcome(read) == given_delta_usage(json.deep_view()),
{
    match json.get("usage") {
        None => Ok(None),
        Some(value) => match read_delta_usage(value) {
            Ok(read) => Ok(Some(read)),
            Err(message) => Err(message),
        },
    }
}

/// The message under `message`, where there is a value.
pub open spec fn given_start_message(json: JsonModel) -> Result<Option<StartMessageModel>, Seq<char>> {
    match member(json, "message"@) {
        None => Ok(None),
        Some(value) => match start_message_of(value) {
            Ok(read) => Ok(Some(read)),
            Err(message) => Err(message),
        },
    }
}

fn read_given_start_message(json: &Json) -> (read: Result<Option<StartMessage>, String>)
    ensures
        outcome(read) == given_start_message(json.deep_view()),
{
    match json.get("message") {
        None => Ok(None),
        Some(value) => match read_start_message(value) {
            Ok(read) => Ok(Some(read)),
            Err(message) => Err(message),
        },
    }
}

/// The start of a block that a value announces.
pub open spec fn block_start_of(json: JsonModel) -> Result<WireEventModel, Seq<char>> {
    match given_block(json) {
        Err(message) => Err(message),
        Ok(block) => match given_whole(json, "index"@, usize::MAX as u64, "usize"@) {
            Err(message) => Err(message),
            Ok(index) => match (index, block) {
                (None, _) => Err(missing("index"@)),
                (_, None) => Err(missing("content_block"@)),
                (Some(index), Some(content_block)) => Ok(
                    WireEventModel::ContentBlockStart { index: index as usize, content_block },
                ),
            },
        },
    }
}

fn read_block_start(json: &Json) -> (event: Result<WireEvent, String>)
    ensures
        outcome(event) == block_start_of(json.deep_view()),
{
    let block = match read_given_block(json) {
        Ok(block) => block,
        Err(message) => {
            return Err(message);
        },
    };
    match read_given_whole(json, "index", usize::MAX as u64, "usize") {
        Err(message) => Err(message),
        Ok(index) => match (index, block) {
            (None, _) => Err(missing_field("index")),
            (_, None) => Err(missing_field("content_block")),
            (Some(index), Some(content_block)) => Ok(
                WireEvent::ContentBlockStart { index: index as usize, content_block },
            ),
        },
    }
}

/// The growth of a block that a value announces.
pub open spec fn block_delta_of(json: JsonModel) -> Result<WireEventModel, Seq<char>> {
    match given_delta(json) {
        Err(message) => Err(message),
        Ok(delta) => match given_whole(json, "index"@, usize::MAX as u64, "usize"@) {
            Err(message) => Err(message),
            Ok(index) => match (index, delta) {
                (None, _) => Err(missing("index"@)),
                (_, None) => Err(missing("delta"@)),
                (Some(index), Some(delta)) => Ok(WireEventModel::ContentBlockDelta { index: index as usize, delta }),
            },
        },
    }
}

fn read_block_delta(json: &Json) -> (event: Result<WireEvent, String>)
    ensures
        outcome(event) == block_delta_of(json.deep_view()),
{
    let delta = match read_given_delta(json) {
        Ok(delta) => delta,
        Err(message) => {
            return Err(message);
        },
    };
    match read_given_whole(json, "index", usize::MAX as u64, "usize") {
        Err(message) => Err(message),
        Ok(index) => match (index, delta) {
            (None, _) => Err(missing_field("index")),
            (_, None) => Err(missing_field("delta")),
            (Some(index), Some(delta)) => Ok(WireEvent::ContentBlockDelta { index: index as usize, delta }),
        },
    }
}

/// The end of a response that a value announces.
pub open spec fn message_delta_of(json: JsonModel) -> Result<WireEventModel, Seq<char>> {
    match (given_stop_reason(json), given_delta_usage(json)) {
        (Err(message), _) => Err(message),
        (_, Err(message)) => Err(message),
        (Ok(None), _) => Err(missing("delta"@)),
        (_, Ok(None)) => Err(missing("usage"@)),
        (Ok(Some(stop_reason)), Ok(Some(usage))) => Ok(WireEventModel::MessageDelta { stop_reason, usage }),
    }
}

fn read_message_delta(json: &Json) -> (event: Result<WireEvent, String>)
    ensures
        outcome(event) == message_delta_of(json.deep_view()),
{
    let reason = match read_given_stop_reason(json) {
        Ok(reason) => reason,
        Err(message) => {
            return Err(message);
        },
    };
    let usage = match read_given_delta_usage(json) {
        Ok(usage) => usage,
        Err(message) => {
            return Err(message);
        },
    };
    match (reason, usage) {
        (None, _) => Err(missing_field("delta")),
        (_, None) => Err(missing_field("usage")),
        (Some(stop_reason), Some(usage)) => Ok(WireEvent::MessageDelta { stop_reason, usage }),
    }
}

/// The failure that an array holds by position.
pub open spec fn seated_failure(items: Seq<JsonModel>) -> Result<WireEventModel, Seq<char>> {
    match given_text(seat(items, 0, "type"@), "type"@) {
        Err(message) => Err(message),
        Ok(None) => Err(wrong_length(0, "struct ProviderError with 2 elements"@)),
        Ok(Some(error_type)) => match given_text(seat(items, 1, "message"@), "message"@) {
            Err(message) => Err(message),
            Ok(None) => Err(wrong_length(1, "struct ProviderError with 2 elements"@)),
            Ok(Some(message)) => filled(WireEventModel::Error { error_type, message }, items.len(), 2, Source::Buffer),
        },
    }
}

fn read_seated_failure(items: &Vec<Json>) -> (read: Result<WireEvent, String>)
    ensures
        outcome(read) == seated_failure(items.deep_view()),
{
    let json = take_seat(items, 0, "type");
    let error_type = match read_given_text(&json, "type") {
        Err(message) => {
            return Err(message);
        },
        Ok(None) => {
            return Err(length_error(0, "struct ProviderError with 2 elements"));
        },
        Ok(Some(value)) => value,
    };
    let json = take_seat(items, 1, "message");
    let message = match read_given_text(&json, "message") {
        Err(message) => {
            return Err(message);
        },
        Ok(None) => {
            return Err(length_error(1, "struct ProviderError with 2 elements"));
        },
        Ok(Some(value)) => value,
    };
    fill(WireEvent::Error { error_type, message }, items.len(), 2, Source::Buffer)
}

/// The failure that a value describes.
pub open spec fn failure_of(json: JsonModel) -> Result<WireEventModel, Seq<char>> {
    match json {
        JsonModel::Array(items) => seated_failure(items),
        _ => match not_object(json, "struct ProviderError"@) {
            Some(message) => Err(message),
            None => match both_texts(json, "type"@, "message"@, true) {
                Err(message) => Err(message),
                Ok((error_type, message)) => Ok(WireEventModel::Error { error_type, message }),
            },
        },
    }
}

fn read_failure(json: &Json) -> (event: Result<WireEvent, String>)
    ensures
        outcome(event) == failure_of(json.deep_view()),
{
    broadcast use lemma_array_model;
    if let Json::Array(items) = json {
        return read_seated_failure(items);
    }
    if let Some(message) = object_error(json, "struct ProviderError") {
        return Err(message);
    }
    match read_both_texts(json, "type", "message", true) {
        Err(message) => Err(message),
        Ok(texts) => Ok(WireEvent::Error { error_type: texts.0, message: texts.1 }),
    }
}

/// The failure under `error`, where there is a value.
pub open spec fn given_failure(json: JsonModel) -> Result<Option<WireEventModel>, Seq<char>> {
    match member(json, "error"@) {
        None => Ok(None),
        Some(value) => match failure_of(value) {
            Ok(read) => Ok(Some(read)),
            Err(message) => Err(message),
        },
    }
}

fn read_given_failure(json: &Json) -> (read: Result<Option<WireEvent>, String>)
    ensures
        outcome(read) == given_failure(json.deep_view()),
{
    match json.get("error") {
        None => Ok(None),
        Some(value) => match read_failure(value) {
            Ok(read) => Ok(Some(read)),
            Err(message) => Err(message),
        },
    }
}

/// The event that an array holds by position.
pub open spec fn seated_message_start(items: Seq<JsonModel>) -> Result<WireEventModel, Seq<char>> {
    match given_start_message(seat(items, 1, "message"@)) {
        Err(message) => Err(message),
        Ok(None) => Err(wrong_length(0, "struct variant WireEvent::MessageStart with 1 element"@)),
        Ok(Some(message)) => filled(
            WireEventModel::MessageStart { message },
            (items.len() - 1) as nat,
            1,
            Source::Buffer,
        ),
    }
}

fn read_seated_message_start(items: &Vec<Json>) -> (read: Result<WireEvent, String>)
    requires
        items.len() > 0,
    ensures
        outcome(read) == seated_message_start(items.deep_view()),
{
    let json = take_seat(items, 1, "message");
    let message = match read_given_start_message(&json) {
        Err(message) => {
            return Err(message);
        },
        Ok(None) => {
            return Err(length_error(0, "struct variant WireEvent::MessageStart with 1 element"));
        },
        Ok(Some(value)) => value,
    };
    fill(WireEvent::MessageStart { message }, items.len() - 1, 1, Source::Buffer)
}

/// The event that an array holds by position.
pub open spec fn seated_block_start(items: Seq<JsonModel>) -> Result<WireEventModel, Seq<char>> {
    match given_whole(seat(items, 1, "index"@), "index"@, usize::MAX as u64, "usize"@) {
        Err(message) => Err(message),
        Ok(None) => Err(wrong_length(0, "struct variant WireEvent::ContentBlockStart with 2 elements"@)),
        Ok(Some(index)) => match given_block(seat(items, 2, "content_block"@)) {
            Err(message) => Err(message),
            Ok(None) => Err(wrong_length(1, "struct variant WireEvent::ContentBlockStart with 2 elements"@)),
            Ok(Some(content_block)) => filled(
                WireEventModel::ContentBlockStart { index: index as usize, content_block },
                (items.len() - 1) as nat,
                2,
                Source::Buffer,
            ),
        },
    }
}

fn read_seated_block_start(items: &Vec<Json>) -> (read: Result<WireEvent, String>)
    requires
        items.len() > 0,
    ensures
        outcome(read) == seated_block_start(items.deep_view()),
{
    let json = take_seat(items, 1, "index");
    let index = match read_given_whole(&json, "index", usize::MAX as u64, "usize") {
        Err(message) => {
            return Err(message);
        },
        Ok(None) => {
            return Err(length_error(0, "struct variant WireEvent::ContentBlockStart with 2 elements"));
        },
        Ok(Some(value)) => value,
    };
    let json = take_seat(items, 2, "content_block");
    let content_block = match read_given_block(&json) {
        Err(message) => {
            return Err(message);
        },
        Ok(None) => {
            return Err(length_error(1, "struct variant WireEvent::ContentBlockStart with 2 elements"));
        },
        Ok(Some(value)) => value,
    };
    fill(WireEvent::ContentBlockStart { index: index as usize, content_block }, items.len() - 1, 2, Source::Buffer)
}

/// The event that an array holds by position.
pub open spec fn seated_block_delta(items: Seq<JsonModel>) -> Result<WireEventModel, Seq<char>> {
    match given_whole(seat(items, 1, "index"@), "index"@, usize::MAX as u64, "usize"@) {
        Err(message) => Err(message),
        Ok(None) => Err(wrong_length(0, "struct variant WireEvent::ContentBlockDelta with 2 elements"@)),
        Ok(Some(index)) => match given_delta(seat(items, 2, "delta"@)) {
            Err(message) => Err(message),
            Ok(None) => Err(wrong_length(1, "struct variant WireEvent::ContentBlockDelta with 2 elements"@)),
            Ok(Some(delta)) => filled(
                WireEventModel::ContentBlockDelta { index: index as usize, delta },
                (items.len() - 1) as nat,
                2,
                Source::Buffer,
            ),
        },
    }
}

fn read_seated_block_delta(items: &Vec<Json>) -> (read: Result<WireEvent, String>)
    requires
        items.len() > 0,
    ensures
        outcome(read) == seated_block_delta(items.deep_view()),
{
    let json = take_seat(items, 1, "index");
    let index = match read_given_whole(&json, "index", usize::MAX as u64, "usize") {
        Err(message) => {
            return Err(message);
        },
        Ok(None) => {
            return Err(length_error(0, "struct variant WireEvent::ContentBlockDelta with 2 elements"));
        },
        Ok(Some(value)) => value,
    };
    let json = take_seat(items, 2, "delta");
    let delta = match read_given_delta(&json) {
        Err(message) => {
            return Err(message);
        },
        Ok(None) => {
            return Err(length_error(1, "struct variant WireEvent::ContentBlockDelta with 2 elements"));
        },
        Ok(Some(value)) => value,
    };
    fill(WireEvent::ContentBlockDelta { index: index as usize, delta }, items.len() - 1, 2, Source::Buffer)
}

/// The event that an array holds by position.
pub open spec fn seated_block_stop(items: Seq<JsonModel>) -> Result<WireEventModel, Seq<char>> {
    match given_whole(seat(items, 1, "index"@), "index"@, usize::MAX as u64, "usize"@) {
        Err(message) => Err(message),
        Ok(None) => Err(wrong_length(0, "struct variant WireEvent::ContentBlockStop with 1 element"@)),
        Ok(Some(index)) => filled(
            WireEventModel::ContentBlockStop { index: index as usize },
            (items.len() - 1) as nat,
            1,
            Source::Buffer,
        ),
    }
}

fn read_seated_block_stop(items: &Vec<Json>) -> (read: Result<WireEvent, String>)
    requires
        items.len() > 0,
    ensures
        outcome(read) == seated_block_stop(items.deep_view()),
{
    let json = take_seat(items, 1, "index");
    let index = match read_given_whole(&json, "index", usize::MAX as u64, "usize") {
        Err(message) => {
            return Err(message);
        },
        Ok(None) => {
            return Err(length_error(0, "struct variant WireEvent::ContentBlockStop with 1 element"));
        },
        Ok(Some(value)) => value,
    };
    fill(WireEvent::ContentBlockStop { index: index as usize }, items.len() - 1, 1, Source::Buffer)
}

/// The event that an array holds by position.
pub open spec fn seated_message_delta(items: Seq<JsonModel>) -> Result<WireEventModel, Seq<char>> {
    match given_stop_reason(seat(items, 1, "delta"@)) {
        Err(message) => Err(message),
        Ok(None) => Err(wrong_length(0, "struct variant WireEvent::MessageDelta with 2 elements"@)),
        Ok(Some(stop_reason)) => match given_delta_usage(seat(items, 2, "usage"@)) {
            Err(message) => Err(message),
            Ok(None) => Err(wrong_length(1, "struct variant WireEvent::MessageDelta with 2 elements"@)),
            Ok(Some(usage)) => filled(
                WireEventModel::MessageDelta { stop_reason, usage },
                (items.len() - 1) as nat,
                2,
                Source::Buffer,
            ),
        },
    }
}

fn read_seated_message_delta(items: &Vec<Json>) -> (read: Result<WireEvent, String>)
    requires
        items.len() > 0,
    ensures
        outcome(read) == seated_message_delta(items.deep_view()),
{
    let json = take_seat(items, 1, "delta");
    let stop_reason = match read_given_stop_reason(&json) {
        Err(message) => {
            return Err(message);
        },
        Ok(None) => {
            return Err(length_error(0, "struct variant WireEvent::MessageDelta with 2 elements"));
        },
        Ok(Some(value)) => value,
    };
    let json = take_seat(items, 2, "usage");
    let usage = match read_given_delta_usage(&json) {
        Err(message) => {
            return Err(message);
        },
        Ok(None) => {
            return Err(length_error(1, "struct variant WireEvent::MessageDelta with 2 elements"));
        },
        Ok(Some(value)) => value,
    };
    fill(WireEvent::MessageDelta { stop_reason, usage }, items.len() - 1, 2, Source::Buffer)
}

/// The event that an array holds by position.
pub open spec fn seated_error(items: Seq<JsonModel>) -> Result<WireEventModel, Seq<char>> {
    match given_failure(seat(items, 1, "error"@)) {
        Err(message) => Err(message),
        Ok(None) => Err(wrong_length(0, "struct variant WireEvent::Error with 1 element"@)),
        Ok(Some(event)) => filled(event, (items.len() - 1) as nat, 1, Source::Buffer),
    }
}

fn read_seated_error(items: &Vec<Json>) -> (read: Result<WireEvent, String>)
    requires
        items.len() > 0,
    ensures
        outcome(read) == seated_error(items.deep_view()),
{
    let json = take_seat(items, 1, "error");
    let event = match read_given_failure(&json) {
        Err(message) => {
            return Err(message);
        },
        Ok(None) => {
            return Err(length_error(0, "struct variant WireEvent::Error with 1 element"));
        },
        Ok(Some(value)) => value,
    };
    fill(event, items.len() - 1, 1, Source::Buffer)
}

/// The event that a tagged array announces.
pub open spec fn seated_event(tag: Seq<char>, items: Seq<JsonModel>) -> Result<WireEventModel, Seq<char>> {
    if tag == "ping"@ {
        filled(WireEventModel::Ping, (items.len() - 1) as nat, 0, Source::Buffer)
    } else if tag == "message_start"@ {
        seated_message_start(items)
    } else if tag == "content_block_start"@ {
        seated_block_start(items)
    } else if tag == "content_block_delta"@ {
        seated_block_delta(items)
    } else if tag == "content_block_stop"@ {
        seated_block_stop(items)
    } else if tag == "message_delta"@ {
        seated_message_delta(items)
    } else if tag == "message_stop"@ {
        filled(WireEventModel::MessageStop, (items.len() - 1) as nat, 0, Source::Buffer)
    } else if tag == "error"@ {
        seated_error(items)
    } else {
        Err(unknown_variant(tag, EVENT_NAMES@))
    }
}

fn read_seated_event(tag: &str, items: &Vec<Json>) -> (event: Result<WireEvent, String>)
    requires
        items.len() > 0,
    ensures
        outcome(event) == seated_event(tag@, items.deep_view()),
{
    if *tag == *"ping" {
        fill(WireEvent::Ping, items.len() - 1, 0, Source::Buffer)
    } else if *tag == *"message_start" {
        read_seated_message_start(items)
    } else if *tag == *"content_block_start" {
        read_seated_block_start(items)
    } else if *tag == *"content_block_delta" {
        read_seated_block_delta(items)
    } else if *tag == *"content_block_stop" {
        read_seated_block_stop(items)
    } else if *tag == *"message_delta" {
        read_seated_message_delta(items)
    } else if *tag == *"message_stop" {
        fill(WireEvent::MessageStop, items.len() - 1, 0, Source::Buffer)
    } else if *tag == *"error" {
        read_seated_error(items)
    } else {
        Err(variant_error(tag, EVENT_NAMES))
    }
}

/// The event that a value announces.
pub open spec fn event_of(json: JsonModel) -> Result<WireEventModel, Seq<char>> {
    match tag_of(json, "internally tagged enum WireEvent"@) {
        Err(message) => Err(message),
        Ok(tag) => match json {
            JsonModel::Array(items) => seated_event(tag, items),
            _ => if tag == "ping"@ {
                Ok(WireEventModel::Ping)
            } else if tag == "message_start"@ {
                match given_start_message(json) {
                    Err(message) => Err(message),
                    Ok(None) => Err(missing("message"@)),
                    Ok(Some(message)) => Ok(WireEventModel::MessageStart { message }),
                }
            } else if tag == "content_block_start"@ {
                block_start_of(json)
            } else if tag == "content_block_delta"@ {
                block_delta_of(json)
            } else if tag == "content_block_stop"@ {
                match given_whole(json, "index"@, usize::MAX as u64, "usize"@) {
                    Err(message) => Err(message),
                    Ok(None) => Err(missing("index"@)),
                    Ok(Some(index)) => Ok(WireEventModel::ContentBlockStop { index: index as usize }),
                }
            } else if tag == "message_delta"@ {
                message_delta_of(json)
            } else if tag == "message_stop"@ {
                Ok(WireEventModel::MessageStop)
            } else if tag == "error"@ {
                match given_failure(json) {
                    Err(message) => Err(message),
                    Ok(None) => Err(missing("error"@)),
                    Ok(Some(event)) => Ok(event),
                }
            } else {
                Err(unknown_variant(tag, EVENT_NAMES@))
            },
        },
    }
}

impl WireEvent {
    /// The event that a value announces.
    pub fn from_json(json: &Json) -> (event: Result<WireEvent, String>)
        ensures
            outcome(event) == event_of(json.deep_view()),
    {
        broadcast use lemma_array_model;
        let tag = match read_tag(json, "internally tagged enum WireEvent") {
            Err(message) => {
                return Err(message);
            },
            Ok(tag) => tag,
        };
        if let Json::Array(items) = json {
            return read_seated_event(&tag, items);
        }
        if *tag.as_str() == *"ping" {
            Ok(WireEvent::Ping)
        } else if *tag.as_str() == *"message_start" {
            match read_given_start_message(json) {
                Err(message) => Err(message),
                Ok(None) => Err(missing_field("message")),
                Ok(Some(message)) => Ok(WireEvent::MessageStart { message }),
            }
        } else if *tag.as_str() == *"content_block_start" {
            read_block_start(json)
        } else if *tag.as_str() == *"content_block_delta" {
            read_block_delta(json)
        } else if *tag.as_str() == *"content_block_stop" {
            match read_given_whole(json, "index", usize::MAX as u64, "usize") {
                Err(message) => Err(message),
                Ok(None) => Err(missing_field("index")),
                Ok(Some(index)) => Ok(WireEvent::ContentBlockStop { index: index as usize }),
            }
        } else if *tag.as_str() == *"message_delta" {
            read_message_delta(json)
        } else if *tag.as_str() == *"message_stop" {
            Ok(WireEvent::MessageStop)
        } else if *tag.as_str() == *"error" {
            match read_given_failure(json) {
                Err(message) => Err(message),
                Ok(None) => Err(missing_field("error")),
                Ok(Some(event)) => Ok(event),
            }
        } else {
            Err(variant_error(&tag, EVENT_NAMES))
        }
    }
}

} // verus!
