//! The decoder of a streamed native response.
use crate::claude_code::names::{in_title, spell_title};
use crate::claude_code::types::{
    DecodedBlock, DecodedBlockModel, DecodedStream, DecodedStreamModel, PresentationDelta, PresentationDeltaModel,
    Usage,
};
use crate::claude_code::wire::{
    event_of, Delta, DeltaModel, DeltaUsage, StartBlock, StartBlockModel, StartMessage, StartMessageModel,
    WireEvent, WireEventModel,
};
use crate::json::{json_parse, lemma_object_model, parse_json, Json, JsonModel};
use crate::model::{append_items, no_items, outcome, push_item, Duplicate};
use crate::protocol::{TerminalOutcome, TokenUsage};
use crate::text::{
    all_lines, all_white, concat, concat3, decimal, decimal_text, join_lines, joined, only_white, quote, quoted,
    split_first, split_lines, split_once, strip_prefix, stripped, utf8_chars, utf8_text,
};
use vstd::prelude::*;
use vstd::string::*;

verus! {

/// Why a stream cannot be decoded.
#[derive(Debug, Clone, PartialEq, Eq)]
pub enum DecodeError {
    /// Nothing came.
    EmptyStream,
    /// The stream is no UTF-8.
    InvalidUtf8,
    /// The framing is broken.
    MalformedSse(String),
    /// An event that cannot be read.
    MalformedEvent {
        event: String,
        message: String,
    },
    /// An event without a meaning.
    UnknownEvent(String),
    /// The provider failed.
    ProviderError {
        error_type: String,
        message: String,
    },
    /// An event that does not follow from those before it.
    InvalidTransition {
        event: String,
        reason: String,
    },
    /// No stop reason was given.
    MissingStopReason,
    /// A stop reason without a meaning.
    UnknownStopReason(String),
    /// Input of a tool call that is no JSON.
    InvalidToolJson {
        index: usize,
        input: String,
    },
    /// The stream ended too early.
    PrematureEof {
        expected: String,
    },
    /// Thinking that cannot be carried.
    Replay(String),
}

/// The model of [`DecodeError`].
#[verifier::ext_equal]
pub enum DecodeErrorModel {
    EmptyStream,
    InvalidUtf8,
    MalformedSse(Seq<char>),
    MalformedEvent {
        event: Seq<char>,
        message: Seq<char>,
    },
    UnknownEvent(Seq<char>),
    ProviderError {
        error_type: Seq<char>,
        message: Seq<char>,
    },
    InvalidTransition {
        event: Seq<char>,
        reason: Seq<char>,
    },
    MissingStopReason,
    UnknownStopReason(Seq<char>),
    InvalidToolJson {
        index: usize,
        input: Seq<char>,
    },
    PrematureEof {
        expected: Seq<char>,
    },
    Replay(Seq<char>),
}

impl DeepView for DecodeError {
    type V = DecodeErrorModel;

    open spec fn deep_view(&self) -> DecodeErrorModel {
        match self {
            DecodeError::EmptyStream => DecodeErrorModel::EmptyStream,
            DecodeError::InvalidUtf8 => DecodeErrorModel::InvalidUtf8,
            DecodeError::MalformedSse(inner) => DecodeErrorModel::MalformedSse(inner.deep_view()),
            DecodeError::MalformedEvent { event, message } => DecodeErrorModel::MalformedEvent {
                event: event.deep_view(),
                message: message.deep_view(),
            },
            DecodeError::UnknownEvent(inner) => DecodeErrorModel::UnknownEvent(inner.deep_view()),
            DecodeError::ProviderError { error_type, message } => DecodeErrorModel::ProviderError {
                error_type: error_type.deep_view(),
                message: message.deep_view(),
            },
            DecodeError::InvalidTransition { event, reason } => DecodeErrorModel::InvalidTransition {
                event: event.deep_view(),
                reason: reason.deep_view(),
            },
            DecodeError::MissingStopReason => DecodeErrorModel::MissingStopReason,
            DecodeError::UnknownStopReason(inner) => DecodeErrorModel::UnknownStopReason(inner.deep_view()),
            DecodeError::InvalidToolJson { index, input } => DecodeErrorModel::InvalidToolJson {
                index: index.deep_view(),
                input: input.deep_view(),
            },
            DecodeError::PrematureEof { expected } => DecodeErrorModel::PrematureEof { expected: expected.deep_view() },
            DecodeError::Replay(inner) => DecodeErrorModel::Replay(inner.deep_view()),
        }
    }
}

impl Duplicate for DecodeError {
    fn duplicate(&self) -> (copy: Self) {
        match self {
            DecodeError::EmptyStream => DecodeError::EmptyStream,
            DecodeError::InvalidUtf8 => DecodeError::InvalidUtf8,
            DecodeError::MalformedSse(inner) => DecodeError::MalformedSse(inner.duplicate()),
            DecodeError::MalformedEvent { event, message } => DecodeError::MalformedEvent {
                event: event.duplicate(),
                message: message.duplicate(),
            },
            DecodeError::UnknownEvent(inner) => DecodeError::UnknownEvent(inner.duplicate()),
            DecodeError::ProviderError { error_type, message } => DecodeError::ProviderError {
                error_type: error_type.duplicate(),
                message: message.duplicate(),
            },
            DecodeError::InvalidTransition { event, reason } => DecodeError::InvalidTransition {
                event: event.duplicate(),
                reason: reason.duplicate(),
            },
            DecodeError::MissingStopReason => DecodeError::MissingStopReason,
            DecodeError::UnknownStopReason(inner) => DecodeError::UnknownStopReason(inner.duplicate()),
            DecodeError::InvalidToolJson { index, input } => DecodeError::InvalidToolJson {
                index: index.duplicate(),
                input: input.duplicate(),
            },
            DecodeError::PrematureEof { expected } => DecodeError::PrematureEof { expected: expected.duplicate() },
            DecodeError::Replay(inner) => DecodeError::Replay(inner.duplicate()),
        }
    }
}

/// A block as far as it has come.
#[derive(Debug, Clone, PartialEq, Eq)]
pub enum PendingBlock {
    /// Text.
    Text(String),
    /// Signed thinking.
    Thinking {
        thinking: String,
        signature: String,
    },
    /// Thinking that only the provider can read.
    RedactedThinking(String),
    /// A tool call.
    ToolUse {
        id: String,
        name: String,
        input: String,
    },
}

/// The model of [`PendingBlock`].
#[verifier::ext_equal]
pub enum PendingBlockModel {
    Text(Seq<char>),
    Thinking {
        thinking: Seq<char>,
        signature: Seq<char>,
    },
    RedactedThinking(Seq<char>),
    ToolUse {
        id: Seq<char>,
        name: Seq<char>,
        input: Seq<char>,
    },
}

impl DeepView for PendingBlock {
    type V = PendingBlockModel;

    open spec fn deep_view(&self) -> PendingBlockModel {
        match self {
            PendingBlock::Text(inner) => PendingBlockModel::Text(inner.deep_view()),
            PendingBlock::Thinking { thinking, signature } => PendingBlockModel::Thinking {
                thinking: thinking.deep_view(),
                signature: signature.deep_view(),
            },
            PendingBlock::RedactedThinking(inner) => PendingBlockModel::RedactedThinking(inner.deep_view()),
            PendingBlock::ToolUse { id, name, input } => PendingBlockModel::ToolUse {
                id: id.deep_view(),
                name: name.deep_view(),
                input: input.deep_view(),
            },
        }
    }
}

impl Duplicate for PendingBlock {
    fn duplicate(&self) -> (copy: Self) {
        match self {
            PendingBlock::Text(inner) => PendingBlock::Text(inner.duplicate()),
            PendingBlock::Thinking { thinking, signature } => PendingBlock::Thinking {
                thinking: thinking.duplicate(),
                signature: signature.duplicate(),
            },
            PendingBlock::RedactedThinking(inner) => PendingBlock::RedactedThinking(inner.duplicate()),
            PendingBlock::ToolUse { id, name, input } => PendingBlock::ToolUse {
                id: id.duplicate(),
                name: name.duplicate(),
                input: input.duplicate(),
            },
        }
    }
}

/// A block, and whether it has ended.
#[derive(Debug, Clone, PartialEq, Eq)]
pub struct BlockState {
    pub block: PendingBlock,
    pub stopped: bool,
}

/// The model of [`BlockState`].
#[verifier::ext_equal]
pub struct BlockStateModel {
    pub block: PendingBlockModel,
    pub stopped: bool,
}

impl DeepView for BlockState {
    type V = BlockStateModel;

    open spec fn deep_view(&self) -> BlockStateModel {
        BlockStateModel {
            block: self.block.deep_view(),
            stopped: self.stopped.deep_view(),
        }
    }
}

impl Duplicate for BlockState {
    fn duplicate(&self) -> (copy: Self) {
        BlockState {
            block: self.block.duplicate(),
            stopped: self.stopped.duplicate(),
        }
    }
}

/// A response as far as it has come.
#[derive(Debug, Clone, PartialEq, Eq)]
pub struct ResponseState {
    pub message: Option<(String, String)>,
    pub blocks: Vec<BlockState>,
    pub usage: Option<Usage>,
    pub outcome: Option<TerminalOutcome>,
    pub stopped: bool,
    pub presented: Vec<PresentationDelta>,
}

/// The model of [`ResponseState`].
#[verifier::ext_equal]
pub struct ResponseStateModel {
    pub message: Option<(Seq<char>, Seq<char>)>,
    pub blocks: Seq<BlockStateModel>,
    pub usage: Option<Usage>,
    pub outcome: Option<TerminalOutcome>,
    pub stopped: bool,
    pub presented: Seq<PresentationDeltaModel>,
}

impl DeepView for ResponseState {
    type V = ResponseStateModel;

    open spec fn deep_view(&self) -> ResponseStateModel {
        ResponseStateModel {
            message: self.message.deep_view(),
            blocks: self.blocks.deep_view(),
            usage: self.usage.deep_view(),
            outcome: self.outcome.deep_view(),
            stopped: self.stopped.deep_view(),
            presented: self.presented.deep_view(),
        }
    }
}

impl Duplicate for ResponseState {
    fn duplicate(&self) -> (copy: Self) {
        ResponseState {
            message: self.message.duplicate(),
            blocks: self.blocks.duplicate(),
            usage: self.usage.duplicate(),
            outcome: self.outcome.duplicate(),
            stopped: self.stopped.duplicate(),
            presented: self.presented.duplicate(),
        }
    }
}

/// Everything that a decoder remembers.
#[derive(Debug, Clone, PartialEq, Eq)]
pub struct Session {
    pub state: ResponseState,
    pub frame: Vec<u8>,
    pub saw_event: bool,
}

/// The model of [`Session`].
#[verifier::ext_equal]
pub struct SessionModel {
    pub state: ResponseStateModel,
    pub frame: Seq<u8>,
    pub saw_event: bool,
}

impl DeepView for Session {
    type V = SessionModel;

    open spec fn deep_view(&self) -> SessionModel {
        SessionModel {
            state: self.state.deep_view(),
            frame: self.frame.deep_view(),
            saw_event: self.saw_event.deep_view(),
        }
    }
}

impl Duplicate for Session {
    fn duplicate(&self) -> (copy: Self) {
        Session {
            state: self.state.duplicate(),
            frame: self.frame.duplicate(),
            saw_event: self.saw_event.duplicate(),
        }
    }
}

/// An event by its name and its data.
#[derive(Debug, Clone, PartialEq, Eq)]
pub struct SseEvent {
    pub event: String,
    pub data: String,
}

/// The model of [`SseEvent`].
#[verifier::ext_equal]
pub struct SseEventModel {
    pub event: Seq<char>,
    pub data: Seq<char>,
}

impl DeepView for SseEvent {
    type V = SseEventModel;

    open spec fn deep_view(&self) -> SseEventModel {
        SseEventModel {
            event: self.event.deep_view(),
            data: self.data.deep_view(),
        }
    }
}

impl Duplicate for SseEvent {
    fn duplicate(&self) -> (copy: Self) {
        SseEvent {
            event: self.event.duplicate(),
            data: self.data.duplicate(),
        }
    }
}

impl DecodeErrorModel {
    /// The message of the error.
    pub open spec fn text(self) -> Seq<char> {
        match self {
            DecodeErrorModel::EmptyStream => in_title("native "@, " stream was empty"@),
            DecodeErrorModel::InvalidUtf8 => in_title("native "@, " stream was not UTF-8"@),
            DecodeErrorModel::MalformedSse(message) => "malformed SSE framing: "@ + message,
            DecodeErrorModel::MalformedEvent { event, message } => "malformed "@ + event + " event: "@ + message,
            DecodeErrorModel::UnknownEvent(event) => in_title("unknown native "@, " event "@) + event,
            DecodeErrorModel::ProviderError { error_type, message } => in_title("native "@, " error "@) + error_type + ": "@
                + message,
            DecodeErrorModel::InvalidTransition { event, reason } => in_title("invalid native "@, " transition for "@) + event
                + ": "@ + reason,
            DecodeErrorModel::MissingStopReason => in_title("native "@, " stop reason was missing or null"@),
            DecodeErrorModel::UnknownStopReason(reason) => in_title("unknown native "@, " stop reason "@) + reason,
            DecodeErrorModel::InvalidToolJson { index, input } => "tool block "@ + decimal(index as nat)
                + " contained invalid JSON: "@ + input,
            DecodeErrorModel::PrematureEof { expected } => in_title("native "@, " stream ended before "@) + expected,
            DecodeErrorModel::Replay(message) => message,
        }
    }
}

impl DecodeError {
    /// The message of the error.
    pub fn message(&self) -> (message: String)
        ensures
            message@ == self.deep_view().text(),
    {
        match self {
            DecodeError::EmptyStream => spell_title("native ", " stream was empty"),
            DecodeError::InvalidUtf8 => spell_title("native ", " stream was not UTF-8"),
            DecodeError::MalformedSse(message) => concat("malformed SSE framing: ", message),
            DecodeError::MalformedEvent { event, message } => {
                let mut text = concat3("malformed ", event, " event: ");
                text.append(message);
                text
            },
            DecodeError::UnknownEvent(event) => concat(&spell_title("unknown native ", " event "), event),
            DecodeError::ProviderError { error_type, message } => {
                let mut text = concat3(&spell_title("native ", " error "), error_type, ": ");
                text.append(message);
                text
            },
            DecodeError::InvalidTransition { event, reason } => {
                let mut text = concat3(&spell_title("invalid native ", " transition for "), event, ": ");
                text.append(reason);
                text
            },
            DecodeError::MissingStopReason => spell_title("native ", " stop reason was missing or null"),
            DecodeError::UnknownStopReason(reason) => concat(&spell_title("unknown native ", " stop reason "), reason),
            DecodeError::InvalidToolJson { index, input } => {
                let mut text = concat3("tool block ", &decimal_text(*index as u64), " contained invalid JSON: ");
                text.append(input);
                text
            },
            DecodeError::PrematureEof { expected } => concat(&spell_title("native ", " stream ended before "), expected),
            DecodeError::Replay(message) => message.duplicate(),
        }
    }
}

/// A response after a step, and whether the step went through.
pub type Step = (ResponseStateModel, Result<(), DecodeErrorModel>);

/// The error for an event that does not follow from those before it.
pub open spec fn transition(event: Seq<char>, reason: Seq<char>) -> DecodeErrorModel {
    DecodeErrorModel::InvalidTransition { event, reason }
}

fn transition_error(event: &str, reason: &str) -> (error: DecodeError)
    ensures
        error.deep_view() == transition(event@, reason@),
{
    DecodeError::InvalidTransition { event: event.to_owned(), reason: reason.to_owned() }
}

// ---- usage and outcome ----

/// How a response ended that gave this stop reason.
pub open spec fn outcome_of(reason: Seq<char>) -> Result<TerminalOutcome, DecodeErrorModel> {
    if reason == "end_turn"@ || reason == "stop_sequence"@ {
        Ok(TerminalOutcome::Completed)
    } else if reason == "tool_use"@ {
        Ok(TerminalOutcome::ToolsReady)
    } else if reason == "pause_turn"@ {
        Ok(TerminalOutcome::Continue)
    } else if reason == "max_tokens"@ {
        Ok(TerminalOutcome::OutputExhausted)
    } else if reason == "refusal"@ || reason == "safety"@ {
        Ok(TerminalOutcome::Refusal)
    } else {
        Err(DecodeErrorModel::UnknownStopReason(reason))
    }
}

/// How a response ended that gave this stop reason.
pub fn map_stop_reason(reason: &str) -> (end: Result<TerminalOutcome, DecodeError>)
    ensures
        outcome(end) == outcome_of(reason@),
{
    if *reason == *"end_turn" || *reason == *"stop_sequence" {
        Ok(TerminalOutcome::Completed)
    } else if *reason == *"tool_use" {
        Ok(TerminalOutcome::ToolsReady)
    } else if *reason == *"pause_turn" {
        Ok(TerminalOutcome::Continue)
    } else if *reason == *"max_tokens" {
        Ok(TerminalOutcome::OutputExhausted)
    } else if *reason == *"refusal" || *reason == *"safety" {
        Ok(TerminalOutcome::Refusal)
    } else {
        Err(DecodeError::UnknownStopReason(reason.to_owned()))
    }
}

/// A number as it stands in 64 bits with a sign.
pub open spec fn signed(value: u64) -> i64 {
    if value <= i64::MAX {
        value as i64
    } else {
        (value - 0x1_0000_0000_0000_0000) as i64
    }
}

/// The sum of two numbers as it stands in 64 bits with a sign.
pub open spec fn signed_sum(left: i64, right: i64) -> i64 {
    if left + right > i64::MAX {
        (left + right - 0x1_0000_0000_0000_0000) as i64
    } else if left + right < i64::MIN {
        (left + right + 0x1_0000_0000_0000_0000) as i64
    } else {
        (left + right) as i64
    }
}

/// A number as it stands in 64 bits with a sign.
pub fn to_signed(value: u64) -> (result: i64)
    ensures
        result == signed(value),
{
    if value <= i64::MAX as u64 {
        value as i64
    } else {
        (value as i128 - 0x1_0000_0000_0000_0000i128) as i64
    }
}

fn sum_signed(left: i64, right: i64) -> (result: i64)
    ensures
        result == signed_sum(left, right),
{
    let sum: i128 = left as i128 + right as i128;
    if sum > i64::MAX as i128 {
        (sum - 0x1_0000_0000_0000_0000i128) as i64
    } else if sum < i64::MIN as i128 {
        (sum + 0x1_0000_0000_0000_0000i128) as i64
    } else {
        sum as i64
    }
}

/// A count, or none where it is not there.
pub open spec fn count_or_zero(count: Option<u64>) -> u64 {
    match count {
        Some(count) => count,
        None => 0,
    }
}

/// The tokens of a response: what was read from the cache and what was written
/// to it counts as input once.
pub open spec fn tokens_of(usage: Usage) -> TokenUsage {
    let cached = signed(count_or_zero(usage.cache_read_input_tokens));
    let written = signed(count_or_zero(usage.cache_creation_input_tokens));
    let input = signed_sum(signed_sum(signed(usage.input_tokens), cached), written);
    let output = signed(usage.output_tokens);
    TokenUsage {
        input_tokens: input,
        cached_input_tokens: cached,
        cache_write_input_tokens: written,
        output_tokens: output,
        reasoning_output_tokens: signed(count_or_zero(usage.thinking_tokens)),
        total_tokens: signed_sum(input, output),
    }
}

fn or_zero(count: Option<u64>) -> (value: u64)
    ensures
        value == count_or_zero(count),
{
    match count {
        Some(count) => count,
        None => 0,
    }
}

/// The tokens of a response.
pub fn map_usage(usage: &Usage) -> (tokens: TokenUsage)
    ensures
        tokens == tokens_of(*usage),
{
    let cached_input_tokens = to_signed(or_zero(usage.cache_read_input_tokens));
    let cache_write_input_tokens = to_signed(or_zero(usage.cache_creation_input_tokens));
    let input_tokens = sum_signed(
        sum_signed(to_signed(usage.input_tokens), cached_input_tokens),
        cache_write_input_tokens,
    );
    let output_tokens = to_signed(usage.output_tokens);
    TokenUsage {
        input_tokens,
        cached_input_tokens,
        cache_write_input_tokens,
        output_tokens,
        reasoning_output_tokens: to_signed(or_zero(usage.thinking_tokens)),
        total_tokens: sum_signed(input_tokens, output_tokens),
    }
}

// ---- events ----

/// A response after its start.
pub open spec fn message_start_step(state: ResponseStateModel, event: Seq<char>, message: StartMessageModel) -> Step {
    if state.message is Some {
        (state, Err(transition(event, "duplicate message_start"@)))
    } else if message.kind != "message"@ || message.role != "assistant"@ || message.content.len() != 0
        || !(message.stop_reason is Null) || !(message.stop_sequence is Null) {
        (state, Err(transition(event, "message envelope was not an empty assistant start"@)))
    } else {
        (
            ResponseStateModel { usage: Some(message.usage), message: Some((message.id, message.model)), ..state },
            Ok(()),
        )
    }
}

fn is_null(json: &Json) -> (null: bool)
    ensures
        null == (json.deep_view() is Null),
{
    match json {
        Json::Null => true,
        _ => false,
    }
}

fn start_message(state: &mut ResponseState, event: &str, message: StartMessage) -> (applied: Result<(), DecodeError>)
    ensures
        (final(state).deep_view(), outcome(applied)) == message_start_step(
            old(state).deep_view(),
            event@,
            message.deep_view(),
        ),
{
    if state.message.is_some() {
        return Err(transition_error(event, "duplicate message_start"));
    }
    if !(*message.kind.as_str() == *"message") || !(*message.role.as_str() == *"assistant")
        || message.content.len() != 0 || !is_null(&message.stop_reason) || !is_null(&message.stop_sequence) {
        return Err(transition_error(event, "message envelope was not an empty assistant start"));
    }
    state.usage = Some(message.usage);
    state.message = Some((message.id, message.model));
    Ok(())
}

/// The block that starts empty, where it does.
pub open spec fn empty_block(block: StartBlockModel) -> Option<PendingBlockModel> {
    match block {
        StartBlockModel::Text { text } => if text.len() == 0 {
            Some(PendingBlockModel::Text(text))
        } else {
            None
        },
        StartBlockModel::Thinking { thinking } => if thinking.len() == 0 {
            Some(PendingBlockModel::Thinking { thinking, signature: Seq::empty() })
        } else {
            None
        },
        StartBlockModel::RedactedThinking { data } => Some(PendingBlockModel::RedactedThinking(data)),
        StartBlockModel::ToolUse { id, name, input } => match input {
            JsonModel::Object(entries) => if entries.len() == 0 {
                Some(PendingBlockModel::ToolUse { id, name, input: Seq::empty() })
            } else {
                None
            },
            _ => None,
        },
    }
}

/// A response after the start of a block.
pub open spec fn block_start_step(
    state: ResponseStateModel,
    event: Seq<char>,
    index: usize,
    block: StartBlockModel,
) -> Step {
    if state.message is None {
        (state, Err(transition(event, "event preceded message_start"@)))
    } else if state.outcome is Some {
        (state, Err(transition(event, "content block started after message_delta"@)))
    } else if index != state.blocks.len() {
        (state, Err(transition(event, "content block index was duplicate or non-contiguous"@)))
    } else {
        match empty_block(block) {
            None => (state, Err(transition(event, "streamed block contained non-empty initial content"@))),
            Some(block) => (
                ResponseStateModel { blocks: state.blocks.push(BlockStateModel { block, stopped: false }), ..state },
                Ok(()),
            ),
        }
    }
}

fn begin_block(block: StartBlock) -> (begun: Option<PendingBlock>)
    ensures
        begun.deep_view() == empty_block(block.deep_view()),
{
    broadcast use lemma_object_model;
    match block {
        StartBlock::Text { text } => if text.as_str().is_empty() {
            Some(PendingBlock::Text(text))
        } else {
            None
        },
        StartBlock::Thinking { thinking } => if thinking.as_str().is_empty() {
            Some(PendingBlock::Thinking { thinking, signature: String::new() })
        } else {
            None
        },
        StartBlock::RedactedThinking { data } => Some(PendingBlock::RedactedThinking(data)),
        StartBlock::ToolUse { id, name, input } => match input {
            Json::Object(entries) => if entries.len() == 0 {
                Some(PendingBlock::ToolUse { id, name, input: String::new() })
            } else {
                None
            },
            _ => None,
        },
    }
}

fn start_block(state: &mut ResponseState, event: &str, index: usize, block: StartBlock) -> (applied: Result<
    (),
    DecodeError,
>)
    ensures
        (final(state).deep_view(), outcome(applied)) == block_start_step(
            old(state).deep_view(),
            event@,
            index,
            block.deep_view(),
        ),
{
    if state.message.is_none() {
        return Err(transition_error(event, "event preceded message_start"));
    }
    if state.outcome.is_some() {
        return Err(transition_error(event, "content block started after message_delta"));
    }
    assert(state.blocks.deep_view().len() == state.blocks.len());
    if index != state.blocks.len() {
        return Err(transition_error(event, "content block index was duplicate or non-contiguous"));
    }
    match begin_block(block) {
        None => Err(transition_error(event, "streamed block contained non-empty initial content")),
        Some(block) => {
            push_item(&mut state.blocks, BlockState { block, stopped: false });
            Ok(())
        },
    }
}

/// What a delta makes of a block, and what it shows; nothing where the two do
/// not fit.
pub open spec fn block_grown(block: PendingBlockModel, index: usize, delta: DeltaModel) -> Option<
    (PendingBlockModel, Option<PresentationDeltaModel>),
> {
    match (block, delta) {
        (PendingBlockModel::Text(text), DeltaModel::Text { text: delta }) => Some(
            (PendingBlockModel::Text(text + delta), Some(PresentationDeltaModel::Text { index, delta })),
        ),
        (PendingBlockModel::Thinking { thinking, signature }, DeltaModel::Thinking { thinking: delta }) => Some(
            (
                PendingBlockModel::Thinking { thinking: thinking + delta, signature },
                Some(PresentationDeltaModel::Thinking { index, delta }),
            ),
        ),
        (PendingBlockModel::Thinking { thinking, signature }, DeltaModel::Signature { signature: delta }) => Some(
            (PendingBlockModel::Thinking { thinking, signature: signature + delta }, None),
        ),
        (PendingBlockModel::ToolUse { id, name, input }, DeltaModel::InputJson { partial_json }) => Some(
            (
                PendingBlockModel::ToolUse { id, name, input: input + partial_json },
                Some(PresentationDeltaModel::ToolInput { index, delta: partial_json }),
            ),
        ),
        _ => None,
    }
}

/// A response after the growth of a block.
pub open spec fn block_delta_step(
    state: ResponseStateModel,
    event: Seq<char>,
    index: usize,
    delta: DeltaModel,
) -> Step {
    if index >= state.blocks.len() {
        (state, Err(transition(event, "delta referenced an unknown block"@)))
    } else if state.blocks[index as int].stopped {
        (state, Err(transition(event, "delta followed content_block_stop"@)))
    } else {
        match block_grown(state.blocks[index as int].block, index, delta) {
            None => (state, Err(transition(event, "delta type did not match content block type"@))),
            Some((block, shown)) => (
                ResponseStateModel {
                    blocks: state.blocks.update(index as int, BlockStateModel { block, stopped: false }),
                    presented: match shown {
                        Some(delta) => state.presented.push(delta),
                        None => state.presented,
                    },
                    ..state
                },
                Ok(()),
            ),
        }
    }
}

/// A block after a delta, and what the delta shows.
pub type Grown = (PendingBlock, Option<PresentationDelta>);

fn grow_block(block: &PendingBlock, index: usize, delta: Delta) -> (grown: Option<Grown>)
    ensures
        grown.deep_view() == block_grown(block.deep_view(), index, delta.deep_view()),
{
    match (block, delta) {
        (PendingBlock::Text(text), Delta::Text { text: delta }) => Some(
            (PendingBlock::Text(concat(text, &delta)), Some(PresentationDelta::Text { index, delta })),
        ),
        (PendingBlock::Thinking { thinking, signature }, Delta::Thinking { thinking: delta }) => Some(
            (
                PendingBlock::Thinking { thinking: concat(thinking, &delta), signature: signature.duplicate() },
                Some(PresentationDelta::Thinking { index, delta }),
            ),
        ),
        (PendingBlock::Thinking { thinking, signature }, Delta::Signature { signature: delta }) => Some(
            (
                PendingBlock::Thinking { thinking: thinking.duplicate(), signature: concat(signature, &delta) },
                None,
            ),
        ),
        (PendingBlock::ToolUse { id, name, input }, Delta::InputJson { partial_json }) => Some(
            (
                PendingBlock::ToolUse {
                    id: id.duplicate(),
                    name: name.duplicate(),
                    input: concat(input, &partial_json),
                },
                Some(PresentationDelta::ToolInput { index, delta: partial_json }),
            ),
        ),
        _ => None,
    }
}

fn put_block(blocks: &mut Vec<BlockState>, index: usize, block: BlockState)
    requires
        index < old(blocks).len(),
    ensures
        final(blocks).deep_view() == old(blocks).deep_view().update(index as int, block.deep_view()),
{
    let ghost before = blocks.deep_view();
    blocks.set(index, block);
    assert(blocks.deep_view() =~= before.update(index as int, block.deep_view()));
}

fn grow(state: &mut ResponseState, event: &str, index: usize, delta: Delta) -> (applied: Result<(), DecodeError>)
    ensures
        (final(state).deep_view(), outcome(applied)) == block_delta_step(
            old(state).deep_view(),
            event@,
            index,
            delta.deep_view(),
        ),
{
    assert(state.blocks.deep_view().len() == state.blocks.len());
    if index >= state.blocks.len() {
        return Err(transition_error(event, "delta referenced an unknown block"));
    }
    assert(state.blocks.deep_view()[index as int] == state.blocks@[index as int].deep_view());
    if state.blocks[index].stopped {
        return Err(transition_error(event, "delta followed content_block_stop"));
    }
    match grow_block(&state.blocks[index].block, index, delta) {
        None => Err(transition_error(event, "delta type did not match content block type")),
        Some(grown) => {
            put_block(&mut state.blocks, index, BlockState { block: grown.0, stopped: false });
            if let Some(shown) = grown.1 {
                push_item(&mut state.presented, shown);
            }
            Ok(())
        },
    }
}

/// A response after the end of a block.
pub open spec fn block_stop_step(state: ResponseStateModel, event: Seq<char>, index: usize) -> Step {
    if index >= state.blocks.len() {
        (state, Err(transition(event, "stop referenced an unknown block"@)))
    } else {
        let block = state.blocks[index as int];
        if block.stopped {
            (state, Err(transition(event, "duplicate content_block_stop"@)))
        } else if block.block matches PendingBlockModel::Thinking { signature, .. } && signature.len() == 0 {
            (state, Err(transition(event, "thinking block had no signature"@)))
        } else {
            (
                ResponseStateModel {
                    blocks: state.blocks.update(index as int, BlockStateModel { stopped: true, ..block }),
                    ..state
                },
                Ok(()),
            )
        }
    }
}

fn stop_block(state: &mut ResponseState, event: &str, index: usize) -> (applied: Result<(), DecodeError>)
    ensures
        (final(state).deep_view(), outcome(applied)) == block_stop_step(old(state).deep_view(), event@, index),
{
    assert(state.blocks.deep_view().len() == state.blocks.len());
    if index >= state.blocks.len() {
        return Err(transition_error(event, "stop referenced an unknown block"));
    }
    assert(state.blocks.deep_view()[index as int] == state.blocks@[index as int].deep_view());
    if state.blocks[index].stopped {
        return Err(transition_error(event, "duplicate content_block_stop"));
    }
    if let PendingBlock::Thinking { signature, .. } = &state.blocks[index].block {
        if signature.as_str().is_empty() {
            return Err(transition_error(event, "thinking block had no signature"));
        }
    }
    let block = state.blocks[index].block.duplicate();
    put_block(&mut state.blocks, index, BlockState { block, stopped: true });
    Ok(())
}

/// Whether every block has ended.
pub open spec fn all_stopped(blocks: Seq<BlockStateModel>) -> bool {
    forall|i: int| 0 <= i < blocks.len() ==> (#[trigger] blocks[i]).stopped
}

fn every_stopped(blocks: &Vec<BlockState>) -> (stopped: bool)
    ensures
        stopped == all_stopped(blocks.deep_view()),
{
    let mut i: usize = 0;
    while i < blocks.len()
        invariant
            i <= blocks.len(),
            forall|j: int| 0 <= j < i ==> (#[trigger] blocks.deep_view()[j]).stopped,
        decreases blocks.len() - i,
    {
        if !blocks[i].stopped {
            assert(!blocks.deep_view()[i as int].stopped);
            return false;
        }
        i += 1;
    }
    true
}

/// A response after its end, with the tokens that are known only then.
pub open spec fn message_delta_step(
    state: ResponseStateModel,
    event: Seq<char>,
    stop_reason: Option<Seq<char>>,
    usage: DeltaUsage,
) -> Step {
    if state.message is None {
        (state, Err(transition(event, "event preceded message_start"@)))
    } else if state.outcome is Some || !all_stopped(state.blocks) {
        (state, Err(transition(event, "message_delta was duplicate or preceded block completion"@)))
    } else {
        match stop_reason {
            None => (state, Err(DecodeErrorModel::MissingStopReason)),
            Some(reason) => match outcome_of(reason) {
                Err(error) => (state, Err(error)),
                Ok(end) => {
                    let ended = ResponseStateModel { outcome: Some(end), ..state };
                    match state.usage {
                        None => (ended, Err(transition(event, "message_delta had no start usage"@))),
                        Some(start) => (
                            ResponseStateModel {
                                usage: Some(
                                    Usage {
                                        output_tokens: usage.output_tokens,
                                        thinking_tokens: usage.thinking_tokens,
                                        ..start
                                    },
                                ),
                                ..ended
                            },
                            Ok(()),
                        ),
                    }
                },
            },
        }
    }
}

fn end_message(state: &mut ResponseState, event: &str, stop_reason: Option<String>, usage: DeltaUsage) -> (applied:
    Result<(), DecodeError>)
    ensures
        (final(state).deep_view(), outcome(applied)) == message_delta_step(
            old(state).deep_view(),
            event@,
            stop_reason.deep_view(),
            usage,
        ),
{
    if state.message.is_none() {
        return Err(transition_error(event, "event preceded message_start"));
    }
    if state.outcome.is_some() || !every_stopped(&state.blocks) {
        return Err(transition_error(event, "message_delta was duplicate or preceded block completion"));
    }
    let reason = match stop_reason {
        None => {
            return Err(DecodeError::MissingStopReason);
        },
        Some(reason) => reason,
    };
    match map_stop_reason(&reason) {
        Err(error) => {
            return Err(error);
        },
        Ok(end) => {
            state.outcome = Some(end);
        },
    }
    match state.usage {
        None => Err(transition_error(event, "message_delta had no start usage")),
        Some(start) => {
            state.usage = Some(
                Usage {
                    input_tokens: start.input_tokens,
                    output_tokens: usage.output_tokens,
                    cache_creation_input_tokens: start.cache_creation_input_tokens,
                    cache_read_input_tokens: start.cache_read_input_tokens,
                    thinking_tokens: usage.thinking_tokens,
                    cache_creation: start.cache_creation,
                },
            );
            Ok(())
        },
    }
}

/// A response after the end of its stream.
pub open spec fn message_stop_step(state: ResponseStateModel, event: Seq<char>) -> Step {
    if state.message is None {
        (state, Err(transition(event, "event preceded message_start"@)))
    } else if state.outcome is None {
        (state, Err(transition(event, "message_stop preceded a valid message_delta"@)))
    } else {
        (ResponseStateModel { stopped: true, ..state }, Ok(()))
    }
}

fn stop_message(state: &mut ResponseState, event: &str) -> (applied: Result<(), DecodeError>)
    ensures
        (final(state).deep_view(), outcome(applied)) == message_stop_step(old(state).deep_view(), event@),
{
    if state.message.is_none() {
        return Err(transition_error(event, "event preceded message_start"));
    }
    if state.outcome.is_none() {
        return Err(transition_error(event, "message_stop preceded a valid message_delta"));
    }
    state.stopped = true;
    Ok(())
}

/// A response after an event that was read.
pub open spec fn wire_step(state: ResponseStateModel, event: Seq<char>, wire: WireEventModel) -> Step {
    match wire {
        WireEventModel::Ping => (state, Ok(())),
        WireEventModel::MessageStart { message } => message_start_step(state, event, message),
        WireEventModel::ContentBlockStart { index, content_block } => block_start_step(
            state,
            event,
            index,
            content_block,
        ),
        WireEventModel::ContentBlockDelta { index, delta } => block_delta_step(state, event, index, delta),
        WireEventModel::ContentBlockStop { index } => block_stop_step(state, event, index),
        WireEventModel::MessageDelta { stop_reason, usage } => message_delta_step(state, event, stop_reason, usage),
        WireEventModel::MessageStop => message_stop_step(state, event),
        WireEventModel::Error { error_type, message } => (
            state,
            Err(DecodeErrorModel::ProviderError { error_type, message }),
        ),
    }
}

fn apply_wire(state: &mut ResponseState, event: &str, wire: WireEvent) -> (applied: Result<(), DecodeError>)
    ensures
        (final(state).deep_view(), outcome(applied)) == wire_step(old(state).deep_view(), event@, wire.deep_view()),
{
    match wire {
        WireEvent::Ping => Ok(()),
        WireEvent::MessageStart { message } => start_message(state, event, message),
        WireEvent::ContentBlockStart { index, content_block } => start_block(state, event, index, content_block),
        WireEvent::ContentBlockDelta { index, delta } => grow(state, event, index, delta),
        WireEvent::ContentBlockStop { index } => stop_block(state, event, index),
        WireEvent::MessageDelta { stop_reason, usage } => end_message(state, event, stop_reason, usage),
        WireEvent::MessageStop => stop_message(state, event),
        WireEvent::Error { error_type, message } => Err(DecodeError::ProviderError { error_type, message }),
    }
}

/// Whether an event has a meaning.
pub open spec fn known_event(event: Seq<char>) -> bool {
    event == "ping"@ || event == "message_start"@ || event == "content_block_start"@ || event
        == "content_block_delta"@ || event == "content_block_stop"@ || event == "message_delta"@ || event
        == "message_stop"@ || event == "error"@
}

fn is_known_event(event: &str) -> (known: bool)
    ensures
        known == known_event(event@),
{
    *event == *"ping" || *event == *"message_start" || *event == *"content_block_start" || *event
        == *"content_block_delta" || *event == *"content_block_stop" || *event == *"message_delta" || *event
        == *"message_stop" || *event == *"error"
}

/// A response after an event whose data was parsed.
pub open spec fn parsed_event_step(
    state: ResponseStateModel,
    event: Seq<char>,
    parsed: Result<JsonModel, Seq<char>>,
) -> Step {
    match parsed {
        Err(message) => (state, Err(DecodeErrorModel::MalformedEvent { event, message })),
        Ok(json) => match event_of(json) {
            Err(message) => (state, Err(DecodeErrorModel::MalformedEvent { event, message })),
            Ok(wire) => if wire.label() != event {
                (
                    state,
                    Err(
                        DecodeErrorModel::MalformedEvent {
                            event,
                            message: "data type "@ + wire.label() + " did not match event name"@,
                        },
                    ),
                )
            } else if state.stopped {
                (state, Err(transition(event, "event followed message_stop"@)))
            } else {
                wire_step(state, event, wire)
            },
        },
    }
}

/// A response after an event.
pub open spec fn event_step(state: ResponseStateModel, event: Seq<char>, data: Seq<char>) -> Step {
    if !known_event(event) {
        (state, Err(DecodeErrorModel::UnknownEvent(event)))
    } else {
        parsed_event_step(state, event, json_parse(data))
    }
}

/// A response after an event whose data was parsed.
pub fn apply_parsed(state: &mut ResponseState, event: &str, parsed: Result<Json, String>) -> (applied: Result<
    (),
    DecodeError,
>)
    ensures
        (final(state).deep_view(), outcome(applied)) == parsed_event_step(
            old(state).deep_view(),
            event@,
            outcome(parsed),
        ),
{
    let json = match parsed {
        Err(message) => {
            return Err(DecodeError::MalformedEvent { event: event.to_owned(), message });
        },
        Ok(json) => json,
    };
    let wire = match WireEvent::from_json(&json) {
        Err(message) => {
            return Err(DecodeError::MalformedEvent { event: event.to_owned(), message });
        },
        Ok(wire) => wire,
    };
    if !(*wire.name() == *event) {
        return Err(
            DecodeError::MalformedEvent {
                event: event.to_owned(),
                message: concat3("data type ", wire.name(), " did not match event name"),
            },
        );
    }
    if state.stopped {
        return Err(transition_error(event, "event followed message_stop"));
    }
    apply_wire(state, event, wire)
}

fn apply_event(state: &mut ResponseState, event: &str, data: &str) -> (applied: Result<(), DecodeError>)
    ensures
        (final(state).deep_view(), outcome(applied)) == event_step(old(state).deep_view(), event@, data@),
{
    if !is_known_event(event) {
        return Err(DecodeError::UnknownEvent(event.to_owned()));
    }
    apply_parsed(state, event, parse_json(data))
}

// ---- the end ----

/// The blocks from `at` on behind those that are done: all of them, or the
/// first tool call whose input is no JSON.
pub open spec fn blocks_done_from(blocks: Seq<BlockStateModel>, at: int, done: Seq<DecodedBlockModel>) -> Result<
    Seq<DecodedBlockModel>,
    DecodeErrorModel,
>
    decreases blocks.len() - at,
{
    if at < 0 || at >= blocks.len() {
        Ok(done)
    } else {
        match block_done(blocks[at].block, at as usize) {
            Ok(block) => blocks_done_from(blocks, at + 1, done.push(block)),
            Err(error) => Err(error),
        }
    }
}

/// A block that has come whole.
pub open spec fn block_done(block: PendingBlockModel, index: usize) -> Result<DecodedBlockModel, DecodeErrorModel> {
    match block {
        PendingBlockModel::Text(text) => Ok(DecodedBlockModel::Text { text }),
        PendingBlockModel::Thinking { thinking, signature } => Ok(
            DecodedBlockModel::Thinking { thinking, signature },
        ),
        PendingBlockModel::RedactedThinking(data) => Ok(DecodedBlockModel::RedactedThinking { data }),
        PendingBlockModel::ToolUse { id, name, input } => match json_parse(input) {
            Ok(input) => Ok(DecodedBlockModel::ToolUse { id, name, input }),
            Err(_) => Err(DecodeErrorModel::InvalidToolJson { index, input }),
        },
    }
}

fn finish_block(block: &PendingBlock, index: usize) -> (done: Result<DecodedBlock, DecodeError>)
    ensures
        outcome(done) == block_done(block.deep_view(), index),
{
    match block {
        PendingBlock::Text(text) => Ok(DecodedBlock::Text { text: text.duplicate() }),
        PendingBlock::Thinking { thinking, signature } => Ok(
            DecodedBlock::Thinking { thinking: thinking.duplicate(), signature: signature.duplicate() },
        ),
        PendingBlock::RedactedThinking(data) => Ok(DecodedBlock::RedactedThinking { data: data.duplicate() }),
        PendingBlock::ToolUse { id, name, input } => match parse_json(input) {
            Ok(input) => Ok(DecodedBlock::ToolUse { id: id.duplicate(), name: name.duplicate(), input }),
            Err(_) => Err(DecodeError::InvalidToolJson { index, input: input.duplicate() }),
        },
    }
}

fn finish_blocks(blocks: &Vec<BlockState>) -> (done: Result<Vec<DecodedBlock>, DecodeError>)
    ensures
        outcome(done) == blocks_done_from(blocks.deep_view(), 0, Seq::empty()),
{
    let mut done: Vec<DecodedBlock> = no_items();
    let mut i: usize = 0;
    while i < blocks.len()
        invariant
            i <= blocks.len(),
            blocks_done_from(blocks.deep_view(), 0, Seq::empty()) == blocks_done_from(
                blocks.deep_view(),
                i as int,
                done.deep_view(),
            ),
        decreases blocks.len() - i,
    {
        assert(blocks.deep_view()[i as int] == blocks@[i as int].deep_view());
        match finish_block(&blocks[i].block, i) {
            Ok(block) => {
                push_item(&mut done, block);
            },
            Err(error) => {
                return Err(error);
            },
        }
        i += 1;
    }
    Ok(done)
}

/// The error for a stream that ended too early.
pub open spec fn premature(expected: Seq<char>) -> DecodeErrorModel {
    DecodeErrorModel::PrematureEof { expected }
}

/// The whole response at the end of the stream.
pub open spec fn finished(state: ResponseStateModel) -> Result<DecodedStreamModel, DecodeErrorModel> {
    if state.message is None {
        Err(premature("message_start"@))
    } else if state.outcome is None {
        Err(premature("recognized non-null stop reason"@))
    } else if !state.stopped {
        Err(premature("message_stop"@))
    } else {
        match blocks_done_from(state.blocks, 0, Seq::empty()) {
            Err(error) => Err(error),
            Ok(blocks) => match state.usage {
                None => Err(premature("message_start usage"@)),
                Some(usage) => Ok(
                    DecodedStreamModel {
                        message_id: (state.message->0).0,
                        model: (state.message->0).1,
                        blocks,
                        terminal_outcome: state.outcome->0,
                        usage,
                        token_usage: tokens_of(usage),
                    },
                ),
            },
        }
    }
}

fn finish_response(state: ResponseState) -> (decoded: Result<DecodedStream, DecodeError>)
    ensures
        outcome(decoded) == finished(state.deep_view()),
{
    let message = match state.message {
        None => {
            return Err(DecodeError::PrematureEof { expected: "message_start".to_owned() });
        },
        Some(message) => message,
    };
    let terminal_outcome = match state.outcome {
        None => {
            return Err(DecodeError::PrematureEof { expected: "recognized non-null stop reason".to_owned() });
        },
        Some(end) => end,
    };
    if !state.stopped {
        return Err(DecodeError::PrematureEof { expected: "message_stop".to_owned() });
    }
    let blocks = match finish_blocks(&state.blocks) {
        Err(error) => {
            return Err(error);
        },
        Ok(blocks) => blocks,
    };
    match state.usage {
        None => Err(DecodeError::PrematureEof { expected: "message_start usage".to_owned() }),
        Some(usage) => Ok(
            DecodedStream {
                message_id: message.0,
                model: message.1,
                blocks,
                terminal_outcome,
                usage,
                token_usage: map_usage(&usage),
            },
        ),
    }
}

// ---- framing ----

/// The name and the data lines of a frame so far.
pub type FrameParts = (Option<Seq<char>>, Seq<Seq<char>>);

/// A frame after one of its lines.
pub open spec fn line_added(event: Option<Seq<char>>, data: Seq<Seq<char>>, line: Seq<char>) -> Result<
    FrameParts,
    DecodeErrorModel,
> {
    match split_first(line, ':') {
        None => Err(DecodeErrorModel::MalformedSse("invalid line "@ + quoted(line))),
        Some((field, rest)) => {
            let value = match stripped(rest, " "@) {
                Some(value) => value,
                None => rest,
            };
            if field == "event"@ {
                if event is None {
                    Ok((Some(value), data))
                } else {
                    Err(DecodeErrorModel::MalformedSse("frame had duplicate event fields"@))
                }
            } else if field == "data"@ {
                Ok((event, data.push(value)))
            } else {
                Err(DecodeErrorModel::MalformedSse("unsupported SSE field "@ + field))
            }
        },
    }
}

fn add_line(event: &mut Option<String>, data: &mut Vec<String>, line: &str) -> (added: Result<(), DecodeError>)
    ensures
        match added {
            Ok(_) => line_added(old(event).deep_view(), old(data).deep_view(), line@) == Ok::<
                FrameParts,
                DecodeErrorModel,
            >((final(event).deep_view(), final(data).deep_view())),
            Err(error) => line_added(old(event).deep_view(), old(data).deep_view(), line@) == Err::<
                FrameParts,
                DecodeErrorModel,
            >(error.deep_view()),
        },
{
    let parts = match split_once(line, ':') {
        None => {
            return Err(DecodeError::MalformedSse(concat("invalid line ", &quote(line))));
        },
        Some(parts) => parts,
    };
    let value = match strip_prefix(&parts.1, " ") {
        Some(value) => value,
        None => parts.1,
    };
    if *parts.0.as_str() == *"event" {
        if event.is_none() {
            *event = Some(value);
            Ok(())
        } else {
            Err(DecodeError::MalformedSse("frame had duplicate event fields".to_owned()))
        }
    } else if *parts.0.as_str() == *"data" {
        push_item(data, value);
        Ok(())
    } else {
        Err(DecodeError::MalformedSse(concat("unsupported SSE field ", &parts.0)))
    }
}

/// The event of a frame that has its lines.
pub open spec fn frame_event(event: Option<Seq<char>>, data: Seq<Seq<char>>) -> Result<SseEventModel, DecodeErrorModel> {
    match event {
        None => Err(DecodeErrorModel::MalformedSse("frame had data but no event"@)),
        Some(event) => if data.len() == 0 {
            Err(DecodeErrorModel::MalformedSse(event + " frame had no data"@))
        } else {
            Ok(SseEventModel { event, data: joined(data) })
        },
    }
}

fn close_frame(event: &Option<String>, data: &Vec<String>) -> (closed: Result<SseEvent, DecodeError>)
    ensures
        outcome(closed) == frame_event(event.deep_view(), data.deep_view()),
{
    match event {
        None => Err(DecodeError::MalformedSse("frame had data but no event".to_owned())),
        Some(event) => {
            assert(data.deep_view().len() == data.len());
            if data.len() == 0 {
                Err(DecodeError::MalformedSse(concat(event, " frame had no data")))
            } else {
                Ok(SseEvent { event: event.duplicate(), data: join_lines(data) })
            }
        },
    }
}

/// The events in the lines from `at` on behind those that are done.
pub open spec fn events_from(
    lines: Seq<Seq<char>>,
    at: int,
    event: Option<Seq<char>>,
    data: Seq<Seq<char>>,
    done: Seq<SseEventModel>,
) -> Result<Seq<SseEventModel>, DecodeErrorModel>
    decreases lines.len() - at,
{
    if at < 0 || at >= lines.len() {
        Ok(done)
    } else if lines[at].len() == 0 {
        if event is None && data.len() == 0 {
            events_from(lines, at + 1, event, data, done)
        } else {
            match frame_event(event, data) {
                Err(error) => Err(error),
                Ok(closed) => events_from(lines, at + 1, None, Seq::empty(), done.push(closed)),
            }
        }
    } else {
        match line_added(event, data, lines[at]) {
            Err(error) => Err(error),
            Ok((event, data)) => events_from(lines, at + 1, event, data, done),
        }
    }
}

/// The events of a whole stream; its end ends the last frame.
pub open spec fn sse_events(body: Seq<char>) -> Result<Seq<SseEventModel>, DecodeErrorModel> {
    events_from(all_lines(body).push(Seq::empty()), 0, None, Seq::empty(), Seq::empty())
}

/// The events of a whole stream.
pub fn parse_sse(body: &str) -> (events: Result<Vec<SseEvent>, DecodeError>)
    ensures
        outcome(events) == sse_events(body@),
{
    let mut lines = split_lines(body);
    push_item(&mut lines, String::new());
    let mut done: Vec<SseEvent> = no_items();
    let mut event: Option<String> = None;
    let mut data: Vec<String> = no_items();
    let mut i: usize = 0;
    let ghost all = lines.deep_view();
    while i < lines.len()
        invariant
            i <= lines.len(),
            all == lines.deep_view(),
            sse_events(body@) == events_from(
                all,
                i as int,
                event.deep_view(),
                data.deep_view(),
                done.deep_view(),
            ),
        decreases lines.len() - i,
    {
        assert(all[i as int] == lines@[i as int]@);
        assert(data.deep_view().len() == data.len());
        if lines[i].as_str().is_empty() {
            if !(event.is_none() && data.len() == 0) {
                match close_frame(&event, &data) {
                    Err(error) => {
                        return Err(error);
                    },
                    Ok(closed) => {
                        push_item(&mut done, closed);
                        event = None;
                        data = no_items();
                    },
                }
            }
        } else {
            match add_line(&mut event, &mut data, &lines[i]) {
                Err(error) => {
                    return Err(error);
                },
                Ok(_) => {},
            }
        }
        i += 1;
    }
    Ok(done)
}

/// A response after the events from `at` on.
pub open spec fn events_step(state: ResponseStateModel, events: Seq<SseEventModel>, at: int) -> Step
    decreases events.len() - at,
{
    if at < 0 || at >= events.len() {
        (state, Ok(()))
    } else {
        let (next, applied) = event_step(state, events[at].event, events[at].data);
        match applied {
            Ok(_) => events_step(next, events, at + 1),
            Err(error) => (next, Err(error)),
        }
    }
}

/// A response before the first event.
pub open spec fn fresh_state() -> ResponseStateModel {
    ResponseStateModel {
        message: None,
        blocks: Seq::empty(),
        usage: None,
        outcome: None,
        stopped: false,
        presented: Seq::empty(),
    }
}

fn new_state() -> (state: ResponseState)
    ensures
        state.deep_view() == fresh_state(),
{
    ResponseState {
        message: None,
        blocks: no_items(),
        usage: None,
        outcome: None,
        stopped: false,
        presented: no_items(),
    }
}

/// A response after a whole stream: framing comes first, so a stream that is
/// badly framed shows nothing.
pub open spec fn stream_step(body: Seq<u8>) -> Step {
    match utf8_chars(body) {
        None => (fresh_state(), Err(DecodeErrorModel::InvalidUtf8)),
        Some(text) => if all_white(text) {
            (fresh_state(), Err(DecodeErrorModel::EmptyStream))
        } else {
            match sse_events(text) {
                Err(error) => (fresh_state(), Err(error)),
                Ok(events) => if events.len() == 0 {
                    (fresh_state(), Err(DecodeErrorModel::EmptyStream))
                } else {
                    events_step(fresh_state(), events, 0)
                },
            }
        },
    }
}

/// What a whole stream decodes to.
pub open spec fn decoded_stream(body: Seq<u8>) -> Result<DecodedStreamModel, DecodeErrorModel> {
    let (state, applied) = stream_step(body);
    match applied {
        Err(error) => Err(error),
        Ok(_) => finished(state),
    }
}

fn apply_stream(state: &mut ResponseState, body: &[u8]) -> (applied: Result<(), DecodeError>)
    requires
        old(state).deep_view() == fresh_state(),
    ensures
        (final(state).deep_view(), outcome(applied)) == stream_step(body@),
{
    let text = match utf8_text(body) {
        None => {
            return Err(DecodeError::InvalidUtf8);
        },
        Some(text) => text,
    };
    if only_white(text) {
        return Err(DecodeError::EmptyStream);
    }
    let events = match parse_sse(text) {
        Err(error) => {
            return Err(error);
        },
        Ok(events) => events,
    };
    assert(events.deep_view().len() == events.len());
    if events.len() == 0 {
        return Err(DecodeError::EmptyStream);
    }
    let mut i: usize = 0;
    while i < events.len()
        invariant
            i <= events.len(),
            stream_step(body@) == events_step(state.deep_view(), events.deep_view(), i as int),
        decreases events.len() - i,
    {
        assert(events.deep_view()[i as int] == events@[i as int].deep_view());
        match apply_event(state, &events[i].event, &events[i].data) {
            Err(error) => {
                return Err(error);
            },
            Ok(_) => {},
        }
        i += 1;
    }
    Ok(())
}

/// Decodes a whole stream. What it shows is appended to `presentation`, also
/// where the stream fails.
pub fn decode_stream(body: &[u8], presentation: &mut Vec<PresentationDelta>) -> (decoded: Result<
    DecodedStream,
    DecodeError,
>)
    ensures
        outcome(decoded) == decoded_stream(body@),
        final(presentation).deep_view() == old(presentation).deep_view() + stream_step(body@).0.presented,
{
    let mut state = new_state();
    let applied = apply_stream(&mut state, body);
    let mut presented: Vec<PresentationDelta> = no_items();
    std::mem::swap(&mut presented, &mut state.presented);
    append_items(presentation, presented);
    match applied {
        Err(error) => Err(error),
        Ok(_) => finish_response(state),
    }
}

// ---- incremental framing ----

/// The first place from `at` on of two line feeds or two carriage returns.
pub open spec fn double_break_from(bytes: Seq<u8>, at: int) -> Option<int>
    decreases bytes.len() - at,
{
    if at < 0 || at + 1 >= bytes.len() {
        None
    } else if (bytes[at] == 10 && bytes[at + 1] == 10) || (bytes[at] == 13 && bytes[at + 1] == 13) {
        Some(at)
    } else {
        double_break_from(bytes, at + 1)
    }
}

/// The first place from `at` on of a carriage return and a line feed, twice.
pub open spec fn long_break_from(bytes: Seq<u8>, at: int) -> Option<int>
    decreases bytes.len() - at,
{
    if at < 0 || at + 3 >= bytes.len() {
        None
    } else if bytes[at] == 13 && bytes[at + 1] == 10 && bytes[at + 2] == 13 && bytes[at + 3] == 10 {
        Some(at)
    } else {
        long_break_from(bytes, at + 1)
    }
}

/// Where the first frame ends, with the break behind it.
pub open spec fn frame_boundary(bytes: Seq<u8>) -> Option<int> {
    match double_break_from(bytes, 0) {
        Some(place) => Some(place + 2),
        None => match long_break_from(bytes, 0) {
            Some(place) => Some(place + 4),
            None => None,
        },
    }
}

fn frame_end(bytes: &Vec<u8>) -> (end: Option<usize>)
    ensures
        match end {
            Some(end) => 0 < end <= bytes.len() && frame_boundary(bytes@) == Some(end as int),
            None => frame_boundary(bytes@) is None,
        },
{
    let count = bytes.len();
    let mut i: usize = 0;
    while count >= 2 && i <= count - 2
        invariant
            count == bytes.len(),
            i <= count,
            double_break_from(bytes@, 0) == double_break_from(bytes@, i as int),
        decreases count - i,
    {
        if (bytes[i] == 10 && bytes[i + 1] == 10) || (bytes[i] == 13 && bytes[i + 1] == 13) {
            return Some(i + 2);
        }
        i += 1;
    }
    let mut j: usize = 0;
    while count >= 4 && j <= count - 4
        invariant
            count == bytes.len(),
            j <= count,
            double_break_from(bytes@, 0) is None,
            long_break_from(bytes@, 0) == long_break_from(bytes@, j as int),
        decreases count - j,
    {
        if bytes[j] == 13 && bytes[j + 1] == 10 && bytes[j + 2] == 13 && bytes[j + 3] == 10 {
            return Some(j + 4);
        }
        j += 1;
    }
    None
}

/// The lines of a frame from `at` on; empty lines are dropped.
pub open spec fn frame_lines_from(
    lines: Seq<Seq<char>>,
    at: int,
    event: Option<Seq<char>>,
    data: Seq<Seq<char>>,
) -> Result<FrameParts, DecodeErrorModel>
    decreases lines.len() - at,
{
    if at < 0 || at >= lines.len() {
        Ok((event, data))
    } else if lines[at].len() == 0 {
        frame_lines_from(lines, at + 1, event, data)
    } else {
        match line_added(event, data, lines[at]) {
            Err(error) => Err(error),
            Ok((event, data)) => frame_lines_from(lines, at + 1, event, data),
        }
    }
}

/// The event that the bytes of a frame hold.
pub open spec fn framed_event(bytes: Seq<u8>) -> Result<SseEventModel, DecodeErrorModel> {
    match utf8_chars(bytes) {
        None => Err(DecodeErrorModel::InvalidUtf8),
        Some(text) => match frame_lines_from(all_lines(text), 0, None, Seq::empty()) {
            Err(error) => Err(error),
            Ok((event, data)) => frame_event(event, data),
        },
    }
}

fn read_frame(bytes: &[u8]) -> (event: Result<SseEvent, DecodeError>)
    ensures
        outcome(event) == framed_event(bytes@),
{
    let text = match utf8_text(bytes) {
        None => {
            return Err(DecodeError::InvalidUtf8);
        },
        Some(text) => text,
    };
    let lines = split_lines(text);
    let mut event: Option<String> = None;
    let mut data: Vec<String> = no_items();
    let mut i: usize = 0;
    while i < lines.len()
        invariant
            i <= lines.len(),
            utf8_chars(bytes@) == Some(text@),
            lines.deep_view() == all_lines(text@),
            frame_lines_from(lines.deep_view(), 0, None, Seq::empty()) == frame_lines_from(
                lines.deep_view(),
                i as int,
                event.deep_view(),
                data.deep_view(),
            ),
        decreases lines.len() - i,
    {
        assert(lines.deep_view()[i as int] == lines@[i as int]@);
        if !lines[i].as_str().is_empty() {
            match add_line(&mut event, &mut data, &lines[i]) {
                Err(error) => {
                    return Err(error);
                },
                Ok(_) => {},
            }
        }
        i += 1;
    }
    close_frame(&event, &data)
}

/// A session after a step, and whether the step went through.
pub type SessionStep = (SessionModel, Result<(), DecodeErrorModel>);

/// A session after a frame.
pub open spec fn frame_step(session: SessionModel, bytes: Seq<u8>) -> SessionStep {
    match framed_event(bytes) {
        Err(error) => (session, Err(error)),
        Ok(event) => {
            let (state, applied) = event_step(session.state, event.event, event.data);
            (SessionModel { state, saw_event: true, ..session }, applied)
        },
    }
}

fn consume_frame(session: &mut Session, bytes: &[u8]) -> (applied: Result<(), DecodeError>)
    ensures
        (final(session).deep_view(), outcome(applied)) == frame_step(old(session).deep_view(), bytes@),
{
    match read_frame(bytes) {
        Err(error) => Err(error),
        Ok(event) => {
            session.saw_event = true;
            apply_event(&mut session.state, &event.event, &event.data)
        },
    }
}

/// Bytes without the line breaks at their start.
pub open spec fn after_breaks(bytes: Seq<u8>) -> Seq<u8>
    decreases bytes.len(),
{
    if bytes.len() > 0 && (bytes[0] == 13 || bytes[0] == 10) {
        after_breaks(bytes.drop_first())
    } else {
        bytes
    }
}

proof fn lemma_after_breaks(bytes: Seq<u8>)
    ensures
        after_breaks(bytes).len() <= bytes.len(),
    decreases bytes.len(),
{
    if bytes.len() > 0 && (bytes[0] == 13 || bytes[0] == 10) {
        lemma_after_breaks(bytes.drop_first());
    }
}

/// A session after the frames that its bytes complete, up to the first error;
/// line breaks behind a frame are dropped.
pub open spec fn frames_step(session: SessionModel) -> SessionStep
    decreases session.frame.len(),
{
    match frame_boundary(session.frame) {
        None => (session, Ok(())),
        Some(end) => {
            let rest = session.frame.skip(end);
            let (next, applied) = frame_step(SessionModel { frame: rest, ..session }, session.frame.take(end));
            match applied {
                Err(error) => (next, Err(error)),
                Ok(_) => if after_breaks(rest).len() < session.frame.len() {
                    frames_step(SessionModel { frame: after_breaks(rest), ..next })
                } else {
                    (next, Ok(()))
                },
            }
        },
    }
}

/// A session after more bytes.
pub open spec fn feed_step(session: SessionModel, bytes: Seq<u8>) -> SessionStep {
    frames_step(SessionModel { frame: session.frame + bytes, ..session })
}

/// A session before the first byte.
pub open spec fn fresh_session() -> SessionModel {
    SessionModel { state: fresh_state(), frame: Seq::empty(), saw_event: false }
}

/// A session after the end of its stream, where the last frame may not have
/// been ended.
pub open spec fn session_closed(session: SessionModel) -> SessionStep {
    let (last, consumed) = if session.frame.len() == 0 {
        (session, Ok(()))
    } else {
        frame_step(SessionModel { frame: Seq::empty(), ..session }, session.frame)
    };
    match consumed {
        Err(error) => (last, Err(error)),
        Ok(_) => if last.saw_event {
            (last, Ok(()))
        } else {
            (last, Err(DecodeErrorModel::EmptyStream))
        },
    }
}

/// The whole response at the end of a session.
pub open spec fn session_end(session: SessionModel) -> Result<DecodedStreamModel, DecodeErrorModel> {
    let (last, closed) = session_closed(session);
    match closed {
        Err(error) => Err(error),
        Ok(_) => finished(last.state),
    }
}

fn tail_of(bytes: &Vec<u8>, from: usize) -> (tail: Vec<u8>)
    requires
        from <= bytes.len(),
    ensures
        tail@ == bytes@.skip(from as int),
{
    let mut tail: Vec<u8> = Vec::new();
    let mut i: usize = from;
    while i < bytes.len()
        invariant
            from <= i <= bytes.len(),
            tail@ == bytes@.subrange(from as int, i as int),
        decreases bytes.len() - i,
    {
        tail.push(bytes[i]);
        i += 1;
        assert(bytes@.subrange(from as int, i as int) =~= bytes@.subrange(from as int, i - 1).push(bytes@[i - 1]));
    }
    assert(tail@ =~= bytes@.skip(from as int));
    tail
}

fn drop_breaks(bytes: &Vec<u8>) -> (rest: Vec<u8>)
    ensures
        rest@ == after_breaks(bytes@),
{
    let mut i: usize = 0;
    assert(bytes@.skip(0) =~= bytes@);
    while i < bytes.len() && (bytes[i] == 13 || bytes[i] == 10)
        invariant
            i <= bytes.len(),
            after_breaks(bytes@) == after_breaks(bytes@.skip(i as int)),
        decreases bytes.len() - i,
    {
        assert(bytes@.skip(i as int)[0] == bytes@[i as int]);
        assert(bytes@.skip(i as int).drop_first() =~= bytes@.skip(i + 1));
        i += 1;
    }
    tail_of(bytes, i)
}

fn bytes_model(bytes: &Vec<u8>)
    ensures
        bytes@ == bytes.deep_view(),
{
    assert(bytes@ =~= bytes.deep_view());
}

/// Incrementally frames native SSE bytes into the strict decoder state
/// machine. What is for display is collected and handed out by
/// [`IncrementalDecoder::take_presentation`].
pub struct IncrementalDecoder {
    pub session: Session,
}

impl IncrementalDecoder {
    /// A decoder before the first byte.
    pub fn new() -> (decoder: Self)
        ensures
            decoder.session.deep_view() == fresh_session(),
    {
        IncrementalDecoder { session: Session { state: new_state(), frame: no_items(), saw_event: false } }
    }

    /// Takes the next bytes of the stream.
    pub fn feed(&mut self, bytes: &[u8]) -> (fed: Result<(), DecodeError>)
        ensures
            (final(self).session.deep_view(), outcome(fed)) == feed_step(old(self).session.deep_view(), bytes@),
    {
        let ghost first = self.session.deep_view();
        let mut i: usize = 0;
        bytes_model(&self.session.frame);
        while i < bytes.len()
            invariant
                i <= bytes.len(),
                first == old(self).session.deep_view(),
                self.session.frame@ == first.frame + bytes@.take(i as int),
                self.session.state == old(self).session.state,
                self.session.saw_event == old(self).session.saw_event,
            decreases bytes.len() - i,
        {
            self.session.frame.push(bytes[i]);
            i += 1;
            assert(first.frame + bytes@.take(i as int) =~= (first.frame + bytes@.take(i - 1)).push(bytes@[i - 1]));
        }
        bytes_model(&self.session.frame);
        assert(bytes@.take(bytes@.len() as int) =~= bytes@);
        loop
            invariant
                feed_step(old(self).session.deep_view(), bytes@) == frames_step(self.session.deep_view()),
                self.session.frame@ == self.session.deep_view().frame,
            decreases self.session.frame.len(),
        {
            let end = match frame_end(&self.session.frame) {
                None => {
                    return Ok(());
                },
                Some(end) => end,
            };
            let ghost before = self.session.deep_view();
            let rest = tail_of(&self.session.frame, end);
            let mut frame: Vec<u8> = rest;
            std::mem::swap(&mut frame, &mut self.session.frame);
            frame.truncate(end);
            bytes_model(&self.session.frame);
            assert(frame@ =~= before.frame.take(end as int));
            match consume_frame(&mut self.session, frame.as_slice()) {
                Err(error) => {
                    return Err(error);
                },
                Ok(_) => {},
            }
            bytes_model(&self.session.frame);
            let kept = drop_breaks(&self.session.frame);
            proof {
                lemma_after_breaks(self.session.frame@);
            }
            self.session.frame = kept;
            bytes_model(&self.session.frame);
        }
    }

    /// Whether the end of the stream was announced.
    pub fn is_complete(&self) -> (complete: bool)
        ensures
            complete == self.session.state.stopped,
    {
        self.session.state.stopped
    }

    /// Hands out what was collected for display.
    pub fn take_presentation(&mut self) -> (presented: Vec<PresentationDelta>)
        ensures
            presented.deep_view() == old(self).session.deep_view().state.presented,
            final(self).session.deep_view() == (SessionModel {
                state: ResponseStateModel { presented: Seq::empty(), ..old(self).session.deep_view().state },
                ..old(self).session.deep_view()
            }),
    {
        let mut presented: Vec<PresentationDelta> = no_items();
        std::mem::swap(&mut presented, &mut self.session.state.presented);
        presented
    }

    /// The session after the end of the stream, and whether it ended well.
    pub fn close(self) -> (closed: (Session, Result<(), DecodeError>))
        ensures
            (closed.0.deep_view(), outcome(closed.1)) == session_closed(self.session.deep_view()),
    {
        let mut session = self.session;
        let mut closed: Result<(), DecodeError> = Ok(());
        bytes_model(&session.frame);
        if session.frame.len() > 0 {
            let mut frame: Vec<u8> = no_items();
            std::mem::swap(&mut frame, &mut session.frame);
            closed = consume_frame(&mut session, frame.as_slice());
        }
        if closed.is_ok() && !session.saw_event {
            closed = Err(DecodeError::EmptyStream);
        }
        (session, closed)
    }

    /// The whole response at the end of the stream. What was not handed out for
    /// display is appended to `presentation`.
    pub fn finish(self, presentation: &mut Vec<PresentationDelta>) -> (decoded: Result<DecodedStream, DecodeError>)
        ensures
            outcome(decoded) == session_end(self.session.deep_view()),
            final(presentation).deep_view() == old(presentation).deep_view() + session_closed(
                self.session.deep_view(),
            ).0.state.presented,
    {
        let closed = self.close();
        let mut session = closed.0;
        let mut presented: Vec<PresentationDelta> = no_items();
        std::mem::swap(&mut presented, &mut session.state.presented);
        append_items(presentation, presented);
        match closed.1 {
            Err(error) => Err(error),
            Ok(_) => finish_response(session.state),
        }
    }
}

} // verus!
