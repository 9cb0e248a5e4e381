//! The decoder of a streamed Chat Completions response.
use crate::chat_completions::chunk::chunk_of;
use crate::chat_completions::dialect::{
    DialectContext, DialectContextModel, DialectError, DialectErrorModel, DialectHooks, UsageMergePolicy,
};
use crate::chat_completions::types::{
    finish_reason_named, ChatCompletionChunk, ChunkChoice, ChunkChoiceModel, ChunkDelta, ChunkDeltaModel,
    ChunkUsage, ChunkUsageModel, DecodedStream, DecodedStreamModel, FinishReason, PendingResult,
    PendingResultModel, PresentationDelta, PresentationDeltaModel, ResponseMetadata, ResponseMetadataModel,
    ToolCall, ToolCallFragment, ToolCallFragmentModel, ToolCallFunction, ToolCallFunctionModel, ToolCallKind,
    ToolCallModel, UsageDetails,
};
use crate::json::{json_parse, lemma_array_model, member, parse_json, same_fields, Json, JsonModel};
use crate::model::{append_items, no_items, outcome, push_item, Duplicate};
use crate::protocol::TerminalOutcome;
use crate::text::{
    begins_with, concat, concat3, decimal, decimal_text, join_lines, joined, quote, quoted, same_text,
    starts_with, strip_prefix, stripped, utf8_chars, utf8_text,
};
use vstd::prelude::*;
use vstd::string::*;

verus! {

/// What a stream is decoded with.
pub struct DecodeStream<'a, D> {
    pub context: DialectContext<'a>,
    pub dialect: &'a D,
    pub metadata: ResponseMetadata,
}

/// Why a stream cannot be decoded.
#[derive(Debug, Clone, PartialEq, Eq)]
pub enum DecodeError {
    /// Nothing but white space came.
    EmptyStream,
    /// A line is no UTF-8.
    InvalidUtf8,
    /// A line is no data line.
    MalformedFraming(String),
    /// Data is no chunk.
    MalformedChunk(String),
    /// A chunk does not follow from those before it.
    InvalidTransition(String),
    /// No finish reason was given.
    MissingFinishReason,
    /// Only null was given as finish reason.
    NullFinishReason,
    /// A finish reason without a meaning.
    UnknownFinishReason(String),
    /// The same finish reason came twice.
    DuplicateTerminal,
    /// Something else came behind a finish reason.
    ConflictingTerminal,
    /// A tool call without its name or its number.
    IncompleteTool {
        index: usize,
        field: String,
    },
    /// Arguments of a tool call that are no JSON object.
    InvalidToolJson {
        index: usize,
        arguments: String,
    },
    /// Different usage was reported.
    ConflictingUsage,
    /// The stream ended too early.
    PrematureEof {
        expected: String,
    },
    /// The dialect refused.
    Dialect(DialectError),
}

/// The model of [`DecodeError`].
#[verifier::ext_equal]
pub enum DecodeErrorModel {
    EmptyStream,
    InvalidUtf8,
    MalformedFraming(Seq<char>),
    MalformedChunk(Seq<char>),
    InvalidTransition(Seq<char>),
    MissingFinishReason,
    NullFinishReason,
    UnknownFinishReason(Seq<char>),
    DuplicateTerminal,
    ConflictingTerminal,
    IncompleteTool {
        index: usize,
        field: Seq<char>,
    },
    InvalidToolJson {
        index: usize,
        arguments: Seq<char>,
    },
    ConflictingUsage,
    PrematureEof {
        expected: Seq<char>,
    },
    Dialect(DialectErrorModel),
}

impl DeepView for DecodeError {
    type V = DecodeErrorModel;

    open spec fn deep_view(&self) -> DecodeErrorModel {
        match self {
            DecodeError::EmptyStream => DecodeErrorModel::EmptyStream,
            DecodeError::InvalidUtf8 => DecodeErrorModel::InvalidUtf8,
            DecodeError::MalformedFraming(inner) => DecodeErrorModel::MalformedFraming(inner.deep_view()),
            DecodeError::MalformedChunk(inner) => DecodeErrorModel::MalformedChunk(inner.deep_view()),
            DecodeError::InvalidTransition(inner) => DecodeErrorModel::InvalidTransition(inner.deep_view()),
            DecodeError::MissingFinishReason => DecodeErrorModel::MissingFinishReason,
            DecodeError::NullFinishReason => DecodeErrorModel::NullFinishReason,
            DecodeError::UnknownFinishReason(inner) => DecodeErrorModel::UnknownFinishReason(inner.deep_view()),
            DecodeError::DuplicateTerminal => DecodeErrorModel::DuplicateTerminal,
            DecodeError::ConflictingTerminal => DecodeErrorModel::ConflictingTerminal,
            DecodeError::IncompleteTool { index, field } => DecodeErrorModel::IncompleteTool {
                index: index.deep_view(),
                field: field.deep_view(),
            },
            DecodeError::InvalidToolJson { index, arguments } => DecodeErrorModel::InvalidToolJson {
                index: index.deep_view(),
                arguments: arguments.deep_view(),
            },
            DecodeError::ConflictingUsage => DecodeErrorModel::ConflictingUsage,
            DecodeError::PrematureEof { expected } => DecodeErrorModel::PrematureEof { expected: expected.deep_view() },
            DecodeError::Dialect(inner) => DecodeErrorModel::Dialect(inner.deep_view()),
        }
    }
}

impl Duplicate for DecodeError {
    fn duplicate(&self) -> (copy: Self) {
        match self {
            DecodeError::EmptyStream => DecodeError::EmptyStream,
            DecodeError::InvalidUtf8 => DecodeError::InvalidUtf8,
            DecodeError::MalformedFraming(inner) => DecodeError::MalformedFraming(inner.duplicate()),
            DecodeError::MalformedChunk(inner) => DecodeError::MalformedChunk(inner.duplicate()),
            DecodeError::InvalidTransition(inner) => DecodeError::InvalidTransition(inner.duplicate()),
            DecodeError::MissingFinishReason => DecodeError::MissingFinishReason,
            DecodeError::NullFinishReason => DecodeError::NullFinishReason,
            DecodeError::UnknownFinishReason(inner) => DecodeError::UnknownFinishReason(inner.duplicate()),
            DecodeError::DuplicateTerminal => DecodeError::DuplicateTerminal,
            DecodeError::ConflictingTerminal => DecodeError::ConflictingTerminal,
            DecodeError::IncompleteTool { index, field } => DecodeError::IncompleteTool {
                index: index.duplicate(),
                field: field.duplicate(),
            },
            DecodeError::InvalidToolJson { index, arguments } => DecodeError::InvalidToolJson {
                index: index.duplicate(),
                arguments: arguments.duplicate(),
            },
            DecodeError::ConflictingUsage => DecodeError::ConflictingUsage,
            DecodeError::PrematureEof { expected } => DecodeError::PrematureEof { expected: expected.duplicate() },
            DecodeError::Dialect(inner) => DecodeError::Dialect(inner.duplicate()),
        }
    }
}

/// A tool call as far as it has come.
#[derive(Debug, Clone, PartialEq, Eq)]
pub struct PendingTool {
    pub index: usize,
    pub id: Option<String>,
    pub name: Option<String>,
    pub arguments: String,
    pub presented: bool,
    pub unpresented_arguments: String,
}

/// The model of [`PendingTool`].
#[verifier::ext_equal]
pub struct PendingToolModel {
    pub index: usize,
    pub id: Option<Seq<char>>,
    pub name: Option<Seq<char>>,
    pub arguments: Seq<char>,
    pub presented: bool,
    pub unpresented_arguments: Seq<char>,
}

impl DeepView for PendingTool {
    type V = PendingToolModel;

    open spec fn deep_view(&self) -> PendingToolModel {
        PendingToolModel {
            index: self.index.deep_view(),
            id: self.id.deep_view(),
            name: self.name.deep_view(),
            arguments: self.arguments.deep_view(),
            presented: self.presented.deep_view(),
            unpresented_arguments: self.unpresented_arguments.deep_view(),
        }
    }
}

impl Duplicate for PendingTool {
    fn duplicate(&self) -> (copy: Self) {
        PendingTool {
            index: self.index.duplicate(),
            id: self.id.duplicate(),
            name: self.name.duplicate(),
            arguments: self.arguments.duplicate(),
            presented: self.presented.duplicate(),
            unpresented_arguments: self.unpresented_arguments.duplicate(),
        }
    }
}

/// A response as far as it has come.
#[derive(Debug, Clone, PartialEq, Eq)]
pub struct ResponseState {
    pub response_id: Option<String>,
    pub content: String,
    pub reasoning: String,
    pub reasoning_provenance: Option<String>,
    pub tools: Vec<PendingTool>,
    pub usage: Option<ChunkUsage>,
    pub terminal: Option<(FinishReason, TerminalOutcome)>,
    pub null_finish: bool,
    pub recognized: bool,
    pub done: bool,
    pub presented: Vec<PresentationDelta>,
}

/// The model of [`ResponseState`].
#[verifier::ext_equal]
pub struct ResponseStateModel {
    pub response_id: Option<Seq<char>>,
    pub content: Seq<char>,
    pub reasoning: Seq<char>,
    pub reasoning_provenance: Option<Seq<char>>,
    pub tools: Seq<PendingToolModel>,
    pub usage: Option<ChunkUsageModel>,
    pub terminal: Option<(FinishReason, TerminalOutcome)>,
    pub null_finish: bool,
    pub recognized: bool,
    pub done: bool,
    pub presented: Seq<PresentationDeltaModel>,
}

impl DeepView for ResponseState {
    type V = ResponseStateModel;

    open spec fn deep_view(&self) -> ResponseStateModel {
        ResponseStateModel {
            response_id: self.response_id.deep_view(),
            content: self.content.deep_view(),
            reasoning: self.reasoning.deep_view(),
            reasoning_provenance: self.reasoning_provenance.deep_view(),
            tools: self.tools.deep_view(),
            usage: self.usage.deep_view(),
            terminal: self.terminal.deep_view(),
            null_finish: self.null_finish.deep_view(),
            recognized: self.recognized.deep_view(),
            done: self.done.deep_view(),
            presented: self.presented.deep_view(),
        }
    }
}

impl Duplicate for ResponseState {
    fn duplicate(&self) -> (copy: Self) {
        ResponseState {
            response_id: self.response_id.duplicate(),
            content: self.content.duplicate(),
            reasoning: self.reasoning.duplicate(),
            reasoning_provenance: self.reasoning_provenance.duplicate(),
            tools: self.tools.duplicate(),
            usage: self.usage.duplicate(),
            terminal: self.terminal.duplicate(),
            null_finish: self.null_finish.duplicate(),
            recognized: self.recognized.duplicate(),
            done: self.done.duplicate(),
            presented: self.presented.duplicate(),
        }
    }
}

/// The line and the frame that are not complete yet.
#[derive(Debug, Clone, PartialEq, Eq)]
pub struct Framing {
    pub line: Vec<u8>,
    pub data: Vec<String>,
    pub skip_lf: bool,
}

/// The model of [`Framing`].
#[verifier::ext_equal]
pub struct FramingModel {
    pub line: Seq<u8>,
    pub data: Seq<Seq<char>>,
    pub skip_lf: bool,
}

impl DeepView for Framing {
    type V = FramingModel;

    open spec fn deep_view(&self) -> FramingModel {
        FramingModel {
            line: self.line.deep_view(),
            data: self.data.deep_view(),
            skip_lf: self.skip_lf.deep_view(),
        }
    }
}

impl Duplicate for Framing {
    fn duplicate(&self) -> (copy: Self) {
        Framing {
            line: self.line.duplicate(),
            data: self.data.duplicate(),
            skip_lf: self.skip_lf.duplicate(),
        }
    }
}

/// Everything that a decoder remembers.
#[derive(Debug, Clone, PartialEq, Eq)]
pub struct Session {
    pub state: ResponseState,
    pub framing: Framing,
    pub empty: bool,
    pub deferred_error: Option<DecodeError>,
}

/// The model of [`Session`].
#[verifier::ext_equal]
pub struct SessionModel {
    pub state: ResponseStateModel,
    pub framing: FramingModel,
    pub empty: bool,
    pub deferred_error: Option<DecodeErrorModel>,
}

impl DeepView for Session {
    type V = SessionModel;

    open spec fn deep_view(&self) -> SessionModel {
        SessionModel {
            state: self.state.deep_view(),
            framing: self.framing.deep_view(),
            empty: self.empty.deep_view(),
            deferred_error: self.deferred_error.deep_view(),
        }
    }
}

impl Duplicate for Session {
    fn duplicate(&self) -> (copy: Self) {
        Session {
            state: self.state.duplicate(),
            framing: self.framing.duplicate(),
            empty: self.empty.duplicate(),
            deferred_error: self.deferred_error.duplicate(),
        }
    }
}

impl DecodeErrorModel {
    /// The message of the error.
    pub open spec fn text(self) -> Seq<char> {
        match self {
            DecodeErrorModel::EmptyStream => "Chat Completions stream was empty"@,
            DecodeErrorModel::InvalidUtf8 => "Chat Completions stream was not UTF-8"@,
            DecodeErrorModel::MalformedFraming(message) => "malformed data stream framing: "@ + message,
            DecodeErrorModel::MalformedChunk(message) => "malformed Chat Completions chunk: "@ + message,
            DecodeErrorModel::InvalidTransition(message) => "invalid Chat Completions transition: "@ + message,
            DecodeErrorModel::MissingFinishReason => "Chat Completions finish reason was missing"@,
            DecodeErrorModel::NullFinishReason => "Chat Completions finish reason was null"@,
            DecodeErrorModel::UnknownFinishReason(reason) => "unknown Chat Completions finish reason "@ + reason,
            DecodeErrorModel::DuplicateTerminal => "Chat Completions stream contained a duplicate terminal"@,
            DecodeErrorModel::ConflictingTerminal =>
                "Chat Completions stream contained conflicting terminal state"@,
            DecodeErrorModel::IncompleteTool { index, field } => "tool call "@ + decimal(index as nat)
                + " was incomplete: "@ + field,
            DecodeErrorModel::InvalidToolJson { index, arguments } => "tool call "@ + decimal(index as nat)
                + " contained invalid JSON object: "@ + arguments,
            DecodeErrorModel::ConflictingUsage => "Chat Completions stream contained conflicting usage"@,
            DecodeErrorModel::PrematureEof { expected } => "Chat Completions stream ended before "@ + expected,
            DecodeErrorModel::Dialect(error) => error.text(),
        }
    }
}

impl DecodeError {
    /// The message of the error.
    pub fn message(&self) -> (message: String)
        ensures
            message@ == self.deep_view().text(),
    {
        match self {
            DecodeError::EmptyStream => "Chat Completions stream was empty".to_owned(),
            DecodeError::InvalidUtf8 => "Chat Completions stream was not UTF-8".to_owned(),
            DecodeError::MalformedFraming(message) => concat("malformed data stream framing: ", message),
            DecodeError::MalformedChunk(message) => concat("malformed Chat Completions chunk: ", message),
            DecodeError::InvalidTransition(message) => concat("invalid Chat Completions transition: ", message),
            DecodeError::MissingFinishReason => "Chat Completions finish reason was missing".to_owned(),
            DecodeError::NullFinishReason => "Chat Completions finish reason was null".to_owned(),
            DecodeError::UnknownFinishReason(reason) => concat("unknown Chat Completions finish reason ", reason),
            DecodeError::DuplicateTerminal => "Chat Completions stream contained a duplicate terminal".to_owned(),
            DecodeError::ConflictingTerminal =>
                "Chat Completions stream contained conflicting terminal state".to_owned(),
            DecodeError::IncompleteTool { index, field } => {
                let mut text = concat3("tool call ", &decimal_text(*index as u64), " was incomplete: ");
                text.append(field);
                text
            },
            DecodeError::InvalidToolJson { index, arguments } => {
                let mut text = concat3("tool call ", &decimal_text(*index as u64), " contained invalid JSON object: ");
                text.append(arguments);
                text
            },
            DecodeError::ConflictingUsage => "Chat Completions stream contained conflicting usage".to_owned(),
            DecodeError::PrematureEof { expected } => concat("Chat Completions stream ended before ", expected),
            DecodeError::Dialect(error) => error.message(),
        }
    }
}

/// A response after a step, and whether the step went through.
pub type Step = (ResponseStateModel, Result<(), DecodeErrorModel>);

// ---- tool calls ----

/// The first place from `at` on of the tool call with this number.
pub open spec fn tool_place_from(tools: Seq<PendingToolModel>, index: usize, at: int) -> Option<int>
    decreases tools.len() - at,
{
    if at < 0 || at >= tools.len() {
        None
    } else if tools[at].index == index {
        Some(at)
    } else {
        tool_place_from(tools, index, at + 1)
    }
}

/// The tool calls with one under this number among them, and its place.
pub open spec fn with_tool(tools: Seq<PendingToolModel>, index: usize) -> (Seq<PendingToolModel>, int) {
    match tool_place_from(tools, index, 0) {
        Some(place) => (tools, place),
        None => (
            tools.push(
                PendingToolModel {
                    index,
                    id: None,
                    name: None,
                    arguments: Seq::empty(),
                    presented: false,
                    unpresented_arguments: Seq::empty(),
                },
            ),
            tools.len() as int,
        ),
    }
}

/// The place of the tool call with this number, which is added where it is not there.
pub fn find_tool(tools: &mut Vec<PendingTool>, index: usize) -> (place: usize)
    ensures
        (final(tools).deep_view(), place as int) == with_tool(old(tools).deep_view(), index),
        place < final(tools).len(),
{
    let mut i: usize = 0;
    while i < tools.len()
        invariant
            i <= tools.len(),
            *tools == *old(tools),
            tool_place_from(tools.deep_view(), index, 0) == tool_place_from(tools.deep_view(), index, i as int),
        decreases tools.len() - i,
    {
        if tools[i].index == index {
            return i;
        }
        i += 1;
    }
    push_item(
        tools,
        PendingTool {
            index,
            id: None,
            name: None,
            arguments: String::new(),
            presented: false,
            unpresented_arguments: String::new(),
        },
    );
    assert(tools.deep_view().len() == tools.len());
    i
}

/// A value that is set once and may only be repeated: what it is afterwards,
/// or nothing on a conflict.
pub open spec fn set_once(there: Option<Seq<char>>, value: Option<Seq<char>>) -> Option<Option<Seq<char>>> {
    match (there, value) {
        (_, None) => Some(there),
        (None, Some(value)) => Some(Some(value)),
        (Some(existing), Some(value)) => if existing == value {
            Some(there)
        } else {
            None
        },
    }
}

/// Sets a value once; a repeated value has to be the same.
pub fn try_set_once(there: &mut Option<String>, value: Option<String>) -> (set: bool)
    ensures
        match set_once(old(there).deep_view(), value.deep_view()) {
            Some(after) => set && final(there).deep_view() == after,
            None => !set && final(there).deep_view() == old(there).deep_view(),
        },
{
    match value {
        None => true,
        Some(value) => match there {
            None => {
                *there = Some(value);
                true
            },
            Some(existing) => *existing == value,
        },
    }
}

/// The text, or none where there is no text.
pub open spec fn or_empty(text: Option<Seq<char>>) -> Seq<char> {
    match text {
        Some(text) => text,
        None => Seq::empty(),
    }
}

/// The text, or none where there is no text.
pub fn text_or_empty(text: &Option<String>) -> (found: String)
    ensures
        found@ == or_empty(text.deep_view()),
{
    match text {
        Some(text) => text.duplicate(),
        None => String::new(),
    }
}

/// What a part of a tool call does to it, with its display; the display starts
/// once its identity is known, with the arguments that came before.
pub open spec fn tool_grows(
    tool: PendingToolModel,
    presented: Seq<PresentationDeltaModel>,
    arguments: Option<Seq<char>>,
) -> (PendingToolModel, Seq<PresentationDeltaModel>) {
    let (grown, shown) = match arguments {
        None => (tool, presented),
        Some(text) => if tool.presented {
            (
                PendingToolModel { arguments: tool.arguments + text, ..tool },
                presented.push(
                    PresentationDeltaModel::Tool {
                        index: tool.index,
                        id: or_empty(tool.id),
                        name: or_empty(tool.name),
                        delta: text,
                    },
                ),
            )
        } else {
            (
                PendingToolModel {
                    arguments: tool.arguments + text,
                    unpresented_arguments: tool.unpresented_arguments + text,
                    ..tool
                },
                presented,
            )
        },
    };
    if !grown.presented && grown.id is Some && grown.name is Some {
        (
            PendingToolModel { presented: true, unpresented_arguments: Seq::empty(), ..grown },
            shown.push(
                PresentationDeltaModel::Tool {
                    index: grown.index,
                    id: grown.id->0,
                    name: grown.name->0,
                    delta: grown.unpresented_arguments,
                },
            ),
        )
    } else {
        (grown, shown)
    }
}

fn grow_tool(tool: &mut PendingTool, presented: &mut Vec<PresentationDelta>, arguments: Option<String>)
    ensures
        (final(tool).deep_view(), final(presented).deep_view()) == tool_grows(
            old(tool).deep_view(),
            old(presented).deep_view(),
            arguments.deep_view(),
        ),
{
    if let Some(text) = arguments {
        tool.arguments.append(&text);
        if tool.presented {
            push_item(
                presented,
                PresentationDelta::Tool {
                    index: tool.index,
                    id: text_or_empty(&tool.id),
                    name: text_or_empty(&tool.name),
                    delta: text,
                },
            );
        } else {
            tool.unpresented_arguments.append(&text);
        }
    }
    if !tool.presented && tool.id.is_some() && tool.name.is_some() {
        let mut delta: String = String::new();
        std::mem::swap(&mut delta, &mut tool.unpresented_arguments);
        push_item(
            presented,
            PresentationDelta::Tool {
                index: tool.index,
                id: text_or_empty(&tool.id),
                name: text_or_empty(&tool.name),
                delta,
            },
        );
        tool.presented = true;
    }
}

/// A response after a part of a tool call.
pub open spec fn fragment_step(state: ResponseStateModel, fragment: ToolCallFragmentModel) -> Step {
    let (tools, place) = with_tool(state.tools, fragment.index);
    let tool = tools[place];
    match set_once(tool.id, fragment.id) {
        None => (
            ResponseStateModel { tools, ..state },
            Err(DecodeErrorModel::InvalidTransition("conflicting tool id fragments"@)),
        ),
        Some(id) => {
            let named = PendingToolModel { id, ..tool };
            if fragment.kind is Some && fragment.kind->0 != "function"@ {
                (
                    ResponseStateModel { tools: tools.update(place, named), ..state },
                    Err(DecodeErrorModel::InvalidTransition("unsupported tool type "@ + fragment.kind->0)),
                )
            } else {
                let (name, arguments) = match fragment.function {
                    Some(function) => (function.name, function.arguments),
                    None => (None, None),
                };
                match set_once(named.name, name) {
                    None => (
                        ResponseStateModel { tools: tools.update(place, named), ..state },
                        Err(DecodeErrorModel::InvalidTransition("conflicting tool name fragments"@)),
                    ),
                    Some(name) => {
                        let (grown, presented) = tool_grows(
                            PendingToolModel { name, ..named },
                            state.presented,
                            arguments,
                        );
                        (ResponseStateModel { tools: tools.update(place, grown), presented, ..state }, Ok(()))
                    },
                }
            }
        },
    }
}

/// Puts a tool call at its place.
pub fn put_tool(tools: &mut Vec<PendingTool>, place: usize, tool: PendingTool)
    requires
        place < old(tools).len(),
    ensures
        final(tools).deep_view() == old(tools).deep_view().update(place as int, tool.deep_view()),
{
    let ghost before = tools.deep_view();
    tools.set(place, tool);
    assert(tools.deep_view() =~= before.update(place as int, tool.deep_view()));
}

fn apply_fragment(state: &mut ResponseState, fragment: ToolCallFragment) -> (applied: Result<(), DecodeError>)
    ensures
        (final(state).deep_view(), outcome(applied)) == fragment_step(old(state).deep_view(), fragment.deep_view()),
{
    let place = find_tool(&mut state.tools, fragment.index);
    let mut tool = state.tools[place].duplicate();
    assert(tool.deep_view() == state.tools.deep_view()[place as int]);
    let ghost tools = state.tools.deep_view();
    if !try_set_once(&mut tool.id, fragment.id) {
        return Err(DecodeError::InvalidTransition("conflicting tool id fragments".to_owned()));
    }
    if let Some(kind) = fragment.kind {
        if !same_text(&kind, "function") {
            put_tool(&mut state.tools, place, tool);
            return Err(DecodeError::InvalidTransition(concat("unsupported tool type ", &kind)));
        }
    }
    let arguments = match fragment.function {
        Some(function) => {
            if !try_set_once(&mut tool.name, function.name) {
                put_tool(&mut state.tools, place, tool);
                return Err(DecodeError::InvalidTransition("conflicting tool name fragments".to_owned()));
            }
            function.arguments
        },
        None => None,
    };
    grow_tool(&mut tool, &mut state.presented, arguments);
    put_tool(&mut state.tools, place, tool);
    Ok(())
}

/// A response after the parts of tool calls from `at` on.
pub open spec fn fragments_step(state: ResponseStateModel, fragments: Seq<ToolCallFragmentModel>, at: int) -> Step
    decreases fragments.len() - at,
{
    if at < 0 || at >= fragments.len() {
        (state, Ok(()))
    } else {
        let (next, applied) = fragment_step(state, fragments[at]);
        match applied {
            Ok(_) => fragments_step(next, fragments, at + 1),
            Err(error) => (next, Err(error)),
        }
    }
}

// ---- deltas ----

/// A response after the content and the reasoning of a delta.
pub open spec fn spoken_step<D: DialectHooks>(
    state: ResponseStateModel,
    delta: ChunkDeltaModel,
    context: DialectContextModel,
    dialect: &D,
) -> Step {
    if delta.role is Some && delta.role->0 != "assistant"@ {
        (state, Err(DecodeErrorModel::InvalidTransition("unexpected delta role "@ + delta.role->0)))
    } else {
        let said = match delta.content {
            Some(text) => ResponseStateModel {
                content: state.content + text,
                presented: state.presented.push(PresentationDeltaModel::Content(text)),
                ..state
            },
            None => state,
        };
        match dialect.delta_for(context, delta.extensions) {
            Err(error) => (said, Err(DecodeErrorModel::Dialect(error))),
            Ok(None) => (said, Ok(())),
            Ok(Some(reasoning)) => (
                ResponseStateModel {
                    reasoning: said.reasoning + reasoning.text,
                    reasoning_provenance: Some(reasoning.provenance),
                    presented: said.presented.push(PresentationDeltaModel::Reasoning(reasoning.text)),
                    ..said
                },
                Ok(()),
            ),
        }
    }
}

/// A response after a delta.
pub open spec fn delta_step<D: DialectHooks>(
    state: ResponseStateModel,
    delta: ChunkDeltaModel,
    context: DialectContextModel,
    dialect: &D,
) -> Step {
    let (said, applied) = spoken_step(state, delta, context, dialect);
    match applied {
        Err(error) => (said, Err(error)),
        Ok(_) => fragments_step(said, delta.tool_calls, 0),
    }
}

fn apply_spoken<'a, D: DialectHooks>(
    state: &mut ResponseState,
    delta: &ChunkDelta,
    context: DialectContext<'a>,
    dialect: &D,
) -> (applied: Result<(), DecodeError>)
    ensures
        (final(state).deep_view(), outcome(applied)) == spoken_step(
            old(state).deep_view(),
            delta.deep_view(),
            context.deep_view(),
            dialect,
        ),
{
    if let Some(role) = &delta.role {
        if !same_text(role, "assistant") {
            return Err(DecodeError::InvalidTransition(concat("unexpected delta role ", role)));
        }
    }
    if let Some(text) = &delta.content {
        state.content.append(text);
        push_item(&mut state.presented, PresentationDelta::Content(text.duplicate()));
    }
    match dialect.reasoning_delta(context, &delta.extensions) {
        Err(error) => Err(DecodeError::Dialect(error)),
        Ok(None) => Ok(()),
        Ok(Some(reasoning)) => {
            state.reasoning.append(&reasoning.text);
            state.reasoning_provenance = Some(reasoning.provenance);
            push_item(&mut state.presented, PresentationDelta::Reasoning(reasoning.text));
            Ok(())
        },
    }
}

fn apply_delta<'a, D: DialectHooks>(
    state: &mut ResponseState,
    delta: &ChunkDelta,
    context: DialectContext<'a>,
    dialect: &D,
) -> (applied: Result<(), DecodeError>)
    ensures
        (final(state).deep_view(), outcome(applied)) == delta_step(
            old(state).deep_view(),
            delta.deep_view(),
            context.deep_view(),
            dialect,
        ),
{
    match apply_spoken(state, delta, context, dialect) {
        Err(error) => {
            return Err(error);
        },
        Ok(_) => {},
    }
    let mut i: usize = 0;
    let ghost said = state.deep_view();
    while i < delta.tool_calls.len()
        invariant
            i <= delta.tool_calls.len(),
            delta_step(old(state).deep_view(), delta.deep_view(), context.deep_view(), dialect) == fragments_step(
                state.deep_view(),
                delta.tool_calls.deep_view(),
                i as int,
            ),
        decreases delta.tool_calls.len() - i,
    {
        assert(delta.tool_calls.deep_view()[i as int] == delta.tool_calls@[i as int].deep_view());
        match apply_fragment(state, delta.tool_calls[i].duplicate()) {
            Err(error) => {
                return Err(error);
            },
            Ok(_) => {},
        }
        i += 1;
    }
    Ok(())
}

// ---- finish reasons ----

/// A response after the finish reason of a choice as it stands in the JSON.
pub open spec fn finish_step<D: DialectHooks>(
    state: ResponseStateModel,
    choice: JsonModel,
    context: DialectContextModel,
    dialect: &D,
) -> Step {
    match member(choice, "finish_reason"@) {
        None => (state, Ok(())),
        Some(JsonModel::Null) => (ResponseStateModel { null_finish: true, ..state }, Ok(())),
        Some(JsonModel::Text(name)) => match finish_reason_named(name) {
            None => (state, Err(DecodeErrorModel::UnknownFinishReason(name))),
            Some(reason) => match dialect.outcome_for(context, reason) {
                Err(error) => (state, Err(DecodeErrorModel::Dialect(error))),
                Ok(end) => (ResponseStateModel { terminal: Some((reason, end)), ..state }, Ok(())),
            },
        },
        Some(_) => (state, Err(DecodeErrorModel::MalformedChunk("finish_reason was not a string"@))),
    }
}

fn apply_finish<'a, D: DialectHooks>(
    state: &mut ResponseState,
    choice: &Json,
    context: DialectContext<'a>,
    dialect: &D,
) -> (applied: Result<(), DecodeError>)
    ensures
        (final(state).deep_view(), outcome(applied)) == finish_step(
            old(state).deep_view(),
            choice.deep_view(),
            context.deep_view(),
            dialect,
        ),
{
    match choice.get("finish_reason") {
        None => Ok(()),
        Some(Json::Null) => {
            state.null_finish = true;
            Ok(())
        },
        Some(Json::Text(name)) => match FinishReason::parse(name) {
            None => Err(DecodeError::UnknownFinishReason(name.duplicate())),
            Some(reason) => match dialect.finish_reason(context, reason) {
                Err(error) => Err(DecodeError::Dialect(error)),
                Ok(end) => {
                    state.terminal = Some((reason, end));
                    Ok(())
                },
            },
        },
        Some(_) => Err(DecodeError::MalformedChunk("finish_reason was not a string".to_owned())),
    }
}

/// The error for a choice behind a finish reason.
pub open spec fn terminal_conflict(terminal: (FinishReason, TerminalOutcome), choice: JsonModel) -> DecodeErrorModel {
    match member(choice, "finish_reason"@) {
        Some(JsonModel::Text(name)) => if finish_reason_named(name) == Some(terminal.0) {
            DecodeErrorModel::DuplicateTerminal
        } else {
            DecodeErrorModel::ConflictingTerminal
        },
        _ => DecodeErrorModel::ConflictingTerminal,
    }
}

fn conflict_error(terminal: (FinishReason, TerminalOutcome), choice: &Json) -> (error: DecodeError)
    ensures
        error.deep_view() == terminal_conflict(terminal, choice.deep_view()),
{
    if let Some(Json::Text(name)) = choice.get("finish_reason") {
        if let Some(reason) = FinishReason::parse(name) {
            if reason == terminal.0 {
                return DecodeError::DuplicateTerminal;
            }
        }
    }
    DecodeError::ConflictingTerminal
}

// ---- usage ----

/// Usage after a report, or nothing on a conflict.
pub open spec fn merged_usage(
    there: Option<ChunkUsageModel>,
    report: Option<ChunkUsageModel>,
    policy: UsageMergePolicy,
) -> Option<Option<ChunkUsageModel>> {
    match (there, report) {
        (_, None) => Some(there),
        (None, Some(_)) => Some(report),
        (Some(existing), Some(usage)) => if existing == usage {
            Some(there)
        } else {
            match policy {
                UsageMergePolicy::RequireIdentical => None,
                UsageMergePolicy::PreferLatest => Some(report),
            }
        },
    }
}

fn same_usage(usage: &ChunkUsage, other: &ChunkUsage) -> (same: bool)
    ensures
        same == (usage.deep_view() == other.deep_view()),
{
    usage.prompt_tokens == other.prompt_tokens && usage.completion_tokens == other.completion_tokens
        && usage.total_tokens == other.total_tokens && same_fields(&usage.details, &other.details)
}

fn merge_usage(there: &mut Option<ChunkUsage>, report: Option<ChunkUsage>, policy: UsageMergePolicy) -> (merged: bool)
    ensures
        match merged_usage(old(there).deep_view(), report.deep_view(), policy) {
            Some(after) => merged && final(there).deep_view() == after,
            None => !merged && final(there).deep_view() == old(there).deep_view(),
        },
{
    match report {
        None => true,
        Some(usage) => {
            let differs = match &*there {
                None => true,
                Some(existing) => !same_usage(existing, &usage),
            };
            if !differs {
                true
            } else if there.is_some() && policy == UsageMergePolicy::RequireIdentical {
                false
            } else {
                *there = Some(usage);
                true
            }
        },
    }
}

// ---- frames ----

/// A response after the choices from `at` on, and the usage that they report;
/// `raw` holds the choices as they stand in the JSON.
pub open spec fn choices_step<D: DialectHooks>(
    state: ResponseStateModel,
    usage: Option<ChunkUsageModel>,
    choices: Seq<ChunkChoiceModel>,
    raw: Seq<JsonModel>,
    at: int,
    policy: UsageMergePolicy,
    context: DialectContextModel,
    dialect: &D,
) -> (ResponseStateModel, Result<Option<ChunkUsageModel>, DecodeErrorModel>)
    decreases choices.len() - at,
{
    if at < 0 || at >= choices.len() {
        (state, Ok(usage))
    } else if choices[at].index != 0 {
        (
            state,
            Err(
                DecodeErrorModel::InvalidTransition(
                    "unsupported choice index "@ + decimal(choices[at].index as nat),
                ),
            ),
        )
    } else if state.terminal is Some {
        (state, Err(terminal_conflict(state.terminal->0, raw[at])))
    } else {
        let (said, applied) = delta_step(state, choices[at].delta, context, dialect);
        match applied {
            Err(error) => (said, Err(error)),
            Ok(_) => {
                let (ended, applied) = finish_step(said, raw[at], context, dialect);
                match applied {
                    Err(error) => (ended, Err(error)),
                    Ok(_) => match merged_usage(usage, choices[at].usage, policy) {
                        None => (ended, Err(DecodeErrorModel::ConflictingUsage)),
                        Some(usage) => choices_step(
                            ended,
                            usage,
                            choices,
                            raw,
                            at + 1,
                            policy,
                            context,
                            dialect,
                        ),
                    },
                }
            },
        }
    }
}

fn apply_choices<'a, D: DialectHooks>(
    state: &mut ResponseState,
    choices: &Vec<ChunkChoice>,
    raw: &Vec<Json>,
    policy: UsageMergePolicy,
    context: DialectContext<'a>,
    dialect: &D,
) -> (applied: Result<Option<ChunkUsage>, DecodeError>)
    requires
        raw.len() == choices.len(),
    ensures
        (final(state).deep_view(), outcome(applied)) == choices_step(
            old(state).deep_view(),
            None,
            choices.deep_view(),
            raw.deep_view(),
            0,
            policy,
            context.deep_view(),
            dialect,
        ),
{
    let mut usage: Option<ChunkUsage> = None;
    let mut i: usize = 0;
    while i < choices.len()
        invariant
            i <= choices.len(),
            raw.len() == choices.len(),
            choices_step(
                old(state).deep_view(),
                None,
                choices.deep_view(),
                raw.deep_view(),
                0,
                policy,
                context.deep_view(),
                dialect,
            ) == choices_step(
                state.deep_view(),
                usage.deep_view(),
                choices.deep_view(),
                raw.deep_view(),
                i as int,
                policy,
                context.deep_view(),
                dialect,
            ),
        decreases choices.len() - i,
    {
        let choice = &choices[i];
        assert(choices.deep_view()[i as int] == choice.deep_view());
        assert(raw.deep_view()[i as int] == raw@[i as int].deep_view());
        if choice.index != 0 {
            return Err(
                DecodeError::InvalidTransition(
                    concat("unsupported choice index ", &decimal_text(choice.index as u64)),
                ),
            );
        }
        if let Some(terminal) = state.terminal {
            return Err(conflict_error(terminal, &raw[i]));
        }
        match apply_delta(state, &choice.delta, context, dialect) {
            Err(error) => {
                return Err(error);
            },
            Ok(_) => {},
        }
        match apply_finish(state, &raw[i], context, dialect) {
            Err(error) => {
                return Err(error);
            },
            Ok(_) => {},
        }
        if !merge_usage(&mut usage, choice.usage.duplicate(), policy) {
            return Err(DecodeError::ConflictingUsage);
        }
        i += 1;
    }
    Ok(usage)
}

/// A response after its number; all chunks have the same.
pub open spec fn id_step(state: ResponseStateModel, id: Seq<char>) -> Step {
    match state.response_id {
        None => (ResponseStateModel { response_id: Some(id), ..state }, Ok(())),
        Some(existing) => if existing == id {
            (state, Ok(()))
        } else {
            (state, Err(DecodeErrorModel::InvalidTransition("response id changed between chunks"@)))
        },
    }
}

fn set_response_id(state: &mut ResponseState, id: String) -> (applied: Result<(), DecodeError>)
    ensures
        (final(state).deep_view(), outcome(applied)) == id_step(old(state).deep_view(), id@),
{
    if let Some(existing) = &state.response_id {
        if *existing == id {
            Ok(())
        } else {
            Err(DecodeError::InvalidTransition("response id changed between chunks".to_owned()))
        }
    } else {
        state.response_id = Some(id);
        Ok(())
    }
}

/// The choices as they stand in the JSON, one for each that was read.
pub open spec fn raw_choices(raw: JsonModel, count: nat) -> Result<Seq<JsonModel>, Seq<char>> {
    match member(raw, "choices"@) {
        Some(JsonModel::Array(items)) => if items.len() == count {
            Ok(items)
        } else {
            Err("choice representation mismatch"@)
        },
        _ => Err("choices was not an array"@),
    }
}

/// A response after the usage that a chunk reports: that of its choices, then
/// its own.
pub open spec fn usage_step(
    state: ResponseStateModel,
    choices: Option<ChunkUsageModel>,
    whole: Option<ChunkUsageModel>,
    policy: UsageMergePolicy,
) -> Step {
    match merged_usage(choices, whole, policy) {
        None => (state, Err(DecodeErrorModel::ConflictingUsage)),
        Some(report) => match merged_usage(state.usage, report, policy) {
            None => (state, Err(DecodeErrorModel::ConflictingUsage)),
            Some(usage) => (ResponseStateModel { usage, ..state }, Ok(())),
        },
    }
}

/// A response after a chunk, given as JSON.
pub open spec fn chunk_step<D: DialectHooks>(
    state: ResponseStateModel,
    raw: JsonModel,
    context: DialectContextModel,
    dialect: &D,
) -> Step {
    match chunk_of(raw) {
        Err(message) => (state, Err(DecodeErrorModel::MalformedChunk(message))),
        Ok(chunk) => {
            let (known, applied) = id_step(ResponseStateModel { recognized: true, ..state }, chunk.id);
            match applied {
                Err(error) => (known, Err(error)),
                Ok(_) => match raw_choices(raw, chunk.choices.len()) {
                    Err(message) => (known, Err(DecodeErrorModel::MalformedChunk(message))),
                    Ok(items) => match dialect.policy_for(context) {
                        Err(error) => (known, Err(DecodeErrorModel::Dialect(error))),
                        Ok(policy) => {
                            let (said, applied) = choices_step(
                                known,
                                None,
                                chunk.choices,
                                items,
                                0,
                                policy,
                                context,
                                dialect,
                            );
                            match applied {
                                Err(error) => (said, Err(error)),
                                Ok(usage) => usage_step(said, usage, chunk.usage, policy),
                            }
                        },
                    },
                },
            }
        },
    }
}

/// A response after a chunk, given as JSON.
pub fn apply_chunk<'a, D: DialectHooks>(
    state: &mut ResponseState,
    raw: &Json,
    context: DialectContext<'a>,
    dialect: &D,
) -> (applied: Result<(), DecodeError>)
    ensures
        (final(state).deep_view(), outcome(applied)) == chunk_step(
            old(state).deep_view(),
            raw.deep_view(),
            context.deep_view(),
            dialect,
        ),
{
    broadcast use lemma_array_model;
    let chunk = match ChatCompletionChunk::from_json(raw) {
        Err(message) => {
            return Err(DecodeError::MalformedChunk(message));
        },
        Ok(chunk) => chunk,
    };
    state.recognized = true;
    match set_response_id(state, chunk.id) {
        Err(error) => {
            return Err(error);
        },
        Ok(_) => {},
    }
    let items = match raw.get("choices") {
        Some(Json::Array(items)) => items,
        _ => {
            return Err(DecodeError::MalformedChunk("choices was not an array".to_owned()));
        },
    };
    if items.len() != chunk.choices.len() {
        return Err(DecodeError::MalformedChunk("choice representation mismatch".to_owned()));
    }
    let policy = match dialect.usage_merge_policy(context) {
        Err(error) => {
            return Err(DecodeError::Dialect(error));
        },
        Ok(policy) => policy,
    };
    let mut usage = match apply_choices(state, &chunk.choices, items, policy, context, dialect) {
        Err(error) => {
            return Err(error);
        },
        Ok(usage) => usage,
    };
    if !merge_usage(&mut usage, chunk.usage, policy) {
        return Err(DecodeError::ConflictingUsage);
    }
    if !merge_usage(&mut state.usage, usage, policy) {
        return Err(DecodeError::ConflictingUsage);
    }
    Ok(())
}

/// A response after a frame of data.
pub open spec fn frame_step<D: DialectHooks>(
    state: ResponseStateModel,
    data: Seq<char>,
    context: DialectContextModel,
    dialect: &D,
) -> Step {
    if state.done {
        (state, Err(DecodeErrorModel::InvalidTransition("data followed [DONE]"@)))
    } else if data == "[DONE]"@ {
        (ResponseStateModel { done: true, ..state }, Ok(()))
    } else {
        match json_parse(data) {
            Err(message) => (state, Err(DecodeErrorModel::MalformedChunk(message))),
            Ok(raw) => chunk_step(state, raw, context, dialect),
        }
    }
}

fn apply_frame<'a, D: DialectHooks>(
    state: &mut ResponseState,
    data: &str,
    context: DialectContext<'a>,
    dialect: &D,
) -> (applied: Result<(), DecodeError>)
    ensures
        (final(state).deep_view(), outcome(applied)) == frame_step(
            old(state).deep_view(),
            data@,
            context.deep_view(),
            dialect,
        ),
{
    if state.done {
        return Err(DecodeError::InvalidTransition("data followed [DONE]".to_owned()));
    }
    if *data == *"[DONE]" {
        state.done = true;
        return Ok(());
    }
    match parse_json(data) {
        Err(message) => Err(DecodeError::MalformedChunk(message)),
        Ok(raw) => apply_chunk(state, &raw, context, dialect),
    }
}

// ---- framing ----

/// Framing and response after a step, and whether the step went through.
pub type FramingStep = (FramingModel, ResponseStateModel, Result<(), DecodeErrorModel>);

/// What follows the end of a frame.
pub open spec fn emit_step<D: DialectHooks>(
    framing: FramingModel,
    state: ResponseStateModel,
    context: DialectContextModel,
    dialect: &D,
) -> FramingStep {
    if framing.data.len() == 0 {
        (framing, state, Ok(()))
    } else {
        let (next, applied) = frame_step(state, joined(framing.data), context, dialect);
        (FramingModel { data: Seq::empty(), ..framing }, next, applied)
    }
}

/// The value of a data line: without the name, and without one blank.
pub open spec fn data_value(line: Seq<char>) -> Option<Seq<char>> {
    match stripped(line, "data:"@) {
        None => None,
        Some(value) => match stripped(value, " "@) {
            None => Some(value),
            Some(rest) => Some(rest),
        },
    }
}

/// What follows the end of a line: an empty line ends a frame, a comment is
/// dropped, a data line adds to the frame, and any other is an error.
pub open spec fn line_step<D: DialectHooks>(
    framing: FramingModel,
    state: ResponseStateModel,
    context: DialectContextModel,
    dialect: &D,
) -> FramingStep {
    if framing.line.len() == 0 {
        emit_step(framing, state, context, dialect)
    } else {
        let taken = FramingModel { line: Seq::empty(), ..framing };
        match utf8_chars(framing.line) {
            None => (taken, state, Err(DecodeErrorModel::InvalidUtf8)),
            Some(line) => if begins_with(line, ":"@) {
                (taken, state, Ok(()))
            } else {
                match data_value(line) {
                    None => (
                        taken,
                        state,
                        Err(DecodeErrorModel::MalformedFraming("unsupported stream line "@ + quoted(line))),
                    ),
                    Some(value) => (FramingModel { data: taken.data.push(value), ..taken }, state, Ok(())),
                }
            },
        }
    }
}

fn end_frame<'a, D: DialectHooks>(
    framing: &mut Framing,
    state: &mut ResponseState,
    context: DialectContext<'a>,
    dialect: &D,
) -> (applied: Result<(), DecodeError>)
    ensures
        (final(framing).deep_view(), final(state).deep_view(), outcome(applied)) == emit_step(
            old(framing).deep_view(),
            old(state).deep_view(),
            context.deep_view(),
            dialect,
        ),
{
    if framing.data.len() == 0 {
        return Ok(());
    }
    let data = join_lines(&framing.data);
    framing.data = no_items();
    apply_frame(state, &data, context, dialect)
}

fn end_line<'a, D: DialectHooks>(
    framing: &mut Framing,
    state: &mut ResponseState,
    context: DialectContext<'a>,
    dialect: &D,
) -> (applied: Result<(), DecodeError>)
    ensures
        (final(framing).deep_view(), final(state).deep_view(), outcome(applied)) == line_step(
            old(framing).deep_view(),
            old(state).deep_view(),
            context.deep_view(),
            dialect,
        ),
{
    if framing.line.len() == 0 {
        return end_frame(framing, state, context, dialect);
    }
    let mut bytes: Vec<u8> = no_items();
    std::mem::swap(&mut bytes, &mut framing.line);
    assert(bytes@ =~= bytes.deep_view());
    let line = match utf8_text(bytes.as_slice()) {
        None => {
            return Err(DecodeError::InvalidUtf8);
        },
        Some(line) => line,
    };
    if starts_with(line, ":") {
        return Ok(());
    }
    match strip_prefix(line, "data:") {
        None => Err(DecodeError::MalformedFraming(concat("unsupported stream line ", &quote(line)))),
        Some(value) => {
            match strip_prefix(&value, " ") {
                None => push_item(&mut framing.data, value),
                Some(rest) => push_item(&mut framing.data, rest),
            }
            Ok(())
        },
    }
}

/// What one byte does: a carriage return, a line feed, or both together end a
/// line.
pub open spec fn byte_step<D: DialectHooks>(
    framing: FramingModel,
    state: ResponseStateModel,
    byte: u8,
    context: DialectContextModel,
    dialect: &D,
) -> FramingStep {
    let ready = FramingModel { skip_lf: false, ..framing };
    if framing.skip_lf && byte == 10 {
        (ready, state, Ok(()))
    } else if byte == 13 {
        let (ended, next, applied) = line_step(ready, state, context, dialect);
        match applied {
            Ok(_) => (FramingModel { skip_lf: true, ..ended }, next, Ok(())),
            Err(error) => (ended, next, Err(error)),
        }
    } else if byte == 10 {
        line_step(ready, state, context, dialect)
    } else {
        (FramingModel { line: ready.line.push(byte), ..ready }, state, Ok(()))
    }
}

/// What the bytes from `at` on do, up to the first error.
pub open spec fn bytes_step<D: DialectHooks>(
    framing: FramingModel,
    state: ResponseStateModel,
    bytes: Seq<u8>,
    at: int,
    context: DialectContextModel,
    dialect: &D,
) -> FramingStep
    decreases bytes.len() - at,
{
    if at < 0 || at >= bytes.len() {
        (framing, state, Ok(()))
    } else {
        let (next_framing, next_state, applied) = byte_step(framing, state, bytes[at], context, dialect);
        match applied {
            Ok(_) => bytes_step(next_framing, next_state, bytes, at + 1, context, dialect),
            Err(error) => (next_framing, next_state, Err(error)),
        }
    }
}

fn push_byte<'a, D: DialectHooks>(
    framing: &mut Framing,
    state: &mut ResponseState,
    byte: u8,
    context: DialectContext<'a>,
    dialect: &D,
) -> (applied: Result<(), DecodeError>)
    ensures
        (final(framing).deep_view(), final(state).deep_view(), outcome(applied)) == byte_step(
            old(framing).deep_view(),
            old(state).deep_view(),
            byte,
            context.deep_view(),
            dialect,
        ),
{
    if framing.skip_lf {
        framing.skip_lf = false;
        if byte == 10 {
            return Ok(());
        }
    }
    if byte == 13 {
        match end_line(framing, state, context, dialect) {
            Ok(_) => {
                framing.skip_lf = true;
                Ok(())
            },
            Err(error) => Err(error),
        }
    } else if byte == 10 {
        end_line(framing, state, context, dialect)
    } else {
        push_item(&mut framing.line, byte);
        Ok(())
    }
}

fn push_bytes<'a, D: DialectHooks>(
    framing: &mut Framing,
    state: &mut ResponseState,
    bytes: &[u8],
    context: DialectContext<'a>,
    dialect: &D,
) -> (applied: Result<(), DecodeError>)
    ensures
        (final(framing).deep_view(), final(state).deep_view(), outcome(applied)) == bytes_step(
            old(framing).deep_view(),
            old(state).deep_view(),
            bytes@,
            0,
            context.deep_view(),
            dialect,
        ),
{
    let mut i: usize = 0;
    while i < bytes.len()
        invariant
            i <= bytes.len(),
            bytes_step(old(framing).deep_view(), old(state).deep_view(), bytes@, 0, context.deep_view(), dialect)
                == bytes_step(
                framing.deep_view(),
                state.deep_view(),
                bytes@,
                i as int,
                context.deep_view(),
                dialect,
            ),
        decreases bytes.len() - i,
    {
        match push_byte(framing, state, bytes[i], context, dialect) {
            Err(error) => {
                return Err(error);
            },
            Ok(_) => {},
        }
        i += 1;
    }
    Ok(())
}

// ---- the end ----

/// The tool calls from `at` on behind those that are done: each with its
/// identity and with a JSON object as arguments, or the first that is not.
pub open spec fn complete_from(tools: Seq<PendingToolModel>, at: int, done: Seq<ToolCallModel>) -> Result<
    Seq<ToolCallModel>,
    DecodeErrorModel,
>
    decreases tools.len() - at,
{
    if at < 0 || at >= tools.len() {
        Ok(done)
    } else {
        match complete_tool(tools[at]) {
            Ok(call) => complete_from(tools, at + 1, done.push(call)),
            Err(error) => Err(error),
        }
    }
}

/// A tool call with its identity and with a JSON object as arguments.
pub open spec fn complete_tool(tool: PendingToolModel) -> Result<ToolCallModel, DecodeErrorModel> {
    if tool.id is None {
        Err(DecodeErrorModel::IncompleteTool { index: tool.index, field: "id"@ })
    } else if tool.name is None {
        Err(DecodeErrorModel::IncompleteTool { index: tool.index, field: "name"@ })
    } else {
        match json_parse(tool.arguments) {
            Ok(JsonModel::Object(_)) => Ok(
                ToolCallModel {
                    id: tool.id->0,
                    kind: ToolCallKind::Function,
                    function: ToolCallFunctionModel { name: tool.name->0, arguments: tool.arguments },
                },
            ),
            _ => Err(DecodeErrorModel::InvalidToolJson { index: tool.index, arguments: tool.arguments }),
        }
    }
}

fn complete_one(tool: &PendingTool) -> (call: Result<ToolCall, DecodeError>)
    ensures
        outcome(call) == complete_tool(tool.deep_view()),
{
    let id = match &tool.id {
        None => {
            return Err(DecodeError::IncompleteTool { index: tool.index, field: "id".to_owned() });
        },
        Some(id) => id,
    };
    let name = match &tool.name {
        None => {
            return Err(DecodeError::IncompleteTool { index: tool.index, field: "name".to_owned() });
        },
        Some(name) => name,
    };
    match parse_json(&tool.arguments) {
        Ok(Json::Object(_)) => Ok(
            ToolCall {
                id: id.duplicate(),
                kind: ToolCallKind::Function,
                function: ToolCallFunction { name: name.duplicate(), arguments: tool.arguments.duplicate() },
            },
        ),
        _ => Err(DecodeError::InvalidToolJson { index: tool.index, arguments: tool.arguments.duplicate() }),
    }
}

fn complete_tools(tools: &Vec<PendingTool>) -> (calls: Result<Vec<ToolCall>, DecodeError>)
    ensures
        outcome(calls) == complete_from(tools.deep_view(), 0, Seq::empty()),
{
    let mut done: Vec<ToolCall> = no_items();
    let mut i: usize = 0;
    while i < tools.len()
        invariant
            i <= tools.len(),
            complete_from(tools.deep_view(), 0, Seq::empty()) == complete_from(
                tools.deep_view(),
                i as int,
                done.deep_view(),
            ),
        decreases tools.len() - i,
    {
        assert(tools.deep_view()[i as int] == tools@[i as int].deep_view());
        match complete_one(&tools[i]) {
            Ok(call) => {
                push_item(&mut done, call);
            },
            Err(error) => {
                return Err(error);
            },
        }
        i += 1;
    }
    Ok(done)
}

/// What a response lacks that ended in this way.
pub open spec fn terminal_error(end: TerminalOutcome, content: nat, reasoning: nat, tools: nat) -> Option<Seq<char>> {
    match end {
        TerminalOutcome::Completed | TerminalOutcome::Continue => if tools == 0 && (content > 0 || reasoning > 0) {
            None
        } else {
            Some("successful terminal had no content"@)
        },
        TerminalOutcome::ToolsReady => if tools > 0 {
            None
        } else {
            Some("tool terminal had no complete tools"@)
        },
        TerminalOutcome::OutputExhausted | TerminalOutcome::Refusal => None,
    }
}

/// What a response lacks that ended in this way.
pub fn validate_terminal(end: TerminalOutcome, content: &str, reasoning: &str, tools: &Vec<ToolCall>) -> (error: Option<
    DecodeError,
>)
    ensures
        error.deep_view() == match terminal_error(end, content@.len(), reasoning@.len(), tools@.len()) {
            None => None,
            Some(message) => Some(DecodeErrorModel::InvalidTransition(message)),
        },
{
    match end {
        TerminalOutcome::Completed | TerminalOutcome::Continue => {
            if tools.len() == 0 && (!content.is_empty() || !reasoning.is_empty()) {
                None
            } else {
                Some(DecodeError::InvalidTransition("successful terminal had no content".to_owned()))
            }
        },
        TerminalOutcome::ToolsReady => {
            if tools.len() > 0 {
                None
            } else {
                Some(DecodeError::InvalidTransition("tool terminal had no complete tools".to_owned()))
            }
        },
        TerminalOutcome::OutputExhausted | TerminalOutcome::Refusal => None,
    }
}

/// Whether output may be committed after an end of this kind.
pub open spec fn committable(end: TerminalOutcome) -> bool {
    match end {
        TerminalOutcome::Completed | TerminalOutcome::ToolsReady | TerminalOutcome::Continue => true,
        TerminalOutcome::OutputExhausted | TerminalOutcome::Refusal => false,
    }
}

/// The details of usage that the dialect reads; none where none was reported.
pub open spec fn details_of<D: DialectHooks>(
    usage: Option<ChunkUsageModel>,
    context: DialectContextModel,
    dialect: &D,
) -> Result<UsageDetails, DialectErrorModel> {
    match usage {
        None => Ok(UsageDetails { cached_prompt_tokens: 0, reasoning_tokens: 0 }),
        Some(usage) => dialect.details_for(context, usage),
    }
}

/// The whole response at the end of the stream.
pub open spec fn finished<D: DialectHooks>(
    state: ResponseStateModel,
    metadata: ResponseMetadataModel,
    context: DialectContextModel,
    dialect: &D,
) -> Result<DecodedStreamModel, DecodeErrorModel> {
    if !state.recognized {
        Err(DecodeErrorModel::PrematureEof { expected: "a recognized chunk"@ })
    } else if !state.done {
        Err(DecodeErrorModel::PrematureEof { expected: "[DONE]"@ })
    } else {
        match complete_from(state.tools, 0, Seq::empty()) {
            Err(error) => Err(error),
            Ok(tools) => match state.terminal {
                None => Err(
                    if state.null_finish {
                        DecodeErrorModel::NullFinishReason
                    } else {
                        DecodeErrorModel::MissingFinishReason
                    },
                ),
                Some((_, end)) => match terminal_error(end, state.content.len(), state.reasoning.len(), tools.len()) {
                    Some(message) => Err(DecodeErrorModel::InvalidTransition(message)),
                    None => match details_of(state.usage, context, dialect) {
                        Err(error) => Err(DecodeErrorModel::Dialect(error)),
                        Ok(usage_details) => Ok(
                            DecodedStreamModel {
                                response_id: or_empty(state.response_id),
                                terminal_outcome: end,
                                pending: if committable(end) {
                                    Some(
                                        PendingResultModel {
                                            content: state.content,
                                            reasoning: state.reasoning,
                                            reasoning_provenance: state.reasoning_provenance,
                                            tool_calls: tools,
                                        },
                                    )
                                } else {
                                    None
                                },
                                usage: state.usage,
                                usage_details,
                                metadata,
                            },
                        ),
                    },
                },
            },
        }
    }
}

fn finish_response<'a, D: DialectHooks>(
    state: ResponseState,
    metadata: ResponseMetadata,
    context: DialectContext<'a>,
    dialect: &D,
) -> (decoded: Result<DecodedStream, DecodeError>)
    ensures
        outcome(decoded) == finished(state.deep_view(), metadata.deep_view(), context.deep_view(), dialect),
{
    if !state.recognized {
        return Err(DecodeError::PrematureEof { expected: "a recognized chunk".to_owned() });
    }
    if !state.done {
        return Err(DecodeError::PrematureEof { expected: "[DONE]".to_owned() });
    }
    let tool_calls = match complete_tools(&state.tools) {
        Err(error) => {
            return Err(error);
        },
        Ok(calls) => calls,
    };
    assert(tool_calls.deep_view().len() == tool_calls.len());
    let end = match state.terminal {
        None => {
            return Err(
                if state.null_finish {
                    DecodeError::NullFinishReason
                } else {
                    DecodeError::MissingFinishReason
                },
            );
        },
        Some(terminal) => terminal.1,
    };
    if let Some(error) = validate_terminal(end, &state.content, &state.reasoning, &tool_calls) {
        return Err(error);
    }
    let usage_details = match &state.usage {
        None => UsageDetails { cached_prompt_tokens: 0, reasoning_tokens: 0 },
        Some(usage) => match dialect.usage_details(context, usage) {
            Err(error) => {
                return Err(DecodeError::Dialect(error));
            },
            Ok(details) => details,
        },
    };
    let pending = match end {
        TerminalOutcome::Completed | TerminalOutcome::ToolsReady | TerminalOutcome::Continue => Some(
            PendingResult {
                content: state.content,
                reasoning: state.reasoning,
                reasoning_provenance: state.reasoning_provenance,
                tool_calls,
            },
        ),
        TerminalOutcome::OutputExhausted | TerminalOutcome::Refusal => None,
    };
    Ok(
        DecodedStream {
            response_id: text_or_empty(&state.response_id),
            terminal_outcome: end,
            pending,
            usage: state.usage,
            usage_details,
            metadata,
        },
    )
}

// ---- the decoder ----

/// What a decoder remembers before the first byte.
pub open spec fn fresh_session() -> SessionModel {
    SessionModel {
        state: ResponseStateModel {
            response_id: None,
            content: Seq::empty(),
            reasoning: Seq::empty(),
            reasoning_provenance: None,
            tools: Seq::empty(),
            usage: None,
            terminal: None,
            null_finish: false,
            recognized: false,
            done: false,
            presented: Seq::empty(),
        },
        framing: FramingModel { line: Seq::empty(), data: Seq::empty(), skip_lf: false },
        empty: true,
        deferred_error: None,
    }
}

/// Whether a byte is white space.
pub open spec fn is_blank(byte: u8) -> bool {
    byte == 9 || byte == 10 || byte == 12 || byte == 13 || byte == 32
}

/// Whether all bytes are white space.
pub open spec fn all_blank(bytes: Seq<u8>) -> bool {
    forall|i: int| 0 <= i < bytes.len() ==> is_blank(#[trigger] bytes[i])
}

/// Whether all bytes are white space.
pub fn only_blank(bytes: &[u8]) -> (blank: bool)
    ensures
        blank == all_blank(bytes@),
{
    let mut i: usize = 0;
    while i < bytes.len()
        invariant
            i <= bytes.len(),
            forall|j: int| 0 <= j < i ==> is_blank(#[trigger] bytes@[j]),
        decreases bytes.len() - i,
    {
        let byte = bytes[i];
        if !(byte == 9 || byte == 10 || byte == 12 || byte == 13 || byte == 32) {
            assert(!is_blank(bytes@[i as int]));
            return false;
        }
        i += 1;
    }
    true
}

/// A session after a fragment. An error in white space at the start is kept
/// back until something else comes.
pub open spec fn feed_step<D: DialectHooks>(
    session: SessionModel,
    fragment: Seq<u8>,
    context: DialectContextModel,
    dialect: &D,
) -> (SessionModel, Result<(), DecodeErrorModel>) {
    let blank = all_blank(fragment);
    if !blank && session.deferred_error is Some {
        (SessionModel { deferred_error: None, ..session }, Err(session.deferred_error->0))
    } else {
        let empty = session.empty && blank;
        let (framing, state, applied) = bytes_step(session.framing, session.state, fragment, 0, context, dialect);
        let next = SessionModel { state, framing, empty, ..session };
        match applied {
            Ok(_) => (next, Ok(())),
            Err(error) => if empty {
                (SessionModel { deferred_error: Some(error), ..next }, Ok(()))
            } else {
                (next, Err(error))
            },
        }
    }
}

/// A response after the end of its stream, where the last line and the last
/// frame may not have been ended.
pub open spec fn session_closed<D: DialectHooks>(
    session: SessionModel,
    context: DialectContextModel,
    dialect: &D,
) -> Step {
    if session.empty {
        (session.state, Err(DecodeErrorModel::EmptyStream))
    } else if session.deferred_error is Some {
        (session.state, Err(session.deferred_error->0))
    } else {
        let (framing, state, lined) = if session.framing.line.len() == 0 {
            (session.framing, session.state, Ok(()))
        } else {
            line_step(session.framing, session.state, context, dialect)
        };
        match lined {
            Err(error) => (state, Err(error)),
            Ok(_) => {
                let (_, state, emitted) = emit_step(framing, state, context, dialect);
                (state, emitted)
            },
        }
    }
}

/// The whole response at the end of a session.
pub open spec fn session_end<D: DialectHooks>(
    session: SessionModel,
    metadata: ResponseMetadataModel,
    context: DialectContextModel,
    dialect: &D,
) -> Result<DecodedStreamModel, DecodeErrorModel> {
    let (state, closed) = session_closed(session, context, dialect);
    match closed {
        Err(error) => Err(error),
        Ok(_) => finished(state, metadata, context, dialect),
    }
}

/// A decoder that takes a stream fragment by fragment. What is for display is
/// collected and handed out by [`IncrementalDecoder::take_presentation`].
pub struct IncrementalDecoder<'a, D> {
    pub params: DecodeStream<'a, D>,
    pub session: Session,
}

impl<'a, D: DialectHooks> IncrementalDecoder<'a, D> {
    /// A decoder before the first byte.
    pub fn new(params: DecodeStream<'a, D>) -> (decoder: Self)
        ensures
            decoder.params == params,
            decoder.session.deep_view() == fresh_session(),
    {
        let session = Session {
            state: ResponseState {
                response_id: None,
                content: String::new(),
                reasoning: String::new(),
                reasoning_provenance: None,
                tools: no_items(),
                usage: None,
                terminal: None,
                null_finish: false,
                recognized: false,
                done: false,
                presented: no_items(),
            },
            framing: Framing { line: no_items(), data: no_items(), skip_lf: false },
            empty: true,
            deferred_error: None,
        };
        IncrementalDecoder { params, session }
    }

    /// Takes the next fragment of the stream.
    pub fn feed(&mut self, fragment: &[u8]) -> (fed: Result<(), DecodeError>)
        ensures
            final(self).params == old(self).params,
            (final(self).session.deep_view(), outcome(fed)) == feed_step(
                old(self).session.deep_view(),
                fragment@,
                old(self).params.context.deep_view(),
                old(self).params.dialect,
            ),
    {
        let blank = only_blank(fragment);
        if !blank && self.session.deferred_error.is_some() {
            let mut deferred: Option<DecodeError> = None;
            std::mem::swap(&mut deferred, &mut self.session.deferred_error);
            if let Some(error) = deferred {
                return Err(error);
            }
        }
        self.session.empty = self.session.empty && blank;
        let context = self.params.context;
        let dialect = self.params.dialect;
        match push_bytes(&mut self.session.framing, &mut self.session.state, fragment, context, dialect) {
            Ok(_) => Ok(()),
            Err(error) => {
                if !self.session.empty {
                    return Err(error);
                }
                self.session.deferred_error = Some(error);
                Ok(())
            },
        }
    }

    /// Whether the end of the stream was announced.
    pub fn is_complete(&self) -> (complete: bool)
        ensures
            complete == self.session.state.done,
    {
        self.session.state.done
    }

    /// Hands out what was collected for display.
    pub fn take_presentation(&mut self) -> (presented: Vec<PresentationDelta>)
        ensures
            presented.deep_view() == old(self).session.deep_view().state.presented,
            final(self).params == old(self).params,
            final(self).session.deep_view() == (SessionModel {
                state: ResponseStateModel { presented: Seq::empty(), ..old(self).session.deep_view().state },
                ..old(self).session.deep_view()
            }),
    {
        let mut presented: Vec<PresentationDelta> = no_items();
        std::mem::swap(&mut presented, &mut self.session.state.presented);
        presented
    }

    /// The whole response at the end of the stream. What was not handed out for
    /// display is appended to `presentation`.
    pub fn finish(self, presentation: &mut Vec<PresentationDelta>) -> (decoded: Result<DecodedStream, DecodeError>)
        ensures
            outcome(decoded) == session_end(
                self.session.deep_view(),
                self.params.metadata.deep_view(),
                self.params.context.deep_view(),
                self.params.dialect,
            ),
            final(presentation).deep_view() == old(presentation).deep_view() + session_closed(
                self.session.deep_view(),
                self.params.context.deep_view(),
                self.params.dialect,
            ).0.presented,
    {
        let context = self.params.context;
        let dialect = self.params.dialect;
        let metadata = self.params.metadata;
        let mut framing = self.session.framing;
        let mut state = self.session.state;
        let mut closed: Result<(), DecodeError> = Ok(());
        if self.session.empty {
            closed = Err(DecodeError::EmptyStream);
        } else if let Some(error) = self.session.deferred_error {
            closed = Err(error);
        } else {
            if framing.line.len() > 0 {
                closed = end_line(&mut framing, &mut state, context, dialect);
            }
            if closed.is_ok() {
                closed = end_frame(&mut framing, &mut state, context, dialect);
            }
        }
        let mut presented: Vec<PresentationDelta> = no_items();
        std::mem::swap(&mut presented, &mut state.presented);
        append_items(presentation, presented);
        match closed {
            Err(error) => Err(error),
            Ok(_) => finish_response(state, metadata, context, dialect),
        }
    }
}

/// A session after the fragments from `at` on, up to the first error.
pub open spec fn fragments_fed<D: DialectHooks>(
    session: SessionModel,
    fragments: Seq<Seq<u8>>,
    at: int,
    context: DialectContextModel,
    dialect: &D,
) -> (SessionModel, Result<(), DecodeErrorModel>)
    decreases fragments.len() - at,
{
    if at < 0 || at >= fragments.len() {
        (session, Ok(()))
    } else {
        let (next, fed) = feed_step(session, fragments[at], context, dialect);
        match fed {
            Ok(_) => fragments_fed(next, fragments, at + 1, context, dialect),
            Err(error) => (next, Err(error)),
        }
    }
}

/// What a stream of fragments decodes to.
pub open spec fn decoded_stream<D: DialectHooks>(
    fragments: Seq<Seq<u8>>,
    metadata: ResponseMetadataModel,
    context: DialectContextModel,
    dialect: &D,
) -> Result<DecodedStreamModel, DecodeErrorModel> {
    let (session, fed) = fragments_fed(fresh_session(), fragments, 0, context, dialect);
    match fed {
        Err(error) => Err(error),
        Ok(_) => session_end(session, metadata, context, dialect),
    }
}

/// What a stream of fragments shows.
pub open spec fn presented_stream<D: DialectHooks>(
    fragments: Seq<Seq<u8>>,
    context: DialectContextModel,
    dialect: &D,
) -> Seq<PresentationDeltaModel> {
    let (session, fed) = fragments_fed(fresh_session(), fragments, 0, context, dialect);
    match fed {
        Err(_) => session.state.presented,
        Ok(_) => session_closed(session, context, dialect).0.presented,
    }
}

/// Decodes a stream of fragments. What the fragments show is appended to
/// `presentation`, also where the stream fails.
pub fn decode_stream<'a, D: DialectHooks>(
    params: DecodeStream<'a, D>,
    fragments: &Vec<Vec<u8>>,
    presentation: &mut Vec<PresentationDelta>,
) -> (decoded: Result<DecodedStream, DecodeError>)
    ensures
        outcome(decoded) == decoded_stream(
            fragments.deep_view(),
            params.metadata.deep_view(),
            params.context.deep_view(),
            params.dialect,
        ),
        final(presentation).deep_view() == old(presentation).deep_view() + presented_stream(
            fragments.deep_view(),
            params.context.deep_view(),
            params.dialect,
        ),
{
    let mut decoder = IncrementalDecoder::new(params);
    let mut failed: Option<DecodeError> = None;
    let mut i: usize = 0;
    while i < fragments.len() && failed.is_none()
        invariant
            i <= fragments.len(),
            decoder.params == params,
            match failed {
                None => fragments_fed(
                    fresh_session(),
                    fragments.deep_view(),
                    0,
                    params.context.deep_view(),
                    params.dialect,
                ) == fragments_fed(
                    decoder.session.deep_view(),
                    fragments.deep_view(),
                    i as int,
                    params.context.deep_view(),
                    params.dialect,
                ),
                Some(error) => fragments_fed(
                    fresh_session(),
                    fragments.deep_view(),
                    0,
                    params.context.deep_view(),
                    params.dialect,
                ) == (decoder.session.deep_view(), Err::<(), DecodeErrorModel>(error.deep_view())),
            },
        decreases fragments.len() - i,
    {
        assert(fragments.deep_view()[i as int] =~= fragments@[i as int]@);
        match decoder.feed(fragments[i].as_slice()) {
            Ok(_) => {},
            Err(error) => {
                failed = Some(error);
            },
        }
        i += 1;
    }
    match failed {
        Some(error) => {
            append_items(presentation, decoder.take_presentation());
            Err(error)
        },
        None => decoder.finish(presentation),
    }
}

} // verus!
