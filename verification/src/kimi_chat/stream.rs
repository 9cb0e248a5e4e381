//! The decoder of a streamed Kimi response.
use crate::chat_completions::stream::{
    all_blank, data_value, find_tool, only_blank, or_empty, put_tool, set_once, text_or_empty, tool_place_from,
    try_set_once, with_tool, Framing, FramingModel, PendingTool, PendingToolModel,
};
use crate::chat_completions::types::{ChunkDelta, ChunkDeltaModel, ToolCallFragment, ToolCallFragmentModel};
use crate::fields::{lookup, StringMap};
use crate::json::{json_parse, parse_json, Json, JsonModel};
use crate::kimi_chat::request::{
    marker_fits, marker_read, marker_text, KimiFunctionModel, KimiReasoning, KimiReasoningKey, KimiReasoningModel,
    KimiRequestErrorModel, KimiToolCall, KimiToolCallModel, KimiToolKind, ReplayMarkerModel,
};
use crate::kimi_chat::stream_types::{
    chunk_of, KimiChoice, KimiChoiceModel, KimiChunk, KimiDecodedResponse, KimiDecodedResponseModel,
    KimiPendingResponse, KimiPendingResponseModel, KimiStreamError, KimiStreamErrorModel, KimiStreamEvent,
    KimiStreamEventModel, KimiTerminal, KimiUsage,
};
use crate::model::{no_items, outcome, push_item, Duplicate};
use crate::text::{begins_with, join_lines, joined, same_text, starts_with, strip_prefix, utf8_chars, utf8_text};
use vstd::prelude::*;
use vstd::string::*;

verus! {

/// A response as far as it has come, and what it showed since it was asked last.
#[derive(Debug, Clone, PartialEq, Eq)]
pub struct KimiState {
    pub response_id: Option<String>,
    pub content: String,
    pub reasoning: String,
    pub reasoning_key: Option<KimiReasoningKey>,
    pub tools: Vec<PendingTool>,
    pub usage: Option<KimiUsage>,
    pub terminal: Option<KimiTerminal>,
    pub recognized: bool,
    pub done: bool,
    pub events: Vec<KimiStreamEvent>,
}

/// The model of [`KimiState`].
#[verifier::ext_equal]
pub struct KimiStateModel {
    pub response_id: Option<Seq<char>>,
    pub content: Seq<char>,
    pub reasoning: Seq<char>,
    pub reasoning_key: Option<KimiReasoningKey>,
    pub tools: Seq<PendingToolModel>,
    pub usage: Option<KimiUsage>,
    pub terminal: Option<KimiTerminal>,
    pub recognized: bool,
    pub done: bool,
    pub events: Seq<KimiStreamEventModel>,
}

impl DeepView for KimiState {
    type V = KimiStateModel;

    open spec fn deep_view(&self) -> KimiStateModel {
        KimiStateModel {
            response_id: self.response_id.deep_view(),
            content: self.content.deep_view(),
            reasoning: self.reasoning.deep_view(),
            reasoning_key: self.reasoning_key.deep_view(),
            tools: self.tools.deep_view(),
            usage: self.usage.deep_view(),
            terminal: self.terminal.deep_view(),
            recognized: self.recognized.deep_view(),
            done: self.done.deep_view(),
            events: self.events.deep_view(),
        }
    }
}

impl Duplicate for KimiState {
    fn duplicate(&self) -> (copy: Self) {
        KimiState {
            response_id: self.response_id.duplicate(),
            content: self.content.duplicate(),
            reasoning: self.reasoning.duplicate(),
            reasoning_key: self.reasoning_key.duplicate(),
            tools: self.tools.duplicate(),
            usage: self.usage.duplicate(),
            terminal: self.terminal.duplicate(),
            recognized: self.recognized.duplicate(),
            done: self.done.duplicate(),
            events: self.events.duplicate(),
        }
    }
}

/// A single-attempt decoder that presents deltas immediately but only returns
/// committable output after terminal validation and `[DONE]`.
#[derive(Debug, Clone, PartialEq, Eq)]
pub struct KimiStreamDecoder {
    pub wire_model: String,
    pub trace_id: Option<String>,
    pub framing: Framing,
    pub state: KimiState,
    pub empty: bool,
}

/// The model of [`KimiStreamDecoder`].
#[verifier::ext_equal]
pub struct KimiStreamDecoderModel {
    pub wire_model: Seq<char>,
    pub trace_id: Option<Seq<char>>,
    pub framing: FramingModel,
    pub state: KimiStateModel,
    pub empty: bool,
}

impl DeepView for KimiStreamDecoder {
    type V = KimiStreamDecoderModel;

    open spec fn deep_view(&self) -> KimiStreamDecoderModel {
        KimiStreamDecoderModel {
            wire_model: self.wire_model.deep_view(),
            trace_id: self.trace_id.deep_view(),
            framing: self.framing.deep_view(),
            state: self.state.deep_view(),
            empty: self.empty.deep_view(),
        }
    }
}

impl Duplicate for KimiStreamDecoder {
    fn duplicate(&self) -> (copy: Self) {
        KimiStreamDecoder {
            wire_model: self.wire_model.duplicate(),
            trace_id: self.trace_id.duplicate(),
            framing: self.framing.duplicate(),
            state: self.state.duplicate(),
            empty: self.empty.duplicate(),
        }
    }
}

/// A response after a step, and whether the step went through.
pub type Step = (KimiStateModel, Result<(), KimiStreamErrorModel>);

// ---- tool calls ----

/// The event for arguments of a tool call.
pub open spec fn tool_event(response_id: Seq<char>, tool: PendingToolModel, delta: Seq<char>) -> KimiStreamEventModel {
    KimiStreamEventModel::ToolCall {
        response_id,
        index: tool.index,
        id: or_empty(tool.id),
        name: or_empty(tool.name),
        arguments_delta: delta,
    }
}

fn make_tool_event(response_id: &str, tool: &PendingTool, delta: String) -> (event: KimiStreamEvent)
    ensures
        event.deep_view() == tool_event(response_id@, tool.deep_view(), delta@),
{
    KimiStreamEvent::ToolCall {
        response_id: response_id.to_owned(),
        index: tool.index,
        id: text_or_empty(&tool.id),
        name: text_or_empty(&tool.name),
        arguments_delta: delta,
    }
}

/// What arguments do to a tool call, with its display; the display starts once
/// its identity is known, with the arguments that came before.
pub open spec fn tool_grows(
    tool: PendingToolModel,
    events: Seq<KimiStreamEventModel>,
    arguments: Option<Seq<char>>,
    response_id: Seq<char>,
) -> (PendingToolModel, Seq<KimiStreamEventModel>) {
    let (grown, shown) = match arguments {
        None => (tool, events),
        Some(text) => if tool.presented {
            let grown = PendingToolModel { arguments: tool.arguments + text, ..tool };
            (grown, events.push(tool_event(response_id, grown, text)))
        } else {
            (
                PendingToolModel {
                    arguments: tool.arguments + text,
                    unpresented_arguments: tool.unpresented_arguments + text,
                    ..tool
                },
                events,
            )
        },
    };
    if !grown.presented && grown.id is Some && grown.name is Some {
        (
            PendingToolModel { presented: true, unpresented_arguments: Seq::empty(), ..grown },
            shown.push(tool_event(response_id, grown, grown.unpresented_arguments)),
        )
    } else {
        (grown, shown)
    }
}

fn grow_tool(
    tool: &mut PendingTool,
    events: &mut Vec<KimiStreamEvent>,
    arguments: Option<String>,
    response_id: &str,
)
    ensures
        (final(tool).deep_view(), final(events).deep_view()) == tool_grows(
            old(tool).deep_view(),
            old(events).deep_view(),
            arguments.deep_view(),
            response_id@,
        ),
{
    if let Some(text) = arguments {
        tool.arguments.append(&text);
        if tool.presented {
            push_item(events, make_tool_event(response_id, tool, text));
        } else {
            tool.unpresented_arguments.append(&text);
        }
    }
    if !tool.presented && tool.id.is_some() && tool.name.is_some() {
        let mut delta: String = String::new();
        std::mem::swap(&mut delta, &mut tool.unpresented_arguments);
        push_item(events, make_tool_event(response_id, tool, delta));
        tool.presented = true;
    }
}

/// A response after a part of a tool call.
pub open spec fn fragment_step(state: KimiStateModel, fragment: ToolCallFragmentModel) -> Step {
    let (tools, place) = with_tool(state.tools, fragment.index);
    let tool = tools[place];
    match set_once(tool.id, fragment.id) {
        None => (
            KimiStateModel { tools, ..state },
            Err(KimiStreamErrorModel::ConflictingToolField("tool id"@)),
        ),
        Some(id) => {
            let named = PendingToolModel { id, ..tool };
            if fragment.kind is Some && fragment.kind->0 != "function"@ {
                (
                    KimiStateModel { tools: tools.update(place, named), ..state },
                    Err(KimiStreamErrorModel::InvalidTransition("tool type was not function"@)),
                )
            } else {
                let (name, arguments) = match fragment.function {
                    Some(function) => (function.name, function.arguments),
                    None => (None, None),
                };
                match set_once(named.name, name) {
                    None => (
                        KimiStateModel { tools: tools.update(place, named), ..state },
                        Err(KimiStreamErrorModel::ConflictingToolField("tool name"@)),
                    ),
                    Some(name) => {
                        let (grown, events) = tool_grows(
                            PendingToolModel { name, ..named },
                            state.events,
                            arguments,
                            or_empty(state.response_id),
                        );
                        (KimiStateModel { tools: tools.update(place, grown), events, ..state }, Ok(()))
                    },
                }
            }
        },
    }
}

fn apply_tool_fragment(state: &mut KimiState, fragment: ToolCallFragment) -> (applied: Result<(), KimiStreamError>)
    ensures
        (final(state).deep_view(), outcome(applied)) == fragment_step(old(state).deep_view(), fragment.deep_view()),
{
    let place = find_tool(&mut state.tools, fragment.index);
    let mut tool = state.tools[place].duplicate();
    assert(tool.deep_view() == state.tools.deep_view()[place as int]);
    if !try_set_once(&mut tool.id, fragment.id) {
        return Err(KimiStreamError::ConflictingToolField("tool id"));
    }
    if let Some(kind) = fragment.kind {
        if !same_text(&kind, "function") {
            put_tool(&mut state.tools, place, tool);
            return Err(KimiStreamError::InvalidTransition("tool type was not function"));
        }
    }
    let arguments = match fragment.function {
        Some(function) => {
            if !try_set_once(&mut tool.name, function.name) {
                put_tool(&mut state.tools, place, tool);
                return Err(KimiStreamError::ConflictingToolField("tool name"));
            }
            function.arguments
        },
        None => None,
    };
    let response_id = text_or_empty(&state.response_id);
    grow_tool(&mut tool, &mut state.events, arguments, &response_id);
    put_tool(&mut state.tools, place, tool);
    Ok(())
}

/// A response after the parts of tool calls from `at` on.
pub open spec fn fragments_step(state: KimiStateModel, fragments: Seq<ToolCallFragmentModel>, at: int) -> Step
    decreases fragments.len() - at,
{
    if at < 0 || at >= fragments.len() {
        (state, Ok(()))
    } else {
        let (next, applied) = fragment_step(state, fragments[at]);
        match applied {
            Ok(_) => fragments_step(next, fragments, at + 1),
            Err(error) => (next, Err(error)),
        }
    }
}

// ---- deltas ----

/// The text under a name, where the value is a text.
pub open spec fn text_under(extensions: Seq<(Seq<char>, JsonModel)>, name: Seq<char>) -> Option<Seq<char>> {
    match lookup(extensions, name) {
        Some(JsonModel::Text(text)) => Some(text),
        _ => None,
    }
}

/// The reasoning of a delta: the first of the fields that holds a text.
pub open spec fn reasoning_in(extensions: Seq<(Seq<char>, JsonModel)>) -> Option<(KimiReasoningKey, Seq<char>)> {
    if let Some(text) = text_under(extensions, KimiReasoningKey::ReasoningContent.label()) {
        Some((KimiReasoningKey::ReasoningContent, text))
    } else if let Some(text) = text_under(extensions, KimiReasoningKey::Reasoning.label()) {
        Some((KimiReasoningKey::Reasoning, text))
    } else if let Some(text) = text_under(extensions, KimiReasoningKey::ReasoningDetails.label()) {
        Some((KimiReasoningKey::ReasoningDetails, text))
    } else {
        None
    }
}

fn find_text(extensions: &StringMap<Json>, key: KimiReasoningKey) -> (text: Option<String>)
    ensures
        text.deep_view() == text_under(extensions.deep_view(), key.label()),
{
    match extensions.get(key.as_str()) {
        Some(Json::Text(text)) => Some(text.duplicate()),
        _ => None,
    }
}

/// The reasoning of a delta: the first of the fields that holds a text.
pub fn reasoning_delta(extensions: &StringMap<Json>) -> (reasoning: Option<(KimiReasoningKey, String)>)
    ensures
        reasoning.deep_view() == reasoning_in(extensions.deep_view()),
{
    if let Some(text) = find_text(extensions, KimiReasoningKey::ReasoningContent) {
        return Some((KimiReasoningKey::ReasoningContent, text));
    }
    if let Some(text) = find_text(extensions, KimiReasoningKey::Reasoning) {
        return Some((KimiReasoningKey::Reasoning, text));
    }
    match find_text(extensions, KimiReasoningKey::ReasoningDetails) {
        Some(text) => Some((KimiReasoningKey::ReasoningDetails, text)),
        None => None,
    }
}

/// A response after the content of a delta.
pub open spec fn content_step(state: KimiStateModel, content: Option<Seq<char>>) -> KimiStateModel {
    match content {
        Some(text) => if text.len() > 0 {
            KimiStateModel {
                content: state.content + text,
                events: state.events.push(
                    KimiStreamEventModel::Content { response_id: or_empty(state.response_id), delta: text },
                ),
                ..state
            }
        } else {
            state
        },
        None => state,
    }
}

/// A response after the reasoning of a delta. It comes in one field only.
pub open spec fn reasoning_step(state: KimiStateModel, reasoning: Option<(KimiReasoningKey, Seq<char>)>) -> Step {
    match reasoning {
        None => (state, Ok(())),
        Some((key, text)) => if state.reasoning_key is Some && state.reasoning_key != Some(key) {
            (state, Err(KimiStreamErrorModel::ConflictingReasoningKeys))
        } else {
            let keyed = KimiStateModel { reasoning_key: Some(key), ..state };
            if text.len() > 0 {
                (
                    KimiStateModel {
                        reasoning: keyed.reasoning + text,
                        events: keyed.events.push(
                            KimiStreamEventModel::Reasoning { response_id: or_empty(state.response_id), delta: text },
                        ),
                        ..keyed
                    },
                    Ok(()),
                )
            } else {
                (keyed, Ok(()))
            }
        },
    }
}

/// A response after a delta.
pub open spec fn delta_step(state: KimiStateModel, delta: ChunkDeltaModel) -> Step {
    if delta.role is Some && delta.role->0 != "assistant"@ {
        (state, Err(KimiStreamErrorModel::InvalidTransition("delta role was not assistant"@)))
    } else {
        let (said, applied) = reasoning_step(content_step(state, delta.content), reasoning_in(delta.extensions));
        match applied {
            Err(error) => (said, Err(error)),
            Ok(_) => fragments_step(said, delta.tool_calls, 0),
        }
    }
}

fn apply_content(state: &mut KimiState, content: &Option<String>)
    ensures
        final(state).deep_view() == content_step(old(state).deep_view(), content.deep_view()),
{
    if let Some(text) = content {
        if !text.as_str().is_empty() {
            state.content.append(text);
            let response_id = text_or_empty(&state.response_id);
            push_item(&mut state.events, KimiStreamEvent::Content { response_id, delta: text.duplicate() });
        }
    }
}

fn apply_reasoning(state: &mut KimiState, reasoning: Option<(KimiReasoningKey, String)>) -> (applied: Result<
    (),
    KimiStreamError,
>)
    ensures
        (final(state).deep_view(), outcome(applied)) == reasoning_step(
            old(state).deep_view(),
            reasoning.deep_view(),
        ),
{
    if let Some(found) = reasoning {
        if let Some(existing) = state.reasoning_key {
            if existing != found.0 {
                return Err(KimiStreamError::ConflictingReasoningKeys);
            }
        }
        state.reasoning_key = Some(found.0);
        if !found.1.as_str().is_empty() {
            state.reasoning.append(&found.1);
            let response_id = text_or_empty(&state.response_id);
            push_item(&mut state.events, KimiStreamEvent::Reasoning { response_id, delta: found.1 });
        }
    }
    Ok(())
}

fn apply_delta(state: &mut KimiState, delta: &ChunkDelta) -> (applied: Result<(), KimiStreamError>)
    ensures
        (final(state).deep_view(), outcome(applied)) == delta_step(old(state).deep_view(), delta.deep_view()),
{
    if let Some(role) = &delta.role {
        if !same_text(role, "assistant") {
            return Err(KimiStreamError::InvalidTransition("delta role was not assistant"));
        }
    }
    apply_content(state, &delta.content);
    match apply_reasoning(state, reasoning_delta(&delta.extensions)) {
        Err(error) => {
            return Err(error);
        },
        Ok(_) => {},
    }
    let mut i: usize = 0;
    while i < delta.tool_calls.len()
        invariant
            i <= delta.tool_calls.len(),
            delta_step(old(state).deep_view(), delta.deep_view()) == fragments_step(
                state.deep_view(),
                delta.tool_calls.deep_view(),
                i as int,
            ),
        decreases delta.tool_calls.len() - i,
    {
        assert(delta.tool_calls.deep_view()[i as int] == delta.tool_calls@[i as int].deep_view());
        match apply_tool_fragment(state, delta.tool_calls[i].duplicate()) {
            Err(error) => {
                return Err(error);
            },
            Ok(_) => {},
        }
        i += 1;
    }
    Ok(())
}

// ---- chunks ----

/// What a finish reason means.
pub open spec fn terminal_named(reason: Seq<char>) -> Result<KimiTerminal, KimiStreamErrorModel> {
    if reason == "stop"@ {
        Ok(KimiTerminal::Completed)
    } else if reason == "tool_calls"@ || reason == "function_call"@ {
        Ok(KimiTerminal::ToolsReady)
    } else if reason == "length"@ || reason == "max_tokens"@ {
        Ok(KimiTerminal::OutputExhausted)
    } else if reason == "content_filter"@ {
        Ok(KimiTerminal::Refusal)
    } else {
        Err(KimiStreamErrorModel::UnknownFinishReason(reason))
    }
}

/// What a finish reason means.
pub fn parse_finish_reason(reason: &str) -> (terminal: Result<KimiTerminal, KimiStreamError>)
    ensures
        outcome(terminal) == terminal_named(reason@),
{
    if *reason == *"stop" {
        Ok(KimiTerminal::Completed)
    } else if *reason == *"tool_calls" || *reason == *"function_call" {
        Ok(KimiTerminal::ToolsReady)
    } else if *reason == *"length" || *reason == *"max_tokens" {
        Ok(KimiTerminal::OutputExhausted)
    } else if *reason == *"content_filter" {
        Ok(KimiTerminal::Refusal)
    } else {
        Err(KimiStreamError::UnknownFinishReason(reason.to_owned()))
    }
}

/// A response after one choice; nothing may follow a finish reason.
pub open spec fn choice_step(state: KimiStateModel, choice: KimiChoiceModel) -> Step {
    if choice.index != 0 {
        (state, Err(KimiStreamErrorModel::InvalidTransition("only choice index zero is supported"@)))
    } else if state.terminal is Some {
        (state, Err(KimiStreamErrorModel::DuplicateTerminal))
    } else {
        let (said, applied) = delta_step(state, choice.delta);
        match applied {
            Err(error) => (said, Err(error)),
            Ok(_) => match choice.finish_reason {
                None => (said, Ok(())),
                Some(reason) => match terminal_named(reason) {
                    Err(error) => (said, Err(error)),
                    Ok(terminal) => (KimiStateModel { terminal: Some(terminal), ..said }, Ok(())),
                },
            },
        }
    }
}

/// A response after the choices from `at` on, and the usage that the last of
/// them reported.
pub open spec fn choices_step(
    state: KimiStateModel,
    usage: Option<KimiUsage>,
    choices: Seq<KimiChoiceModel>,
    at: int,
) -> (KimiStateModel, Result<Option<KimiUsage>, KimiStreamErrorModel>)
    decreases choices.len() - at,
{
    if at < 0 || at >= choices.len() {
        (state, Ok(usage))
    } else {
        let (next, applied) = choice_step(state, choices[at]);
        match applied {
            Err(error) => (next, Err(error)),
            Ok(_) => choices_step(
                next,
                if choices[at].usage is Some {
                    choices[at].usage
                } else {
                    usage
                },
                choices,
                at + 1,
            ),
        }
    }
}

/// A response after its number; all chunks have the same.
pub open spec fn id_step(state: KimiStateModel, id: Seq<char>) -> Step {
    match state.response_id {
        None => (KimiStateModel { response_id: Some(id), ..state }, Ok(())),
        Some(existing) => if existing == id {
            (state, Ok(()))
        } else {
            (state, Err(KimiStreamErrorModel::InvalidTransition("response id changed between chunks"@)))
        },
    }
}

/// A response after a chunk, given as JSON. The usage of a chunk comes before
/// that of its choices, and that of a later chunk before that of an earlier one.
pub open spec fn chunk_step(state: KimiStateModel, json: JsonModel) -> Step {
    match chunk_of(json) {
        Err(message) => (state, Err(KimiStreamErrorModel::MalformedChunk(message))),
        Ok(chunk) => {
            let (known, applied) = id_step(KimiStateModel { recognized: true, ..state }, chunk.id);
            match applied {
                Err(error) => (known, Err(error)),
                Ok(_) => {
                    let (said, applied) = choices_step(known, None, chunk.choices, 0);
                    match applied {
                        Err(error) => (said, Err(error)),
                        Ok(usage) => (
                            KimiStateModel {
                                usage: if chunk.usage is Some {
                                    chunk.usage
                                } else if usage is Some {
                                    usage
                                } else {
                                    said.usage
                                },
                                ..said
                            },
                            Ok(()),
                        ),
                    }
                },
            }
        },
    }
}

fn apply_choice(state: &mut KimiState, choice: &KimiChoice) -> (applied: Result<(), KimiStreamError>)
    ensures
        (final(state).deep_view(), outcome(applied)) == choice_step(old(state).deep_view(), choice.deep_view()),
{
    if choice.index != 0 {
        return Err(KimiStreamError::InvalidTransition("only choice index zero is supported"));
    }
    if state.terminal.is_some() {
        return Err(KimiStreamError::DuplicateTerminal);
    }
    match apply_delta(state, &choice.delta) {
        Err(error) => {
            return Err(error);
        },
        Ok(_) => {},
    }
    if let Some(reason) = &choice.finish_reason {
        match parse_finish_reason(reason) {
            Err(error) => {
                return Err(error);
            },
            Ok(terminal) => {
                state.terminal = Some(terminal);
            },
        }
    }
    Ok(())
}

fn apply_choices(state: &mut KimiState, choices: &Vec<KimiChoice>) -> (applied: Result<
    Option<KimiUsage>,
    KimiStreamError,
>)
    ensures
        (final(state).deep_view(), outcome(applied)) == choices_step(
            old(state).deep_view(),
            None,
            choices.deep_view(),
            0,
        ),
{
    let mut usage: Option<KimiUsage> = None;
    let mut i: usize = 0;
    while i < choices.len()
        invariant
            i <= choices.len(),
            choices_step(old(state).deep_view(), None, choices.deep_view(), 0) == choices_step(
                state.deep_view(),
                usage,
                choices.deep_view(),
                i as int,
            ),
        decreases choices.len() - i,
    {
        assert(choices.deep_view()[i as int] == choices@[i as int].deep_view());
        match apply_choice(state, &choices[i]) {
            Err(error) => {
                return Err(error);
            },
            Ok(_) => {},
        }
        if choices[i].usage.is_some() {
            usage = choices[i].usage;
        }
        i += 1;
    }
    Ok(usage)
}

fn set_response_id(state: &mut KimiState, id: String) -> (applied: Result<(), KimiStreamError>)
    ensures
        (final(state).deep_view(), outcome(applied)) == id_step(old(state).deep_view(), id@),
{
    if let Some(existing) = &state.response_id {
        if *existing == id {
            Ok(())
        } else {
            Err(KimiStreamError::InvalidTransition("response id changed between chunks"))
        }
    } else {
        state.response_id = Some(id);
        Ok(())
    }
}

/// A response after a chunk, given as JSON.
pub fn apply_chunk(state: &mut KimiState, json: &Json) -> (applied: Result<(), KimiStreamError>)
    ensures
        (final(state).deep_view(), outcome(applied)) == chunk_step(old(state).deep_view(), json.deep_view()),
{
    let chunk = match KimiChunk::from_json(json) {
        Err(message) => {
            return Err(KimiStreamError::MalformedChunk(message));
        },
        Ok(chunk) => chunk,
    };
    state.recognized = true;
    match set_response_id(state, chunk.id) {
        Err(error) => {
            return Err(error);
        },
        Ok(_) => {},
    }
    match apply_choices(state, &chunk.choices) {
        Err(error) => Err(error),
        Ok(usage) => {
            if chunk.usage.is_some() {
                state.usage = chunk.usage;
            } else if usage.is_some() {
                state.usage = usage;
            }
            Ok(())
        },
    }
}

// ---- framing ----

/// Framing and response after a step, and whether the step went through.
pub type FramingStep = (FramingModel, KimiStateModel, Result<(), KimiStreamErrorModel>);

/// A response after a frame of data.
pub open spec fn data_step(state: KimiStateModel, data: Seq<char>) -> Step {
    if state.done {
        (state, Err(KimiStreamErrorModel::InvalidTransition("data followed [DONE]"@)))
    } else if data == "[DONE]"@ {
        (KimiStateModel { done: true, ..state }, Ok(()))
    } else {
        match json_parse(data) {
            Err(message) => (state, Err(KimiStreamErrorModel::MalformedChunk(message))),
            Ok(json) => chunk_step(state, json),
        }
    }
}

/// What follows the end of a frame.
pub open spec fn frame_step(framing: FramingModel, state: KimiStateModel) -> FramingStep {
    if framing.data.len() == 0 {
        (framing, state, Ok(()))
    } else {
        let (next, applied) = data_step(state, joined(framing.data));
        (FramingModel { data: Seq::empty(), ..framing }, next, applied)
    }
}

/// What follows the end of a line: an empty line ends a frame, a comment is
/// dropped, a data line adds to the frame, and any other is an error.
pub open spec fn line_step(framing: FramingModel, state: KimiStateModel) -> FramingStep {
    if framing.line.len() == 0 {
        frame_step(framing, state)
    } else {
        let taken = FramingModel { line: Seq::empty(), ..framing };
        match utf8_chars(framing.line) {
            None => (taken, state, Err(KimiStreamErrorModel::InvalidUtf8)),
            Some(line) => if begins_with(line, ":"@) {
                (taken, state, Ok(()))
            } else {
                match data_value(line) {
                    None => (taken, state, Err(KimiStreamErrorModel::MalformedFraming(line))),
                    Some(value) => (FramingModel { data: taken.data.push(value), ..taken }, state, Ok(())),
                }
            },
        }
    }
}

/// What one byte does: a carriage return, a line feed, or both together end a
/// line.
pub open spec fn byte_step(framing: FramingModel, state: KimiStateModel, byte: u8) -> FramingStep {
    let ready = FramingModel { skip_lf: false, ..framing };
    if framing.skip_lf && byte == 10 {
        (ready, state, Ok(()))
    } else if byte == 13 {
        let (ended, next, applied) = line_step(ready, state);
        match applied {
            Ok(_) => (FramingModel { skip_lf: true, ..ended }, next, Ok(())),
            Err(error) => (ended, next, Err(error)),
        }
    } else if byte == 10 {
        line_step(ready, state)
    } else {
        (FramingModel { line: ready.line.push(byte), ..ready }, state, Ok(()))
    }
}

/// What the bytes from `at` on do, up to the first error.
pub open spec fn bytes_step(framing: FramingModel, state: KimiStateModel, bytes: Seq<u8>, at: int) -> FramingStep
    decreases bytes.len() - at,
{
    if at < 0 || at >= bytes.len() {
        (framing, state, Ok(()))
    } else {
        let (next_framing, next_state, applied) = byte_step(framing, state, bytes[at]);
        match applied {
            Ok(_) => bytes_step(next_framing, next_state, bytes, at + 1),
            Err(error) => (next_framing, next_state, Err(error)),
        }
    }
}

fn process_frame(framing: &mut Framing, state: &mut KimiState) -> (applied: Result<(), KimiStreamError>)
    ensures
        (final(framing).deep_view(), final(state).deep_view(), outcome(applied)) == frame_step(
            old(framing).deep_view(),
            old(state).deep_view(),
        ),
{
    if framing.data.len() == 0 {
        return Ok(());
    }
    let data = join_lines(&framing.data);
    framing.data = no_items();
    if state.done {
        return Err(KimiStreamError::InvalidTransition("data followed [DONE]"));
    }
    if *data.as_str() == *"[DONE]" {
        state.done = true;
        return Ok(());
    }
    match parse_json(&data) {
        Err(message) => Err(KimiStreamError::MalformedChunk(message)),
        Ok(json) => apply_chunk(state, &json),
    }
}

fn process_line(framing: &mut Framing, state: &mut KimiState) -> (applied: Result<(), KimiStreamError>)
    ensures
        (final(framing).deep_view(), final(state).deep_view(), outcome(applied)) == line_step(
            old(framing).deep_view(),
            old(state).deep_view(),
        ),
{
    if framing.line.len() == 0 {
        return process_frame(framing, state);
    }
    let mut bytes: Vec<u8> = no_items();
    std::mem::swap(&mut bytes, &mut framing.line);
    assert(bytes@ =~= bytes.deep_view());
    let line = match utf8_text(bytes.as_slice()) {
        None => {
            return Err(KimiStreamError::InvalidUtf8);
        },
        Some(line) => line,
    };
    if starts_with(line, ":") {
        return Ok(());
    }
    match strip_prefix(line, "data:") {
        None => Err(KimiStreamError::MalformedFraming(line.to_owned())),
        Some(value) => {
            match strip_prefix(&value, " ") {
                None => push_item(&mut framing.data, value),
                Some(rest) => push_item(&mut framing.data, rest),
            }
            Ok(())
        },
    }
}

fn push_byte(framing: &mut Framing, state: &mut KimiState, byte: u8) -> (applied: Result<(), KimiStreamError>)
    ensures
        (final(framing).deep_view(), final(state).deep_view(), outcome(applied)) == byte_step(
            old(framing).deep_view(),
            old(state).deep_view(),
            byte,
        ),
{
    if framing.skip_lf {
        framing.skip_lf = false;
        if byte == 10 {
            return Ok(());
        }
    }
    if byte == 13 {
        match process_line(framing, state) {
            Ok(_) => {
                framing.skip_lf = true;
                Ok(())
            },
            Err(error) => Err(error),
        }
    } else if byte == 10 {
        process_line(framing, state)
    } else {
        push_item(&mut framing.line, byte);
        Ok(())
    }
}

fn push_bytes(framing: &mut Framing, state: &mut KimiState, bytes: &[u8]) -> (applied: Result<(), KimiStreamError>)
    ensures
        (final(framing).deep_view(), final(state).deep_view(), outcome(applied)) == bytes_step(
            old(framing).deep_view(),
            old(state).deep_view(),
            bytes@,
            0,
        ),
{
    let mut i: usize = 0;
    while i < bytes.len()
        invariant
            i <= bytes.len(),
            bytes_step(old(framing).deep_view(), old(state).deep_view(), bytes@, 0) == bytes_step(
                framing.deep_view(),
                state.deep_view(),
                bytes@,
                i as int,
            ),
        decreases bytes.len() - i,
    {
        match push_byte(framing, state, bytes[i]) {
            Err(error) => {
                return Err(error);
            },
            Ok(_) => {},
        }
        i += 1;
    }
    Ok(())
}

// ---- the end ----

/// Whether the tool calls are numbered from zero on without a gap.
pub open spec fn contiguous(tools: Seq<PendingToolModel>) -> bool {
    forall|k: int| 0 <= k < tools.len() ==> (#[trigger] tool_place_from(tools, k as usize, 0)) is Some
}

/// A tool call with its identity and with a JSON object as arguments.
pub open spec fn complete_tool(tool: PendingToolModel) -> Result<KimiToolCallModel, KimiStreamErrorModel> {
    if tool.id is None {
        Err(KimiStreamErrorModel::IncompleteTool { index: tool.index, field: "id"@ })
    } else if tool.name is None {
        Err(KimiStreamErrorModel::IncompleteTool { index: tool.index, field: "name"@ })
    } else {
        match json_parse(tool.arguments) {
            Ok(JsonModel::Object(_)) => Ok(
                KimiToolCallModel {
                    id: tool.id->0,
                    kind: KimiToolKind::Function,
                    function: KimiFunctionModel { name: tool.name->0, arguments: tool.arguments },
                },
            ),
            _ => Err(KimiStreamErrorModel::InvalidToolJson { index: tool.index, arguments: tool.arguments }),
        }
    }
}

/// The tool calls from the number `at` on behind those that are done, in the
/// order of their numbers.
pub open spec fn complete_from(tools: Seq<PendingToolModel>, at: int, done: Seq<KimiToolCallModel>) -> Result<
    Seq<KimiToolCallModel>,
    KimiStreamErrorModel,
>
    decreases tools.len() - at,
{
    if at < 0 || at >= tools.len() {
        Ok(done)
    } else {
        match tool_place_from(tools, at as usize, 0) {
            None => Err(KimiStreamErrorModel::InvalidTransition("tool indexes were not contiguous from zero"@)),
            Some(place) => match complete_tool(tools[place]) {
                Ok(call) => complete_from(tools, at + 1, done.push(call)),
                Err(error) => Err(error),
            },
        }
    }
}

/// All tool calls in the order of their numbers, or what is wrong with them.
pub open spec fn completed_tools(tools: Seq<PendingToolModel>) -> Result<Seq<KimiToolCallModel>, KimiStreamErrorModel> {
    if contiguous(tools) {
        complete_from(tools, 0, Seq::empty())
    } else {
        Err(KimiStreamErrorModel::InvalidTransition("tool indexes were not contiguous from zero"@))
    }
}

fn place_of_tool(tools: &Vec<PendingTool>, index: usize) -> (place: Option<usize>)
    ensures
        match place {
            Some(place) => place < tools.len() && tool_place_from(tools.deep_view(), index, 0) == Some(place as int),
            None => tool_place_from(tools.deep_view(), index, 0) is None,
        },
{
    let mut i: usize = 0;
    while i < tools.len()
        invariant
            i <= tools.len(),
            tool_place_from(tools.deep_view(), index, 0) == tool_place_from(tools.deep_view(), index, i as int),
        decreases tools.len() - i,
    {
        if tools[i].index == index {
            return Some(i);
        }
        i += 1;
    }
    None
}

fn complete_one(tool: &PendingTool) -> (call: Result<KimiToolCall, KimiStreamError>)
    ensures
        outcome(call) == complete_tool(tool.deep_view()),
{
    let id = match &tool.id {
        None => {
            return Err(KimiStreamError::IncompleteTool { index: tool.index, field: "id" });
        },
        Some(id) => id,
    };
    let name = match &tool.name {
        None => {
            return Err(KimiStreamError::IncompleteTool { index: tool.index, field: "name" });
        },
        Some(name) => name,
    };
    match parse_json(&tool.arguments) {
        Ok(Json::Object(_)) => Ok(
            KimiToolCall::function(id.duplicate(), name.duplicate(), tool.arguments.duplicate()),
        ),
        _ => Err(KimiStreamError::InvalidToolJson { index: tool.index, arguments: tool.arguments.duplicate() }),
    }
}

fn are_contiguous(tools: &Vec<PendingTool>) -> (so: bool)
    ensures
        so == contiguous(tools.deep_view()),
{
    let mut k: usize = 0;
    while k < tools.len()
        invariant
            k <= tools.len(),
            forall|j: int|
                0 <= j < k ==> (#[trigger] tool_place_from(tools.deep_view(), j as usize, 0)) is Some,
        decreases tools.len() - k,
    {
        if place_of_tool(tools, k).is_none() {
            assert(tool_place_from(tools.deep_view(), (k as int) as usize, 0) is None);
            return false;
        }
        k += 1;
    }
    true
}

fn complete_tools(tools: &Vec<PendingTool>) -> (calls: Result<Vec<KimiToolCall>, KimiStreamError>)
    ensures
        outcome(calls) == completed_tools(tools.deep_view()),
{
    if !are_contiguous(tools) {
        return Err(KimiStreamError::InvalidTransition("tool indexes were not contiguous from zero"));
    }
    let mut done: Vec<KimiToolCall> = no_items();
    let mut k: usize = 0;
    while k < tools.len()
        invariant
            k <= tools.len(),
            contiguous(tools.deep_view()),
            complete_from(tools.deep_view(), 0, Seq::empty()) == complete_from(
                tools.deep_view(),
                k as int,
                done.deep_view(),
            ),
        decreases tools.len() - k,
    {
        match place_of_tool(tools, k) {
            None => {
                return Err(KimiStreamError::InvalidTransition("tool indexes were not contiguous from zero"));
            },
            Some(place) => {
                assert(tools.deep_view()[place as int] == tools@[place as int].deep_view());
                match complete_one(&tools[place]) {
                    Ok(call) => {
                        push_item(&mut done, call);
                    },
                    Err(error) => {
                        return Err(error);
                    },
                }
            },
        }
        k += 1;
    }
    Ok(done)
}

/// What a response lacks that ended in this way.
pub open spec fn terminal_error(terminal: KimiTerminal, content: nat, tools: nat) -> Option<KimiStreamErrorModel> {
    match terminal {
        KimiTerminal::Completed => if tools == 0 && content > 0 {
            None
        } else {
            Some(KimiStreamErrorModel::InvalidTransition("successful terminal had no content"@))
        },
        KimiTerminal::ToolsReady => if tools > 0 {
            None
        } else {
            Some(KimiStreamErrorModel::InvalidTransition("tool terminal had no complete tools"@))
        },
        KimiTerminal::OutputExhausted | KimiTerminal::Refusal => None,
    }
}

fn validate_terminal(terminal: KimiTerminal, content: &str, tools: &Vec<KimiToolCall>) -> (error: Option<
    KimiStreamError,
>)
    ensures
        error.deep_view() == terminal_error(terminal, content@.len(), tools.deep_view().len()),
{
    match terminal {
        KimiTerminal::Completed => {
            if tools.len() == 0 && !content.is_empty() {
                None
            } else {
                Some(KimiStreamError::InvalidTransition("successful terminal had no content"))
            }
        },
        KimiTerminal::ToolsReady => {
            if tools.len() > 0 {
                None
            } else {
                Some(KimiStreamError::InvalidTransition("tool terminal had no complete tools"))
            }
        },
        KimiTerminal::OutputExhausted | KimiTerminal::Refusal => None,
    }
}

/// Whether output may be committed after an end of this kind.
pub open spec fn committable(terminal: KimiTerminal) -> bool {
    terminal is Completed || terminal is ToolsReady
}

/// How a response ended: as it says, or else by whether there are tool calls.
pub open spec fn ending(terminal: Option<KimiTerminal>, tools: nat) -> KimiTerminal {
    match terminal {
        Some(terminal) => terminal,
        None => if tools == 0 {
            KimiTerminal::Completed
        } else {
            KimiTerminal::ToolsReady
        },
    }
}

/// The whole response at the end of the stream.
pub open spec fn finished(wire_model: Seq<char>, trace_id: Option<Seq<char>>, state: KimiStateModel) -> Result<
    KimiDecodedResponseModel,
    KimiStreamErrorModel,
> {
    if !state.recognized {
        Err(KimiStreamErrorModel::PrematureEof("a recognized chunk"@))
    } else if !state.done {
        Err(KimiStreamErrorModel::PrematureEof("[DONE]"@))
    } else {
        match completed_tools(state.tools) {
            Err(error) => Err(error),
            Ok(tool_calls) => {
                let terminal = ending(state.terminal, tool_calls.len());
                let key = own_key(state);
                match terminal_error(terminal, state.content.len(), tool_calls.len()) {
                    Some(error) => Err(error),
                    None => if committable(terminal) && !marker_fits(wire_model, key) {
                        Err(KimiStreamErrorModel::Request(KimiRequestErrorModel::ReplayMarkerTooLarge))
                    } else {
                        Ok(
                            KimiDecodedResponseModel {
                                response_id: or_empty(state.response_id),
                                terminal,
                                pending: if committable(terminal) {
                                    Some(
                                        KimiPendingResponseModel {
                                            content: state.content,
                                            reasoning: KimiReasoningModel {
                                                text: state.reasoning,
                                                marker: marker_text(wire_model, key),
                                            },
                                            tool_calls,
                                        },
                                    )
                                } else {
                                    None
                                },
                                usage: state.usage,
                                trace_id,
                            },
                        )
                    },
                }
            },
        }
    }
}

/// A response after the end of its stream, where the last line and the last
/// frame may not have been ended.
pub open spec fn closed(decoder: KimiStreamDecoderModel) -> Step {
    let (framing, state, lined) = if decoder.framing.line.len() == 0 {
        (decoder.framing, decoder.state, Ok(()))
    } else {
        line_step(decoder.framing, decoder.state)
    };
    match lined {
        Err(error) => (state, Err(error)),
        Ok(_) => {
            let (_, state, framed) = frame_step(framing, state);
            (state, framed)
        },
    }
}

/// What a decoder gives at the end of its stream.
pub open spec fn decoded(decoder: KimiStreamDecoderModel) -> Result<KimiDecodedResponseModel, KimiStreamErrorModel> {
    let (state, ended) = closed(decoder);
    match ended {
        Err(error) => Err(error),
        Ok(_) => if decoder.empty {
            Err(KimiStreamErrorModel::EmptyStream)
        } else {
            finished(decoder.wire_model, decoder.trace_id, state)
        },
    }
}

/// A decoder before the first byte.
pub open spec fn fresh(wire_model: Seq<char>) -> KimiStreamDecoderModel {
    KimiStreamDecoderModel {
        wire_model,
        trace_id: None,
        framing: FramingModel { line: Seq::empty(), data: Seq::empty(), skip_lf: false },
        state: KimiStateModel {
            response_id: None,
            content: Seq::empty(),
            reasoning: Seq::empty(),
            reasoning_key: None,
            tools: Seq::empty(),
            usage: None,
            terminal: None,
            recognized: false,
            done: false,
            events: Seq::empty(),
        },
        empty: true,
    }
}

/// A state whose events were handed out.
pub open spec fn quiet(state: KimiStateModel) -> KimiStateModel {
    KimiStateModel { events: Seq::empty(), ..state }
}

/// A decoder after a fragment, and what the fragment showed.
pub open spec fn fed(decoder: KimiStreamDecoderModel, fragment: Seq<u8>) -> (
    KimiStreamDecoderModel,
    Result<Seq<KimiStreamEventModel>, KimiStreamErrorModel>,
) {
    let (framing, state, applied) = bytes_step(decoder.framing, quiet(decoder.state), fragment, 0);
    (
        KimiStreamDecoderModel {
            framing,
            state: quiet(state),
            empty: decoder.empty && all_blank(fragment),
            ..decoder
        },
        match applied {
            Ok(_) => Ok(state.events),
            Err(error) => Err(error),
        },
    )
}

/// The field that a response has its reasoning in.
pub open spec fn own_key(state: KimiStateModel) -> KimiReasoningKey {
    match state.reasoning_key {
        Some(key) => key,
        None => KimiReasoningKey::ReasoningContent,
    }
}

/// Whether the reasoning of a response, where it may be committed, is given
/// back to the model that was asked, in the field that it came in.
pub open spec fn marked_for(wire_model: Seq<char>, state: KimiStateModel, response: KimiDecodedResponseModel) -> bool {
    response.pending matches Some(pending) ==> marker_read(pending.reasoning.marker) == Some(
        ReplayMarkerModel { model: wire_model, key: own_key(state) },
    )
}

fn finish_response(wire_model: String, trace_id: Option<String>, state: KimiState) -> (decoded: Result<
    KimiDecodedResponse,
    KimiStreamError,
>)
    ensures
        outcome(decoded) == finished(wire_model@, trace_id.deep_view(), state.deep_view()),
        decoded matches Ok(response) ==> marked_for(wire_model@, state.deep_view(), response.deep_view()),
{
    if !state.recognized {
        return Err(KimiStreamError::PrematureEof("a recognized chunk"));
    }
    if !state.done {
        return Err(KimiStreamError::PrematureEof("[DONE]"));
    }
    let tool_calls = match complete_tools(&state.tools) {
        Err(error) => {
            return Err(error);
        },
        Ok(calls) => calls,
    };
    assert(tool_calls.deep_view().len() == tool_calls.len());
    let terminal = match state.terminal {
        Some(terminal) => terminal,
        None => if tool_calls.len() == 0 {
            KimiTerminal::Completed
        } else {
            KimiTerminal::ToolsReady
        },
    };
    if let Some(error) = validate_terminal(terminal, &state.content, &tool_calls) {
        return Err(error);
    }
    let pending = match terminal {
        KimiTerminal::Completed | KimiTerminal::ToolsReady => {
            let key = match state.reasoning_key {
                Some(key) => key,
                None => KimiReasoningKey::ReasoningContent,
            };
            match KimiReasoning::for_model(&wire_model, key, state.reasoning) {
                Err(error) => {
                    return Err(KimiStreamError::Request(error));
                },
                Ok(reasoning) => Some(KimiPendingResponse { content: state.content, reasoning, tool_calls }),
            }
        },
        KimiTerminal::OutputExhausted | KimiTerminal::Refusal => None,
    };
    Ok(
        KimiDecodedResponse {
            response_id: text_or_empty(&state.response_id),
            terminal,
            pending,
            usage: state.usage,
            trace_id,
        },
    )
}

impl KimiStreamDecoder {
    /// A decoder before the first byte.
    pub fn new(wire_model: String) -> (decoder: Self)
        ensures
            decoder.deep_view() == fresh(wire_model@),
    {
        KimiStreamDecoder {
            wire_model,
            trace_id: None,
            framing: Framing { line: no_items(), data: no_items(), skip_lf: false },
            state: KimiState {
                response_id: None,
                content: String::new(),
                reasoning: String::new(),
                reasoning_key: None,
                tools: no_items(),
                usage: None,
                terminal: None,
                recognized: false,
                done: false,
                events: no_items(),
            },
            empty: true,
        }
    }

    /// The decoder of a stream that is known by this name elsewhere.
    pub fn with_trace_id(self, trace_id: String) -> (decoder: Self)
        ensures
            decoder.deep_view() == (KimiStreamDecoderModel { trace_id: Some(trace_id@), ..self.deep_view() }),
    {
        KimiStreamDecoder {
            wire_model: self.wire_model,
            trace_id: Some(trace_id),
            framing: self.framing,
            state: self.state,
            empty: self.empty,
        }
    }

    /// Whether the end of the stream was announced.
    pub fn is_done(&self) -> (done: bool)
        ensures
            done == self.deep_view().state.done,
    {
        self.state.done
    }

    /// Takes the next fragment of the stream and hands out what it shows.
    pub fn feed(&mut self, fragment: &[u8]) -> (events: Result<Vec<KimiStreamEvent>, KimiStreamError>)
        ensures
            (final(self).deep_view(), outcome(events)) == fed(old(self).deep_view(), fragment@),
    {
        self.empty = self.empty && only_blank(fragment);
        self.state.events = no_items();
        let applied = push_bytes(&mut self.framing, &mut self.state, fragment);
        let mut events: Vec<KimiStreamEvent> = no_items();
        std::mem::swap(&mut events, &mut self.state.events);
        match applied {
            Ok(_) => Ok(events),
            Err(error) => Err(error),
        }
    }

    /// The whole response at the end of the stream.
    pub fn finish(self) -> (response: Result<KimiDecodedResponse, KimiStreamError>)
        ensures
            outcome(response) == decoded(self.deep_view()),
            response matches Ok(response) ==> marked_for(
                self.wire_model@,
                closed(self.deep_view()).0,
                response.deep_view(),
            ),
    {
        let mut framing = self.framing;
        let mut state = self.state;
        if framing.line.len() > 0 {
            match process_line(&mut framing, &mut state) {
                Err(error) => {
                    return Err(error);
                },
                Ok(_) => {},
            }
        }
        match process_frame(&mut framing, &mut state) {
            Err(error) => {
                return Err(error);
            },
            Ok(_) => {},
        }
        if self.empty {
            return Err(KimiStreamError::EmptyStream);
        }
        finish_response(self.wire_model, self.trace_id, state)
    }
}

} // verus!
