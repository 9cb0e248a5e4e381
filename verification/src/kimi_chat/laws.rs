//! What holds of Kimi requests and responses as a whole.
use crate::api::{item_name, ResponseEventModel};
use crate::chat_completions::laws::lemma_tool_place;
use crate::chat_completions::stream::{
    all_blank, is_blank, or_empty, set_once, tool_place_from, with_tool, FramingModel, PendingToolModel,
};
use crate::chat_completions::types::{ChunkDeltaModel, ToolCallFragmentModel};
use crate::fields::{law_put_then_lookup, lookup, put};
use crate::ids::{digits, hex_char, lemma_digits};
use crate::json::{json_parse, JsonModel};
use crate::kimi_chat::client::{
    as_items, blank_message, blank_reasoning, call_item, shown, stepped, told_from, tool_item_from,
    KimiStreamDriverModel, KimiStreamInputModel, KimiStreamItemModel, PresentationStateModel,
};
use crate::kimi_chat::request::{
    all_call_ids, call_ids_from, kimi_request, marker_read, message_call_ids, normal_call_id, normal_messages,
    output_limit, replay_to, shared_reasoning_key, text_hash, KimiFunctionToolModel, KimiMessageModel,
    KimiReasoningKey, KimiReasoningModel, KimiRequestSettingsModel, KimiToolCallModel, CALL_ID_PREFIX_LEN,
    MAX_CALL_ID_LEN,
};
use crate::kimi_chat::stream::{
    byte_step, bytes_step, choice_step, choices_step, chunk_step, committable, complete_from, complete_tool,
    content_step, contiguous, delta_step, fed, finished, fragment_step, fragments_step, frame_step, fresh,
    id_step, quiet, reasoning_in, reasoning_step, tool_grows, KimiStateModel, KimiStreamDecoderModel,
};
use crate::kimi_chat::stream_types::{chunk_of, KimiChoiceModel, KimiStreamEventModel, KimiUsage};
use crate::protocol::KimiInferenceConfigModel;
use crate::text::{byte_length, fitting_end, fitting_prefix, lemma_byte_length_sum, lemma_fitting, lemma_place, place};
use vstd::prelude::*;
use vstd::set_lib::{lemma_int_range, lemma_len_subset, lemma_subset_equality, set_int_range};

verus! {

// ---- names of tool calls ----

proof fn lemma_ascii_length(text: Seq<char>)
    requires
        forall|i: int| 0 <= i < text.len() ==> (#[trigger] text[i]) as u32 <= 127,
    ensures
        byte_length(text) == text.len(),
    decreases text.len(),
{
    if text.len() > 0 {
        let rest = text.drop_first();
        assert forall|i: int| 0 <= i < rest.len() implies (#[trigger] rest[i]) as u32 <= 127 by {
            assert(rest[i] == text[i + 1]);
        }
        lemma_ascii_length(rest);
    }
}

/// The name of a tool call as it is sent is never too long.
pub proof fn law_call_id_fits(call_id: Seq<char>)
    ensures
        byte_length(normal_call_id(call_id)) <= MAX_CALL_ID_LEN,
{
    if byte_length(call_id) > MAX_CALL_ID_LEN {
        reveal_strlit("-");
        let start = fitting_prefix(call_id, CALL_ID_PREFIX_LEN as nat);
        lemma_fitting(call_id, 0, CALL_ID_PREFIX_LEN as int);
        assert(start =~= call_id.subrange(0, fitting_end(call_id, 0, CALL_ID_PREFIX_LEN as int)));
        let values = digits(text_hash(call_id) as nat, 16, 16);
        let shown = values.map_values(|digit: nat| hex_char(digit));
        lemma_digits(text_hash(call_id) as nat, 16, 16);
        assert forall|i: int| 0 <= i < shown.len() implies (#[trigger] shown[i]) as u32 <= 127 by {
            assert(shown[i] == hex_char(values[i]));
        }
        lemma_ascii_length(shown);
        lemma_ascii_length("-"@);
        lemma_byte_length_sum(start + "-"@, shown);
        lemma_byte_length_sum(start, "-"@);
    }
}

/// A name that was shortened stays as it is.
pub proof fn law_call_id_is_stable(call_id: Seq<char>)
    ensures
        normal_call_id(normal_call_id(call_id)) == normal_call_id(call_id),
{
    law_call_id_fits(call_id);
}

proof fn lemma_call_ids_kept(messages: Seq<KimiMessageModel>, at: int, done: Seq<Seq<char>>, id: Seq<char>)
    requires
        0 <= at <= messages.len(),
        done.contains(id),
    ensures
        call_ids_from(messages, at, done).contains(id),
    decreases messages.len() - at,
{
    if at < messages.len() {
        let more = done + message_call_ids(messages[at]);
        let i = choose|i: int| 0 <= i < done.len() && done[i] == id;
        assert(more[i] == id);
        lemma_call_ids_kept(messages, at + 1, more, id);
    }
}

proof fn lemma_call_id_listed(
    messages: Seq<KimiMessageModel>,
    at: int,
    done: Seq<Seq<char>>,
    index: int,
    call: int,
)
    requires
        0 <= at <= index < messages.len(),
        0 <= call < message_call_ids(messages[index]).len(),
    ensures
        call_ids_from(messages, at, done).contains(message_call_ids(messages[index])[call]),
    decreases messages.len() - at,
{
    let more = done + message_call_ids(messages[at]);
    if at == index {
        assert(more[done.len() + call] == message_call_ids(messages[index])[call]);
        lemma_call_ids_kept(messages, at + 1, more, message_call_ids(messages[index])[call]);
    } else {
        lemma_call_id_listed(messages, at + 1, more, index, call);
    }
}

/// Results stay matched to their calls: a result that names a call of the
/// conversation names it still once the names were shortened.
pub proof fn law_results_stay_matched(
    messages: Seq<KimiMessageModel>,
    selected: Option<KimiReasoningKey>,
    caller: int,
    call: int,
    result: int,
)
    requires
        normal_messages(messages, selected) is Ok,
        0 <= caller < messages.len(),
        0 <= result < messages.len(),
        messages[caller] is Assistant,
        0 <= call < messages[caller]->Assistant_0.tool_calls.len(),
        messages[result] is Tool,
        messages[result]->tool_call_id == messages[caller]->Assistant_0.tool_calls[call].id,
    ensures
        ({
            let normal = normal_messages(messages, selected)->Ok_0;
            normal[caller] is Assistant && normal[result] is Tool && normal[result]->tool_call_id
                == normal[caller]->Assistant_0.tool_calls[call].id
        }),
{
    let id = messages[result]->tool_call_id;
    let ids = all_call_ids(messages);
    lemma_call_id_listed(messages, 0, Seq::empty(), caller, call);
    assert(message_call_ids(messages[caller])[call] == id);
    lemma_place(ids, id, 0);
    assert(place(ids, id) is Some);
}

// ---- reasoning ----

/// Every assistant message that is sent has its reasoning under the same name,
/// be it empty. Where it had no more than one field of reasoning, it has no
/// other, and the value is the one it had.
pub proof fn law_reasoning_has_one_name(
    messages: Seq<KimiMessageModel>,
    selected: Option<KimiReasoningKey>,
    index: int,
)
    requires
        normal_messages(messages, selected) is Ok,
        0 <= index < messages.len(),
        messages[index] is Assistant,
    ensures
        normal_messages(messages, selected)->Ok_0[index] matches KimiMessageModel::Assistant(message) && lookup(
            message.reasoning,
            shared_reasoning_key(messages, selected),
        ) is Some,
        messages[index]->Assistant_0.reasoning.len() <= 1 ==> normal_messages(
            messages,
            selected,
        )->Ok_0[index]->Assistant_0.reasoning == seq![
            (
                shared_reasoning_key(messages, selected),
                if messages[index]->Assistant_0.reasoning.len() == 1 {
                    messages[index]->Assistant_0.reasoning[0].1
                } else {
                    JsonModel::Text(Seq::empty())
                },
            ),
        ],
{
    let key = shared_reasoning_key(messages, selected);
    let message = messages[index]->Assistant_0;
    let value = if message.reasoning.len() > 0 {
        message.reasoning[0].1
    } else {
        JsonModel::Text(Seq::empty())
    };
    let others = if message.reasoning.len() > 0 {
        message.reasoning.drop_first()
    } else {
        message.reasoning
    };
    law_put_then_lookup(others, key, value, key);
    if message.reasoning.len() <= 1 {
        assert(others =~= Seq::empty());
        assert(put(others, key, value) =~= seq![(key, value)]);
    }
}

/// Reasoning is replayed to exactly the model that its marker names, with its
/// text and under its own name.
pub proof fn law_replay_reaches_only_its_model(reasoning: KimiReasoningModel, wire_model: Seq<char>)
    ensures
        match marker_read(reasoning.marker) {
            Some(marker) => replay_to(reasoning, wire_model) is Ok && (replay_to(reasoning, wire_model)->Ok_0 is Some
                <==> wire_model == marker.model) && (replay_to(reasoning, wire_model)->Ok_0 matches Some(replay)
                ==> replay == (marker.key, reasoning.text)),
            None => replay_to(reasoning, wire_model) is Err,
        },
{
}

// ---- limits ----

/// A request asks for one token at least, for no more than the model gives, and
/// leaves the input its room where that fits at all.
pub proof fn law_output_limit_is_bounded(context_window: u64, input_tokens: nat, max_output_tokens: u32)
    requires
        max_output_tokens > 0,
    ensures
        1 <= output_limit(context_window, input_tokens, max_output_tokens) <= max_output_tokens,
        input_tokens < context_window ==> input_tokens + output_limit(
            context_window,
            input_tokens,
            max_output_tokens,
        ) <= context_window,
{
}

/// The limit of every request that is built is bounded in this way.
pub proof fn law_built_request_is_bounded(
    config: KimiInferenceConfigModel,
    settings: KimiRequestSettingsModel,
    messages: Seq<KimiMessageModel>,
    tools: Seq<KimiFunctionToolModel>,
)
    ensures
        kimi_request(config, settings, messages, tools) matches Ok(request) ==> 1 <= request.max_completion_tokens
            <= config.max_output_tokens && request.stream && request.model == config.wire_model,
{
}

// ---- fragments ----

/// A state whose events stand behind earlier ones.
pub open spec fn behind(earlier: Seq<KimiStreamEventModel>, state: KimiStateModel) -> KimiStateModel {
    KimiStateModel { events: earlier + state.events, ..state }
}

proof fn lemma_fragment_behind(earlier: Seq<KimiStreamEventModel>, state: KimiStateModel, fragment: ToolCallFragmentModel)
    ensures
        fragment_step(behind(earlier, state), fragment) == (
            behind(earlier, fragment_step(state, fragment).0),
            fragment_step(state, fragment).1,
        ),
{
    let (tools, place) = with_tool(state.tools, fragment.index);
    let tool = tools[place];
    if let Some(id) = set_once(tool.id, fragment.id) {
        let named = PendingToolModel { id, ..tool };
        let (name, arguments) = match fragment.function {
            Some(function) => (function.name, function.arguments),
            None => (None, None),
        };
        if let Some(name) = set_once(named.name, name) {
            let ready = PendingToolModel { name, ..named };
            let response_id = or_empty(state.response_id);
            let (grown, events) = tool_grows(ready, state.events, arguments, response_id);
            let (grown_behind, events_behind) = tool_grows(ready, earlier + state.events, arguments, response_id);
            assert(events_behind =~= earlier + events);
        }
    }
}

proof fn lemma_fragments_behind(
    earlier: Seq<KimiStreamEventModel>,
    state: KimiStateModel,
    fragments: Seq<ToolCallFragmentModel>,
    at: int,
)
    requires
        0 <= at <= fragments.len(),
    ensures
        fragments_step(behind(earlier, state), fragments, at) == (
            behind(earlier, fragments_step(state, fragments, at).0),
            fragments_step(state, fragments, at).1,
        ),
    decreases fragments.len() - at,
{
    if at < fragments.len() {
        lemma_fragment_behind(earlier, state, fragments[at]);
        let (next, applied) = fragment_step(state, fragments[at]);
        if applied is Ok {
            lemma_fragments_behind(earlier, next, fragments, at + 1);
        }
    }
}

proof fn lemma_delta_behind(earlier: Seq<KimiStreamEventModel>, state: KimiStateModel, delta: ChunkDeltaModel)
    ensures
        delta_step(behind(earlier, state), delta) == (
            behind(earlier, delta_step(state, delta).0),
            delta_step(state, delta).1,
        ),
{
    let said = content_step(state, delta.content);
    assert(content_step(behind(earlier, state), delta.content).events =~= earlier + said.events);
    assert(content_step(behind(earlier, state), delta.content) == behind(earlier, said));
    let reasoning = reasoning_in(delta.extensions);
    let (thought, applied) = reasoning_step(said, reasoning);
    assert(reasoning_step(behind(earlier, said), reasoning).0.events =~= earlier + thought.events);
    assert(reasoning_step(behind(earlier, said), reasoning) == (behind(earlier, thought), applied));
    if applied is Ok {
        lemma_fragments_behind(earlier, thought, delta.tool_calls, 0);
    }
}

proof fn lemma_choices_behind(
    earlier: Seq<KimiStreamEventModel>,
    state: KimiStateModel,
    usage: Option<KimiUsage>,
    choices: Seq<KimiChoiceModel>,
    at: int,
)
    requires
        0 <= at <= choices.len(),
    ensures
        choices_step(behind(earlier, state), usage, choices, at) == (
            behind(earlier, choices_step(state, usage, choices, at).0),
            choices_step(state, usage, choices, at).1,
        ),
    decreases choices.len() - at,
{
    if at < choices.len() {
        lemma_delta_behind(earlier, state, choices[at].delta);
        let (next, applied) = choice_step(state, choices[at]);
        if applied is Ok {
            let usage = if choices[at].usage is Some {
                choices[at].usage
            } else {
                usage
            };
            lemma_choices_behind(earlier, next, usage, choices, at + 1);
        }
    }
}

proof fn lemma_chunk_behind(earlier: Seq<KimiStreamEventModel>, state: KimiStateModel, json: JsonModel)
    ensures
        chunk_step(behind(earlier, state), json) == (
            behind(earlier, chunk_step(state, json).0),
            chunk_step(state, json).1,
        ),
{
    if let Ok(chunk) = chunk_of(json) {
        let known = id_step(KimiStateModel { recognized: true, ..state }, chunk.id).0;
        lemma_choices_behind(earlier, known, None, chunk.choices, 0);
    }
}

proof fn lemma_byte_behind(earlier: Seq<KimiStreamEventModel>, framing: FramingModel, state: KimiStateModel, byte: u8)
    ensures
        byte_step(framing, behind(earlier, state), byte) == (
            byte_step(framing, state, byte).0,
            behind(earlier, byte_step(framing, state, byte).1),
            byte_step(framing, state, byte).2,
        ),
{
    let ready = FramingModel { skip_lf: false, ..framing };
    if ready.line.len() == 0 && ready.data.len() > 0 {
        let data = crate::text::joined(ready.data);
        if let Ok(json) = json_parse(data) {
            lemma_chunk_behind(earlier, state, json);
        }
    }
}

proof fn lemma_bytes_behind(
    earlier: Seq<KimiStreamEventModel>,
    framing: FramingModel,
    state: KimiStateModel,
    bytes: Seq<u8>,
    at: int,
)
    requires
        0 <= at <= bytes.len(),
    ensures
        bytes_step(framing, behind(earlier, state), bytes, at) == (
            bytes_step(framing, state, bytes, at).0,
            behind(earlier, bytes_step(framing, state, bytes, at).1),
            bytes_step(framing, state, bytes, at).2,
        ),
    decreases bytes.len() - at,
{
    if at < bytes.len() {
        lemma_byte_behind(earlier, framing, state, bytes[at]);
        let (next_framing, next_state, applied) = byte_step(framing, state, bytes[at]);
        if applied is Ok {
            lemma_bytes_behind(earlier, next_framing, next_state, bytes, at + 1);
        }
    }
}

proof fn lemma_bytes_shift(framing: FramingModel, state: KimiStateModel, first: Seq<u8>, second: Seq<u8>, at: int)
    requires
        0 <= at <= second.len(),
    ensures
        bytes_step(framing, state, first + second, first.len() + at) == bytes_step(framing, state, second, at),
    decreases second.len() - at,
{
    if at < second.len() {
        assert((first + second)[first.len() + at] == second[at]);
        let (next_framing, next_state, applied) = byte_step(framing, state, second[at]);
        if applied is Ok {
            lemma_bytes_shift(next_framing, next_state, first, second, at + 1);
        }
    }
}

/// Bytes may be taken in two parts.
pub proof fn lemma_bytes_cut(framing: FramingModel, state: KimiStateModel, first: Seq<u8>, second: Seq<u8>, at: int)
    requires
        0 <= at <= first.len(),
    ensures
        ({
            let (cut_framing, cut_state, applied) = bytes_step(framing, state, first, at);
            bytes_step(framing, state, first + second, at) == match applied {
                Ok(_) => bytes_step(cut_framing, cut_state, second, 0),
                Err(error) => (cut_framing, cut_state, Err(error)),
            }
        }),
    decreases first.len() - at,
{
    if at < first.len() {
        assert((first + second)[at] == first[at]);
        let (next_framing, next_state, applied) = byte_step(framing, state, first[at]);
        if applied is Ok {
            lemma_bytes_cut(next_framing, next_state, first, second, at + 1);
        }
    } else {
        lemma_bytes_shift(framing, state, first, second, 0);
    }
}

/// Where a stream is cut does not matter: two fragments leave the decoder and
/// show what one does that holds the bytes of both. Where the first one fails,
/// both together fail with the same error.
pub proof fn law_cuts_do_not_matter(decoder: KimiStreamDecoderModel, first: Seq<u8>, second: Seq<u8>)
    ensures
        ({
            let (between, shown_first) = fed(decoder, first);
            let (after, shown_second) = fed(between, second);
            match shown_first {
                Err(error) => fed(decoder, first + second).1 == Err::<Seq<KimiStreamEventModel>, _>(error),
                Ok(earlier) => fed(decoder, first + second) == (
                    after,
                    match shown_second {
                        Ok(events) => Ok(earlier + events),
                        Err(error) => Err(error),
                    },
                ),
            }
        }),
{
    let start = quiet(decoder.state);
    let (framing, state, applied) = bytes_step(decoder.framing, start, first, 0);
    lemma_bytes_cut(decoder.framing, start, first, second, 0);
    assert(state.events + Seq::<KimiStreamEventModel>::empty() =~= state.events);
    assert(behind(state.events, quiet(state)) == state);
    lemma_bytes_behind(state.events, framing, quiet(state), second, 0);
    let both = first + second;
    assert(all_blank(both) == (all_blank(first) && all_blank(second))) by {
        if all_blank(both) {
            assert forall|i: int| 0 <= i < first.len() implies is_blank(#[trigger] first[i]) by {
                assert(both[i] == first[i]);
            }
            assert forall|i: int| 0 <= i < second.len() implies is_blank(#[trigger] second[i]) by {
                assert(both[first.len() + i] == second[i]);
            }
        }
    }
}

// ---- what may be committed ----

proof fn lemma_complete_tools(
    tools: Seq<PendingToolModel>,
    at: int,
    done: Seq<KimiToolCallModel>,
)
    requires
        0 <= at <= tools.len(),
        forall|i: int|
            0 <= i < done.len() ==> json_parse((#[trigger] done[i]).function.arguments) matches Ok(
                JsonModel::Object(_),
            ),
    ensures
        complete_from(tools, at, done) matches Ok(calls) ==> forall|i: int|
            0 <= i < calls.len() ==> json_parse((#[trigger] calls[i]).function.arguments) matches Ok(
                JsonModel::Object(_),
            ),
    decreases tools.len() - at,
{
    if at < tools.len() {
        if let Some(place) = tool_place_from(tools, at as usize, 0) {
            if let Ok(call) = complete_tool(tools[place]) {
                lemma_complete_tools(tools, at + 1, done.push(call));
            }
        }
    }
}

/// A response is only there once the end of its stream was announced. Output
/// may be committed if and only if the response ended in a way that permits it.
/// It has text or tool calls, and every call has a JSON object as arguments.
pub proof fn law_only_complete_output_is_pending(
    wire_model: Seq<char>,
    trace_id: Option<Seq<char>>,
    state: KimiStateModel,
)
    ensures
        finished(wire_model, trace_id, state) matches Ok(response) ==> state.done && (response.pending is Some <==> committable(
            response.terminal,
        )) && (response.pending matches Some(pending) ==> (pending.content.len() > 0 || pending.tool_calls.len() > 0)
            && (forall|i: int|
            0 <= i < pending.tool_calls.len() ==> json_parse(
                (#[trigger] pending.tool_calls[i]).function.arguments,
            ) matches Ok(JsonModel::Object(_)))),
{
    lemma_complete_tools(state.tools, 0, Seq::empty());
}

/// Once the end of the stream was announced, every further frame is an error
/// and leaves the response as it was.
pub proof fn law_nothing_follows_the_end(framing: FramingModel, state: KimiStateModel)
    requires
        state.done,
        framing.data.len() > 0,
    ensures
        frame_step(framing, state).1 == state,
        frame_step(framing, state).2 is Err,
{
}

// ---- what the caller is told ----

/// Whether an item tells the caller to commit something.
pub open spec fn commits(item: KimiStreamItemModel) -> bool {
    item matches KimiStreamItemModel::Event(event) && (event is OutputItemDone || event is Completed)
}

proof fn lemma_shown_commits_nothing(state: PresentationStateModel, event: KimiStreamEventModel, fresh: Seq<char>)
    ensures
        forall|i: int|
            0 <= i < shown(state, event, fresh).1.len() ==> !((#[trigger] shown(state, event, fresh).1[i]) is OutputItemDone)
                && !(shown(state, event, fresh).1[i] is Completed),
{
}

proof fn lemma_told_commits_nothing(
    state: PresentationStateModel,
    events: Seq<KimiStreamEventModel>,
    at: int,
    fresh: Seq<char>,
    told: Seq<KimiStreamItemModel>,
)
    requires
        0 <= at <= events.len(),
        forall|i: int| 0 <= i < told.len() ==> !commits(#[trigger] told[i]) && !(told[i] is Failure),
    ensures
        forall|i: int|
            0 <= i < told_from(state, events, at, fresh, told).1.len() ==> !commits(
                #[trigger] told_from(state, events, at, fresh, told).1[i],
            ) && !(told_from(state, events, at, fresh, told).1[i] is Failure),
    decreases events.len() - at,
{
    if at < events.len() {
        let name = crate::kimi_chat::client::numbered(fresh, at);
        let (next, more) = shown(state, events[at], name);
        lemma_shown_commits_nothing(state, events[at], name);
        let all = told + as_items(more);
        assert forall|i: int| 0 <= i < all.len() implies !commits(#[trigger] all[i]) && !(all[i] is Failure) by {
            if i < told.len() {
                assert(all[i] == told[i]);
            } else {
                assert(all[i] == KimiStreamItemModel::Event(more[i - told.len()]));
            }
        }
        lemma_told_commits_nothing(next, events, at + 1, fresh, all);
    }
}

/// A stream that fails commits nothing: where the caller is told of a failure,
/// no item is done and no response complete, and nothing more is told.
pub proof fn law_failure_commits_nothing(
    driver: KimiStreamDriverModel,
    input: KimiStreamInputModel,
    fresh: Seq<char>,
    i: int,
    j: int,
)
    requires
        0 <= i < stepped(driver, input, fresh).items.len(),
        0 <= j < stepped(driver, input, fresh).items.len(),
        stepped(driver, input, fresh).items[i] is Failure,
    ensures
        !commits(stepped(driver, input, fresh).items[j]),
        stepped(driver, input, fresh).next is None,
{
    if let KimiStreamInputModel::Bytes(bytes) = input {
        if let Ok(events) = fed(driver.decoder, bytes).1 {
            lemma_told_commits_nothing(driver.presentation, events, 0, fresh, Seq::empty());
        }
    }
}

// ---- what is shown is what is committed ----

/// The text that events show.
pub open spec fn shown_content(events: Seq<KimiStreamEventModel>) -> Seq<char>
    decreases events.len(),
{
    if events.len() == 0 {
        Seq::empty()
    } else {
        match events.last() {
            KimiStreamEventModel::Content { delta, .. } => shown_content(events.drop_last()) + delta,
            _ => shown_content(events.drop_last()),
        }
    }
}

/// The reasoning that events show.
pub open spec fn shown_reasoning(events: Seq<KimiStreamEventModel>) -> Seq<char>
    decreases events.len(),
{
    if events.len() == 0 {
        Seq::empty()
    } else {
        match events.last() {
            KimiStreamEventModel::Reasoning { delta, .. } => shown_reasoning(events.drop_last()) + delta,
            _ => shown_reasoning(events.drop_last()),
        }
    }
}

/// Whether a state is what another one was and what its own events show.
pub open spec fn grown_from(content: Seq<char>, reasoning: Seq<char>, state: KimiStateModel) -> bool {
    state.content == content + shown_content(state.events) && state.reasoning == reasoning + shown_reasoning(
        state.events,
    )
}

proof fn lemma_shown_push(events: Seq<KimiStreamEventModel>, event: KimiStreamEventModel)
    ensures
        shown_content(events.push(event)) == match event {
            KimiStreamEventModel::Content { delta, .. } => shown_content(events) + delta,
            _ => shown_content(events),
        },
        shown_reasoning(events.push(event)) == match event {
            KimiStreamEventModel::Reasoning { delta, .. } => shown_reasoning(events) + delta,
            _ => shown_reasoning(events),
        },
{
    assert(events.push(event).drop_last() =~= events);
}

proof fn lemma_fragments_grown(
    content: Seq<char>,
    reasoning: Seq<char>,
    state: KimiStateModel,
    fragments: Seq<ToolCallFragmentModel>,
    at: int,
)
    requires
        grown_from(content, reasoning, state),
        0 <= at <= fragments.len(),
    ensures
        grown_from(content, reasoning, fragments_step(state, fragments, at).0),
    decreases fragments.len() - at,
{
    if at < fragments.len() {
        let (next, applied) = fragment_step(state, fragments[at]);
        if next.events != state.events {
            let event = next.events.last();
            assert(event is ToolCall);
            lemma_shown_push(state.events, event);
            assert(next.events =~= state.events.push(event));
        }
        if applied is Ok {
            lemma_fragments_grown(content, reasoning, next, fragments, at + 1);
        }
    }
}

proof fn lemma_delta_grown(content: Seq<char>, reasoning: Seq<char>, state: KimiStateModel, delta: ChunkDeltaModel)
    requires
        grown_from(content, reasoning, state),
    ensures
        grown_from(content, reasoning, delta_step(state, delta).0),
{
    let said = content_step(state, delta.content);
    if said.events != state.events {
        lemma_shown_push(state.events, said.events.last());
        let text = delta.content->0;
        assert((content + shown_content(state.events)) + text =~= content + (shown_content(state.events) + text));
    }
    assert(grown_from(content, reasoning, said));
    let found = reasoning_in(delta.extensions);
    let (thought, applied) = reasoning_step(said, found);
    if thought.events != said.events {
        lemma_shown_push(said.events, thought.events.last());
        let text = (found->0).1;
        assert((reasoning + shown_reasoning(said.events)) + text =~= reasoning + (shown_reasoning(said.events) + text));
    }
    assert(grown_from(content, reasoning, thought));
    if applied is Ok {
        lemma_fragments_grown(content, reasoning, thought, delta.tool_calls, 0);
    }
}

proof fn lemma_choices_grown(
    content: Seq<char>,
    reasoning: Seq<char>,
    state: KimiStateModel,
    usage: Option<KimiUsage>,
    choices: Seq<KimiChoiceModel>,
    at: int,
)
    requires
        grown_from(content, reasoning, state),
        0 <= at <= choices.len(),
    ensures
        grown_from(content, reasoning, choices_step(state, usage, choices, at).0),
    decreases choices.len() - at,
{
    if at < choices.len() {
        lemma_delta_grown(content, reasoning, state, choices[at].delta);
        let (next, applied) = choice_step(state, choices[at]);
        if applied is Ok {
            let usage = if choices[at].usage is Some {
                choices[at].usage
            } else {
                usage
            };
            lemma_choices_grown(content, reasoning, next, usage, choices, at + 1);
        }
    }
}

proof fn lemma_frame_grown(content: Seq<char>, reasoning: Seq<char>, framing: FramingModel, state: KimiStateModel)
    requires
        grown_from(content, reasoning, state),
    ensures
        grown_from(content, reasoning, frame_step(framing, state).1),
{
    if let Ok(json) = json_parse(crate::text::joined(framing.data)) {
        if let Ok(chunk) = chunk_of(json) {
            let known = id_step(KimiStateModel { recognized: true, ..state }, chunk.id).0;
            lemma_choices_grown(content, reasoning, known, None, chunk.choices, 0);
        }
    }
}

/// Bytes add the text and the reasoning that they show.
pub proof fn lemma_bytes_grown(
    content: Seq<char>,
    reasoning: Seq<char>,
    framing: FramingModel,
    state: KimiStateModel,
    bytes: Seq<u8>,
    at: int,
)
    requires
        grown_from(content, reasoning, state),
        0 <= at <= bytes.len(),
    ensures
        grown_from(content, reasoning, bytes_step(framing, state, bytes, at).1),
    decreases bytes.len() - at,
{
    if at < bytes.len() {
        lemma_frame_grown(content, reasoning, FramingModel { skip_lf: false, ..framing }, state);
        let (next_framing, next_state, applied) = byte_step(framing, state, bytes[at]);
        if applied is Ok {
            lemma_bytes_grown(content, reasoning, next_framing, next_state, bytes, at + 1);
        }
    }
}

/// What a fragment shows is what it adds to the response: the text and the
/// reasoning grow by exactly the deltas that are handed out.
pub proof fn law_what_is_shown_is_added(decoder: KimiStreamDecoderModel, fragment: Seq<u8>)
    ensures
        fed(decoder, fragment).1 matches Ok(events) ==> fed(decoder, fragment).0.state.content
            == decoder.state.content + shown_content(events) && fed(decoder, fragment).0.state.reasoning
            == decoder.state.reasoning + shown_reasoning(events),
{
    let start = quiet(decoder.state);
    assert(start.content + Seq::<char>::empty() =~= start.content);
    assert(start.reasoning + Seq::<char>::empty() =~= start.reasoning);
    lemma_bytes_grown(start.content, start.reasoning, decoder.framing, start, fragment, 0);
}

// ---- tool calls are shown as they are committed ----

/// The arguments that events show of the tool call with a number.
pub open spec fn shown_arguments(events: Seq<KimiStreamEventModel>, number: usize) -> Seq<char>
    decreases events.len(),
{
    if events.len() == 0 {
        Seq::empty()
    } else {
        match events.last() {
            KimiStreamEventModel::ToolCall { index, arguments_delta, .. } => if index == number {
                shown_arguments(events.drop_last(), number) + arguments_delta
            } else {
                shown_arguments(events.drop_last(), number)
            },
            _ => shown_arguments(events.drop_last(), number),
        }
    }
}

/// What of the arguments of the tool call with a number is known to the
/// caller: nothing before its identity is.
pub open spec fn visible_arguments(tools: Seq<PendingToolModel>, number: usize) -> Seq<char> {
    match tool_place_from(tools, number, 0) {
        Some(place) => if tools[place].presented {
            tools[place].arguments
        } else {
            Seq::empty()
        },
        None => Seq::empty(),
    }
}

/// Whether a tool call is shown where its identity is known, and keeps all its
/// arguments back where not.
pub open spec fn shown_when_known(tool: PendingToolModel) -> bool {
    &&& tool.presented == (tool.id is Some && tool.name is Some)
    &&& !tool.presented ==> tool.unpresented_arguments == tool.arguments
}

/// Whether no two tool calls have the same number, and each is shown where its
/// identity is known.
pub open spec fn orderly_tools(tools: Seq<PendingToolModel>) -> bool {
    &&& forall|i: int, j: int|
        0 <= i < j < tools.len() ==> (#[trigger] tools[i]).index != (#[trigger] tools[j]).index
    &&& forall|i: int| 0 <= i < tools.len() ==> shown_when_known(#[trigger] tools[i])
}

/// Whether tool calls show what they showed before and what the events add.
pub open spec fn tools_grown_from(before: Seq<PendingToolModel>, state: KimiStateModel, number: usize) -> bool {
    &&& orderly_tools(state.tools)
    &&& visible_arguments(state.tools, number) == visible_arguments(before, number) + shown_arguments(
        state.events,
        number,
    )
}

proof fn lemma_arguments_push(events: Seq<KimiStreamEventModel>, event: KimiStreamEventModel, number: usize)
    ensures
        shown_arguments(events.push(event), number) == match event {
            KimiStreamEventModel::ToolCall { index, arguments_delta, .. } => if index == number {
                shown_arguments(events, number) + arguments_delta
            } else {
                shown_arguments(events, number)
            },
            _ => shown_arguments(events, number),
        },
{
    assert(events.push(event).drop_last() =~= events);
}

/// In order, a tool call stands at one place.
pub proof fn lemma_one_place(tools: Seq<PendingToolModel>, place: int)
    requires
        orderly_tools(tools),
        0 <= place < tools.len(),
    ensures
        tool_place_from(tools, tools[place].index, 0) == Some(place),
{
    lemma_tool_place(tools, tools[place].index, 0);
}

/// A part of a tool call adds the arguments that it shows.
pub proof fn lemma_fragment_grows_tools(
    before: Seq<PendingToolModel>,
    state: KimiStateModel,
    fragment: ToolCallFragmentModel,
    number: usize,
)
    requires
        tools_grown_from(before, state, number),
    ensures
        fragment_step(state, fragment).1 is Ok ==> tools_grown_from(before, fragment_step(state, fragment).0, number),
{
    let (next, applied) = fragment_step(state, fragment);
    if applied is Ok {
        let (tools, place) = with_tool(state.tools, fragment.index);
        lemma_tool_place(state.tools, fragment.index, 0);
        assert(tools[place].index == fragment.index && shown_when_known(tools[place]));
        assert(orderly_tools(tools));
        assert(visible_arguments(tools, number) == visible_arguments(state.tools, number)) by {
            lemma_tool_place(state.tools, number, 0);
            lemma_tool_place(tools, number, 0);
            if tool_place_from(state.tools, number, 0) is Some {
                let found = tool_place_from(state.tools, number, 0)->0;
                assert(tools[found] == state.tools[found]);
                lemma_one_place(tools, found);
            }
        }
        assert(forall|i: int| 0 <= i < tools.len() && i != place ==> next.tools[i] == tools[i]);
        assert(next.tools[place].index == fragment.index);
        if next.events != state.events {
            let event = next.events.last();
            assert(event is ToolCall && event->index == fragment.index);
            assert(next.events =~= state.events.push(event));
            lemma_arguments_push(state.events, event, number);
        }
        assert(Seq::<char>::empty() + next.tools[place].arguments =~= next.tools[place].arguments);
        assert(shown_when_known(next.tools[place]));
        assert(orderly_tools(next.tools));
        lemma_tool_place(tools, number, 0);
        lemma_tool_place(next.tools, number, 0);
        let known = visible_arguments(before, number);
        let told = shown_arguments(state.events, number);
        if number == fragment.index {
            lemma_one_place(tools, place);
            lemma_one_place(next.tools, place);
            if next.events != state.events {
                let delta = next.events.last()->arguments_delta;
                assert((known + told) + delta =~= known + (told + delta));
            }
        } else if tool_place_from(tools, number, 0) is Some {
            let found = tool_place_from(tools, number, 0)->0;
            assert(next.tools[found] == tools[found]);
            lemma_one_place(next.tools, found);
        }
    }
}

proof fn lemma_fragments_grow_tools(
    before: Seq<PendingToolModel>,
    state: KimiStateModel,
    fragments: Seq<ToolCallFragmentModel>,
    at: int,
    number: usize,
)
    requires
        tools_grown_from(before, state, number),
        0 <= at <= fragments.len(),
    ensures
        fragments_step(state, fragments, at).1 is Ok ==> tools_grown_from(
            before,
            fragments_step(state, fragments, at).0,
            number,
        ),
    decreases fragments.len() - at,
{
    if at < fragments.len() {
        lemma_fragment_grows_tools(before, state, fragments[at], number);
        let (next, applied) = fragment_step(state, fragments[at]);
        if applied is Ok {
            lemma_fragments_grow_tools(before, next, fragments, at + 1, number);
        }
    }
}

proof fn lemma_delta_grows_tools(
    before: Seq<PendingToolModel>,
    state: KimiStateModel,
    delta: ChunkDeltaModel,
    number: usize,
)
    requires
        tools_grown_from(before, state, number),
    ensures
        delta_step(state, delta).1 is Ok ==> tools_grown_from(before, delta_step(state, delta).0, number),
{
    let said = content_step(state, delta.content);
    if said.events != state.events {
        lemma_arguments_push(state.events, said.events.last(), number);
    }
    let (thought, applied) = reasoning_step(said, reasoning_in(delta.extensions));
    if thought.events != said.events {
        lemma_arguments_push(said.events, thought.events.last(), number);
    }
    if applied is Ok {
        lemma_fragments_grow_tools(before, thought, delta.tool_calls, 0, number);
    }
}

proof fn lemma_choices_grow_tools(
    before: Seq<PendingToolModel>,
    state: KimiStateModel,
    usage: Option<KimiUsage>,
    choices: Seq<KimiChoiceModel>,
    at: int,
    number: usize,
)
    requires
        tools_grown_from(before, state, number),
        0 <= at <= choices.len(),
    ensures
        choices_step(state, usage, choices, at).1 is Ok ==> tools_grown_from(
            before,
            choices_step(state, usage, choices, at).0,
            number,
        ),
    decreases choices.len() - at,
{
    if at < choices.len() {
        lemma_delta_grows_tools(before, state, choices[at].delta, number);
        let (next, applied) = choice_step(state, choices[at]);
        if applied is Ok {
            let usage = if choices[at].usage is Some {
                choices[at].usage
            } else {
                usage
            };
            lemma_choices_grow_tools(before, next, usage, choices, at + 1, number);
        }
    }
}

proof fn lemma_frame_grows_tools(
    before: Seq<PendingToolModel>,
    framing: FramingModel,
    state: KimiStateModel,
    number: usize,
)
    requires
        tools_grown_from(before, state, number),
    ensures
        frame_step(framing, state).2 is Ok ==> tools_grown_from(before, frame_step(framing, state).1, number),
{
    if let Ok(json) = json_parse(crate::text::joined(framing.data)) {
        if let Ok(chunk) = chunk_of(json) {
            let known = id_step(KimiStateModel { recognized: true, ..state }, chunk.id).0;
            lemma_choices_grow_tools(before, known, None, chunk.choices, 0, number);
        }
    }
}

/// Bytes add the arguments that they show.
pub proof fn lemma_bytes_grow_tools(
    before: Seq<PendingToolModel>,
    framing: FramingModel,
    state: KimiStateModel,
    bytes: Seq<u8>,
    at: int,
    number: usize,
)
    requires
        tools_grown_from(before, state, number),
        0 <= at <= bytes.len(),
    ensures
        bytes_step(framing, state, bytes, at).2 is Ok ==> tools_grown_from(
            before,
            bytes_step(framing, state, bytes, at).1,
            number,
        ),
    decreases bytes.len() - at,
{
    if at < bytes.len() {
        lemma_frame_grows_tools(before, FramingModel { skip_lf: false, ..framing }, state, number);
        let (next_framing, next_state, applied) = byte_step(framing, state, bytes[at]);
        if applied is Ok {
            lemma_bytes_grow_tools(before, next_framing, next_state, bytes, at + 1, number);
        }
    }
}

/// What a fragment shows of a tool call is what it adds to it: the arguments
/// that the caller knows grow by exactly the deltas that are handed out. The
/// tool calls stay in order.
pub proof fn law_shown_arguments_are_added(decoder: KimiStreamDecoderModel, fragment: Seq<u8>, number: usize)
    requires
        orderly_tools(decoder.state.tools),
    ensures
        fed(decoder, fragment).1 matches Ok(events) ==> orderly_tools(fed(decoder, fragment).0.state.tools)
            && visible_arguments(fed(decoder, fragment).0.state.tools, number) == visible_arguments(
            decoder.state.tools,
            number,
        ) + shown_arguments(events, number),
{
    let start = quiet(decoder.state);
    let known = visible_arguments(start.tools, number);
    assert(known + Seq::<char>::empty() =~= known);
    lemma_bytes_grow_tools(start.tools, decoder.framing, start, fragment, 0, number);
}

/// A decoder starts with its tool calls in order.
pub proof fn law_tools_start_in_order(wire_model: Seq<char>)
    ensures
        orderly_tools(fresh(wire_model).state.tools),
{
}

/// The numbers of tool calls.
pub open spec fn numbers(tools: Seq<PendingToolModel>) -> Seq<int> {
    Seq::new(tools.len(), |p: int| tools[p].index as int)
}

/// In order, there are no more tool calls than numbers. Where they are numbered
/// from zero on without a gap, no number reaches their count.
pub proof fn lemma_numbers(tools: Seq<PendingToolModel>)
    requires
        orderly_tools(tools),
    ensures
        tools.len() <= usize::MAX + 1,
        contiguous(tools) ==> forall|p: int| 0 <= p < tools.len() ==> (#[trigger] tools[p]).index < tools.len(),
{
    let all = numbers(tools);
    let set = all.to_set();
    all.unique_seq_to_set();
    lemma_int_range(0, usize::MAX + 1);
    assert(set.subset_of(set_int_range(0, usize::MAX + 1))) by {
        assert forall|number: int| set.contains(number) implies set_int_range(0, usize::MAX + 1).contains(number) by {
            let p = choose|p: int| 0 <= p < all.len() && all[p] == number;
            assert(all[p] == tools[p].index);
        }
    }
    lemma_len_subset(set, set_int_range(0, usize::MAX + 1));
    if contiguous(tools) {
        let count = tools.len() as int;
        lemma_int_range(0, count);
        assert forall|number: int| set_int_range(0, count).contains(number) implies set.contains(number) by {
            assert(tool_place_from(tools, number as usize, 0) is Some);
            lemma_tool_place(tools, number as usize, 0);
            let p = tool_place_from(tools, number as usize, 0)->0;
            assert(all[p] == number);
        }
        lemma_subset_equality(set_int_range(0, count), set);
        assert forall|p: int| 0 <= p < tools.len() implies (#[trigger] tools[p]).index < tools.len() by {
            assert(set.contains(all[p]));
        }
    }
}

/// Complete tool calls have the arguments that the caller knows.
pub proof fn lemma_complete_is_visible(tools: Seq<PendingToolModel>, at: int, done: Seq<KimiToolCallModel>)
    requires
        orderly_tools(tools),
        tools.len() <= usize::MAX + 1,
        0 <= at <= tools.len(),
        done.len() == at,
        forall|i: int|
            0 <= i < done.len() ==> (#[trigger] done[i]).function.arguments == visible_arguments(tools, i as usize),
    ensures
        complete_from(tools, at, done) matches Ok(calls) ==> calls.len() == tools.len() && forall|i: int|
            0 <= i < calls.len() ==> (#[trigger] calls[i]).function.arguments == visible_arguments(tools, i as usize),
    decreases tools.len() - at,
{
    if at < tools.len() {
        lemma_tool_place(tools, at as usize, 0);
        if let Some(place) = tool_place_from(tools, at as usize, 0) {
            assert(shown_when_known(tools[place]));
            if let Ok(call) = complete_tool(tools[place]) {
                lemma_complete_is_visible(tools, at + 1, done.push(call));
            }
        }
    }
}

/// What may be committed of a tool call is what the caller knows of it.
pub proof fn law_visible_arguments_are_committed(
    wire_model: Seq<char>,
    trace_id: Option<Seq<char>>,
    state: KimiStateModel,
    call: int,
)
    requires
        orderly_tools(state.tools),
    ensures
        finished(wire_model, trace_id, state) matches Ok(response) ==> (response.pending matches Some(pending)
            ==> 0 <= call < pending.tool_calls.len() ==> pending.tool_calls[call].function.arguments
            == visible_arguments(state.tools, call as usize)),
{
    lemma_numbers(state.tools);
    lemma_complete_is_visible(state.tools, 0, Seq::empty());
}

/// Whether the item of an event was announced.
pub open spec fn announced(state: PresentationStateModel, event: KimiStreamEventModel) -> bool {
    match event {
        KimiStreamEventModel::Content { .. } => state.message_item_id is Some,
        KimiStreamEventModel::Reasoning { .. } => state.reasoning_item_id is Some,
        KimiStreamEventModel::ToolCall { index, .. } => tool_item_from(state.tool_item_ids, index, 0) is Some,
    }
}

/// An item is announced once: before the first delta of it, and never again.
pub proof fn law_items_are_announced_once(state: PresentationStateModel, event: KimiStreamEventModel, fresh: Seq<char>)
    ensures
        announced(shown(state, event, fresh).0, event),
        announced(state, event) ==> forall|i: int|
            0 <= i < shown(state, event, fresh).1.len() ==> !((#[trigger] shown(state, event, fresh).1[i]) is OutputItemAdded),
        !announced(state, event) ==> shown(state, event, fresh).1.len() > 0 && shown(
            state,
            event,
            fresh,
        ).1[0] is OutputItemAdded && forall|i: int|
            1 <= i < shown(state, event, fresh).1.len() ==> !((#[trigger] shown(state, event, fresh).1[i]) is OutputItemAdded),
{
    if let KimiStreamEventModel::ToolCall { index, .. } = event {
        lemma_tool_item_push(state.tool_item_ids, index, item_name("fc"@, fresh), index, 0);
    }
}

/// What an event shows a part of.
pub enum ShownItem {
    /// The text of the response.
    Message,
    /// Its reasoning.
    Reasoning,
    /// The tool call with a number.
    Call(usize),
}

/// What an event shows a part of.
pub open spec fn item_of(event: KimiStreamEventModel) -> ShownItem {
    match event {
        KimiStreamEventModel::Content { .. } => ShownItem::Message,
        KimiStreamEventModel::Reasoning { .. } => ShownItem::Reasoning,
        KimiStreamEventModel::ToolCall { index, .. } => ShownItem::Call(index),
    }
}

/// The first of so many events that shows a part of an item.
pub open spec fn first_before(events: Seq<KimiStreamEventModel>, count: nat, item: ShownItem) -> Option<int>
    decreases count,
{
    if count == 0 {
        None
    } else {
        match first_before(events, (count - 1) as nat, item) {
            Some(first) => Some(first),
            None => if item_of(events[count - 1]) == item {
                Some(count - 1)
            } else {
                None
            },
        }
    }
}

/// The name of an item that an event announces.
pub open spec fn name_of(item: ShownItem, fresh: Seq<char>) -> Seq<char> {
    match item {
        ShownItem::Message => item_name("msg"@, fresh),
        ShownItem::Reasoning => item_name("rs"@, fresh),
        ShownItem::Call(_) => item_name("fc"@, fresh),
    }
}

/// The announcement of the item of an event.
pub open spec fn announcement(event: KimiStreamEventModel, name: Seq<char>) -> ResponseEventModel {
    ResponseEventModel::OutputItemAdded(
        match event {
            KimiStreamEventModel::Content { .. } => blank_message(name),
            KimiStreamEventModel::Reasoning { .. } => blank_reasoning(name),
            KimiStreamEventModel::ToolCall { id, name: function, .. } => call_item(name, id, function, Seq::empty()),
        },
    )
}

/// The delta of an event, for the item with a name: there is none for a tool
/// call without more arguments.
pub open spec fn delta_told(event: KimiStreamEventModel, name: Seq<char>) -> Seq<ResponseEventModel> {
    match event {
        KimiStreamEventModel::Content { delta, .. } => seq![
            ResponseEventModel::OutputTextDelta { item_id: None, delta },
        ],
        KimiStreamEventModel::Reasoning { delta, .. } => seq![
            ResponseEventModel::ReasoningContentDelta { item_id: None, delta, content_index: 0 },
        ],
        KimiStreamEventModel::ToolCall { id, arguments_delta, .. } => if arguments_delta.len() > 0 {
            seq![
                ResponseEventModel::ToolCallInputDelta {
                    item_id: name,
                    call_id: Some(id),
                    delta: arguments_delta,
                },
            ]
        } else {
            Seq::empty()
        },
    }
}

/// What one of several events tells: the announcement of its item where no
/// earlier event shows a part of it, then the delta under the name that the item
/// was announced by.
pub open spec fn told_of(events: Seq<KimiStreamEventModel>, names: Seq<Seq<char>>, at: int) -> Seq<ResponseEventModel> {
    let item = item_of(events[at]);
    match first_before(events, at as nat, item) {
        Some(first) => delta_told(events[at], name_of(item, names[first])),
        None => {
            let name = name_of(item, names[at]);
            seq![announcement(events[at], name)] + delta_told(events[at], name)
        },
    }
}

/// What so many events tell, one after another.
pub open spec fn told_of_all(events: Seq<KimiStreamEventModel>, names: Seq<Seq<char>>, count: nat) -> Seq<
    ResponseEventModel,
>
    decreases count,
{
    if count == 0 {
        Seq::empty()
    } else {
        told_of_all(events, names, (count - 1) as nat) + told_of(events, names, count - 1)
    }
}

/// The announced items after so many events from the start on, and what the
/// caller was told of them. A new item is named by the name at its event.
pub open spec fn shown_through(events: Seq<KimiStreamEventModel>, names: Seq<Seq<char>>, count: nat) -> (
    PresentationStateModel,
    Seq<ResponseEventModel>,
)
    decreases count,
{
    if count == 0 {
        (
            PresentationStateModel { reasoning_item_id: None, message_item_id: None, tool_item_ids: Seq::empty() },
            Seq::empty(),
        )
    } else {
        let (state, told) = shown_through(events, names, (count - 1) as nat);
        let (next, more) = shown(state, events[count - 1], names[count - 1]);
        (next, told + more)
    }
}

/// The name that an item was announced by among so many events.
pub open spec fn announced_name(
    events: Seq<KimiStreamEventModel>,
    names: Seq<Seq<char>>,
    count: nat,
    item: ShownItem,
) -> Option<Seq<char>> {
    match first_before(events, count, item) {
        Some(first) => Some(name_of(item, names[first])),
        None => None,
    }
}

proof fn lemma_tool_item_push(ids: Seq<(usize, Seq<char>)>, index: usize, name: Seq<char>, number: usize, at: int)
    requires
        0 <= at <= ids.len(),
    ensures
        tool_item_from(ids.push((index, name)), number, at) == match tool_item_from(ids, number, at) {
            Some(there) => Some(there),
            None => if index == number {
                Some(name)
            } else {
                None
            },
        },
    decreases ids.len() - at,
{
    let more = ids.push((index, name));
    if at < ids.len() {
        assert(more[at] == ids[at]);
        lemma_tool_item_push(ids, index, name, number, at + 1);
    } else {
        assert(more[at] == (index, name));
        assert(tool_item_from(more, number, at + 1) is None);
    }
}

/// Over a whole run of events an item is announced once: by the first event that
/// shows a part of it, before every delta of it, and under the name that its
/// deltas carry. Every event of text or reasoning tells one delta with its text,
/// and one of a tool call does where it has arguments.
pub proof fn law_runs_announce_items_once(events: Seq<KimiStreamEventModel>, names: Seq<Seq<char>>, count: nat)
    requires
        count <= events.len(),
        events.len() == names.len(),
    ensures
        shown_through(events, names, count).1 == told_of_all(events, names, count),
        shown_through(events, names, count).0.message_item_id == announced_name(
            events,
            names,
            count,
            ShownItem::Message,
        ),
        shown_through(events, names, count).0.reasoning_item_id == announced_name(
            events,
            names,
            count,
            ShownItem::Reasoning,
        ),
        forall|number: usize| #[trigger]
            tool_item_from(shown_through(events, names, count).0.tool_item_ids, number, 0) == announced_name(
                events,
                names,
                count,
                ShownItem::Call(number),
            ),
    decreases count,
{
    if count > 0 {
        let before = (count - 1) as nat;
        law_runs_announce_items_once(events, names, before);
        let event = events[count - 1];
        let fresh = names[count - 1];
        let (state, told) = shown_through(events, names, before);
        let (next, more) = shown(state, event, fresh);
        assert(more =~= told_of(events, names, count - 1)) by {
            if let KimiStreamEventModel::ToolCall { index, .. } = event {
                assert(tool_item_from(state.tool_item_ids, index, 0) == announced_name(
                    events,
                    names,
                    before,
                    ShownItem::Call(index),
                ));
            }
        }
        assert forall|number: usize| #[trigger] tool_item_from(next.tool_item_ids, number, 0) == announced_name(
            events,
            names,
            count,
            ShownItem::Call(number),
        ) by {
            assert(tool_item_from(state.tool_item_ids, number, 0) == announced_name(
                events,
                names,
                before,
                ShownItem::Call(number),
            ));
            if let KimiStreamEventModel::ToolCall { index, .. } = event {
                assert(tool_item_from(state.tool_item_ids, index, 0) == announced_name(
                    events,
                    names,
                    before,
                    ShownItem::Call(index),
                ));
                lemma_tool_item_push(state.tool_item_ids, index, item_name("fc"@, fresh), number, 0);
            }
        }
    }
}

} // verus!
