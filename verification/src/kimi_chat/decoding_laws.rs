//! What a decoded Kimi response holds of the chunks it came in.
use crate::chat_completions::decoding_laws::{
    arguments_of, first_of, fragment_arguments, fragment_id, fragment_name, frame_of, id_of, lemma_kept_on,
    lemma_place_before, lemma_place_first, lemma_stream_starts, name_of, numbered, stream_of, tools_kept,
};
use crate::chat_completions::stream::{
    all_blank, data_value, is_blank, tool_place_from, with_tool, FramingModel, PendingToolModel,
};
use crate::chat_completions::types::{ChunkDeltaModel, ToolCall, ToolCallFragmentModel};
use crate::claude_code::stream_laws::{lemma_line_bytes, unbroken};
use crate::json::{json_parse, JsonModel};
use crate::kimi_chat::laws::lemma_bytes_cut;
use crate::kimi_chat::request::{marker_fits, marker_text, KimiReasoningKey, KimiToolCallModel};
use crate::kimi_chat::stream::{
    byte_step, bytes_step, choice_step, choices_step, chunk_step, closed, complete_from, complete_tool,
    content_step, data_step, decoded, delta_step, fed, finished, fragment_step, fragments_step, fresh, id_step,
    line_step, quiet, reasoning_in, reasoning_step, terminal_named, KimiStateModel,
};
use crate::kimi_chat::stream_types::{
    chunk_of, KimiChoiceModel, KimiChunkModel, KimiDecodedResponseModel, KimiStreamErrorModel, KimiTerminal,
    KimiUsage,
};
use crate::text::{begins_with, joined, utf8_chars};
use vstd::prelude::*;
use vstd::utf8::{encode_utf8, encode_utf8_decode_utf8, encode_utf8_valid_utf8, valid_utf8};

verus! {

// ---- one chunk ----

/// The content of the choices from `at` on, one after another.
pub open spec fn content_from(choices: Seq<KimiChoiceModel>, at: int) -> Seq<char>
    decreases choices.len() - at,
{
    if at < 0 || at >= choices.len() {
        Seq::empty()
    } else {
        match choices[at].delta.content {
            Some(text) => text + content_from(choices, at + 1),
            None => content_from(choices, at + 1),
        }
    }
}

/// The arguments that the choices from `at` on add to the tool call with a
/// number.
pub open spec fn arguments_from(choices: Seq<KimiChoiceModel>, at: int, number: usize) -> Seq<char>
    decreases choices.len() - at,
{
    if at < 0 || at >= choices.len() {
        Seq::empty()
    } else {
        fragment_arguments(choices[at].delta.tool_calls, 0, number) + arguments_from(choices, at + 1, number)
    }
}

/// The id that the choices from `at` on give the tool call with a number.
pub open spec fn id_from(choices: Seq<KimiChoiceModel>, at: int, number: usize) -> Option<Seq<char>>
    decreases choices.len() - at,
{
    if at < 0 || at >= choices.len() {
        None
    } else {
        first_of(fragment_id(choices[at].delta.tool_calls, 0, number), id_from(choices, at + 1, number))
    }
}

/// The name that the choices from `at` on give the tool call with a number.
pub open spec fn name_from(choices: Seq<KimiChoiceModel>, at: int, number: usize) -> Option<Seq<char>>
    decreases choices.len() - at,
{
    if at < 0 || at >= choices.len() {
        None
    } else {
        first_of(fragment_name(choices[at].delta.tool_calls, 0, number), name_from(choices, at + 1, number))
    }
}

/// The reasoning of the choices from `at` on, one after another.
pub open spec fn reasoning_from(choices: Seq<KimiChoiceModel>, at: int) -> Seq<char>
    decreases choices.len() - at,
{
    if at < 0 || at >= choices.len() {
        Seq::empty()
    } else {
        match reasoning_in(choices[at].delta.extensions) {
            Some((_, text)) => text + reasoning_from(choices, at + 1),
            None => reasoning_from(choices, at + 1),
        }
    }
}

/// The last usage that the choices from `at` on report, or the one before them.
pub open spec fn usage_from(choices: Seq<KimiChoiceModel>, at: int, before: Option<KimiUsage>) -> Option<KimiUsage>
    decreases choices.len() - at,
{
    if at < 0 || at >= choices.len() {
        before
    } else {
        usage_from(
            choices,
            at + 1,
            if choices[at].usage is Some {
                choices[at].usage
            } else {
                before
            },
        )
    }
}

/// Why the choices from `at` on say that the response ended, or what was said
/// before them.
pub open spec fn end_from(choices: Seq<KimiChoiceModel>, at: int, before: Option<KimiTerminal>) -> Option<KimiTerminal>
    decreases choices.len() - at,
{
    if at < 0 || at >= choices.len() {
        before
    } else {
        end_from(
            choices,
            at + 1,
            match choices[at].finish_reason {
                Some(reason) => Some(terminal_named(reason)->Ok_0),
                None => before,
            },
        )
    }
}

/// The parts of the state that a fragment of a tool call does not touch.
pub open spec fn only_tools_change(before: KimiStateModel, after: KimiStateModel) -> bool {
    after == (KimiStateModel { tools: after.tools, events: after.events, ..before })
}

proof fn lemma_fragment(state: KimiStateModel, fragment: ToolCallFragmentModel, number: usize)
    ensures
        ({
            let (next, applied) = fragment_step(state, fragment);
            applied is Ok ==> {
                &&& only_tools_change(state, next)
                &&& tools_kept(state.tools, next.tools)
                &&& arguments_of(next.tools, number) == arguments_of(state.tools, number) + fragment_arguments(
                    seq![fragment],
                    0,
                    number,
                )
                &&& id_of(next.tools, number) == first_of(
                    id_of(state.tools, number),
                    fragment_id(seq![fragment], 0, number),
                )
                &&& name_of(next.tools, number) == first_of(
                    name_of(state.tools, number),
                    fragment_name(seq![fragment], 0, number),
                )
                &&& numbered(state.tools) ==> numbered(next.tools)
            }
        }),
{
    let (next, applied) = fragment_step(state, fragment);
    if applied is Ok {
        reveal_with_fuel(fragment_arguments, 2);
        reveal_with_fuel(fragment_id, 2);
        reveal_with_fuel(fragment_name, 2);
        let (tools, place) = with_tool(state.tools, fragment.index);
        lemma_place_before(state.tools, fragment.index, 0);
        lemma_place_before(state.tools, number, 0);
        assert(tools[place].index == fragment.index);
        let after = next.tools;
        assert(after.len() == tools.len());
        assert forall|i: int| 0 <= i < after.len() implies (#[trigger] after[i]).index == tools[i].index by {}
        assert(Seq::<char>::empty() + Seq::<char>::empty() =~= Seq::<char>::empty());
        if number == fragment.index {
            lemma_place_first(after, number, 0, place);
            let before = arguments_of(state.tools, number);
            assert(before + Seq::<char>::empty() =~= before);
            match fragment.function {
                Some(function) => if let Some(text) = function.arguments {
                    assert(text + Seq::<char>::empty() =~= text);
                },
                None => {},
            }
        } else {
            match tool_place_from(state.tools, number, 0) {
                Some(found) => {
                    assert(after[found] == state.tools[found]);
                    lemma_place_first(after, number, 0, found);
                },
                None => {
                    lemma_place_before(after, number, 0);
                    if let Some(found) = tool_place_from(after, number, 0) {
                        assert(tools[found].index == number);
                        assert(found != place);
                    }
                },
            }
            let before = arguments_of(state.tools, number);
            assert(before + Seq::<char>::empty() =~= before);
        }
    }
}

proof fn lemma_fragments(state: KimiStateModel, fragments: Seq<ToolCallFragmentModel>, at: int, number: usize)
    requires
        0 <= at <= fragments.len(),
    ensures
        ({
            let (next, applied) = fragments_step(state, fragments, at);
            applied is Ok ==> {
                &&& only_tools_change(state, next)
                &&& tools_kept(state.tools, next.tools)
                &&& arguments_of(next.tools, number) == arguments_of(state.tools, number) + fragment_arguments(
                    fragments,
                    at,
                    number,
                )
                &&& id_of(next.tools, number) == first_of(
                    id_of(state.tools, number),
                    fragment_id(fragments, at, number),
                )
                &&& name_of(next.tools, number) == first_of(
                    name_of(state.tools, number),
                    fragment_name(fragments, at, number),
                )
                &&& numbered(state.tools) ==> numbered(next.tools)
            }
        }),
    decreases fragments.len() - at,
{
    if at < fragments.len() {
        lemma_fragment(state, fragments[at], number);
        let (next, applied) = fragment_step(state, fragments[at]);
        if applied is Ok {
            lemma_fragments(next, fragments, at + 1, number);
            let (last, ended) = fragments_step(next, fragments, at + 1);
            if ended is Ok {
                lemma_kept_on(state.tools, next.tools, last.tools);
            }
            reveal_with_fuel(fragment_arguments, 2);
            reveal_with_fuel(fragment_id, 2);
            reveal_with_fuel(fragment_name, 2);
            let one = seq![fragments[at]];
            assert(one[0] == fragments[at]);
            let before = arguments_of(state.tools, number);
            let more = fragment_arguments(one, 0, number);
            let rest = fragment_arguments(fragments, at + 1, number);
            assert((before + more) + rest =~= before + (more + rest));
            assert(more + rest =~= fragment_arguments(fragments, at, number));
        }
    } else {
        let before = arguments_of(state.tools, number);
        assert(before + Seq::<char>::empty() =~= before);
    }
}

proof fn lemma_choices(
    state: KimiStateModel,
    usage: Option<KimiUsage>,
    choices: Seq<KimiChoiceModel>,
    at: int,
    number: usize,
)
    requires
        0 <= at <= choices.len(),
    ensures
        ({
            let (next, applied) = choices_step(state, usage, choices, at);
            applied is Ok ==> {
                &&& next.content == state.content + content_from(choices, at)
                &&& next.reasoning == state.reasoning + reasoning_from(choices, at)
                &&& arguments_of(next.tools, number) == arguments_of(state.tools, number) + arguments_from(
                    choices,
                    at,
                    number,
                )
                &&& id_of(next.tools, number) == first_of(id_of(state.tools, number), id_from(choices, at, number))
                &&& name_of(next.tools, number) == first_of(
                    name_of(state.tools, number),
                    name_from(choices, at, number),
                )
                &&& numbered(state.tools) ==> numbered(next.tools)
                &&& tools_kept(state.tools, next.tools)
                &&& next.terminal == end_from(choices, at, state.terminal)
                &&& next.response_id == state.response_id
                &&& next.usage == state.usage
                &&& next.done == state.done
                &&& next.recognized == state.recognized
                &&& applied->Ok_0 == usage_from(choices, at, usage)
            }
        }),
    decreases choices.len() - at,
{
    let (next, applied) = choices_step(state, usage, choices, at);
    let none = Seq::<char>::empty();
    if at < choices.len() {
        if applied is Ok {
            let delta = choices[at].delta;
            let (said, _) = reasoning_step(content_step(state, delta.content), reasoning_in(delta.extensions));
            lemma_fragments(said, delta.tool_calls, 0, number);
            let (ended, _) = choice_step(state, choices[at]);
            let merged = if choices[at].usage is Some {
                choices[at].usage
            } else {
                usage
            };
            lemma_choices(ended, merged, choices, at + 1, number);
            lemma_kept_on(state.tools, ended.tools, next.tools);
            let rest = content_from(choices, at + 1);
            if let Some(text) = delta.content {
                assert((state.content + text) + rest =~= state.content + (text + rest));
            }
            let thought = reasoning_from(choices, at + 1);
            if let Some((_, text)) = reasoning_in(delta.extensions) {
                assert((state.reasoning + text) + thought =~= state.reasoning + (text + thought));
            }
            let before = arguments_of(state.tools, number);
            let more = fragment_arguments(delta.tool_calls, 0, number);
            let later = arguments_from(choices, at + 1, number);
            assert((before + more) + later =~= before + (more + later));
        }
    } else {
        assert(state.content + none =~= state.content);
        assert(state.reasoning + none =~= state.reasoning);
        assert(arguments_of(state.tools, number) + none =~= arguments_of(state.tools, number));
    }
}

/// A chunk that is taken adds exactly what it holds to the response: its content
/// and its reasoning stand behind what was there, every tool call has its
/// arguments behind those it had, and none is lost or renamed. The usage that the
/// chunk reports is the usage of the response, whatever choices the chunk has, be
/// they none; failing that, the usage of the last choice that reports one; failing
/// that, what it was.
pub proof fn law_a_chunk_adds_what_it_holds(state: KimiStateModel, raw: JsonModel, number: usize)
    ensures
        ({
            let (next, applied) = chunk_step(state, raw);
            applied is Ok ==> chunk_of(raw) is Ok && {
                let chunk = chunk_of(raw)->Ok_0;
                &&& next.response_id == Some(chunk.id)
                &&& state.response_id is Some ==> state.response_id == Some(chunk.id)
                &&& next.content == state.content + content_from(chunk.choices, 0)
                &&& next.reasoning == state.reasoning + reasoning_from(chunk.choices, 0)
                &&& arguments_of(next.tools, number) == arguments_of(state.tools, number) + arguments_from(
                    chunk.choices,
                    0,
                    number,
                )
                &&& id_of(next.tools, number) == first_of(
                    id_of(state.tools, number),
                    id_from(chunk.choices, 0, number),
                )
                &&& name_of(next.tools, number) == first_of(
                    name_of(state.tools, number),
                    name_from(chunk.choices, 0, number),
                )
                &&& numbered(state.tools) ==> numbered(next.tools)
                &&& tools_kept(state.tools, next.tools)
                &&& chunk.usage is Some ==> next.usage == chunk.usage
                &&& chunk.usage is None ==> next.usage == usage_from(chunk.choices, 0, state.usage)
                &&& next.terminal == end_from(chunk.choices, 0, state.terminal)
                &&& chunk.choices.len() == 0 ==> next.tools == state.tools && next.terminal == state.terminal
                    && next.events == state.events
                &&& next.recognized
                &&& next.done == state.done
            }
        }),
{
    let (next, applied) = chunk_step(state, raw);
    if applied is Ok {
        let chunk = chunk_of(raw)->Ok_0;
        let known = id_step(KimiStateModel { recognized: true, ..state }, chunk.id).0;
        lemma_choices(known, None, chunk.choices, 0, number);
        lemma_usage_default(chunk.choices, 0, None, state.usage);
    }
}

proof fn lemma_usage_default(
    choices: Seq<KimiChoiceModel>,
    at: int,
    first: Option<KimiUsage>,
    second: Option<KimiUsage>,
)
    ensures
        usage_from(choices, at, first) == usage_from(choices, at, second) || (usage_from(choices, at, first) == first
            && usage_from(choices, at, second) == second),
        first is Some ==> usage_from(choices, at, first) is Some,
        usage_from(choices, at, first) is None ==> usage_from(choices, at, second) == second,
    decreases choices.len() - at,
{
    if 0 <= at < choices.len() {
        match choices[at].usage {
            Some(usage) => lemma_usage_default(choices, at + 1, Some(usage), Some(usage)),
            None => lemma_usage_default(choices, at + 1, first, second),
        }
    }
}

// ---- a whole stream ----

/// A response after frames that hold texts, up to the first that fails.
pub open spec fn texts_step(
    texts: Seq<Seq<char>>,
) -> (KimiStateModel, Result<(), KimiStreamErrorModel>)
    decreases texts.len(),
{
    if texts.len() == 0 {
        (fresh(Seq::empty()).state, Ok(()))
    } else {
        let (state, applied) = texts_step(texts.drop_last());
        match applied {
            Err(error) => (state, Err(error)),
            Ok(_) => data_step(state, texts.last()),
        }
    }
}

proof fn lemma_line_collected(
    framing: FramingModel,
    state: KimiStateModel,
    bytes: Seq<u8>,
    at: int,
)
    requires
        0 <= at <= bytes.len(),
        !framing.skip_lf,
        forall|i: int| 0 <= i < bytes.len() ==> #[trigger] bytes[i] != 10 && bytes[i] != 13,
    ensures
        bytes_step(framing, state, bytes, at) == (
            FramingModel { line: framing.line + bytes.skip(at), ..framing },
            state,
            Ok::<(), KimiStreamErrorModel>(()),
        ),
    decreases bytes.len() - at,
{
    if at < bytes.len() {
        assert(bytes[at] != 10 && bytes[at] != 13);
        let next = FramingModel { line: framing.line.push(bytes[at]), ..framing };
        assert(byte_step(framing, state, bytes[at]).0 == next);
        lemma_line_collected(next, state, bytes, at + 1);
        assert(framing.line.push(bytes[at]) + bytes.skip(at + 1) =~= framing.line + bytes.skip(at));
    } else {
        assert(framing.line + bytes.skip(at) =~= framing.line);
    }
}

#[verifier::spinoff_prover]
#[verifier::rlimit(80)]
proof fn lemma_frame_taken(
    state: KimiStateModel,
    text: Seq<char>,
)
    requires
        unbroken(text),
    ensures
        ({
            let framing = fresh(Seq::empty()).framing;
            let (next, applied) = data_step(state, text);
            bytes_step(framing, state, frame_of(text), 0) == (framing, next, applied)
        }),
{
    let framing = fresh(Seq::empty()).framing;
    let line = "data: "@ + text;
    reveal_strlit("data: ");
    reveal_strlit("data:");
    reveal_strlit(" ");
    reveal_strlit(":");
    assert(unbroken(line)) by {
        assert forall|i: int| 0 <= i < line.len() implies #[trigger] line[i] != '\n' && line[i] != '\r' by {
            if i >= 6 {
                assert(line[i] == text[i - 6]);
            }
        }
    }
    lemma_line_bytes(line);
    let bytes = encode_utf8(line);
    let ends = seq![10u8, 10u8];
    lemma_bytes_cut(framing, state, bytes, ends, 0);
    lemma_line_collected(framing, state, bytes, 0);
    assert(framing.line + bytes.skip(0) =~= bytes);
    let held = FramingModel { line: bytes, ..framing };
    encode_utf8_valid_utf8(line);
    encode_utf8_decode_utf8(line);
    assert(utf8_chars(bytes) == Some(line));
    assert(line.take(1)[0] == line[0]);
    assert(line[0] == 'd');
    assert(!begins_with(line, ":"@)) by {
        assert(":"@[0] == ':');
    }
    assert(line.take(5) =~= "data:"@);
    assert(line.skip(5).take(1) =~= " "@);
    assert(line.skip(5).skip(1) =~= text);
    assert(data_value(line) == Some(text));
    let collected = FramingModel { data: framing.data.push(text), ..framing };
    assert(byte_step(held, state, 10) == (collected, state, Ok::<(), KimiStreamErrorModel>(())));
    assert(joined(collected.data) == text);
    let (next, applied) = data_step(state, text);
    let empty = FramingModel { data: Seq::empty(), ..collected };
    assert(empty == framing);
    assert(byte_step(collected, state, 10) == (framing, next, applied));
    reveal_with_fuel(bytes_step, 3);
    assert(bytes_step(held, state, ends, 0) == (framing, next, applied));
}

proof fn lemma_texts_taken(texts: Seq<Seq<char>>)
    requires
        forall|i: int| 0 <= i < texts.len() ==> unbroken(#[trigger] texts[i]),
    ensures
        ({
            let session = fresh(Seq::empty());
            let (state, applied) = texts_step(texts);
            let taken = bytes_step(session.framing, session.state, stream_of(texts), 0);
            taken == (session.framing, state, applied)
        }),
    decreases texts.len(),
{
    if texts.len() > 0 {
        let session = fresh(Seq::empty());
        let before = texts.drop_last();
        assert forall|i: int| 0 <= i < before.len() implies unbroken(#[trigger] before[i]) by {
            assert(unbroken(texts[i]));
        }
        lemma_texts_taken(before);
        lemma_bytes_cut(
            session.framing,
            session.state,
            stream_of(before),
            frame_of(texts.last()),
            0,
        );
        assert(unbroken(texts[texts.len() - 1]));
        let (state, applied) = texts_step(before);
        if applied is Ok {
            lemma_frame_taken(state, texts.last());
        }
    }
}

/// The chunk that a text holds.
pub open spec fn chunk_in(text: Seq<char>) -> KimiChunkModel {
    chunk_of(json_parse(text)->Ok_0)->Ok_0
}

/// The content of chunks, one after another.
pub open spec fn content_in(texts: Seq<Seq<char>>) -> Seq<char>
    decreases texts.len(),
{
    if texts.len() == 0 {
        Seq::empty()
    } else {
        content_in(texts.drop_last()) + content_from(chunk_in(texts.last()).choices, 0)
    }
}

/// The arguments that chunks give the tool call with a number, one after another.
pub open spec fn arguments_in(texts: Seq<Seq<char>>, number: usize) -> Seq<char>
    decreases texts.len(),
{
    if texts.len() == 0 {
        Seq::empty()
    } else {
        arguments_in(texts.drop_last(), number) + arguments_from(chunk_in(texts.last()).choices, 0, number)
    }
}

/// The id that chunks give the tool call with a number.
pub open spec fn id_in(texts: Seq<Seq<char>>, number: usize) -> Option<Seq<char>>
    decreases texts.len(),
{
    if texts.len() == 0 {
        None
    } else {
        first_of(id_in(texts.drop_last(), number), id_from(chunk_in(texts.last()).choices, 0, number))
    }
}

/// The name that chunks give the tool call with a number.
pub open spec fn name_in(texts: Seq<Seq<char>>, number: usize) -> Option<Seq<char>>
    decreases texts.len(),
{
    if texts.len() == 0 {
        None
    } else {
        first_of(name_in(texts.drop_last(), number), name_from(chunk_in(texts.last()).choices, 0, number))
    }
}

/// The reasoning of chunks, one after another.
pub open spec fn thought_in(texts: Seq<Seq<char>>) -> Seq<char>
    decreases texts.len(),
{
    if texts.len() == 0 {
        Seq::empty()
    } else {
        thought_in(texts.drop_last()) + reasoning_from(chunk_in(texts.last()).choices, 0)
    }
}

/// The last usage that chunks report: the chunk itself, or else a choice of it.
pub open spec fn usage_in(texts: Seq<Seq<char>>) -> Option<KimiUsage>
    decreases texts.len(),
{
    if texts.len() == 0 {
        None
    } else {
        let chunk = chunk_in(texts.last());
        if chunk.usage is Some {
            chunk.usage
        } else {
            usage_from(chunk.choices, 0, usage_in(texts.drop_last()))
        }
    }
}

/// Why the chunks say that the response ended.
pub open spec fn end_in(texts: Seq<Seq<char>>) -> Option<KimiTerminal>
    decreases texts.len(),
{
    if texts.len() == 0 {
        None
    } else {
        end_from(chunk_in(texts.last()).choices, 0, end_in(texts.drop_last()))
    }
}

spec fn holds_chunks(
    state: KimiStateModel,
    texts: Seq<Seq<char>>,
    number: usize,
) -> bool {
    &&& state.content == content_in(texts)
    &&& state.reasoning == thought_in(texts)
    &&& arguments_of(state.tools, number) == arguments_in(texts, number)
    &&& id_of(state.tools, number) == id_in(texts, number)
    &&& name_of(state.tools, number) == name_in(texts, number)
    &&& numbered(state.tools)
    &&& state.usage == usage_in(texts)
    &&& state.terminal == end_in(texts)
    &&& texts.len() == 0 ==> state.response_id is None
    &&& forall|i: int| 0 <= i < texts.len() ==> state.response_id == Some((#[trigger] chunk_in(texts[i])).id)
    &&& forall|i: int|
        0 <= i < texts.len() ==> json_parse(#[trigger] texts[i]) is Ok && chunk_of(json_parse(texts[i])->Ok_0) is Ok
}

proof fn lemma_holds_chunks(
    texts: Seq<Seq<char>>,
    number: usize,
)
    ensures
        ({
            let (state, applied) = texts_step(texts);
            applied is Ok ==> if state.done {
                texts.len() > 0 && texts.last() == "[DONE]"@ && holds_chunks(
                    state,
                    texts.drop_last(),
                    number,
                )
            } else {
                holds_chunks(state, texts, number)
            }
        }),
    decreases texts.len(),
{
    let (state, applied) = texts_step(texts);
    if texts.len() > 0 && applied is Ok {
        let before = texts.drop_last();
        lemma_holds_chunks(before, number);
        let (was, _) = texts_step(before);
        if !state.done {
            let raw = json_parse(texts.last())->Ok_0;
            law_a_chunk_adds_what_it_holds(was, raw, number);
            assert forall|i: int| 0 <= i < texts.len() implies state.response_id == Some(
                (#[trigger] chunk_in(texts[i])).id,
            ) by {
                if i < before.len() {
                    assert(was.response_id == Some(chunk_in(before[i]).id));
                }
            }
            assert forall|i: int| 0 <= i < texts.len() implies json_parse(#[trigger] texts[i]) is Ok && chunk_of(
                json_parse(texts[i])->Ok_0,
            ) is Ok by {
                if i < before.len() {
                    assert(json_parse(before[i]) is Ok);
                }
            }
        } else if texts.last() != "[DONE]"@ {
            law_a_chunk_adds_what_it_holds(was, json_parse(texts.last())->Ok_0, number);
        }
    }
}

/// Whether a call is what chunks give the tool call with a number.
pub open spec fn call_in(call: KimiToolCallModel, texts: Seq<Seq<char>>, number: usize) -> bool {
    &&& id_in(texts, number) == Some(call.id)
    &&& name_in(texts, number) == Some(call.function.name)
    &&& call.function.arguments == arguments_in(texts, number)
}

proof fn lemma_complete(tools: Seq<PendingToolModel>, at: int, done: Seq<KimiToolCallModel>)
    requires
        0 <= at <= tools.len() <= usize::MAX,
        done.len() == at,
        forall|i: int|
            0 <= i < at ==> {
                &&& id_of(tools, i as usize) == Some((#[trigger] done[i]).id)
                &&& name_of(tools, i as usize) == Some(done[i].function.name)
                &&& arguments_of(tools, i as usize) == done[i].function.arguments
            },
    ensures
        complete_from(tools, at, done) matches Ok(calls) ==> calls.len() == tools.len() && forall|i: int|
            0 <= i < tools.len() ==> {
                &&& id_of(tools, i as usize) == Some((#[trigger] calls[i]).id)
                &&& name_of(tools, i as usize) == Some(calls[i].function.name)
                &&& arguments_of(tools, i as usize) == calls[i].function.arguments
            },
    decreases tools.len() - at,
{
    if at < tools.len() {
        if let Some(place) = tool_place_from(tools, at as usize, 0) {
            if let Ok(call) = complete_tool(tools[place]) {
                lemma_complete(tools, at + 1, done.push(call));
            }
        }
    }
}

/// What a stream of chunks decodes to is what the chunks hold. The last frame
/// announces the end and every other holds a chunk of one response, whose id it
/// has. Its content and its reasoning are those of the chunks one after another,
/// its usage is the last that a chunk reports, its end the one that they give, and
/// where they give none, the one that its tool calls say. Every tool call has the
/// id and the name that the chunks give it, and the arguments that they give it
/// one after another; the calls stand in the order of their numbers.
pub proof fn law_a_response_holds_what_its_chunks_do(wire_model: Seq<char>, texts: Seq<Seq<char>>)
    requires
        texts.len() > 0,
        forall|i: int| 0 <= i < texts.len() ==> unbroken(#[trigger] texts[i]),
        fed(fresh(wire_model), stream_of(texts)).1 is Ok,
        fed(fresh(wire_model), stream_of(texts)).0.state.tools.len() <= usize::MAX,
    ensures
        decoded(fed(fresh(wire_model), stream_of(texts)).0) matches Ok(response) ==> {
            let chunks = texts.drop_last();
            &&& texts.last() == "[DONE]"@
            &&& forall|i: int| 0 <= i < chunks.len() ==> (#[trigger] chunk_in(chunks[i])).id == response.response_id
            &&& response.usage == usage_in(chunks)
            &&& end_in(chunks) matches Some(end) ==> response.terminal == end
            &&& response.trace_id is None
            &&& response.pending matches Some(pending) ==> {
                &&& pending.content == content_in(chunks)
                &&& pending.reasoning.text == thought_in(chunks)
                &&& end_in(chunks) is None ==> (response.terminal is ToolsReady <==> pending.tool_calls.len() > 0)
                &&& forall|i: int|
                    0 <= i < pending.tool_calls.len() ==> call_in(#[trigger] pending.tool_calls[i], chunks, i as usize)
            }
        },
{
    let bytes = stream_of(texts);
    let start = fresh(wire_model);
    let (decoder, _) = fed(start, bytes);
    lemma_texts_taken(texts);
    lemma_stream_starts(texts);
    assert(!all_blank(bytes)) by {
        assert(!is_blank(bytes[0]));
    }
    assert(quiet(start.state) == fresh(Seq::empty()).state);
    let (state, _) = texts_step(texts);
    if let Ok(response) = decoded(decoder) {
        let chunks = texts.drop_last();
        lemma_holds_chunks(texts, 0);
        lemma_complete(state.tools, 0, Seq::empty());
        assert forall|i: int| 0 <= i < chunks.len() implies (#[trigger] chunk_in(chunks[i])).id == response.response_id by {
            assert(state.response_id == Some(chunk_in(chunks[i]).id));
        }
        if let Some(pending) = response.pending {
            let calls = pending.tool_calls;
            assert forall|i: int| 0 <= i < calls.len() implies call_in(#[trigger] calls[i], chunks, i as usize) by {
                lemma_holds_chunks(texts, i as usize);
                assert(id_of(state.tools, i as usize) == Some(calls[i].id));
            }
        }
    }
}

// ---- when a response is taken ----

/// Whether the tool calls are numbered from zero on without a gap.
pub open spec fn gapless(tools: Seq<PendingToolModel>) -> bool {
    forall|k: int| 0 <= k < tools.len() ==> (#[trigger] tool_place_from(tools, k as usize, 0)) is Some
}

/// Whether the tool call with a number is complete: it has an id, a name and a JSON
/// object for arguments.
pub open spec fn is_complete(tools: Seq<PendingToolModel>, number: int) -> bool {
    &&& tool_place_from(tools, number as usize, 0) is Some
    &&& id_of(tools, number as usize) is Some
    &&& name_of(tools, number as usize) is Some
    &&& json_parse(arguments_of(tools, number as usize)) matches Ok(JsonModel::Object(_))
}

proof fn lemma_all_complete(tools: Seq<PendingToolModel>, at: int, done: Seq<KimiToolCallModel>)
    requires
        0 <= at <= tools.len(),
        done.len() == at,
    ensures
        complete_from(tools, at, done) is Ok <==> forall|i: int|
            at <= i < tools.len() ==> #[trigger] is_complete(tools, i),
        complete_from(tools, at, done) matches Ok(calls) ==> calls.len() == tools.len(),
    decreases tools.len() - at,
{
    if at < tools.len() {
        if let Some(place) = tool_place_from(tools, at as usize, 0) {
            if let Ok(call) = complete_tool(tools[place]) {
                assert(is_complete(tools, at));
                lemma_all_complete(tools, at + 1, done.push(call));
            } else {
                assert(!is_complete(tools, at));
            }
        } else {
            assert(!is_complete(tools, at));
        }
    }
}

/// A response is there if and only if a chunk came and the end was announced, every
/// tool call is complete, the calls have no gap, and it ended in a way that fits what
/// it holds: in text and no calls where it is complete, in calls where tools are to
/// run, in anything where it was cut off or filtered. Where no end was given, calls
/// leave tools to run and their absence completes it. What it holds is pending if and
/// only if it ended well, with its reasoning marked as its model's.
pub proof fn law_when_a_response_is_there(
    wire_model: Seq<char>,
    trace_id: Option<Seq<char>>,
    state: KimiStateModel,
)
    ensures
        ({
            let response = finished(wire_model, trace_id, state);
            let end = match state.terminal {
                Some(end) => end,
                None => if state.tools.len() > 0 {
                    KimiTerminal::ToolsReady
                } else {
                    KimiTerminal::Completed
                },
            };
            let good = end is Completed || end is ToolsReady;
            let fits = match end {
                KimiTerminal::Completed => state.tools.len() == 0 && state.content.len() > 0,
                KimiTerminal::ToolsReady => state.tools.len() > 0,
                KimiTerminal::OutputExhausted => true,
                KimiTerminal::Refusal => true,
            };
            let key = match state.reasoning_key {
                Some(key) => key,
                None => KimiReasoningKey::ReasoningContent,
            };
            &&& response is Ok <==> state.recognized && state.done && gapless(state.tools) && (forall|i: int|
                0 <= i < state.tools.len() ==> #[trigger] is_complete(state.tools, i)) && fits && (good
                ==> marker_fits(wire_model, key))
            &&& response matches Ok(decoded) ==> {
                &&& decoded.terminal == end
                &&& decoded.usage == state.usage
                &&& decoded.trace_id == trace_id
                &&& state.response_id is Some ==> decoded.response_id == state.response_id->0
                &&& decoded.pending is Some <==> good
                &&& decoded.pending matches Some(pending) ==> pending.content == state.content
                    && pending.reasoning.text == state.reasoning && pending.reasoning.marker == marker_text(
                    wire_model,
                    key,
                ) && pending.tool_calls.len() == state.tools.len()
            }
            &&& !state.recognized || !state.done ==> response is Err && response->Err_0 is PrematureEof
        }),
{
    lemma_all_complete(state.tools, 0, Seq::empty());
}

/// A chunk of another response is refused, and so is one that goes on after the end
/// was given.
pub proof fn law_one_response_ends_once(state: KimiStateModel, raw: JsonModel)
    ensures
        ({
            let (next, applied) = chunk_step(state, raw);
            let chunk = chunk_of(raw)->Ok_0;
            &&& chunk_of(raw) is Ok && state.response_id is Some && state.response_id != Some(chunk.id) ==> applied
                is Err && applied->Err_0 is InvalidTransition
            &&& applied is Ok && chunk.choices.len() > 0 ==> state.terminal is None && chunk.choices[0].index == 0
            &&& chunk_of(raw) is Err ==> applied is Err && applied->Err_0 is MalformedChunk
        }),
{
}

/// Reasoning comes under one name in a response: another one later is a conflict.
pub proof fn law_reasoning_keeps_its_name(
    state: KimiStateModel,
    key: KimiReasoningKey,
    text: Seq<char>,
)
    ensures
        ({
            let (next, applied) = reasoning_step(state, Some((key, text)));
            &&& applied is Ok <==> state.reasoning_key is None || state.reasoning_key == Some(key)
            &&& applied is Ok ==> next.reasoning_key == Some(key) && next.reasoning == state.reasoning + text
                && next.content == state.content && next.tools == state.tools
            &&& applied is Err ==> applied->Err_0 is ConflictingReasoningKeys && next == state
        }),
        reasoning_step(state, None) == (state, Ok::<(), KimiStreamErrorModel>(())),
{
    if text.len() == 0 {
        assert(state.reasoning + text =~= state.reasoning);
    }
}

// ---- lines ----

/// A comment is passed over, data waits for the end of its frame behind the data that
/// came before it, and any other line is refused. An empty line ends a frame.
pub proof fn law_lines_are_told_apart(
    framing: FramingModel,
    state: KimiStateModel,
    line: Seq<char>,
)
    requires
        line.len() > 0,
        framing.line == encode_utf8(line),
        framing.line.len() > 0,
    ensures
        ({
            let (next, after, applied) = line_step(framing, state);
            &&& after == state
            &&& next.line.len() == 0
            &&& line[0] == ':' ==> applied is Ok && next.data == framing.data
            &&& begins_with(line, "data: "@) ==> applied is Ok && next.data == framing.data.push(line.skip(6))
            &&& begins_with(line, "data:"@) && !begins_with(line, "data: "@) ==> applied is Ok && next.data
                == framing.data.push(line.skip(5))
            &&& line[0] != ':' && !begins_with(line, "data:"@) ==> applied is Err && applied->Err_0 is MalformedFraming
                && next.data == framing.data
        }),
{
    encode_utf8_valid_utf8(line);
    encode_utf8_decode_utf8(line);
    reveal_strlit(":");
    reveal_strlit("data:");
    reveal_strlit("data: ");
    reveal_strlit(" ");
    assert(begins_with(line, ":"@) <==> line[0] == ':') by {
        assert(line.take(1)[0] == line[0]);
        if line[0] == ':' {
            assert(line.take(1) =~= ":"@);
        }
    }
    if begins_with(line, "data:"@) {
        assert(line.take(5)[0] == line[0]);
        let rest = line.skip(5);
        if begins_with(rest, " "@) {
            assert(rest.take(1)[0] == rest[0]);
            assert(line.take(6) =~= "data: "@) by {
                assert forall|i: int| 0 <= i < 6 implies line.take(6)[i] == "data: "@[i] by {
                    if i < 5 {
                        assert(line.take(5)[i] == "data:"@[i]);
                    }
                }
            }
            assert(rest.skip(1) =~= line.skip(6));
        }
    }
    if begins_with(line, "data: "@) {
        assert(line.take(5) =~= "data:"@) by {
            assert forall|i: int| 0 <= i < 5 implies line.take(5)[i] == "data:"@[i] by {
                assert(line.take(6)[i] == "data: "@[i]);
            }
        }
        assert(line.take(6)[5] == ' ');
        assert(line.skip(5).take(1) =~= " "@);
    }
}

/// A line feed, a carriage return and both end a line alike: the line feed that follows
/// a carriage return changes nothing. An empty line ends a frame, whose data is all its
/// lines.
pub proof fn law_line_ends_are_alike(
    framing: FramingModel,
    state: KimiStateModel,
)
    requires
        !framing.skip_lf,
    ensures
        ({
            let (fed, fed_state, fed_well) = byte_step(framing, state, 10);
            let (back, back_state, back_well) = byte_step(framing, state, 13);
            let (both, both_state, both_well) = byte_step(back, back_state, 10);
            &&& back_state == fed_state && back_well == fed_well
            &&& back.line == fed.line && back.data == fed.data
            &&& fed_well is Ok && !fed.skip_lf ==> (both, both_state, both_well) == (fed, fed_state, fed_well)
            &&& framing.line.len() == 0 && framing.data.len() > 0 ==> (fed_state, fed_well) == data_step(
                state,
                joined(framing.data),
            ) && fed.data.len() == 0
            &&& framing.line.len() == 0 && framing.data.len() == 0 ==> fed_state == state && fed_well is Ok
        }),
{
}

// ---- what is shown on the way ----

/// What a part of a tool call shows is shown under the id and the name that the call has
/// then, and as of the response it is of. A part shows one delta at most.
pub proof fn law_calls_are_shown_under_their_names(state: KimiStateModel, fragment: ToolCallFragmentModel)
    requires
        forall|i: int|
            0 <= i < state.tools.len() && (#[trigger] state.tools[i]).presented ==> state.tools[i].id is Some
                && state.tools[i].name is Some,
    ensures
        ({
            let (next, applied) = fragment_step(state, fragment);
            let number = fragment.index;
            applied is Ok ==> {
                &&& next.events == state.events || (next.events.len() == state.events.len() + 1
                    && next.events.drop_last() == state.events && next.events.last() is ToolCall
                    && next.events.last()->index == number && id_of(next.tools, number) == Some(
                    next.events.last()->ToolCall_id,
                ) && name_of(next.tools, number) == Some(next.events.last()->ToolCall_name) && (state.response_id is Some
                    ==> next.events.last()->ToolCall_response_id == state.response_id->0))
                &&& forall|i: int|
                    0 <= i < next.tools.len() && (#[trigger] next.tools[i]).presented ==> next.tools[i].id is Some
                        && next.tools[i].name is Some
            }
        }),
{
    let (next, applied) = fragment_step(state, fragment);
    if applied is Ok {
        let (tools, place) = with_tool(state.tools, fragment.index);
        lemma_place_before(state.tools, fragment.index, 0);
        assert(tools[place].presented ==> tools[place].id is Some && tools[place].name is Some);
        assert forall|i: int| 0 <= i < next.tools.len() implies (#[trigger] next.tools[i]).index == tools[i].index by {}
        lemma_place_first(next.tools, fragment.index, 0, place);
        if next.events != state.events {
            assert(next.events.drop_last() =~= state.events);
        }
        assert forall|i: int| 0 <= i < next.tools.len() && (#[trigger] next.tools[i]).presented implies
            next.tools[i].id is Some && next.tools[i].name is Some by {
            if i != place {
                assert(next.tools[i] == state.tools[i]);
            }
        }
    }
}

// ---- what does not fit ----

/// A part of a tool call is taken if and only if it is of a function and agrees with the
/// id and the name that the call has, where it has them; the call then has those of the
/// part.
pub proof fn law_parts_of_a_call_agree(state: KimiStateModel, fragment: ToolCallFragmentModel)
    ensures
        ({
            let (next, applied) = fragment_step(state, fragment);
            let number = fragment.index;
            let name = if fragment.function is Some {
                fragment.function->0.name
            } else {
                None
            };
            let id_fits = fragment.id is None || id_of(state.tools, number) is None || id_of(state.tools, number)
                == fragment.id;
            let name_fits = name is None || name_of(state.tools, number) is None || name_of(state.tools, number) == name;
            let kind_fits = fragment.kind is None || fragment.kind == Some("function"@);
            &&& applied is Ok <==> id_fits && name_fits && kind_fits
            &&& applied is Ok && fragment.id is Some ==> id_of(next.tools, number) == fragment.id
            &&& applied is Ok && name is Some ==> name_of(next.tools, number) == name
            &&& !id_fits ==> applied->Err_0 is ConflictingToolField
            &&& id_fits && !kind_fits ==> applied->Err_0 is InvalidTransition
        }),
{
    let (next, applied) = fragment_step(state, fragment);
    lemma_place_before(state.tools, fragment.index, 0);
    if applied is Ok {
        lemma_fragment(state, fragment, fragment.index);
        let one = seq![fragment];
        assert(one[0] == fragment);
        reveal_with_fuel(fragment_id, 2);
        reveal_with_fuel(fragment_name, 2);
    }
}

/// Only the model speaks in a response, and only in its first choice: a delta of another
/// role and another choice are refused.
pub proof fn law_only_the_model_speaks(
    state: KimiStateModel,
    delta: ChunkDeltaModel,
)
    ensures
        delta.role is Some && delta.role != Some("assistant"@) ==> delta_step(state, delta) == (
            state,
            delta_step(state, delta).1,
        ) && delta_step(state, delta).1 is Err && delta_step(state, delta).1->Err_0 is InvalidTransition,
{
}

/// A line that is no text is refused.
pub proof fn law_lines_are_text(
    framing: FramingModel,
    state: KimiStateModel,
)
    requires
        framing.line.len() > 0,
        !valid_utf8(framing.line),
    ensures
        line_step(framing, state).2 == Err::<(), _>(KimiStreamErrorModel::InvalidUtf8),
        line_step(framing, state).1 == state,
{
}

proof fn lemma_other_choices(state: KimiStateModel, usage: Option<KimiUsage>, choices: Seq<KimiChoiceModel>, at: int)
    requires
        0 <= at <= choices.len(),
    ensures
        choices_step(state, usage, choices, at).1 is Ok ==> forall|i: int|
            at <= i < choices.len() ==> (#[trigger] choices[i]).index == 0,
    decreases choices.len() - at,
{
    if at < choices.len() && choices_step(state, usage, choices, at).1 is Ok {
        let (ended, _) = choice_step(state, choices[at]);
        let merged = if choices[at].usage is Some {
            choices[at].usage
        } else {
            usage
        };
        lemma_other_choices(ended, merged, choices, at + 1);
    }
}

/// A chunk with another choice than the first is refused.
pub proof fn law_there_is_one_choice(state: KimiStateModel, raw: JsonModel)
    ensures
        chunk_step(state, raw).1 is Ok ==> forall|i: int|
            0 <= i < chunk_of(raw)->Ok_0.choices.len() ==> (#[trigger] chunk_of(raw)->Ok_0.choices[i]).index == 0,
{
    if chunk_step(state, raw).1 is Ok {
        let chunk = chunk_of(raw)->Ok_0;
        let known = id_step(KimiStateModel { recognized: true, ..state }, chunk.id).0;
        lemma_other_choices(known, None, chunk.choices, 0);
    }
}

/// A stream of nothing but white space is empty, unless it breaks the frames.
pub proof fn law_a_blank_stream_is_empty(wire_model: Seq<char>, bytes: Seq<u8>)
    requires
        all_blank(bytes),
    ensures
        ({
            let (decoder, shown) = fed(fresh(wire_model), bytes);
            shown is Ok && closed(decoder).1 is Ok ==> decoded(decoder) == Err::<KimiDecodedResponseModel, _>(
                KimiStreamErrorModel::EmptyStream,
            )
        }),
{
}

} // verus!
