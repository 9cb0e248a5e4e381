//! What holds of a Kimi stream from its first byte to its end.
use crate::chat_completions::laws::{bytes_of, lemma_tool_place};
use crate::chat_completions::stream::{
    all_blank, data_value, is_blank, tool_place_from, with_tool, FramingModel, PendingToolModel,
};
use crate::chat_completions::types::{ChunkDeltaModel, ToolCallFragmentModel};
use crate::json::json_parse;
use crate::kimi_chat::laws::{
    law_cuts_do_not_matter, lemma_bytes_cut, lemma_bytes_grow_tools, lemma_bytes_grown, lemma_complete_is_visible,
    lemma_fragment_grows_tools, lemma_numbers, lemma_one_place, orderly_tools, shown_arguments, shown_content,
    shown_reasoning, visible_arguments,
};
use crate::kimi_chat::request::KimiToolCallModel;
use crate::kimi_chat::stream::{
    byte_step, bytes_step, choice_step, choices_step, closed, complete_from, complete_tool, completed_tools,
    content_step, data_step, decoded, delta_step, fed, fragment_step, fragments_step, fresh, id_step, line_step,
    quiet, reasoning_in, reasoning_step, KimiStateModel, KimiStreamDecoderModel,
};
use crate::kimi_chat::stream_types::{
    chunk_of, KimiChoiceModel, KimiDecodedResponseModel, KimiPendingResponseModel, KimiStreamErrorModel,
    KimiStreamEventModel, KimiUsage,
};
use crate::text::{begins_with, joined, utf8_chars};
use vstd::prelude::*;

verus! {

// ---- runs ----

/// A decoder after the fragments from `at` on, up to the first that fails, and
/// all that they showed.
pub open spec fn run(decoder: KimiStreamDecoderModel, fragments: Seq<Seq<u8>>, at: int) -> (
    KimiStreamDecoderModel,
    Result<Seq<KimiStreamEventModel>, KimiStreamErrorModel>,
)
    decreases fragments.len() - at,
{
    if at < 0 || at >= fragments.len() {
        (decoder, Ok(Seq::empty()))
    } else {
        let (next, shown) = fed(decoder, fragments[at]);
        match shown {
            Err(error) => (next, Err(error)),
            Ok(events) => {
                let (last, rest) = run(next, fragments, at + 1);
                (
                    last,
                    match rest {
                        Err(error) => Err(error),
                        Ok(more) => Ok(events + more),
                    },
                )
            },
        }
    }
}

/// Whether a decoder has handed out all its events, as it has before and behind
/// every fragment.
pub open spec fn settled(decoder: KimiStreamDecoderModel) -> bool {
    decoder.state == quiet(decoder.state)
}

/// What one fragment with all the bytes does is what the fragments do.
proof fn lemma_run_as_one(decoder: KimiStreamDecoderModel, fragments: Seq<Seq<u8>>, at: int)
    requires
        settled(decoder),
        0 <= at <= fragments.len(),
    ensures
        run(decoder, fragments, at).1 == fed(decoder, bytes_of(fragments, at)).1,
        run(decoder, fragments, at).1 is Ok ==> run(decoder, fragments, at).0 == fed(
            decoder,
            bytes_of(fragments, at),
        ).0,
    decreases fragments.len() - at,
{
    if at < fragments.len() {
        let (next, shown) = fed(decoder, fragments[at]);
        let rest = bytes_of(fragments, at + 1);
        law_cuts_do_not_matter(decoder, fragments[at], rest);
        if shown is Ok {
            lemma_run_as_one(next, fragments, at + 1);
        }
    } else {
        assert(bytes_of(fragments, at) =~= Seq::empty());
    }
}

/// Only the bytes of a stream matter, not where it is cut: two ways to cut it
/// fail alike or show the same, and leave the same decoder.
pub proof fn law_only_the_bytes_matter(
    decoder: KimiStreamDecoderModel,
    fragments: Seq<Seq<u8>>,
    others: Seq<Seq<u8>>,
)
    requires
        settled(decoder),
        bytes_of(fragments, 0) == bytes_of(others, 0),
    ensures
        run(decoder, fragments, 0).1 == run(decoder, others, 0).1,
        run(decoder, fragments, 0).1 is Ok ==> run(decoder, fragments, 0).0 == run(decoder, others, 0).0,
{
    lemma_run_as_one(decoder, fragments, 0);
    lemma_run_as_one(decoder, others, 0);
}

/// A decoder starts settled and stays so.
pub proof fn law_decoders_stay_settled(wire_model: Seq<char>, decoder: KimiStreamDecoderModel, fragment: Seq<u8>)
    ensures
        settled(fresh(wire_model)),
        settled(fed(decoder, fragment).0),
{
}

// ---- line ends ----

/// The bytes from `at` on with another line end in place of every line feed.
pub open spec fn with_line_end(bytes: Seq<u8>, end: Seq<u8>, at: int) -> Seq<u8>
    decreases bytes.len() - at,
{
    if at < 0 || at >= bytes.len() {
        Seq::empty()
    } else if bytes[at] == 10 {
        end + with_line_end(bytes, end, at + 1)
    } else {
        seq![bytes[at]] + with_line_end(bytes, end, at + 1)
    }
}

/// Whether bytes are another way to end a line: a carriage return, alone or
/// before a line feed.
pub open spec fn is_line_end(end: Seq<u8>) -> bool {
    end == seq![13u8] || end == seq![13u8, 10u8]
}

/// Whether framings are the same but for a line feed that may still belong to
/// the last line end.
pub open spec fn same_framing(framing: FramingModel, other: FramingModel) -> bool {
    framing.line == other.line && framing.data == other.data
}

proof fn lemma_line_end(
    framing: FramingModel,
    other: FramingModel,
    state: KimiStateModel,
    bytes: Seq<u8>,
    end: Seq<u8>,
    at: int,
)
    requires
        is_line_end(end),
        same_framing(framing, other),
        !framing.skip_lf,
        0 <= at <= bytes.len(),
        forall|i: int| 0 <= i < bytes.len() ==> bytes[i] != 13,
    ensures
        ({
            let (framing, state_after, applied) = bytes_step(framing, state, bytes, at);
            let (other, other_after, other_applied) = bytes_step(other, state, with_line_end(bytes, end, at), 0);
            &&& applied == other_applied
            &&& applied is Ok ==> state_after == other_after && same_framing(framing, other)
        }),
    decreases bytes.len() - at,
{
    if at < bytes.len() {
        let head = if bytes[at] == 10 {
            end
        } else {
            seq![bytes[at]]
        };
        let rest = with_line_end(bytes, end, at + 1);
        lemma_bytes_cut(other, state, head, rest, 0);
        reveal_with_fuel(bytes_step, 3);
        let (next_framing, next_state, applied) = byte_step(framing, state, bytes[at]);
        let (next_other, next_other_state, other_applied) = bytes_step(other, state, head, 0);
        assert(applied == other_applied);
        if applied is Ok {
            assert(next_state == next_other_state);
            assert(same_framing(next_framing, next_other));
            assert(!next_framing.skip_lf);
            lemma_line_end(next_framing, next_other, next_state, bytes, end, at + 1);
        }
    }
}

proof fn lemma_line_end_blank(bytes: Seq<u8>, end: Seq<u8>, at: int)
    requires
        is_line_end(end),
        0 <= at <= bytes.len(),
    ensures
        all_blank(with_line_end(bytes, end, at)) == all_blank(bytes.subrange(at, bytes.len() as int)),
    decreases bytes.len() - at,
{
    let tail = bytes.subrange(at, bytes.len() as int);
    if at < bytes.len() {
        lemma_line_end_blank(bytes, end, at + 1);
        let head = if bytes[at] == 10 {
            end
        } else {
            seq![bytes[at]]
        };
        let rest = with_line_end(bytes, end, at + 1);
        let whole = with_line_end(bytes, end, at);
        let shorter = bytes.subrange(at + 1, bytes.len() as int);
        assert(whole == head + rest);
        if all_blank(whole) {
            assert forall|i: int| 0 <= i < rest.len() implies is_blank(#[trigger] rest[i]) by {
                assert(rest[i] == whole[head.len() + i]);
            }
            assert(is_blank(whole[0]));
            assert forall|i: int| 0 <= i < tail.len() implies is_blank(#[trigger] tail[i]) by {
                if i > 0 {
                    assert(tail[i] == shorter[i - 1]);
                }
            }
        }
        if all_blank(tail) {
            assert forall|i: int| 0 <= i < shorter.len() implies is_blank(#[trigger] shorter[i]) by {
                assert(shorter[i] == tail[i + 1]);
            }
            assert(is_blank(tail[0]));
            assert forall|i: int| 0 <= i < whole.len() implies is_blank(#[trigger] whole[i]) by {
                if i >= head.len() {
                    assert(whole[i] == rest[i - head.len()]);
                }
            }
        }
    }
}

/// How lines end does not matter: a stream with a carriage return, alone or
/// before a line feed, in place of every line feed fails as it does with line
/// feeds, or shows the same. It is then as far and gives the same response,
/// wherever it is cut.
pub proof fn law_line_ends_do_not_matter(
    decoder: KimiStreamDecoderModel,
    fragments: Seq<Seq<u8>>,
    others: Seq<Seq<u8>>,
    end: Seq<u8>,
)
    requires
        settled(decoder),
        !decoder.framing.skip_lf,
        is_line_end(end),
        forall|i: int| 0 <= i < bytes_of(fragments, 0).len() ==> bytes_of(fragments, 0)[i] != 13,
        bytes_of(others, 0) == with_line_end(bytes_of(fragments, 0), end, 0),
    ensures
        run(decoder, fragments, 0).1 == run(decoder, others, 0).1,
        run(decoder, fragments, 0).1 is Ok ==> run(decoder, fragments, 0).0.state.done == run(
            decoder,
            others,
            0,
        ).0.state.done && decoded(run(decoder, fragments, 0).0) == decoded(run(decoder, others, 0).0),
{
    let bytes = bytes_of(fragments, 0);
    lemma_run_as_one(decoder, fragments, 0);
    lemma_run_as_one(decoder, others, 0);
    lemma_line_end(decoder.framing, decoder.framing, quiet(decoder.state), bytes, end, 0);
    lemma_line_end_blank(bytes, end, 0);
    assert(bytes.subrange(0, bytes.len() as int) =~= bytes);
}

// ---- the end of a stream ----

/// The data of the frame that a byte completes: the byte ends an empty line
/// behind lines of data.
pub open spec fn ended_frame(framing: FramingModel, byte: u8) -> Option<Seq<char>> {
    if (byte == 13 || byte == 10 && !framing.skip_lf) && framing.line.len() == 0 && framing.data.len() > 0 {
        Some(joined(framing.data))
    } else {
        None
    }
}

/// What is wrong with the line that a byte ends: it is not UTF-8, or is neither
/// empty nor a comment nor data.
pub open spec fn line_fault(framing: FramingModel, byte: u8) -> Option<KimiStreamErrorModel> {
    if (byte == 13 || byte == 10 && !framing.skip_lf) && framing.line.len() > 0 {
        match utf8_chars(framing.line) {
            None => Some(KimiStreamErrorModel::InvalidUtf8),
            Some(line) => if begins_with(line, ":"@) || data_value(line) is Some {
                None
            } else {
                Some(KimiStreamErrorModel::MalformedFraming(line))
            },
        }
    } else {
        None
    }
}

/// The framing behind a byte that ends no line with a fault.
pub open spec fn framed(framing: FramingModel, byte: u8) -> FramingModel {
    if byte == 10 && framing.skip_lf {
        FramingModel { skip_lf: false, ..framing }
    } else if byte == 13 || byte == 10 {
        let data = if framing.line.len() == 0 {
            Seq::empty()
        } else {
            match utf8_chars(framing.line) {
                Some(line) => if begins_with(line, ":"@) || data_value(line) is None {
                    framing.data
                } else {
                    framing.data.push(data_value(line)->0)
                },
                None => framing.data,
            }
        };
        FramingModel { line: Seq::empty(), data, skip_lf: byte == 13 }
    } else {
        FramingModel { line: framing.line.push(byte), data: framing.data, skip_lf: false }
    }
}

/// The data of the frames that the bytes from `at` on complete.
pub open spec fn frames_from(framing: FramingModel, bytes: Seq<u8>, at: int) -> Seq<Seq<char>>
    decreases bytes.len() - at,
{
    if at < 0 || at >= bytes.len() {
        Seq::empty()
    } else {
        let rest = frames_from(framed(framing, bytes[at]), bytes, at + 1);
        match ended_frame(framing, bytes[at]) {
            Some(data) => seq![data] + rest,
            None => rest,
        }
    }
}

proof fn lemma_byte_framed(framing: FramingModel, state: KimiStateModel, byte: u8)
    ensures
        ({
            let (next, after, applied) = byte_step(framing, state, byte);
            match line_fault(framing, byte) {
                Some(error) => after == state && applied == Err::<(), _>(error),
                None => match ended_frame(framing, byte) {
                    Some(data) => (after, applied) == data_step(state, data),
                    None => after == state && applied is Ok,
                },
            }
        }),
        byte_step(framing, state, byte).2 is Ok ==> byte_step(framing, state, byte).0 == framed(framing, byte),
{
    let ready = FramingModel { skip_lf: false, ..framing };
    if framing.line.len() == 0 && framing.data.len() == 0 {
        assert(framing.data =~= Seq::empty());
        assert(framing.line =~= Seq::empty());
    }
    if framing.line.len() == 0 {
        assert(framing.line =~= Seq::empty());
    }
}

proof fn lemma_fragments_keep_done(state: KimiStateModel, fragments: Seq<ToolCallFragmentModel>, at: int)
    requires
        0 <= at <= fragments.len(),
    ensures
        fragments_step(state, fragments, at).0.done == state.done,
    decreases fragments.len() - at,
{
    if at < fragments.len() {
        let (next, applied) = fragment_step(state, fragments[at]);
        if applied is Ok {
            lemma_fragments_keep_done(next, fragments, at + 1);
        }
    }
}

proof fn lemma_delta_keeps_done(state: KimiStateModel, delta: ChunkDeltaModel)
    ensures
        delta_step(state, delta).0.done == state.done,
{
    let said = content_step(state, delta.content);
    let (thought, applied) = reasoning_step(said, reasoning_in(delta.extensions));
    lemma_fragments_keep_done(thought, delta.tool_calls, 0);
}

proof fn lemma_choices_keep_done(
    state: KimiStateModel,
    usage: Option<KimiUsage>,
    choices: Seq<KimiChoiceModel>,
    at: int,
)
    requires
        0 <= at <= choices.len(),
    ensures
        choices_step(state, usage, choices, at).0.done == state.done,
    decreases choices.len() - at,
{
    if at < choices.len() {
        lemma_delta_keeps_done(state, choices[at].delta);
        let (next, applied) = choice_step(state, choices[at]);
        if applied is Ok {
            let usage = if choices[at].usage is Some {
                choices[at].usage
            } else {
                usage
            };
            lemma_choices_keep_done(next, usage, choices, at + 1);
        }
    }
}

proof fn lemma_data_done(state: KimiStateModel, data: Seq<char>)
    ensures
        data_step(state, data).1 is Ok ==> !state.done && data_step(state, data).0.done == (data == "[DONE]"@),
{
    if let Ok(json) = json_parse(data) {
        if let Ok(chunk) = chunk_of(json) {
            let known = id_step(KimiStateModel { recognized: true, ..state }, chunk.id).0;
            lemma_choices_keep_done(known, None, chunk.choices, 0);
        }
    }
}

proof fn lemma_bytes_done(framing: FramingModel, state: KimiStateModel, bytes: Seq<u8>, at: int)
    requires
        0 <= at <= bytes.len(),
        bytes_step(framing, state, bytes, at).2 is Ok,
    ensures
        bytes_step(framing, state, bytes, at).0 == framing_after(framing, bytes, at),
        bytes_step(framing, state, bytes, at).1.done == (state.done || frames_from(framing, bytes, at).contains(
            "[DONE]"@,
        )),
    decreases bytes.len() - at,
{
    if at < bytes.len() {
        lemma_byte_framed(framing, state, bytes[at]);
        let (next_framing, next_state, applied) = byte_step(framing, state, bytes[at]);
        lemma_bytes_done(next_framing, next_state, bytes, at + 1);
        if let Some(data) = ended_frame(framing, bytes[at]) {
            lemma_data_done(state, data);
            let rest = frames_from(next_framing, bytes, at + 1);
            let all = seq![data] + rest;
            assert(all[0] == data);
            if rest.contains("[DONE]"@) {
                let i = choose|i: int| 0 <= i < rest.len() && rest[i] == "[DONE]"@;
                assert(all[i + 1] == "[DONE]"@);
            }
            if all.contains("[DONE]"@) && data != "[DONE]"@ {
                let i = choose|i: int| 0 <= i < all.len() && all[i] == "[DONE]"@;
                assert(rest[i - 1] == "[DONE]"@);
            }
        }
    }
}

/// The framing behind the bytes from `at` on, where no line has a fault.
pub open spec fn framing_after(framing: FramingModel, bytes: Seq<u8>, at: int) -> FramingModel
    decreases bytes.len() - at,
{
    if at < 0 || at >= bytes.len() {
        framing
    } else {
        framing_after(framed(framing, bytes[at]), bytes, at + 1)
    }
}

/// A stream is done exactly once a frame with the announcement of its end was
/// completed, and stays so.
pub proof fn law_done_once_the_end_is_announced(decoder: KimiStreamDecoderModel, fragments: Seq<Seq<u8>>)
    requires
        settled(decoder),
        run(decoder, fragments, 0).1 is Ok,
    ensures
        run(decoder, fragments, 0).0.state.done <==> decoder.state.done || frames_from(
            decoder.framing,
            bytes_of(fragments, 0),
            0,
        ).contains("[DONE]"@),
{
    lemma_run_as_one(decoder, fragments, 0);
    lemma_bytes_done(decoder.framing, quiet(decoder.state), bytes_of(fragments, 0), 0);
}

/// A stream starts undone and between frames.
pub proof fn law_streams_start_undone(wire_model: Seq<char>)
    ensures
        !fresh(wire_model).state.done,
        fresh(wire_model).framing == (FramingModel { line: Seq::empty(), data: Seq::empty(), skip_lf: false }),
{
}

/// The first thing wrong with the bytes from `at` on behind the end: a line with
/// a fault, or another frame.
pub open spec fn fault_behind_end(framing: FramingModel, bytes: Seq<u8>, at: int) -> Option<KimiStreamErrorModel>
    decreases bytes.len() - at,
{
    if at < 0 || at >= bytes.len() {
        None
    } else if line_fault(framing, bytes[at]) is Some {
        line_fault(framing, bytes[at])
    } else if ended_frame(framing, bytes[at]) is Some {
        Some(KimiStreamErrorModel::InvalidTransition("data followed [DONE]"@))
    } else {
        fault_behind_end(framed(framing, bytes[at]), bytes, at + 1)
    }
}

proof fn lemma_bytes_behind_end(framing: FramingModel, state: KimiStateModel, bytes: Seq<u8>, at: int)
    requires
        state.done,
        0 <= at <= bytes.len(),
    ensures
        bytes_step(framing, state, bytes, at).1 == state,
        bytes_step(framing, state, bytes, at).2 == match fault_behind_end(framing, bytes, at) {
            Some(error) => Err(error),
            None => Ok(()),
        },
        fault_behind_end(framing, bytes, at) is None ==> frames_from(framing, bytes, at) == Seq::<Seq<char>>::empty(),
    decreases bytes.len() - at,
{
    if at < bytes.len() {
        lemma_byte_framed(framing, state, bytes[at]);
        let (next_framing, next_state, applied) = byte_step(framing, state, bytes[at]);
        if applied is Ok {
            lemma_bytes_behind_end(next_framing, next_state, bytes, at + 1);
        }
    }
}

/// Behind the end of a stream a fragment shows nothing and changes nothing of
/// the response. It fails where it completes another frame, or ends a line that
/// is neither empty nor a comment nor data, and with the first of these; any
/// other fragment passes.
pub proof fn law_only_comments_follow_the_end(decoder: KimiStreamDecoderModel, fragment: Seq<u8>)
    requires
        settled(decoder),
        decoder.state.done,
    ensures
        fed(decoder, fragment).0.state == decoder.state,
        fed(decoder, fragment).1 == match fault_behind_end(decoder.framing, fragment, 0) {
            Some(error) => Err(error),
            None => Ok(Seq::<KimiStreamEventModel>::empty()),
        },
        fed(decoder, fragment).1 is Ok ==> frames_from(decoder.framing, fragment, 0).len() == 0,
{
    lemma_bytes_behind_end(decoder.framing, decoder.state, fragment, 0);
}

proof fn lemma_line_bytes(framing: FramingModel, state: KimiStateModel, bytes: Seq<u8>, at: int, end: u8)
    requires
        !framing.skip_lf || at > 0 || bytes.len() > 0 || end != 10,
        0 <= at <= bytes.len(),
        end == 10 || end == 13,
        framing.line == bytes.subrange(0, at),
        at > 0 ==> !framing.skip_lf,
        forall|i: int| 0 <= i < bytes.len() ==> bytes[i] != 10 && bytes[i] != 13,
    ensures
        bytes_step(framing, state, bytes.push(end), at) == byte_step(
            FramingModel { line: bytes, data: framing.data, skip_lf: false },
            state,
            end,
        ),
    decreases bytes.len() - at,
{
    let all = bytes.push(end);
    reveal_with_fuel(bytes_step, 2);
    if at < bytes.len() {
        assert(all[at] == bytes[at]);
        assert(bytes.subrange(0, at).push(bytes[at]) =~= bytes.subrange(0, at + 1));
        let (next, after, applied) = byte_step(framing, state, all[at]);
        lemma_line_bytes(next, after, bytes, at + 1, end);
    } else {
        assert(all[at] == end);
        assert(bytes.subrange(0, at) =~= bytes);
    }
}

/// A comment or an empty line between frames passes at any time, and changes
/// nothing but which line end was last.
pub proof fn law_comments_pass(decoder: KimiStreamDecoderModel, line: Seq<u8>, end: u8)
    requires
        settled(decoder),
        decoder.framing.line.len() == 0,
        decoder.framing.data.len() == 0,
        !decoder.framing.skip_lf || line.len() > 0 || end == 13,
        end == 10 || end == 13,
        forall|i: int| 0 <= i < line.len() ==> line[i] != 10 && line[i] != 13,
        line.len() == 0 || (utf8_chars(line) is Some && begins_with(utf8_chars(line)->0, ":"@)),
    ensures
        fed(decoder, line.push(end)).1 == Ok::<Seq<KimiStreamEventModel>, KimiStreamErrorModel>(Seq::empty()),
        fed(decoder, line.push(end)).0.state == decoder.state,
        fed(decoder, line.push(end)).0.framing == (FramingModel { skip_lf: end == 13, ..decoder.framing }),
{
    assert(decoder.framing.line =~= line.subrange(0, 0));
    assert(decoder.framing.line =~= Seq::empty());
    assert(decoder.framing.data =~= Seq::empty());
    lemma_line_bytes(decoder.framing, decoder.state, line, 0, end);
    lemma_byte_framed(FramingModel { line, data: decoder.framing.data, skip_lf: false }, decoder.state, end);
}

// ---- what is shown is what is committed ----

/// Whether the tool call with a number has this identity.
pub open spec fn known_as(tools: Seq<PendingToolModel>, number: usize, id: Seq<char>, name: Seq<char>) -> bool {
    match tool_place_from(tools, number, 0) {
        Some(place) => tools[place].id == Some(id) && tools[place].name == Some(name),
        None => false,
    }
}

/// Whether an event belongs to a response: it names it, it shows text where it
/// is for text, and a tool call by its identity.
pub open spec fn belongs(state: KimiStateModel, event: KimiStreamEventModel) -> bool {
    match event {
        KimiStreamEventModel::Content { response_id, delta } => state.response_id == Some(response_id) && delta.len()
            > 0,
        KimiStreamEventModel::Reasoning { response_id, delta } => state.response_id == Some(response_id)
            && delta.len() > 0,
        KimiStreamEventModel::ToolCall { response_id, index, id, name, .. } => state.response_id == Some(response_id)
            && known_as(state.tools, index, id, name),
    }
}

/// Whether an event shows the tool call with a number.
pub open spec fn shows_call(event: KimiStreamEventModel, number: usize) -> bool {
    event matches KimiStreamEventModel::ToolCall { index, .. } && index == number
}

/// Whether some event shows the tool call with a number.
pub open spec fn call_shown(events: Seq<KimiStreamEventModel>, number: usize) -> bool {
    exists|i: int| 0 <= i < events.len() && shows_call(#[trigger] events[i], number)
}

/// Whether all events of a response belong to it, and show each tool call whose
/// identity is known.
pub open spec fn well_told(state: KimiStateModel) -> bool {
    &&& orderly_tools(state.tools)
    &&& forall|i: int| 0 <= i < state.events.len() ==> belongs(state, #[trigger] state.events[i])
    &&& forall|p: int|
        0 <= p < state.tools.len() && (#[trigger] state.tools[p]).presented ==> call_shown(
            state.events,
            state.tools[p].index,
        )
}

proof fn lemma_shown_stays(events: Seq<KimiStreamEventModel>, event: KimiStreamEventModel, number: usize)
    ensures
        call_shown(events, number) || shows_call(event, number) ==> call_shown(events.push(event), number),
{
    let more = events.push(event);
    if shows_call(event, number) {
        assert(shows_call(more[events.len() as int], number));
    } else if call_shown(events, number) {
        let i = choose|i: int| 0 <= i < events.len() && shows_call(#[trigger] events[i], number);
        assert(more[i] == events[i]);
    }
}

proof fn lemma_text_told(state: KimiStateModel, next: KimiStateModel, event: KimiStreamEventModel)
    requires
        well_told(state),
        !(event is ToolCall),
        belongs(state, event),
        next.events == state.events.push(event),
        next.tools == state.tools,
        next.response_id == state.response_id,
    ensures
        well_told(next),
{
    assert forall|i: int| 0 <= i < next.events.len() implies belongs(next, #[trigger] next.events[i]) by {
        if i < state.events.len() {
            assert(belongs(state, state.events[i]));
        }
    }
    assert forall|p: int| 0 <= p < next.tools.len() && (#[trigger] next.tools[p]).presented implies call_shown(
        next.events,
        next.tools[p].index,
    ) by {
        assert(state.tools[p].presented);
        lemma_shown_stays(state.events, event, next.tools[p].index);
    }
}

proof fn lemma_fragment_told(state: KimiStateModel, fragment: ToolCallFragmentModel)
    requires
        well_told(state),
        state.response_id is Some,
    ensures
        fragment_step(state, fragment).1 is Ok ==> well_told(fragment_step(state, fragment).0) && fragment_step(
            state,
            fragment,
        ).0.response_id == state.response_id,
{
    let (next, applied) = fragment_step(state, fragment);
    if applied is Ok {
        let index = fragment.index;
        let (tools, place) = with_tool(state.tools, index);
        lemma_tool_place(state.tools, index, 0);
        let known = visible_arguments(state.tools, index);
        assert(known + Seq::<char>::empty() =~= known);
        lemma_fragment_grows_tools(state.tools, quiet(state), fragment, index);
        assert(fragment_step(quiet(state), fragment).0.tools == next.tools);
        assert(next.tools.len() == tools.len());
        assert(forall|i: int| 0 <= i < tools.len() && i != place ==> next.tools[i] == tools[i]);
        assert(next.tools[place].index == index);
        assert forall|number: usize, id: Seq<char>, name: Seq<char>| #[trigger]
            known_as(state.tools, number, id, name) implies known_as(next.tools, number, id, name) by {
            lemma_tool_place(state.tools, number, 0);
            let found = tool_place_from(state.tools, number, 0)->0;
            assert(tools[found] == state.tools[found]);
            lemma_one_place(next.tools, found);
        }
        lemma_one_place(next.tools, place);
        if next.events != state.events {
            let event = next.events.last();
            assert(next.events =~= state.events.push(event));
            assert(shows_call(event, index));
            assert(belongs(next, event));
        }
        assert forall|i: int| 0 <= i < next.events.len() implies belongs(next, #[trigger] next.events[i]) by {
            if i < state.events.len() {
                assert(next.events[i] == state.events[i]);
                assert(belongs(state, state.events[i]));
            }
        }
        assert forall|p: int| 0 <= p < next.tools.len() && (#[trigger] next.tools[p]).presented implies call_shown(
            next.events,
            next.tools[p].index,
        ) by {
            if next.events != state.events {
                lemma_shown_stays(state.events, next.events.last(), next.tools[p].index);
            }
            if p != place {
                assert(state.tools[p].presented);
            } else if next.events == state.events {
                assert(tools[place].presented);
                assert(state.tools[place].presented);
            }
        }
    }
}

proof fn lemma_fragments_told(state: KimiStateModel, fragments: Seq<ToolCallFragmentModel>, at: int)
    requires
        well_told(state),
        state.response_id is Some,
        0 <= at <= fragments.len(),
    ensures
        fragments_step(state, fragments, at).1 is Ok ==> well_told(fragments_step(state, fragments, at).0)
            && fragments_step(state, fragments, at).0.response_id == state.response_id,
    decreases fragments.len() - at,
{
    if at < fragments.len() {
        lemma_fragment_told(state, fragments[at]);
        let (next, applied) = fragment_step(state, fragments[at]);
        if applied is Ok {
            lemma_fragments_told(next, fragments, at + 1);
        }
    }
}

proof fn lemma_delta_told(state: KimiStateModel, delta: ChunkDeltaModel)
    requires
        well_told(state),
        state.response_id is Some,
    ensures
        delta_step(state, delta).1 is Ok ==> well_told(delta_step(state, delta).0) && delta_step(
            state,
            delta,
        ).0.response_id == state.response_id,
{
    let said = content_step(state, delta.content);
    if said.events != state.events {
        lemma_text_told(state, said, said.events.last());
    }
    let (thought, applied) = reasoning_step(said, reasoning_in(delta.extensions));
    if applied is Ok {
        if thought.events != said.events {
            lemma_text_told(said, thought, thought.events.last());
        }
        assert(well_told(thought));
        lemma_fragments_told(thought, delta.tool_calls, 0);
    }
}

proof fn lemma_choices_told(state: KimiStateModel, usage: Option<KimiUsage>, choices: Seq<KimiChoiceModel>, at: int)
    requires
        well_told(state),
        state.response_id is Some,
        0 <= at <= choices.len(),
    ensures
        choices_step(state, usage, choices, at).1 is Ok ==> well_told(choices_step(state, usage, choices, at).0),
    decreases choices.len() - at,
{
    if at < choices.len() {
        lemma_delta_told(state, choices[at].delta);
        let (said, applied) = delta_step(state, choices[at].delta);
        let (next, applied) = choice_step(state, choices[at]);
        if applied is Ok {
            assert(next.events == said.events && next.tools == said.tools && next.response_id == said.response_id);
            assert(well_told(next)) by {
                assert forall|i: int| 0 <= i < next.events.len() implies belongs(next, #[trigger] next.events[i]) by {
                    assert(belongs(said, said.events[i]));
                }
            }
            let usage = if choices[at].usage is Some {
                choices[at].usage
            } else {
                usage
            };
            lemma_choices_told(next, usage, choices, at + 1);
        }
    }
}

proof fn lemma_same_told(state: KimiStateModel, next: KimiStateModel)
    requires
        well_told(state),
        next.events == state.events,
        next.tools == state.tools,
        state.response_id is Some ==> next.response_id == state.response_id,
    ensures
        well_told(next),
{
    assert forall|i: int| 0 <= i < next.events.len() implies belongs(next, #[trigger] next.events[i]) by {
        assert(belongs(state, state.events[i]));
    }
}

proof fn lemma_data_told(state: KimiStateModel, data: Seq<char>)
    requires
        well_told(state),
    ensures
        data_step(state, data).1 is Ok ==> well_told(data_step(state, data).0),
{
    let (next, applied) = data_step(state, data);
    if applied is Ok {
        if data == "[DONE]"@ {
            lemma_same_told(state, next);
        } else {
            let chunk = chunk_of(json_parse(data)->Ok_0)->Ok_0;
            let known = id_step(KimiStateModel { recognized: true, ..state }, chunk.id).0;
            lemma_same_told(state, known);
            lemma_choices_told(known, None, chunk.choices, 0);
            lemma_same_told(choices_step(known, None, chunk.choices, 0).0, next);
        }
    }
}

proof fn lemma_bytes_told(framing: FramingModel, state: KimiStateModel, bytes: Seq<u8>, at: int)
    requires
        well_told(state),
        0 <= at <= bytes.len(),
    ensures
        bytes_step(framing, state, bytes, at).2 is Ok ==> well_told(bytes_step(framing, state, bytes, at).1),
    decreases bytes.len() - at,
{
    if at < bytes.len() {
        lemma_byte_framed(framing, state, bytes[at]);
        if let Some(data) = ended_frame(framing, bytes[at]) {
            lemma_data_told(state, data);
        }
        let (next_framing, next_state, applied) = byte_step(framing, state, bytes[at]);
        if applied is Ok {
            lemma_bytes_told(next_framing, next_state, bytes, at + 1);
        }
    }
}

/// What the end of the bytes adds to a response that it leaves done: nothing
/// but that it is.
proof fn lemma_closed_adds_nothing(decoder: KimiStreamDecoderModel)
    requires
        closed(decoder).1 is Ok,
        closed(decoder).0.done,
    ensures
        closed(decoder).0 == (KimiStateModel { done: true, ..decoder.state }),
{
    let framing = if decoder.framing.line.len() == 0 {
        decoder.framing
    } else {
        line_step(decoder.framing, decoder.state).0
    };
    if framing.data.len() > 0 {
        lemma_data_done(decoder.state, joined(framing.data));
    }
}

/// Whether the events show a response as it may be committed: text and
/// reasoning delta by delta and none of them empty, and each tool call at least
/// once, under its number and identity, with all its arguments. Every event
/// names the response.
pub open spec fn shows_all(
    events: Seq<KimiStreamEventModel>,
    response: KimiDecodedResponseModel,
    pending: KimiPendingResponseModel,
) -> bool {
    &&& shown_content(events) == pending.content
    &&& shown_reasoning(events) == pending.reasoning.text
    &&& forall|i: int|
        0 <= i < events.len() ==> match #[trigger] events[i] {
            KimiStreamEventModel::Content { response_id, delta } => response_id == response.response_id && delta.len()
                > 0,
            KimiStreamEventModel::Reasoning { response_id, delta } => response_id == response.response_id
                && delta.len() > 0,
            KimiStreamEventModel::ToolCall { response_id, index, id, name, .. } => {
                &&& response_id == response.response_id
                &&& index < pending.tool_calls.len()
                &&& pending.tool_calls[index as int].id == id
                &&& pending.tool_calls[index as int].function.name == name
            },
        }
    &&& forall|call: int|
        0 <= call < pending.tool_calls.len() ==> (#[trigger] pending.tool_calls[call]).function.arguments
            == shown_arguments(events, call as usize) && call_shown(events, call as usize)
}

/// The tool calls of a response stand in the order of their numbers, each with
/// the identity that it is known by.
proof fn lemma_complete_is_known(tools: Seq<PendingToolModel>, at: int, done: Seq<KimiToolCallModel>)
    requires
        orderly_tools(tools),
        tools.len() <= usize::MAX + 1,
        0 <= at <= tools.len(),
        done.len() == at,
        forall|i: int|
            0 <= i < done.len() ==> tool_place_from(tools, i as usize, 0) is Some && known_as(
                tools,
                i as usize,
                (#[trigger] done[i]).id,
                done[i].function.name,
            ),
    ensures
        complete_from(tools, at, done) matches Ok(calls) ==> calls.len() == tools.len() && forall|i: int|
            0 <= i < calls.len() ==> tool_place_from(tools, i as usize, 0) is Some && known_as(
                tools,
                i as usize,
                (#[trigger] calls[i]).id,
                calls[i].function.name,
            ),
    decreases tools.len() - at,
{
    if at < tools.len() {
        if let Some(place) = tool_place_from(tools, at as usize, 0) {
            if let Ok(call) = complete_tool(tools[place]) {
                lemma_complete_is_known(tools, at + 1, done.push(call));
            }
        }
    }
}

/// What is shown of a stream is what may be committed of it, from its first
/// byte to its end and wherever it is cut.
pub proof fn law_stream_is_shown_as_committed(
    decoder: KimiStreamDecoderModel,
    wire_model: Seq<char>,
    fragments: Seq<Seq<u8>>,
)
    requires
        decoder.state == fresh(wire_model).state,
    ensures
        run(decoder, fragments, 0).1 matches Ok(events) ==> (decoded(run(decoder, fragments, 0).0) matches Ok(response)
            ==> (response.pending matches Some(pending) ==> shows_all(events, response, pending))),
{
    let (last, shown) = run(decoder, fragments, 0);
    let bytes = bytes_of(fragments, 0);
    lemma_run_as_one(decoder, fragments, 0);
    if let Ok(events) = shown {
        if let Ok(response) = decoded(last) {
            if let Some(pending) = response.pending {
                let start = quiet(decoder.state);
                let (framing, state, applied) = bytes_step(decoder.framing, start, bytes, 0);
                assert(start.content + Seq::<char>::empty() =~= start.content);
                assert(start.reasoning + Seq::<char>::empty() =~= start.reasoning);
                lemma_bytes_grown(start.content, start.reasoning, decoder.framing, start, bytes, 0);
                assert(start.content + shown_content(events) =~= shown_content(events));
                assert(start.reasoning + shown_reasoning(events) =~= shown_reasoning(events));
                assert(well_told(start));
                lemma_bytes_told(decoder.framing, start, bytes, 0);
                assert(last.state == quiet(state) && state.events == events);
                lemma_closed_adds_nothing(last);
                let ended = closed(last).0;
                lemma_numbers(state.tools);
                lemma_complete_is_visible(state.tools, 0, Seq::empty());
                lemma_complete_is_known(state.tools, 0, Seq::empty());
                let calls = pending.tool_calls;
                assert(completed_tools(state.tools) == Ok::<_, KimiStreamErrorModel>(calls));
                assert forall|i: int| 0 <= i < events.len() implies match #[trigger] events[i] {
                    KimiStreamEventModel::Content { response_id, delta } => response_id == response.response_id
                        && delta.len() > 0,
                    KimiStreamEventModel::Reasoning { response_id, delta } => response_id == response.response_id
                        && delta.len() > 0,
                    KimiStreamEventModel::ToolCall { response_id, index, id, name, .. } => {
                        &&& response_id == response.response_id
                        &&& index < pending.tool_calls.len()
                        &&& pending.tool_calls[index as int].id == id
                        &&& pending.tool_calls[index as int].function.name == name
                    },
                } by {
                    assert(belongs(state, state.events[i]));
                    if let KimiStreamEventModel::ToolCall { index, .. } = events[i] {
                        lemma_tool_place(state.tools, index, 0);
                        let place = tool_place_from(state.tools, index, 0)->0;
                        assert(state.tools[place].index == index);
                        assert(known_as(state.tools, index, calls[index as int].id, calls[index as int].function.name));
                    }
                }
                assert forall|call: int| 0 <= call < calls.len() implies (#[trigger] calls[call]).function.arguments
                    == shown_arguments(events, call as usize) && call_shown(events, call as usize) by {
                    let number = call as usize;
                    let known = visible_arguments(start.tools, number);
                    assert(known + Seq::<char>::empty() =~= known);
                    lemma_bytes_grow_tools(start.tools, decoder.framing, start, bytes, 0, number);
                    assert(known + shown_arguments(events, number) =~= shown_arguments(events, number));
                    lemma_tool_place(state.tools, number, 0);
                    let place = tool_place_from(state.tools, number, 0)->0;
                    assert(known_as(state.tools, number, calls[call].id, calls[call].function.name));
                    assert(state.tools[place].presented);
                }
            }
        }
    }
}

} // verus!
