//! What a decoded Chat Completions response holds of the chunks it came in.
use crate::chat_completions::chunk::chunk_of;
use crate::chat_completions::dialect::{DialectContextModel, DialectErrorModel, DialectHooks, UsageMergePolicy};
use crate::chat_completions::laws::lemma_bytes_cut;
use crate::chat_completions::stream::{
    all_blank, byte_step, bytes_step, choices_step, chunk_step, complete_from, complete_tool, data_value,
    decoded_stream, delta_step, finish_step, finished, fragment_step, fragments_fed, fragments_step, frame_step,
    fresh_session, id_step, is_blank, line_step, merged_usage, raw_choices, spoken_step, tool_place_from,
    with_tool, DecodeErrorModel, FramingModel, PendingToolModel, ResponseStateModel,
};
use crate::chat_completions::types::{
    finish_reason_named, ChatCompletionChunkModel, ChunkChoiceModel, ChunkDeltaModel, ChunkUsageModel,
    DecodedStreamModel, FinishReason, PresentationDeltaModel, ResponseMetadataModel, ToolCallFragmentModel,
    ToolCallModel, UsageDetails,
};
use crate::claude_code::stream_laws::{lemma_line_bytes, lemma_scalar_bytes, unbroken};
use crate::json::{json_parse, member, JsonModel};
use crate::protocol::TerminalOutcome;
use crate::text::{begins_with, joined, utf8_chars};
use vstd::prelude::*;
use vstd::utf8::{encode_scalar, encode_utf8, encode_utf8_decode_utf8, encode_utf8_valid_utf8, valid_utf8};

verus! {

// ---- one chunk ----

/// The content of the choices from `at` on, one after another.
pub open spec fn content_from(choices: Seq<ChunkChoiceModel>, at: int) -> Seq<char>
    decreases choices.len() - at,
{
    if at < 0 || at >= choices.len() {
        Seq::empty()
    } else {
        match choices[at].delta.content {
            Some(text) => text + content_from(choices, at + 1),
            None => content_from(choices, at + 1),
        }
    }
}

/// The reasoning that a dialect finds in the choices from `at` on, one after
/// another.
pub open spec fn reasoning_from<D: DialectHooks>(
    choices: Seq<ChunkChoiceModel>,
    at: int,
    context: DialectContextModel,
    dialect: &D,
) -> Seq<char>
    decreases choices.len() - at,
{
    if at < 0 || at >= choices.len() {
        Seq::empty()
    } else {
        match dialect.delta_for(context, choices[at].delta.extensions) {
            Ok(Some(reasoning)) => reasoning.text + reasoning_from(choices, at + 1, context, dialect),
            _ => reasoning_from(choices, at + 1, context, dialect),
        }
    }
}

/// Where the last reasoning that a dialect finds in the choices from `at` on comes
/// from, or that before them.
pub open spec fn provenance_from<D: DialectHooks>(
    choices: Seq<ChunkChoiceModel>,
    at: int,
    before: Option<Seq<char>>,
    context: DialectContextModel,
    dialect: &D,
) -> Option<Seq<char>>
    decreases choices.len() - at,
{
    if at < 0 || at >= choices.len() {
        before
    } else {
        provenance_from(
            choices,
            at + 1,
            match dialect.delta_for(context, choices[at].delta.extensions) {
                Ok(Some(reasoning)) => Some(reasoning.provenance),
                _ => before,
            },
            context,
            dialect,
        )
    }
}

/// The arguments that fragments from `at` on add to the tool call with a number.
pub open spec fn fragment_arguments(fragments: Seq<ToolCallFragmentModel>, at: int, number: usize) -> Seq<char>
    decreases fragments.len() - at,
{
    if at < 0 || at >= fragments.len() {
        Seq::empty()
    } else {
        let rest = fragment_arguments(fragments, at + 1, number);
        match fragments[at].function {
            Some(function) => if fragments[at].index == number && function.arguments is Some {
                function.arguments->0 + rest
            } else {
                rest
            },
            None => rest,
        }
    }
}

/// The arguments that the choices from `at` on add to the tool call with a
/// number.
pub open spec fn arguments_from(choices: Seq<ChunkChoiceModel>, at: int, number: usize) -> Seq<char>
    decreases choices.len() - at,
{
    if at < 0 || at >= choices.len() {
        Seq::empty()
    } else {
        fragment_arguments(choices[at].delta.tool_calls, 0, number) + arguments_from(choices, at + 1, number)
    }
}

/// The arguments of the tool call with a number so far.
pub open spec fn arguments_of(tools: Seq<PendingToolModel>, number: usize) -> Seq<char> {
    match tool_place_from(tools, number, 0) {
        Some(place) => tools[place].arguments,
        None => Seq::empty(),
    }
}

/// The first of two values that is there.
pub open spec fn first_of(first: Option<Seq<char>>, second: Option<Seq<char>>) -> Option<Seq<char>> {
    if first is Some {
        first
    } else {
        second
    }
}

/// The id that fragments from `at` on give the tool call with a number.
pub open spec fn fragment_id(fragments: Seq<ToolCallFragmentModel>, at: int, number: usize) -> Option<Seq<char>>
    decreases fragments.len() - at,
{
    if at < 0 || at >= fragments.len() {
        None
    } else if fragments[at].index == number {
        first_of(fragments[at].id, fragment_id(fragments, at + 1, number))
    } else {
        fragment_id(fragments, at + 1, number)
    }
}

/// The name that fragments from `at` on give the tool call with a number.
pub open spec fn fragment_name(fragments: Seq<ToolCallFragmentModel>, at: int, number: usize) -> Option<Seq<char>>
    decreases fragments.len() - at,
{
    if at < 0 || at >= fragments.len() {
        None
    } else if fragments[at].index == number && fragments[at].function is Some {
        first_of(fragments[at].function->0.name, fragment_name(fragments, at + 1, number))
    } else {
        fragment_name(fragments, at + 1, number)
    }
}

/// The id that the choices from `at` on give the tool call with a number.
pub open spec fn id_from(choices: Seq<ChunkChoiceModel>, at: int, number: usize) -> Option<Seq<char>>
    decreases choices.len() - at,
{
    if at < 0 || at >= choices.len() {
        None
    } else {
        first_of(fragment_id(choices[at].delta.tool_calls, 0, number), id_from(choices, at + 1, number))
    }
}

/// The name that the choices from `at` on give the tool call with a number.
pub open spec fn name_from(choices: Seq<ChunkChoiceModel>, at: int, number: usize) -> Option<Seq<char>>
    decreases choices.len() - at,
{
    if at < 0 || at >= choices.len() {
        None
    } else {
        first_of(fragment_name(choices[at].delta.tool_calls, 0, number), name_from(choices, at + 1, number))
    }
}

/// The id of the tool call with a number so far.
pub open spec fn id_of(tools: Seq<PendingToolModel>, number: usize) -> Option<Seq<char>> {
    match tool_place_from(tools, number, 0) {
        Some(place) => tools[place].id,
        None => None,
    }
}

/// The name of the tool call with a number so far.
pub open spec fn name_of(tools: Seq<PendingToolModel>, number: usize) -> Option<Seq<char>> {
    match tool_place_from(tools, number, 0) {
        Some(place) => tools[place].name,
        None => None,
    }
}

/// Whether no two tool calls have one number.
pub open spec fn numbered(tools: Seq<PendingToolModel>) -> bool {
    forall|i: int, j: int| 0 <= i < j < tools.len() ==> (#[trigger] tools[i]).index != (#[trigger] tools[j]).index
}

/// The last usage that the choices from `at` on report, or the one before them.
pub open spec fn usage_from(choices: Seq<ChunkChoiceModel>, at: int, before: Option<ChunkUsageModel>) -> Option<
    ChunkUsageModel,
>
    decreases choices.len() - at,
{
    if at < 0 || at >= choices.len() {
        before
    } else {
        usage_from(
            choices,
            at + 1,
            match choices[at].usage {
                Some(usage) => Some(usage),
                None => before,
            },
        )
    }
}

/// Whether tools are others, of which none is lost, moved or renamed.
pub open spec fn tools_kept(before: Seq<PendingToolModel>, after: Seq<PendingToolModel>) -> bool {
    &&& before.len() <= after.len()
    &&& forall|i: int| 0 <= i < before.len() ==> {
        &&& (#[trigger] after[i]).index == before[i].index
        &&& before[i].id is Some ==> after[i].id == before[i].id
        &&& before[i].name is Some ==> after[i].name == before[i].name
    }
}

/// The first tool call with a number is the one that is found.
pub proof fn lemma_place_first(tools: Seq<PendingToolModel>, number: usize, at: int, place: int)
    requires
        0 <= at <= place < tools.len(),
        tools[place].index == number,
        forall|i: int| at <= i < place ==> (#[trigger] tools[i]).index != number,
    ensures
        tool_place_from(tools, number, at) == Some(place),
    decreases place - at,
{
    if at < place {
        assert(tools[at].index != number);
        lemma_place_first(tools, number, at + 1, place);
    }
}

/// The tool call that is found is the first with its number.
pub proof fn lemma_place_before(tools: Seq<PendingToolModel>, number: usize, at: int)
    requires
        0 <= at <= tools.len(),
    ensures
        match tool_place_from(tools, number, at) {
            Some(place) => at <= place < tools.len() && tools[place].index == number && forall|i: int|
                at <= i < place ==> (#[trigger] tools[i]).index != number,
            None => forall|i: int| at <= i < tools.len() ==> (#[trigger] tools[i]).index != number,
        },
    decreases tools.len() - at,
{
    if at < tools.len() && tools[at].index != number {
        lemma_place_before(tools, number, at + 1);
    }
}

/// The parts of the state that a fragment of a tool call does not touch.
pub open spec fn only_tools_change(before: ResponseStateModel, after: ResponseStateModel) -> bool {
    after == (ResponseStateModel { tools: after.tools, presented: after.presented, ..before })
}

proof fn lemma_fragment(state: ResponseStateModel, fragment: ToolCallFragmentModel, number: usize)
    ensures
        ({
            let (next, applied) = fragment_step(state, fragment);
            applied is Ok ==> {
                &&& only_tools_change(state, next)
                &&& tools_kept(state.tools, next.tools)
                &&& arguments_of(next.tools, number) == arguments_of(state.tools, number) + fragment_arguments(
                    seq![fragment],
                    0,
                    number,
                )
                &&& id_of(next.tools, number) == first_of(
                    id_of(state.tools, number),
                    fragment_id(seq![fragment], 0, number),
                )
                &&& name_of(next.tools, number) == first_of(
                    name_of(state.tools, number),
                    fragment_name(seq![fragment], 0, number),
                )
                &&& numbered(state.tools) ==> numbered(next.tools)
            }
        }),
{
    let (next, applied) = fragment_step(state, fragment);
    if applied is Ok {
        reveal_with_fuel(fragment_arguments, 2);
        reveal_with_fuel(fragment_id, 2);
        reveal_with_fuel(fragment_name, 2);
        let (tools, place) = with_tool(state.tools, fragment.index);
        lemma_place_before(state.tools, fragment.index, 0);
        lemma_place_before(state.tools, number, 0);
        assert(tools[place].index == fragment.index);
        let after = next.tools;
        assert(after.len() == tools.len());
        assert forall|i: int| 0 <= i < after.len() implies (#[trigger] after[i]).index == tools[i].index by {}
        assert(Seq::<char>::empty() + Seq::<char>::empty() =~= Seq::<char>::empty());
        if number == fragment.index {
            lemma_place_first(after, number, 0, place);
            let before = arguments_of(state.tools, number);
            assert(before + Seq::<char>::empty() =~= before);
            match fragment.function {
                Some(function) => if let Some(text) = function.arguments {
                    assert(text + Seq::<char>::empty() =~= text);
                },
                None => {},
            }
        } else {
            match tool_place_from(state.tools, number, 0) {
                Some(found) => {
                    assert(after[found] == state.tools[found]);
                    lemma_place_first(after, number, 0, found);
                },
                None => {
                    lemma_place_before(after, number, 0);
                    if let Some(found) = tool_place_from(after, number, 0) {
                        assert(tools[found].index == number);
                        assert(found != place);
                    }
                },
            }
            let before = arguments_of(state.tools, number);
            assert(before + Seq::<char>::empty() =~= before);
        }
    }
}

/// What is kept twice is kept.
pub proof fn lemma_kept_on(first: Seq<PendingToolModel>, second: Seq<PendingToolModel>, third: Seq<PendingToolModel>)
    requires
        tools_kept(first, second),
        tools_kept(second, third),
    ensures
        tools_kept(first, third),
{
    assert forall|i: int| 0 <= i < first.len() implies {
        &&& (#[trigger] third[i]).index == first[i].index
        &&& first[i].id is Some ==> third[i].id == first[i].id
        &&& first[i].name is Some ==> third[i].name == first[i].name
    } by {
        assert(second[i].index == first[i].index);
    }
}

proof fn lemma_fragments(state: ResponseStateModel, fragments: Seq<ToolCallFragmentModel>, at: int, number: usize)
    requires
        0 <= at <= fragments.len(),
    ensures
        ({
            let (next, applied) = fragments_step(state, fragments, at);
            applied is Ok ==> {
                &&& only_tools_change(state, next)
                &&& tools_kept(state.tools, next.tools)
                &&& arguments_of(next.tools, number) == arguments_of(state.tools, number) + fragment_arguments(
                    fragments,
                    at,
                    number,
                )
                &&& id_of(next.tools, number) == first_of(
                    id_of(state.tools, number),
                    fragment_id(fragments, at, number),
                )
                &&& name_of(next.tools, number) == first_of(
                    name_of(state.tools, number),
                    fragment_name(fragments, at, number),
                )
                &&& numbered(state.tools) ==> numbered(next.tools)
            }
        }),
    decreases fragments.len() - at,
{
    if at < fragments.len() {
        lemma_fragment(state, fragments[at], number);
        let (next, applied) = fragment_step(state, fragments[at]);
        if applied is Ok {
            lemma_fragments(next, fragments, at + 1, number);
            let (last, ended) = fragments_step(next, fragments, at + 1);
            if ended is Ok {
                lemma_kept_on(state.tools, next.tools, last.tools);
            }
            reveal_with_fuel(fragment_arguments, 2);
            reveal_with_fuel(fragment_id, 2);
            reveal_with_fuel(fragment_name, 2);
            let one = seq![fragments[at]];
            assert(one[0] == fragments[at]);
            let before = arguments_of(state.tools, number);
            let more = fragment_arguments(one, 0, number);
            let rest = fragment_arguments(fragments, at + 1, number);
            assert((before + more) + rest =~= before + (more + rest));
            assert(more + rest =~= fragment_arguments(fragments, at, number));
        }
    } else {
        let before = arguments_of(state.tools, number);
        assert(before + Seq::<char>::empty() =~= before);
    }
}

/// Why the choices from `at` on say that the response ended, or what was said
/// before them.
pub open spec fn end_from<D: DialectHooks>(
    raw: Seq<JsonModel>,
    at: int,
    before: Option<(FinishReason, TerminalOutcome)>,
    context: DialectContextModel,
    dialect: &D,
) -> Option<(FinishReason, TerminalOutcome)>
    decreases raw.len() - at,
{
    if at < 0 || at >= raw.len() {
        before
    } else {
        end_from(
            raw,
            at + 1,
            match member(raw[at], "finish_reason"@) {
                Some(JsonModel::Text(name)) => Some(
                    (
                        finish_reason_named(name)->0,
                        dialect.outcome_for(context, finish_reason_named(name)->0)->Ok_0,
                    ),
                ),
                _ => before,
            },
            context,
            dialect,
        )
    }
}

proof fn lemma_choices<D: DialectHooks>(
    state: ResponseStateModel,
    usage: Option<ChunkUsageModel>,
    choices: Seq<ChunkChoiceModel>,
    raw: Seq<JsonModel>,
    at: int,
    policy: UsageMergePolicy,
    context: DialectContextModel,
    dialect: &D,
    number: usize,
)
    requires
        0 <= at <= choices.len(),
        raw.len() == choices.len(),
    ensures
        ({
            let (next, applied) = choices_step(state, usage, choices, raw, at, policy, context, dialect);
            applied is Ok ==> {
                &&& next.content == state.content + content_from(choices, at)
                &&& next.reasoning == state.reasoning + reasoning_from(choices, at, context, dialect)
                &&& arguments_of(next.tools, number) == arguments_of(state.tools, number) + arguments_from(
                    choices,
                    at,
                    number,
                )
                &&& id_of(next.tools, number) == first_of(id_of(state.tools, number), id_from(choices, at, number))
                &&& name_of(next.tools, number) == first_of(
                    name_of(state.tools, number),
                    name_from(choices, at, number),
                )
                &&& numbered(state.tools) ==> numbered(next.tools)
                &&& tools_kept(state.tools, next.tools)
                &&& next.terminal == end_from(raw, at, state.terminal, context, dialect)
                &&& next.reasoning_provenance == provenance_from(
                    choices,
                    at,
                    state.reasoning_provenance,
                    context,
                    dialect,
                )
                &&& next.response_id == state.response_id
                &&& next.usage == state.usage
                &&& next.done == state.done
                &&& next.recognized == state.recognized
                &&& applied->Ok_0 == usage_from(choices, at, usage)
            }
        }),
    decreases choices.len() - at,
{
    let (next, applied) = choices_step(state, usage, choices, raw, at, policy, context, dialect);
    let none = Seq::<char>::empty();
    if at < choices.len() {
        if applied is Ok {
            let delta = choices[at].delta;
            let (said, _) = spoken_step(state, delta, context, dialect);
            lemma_fragments(said, delta.tool_calls, 0, number);
            let (heard, _) = delta_step(state, delta, context, dialect);
            let (ended, _) = finish_step(heard, raw[at], context, dialect);
            let merged = merged_usage(usage, choices[at].usage, policy)->0;
            lemma_choices(ended, merged, choices, raw, at + 1, policy, context, dialect, number);
            lemma_kept_on(state.tools, ended.tools, next.tools);
            let rest = content_from(choices, at + 1);
            if let Some(text) = delta.content {
                assert((state.content + text) + rest =~= state.content + (text + rest));
            }
            let thought = reasoning_from(choices, at + 1, context, dialect);
            if let Ok(Some(reasoning)) = dialect.delta_for(context, delta.extensions) {
                assert((state.reasoning + reasoning.text) + thought =~= state.reasoning + (reasoning.text + thought));
            }
            let before = arguments_of(state.tools, number);
            let more = fragment_arguments(delta.tool_calls, 0, number);
            let later = arguments_from(choices, at + 1, number);
            assert((before + more) + later =~= before + (more + later));
        }
    } else {
        assert(state.content + none =~= state.content);
        assert(state.reasoning + none =~= state.reasoning);
        assert(arguments_of(state.tools, number) + none =~= arguments_of(state.tools, number));
    }
}

/// A chunk that is taken adds exactly what it holds to the response: its content
/// and its reasoning stand behind what was there, every tool call has its
/// arguments behind those it had, and none is lost or renamed. The usage that the
/// chunk reports is the usage of the response, whatever choices the chunk has, be
/// they none; failing that, the usage of the last choice that reports one; failing
/// that, what it was.
pub proof fn law_a_chunk_adds_what_it_holds<D: DialectHooks>(
    state: ResponseStateModel,
    raw: JsonModel,
    context: DialectContextModel,
    dialect: &D,
    number: usize,
)
    ensures
        ({
            let (next, applied) = chunk_step(state, raw, context, dialect);
            applied is Ok ==> chunk_of(raw) is Ok && {
                let chunk = chunk_of(raw)->Ok_0;
                &&& next.response_id == Some(chunk.id)
                &&& state.response_id is Some ==> state.response_id == Some(chunk.id)
                &&& next.content == state.content + content_from(chunk.choices, 0)
                &&& next.reasoning == state.reasoning + reasoning_from(chunk.choices, 0, context, dialect)
                &&& arguments_of(next.tools, number) == arguments_of(state.tools, number) + arguments_from(
                    chunk.choices,
                    0,
                    number,
                )
                &&& id_of(next.tools, number) == first_of(
                    id_of(state.tools, number),
                    id_from(chunk.choices, 0, number),
                )
                &&& name_of(next.tools, number) == first_of(
                    name_of(state.tools, number),
                    name_from(chunk.choices, 0, number),
                )
                &&& numbered(state.tools) ==> numbered(next.tools)
                &&& tools_kept(state.tools, next.tools)
                &&& chunk.usage is Some ==> next.usage == chunk.usage
                &&& chunk.usage is None ==> next.usage == usage_from(chunk.choices, 0, state.usage)
                &&& member(raw, "choices"@) matches Some(JsonModel::Array(items)) && items.len() == chunk.choices.len()
                    && next.terminal == end_from(items, 0, state.terminal, context, dialect)
                &&& next.reasoning_provenance == provenance_from(
                    chunk.choices,
                    0,
                    state.reasoning_provenance,
                    context,
                    dialect,
                )
                &&& chunk.choices.len() == 0 ==> next.tools == state.tools && next.terminal == state.terminal
                    && next.presented == state.presented
                &&& next.recognized
                &&& next.done == state.done
            }
        }),
{
    let (next, applied) = chunk_step(state, raw, context, dialect);
    if applied is Ok {
        let chunk = chunk_of(raw)->Ok_0;
        let known = id_step(ResponseStateModel { recognized: true, ..state }, chunk.id).0;
        let items = raw_choices(raw, chunk.choices.len())->Ok_0;
        let policy = dialect.policy_for(context)->Ok_0;
        lemma_choices(known, None, chunk.choices, items, 0, policy, context, dialect, number);
        lemma_usage_default(chunk.choices, 0, None, state.usage);
    }
}

proof fn lemma_usage_default(
    choices: Seq<ChunkChoiceModel>,
    at: int,
    first: Option<ChunkUsageModel>,
    second: Option<ChunkUsageModel>,
)
    ensures
        usage_from(choices, at, first) == usage_from(choices, at, second) || (usage_from(choices, at, first) == first
            && usage_from(choices, at, second) == second),
        first is Some ==> usage_from(choices, at, first) is Some,
        usage_from(choices, at, first) is None ==> usage_from(choices, at, second) == second,
    decreases choices.len() - at,
{
    if 0 <= at < choices.len() {
        match choices[at].usage {
            Some(usage) => lemma_usage_default(choices, at + 1, Some(usage), Some(usage)),
            None => lemma_usage_default(choices, at + 1, first, second),
        }
    }
}

// ---- a whole stream ----

/// The bytes of a frame that holds a text.
pub open spec fn frame_of(text: Seq<char>) -> Seq<u8> {
    encode_utf8("data: "@ + text) + seq![10u8, 10u8]
}

/// The bytes of a stream whose frames hold texts.
pub open spec fn stream_of(texts: Seq<Seq<char>>) -> Seq<u8>
    decreases texts.len(),
{
    if texts.len() == 0 {
        Seq::empty()
    } else {
        stream_of(texts.drop_last()) + frame_of(texts.last())
    }
}

/// A response after frames that hold texts, up to the first that fails.
pub open spec fn texts_step<D: DialectHooks>(
    texts: Seq<Seq<char>>,
    context: DialectContextModel,
    dialect: &D,
) -> (ResponseStateModel, Result<(), DecodeErrorModel>)
    decreases texts.len(),
{
    if texts.len() == 0 {
        (fresh_session().state, Ok(()))
    } else {
        let (state, applied) = texts_step(texts.drop_last(), context, dialect);
        match applied {
            Err(error) => (state, Err(error)),
            Ok(_) => frame_step(state, texts.last(), context, dialect),
        }
    }
}

proof fn lemma_line_collected<D: DialectHooks>(
    framing: FramingModel,
    state: ResponseStateModel,
    bytes: Seq<u8>,
    at: int,
    context: DialectContextModel,
    dialect: &D,
)
    requires
        0 <= at <= bytes.len(),
        !framing.skip_lf,
        forall|i: int| 0 <= i < bytes.len() ==> #[trigger] bytes[i] != 10 && bytes[i] != 13,
    ensures
        bytes_step(framing, state, bytes, at, context, dialect) == (
            FramingModel { line: framing.line + bytes.skip(at), ..framing },
            state,
            Ok::<(), DecodeErrorModel>(()),
        ),
    decreases bytes.len() - at,
{
    if at < bytes.len() {
        assert(bytes[at] != 10 && bytes[at] != 13);
        let next = FramingModel { line: framing.line.push(bytes[at]), ..framing };
        assert(byte_step(framing, state, bytes[at], context, dialect).0 == next);
        lemma_line_collected(next, state, bytes, at + 1, context, dialect);
        assert(framing.line.push(bytes[at]) + bytes.skip(at + 1) =~= framing.line + bytes.skip(at));
    } else {
        assert(framing.line + bytes.skip(at) =~= framing.line);
    }
}

#[verifier::spinoff_prover]
#[verifier::rlimit(80)]
proof fn lemma_frame_taken<D: DialectHooks>(
    state: ResponseStateModel,
    text: Seq<char>,
    context: DialectContextModel,
    dialect: &D,
)
    requires
        unbroken(text),
    ensures
        ({
            let framing = fresh_session().framing;
            let (next, applied) = frame_step(state, text, context, dialect);
            bytes_step(framing, state, frame_of(text), 0, context, dialect) == (framing, next, applied)
        }),
{
    let framing = fresh_session().framing;
    let line = "data: "@ + text;
    reveal_strlit("data: ");
    reveal_strlit("data:");
    reveal_strlit(" ");
    reveal_strlit(":");
    assert(unbroken(line)) by {
        assert forall|i: int| 0 <= i < line.len() implies #[trigger] line[i] != '\n' && line[i] != '\r' by {
            if i >= 6 {
                assert(line[i] == text[i - 6]);
            }
        }
    }
    lemma_line_bytes(line);
    let bytes = encode_utf8(line);
    let ends = seq![10u8, 10u8];
    lemma_bytes_cut(framing, state, bytes, ends, 0, context, dialect);
    lemma_line_collected(framing, state, bytes, 0, context, dialect);
    assert(framing.line + bytes.skip(0) =~= bytes);
    let held = FramingModel { line: bytes, ..framing };
    encode_utf8_valid_utf8(line);
    encode_utf8_decode_utf8(line);
    assert(utf8_chars(bytes) == Some(line));
    assert(line.take(1)[0] == line[0]);
    assert(line[0] == 'd');
    assert(!begins_with(line, ":"@)) by {
        assert(":"@[0] == ':');
    }
    assert(line.take(5) =~= "data:"@);
    assert(line.skip(5).take(1) =~= " "@);
    assert(line.skip(5).skip(1) =~= text);
    assert(data_value(line) == Some(text));
    let collected = FramingModel { data: framing.data.push(text), ..framing };
    assert(byte_step(held, state, 10, context, dialect) == (collected, state, Ok::<(), DecodeErrorModel>(())));
    assert(joined(collected.data) == text);
    let (next, applied) = frame_step(state, text, context, dialect);
    let empty = FramingModel { data: Seq::empty(), ..collected };
    assert(empty == framing);
    assert(byte_step(collected, state, 10, context, dialect) == (framing, next, applied));
    reveal_with_fuel(bytes_step, 3);
    assert(bytes_step(held, state, ends, 0, context, dialect) == (framing, next, applied));
}

proof fn lemma_texts_taken<D: DialectHooks>(texts: Seq<Seq<char>>, context: DialectContextModel, dialect: &D)
    requires
        forall|i: int| 0 <= i < texts.len() ==> unbroken(#[trigger] texts[i]),
    ensures
        ({
            let session = fresh_session();
            let (state, applied) = texts_step(texts, context, dialect);
            let taken = bytes_step(session.framing, session.state, stream_of(texts), 0, context, dialect);
            taken == (session.framing, state, applied)
        }),
    decreases texts.len(),
{
    if texts.len() > 0 {
        let session = fresh_session();
        let before = texts.drop_last();
        assert forall|i: int| 0 <= i < before.len() implies unbroken(#[trigger] before[i]) by {
            assert(unbroken(texts[i]));
        }
        lemma_texts_taken(before, context, dialect);
        lemma_bytes_cut(
            session.framing,
            session.state,
            stream_of(before),
            frame_of(texts.last()),
            0,
            context,
            dialect,
        );
        assert(unbroken(texts[texts.len() - 1]));
        let (state, applied) = texts_step(before, context, dialect);
        if applied is Ok {
            lemma_frame_taken(state, texts.last(), context, dialect);
        }
    }
}

/// A stream of frames starts with the first of them.
pub proof fn lemma_stream_starts(texts: Seq<Seq<char>>)
    requires
        texts.len() > 0,
    ensures
        stream_of(texts).len() > 0,
        stream_of(texts)[0] == 100,
    decreases texts.len(),
{
    if texts.len() > 1 {
        lemma_stream_starts(texts.drop_last());
    } else {
        assert(texts.drop_last() =~= Seq::empty());
        let line = "data: "@ + texts.last();
        reveal_strlit("data: ");
        assert(line[0] == 'd');
        assert(encode_utf8(line) == encode_scalar('d' as u32) + encode_utf8(line.drop_first()));
        lemma_scalar_bytes('d' as u32);
        assert(stream_of(texts.drop_last()) =~= Seq::empty());
    }
}

/// A stream of plain frames is taken frame by frame: it fails as the first frame
/// that fails, and gives the response that its frames leave.
pub proof fn law_plain_frames_are_taken_in_order<D: DialectHooks>(
    texts: Seq<Seq<char>>,
    metadata: ResponseMetadataModel,
    context: DialectContextModel,
    dialect: &D,
)
    requires
        texts.len() > 0,
        forall|i: int| 0 <= i < texts.len() ==> unbroken(#[trigger] texts[i]),
    ensures
        ({
            let (state, applied) = texts_step(texts, context, dialect);
            decoded_stream(seq![stream_of(texts)], metadata, context, dialect) == match applied {
                Err(error) => Err(error),
                Ok(_) => finished(state, metadata, context, dialect),
            }
        }),
{
    let bytes = stream_of(texts);
    let session = fresh_session();
    lemma_stream_starts(texts);
    assert(!all_blank(bytes)) by {
        assert(!is_blank(bytes[0]));
    }
    lemma_texts_taken(texts, context, dialect);
    reveal_with_fuel(fragments_fed, 3);
    assert(seq![bytes][0] == bytes);
}

/// The chunk that a text holds.
pub open spec fn chunk_in(text: Seq<char>) -> ChatCompletionChunkModel {
    chunk_of(json_parse(text)->Ok_0)->Ok_0
}

/// The content of chunks, one after another.
pub open spec fn content_in(texts: Seq<Seq<char>>) -> Seq<char>
    decreases texts.len(),
{
    if texts.len() == 0 {
        Seq::empty()
    } else {
        content_in(texts.drop_last()) + content_from(chunk_in(texts.last()).choices, 0)
    }
}

/// The reasoning of chunks, one after another.
pub open spec fn reasoning_in<D: DialectHooks>(
    texts: Seq<Seq<char>>,
    context: DialectContextModel,
    dialect: &D,
) -> Seq<char>
    decreases texts.len(),
{
    if texts.len() == 0 {
        Seq::empty()
    } else {
        reasoning_in(texts.drop_last(), context, dialect) + reasoning_from(
            chunk_in(texts.last()).choices,
            0,
            context,
            dialect,
        )
    }
}

/// The arguments that chunks give the tool call with a number, one after another.
pub open spec fn arguments_in(texts: Seq<Seq<char>>, number: usize) -> Seq<char>
    decreases texts.len(),
{
    if texts.len() == 0 {
        Seq::empty()
    } else {
        arguments_in(texts.drop_last(), number) + arguments_from(chunk_in(texts.last()).choices, 0, number)
    }
}

/// The id that chunks give the tool call with a number.
pub open spec fn id_in(texts: Seq<Seq<char>>, number: usize) -> Option<Seq<char>>
    decreases texts.len(),
{
    if texts.len() == 0 {
        None
    } else {
        first_of(id_in(texts.drop_last(), number), id_from(chunk_in(texts.last()).choices, 0, number))
    }
}

/// The name that chunks give the tool call with a number.
pub open spec fn name_in(texts: Seq<Seq<char>>, number: usize) -> Option<Seq<char>>
    decreases texts.len(),
{
    if texts.len() == 0 {
        None
    } else {
        first_of(name_in(texts.drop_last(), number), name_from(chunk_in(texts.last()).choices, 0, number))
    }
}

/// The last usage that chunks report: the chunk itself, or else a choice of it.
pub open spec fn usage_in(texts: Seq<Seq<char>>) -> Option<ChunkUsageModel>
    decreases texts.len(),
{
    if texts.len() == 0 {
        None
    } else {
        let chunk = chunk_in(texts.last());
        if chunk.usage is Some {
            chunk.usage
        } else {
            usage_from(chunk.choices, 0, usage_in(texts.drop_last()))
        }
    }
}

/// Why the chunks say that the response ended.
pub open spec fn end_in<D: DialectHooks>(
    texts: Seq<Seq<char>>,
    context: DialectContextModel,
    dialect: &D,
) -> Option<(FinishReason, TerminalOutcome)>
    decreases texts.len(),
{
    if texts.len() == 0 {
        None
    } else {
        end_from(
            member(json_parse(texts.last())->Ok_0, "choices"@)->0->Array_0,
            0,
            end_in(texts.drop_last(), context, dialect),
            context,
            dialect,
        )
    }
}

spec fn holds_chunks<D: DialectHooks>(
    state: ResponseStateModel,
    texts: Seq<Seq<char>>,
    number: usize,
    context: DialectContextModel,
    dialect: &D,
) -> bool {
    &&& state.content == content_in(texts)
    &&& state.reasoning == reasoning_in(texts, context, dialect)
    &&& arguments_of(state.tools, number) == arguments_in(texts, number)
    &&& id_of(state.tools, number) == id_in(texts, number)
    &&& name_of(state.tools, number) == name_in(texts, number)
    &&& numbered(state.tools)
    &&& state.usage == usage_in(texts)
    &&& state.terminal == end_in(texts, context, dialect)
    &&& texts.len() == 0 ==> state.response_id is None
    &&& forall|i: int| 0 <= i < texts.len() ==> state.response_id == Some((#[trigger] chunk_in(texts[i])).id)
    &&& forall|i: int|
        0 <= i < texts.len() ==> json_parse(#[trigger] texts[i]) is Ok && chunk_of(json_parse(texts[i])->Ok_0) is Ok
}

proof fn lemma_holds_chunks<D: DialectHooks>(
    texts: Seq<Seq<char>>,
    number: usize,
    context: DialectContextModel,
    dialect: &D,
)
    ensures
        ({
            let (state, applied) = texts_step(texts, context, dialect);
            applied is Ok ==> if state.done {
                texts.len() > 0 && texts.last() == "[DONE]"@ && holds_chunks(
                    state,
                    texts.drop_last(),
                    number,
                    context,
                    dialect,
                )
            } else {
                holds_chunks(state, texts, number, context, dialect)
            }
        }),
    decreases texts.len(),
{
    let (state, applied) = texts_step(texts, context, dialect);
    if texts.len() > 0 && applied is Ok {
        let before = texts.drop_last();
        lemma_holds_chunks(before, number, context, dialect);
        let (was, _) = texts_step(before, context, dialect);
        if !state.done {
            let raw = json_parse(texts.last())->Ok_0;
            law_a_chunk_adds_what_it_holds(was, raw, context, dialect, number);
            assert forall|i: int| 0 <= i < texts.len() implies state.response_id == Some(
                (#[trigger] chunk_in(texts[i])).id,
            ) by {
                if i < before.len() {
                    assert(was.response_id == Some(chunk_in(before[i]).id));
                }
            }
            assert forall|i: int| 0 <= i < texts.len() implies json_parse(#[trigger] texts[i]) is Ok && chunk_of(
                json_parse(texts[i])->Ok_0,
            ) is Ok by {
                if i < before.len() {
                    assert(json_parse(before[i]) is Ok);
                }
            }
        } else if texts.last() != "[DONE]"@ {
            law_a_chunk_adds_what_it_holds(was, json_parse(texts.last())->Ok_0, context, dialect, number);
        }
    }
}

/// Whether a call is what chunks give the tool call with a number.
pub open spec fn call_in(call: ToolCallModel, texts: Seq<Seq<char>>, number: usize) -> bool {
    &&& id_in(texts, number) == Some(call.id)
    &&& name_in(texts, number) == Some(call.function.name)
    &&& call.function.arguments == arguments_in(texts, number)
}

/// Whether a call is what chunks give some tool call.
pub open spec fn comes_from(call: ToolCallModel, texts: Seq<Seq<char>>) -> bool {
    exists|number: usize| call_in(call, texts, number)
}

/// Whether the tool call that chunks give a number is among calls.
pub open spec fn is_among(calls: Seq<ToolCallModel>, texts: Seq<Seq<char>>, number: usize) -> bool {
    exists|i: int| 0 <= i < calls.len() && call_in(#[trigger] calls[i], texts, number)
}

proof fn lemma_complete(tools: Seq<PendingToolModel>, at: int, done: Seq<ToolCallModel>)
    requires
        0 <= at <= tools.len(),
        done.len() == at,
        forall|i: int|
            0 <= i < at ==> {
                &&& tools[i].id == Some((#[trigger] done[i]).id)
                &&& tools[i].name == Some(done[i].function.name)
                &&& tools[i].arguments == done[i].function.arguments
            },
    ensures
        complete_from(tools, at, done) matches Ok(calls) ==> calls.len() == tools.len() && forall|i: int|
            0 <= i < tools.len() ==> {
                &&& tools[i].id == Some((#[trigger] calls[i]).id)
                &&& tools[i].name == Some(calls[i].function.name)
                &&& tools[i].arguments == calls[i].function.arguments
            },
    decreases tools.len() - at,
{
    if at < tools.len() {
        if let Ok(call) = complete_tool(tools[at]) {
            lemma_complete(tools, at + 1, done.push(call));
        }
    }
}

/// What a stream of chunks decodes to is what the chunks hold. The last frame
/// announces the end and every other holds a chunk of one response, whose id it
/// has. Its content and its reasoning are those of the chunks one after another,
/// its usage is the last that a chunk reports, its end the one that they give,
/// and every tool call has the id and the name that the chunks give it, and the
/// arguments that they give it one after another.
pub proof fn law_a_response_holds_what_its_chunks_do<D: DialectHooks>(
    texts: Seq<Seq<char>>,
    metadata: ResponseMetadataModel,
    context: DialectContextModel,
    dialect: &D,
)
    requires
        texts.len() > 0,
        forall|i: int| 0 <= i < texts.len() ==> unbroken(#[trigger] texts[i]),
    ensures
        decoded_stream(seq![stream_of(texts)], metadata, context, dialect) matches Ok(decoded) ==> {
            let chunks = texts.drop_last();
            &&& texts.last() == "[DONE]"@
            &&& forall|i: int| 0 <= i < chunks.len() ==> (#[trigger] chunk_in(chunks[i])).id == decoded.response_id
            &&& decoded.usage == usage_in(chunks)
            &&& end_in(chunks, context, dialect) is Some
            &&& decoded.terminal_outcome == (end_in(chunks, context, dialect)->0).1
            &&& decoded.metadata == metadata
            &&& decoded.pending matches Some(pending) ==> {
                &&& pending.content == content_in(chunks)
                &&& pending.reasoning == reasoning_in(chunks, context, dialect)
                &&& forall|i: int|
                    0 <= i < pending.tool_calls.len() ==> comes_from(#[trigger] pending.tool_calls[i], chunks)
                &&& forall|number: usize| (#[trigger] id_in(chunks, number)) is Some ==> is_among(
                    pending.tool_calls,
                    chunks,
                    number,
                )
            }
        },
{
    law_plain_frames_are_taken_in_order(texts, metadata, context, dialect);
    if let Ok(decoded) = decoded_stream(seq![stream_of(texts)], metadata, context, dialect) {
        let chunks = texts.drop_last();
        let (state, _) = texts_step(texts, context, dialect);
        lemma_holds_chunks(texts, 0, context, dialect);
        lemma_complete(state.tools, 0, Seq::empty());
        assert forall|i: int| 0 <= i < chunks.len() implies (#[trigger] chunk_in(chunks[i])).id == decoded.response_id by {
            assert(state.response_id == Some(chunk_in(chunks[i]).id));
        }
        if let Some(pending) = decoded.pending {
            let calls = pending.tool_calls;
            assert forall|i: int| 0 <= i < calls.len() implies comes_from(#[trigger] calls[i], chunks) by {
                let number = state.tools[i].index;
                lemma_holds_chunks(texts, number, context, dialect);
                lemma_place_first(state.tools, number, 0, i);
                assert(state.tools[i].id == Some(calls[i].id));
                assert(call_in(calls[i], chunks, number));
            }
            assert forall|number: usize| (#[trigger] id_in(chunks, number)) is Some implies is_among(calls, chunks, number) by {
                lemma_holds_chunks(texts, number, context, dialect);
                lemma_place_before(state.tools, number, 0);
                let i = tool_place_from(state.tools, number, 0)->0;
                assert(state.tools[i].id == Some(calls[i].id));
                assert(call_in(calls[i], chunks, number));
            }
        }
    }
}

proof fn lemma_one_report(texts: Seq<Seq<char>>, at: int)
    requires
        0 <= at < texts.len(),
        chunk_in(texts[at]).usage is Some,
        forall|i: int|
            at < i < texts.len() ==> (#[trigger] chunk_in(texts[i])).usage is None && forall|j: int|
                0 <= j < chunk_in(texts[i]).choices.len() ==> (#[trigger] chunk_in(texts[i]).choices[j]).usage is None,
    ensures
        usage_in(texts) == chunk_in(texts[at]).usage,
    decreases texts.len(),
{
    if at < texts.len() - 1 {
        let before = texts.drop_last();
        let last = chunk_in(texts[texts.len() - 1]);
        assert forall|i: int| at < i < before.len() implies (#[trigger] chunk_in(before[i])).usage is None && forall|
            j: int,
        |
            0 <= j < chunk_in(before[i]).choices.len() ==> (#[trigger] chunk_in(before[i]).choices[j]).usage is None by {
            assert(chunk_in(texts[i]).usage is None);
        }
        lemma_one_report(before, at);
        assert(last.usage is None);
        lemma_no_report(last.choices, 0, usage_in(before));
    }
}

proof fn lemma_no_report(choices: Seq<ChunkChoiceModel>, at: int, before: Option<ChunkUsageModel>)
    requires
        0 <= at <= choices.len(),
        forall|j: int| 0 <= j < choices.len() ==> (#[trigger] choices[j]).usage is None,
    ensures
        usage_from(choices, at, before) == before,
    decreases choices.len() - at,
{
    if at < choices.len() {
        assert(choices[at].usage is None);
        lemma_no_report(choices, at + 1, before);
    }
}

/// A response has the usage that a chunk of it reports, where no later one
/// reports any: be it the last chunk, or one without choices.
pub proof fn law_a_reported_usage_is_kept<D: DialectHooks>(
    texts: Seq<Seq<char>>,
    at: int,
    metadata: ResponseMetadataModel,
    context: DialectContextModel,
    dialect: &D,
)
    requires
        forall|i: int| 0 <= i < texts.len() ==> unbroken(#[trigger] texts[i]),
        0 <= at < texts.len() - 1,
        chunk_in(texts[at]).usage is Some,
        forall|i: int|
            at < i < texts.len() - 1 ==> (#[trigger] chunk_in(texts[i])).usage is None && forall|j: int|
                0 <= j < chunk_in(texts[i]).choices.len() ==> (#[trigger] chunk_in(texts[i]).choices[j]).usage is None,
    ensures
        decoded_stream(seq![stream_of(texts)], metadata, context, dialect) matches Ok(decoded) ==> decoded.usage
            == chunk_in(texts[at]).usage,
{
    law_a_response_holds_what_its_chunks_do(texts, metadata, context, dialect);
    let chunks = texts.drop_last();
    assert forall|i: int| at < i < chunks.len() implies (#[trigger] chunk_in(chunks[i])).usage is None && forall|j: int|
        0 <= j < chunk_in(chunks[i]).choices.len() ==> (#[trigger] chunk_in(chunks[i]).choices[j]).usage is None by {
        assert(chunk_in(texts[i]).usage is None);
    }
    lemma_one_report(chunks, at);
}

// ---- when a response is taken ----

/// Whether a tool call is complete: it has an id, a name and a JSON object for
/// arguments.
pub open spec fn is_complete(tool: PendingToolModel) -> bool {
    &&& tool.id is Some
    &&& tool.name is Some
    &&& json_parse(tool.arguments) matches Ok(JsonModel::Object(_))
}

proof fn lemma_all_complete(tools: Seq<PendingToolModel>, at: int, done: Seq<ToolCallModel>)
    requires
        0 <= at <= tools.len(),
        done.len() == at,
    ensures
        complete_from(tools, at, done) is Ok <==> forall|i: int|
            at <= i < tools.len() ==> is_complete(#[trigger] tools[i]),
        complete_from(tools, at, done) matches Ok(calls) ==> calls.len() == tools.len(),
    decreases tools.len() - at,
{
    if at < tools.len() {
        if let Ok(call) = complete_tool(tools[at]) {
            lemma_all_complete(tools, at + 1, done.push(call));
        }
    }
}

/// A response is there if and only if a chunk came and the end was announced, every
/// tool call is complete, and it ended in a way that fits what it holds: in text or
/// reasoning and no calls where it is complete or to be gone on from, in calls where
/// tools are to run, in anything where it was cut off or refused. What it used is
/// detailed as its dialect does, and in zeros where nothing was reported. What it
/// holds is pending if and only if it ended well.
pub proof fn law_when_a_response_is_there<D: DialectHooks>(
    state: ResponseStateModel,
    metadata: ResponseMetadataModel,
    context: DialectContextModel,
    dialect: &D,
)
    ensures
        ({
            let response = finished(state, metadata, context, dialect);
            let end = (state.terminal->0).1;
            let fits = match end {
                TerminalOutcome::Completed => state.tools.len() == 0 && state.content.len() + state.reasoning.len() > 0,
                TerminalOutcome::Continue => state.tools.len() == 0 && state.content.len() + state.reasoning.len() > 0,
                TerminalOutcome::ToolsReady => state.tools.len() > 0,
                TerminalOutcome::OutputExhausted => true,
                TerminalOutcome::Refusal => true,
            };
            &&& response is Ok <==> state.recognized && state.done && (forall|i: int|
                0 <= i < state.tools.len() ==> is_complete(#[trigger] state.tools[i])) && state.terminal is Some && fits
                && (state.usage is Some ==> dialect.details_for(context, state.usage->0) is Ok)
            &&& response matches Ok(decoded) ==> {
                &&& decoded.terminal_outcome == end
                &&& decoded.usage == state.usage
                &&& state.usage is None ==> decoded.usage_details.cached_prompt_tokens == 0
                    && decoded.usage_details.reasoning_tokens == 0
                &&& state.usage is Some ==> Ok::<UsageDetails, DialectErrorModel>(decoded.usage_details)
                    == dialect.details_for(context, state.usage->0)
                &&& decoded.metadata == metadata
                &&& state.response_id is Some ==> decoded.response_id == state.response_id->0
                &&& decoded.pending is Some <==> end is Completed || end is Continue || end is ToolsReady
                &&& decoded.pending matches Some(pending) ==> pending.content == state.content && pending.reasoning
                    == state.reasoning && pending.reasoning_provenance == state.reasoning_provenance
                    && pending.tool_calls.len() == state.tools.len()
            }
            &&& !state.recognized || !state.done ==> response is Err && response->Err_0 is PrematureEof
        }),
{
    lemma_all_complete(state.tools, 0, Seq::empty());
}

/// A chunk without choices is taken where it is of the same response and reports
/// nothing that the response contradicts: it changes nothing but what it reports,
/// its id where that was not known, and that a chunk came. A usage that differs from
/// the one before stands in its place where the dialect prefers the latest, and is a
/// conflict where it wants them identical.
pub proof fn law_a_chunk_may_only_report<D: DialectHooks>(
    state: ResponseStateModel,
    raw: JsonModel,
    id: Seq<char>,
    usage: Option<ChunkUsageModel>,
    context: DialectContextModel,
    dialect: &D,
)
    requires
        chunk_of(raw) == Ok::<ChatCompletionChunkModel, Seq<char>>(
            ChatCompletionChunkModel { id, choices: Seq::empty(), usage },
        ),
        member(raw, "choices"@) matches Some(JsonModel::Array(items)) && items.len() == 0,
        dialect.policy_for(context) is Ok,
        state.response_id is None || state.response_id == Some(id),
    ensures
        ({
            let (next, applied) = chunk_step(state, raw, context, dialect);
            let policy = dialect.policy_for(context)->Ok_0;
            let conflict = state.usage is Some && usage is Some && state.usage != usage && policy is RequireIdentical;
            &&& applied is Ok <==> !conflict
            &&& conflict ==> applied == Err::<(), _>(DecodeErrorModel::ConflictingUsage)
            &&& !conflict ==> next == (ResponseStateModel {
                recognized: true,
                response_id: Some(id),
                usage: if usage is Some {
                    usage
                } else {
                    state.usage
                },
                ..state
            })
        }),
{
}

/// A chunk of another response is refused, and so is one that goes on after the end
/// was given: with the same end it is a second one, with another or none a conflict.
pub proof fn law_one_response_ends_once<D: DialectHooks>(
    state: ResponseStateModel,
    raw: JsonModel,
    context: DialectContextModel,
    dialect: &D,
)
    ensures
        ({
            let (next, applied) = chunk_step(state, raw, context, dialect);
            let chunk = chunk_of(raw)->Ok_0;
            &&& chunk_of(raw) is Ok && state.response_id is Some && state.response_id != Some(chunk.id) ==> applied
                is Err && applied->Err_0 is InvalidTransition
            &&& applied is Ok && chunk.choices.len() > 0 ==> state.terminal is None && chunk.choices[0].index == 0
            &&& chunk_of(raw) is Err ==> applied is Err && applied->Err_0 is MalformedChunk
        }),
{
}

/// A response that was never told why it ended is refused: as one that was told null
/// where it was, and else as one that was told nothing. Null is no end, and neither is
/// silence; what is no known reason is refused.
pub proof fn law_an_end_must_be_told<D: DialectHooks>(
    state: ResponseStateModel,
    choice: JsonModel,
    metadata: ResponseMetadataModel,
    context: DialectContextModel,
    dialect: &D,
)
    ensures
        ({
            let (next, applied) = finish_step(state, choice, context, dialect);
            let reason = member(choice, "finish_reason"@);
            &&& reason is None ==> applied is Ok && next == state
            &&& reason == Some(JsonModel::Null) ==> applied is Ok && next.null_finish && next.terminal == state.terminal
            &&& reason matches Some(JsonModel::Text(name)) ==> match finish_reason_named(name) {
                None => applied == Err::<(), _>(DecodeErrorModel::UnknownFinishReason(name)),
                Some(known) => match dialect.outcome_for(context, known) {
                    Ok(end) => applied is Ok && next.terminal == Some((known, end)),
                    Err(error) => applied == Err::<(), _>(DecodeErrorModel::Dialect(error)),
                },
            }
        }),
        state.recognized && state.done && state.terminal is None && (forall|i: int|
            0 <= i < state.tools.len() ==> is_complete(#[trigger] state.tools[i])) ==> finished(
            state,
            metadata,
            context,
            dialect,
        ) == Err::<DecodedStreamModel, _>(
            if state.null_finish {
                DecodeErrorModel::NullFinishReason
            } else {
                DecodeErrorModel::MissingFinishReason
            },
        ),
{
    lemma_all_complete(state.tools, 0, Seq::empty());
}

proof fn lemma_reasons()
    ensures
        "stop"@ != "tool_calls"@,
        "stop"@ != "function_call"@,
        "stop"@ != "length"@,
        "stop"@ != "max_tokens"@,
        "stop"@ != "content_filter"@,
        "tool_calls"@ != "function_call"@,
        "tool_calls"@ != "length"@,
        "tool_calls"@ != "max_tokens"@,
        "tool_calls"@ != "content_filter"@,
        "function_call"@ != "length"@,
        "function_call"@ != "max_tokens"@,
        "function_call"@ != "content_filter"@,
        "length"@ != "max_tokens"@,
        "length"@ != "content_filter"@,
        "max_tokens"@ != "content_filter"@,
{
    reveal_strlit("stop");
    reveal_strlit("tool_calls");
    reveal_strlit("function_call");
    reveal_strlit("length");
    reveal_strlit("max_tokens");
    reveal_strlit("content_filter");
    assert("stop"@.len() != "tool_calls"@.len());
    assert("stop"@.len() != "function_call"@.len());
    assert("stop"@.len() != "length"@.len());
    assert("stop"@.len() != "max_tokens"@.len());
    assert("stop"@.len() != "content_filter"@.len());
    assert("tool_calls"@.len() != "function_call"@.len());
    assert("tool_calls"@.len() != "length"@.len());
    assert("tool_calls"@[0] != "max_tokens"@[0]);
    assert("tool_calls"@.len() != "content_filter"@.len());
    assert("function_call"@.len() != "length"@.len());
    assert("function_call"@.len() != "max_tokens"@.len());
    assert("function_call"@.len() != "content_filter"@.len());
    assert("length"@.len() != "max_tokens"@.len());
    assert("length"@.len() != "content_filter"@.len());
    assert("max_tokens"@.len() != "content_filter"@.len());
}

/// Each reason to stop has a name of its own, and nothing else is one.
pub proof fn law_reasons_have_names(name: Seq<char>)
    ensures
        finish_reason_named(name) == Some(FinishReason::Stop) <==> name == "stop"@,
        finish_reason_named(name) == Some(FinishReason::ToolCalls) <==> name == "tool_calls"@,
        finish_reason_named(name) == Some(FinishReason::FunctionCall) <==> name == "function_call"@,
        finish_reason_named(name) == Some(FinishReason::Length) <==> name == "length"@,
        finish_reason_named(name) == Some(FinishReason::MaxTokens) <==> name == "max_tokens"@,
        finish_reason_named(name) == Some(FinishReason::ContentFilter) <==> name == "content_filter"@,
{
    lemma_reasons();
}

// ---- what is shown on the way ----

/// Whether a delta of a tool call is shown under the id and the name of the call.
pub open spec fn under_its_name(delta: PresentationDeltaModel, tools: Seq<PendingToolModel>) -> bool {
    delta matches PresentationDeltaModel::Tool { index, id, name, .. } ==> id_of(tools, index) == Some(id) && name_of(
        tools,
        index,
    ) == Some(name)
}

/// Whether every delta of a tool call was shown under the id and the name of the call.
pub open spec fn all_under_their_names(state: ResponseStateModel) -> bool {
    &&& forall|i: int| 0 <= i < state.presented.len() ==> under_its_name(#[trigger] state.presented[i], state.tools)
    &&& forall|i: int|
        0 <= i < state.tools.len() && (#[trigger] state.tools[i]).presented ==> state.tools[i].id is Some
            && state.tools[i].name is Some
    &&& numbered(state.tools)
}

proof fn lemma_fragment_named(state: ResponseStateModel, fragment: ToolCallFragmentModel)
    requires
        all_under_their_names(state),
    ensures
        fragment_step(state, fragment).1 is Ok ==> all_under_their_names(fragment_step(state, fragment).0),
{
    let (next, applied) = fragment_step(state, fragment);
    if applied is Ok {
        let index = fragment.index;
        lemma_fragment(state, fragment, index);
        let (tools, place) = with_tool(state.tools, index);
        lemma_place_before(state.tools, index, 0);
        lemma_place_first(next.tools, index, 0, place);
        let grown = next.tools[place];
        assert(id_of(next.tools, index) == grown.id);
        assert(name_of(next.tools, index) == grown.name);
        assert forall|i: int| 0 <= i < next.presented.len() implies under_its_name(
            #[trigger] next.presented[i],
            next.tools,
        ) by {
            if i < state.presented.len() {
                assert(next.presented[i] == state.presented[i]);
                assert(under_its_name(state.presented[i], state.tools));
                if let PresentationDeltaModel::Tool { index: other, .. } = state.presented[i] {
                    lemma_fragment(state, fragment, other);
                }
            } else {
                assert(tools[place].presented ==> tools[place].id is Some && tools[place].name is Some);
            }
        }
        assert forall|i: int| 0 <= i < next.tools.len() && (#[trigger] next.tools[i]).presented implies
            next.tools[i].id is Some && next.tools[i].name is Some by {
            if i != place {
                assert(next.tools[i] == state.tools[i]);
            } else {
                assert(tools[place].presented ==> tools[place].id is Some && tools[place].name is Some);
            }
        }
    }
}

proof fn lemma_fragments_named(state: ResponseStateModel, fragments: Seq<ToolCallFragmentModel>, at: int)
    requires
        all_under_their_names(state),
    ensures
        fragments_step(state, fragments, at).1 is Ok ==> all_under_their_names(
            fragments_step(state, fragments, at).0,
        ),
    decreases fragments.len() - at,
{
    if 0 <= at < fragments.len() {
        lemma_fragment_named(state, fragments[at]);
        let (next, applied) = fragment_step(state, fragments[at]);
        if applied is Ok {
            lemma_fragments_named(next, fragments, at + 1);
        }
    }
}

proof fn lemma_choices_named<D: DialectHooks>(
    state: ResponseStateModel,
    usage: Option<ChunkUsageModel>,
    choices: Seq<ChunkChoiceModel>,
    raw: Seq<JsonModel>,
    at: int,
    policy: UsageMergePolicy,
    context: DialectContextModel,
    dialect: &D,
)
    requires
        all_under_their_names(state),
    ensures
        ({
            let (next, applied) = choices_step(state, usage, choices, raw, at, policy, context, dialect);
            applied is Ok ==> all_under_their_names(next)
        }),
    decreases choices.len() - at,
{
    let (next, applied) = choices_step(state, usage, choices, raw, at, policy, context, dialect);
    if 0 <= at < choices.len() && applied is Ok {
        let delta = choices[at].delta;
        let (said, _) = spoken_step(state, delta, context, dialect);
        assert(all_under_their_names(said)) by {
            assert forall|i: int| 0 <= i < said.presented.len() implies under_its_name(
                #[trigger] said.presented[i],
                said.tools,
            ) by {
                if i < state.presented.len() {
                    assert(said.presented[i] == state.presented[i]);
                }
            }
        }
        lemma_fragments_named(said, delta.tool_calls, 0);
        let (heard, _) = delta_step(state, delta, context, dialect);
        let (ended, _) = finish_step(heard, raw[at], context, dialect);
        assert(all_under_their_names(ended));
        let merged = merged_usage(usage, choices[at].usage, policy)->0;
        lemma_choices_named(ended, merged, choices, raw, at + 1, policy, context, dialect);
    }
}

/// Every delta of a tool call is shown under the id and the name of the call, whatever
/// frames came.
pub proof fn law_calls_are_shown_under_their_names<D: DialectHooks>(
    texts: Seq<Seq<char>>,
    context: DialectContextModel,
    dialect: &D,
)
    ensures
        ({
            let (state, applied) = texts_step(texts, context, dialect);
            applied is Ok ==> all_under_their_names(state)
        }),
    decreases texts.len(),
{
    let (state, applied) = texts_step(texts, context, dialect);
    if texts.len() > 0 && applied is Ok {
        law_calls_are_shown_under_their_names(texts.drop_last(), context, dialect);
        let (was, _) = texts_step(texts.drop_last(), context, dialect);
        if texts.last() != "[DONE]"@ {
            let raw = json_parse(texts.last())->Ok_0;
            let chunk = chunk_of(raw)->Ok_0;
            let known = id_step(ResponseStateModel { recognized: true, ..was }, chunk.id).0;
            let items = raw_choices(raw, chunk.choices.len())->Ok_0;
            let policy = dialect.policy_for(context)->Ok_0;
            assert(all_under_their_names(known));
            lemma_choices_named(known, None, chunk.choices, items, 0, policy, context, dialect);
        }
    }
}

// ---- lines ----

/// A comment is passed over, data waits for the end of its frame behind the data that
/// came before it, and any other line is refused. An empty line ends a frame.
pub proof fn law_lines_are_told_apart<D: DialectHooks>(
    framing: FramingModel,
    state: ResponseStateModel,
    line: Seq<char>,
    context: DialectContextModel,
    dialect: &D,
)
    requires
        line.len() > 0,
        framing.line == encode_utf8(line),
        framing.line.len() > 0,
    ensures
        ({
            let (next, after, applied) = line_step(framing, state, context, dialect);
            &&& after == state
            &&& next.line.len() == 0
            &&& line[0] == ':' ==> applied is Ok && next.data == framing.data
            &&& begins_with(line, "data: "@) ==> applied is Ok && next.data == framing.data.push(line.skip(6))
            &&& begins_with(line, "data:"@) && !begins_with(line, "data: "@) ==> applied is Ok && next.data
                == framing.data.push(line.skip(5))
            &&& line[0] != ':' && !begins_with(line, "data:"@) ==> applied is Err && applied->Err_0 is MalformedFraming
                && next.data == framing.data
        }),
{
    encode_utf8_valid_utf8(line);
    encode_utf8_decode_utf8(line);
    reveal_strlit(":");
    reveal_strlit("data:");
    reveal_strlit("data: ");
    reveal_strlit(" ");
    assert(begins_with(line, ":"@) <==> line[0] == ':') by {
        assert(line.take(1)[0] == line[0]);
        if line[0] == ':' {
            assert(line.take(1) =~= ":"@);
        }
    }
    if begins_with(line, "data:"@) {
        assert(line.take(5)[0] == line[0]);
        let rest = line.skip(5);
        if begins_with(rest, " "@) {
            assert(rest.take(1)[0] == rest[0]);
            assert(line.take(6) =~= "data: "@) by {
                assert forall|i: int| 0 <= i < 6 implies line.take(6)[i] == "data: "@[i] by {
                    if i < 5 {
                        assert(line.take(5)[i] == "data:"@[i]);
                    }
                }
            }
            assert(rest.skip(1) =~= line.skip(6));
        }
    }
    if begins_with(line, "data: "@) {
        assert(line.take(5) =~= "data:"@) by {
            assert forall|i: int| 0 <= i < 5 implies line.take(5)[i] == "data:"@[i] by {
                assert(line.take(6)[i] == "data: "@[i]);
            }
        }
        assert(line.take(6)[5] == ' ');
        assert(line.skip(5).take(1) =~= " "@);
    }
}

/// A line feed, a carriage return and both end a line alike: the line feed that follows
/// a carriage return changes nothing. An empty line ends a frame, whose data is all its
/// lines.
pub proof fn law_line_ends_are_alike<D: DialectHooks>(
    framing: FramingModel,
    state: ResponseStateModel,
    context: DialectContextModel,
    dialect: &D,
)
    requires
        !framing.skip_lf,
    ensures
        ({
            let (fed, fed_state, fed_well) = byte_step(framing, state, 10, context, dialect);
            let (back, back_state, back_well) = byte_step(framing, state, 13, context, dialect);
            let (both, both_state, both_well) = byte_step(back, back_state, 10, context, dialect);
            &&& back_state == fed_state && back_well == fed_well
            &&& back.line == fed.line && back.data == fed.data
            &&& fed_well is Ok && !fed.skip_lf ==> (both, both_state, both_well) == (fed, fed_state, fed_well)
            &&& framing.line.len() == 0 && framing.data.len() > 0 ==> (fed_state, fed_well) == frame_step(
                state,
                joined(framing.data),
                context,
                dialect,
            ) && fed.data.len() == 0
            &&& framing.line.len() == 0 && framing.data.len() == 0 ==> fed_state == state && fed_well is Ok
        }),
{
}

// ---- what does not fit ----

/// A part of a tool call is taken if and only if it is of a function and agrees with the
/// id and the name that the call has, where it has them; the call then has those of the
/// part.
pub proof fn law_parts_of_a_call_agree(state: ResponseStateModel, fragment: ToolCallFragmentModel)
    ensures
        ({
            let (next, applied) = fragment_step(state, fragment);
            let number = fragment.index;
            let name = if fragment.function is Some {
                fragment.function->0.name
            } else {
                None
            };
            let id_fits = fragment.id is None || id_of(state.tools, number) is None || id_of(state.tools, number)
                == fragment.id;
            let name_fits = name is None || name_of(state.tools, number) is None || name_of(state.tools, number) == name;
            let kind_fits = fragment.kind is None || fragment.kind == Some("function"@);
            &&& applied is Ok <==> id_fits && name_fits && kind_fits
            &&& applied is Ok && fragment.id is Some ==> id_of(next.tools, number) == fragment.id
            &&& applied is Ok && name is Some ==> name_of(next.tools, number) == name
            &&& !id_fits ==> applied->Err_0 is InvalidTransition
            &&& id_fits && !kind_fits ==> applied->Err_0 is InvalidTransition
        }),
{
    let (next, applied) = fragment_step(state, fragment);
    lemma_place_before(state.tools, fragment.index, 0);
    if applied is Ok {
        lemma_fragment(state, fragment, fragment.index);
        let one = seq![fragment];
        assert(one[0] == fragment);
        reveal_with_fuel(fragment_id, 2);
        reveal_with_fuel(fragment_name, 2);
    }
}

/// Only the model speaks in a response, and only in its first choice: a delta of another
/// role and another choice are refused.
pub proof fn law_only_the_model_speaks<D: DialectHooks>(
    state: ResponseStateModel,
    delta: ChunkDeltaModel,
    context: DialectContextModel,
    dialect: &D,
)
    ensures
        delta.role is Some && delta.role != Some("assistant"@) ==> delta_step(state, delta, context, dialect) == (
            state,
            delta_step(state, delta, context, dialect).1,
        ) && delta_step(state, delta, context, dialect).1 is Err && delta_step(state, delta, context, dialect).1->Err_0 is InvalidTransition,
{
}

/// A line that is no text is refused.
pub proof fn law_lines_are_text<D: DialectHooks>(
    framing: FramingModel,
    state: ResponseStateModel,
    context: DialectContextModel,
    dialect: &D,
)
    requires
        framing.line.len() > 0,
        !valid_utf8(framing.line),
    ensures
        line_step(framing, state, context, dialect).2 == Err::<(), _>(DecodeErrorModel::InvalidUtf8),
        line_step(framing, state, context, dialect).1 == state,
{
}

proof fn lemma_other_choices<D: DialectHooks>(
    state: ResponseStateModel,
    usage: Option<ChunkUsageModel>,
    choices: Seq<ChunkChoiceModel>,
    raw: Seq<JsonModel>,
    at: int,
    policy: UsageMergePolicy,
    context: DialectContextModel,
    dialect: &D,
)
    requires
        0 <= at <= choices.len(),
    ensures
        choices_step(state, usage, choices, raw, at, policy, context, dialect).1 is Ok ==> forall|i: int|
            at <= i < choices.len() ==> (#[trigger] choices[i]).index == 0,
    decreases choices.len() - at,
{
    if at < choices.len() && choices_step(state, usage, choices, raw, at, policy, context, dialect).1 is Ok {
        let (heard, _) = delta_step(state, choices[at].delta, context, dialect);
        let (ended, _) = finish_step(heard, raw[at], context, dialect);
        let merged = merged_usage(usage, choices[at].usage, policy)->0;
        lemma_other_choices(ended, merged, choices, raw, at + 1, policy, context, dialect);
    }
}

/// A chunk with another choice than the first is refused.
pub proof fn law_there_is_one_choice<D: DialectHooks>(
    state: ResponseStateModel,
    raw: JsonModel,
    context: DialectContextModel,
    dialect: &D,
)
    ensures
        chunk_step(state, raw, context, dialect).1 is Ok ==> forall|i: int|
            0 <= i < chunk_of(raw)->Ok_0.choices.len() ==> (#[trigger] chunk_of(raw)->Ok_0.choices[i]).index == 0,
{
    if chunk_step(state, raw, context, dialect).1 is Ok {
        let chunk = chunk_of(raw)->Ok_0;
        let known = id_step(ResponseStateModel { recognized: true, ..state }, chunk.id).0;
        let items = raw_choices(raw, chunk.choices.len())->Ok_0;
        let policy = dialect.policy_for(context)->Ok_0;
        lemma_other_choices(known, None, chunk.choices, items, 0, policy, context, dialect);
    }
}

/// A stream of nothing but white space is empty.
pub proof fn law_a_blank_stream_is_empty<D: DialectHooks>(
    metadata: ResponseMetadataModel,
    context: DialectContextModel,
    dialect: &D,
)
    ensures
        decoded_stream(Seq::empty(), metadata, context, dialect) == Err::<DecodedStreamModel, _>(
            DecodeErrorModel::EmptyStream,
        ),
        forall|bytes: Seq<u8>| #[trigger]
            all_blank(bytes) ==> decoded_stream(seq![bytes], metadata, context, dialect) == Err::<
                DecodedStreamModel,
                _,
            >(DecodeErrorModel::EmptyStream),
{
    assert forall|bytes: Seq<u8>| #[trigger] all_blank(bytes) implies decoded_stream(
        seq![bytes],
        metadata,
        context,
        dialect,
    ) == Err::<DecodedStreamModel, _>(DecodeErrorModel::EmptyStream) by {
        reveal_with_fuel(fragments_fed, 3);
        assert(seq![bytes][0] == bytes);
    }
}

} // verus!
