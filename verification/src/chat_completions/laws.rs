//! What holds of Chat Completions requests and responses as a whole.
use crate::chat_completions::chunk::chunk_of;
use crate::chat_completions::dialect::{DialectContextModel, DialectHooks, UsageMergePolicy};
use crate::chat_completions::encoder::{encoded_request, history_from, item_step, open_assistant, opening};
use crate::chat_completions::stream::{
    all_blank, byte_step, bytes_step, choices_step, committable, complete_from, complete_tool, data_value,
    decoded_stream, delta_step, emit_step, feed_step, finish_step, finished, fragment_step, fragments_fed,
    fragments_step, frame_step, fresh_session, id_step, is_blank, line_step, merged_usage, presented_stream,
    raw_choices, session_closed, set_once, spoken_step, tool_grows, tool_place_from, with_tool, DecodeErrorModel,
    FramingModel, PendingToolModel, ResponseStateModel, SessionModel,
};
use crate::chat_completions::types::{
    ChatMessageModel, ChunkChoiceModel, ChunkDeltaModel, ChunkUsageModel, PresentationDeltaModel,
    ResponseMetadataModel, ToolCallFragmentModel, ToolCallModel,
};
use crate::json::{json_parse, JsonModel};
use crate::protocol::{ResponseItemModel, ToolSpecModel};
use crate::text::{begins_with, joined, place, utf8_chars};
use vstd::prelude::*;

verus! {

// ---- tool calls and their results ----

/// The names of the calls of a message behind those that wait.
pub open spec fn called_from(calls: Seq<ToolCallModel>, at: int, waiting: Seq<Seq<char>>) -> Seq<Seq<char>>
    decreases calls.len() - at,
{
    if at < 0 || at >= calls.len() {
        waiting
    } else {
        called_from(calls, at + 1, waiting.push(calls[at].id))
    }
}

/// The calls that wait for a result after the messages from `at` on; nothing
/// where a result comes that no call waits for.
pub open spec fn waiting_from(messages: Seq<ChatMessageModel>, at: int, waiting: Seq<Seq<char>>) -> Option<
    Seq<Seq<char>>,
>
    decreases messages.len() - at,
{
    if at < 0 || at >= messages.len() {
        Some(waiting)
    } else {
        match messages[at] {
            ChatMessageModel::Assistant(message) => waiting_from(
                messages,
                at + 1,
                called_from(message.tool_calls, 0, waiting),
            ),
            ChatMessageModel::Tool { tool_call_id, .. } => match place(waiting, tool_call_id) {
                None => None,
                Some(found) => waiting_from(messages, at + 1, waiting.remove(found)),
            },
            _ => waiting_from(messages, at + 1, waiting),
        }
    }
}

proof fn lemma_called_last(calls: Seq<ToolCallModel>, call: ToolCallModel, at: int, waiting: Seq<Seq<char>>)
    requires
        0 <= at <= calls.len(),
    ensures
        called_from(calls.push(call), at, waiting) == called_from(calls, at, waiting).push(call.id),
    decreases calls.len() - at,
{
    reveal_with_fuel(called_from, 3);
    if at < calls.len() {
        assert(calls.push(call)[at] == calls[at]);
        lemma_called_last(calls, call, at + 1, waiting.push(calls[at].id));
    } else {
        assert(calls.push(call)[at] == call);
    }
}

/// What one more message does to the calls that wait.
pub open spec fn waiting_after(waiting: Option<Seq<Seq<char>>>, message: ChatMessageModel) -> Option<Seq<Seq<char>>> {
    match waiting {
        None => None,
        Some(waiting) => match message {
            ChatMessageModel::Assistant(message) => Some(called_from(message.tool_calls, 0, waiting)),
            ChatMessageModel::Tool { tool_call_id, .. } => match place(waiting, tool_call_id) {
                None => None,
                Some(found) => Some(waiting.remove(found)),
            },
            _ => Some(waiting),
        },
    }
}

proof fn lemma_waiting_last(
    messages: Seq<ChatMessageModel>,
    message: ChatMessageModel,
    at: int,
    waiting: Seq<Seq<char>>,
)
    requires
        0 <= at <= messages.len(),
    ensures
        waiting_from(messages.push(message), at, waiting) == waiting_after(
            waiting_from(messages, at, waiting),
            message,
        ),
    decreases messages.len() - at,
{
    reveal_with_fuel(waiting_from, 3);
    let all = messages.push(message);
    if at < messages.len() {
        assert(all[at] == messages[at]);
        match messages[at] {
            ChatMessageModel::Assistant(spoken) => {
                lemma_waiting_last(messages, message, at + 1, called_from(spoken.tool_calls, 0, waiting));
            },
            ChatMessageModel::Tool { tool_call_id, .. } => {
                if let Some(found) = place(waiting, tool_call_id) {
                    lemma_waiting_last(messages, message, at + 1, waiting.remove(found));
                }
            },
            _ => {
                lemma_waiting_last(messages, message, at + 1, waiting);
            },
        }
    } else {
        assert(all[at] == message);
    }
}

/// What an item adds keeps the calls that wait in step with the messages.
pub proof fn lemma_item_waiting<D: DialectHooks>(
    messages: Seq<ChatMessageModel>,
    pending: Seq<Seq<char>>,
    index: usize,
    item: ResponseItemModel,
    context: DialectContextModel,
    dialect: &D,
)
    requires
        waiting_from(messages, 0, Seq::empty()) == Some(pending),
    ensures
        item_step(messages, pending, index, item, context, dialect) matches Ok(next) ==> waiting_from(
            next.0,
            0,
            Seq::empty(),
        ) == Some(next.1),
{
    let (head, last) = open_assistant(messages);
    if let Ok(next) = item_step(messages, pending, index, item, context, dialect) {
        if messages.len() > 0 && messages.last() is Assistant {
            assert(head.push(messages.last()) =~= messages);
            lemma_waiting_last(head, messages.last(), 0, Seq::empty());
        } else {
            assert(called_from(last.tool_calls, 0, pending) == pending);
        }
        match item {
            ResponseItemModel::Message { role, .. } => {
                if role == "user"@ {
                    lemma_waiting_last(messages, next.0.last(), 0, Seq::empty());
                } else {
                    lemma_waiting_last(head, next.0.last(), 0, Seq::empty());
                }
            },
            ResponseItemModel::Reasoning { .. } => {
                lemma_waiting_last(head, next.0.last(), 0, Seq::empty());
            },
            ResponseItemModel::FunctionCall { .. } => {
                let spoken = next.0.last()->Assistant_0;
                let call = spoken.tool_calls.last();
                lemma_waiting_last(head, next.0.last(), 0, Seq::empty());
                let before = waiting_from(head, 0, Seq::empty())->0;
                lemma_called_last(last.tool_calls, call, 0, before);
            },
            ResponseItemModel::FunctionCallOutput { .. } => {
                lemma_waiting_last(messages, next.0.last(), 0, Seq::empty());
            },
            _ => {},
        }
    }
}

proof fn lemma_history_waiting<D: DialectHooks>(
    items: Seq<ResponseItemModel>,
    at: int,
    messages: Seq<ChatMessageModel>,
    pending: Seq<Seq<char>>,
    context: DialectContextModel,
    dialect: &D,
)
    requires
        0 <= at <= items.len(),
        waiting_from(messages, 0, Seq::empty()) == Some(pending),
    ensures
        history_from(items, at, messages, pending, context, dialect) matches Ok(encoded) ==> waiting_from(
            encoded,
            0,
            Seq::empty(),
        ) is Some,
    decreases items.len() - at,
{
    if at < items.len() {
        lemma_item_waiting(messages, pending, at as usize, items[at], context, dialect);
        if let Ok(next) = item_step(messages, pending, at as usize, items[at], context, dialect) {
            lemma_history_waiting(items, at + 1, next.0, next.1, context, dialect);
        }
    }
}

/// In an encoded request every tool result answers a call before it that no
/// other result answered.
pub proof fn law_every_result_answers_a_call<D: DialectHooks>(
    context: DialectContextModel,
    system: Option<Seq<char>>,
    history: Seq<ResponseItemModel>,
    tools: Seq<ToolSpecModel>,
    dialect: &D,
)
    ensures
        encoded_request(context, system, history, tools, dialect) matches Ok(request) ==> waiting_from(
            request.messages,
            0,
            Seq::empty(),
        ) is Some,
{
    reveal_with_fuel(waiting_from, 3);
    lemma_history_waiting(history, 0, opening(system), Seq::empty(), context, dialect);
}

// ---- fragments ----

proof fn lemma_bytes_shift<D: DialectHooks>(
    framing: FramingModel,
    state: ResponseStateModel,
    first: Seq<u8>,
    second: Seq<u8>,
    at: int,
    context: DialectContextModel,
    dialect: &D,
)
    requires
        0 <= at <= second.len(),
    ensures
        bytes_step(framing, state, first + second, first.len() + at, context, dialect) == bytes_step(
            framing,
            state,
            second,
            at,
            context,
            dialect,
        ),
    decreases second.len() - at,
{
    if at < second.len() {
        assert((first + second)[first.len() + at] == second[at]);
        let (next_framing, next_state, applied) = byte_step(framing, state, second[at], context, dialect);
        if applied is Ok {
            lemma_bytes_shift(next_framing, next_state, first, second, at + 1, context, dialect);
        }
    }
}

/// Bytes may be taken in two parts.
pub proof fn lemma_bytes_cut<D: DialectHooks>(
    framing: FramingModel,
    state: ResponseStateModel,
    first: Seq<u8>,
    second: Seq<u8>,
    at: int,
    context: DialectContextModel,
    dialect: &D,
)
    requires
        0 <= at <= first.len(),
    ensures
        ({
            let (cut_framing, cut_state, applied) = bytes_step(framing, state, first, at, context, dialect);
            bytes_step(framing, state, first + second, at, context, dialect) == match applied {
                Ok(_) => bytes_step(cut_framing, cut_state, second, 0, context, dialect),
                Err(error) => (cut_framing, cut_state, Err(error)),
            }
        }),
    decreases first.len() - at,
{
    if at < first.len() {
        assert((first + second)[at] == first[at]);
        let (next_framing, next_state, applied) = byte_step(framing, state, first[at], context, dialect);
        if applied is Ok {
            lemma_bytes_cut(next_framing, next_state, first, second, at + 1, context, dialect);
        }
    } else {
        lemma_bytes_shift(framing, state, first, second, 0, context, dialect);
    }
}

proof fn lemma_blank_sum(first: Seq<u8>, second: Seq<u8>)
    ensures
        all_blank(first + second) == (all_blank(first) && all_blank(second)),
{
    let both = first + second;
    if all_blank(both) {
        assert forall|i: int| 0 <= i < first.len() implies is_blank(#[trigger] first[i]) by {
            assert(both[i] == first[i]);
        }
        assert forall|i: int| 0 <= i < second.len() implies is_blank(#[trigger] second[i]) by {
            assert(both[first.len() + i] == second[i]);
        }
    }
}

/// Where a stream is cut does not matter: two fragments are taken as one that
/// holds the bytes of both. Where the first one fails, both together fail with
/// the same error. Left out is a first fragment whose failure is kept back.
pub proof fn law_cuts_do_not_matter<D: DialectHooks>(
    session: SessionModel,
    first: Seq<u8>,
    second: Seq<u8>,
    context: DialectContextModel,
    dialect: &D,
)
    requires
        session.deferred_error is None,
        feed_step(session, first, context, dialect).0.deferred_error is None,
    ensures
        match feed_step(session, first, context, dialect).1 {
            Err(error) => feed_step(session, first + second, context, dialect).1 == Err::<(), DecodeErrorModel>(error),
            Ok(_) => feed_step(feed_step(session, first, context, dialect).0, second, context, dialect) == feed_step(
                session,
                first + second,
                context,
                dialect,
            ),
        },
{
    lemma_bytes_cut(session.framing, session.state, first, second, 0, context, dialect);
    lemma_blank_sum(first, second);
}

/// The bytes of the fragments from `at` on.
pub open spec fn bytes_of(fragments: Seq<Seq<u8>>, at: int) -> Seq<u8>
    decreases fragments.len() - at,
{
    if at < 0 || at >= fragments.len() {
        Seq::empty()
    } else {
        fragments[at] + bytes_of(fragments, at + 1)
    }
}

proof fn lemma_fragments_joined<D: DialectHooks>(
    session: SessionModel,
    fragments: Seq<Seq<u8>>,
    at: int,
    context: DialectContextModel,
    dialect: &D,
)
    requires
        0 <= at <= fragments.len(),
        !session.empty,
        session.deferred_error is None,
    ensures
        fragments_fed(session, fragments, at, context, dialect) == feed_step(
            session,
            bytes_of(fragments, at),
            context,
            dialect,
        ),
    decreases fragments.len() - at,
{
    if at < fragments.len() {
        let rest = bytes_of(fragments, at + 1);
        lemma_bytes_cut(session.framing, session.state, fragments[at], rest, 0, context, dialect);
        let (next, fed) = feed_step(session, fragments[at], context, dialect);
        if fed is Ok {
            lemma_fragments_joined(next, fragments, at + 1, context, dialect);
        }
    }
}

/// How many bytes of white space there are at the start.
pub open spec fn blank_start(bytes: Seq<u8>) -> nat
    decreases bytes.len(),
{
    if bytes.len() > 0 && is_blank(bytes[0]) {
        1 + blank_start(bytes.drop_first())
    } else {
        0
    }
}

/// Whether a byte ends a line.
pub open spec fn is_break(byte: u8) -> bool {
    byte == 10 || byte == 13
}

/// Whether no line at the start has white space and nothing else. Empty lines
/// may be there.
pub open spec fn plain_start(bytes: Seq<u8>) -> bool {
    forall|i: int|
        0 <= i && i + 1 < blank_start(bytes) && !is_break(#[trigger] bytes[i]) ==> !is_break(bytes[i + 1])
}

proof fn lemma_blank_start(bytes: Seq<u8>)
    ensures
        blank_start(bytes) <= bytes.len(),
        forall|i: int| 0 <= i < blank_start(bytes) ==> is_blank(#[trigger] bytes[i]),
        blank_start(bytes) < bytes.len() ==> !is_blank(bytes[blank_start(bytes) as int]),
    decreases bytes.len(),
{
    if bytes.len() > 0 && is_blank(bytes[0]) {
        let rest = bytes.drop_first();
        lemma_blank_start(rest);
        assert forall|i: int| 0 <= i < blank_start(bytes) implies is_blank(#[trigger] bytes[i]) by {
            if i > 0 {
                assert(bytes[i] == rest[i - 1]);
            }
        }
        if blank_start(bytes) < bytes.len() {
            assert(bytes[blank_start(bytes) as int] == rest[blank_start(rest) as int]);
        }
    }
}

proof fn lemma_blank_start_sum(first: Seq<u8>, second: Seq<u8>)
    requires
        all_blank(first),
    ensures
        blank_start(first + second) == first.len() + blank_start(second),
    decreases first.len(),
{
    if first.len() == 0 {
        assert(first + second =~= second);
    } else {
        assert(is_blank(first[0]));
        assert((first + second).drop_first() =~= first.drop_first() + second);
        let rest = first.drop_first();
        assert forall|i: int| 0 <= i < rest.len() implies is_blank(#[trigger] rest[i]) by {
            assert(rest[i] == first[i + 1]);
        }
        lemma_blank_start_sum(rest, second);
    }
}

/// Whether the white space at the start of bytes passes.
pub open spec fn start_passes<D: DialectHooks>(
    framing: FramingModel,
    state: ResponseStateModel,
    bytes: Seq<u8>,
    context: DialectContextModel,
    dialect: &D,
) -> bool {
    bytes_step(framing, state, bytes.take(blank_start(bytes) as int), 0, context, dialect).2 is Ok
}

proof fn lemma_plain_start_passes<D: DialectHooks>(
    framing: FramingModel,
    state: ResponseStateModel,
    bytes: Seq<u8>,
    at: int,
    context: DialectContextModel,
    dialect: &D,
)
    requires
        framing.data.len() == 0,
        0 <= at <= bytes.len(),
        at < bytes.len() && framing.line.len() > 0 ==> !is_break(bytes[at]),
        forall|i: int| 0 <= i && i + 1 < bytes.len() && !is_break(#[trigger] bytes[i]) ==> !is_break(bytes[i + 1]),
    ensures
        bytes_step(framing, state, bytes, at, context, dialect).2 is Ok,
    decreases bytes.len() - at,
{
    if at < bytes.len() {
        let (next_framing, next_state, applied) = byte_step(framing, state, bytes[at], context, dialect);
        assert(applied is Ok);
        assert(next_framing.data.len() == 0);
        lemma_plain_start_passes(next_framing, next_state, bytes, at + 1, context, dialect);
    }
}

proof fn lemma_fragments_from_start<D: DialectHooks>(
    session: SessionModel,
    fragments: Seq<Seq<u8>>,
    at: int,
    context: DialectContextModel,
    dialect: &D,
)
    requires
        0 <= at <= fragments.len(),
        session.deferred_error is None,
        start_passes(session.framing, session.state, bytes_of(fragments, at), context, dialect),
    ensures
        fragments_fed(session, fragments, at, context, dialect) == feed_step(
            session,
            bytes_of(fragments, at),
            context,
            dialect,
        ),
    decreases fragments.len() - at,
{
    if !session.empty {
        lemma_fragments_joined(session, fragments, at, context, dialect);
    } else if at < fragments.len() {
        let fragment = fragments[at];
        let rest = bytes_of(fragments, at + 1);
        let whole = fragment + rest;
        lemma_bytes_cut(session.framing, session.state, fragment, rest, 0, context, dialect);
        lemma_blank_sum(fragment, rest);
        let (next, fed) = feed_step(session, fragment, context, dialect);
        if all_blank(fragment) {
            lemma_blank_start_sum(fragment, rest);
            lemma_blank_start(rest);
            let start = rest.take(blank_start(rest) as int);
            assert(whole.take(blank_start(whole) as int) =~= fragment + start);
            lemma_bytes_cut(session.framing, session.state, fragment, start, 0, context, dialect);
            lemma_fragments_from_start(next, fragments, at + 1, context, dialect);
        } else if fed is Ok {
            lemma_fragments_joined(next, fragments, at + 1, context, dialect);
        }
    } else {
        assert(bytes_of(fragments, at) =~= Seq::empty());
    }
}

/// Whether bytes from the start of a stream pass, or how they fail.
pub open spec fn started<D: DialectHooks>(bytes: Seq<u8>, context: DialectContextModel, dialect: &D) -> Result<
    (),
    DecodeErrorModel,
> {
    bytes_step(fresh_session().framing, fresh_session().state, bytes, 0, context, dialect).2
}

/// Whether white space at the start of a stream fails in one way only: where a
/// first part of it fails, the rest passes by itself or fails alike.
pub open spec fn one_fault<D: DialectHooks>(start: Seq<u8>, context: DialectContextModel, dialect: &D) -> bool {
    forall|i: int|
        0 <= i <= start.len() && (#[trigger] started(start.take(i), context, dialect)) is Err ==> started(
            start.skip(i),
            context,
            dialect,
        ) is Ok || started(start.skip(i), context, dialect) == started(start.take(i), context, dialect)
}

proof fn lemma_ascii_first(line: Seq<u8>)
    requires
        line.len() > 0,
        line[0] < 0x80,
        utf8_chars(line) is Some,
    ensures
        utf8_chars(line)->0.len() > 0,
        utf8_chars(line)->0[0] as u32 == line[0] as u32,
{
    let byte = line[0];
    assert(byte < 0x80 ==> (byte & 0x7F) as u32 == byte as u32) by (bit_vector);
}

proof fn lemma_blank_line(line: Seq<u8>)
    requires
        line.len() > 0,
        all_blank(line),
        utf8_chars(line) is Some,
    ensures
        !begins_with(utf8_chars(line)->0, ":"@),
        data_value(utf8_chars(line)->0) is None,
{
    let chars = utf8_chars(line)->0;
    assert(is_blank(line[0]));
    lemma_ascii_first(line);
    reveal_strlit(":");
    reveal_strlit("data:");
    if begins_with(chars, ":"@) {
        assert(chars.take(1)[0] == ':');
    }
    if begins_with(chars, "data:"@) {
        assert(chars.take(5)[0] == 'd');
    }
}

proof fn lemma_blank_keeps<D: DialectHooks>(
    framing: FramingModel,
    state: ResponseStateModel,
    bytes: Seq<u8>,
    at: int,
    context: DialectContextModel,
    dialect: &D,
)
    requires
        framing.data.len() == 0,
        all_blank(framing.line),
        all_blank(bytes),
        0 <= at <= bytes.len(),
    ensures
        ({
            let (next, after, applied) = bytes_step(framing, state, bytes, at, context, dialect);
            &&& after == state
            &&& next.data == framing.data
            &&& all_blank(next.line)
            &&& applied is Err ==> next.line.len() == 0 && !next.skip_lf
        }),
    decreases bytes.len() - at,
{
    if at < bytes.len() {
        assert(is_blank(bytes[at]));
        if framing.line.len() > 0 && utf8_chars(framing.line) is Some {
            lemma_blank_line(framing.line);
        }
        let (next, after, applied) = byte_step(framing, state, bytes[at], context, dialect);
        assert(all_blank(framing.line.push(bytes[at]))) by {
            let more = framing.line.push(bytes[at]);
            assert forall|i: int| 0 <= i < more.len() implies is_blank(#[trigger] more[i]) by {
                if i < framing.line.len() {
                    assert(more[i] == framing.line[i]);
                }
            }
        }
        if applied is Ok {
            assert(next.data == framing.data);
            lemma_blank_keeps(next, after, bytes, at + 1, context, dialect);
        }
    }
}

/// A session in the white space at the start, of which it has taken `taken`
/// since the last fault.
pub open spec fn in_start<D: DialectHooks>(
    session: SessionModel,
    taken: Seq<u8>,
    context: DialectContextModel,
    dialect: &D,
) -> bool {
    &&& session.empty
    &&& all_blank(taken)
    &&& bytes_step(fresh_session().framing, fresh_session().state, taken, 0, context, dialect).0 == session.framing
    &&& bytes_step(fresh_session().framing, fresh_session().state, taken, 0, context, dialect).1 == session.state
    &&& bytes_step(fresh_session().framing, fresh_session().state, taken, 0, context, dialect).2 is Ok
}

/// What comes of a stream whose white space at the start fails: that error once
/// something else comes, and nothing before.
pub open spec fn failed_start(
    fed: (SessionModel, Result<(), DecodeErrorModel>),
    more: bool,
    error: DecodeErrorModel,
) -> bool {
    &&& fed.0.state == fresh_session().state
    &&& more ==> fed.1 == Err::<(), DecodeErrorModel>(error)
    &&& !more ==> fed.1 is Ok && fed.0.empty
}

proof fn lemma_started_longer<D: DialectHooks>(
    first: Seq<u8>,
    second: Seq<u8>,
    context: DialectContextModel,
    dialect: &D,
)
    ensures
        started(first, context, dialect) is Err ==> started(first + second, context, dialect) == started(
            first,
            context,
            dialect,
        ),
{
    let session = fresh_session();
    lemma_bytes_cut(session.framing, session.state, first, second, 0, context, dialect);
}

proof fn lemma_blank_fragment<D: DialectHooks>(
    session: SessionModel,
    taken: Seq<u8>,
    fragment: Seq<u8>,
    context: DialectContextModel,
    dialect: &D,
)
    requires
        in_start(session, taken, context, dialect),
        all_blank(fragment),
    ensures
        session.state == fresh_session().state,
        ({
            let (next, fed) = feed_step(session, fragment, context, dialect);
            &&& fed is Ok
            &&& match started(taken + fragment, context, dialect) {
                Ok(_) => in_start(next, taken + fragment, context, dialect) && next.deferred_error
                    == session.deferred_error,
                Err(error) => in_start(next, Seq::empty(), context, dialect) && next.deferred_error == Some(error),
            }
        }),
{
    let fresh = fresh_session();
    let more = taken + fragment;
    let (next, fed) = feed_step(session, fragment, context, dialect);
    lemma_blank_sum(taken, fragment);
    lemma_bytes_cut(fresh.framing, fresh.state, taken, fragment, 0, context, dialect);
    lemma_blank_keeps(fresh.framing, fresh.state, taken, 0, context, dialect);
    lemma_blank_keeps(fresh.framing, fresh.state, more, 0, context, dialect);
    let (framing, state, applied) = bytes_step(session.framing, session.state, fragment, 0, context, dialect);
    assert((framing, state, applied) == bytes_step(fresh.framing, fresh.state, more, 0, context, dialect));
    assert(next.framing == framing && next.state == state);
    if applied is Err {
        assert(framing.line =~= Seq::empty());
        assert(framing.data =~= Seq::empty());
        assert(framing == fresh.framing);
    }
}

proof fn lemma_skipped(start: Seq<u8>, place: int, more: Seq<u8>, left: Seq<u8>)
    requires
        0 <= place <= start.len(),
        start.skip(place) == more + left,
    ensures
        place + more.len() <= start.len(),
        start.skip(place + more.len()) == left,
{
    let further = place + more.len();
    assert(start.skip(place).len() == more.len() + left.len());
    assert(start.skip(further) =~= left) by {
        assert forall|i: int| 0 <= i < left.len() implies start.skip(further)[i] == left[i] by {
            assert(start.skip(place)[more.len() + i] == left[i]);
        }
    }
}

proof fn lemma_after_fault<D: DialectHooks>(
    session: SessionModel,
    fragments: Seq<Seq<u8>>,
    at: int,
    start: Seq<u8>,
    place: int,
    taken: Seq<u8>,
    error: DecodeErrorModel,
    context: DialectContextModel,
    dialect: &D,
)
    requires
        0 <= at <= fragments.len(),
        0 <= place <= start.len(),
        in_start(session, taken, context, dialect),
        session.deferred_error is Some,
        started(start.take(place), context, dialect) == Err::<(), DecodeErrorModel>(error),
        start.skip(place) == taken + bytes_of(fragments, at).take(blank_start(bytes_of(fragments, at)) as int),
        blank_start(bytes_of(fragments, at)) < bytes_of(fragments, at).len() ==> session.deferred_error == Some(error)
            && one_fault(start, context, dialect),
    ensures
        failed_start(
            fragments_fed(session, fragments, at, context, dialect),
            blank_start(bytes_of(fragments, at)) < bytes_of(fragments, at).len(),
            error,
        ),
    decreases fragments.len() - at,
{
    if at < fragments.len() {
        let fragment = fragments[at];
        let rest = bytes_of(fragments, at + 1);
        let all = bytes_of(fragments, at);
        lemma_blank_start(all);
        let (next, fed) = feed_step(session, fragment, context, dialect);
        if all_blank(fragment) {
            lemma_blank_start_sum(fragment, rest);
            lemma_blank_start(rest);
            let left = rest.take(blank_start(rest) as int);
            assert(all.take(blank_start(all) as int) =~= fragment + left);
            let more = taken + fragment;
            assert(taken + (fragment + left) =~= more + left);
            lemma_blank_fragment(session, taken, fragment, context, dialect);
            lemma_started_longer(more, left, context, dialect);
            if started(more, context, dialect) is Ok {
                lemma_after_fault(next, fragments, at + 1, start, place, more, error, context, dialect);
            } else {
                let further = place + more.len();
                lemma_skipped(start, place, more, left);
                let beyond = start.subrange(place, further);
                assert(start.take(further) =~= start.take(place) + beyond);
                lemma_started_longer(start.take(place), beyond, context, dialect);
                let none = Seq::<u8>::empty();
                assert(none + left =~= left);
                lemma_after_fault(next, fragments, at + 1, start, further, none, error, context, dialect);
            }
        } else {
            lemma_blank_fragment(session, taken, Seq::empty(), context, dialect);
            lemma_blank_sum(fragment, rest);
            if blank_start(all) == all.len() {
                assert(all_blank(all));
            }
        }
    } else {
        lemma_blank_fragment(session, taken, Seq::empty(), context, dialect);
        assert(bytes_of(fragments, at) =~= Seq::empty());
    }
}

proof fn lemma_to_fault<D: DialectHooks>(
    session: SessionModel,
    fragments: Seq<Seq<u8>>,
    at: int,
    start: Seq<u8>,
    taken: Seq<u8>,
    error: DecodeErrorModel,
    context: DialectContextModel,
    dialect: &D,
)
    requires
        0 <= at <= fragments.len(),
        in_start(session, taken, context, dialect),
        session.deferred_error is None,
        started(start, context, dialect) == Err::<(), DecodeErrorModel>(error),
        start == taken + bytes_of(fragments, at).take(blank_start(bytes_of(fragments, at)) as int),
        blank_start(bytes_of(fragments, at)) < bytes_of(fragments, at).len() ==> one_fault(start, context, dialect),
    ensures
        failed_start(
            fragments_fed(session, fragments, at, context, dialect),
            blank_start(bytes_of(fragments, at)) < bytes_of(fragments, at).len(),
            error,
        ),
    decreases fragments.len() - at,
{
    let fresh = fresh_session();
    lemma_blank_fragment(session, taken, Seq::empty(), context, dialect);
    if at < fragments.len() {
        let fragment = fragments[at];
        let rest = bytes_of(fragments, at + 1);
        let all = bytes_of(fragments, at);
        lemma_blank_start(all);
        lemma_blank_sum(fragment, rest);
        let (next, fed) = feed_step(session, fragment, context, dialect);
        if all_blank(fragment) {
            lemma_blank_start_sum(fragment, rest);
            lemma_blank_start(rest);
            let left = rest.take(blank_start(rest) as int);
            assert(all.take(blank_start(all) as int) =~= fragment + left);
            let more = taken + fragment;
            assert(taken + (fragment + left) =~= more + left);
            lemma_blank_fragment(session, taken, fragment, context, dialect);
            lemma_started_longer(more, left, context, dialect);
            if started(more, context, dialect) is Ok {
                lemma_to_fault(next, fragments, at + 1, start, more, error, context, dialect);
            } else {
                let none = Seq::<u8>::empty();
                let place = more.len() as int;
                assert(start.take(place) =~= more);
                assert(start.skip(place) =~= none + left);
                lemma_after_fault(next, fragments, at + 1, start, place, none, error, context, dialect);
            }
        } else {
            if blank_start(all) == all.len() {
                assert(all_blank(all));
            }
            let count = blank_start(all) as int;
            let white = all.take(count);
            lemma_blank_within(fragment, rest);
            let dark = fragment.skip(count);
            assert(fragment =~= white + dark);
            assert(all_blank(white));
            lemma_blank_keeps(fresh.framing, fresh.state, taken, 0, context, dialect);
            lemma_bytes_cut(fresh.framing, fresh.state, taken, white, 0, context, dialect);
            lemma_bytes_cut(session.framing, session.state, white, dark, 0, context, dialect);
            lemma_blank_keeps(session.framing, session.state, white, 0, context, dialect);
        }
    } else {
        assert(bytes_of(fragments, at) =~= Seq::empty());
        assert(start =~= taken);
    }
}

proof fn lemma_blank_within(fragment: Seq<u8>, rest: Seq<u8>)
    requires
        !all_blank(fragment),
    ensures
        blank_start(fragment + rest) < fragment.len(),
{
    let all = fragment + rest;
    lemma_blank_start(all);
    if blank_start(all) >= fragment.len() {
        assert forall|i: int| 0 <= i < fragment.len() implies is_blank(#[trigger] fragment[i]) by {
            assert(all[i] == fragment[i]);
        }
    }
}

/// What a stream decodes to depends on its bytes alone, however it is cut into
/// fragments, and so does what it shows. Left out is a stream that goes on
/// behind white space at its start which fails in more than one way.
pub proof fn law_decoding_depends_on_the_bytes<D: DialectHooks>(
    fragments: Seq<Seq<u8>>,
    others: Seq<Seq<u8>>,
    metadata: ResponseMetadataModel,
    context: DialectContextModel,
    dialect: &D,
)
    requires
        bytes_of(fragments, 0) == bytes_of(others, 0),
        ({
            let bytes = bytes_of(fragments, 0);
            blank_start(bytes) == bytes.len() || one_fault(bytes.take(blank_start(bytes) as int), context, dialect)
        }),
    ensures
        decoded_stream(fragments, metadata, context, dialect) == decoded_stream(others, metadata, context, dialect),
        presented_stream(fragments, context, dialect) == presented_stream(others, context, dialect),
{
    let session = fresh_session();
    let bytes = bytes_of(fragments, 0);
    let start = bytes.take(blank_start(bytes) as int);
    lemma_blank_start(bytes);
    match started(start, context, dialect) {
        Ok(_) => {
            lemma_fragments_from_start(session, fragments, 0, context, dialect);
            lemma_fragments_from_start(session, others, 0, context, dialect);
        },
        Err(error) => {
            let none = Seq::<u8>::empty();
            assert(none + start =~= start);
            lemma_to_fault(session, fragments, 0, start, none, error, context, dialect);
            lemma_to_fault(session, others, 0, start, none, error, context, dialect);
        },
    }
}

/// White space at the start passes where no line of it has white space and
/// nothing else. So empty lines do no harm.
pub proof fn law_empty_lines_may_come_first<D: DialectHooks>(
    bytes: Seq<u8>,
    context: DialectContextModel,
    dialect: &D,
)
    requires
        plain_start(bytes),
    ensures
        one_fault(bytes.take(blank_start(bytes) as int), context, dialect),
{
    let session = fresh_session();
    let start = bytes.take(blank_start(bytes) as int);
    lemma_blank_start(bytes);
    assert forall|i: int| 0 <= i && i + 1 < start.len() && !is_break(#[trigger] start[i]) implies !is_break(
        start[i + 1],
    ) by {
        assert(start[i] == bytes[i] && start[i + 1] == bytes[i + 1]);
    }
    lemma_plain_start_passes(session.framing, session.state, start, 0, context, dialect);
    assert forall|i: int| 0 <= i <= start.len() && (#[trigger] started(start.take(i), context, dialect)) is Err implies started(
        start.skip(i),
        context,
        dialect,
    ) is Ok by {
        assert(start =~= start.take(i) + start.skip(i));
        lemma_started_longer(start.take(i), start.skip(i), context, dialect);
    }
}

// ---- what may be committed ----

proof fn lemma_complete_tools(tools: Seq<PendingToolModel>, at: int, done: Seq<ToolCallModel>)
    requires
        0 <= at <= tools.len(),
        forall|i: int|
            0 <= i < done.len() ==> json_parse((#[trigger] done[i]).function.arguments) matches Ok(
                JsonModel::Object(_),
            ),
    ensures
        complete_from(tools, at, done) matches Ok(calls) ==> forall|i: int|
            0 <= i < calls.len() ==> json_parse((#[trigger] calls[i]).function.arguments) matches Ok(
                JsonModel::Object(_),
            ),
    decreases tools.len() - at,
{
    if at < tools.len() {
        if let Ok(call) = complete_tool(tools[at]) {
            lemma_complete_tools(tools, at + 1, done.push(call));
        }
    }
}

/// A response is only there once the end of its stream was announced. Output
/// may be committed if and only if the response ended in a way that permits it,
/// and every tool call in it has a JSON object as arguments.
pub proof fn law_only_complete_output_is_pending<D: DialectHooks>(
    state: ResponseStateModel,
    metadata: ResponseMetadataModel,
    context: DialectContextModel,
    dialect: &D,
)
    ensures
        finished(state, metadata, context, dialect) matches Ok(decoded) ==> state.done && (decoded.pending is Some
            <==> committable(decoded.terminal_outcome)) && (decoded.pending matches Some(pending) ==> forall|i: int|
            0 <= i < pending.tool_calls.len() ==> json_parse(
                (#[trigger] pending.tool_calls[i]).function.arguments,
            ) matches Ok(JsonModel::Object(_))),
{
    lemma_complete_tools(state.tools, 0, Seq::empty());
}

/// Once the end of the stream was announced, every further frame is an error
/// and leaves the response as it was.
pub proof fn law_nothing_follows_the_end<D: DialectHooks>(
    framing: FramingModel,
    state: ResponseStateModel,
    context: DialectContextModel,
    dialect: &D,
)
    requires
        state.done,
        framing.data.len() > 0,
    ensures
        emit_step(framing, state, context, dialect).1 == state,
        emit_step(framing, state, context, dialect).2 is Err,
{
}

// ---- usage ----

/// Usage is counted once: a report that is repeated changes nothing, and one
/// that differs is a conflict or takes the place of the first, as the policy
/// says.
pub proof fn law_usage_is_counted_once(first: ChunkUsageModel, second: ChunkUsageModel, policy: UsageMergePolicy)
    ensures
        merged_usage(Some(first), Some(first), policy) == Some(Some(first)),
        merged_usage(Some(first), None, policy) == Some(Some(first)),
        first != second ==> merged_usage(Some(first), Some(second), UsageMergePolicy::RequireIdentical) is None,
        merged_usage(Some(first), Some(second), UsageMergePolicy::PreferLatest) == Some(Some(second)),
{
}

// ---- what is shown is what is committed ----

/// The text that was shown.
pub open spec fn shown_content(presented: Seq<PresentationDeltaModel>) -> Seq<char>
    decreases presented.len(),
{
    if presented.len() == 0 {
        Seq::empty()
    } else {
        match presented.last() {
            PresentationDeltaModel::Content(text) => shown_content(presented.drop_last()) + text,
            _ => shown_content(presented.drop_last()),
        }
    }
}

/// The reasoning that was shown.
pub open spec fn shown_reasoning(presented: Seq<PresentationDeltaModel>) -> Seq<char>
    decreases presented.len(),
{
    if presented.len() == 0 {
        Seq::empty()
    } else {
        match presented.last() {
            PresentationDeltaModel::Reasoning(text) => shown_reasoning(presented.drop_last()) + text,
            _ => shown_reasoning(presented.drop_last()),
        }
    }
}

/// Whether the display has shown exactly the text and the reasoning that there
/// are.
pub open spec fn faithful(state: ResponseStateModel) -> bool {
    state.content == shown_content(state.presented) && state.reasoning == shown_reasoning(state.presented)
}

proof fn lemma_shown_push(presented: Seq<PresentationDeltaModel>, delta: PresentationDeltaModel)
    ensures
        shown_content(presented.push(delta)) == match delta {
            PresentationDeltaModel::Content(text) => shown_content(presented) + text,
            _ => shown_content(presented),
        },
        shown_reasoning(presented.push(delta)) == match delta {
            PresentationDeltaModel::Reasoning(text) => shown_reasoning(presented) + text,
            _ => shown_reasoning(presented),
        },
{
    assert(presented.push(delta).drop_last() =~= presented);
}

proof fn lemma_fragments_faithful(state: ResponseStateModel, fragments: Seq<ToolCallFragmentModel>, at: int)
    requires
        faithful(state),
        0 <= at <= fragments.len(),
    ensures
        faithful(fragments_step(state, fragments, at).0),
    decreases fragments.len() - at,
{
    if at < fragments.len() {
        let (next, applied) = fragment_step(state, fragments[at]);
        if next.presented != state.presented {
            let delta = next.presented.last();
            assert(delta is Tool);
            lemma_shown_push(state.presented, delta);
            assert(next.presented =~= state.presented.push(delta));
        }
        if applied is Ok {
            lemma_fragments_faithful(next, fragments, at + 1);
        }
    }
}

proof fn lemma_delta_faithful<D: DialectHooks>(
    state: ResponseStateModel,
    delta: ChunkDeltaModel,
    context: DialectContextModel,
    dialect: &D,
)
    requires
        faithful(state),
    ensures
        faithful(delta_step(state, delta, context, dialect).0),
{
    let (said, applied) = spoken_step(state, delta, context, dialect);
    let content = match delta.content {
        Some(text) => state.presented.push(PresentationDeltaModel::Content(text)),
        None => state.presented,
    };
    if let Some(text) = delta.content {
        lemma_shown_push(state.presented, PresentationDeltaModel::Content(text));
    }
    if let Ok(Some(reasoning)) = dialect.delta_for(context, delta.extensions) {
        lemma_shown_push(content, PresentationDeltaModel::Reasoning(reasoning.text));
    }
    assert(faithful(said));
    if applied is Ok {
        lemma_fragments_faithful(said, delta.tool_calls, 0);
    }
}

proof fn lemma_choices_faithful<D: DialectHooks>(
    state: ResponseStateModel,
    usage: Option<ChunkUsageModel>,
    choices: Seq<ChunkChoiceModel>,
    raw: Seq<JsonModel>,
    at: int,
    policy: UsageMergePolicy,
    context: DialectContextModel,
    dialect: &D,
)
    requires
        faithful(state),
        0 <= at <= choices.len(),
    ensures
        faithful(choices_step(state, usage, choices, raw, at, policy, context, dialect).0),
    decreases choices.len() - at,
{
    if at < choices.len() && choices[at].index == 0 && state.terminal is None {
        lemma_delta_faithful(state, choices[at].delta, context, dialect);
        let (said, applied) = delta_step(state, choices[at].delta, context, dialect);
        if applied is Ok {
            let (ended, applied) = finish_step(said, raw[at], context, dialect);
            if applied is Ok {
                if let Some(usage) = merged_usage(usage, choices[at].usage, policy) {
                    lemma_choices_faithful(ended, usage, choices, raw, at + 1, policy, context, dialect);
                }
            }
        }
    }
}

proof fn lemma_frame_faithful<D: DialectHooks>(
    state: ResponseStateModel,
    data: Seq<char>,
    context: DialectContextModel,
    dialect: &D,
)
    requires
        faithful(state),
    ensures
        faithful(frame_step(state, data, context, dialect).0),
{
    if let Ok(raw) = json_parse(data) {
        if let Ok(chunk) = chunk_of(raw) {
            let (known, applied) = id_step(ResponseStateModel { recognized: true, ..state }, chunk.id);
            if let Ok(items) = raw_choices(raw, chunk.choices.len()) {
                if let Ok(policy) = dialect.policy_for(context) {
                    lemma_choices_faithful(known, None, chunk.choices, items, 0, policy, context, dialect);
                }
            }
        }
    }
}

proof fn lemma_bytes_faithful<D: DialectHooks>(
    framing: FramingModel,
    state: ResponseStateModel,
    bytes: Seq<u8>,
    at: int,
    context: DialectContextModel,
    dialect: &D,
)
    requires
        faithful(state),
        0 <= at <= bytes.len(),
    ensures
        faithful(bytes_step(framing, state, bytes, at, context, dialect).1),
    decreases bytes.len() - at,
{
    if at < bytes.len() {
        lemma_frame_faithful(state, joined(framing.data), context, dialect);
        let (next_framing, next_state, applied) = byte_step(framing, state, bytes[at], context, dialect);
        if applied is Ok {
            lemma_bytes_faithful(next_framing, next_state, bytes, at + 1, context, dialect);
        }
    }
}

proof fn lemma_fed_faithful<D: DialectHooks>(
    session: SessionModel,
    fragments: Seq<Seq<u8>>,
    at: int,
    context: DialectContextModel,
    dialect: &D,
)
    requires
        faithful(session.state),
        0 <= at <= fragments.len(),
    ensures
        faithful(fragments_fed(session, fragments, at, context, dialect).0.state),
    decreases fragments.len() - at,
{
    if at < fragments.len() {
        lemma_bytes_faithful(session.framing, session.state, fragments[at], 0, context, dialect);
        let (next, fed) = feed_step(session, fragments[at], context, dialect);
        if fed is Ok {
            lemma_fed_faithful(next, fragments, at + 1, context, dialect);
        }
    }
}

/// What was shown of a response is what may be committed of it: its text and
/// its reasoning are their deltas one after another.
pub proof fn law_what_is_shown_is_committed<D: DialectHooks>(
    fragments: Seq<Seq<u8>>,
    metadata: ResponseMetadataModel,
    context: DialectContextModel,
    dialect: &D,
)
    ensures
        decoded_stream(fragments, metadata, context, dialect) matches Ok(decoded) ==> (decoded.pending matches Some(
            pending,
        ) ==> pending.content == shown_content(presented_stream(fragments, context, dialect)) && pending.reasoning
            == shown_reasoning(presented_stream(fragments, context, dialect))),
{
    lemma_fed_faithful(fresh_session(), fragments, 0, context, dialect);
    let session = fragments_fed(fresh_session(), fragments, 0, context, dialect).0;
    lemma_frame_faithful(session.state, joined(session.framing.data), context, dialect);
    let (framing, state, lined) = line_step(session.framing, session.state, context, dialect);
    lemma_frame_faithful(state, joined(framing.data), context, dialect);
}

// ---- tool calls are shown as they are committed ----

/// The arguments that were shown of the tool call with a number.
pub open spec fn shown_arguments(presented: Seq<PresentationDeltaModel>, index: usize) -> Seq<char>
    decreases presented.len(),
{
    if presented.len() == 0 {
        Seq::empty()
    } else {
        match presented.last() {
            PresentationDeltaModel::Tool { index: place, delta, .. } => if place == index {
                shown_arguments(presented.drop_last(), index) + delta
            } else {
                shown_arguments(presented.drop_last(), index)
            },
            _ => shown_arguments(presented.drop_last(), index),
        }
    }
}

/// Whether all arguments of a tool call were shown, or are kept back until its
/// identity is known.
pub open spec fn shown_so_far(tool: PendingToolModel, presented: Seq<PresentationDeltaModel>) -> bool {
    &&& tool.presented == (tool.id is Some && tool.name is Some)
    &&& if tool.presented {
        shown_arguments(presented, tool.index) == tool.arguments
    } else {
        shown_arguments(presented, tool.index) == Seq::<char>::empty() && tool.unpresented_arguments == tool.arguments
    }
}

/// Whether no two tool calls have the same number, each is shown as far as it
/// goes, and nothing is shown of others.
pub open spec fn tools_shown(state: ResponseStateModel) -> bool {
    &&& forall|i: int, j: int|
        0 <= i < j < state.tools.len() ==> (#[trigger] state.tools[i]).index != (#[trigger] state.tools[j]).index
    &&& forall|i: int| 0 <= i < state.tools.len() ==> shown_so_far(#[trigger] state.tools[i], state.presented)
    &&& forall|index: usize|
        tool_place_from(state.tools, index, 0) is None ==> #[trigger] shown_arguments(state.presented, index)
            == Seq::<char>::empty()
}

proof fn lemma_arguments_push(presented: Seq<PresentationDeltaModel>, delta: PresentationDeltaModel, index: usize)
    ensures
        shown_arguments(presented.push(delta), index) == match delta {
            PresentationDeltaModel::Tool { index: place, delta, .. } => if place == index {
                shown_arguments(presented, index) + delta
            } else {
                shown_arguments(presented, index)
            },
            _ => shown_arguments(presented, index),
        },
{
    assert(presented.push(delta).drop_last() =~= presented);
}

/// The place of a tool call is the first one with its number.
pub proof fn lemma_tool_place(tools: Seq<PendingToolModel>, index: usize, at: int)
    requires
        0 <= at <= tools.len(),
    ensures
        match tool_place_from(tools, index, at) {
            Some(place) => at <= place < tools.len() && tools[place].index == index,
            None => forall|i: int| at <= i < tools.len() ==> (#[trigger] tools[i]).index != index,
        },
    decreases tools.len() - at,
{
    if at < tools.len() && tools[at].index != index {
        lemma_tool_place(tools, index, at + 1);
    }
}

proof fn lemma_quiet_push(state: ResponseStateModel, next: ResponseStateModel, delta: PresentationDeltaModel)
    requires
        tools_shown(state),
        !(delta is Tool),
        next.tools == state.tools,
        next.presented == state.presented.push(delta),
    ensures
        tools_shown(next),
{
    assert forall|i: int| 0 <= i < next.tools.len() implies shown_so_far(#[trigger] next.tools[i], next.presented) by {
        assert(shown_so_far(state.tools[i], state.presented));
        lemma_arguments_push(state.presented, delta, next.tools[i].index);
    }
    assert forall|index: usize| tool_place_from(next.tools, index, 0) is None implies #[trigger] shown_arguments(
        next.presented,
        index,
    ) == Seq::<char>::empty() by {
        lemma_arguments_push(state.presented, delta, index);
    }
}

proof fn lemma_fragment_shown(state: ResponseStateModel, fragment: ToolCallFragmentModel)
    requires
        tools_shown(state),
    ensures
        fragment_step(state, fragment).1 is Ok ==> tools_shown(fragment_step(state, fragment).0),
{
    let (next, applied) = fragment_step(state, fragment);
    if applied is Ok {
        let index = fragment.index;
        let (tools, place) = with_tool(state.tools, index);
        lemma_tool_place(state.tools, index, 0);
        assert(tools[place].index == index);
        assert(shown_so_far(tools[place], state.presented));
        let named = PendingToolModel {
            id: set_once(tools[place].id, fragment.id)->0,
            name: set_once(
                tools[place].name,
                match fragment.function {
                    Some(function) => function.name,
                    None => None,
                },
            )->0,
            ..tools[place]
        };
        let arguments = match fragment.function {
            Some(function) => function.arguments,
            None => None,
        };
        let (grown, presented) = tool_grows(named, state.presented, arguments);
        assert(next.tools == tools.update(place, grown));
        assert(next.presented == presented);
        assert(grown.index == index);
        if presented != state.presented {
            let delta = presented.last();
            assert(presented =~= state.presented.push(delta));
            assert(delta is Tool && delta->index == index);
            lemma_arguments_push(state.presented, delta, index);
        }
        assert(Seq::<char>::empty() + grown.arguments =~= grown.arguments);
        assert(shown_so_far(grown, presented));
        assert forall|i: int| 0 <= i < next.tools.len() implies shown_so_far(#[trigger] next.tools[i], next.presented) by {
            if i != place {
                assert(next.tools[i] == state.tools[i]);
                assert(state.tools[i].index != index);
                assert(shown_so_far(state.tools[i], state.presented));
                if presented != state.presented {
                    lemma_arguments_push(state.presented, presented.last(), state.tools[i].index);
                }
            }
        }
        assert forall|other: usize| tool_place_from(next.tools, other, 0) is None implies #[trigger] shown_arguments(
            next.presented,
            other,
        ) == Seq::<char>::empty() by {
            lemma_tool_place(next.tools, other, 0);
            lemma_tool_place(state.tools, other, 0);
            assert(next.tools[place].index != other);
            if tool_place_from(state.tools, other, 0) is Some {
                let found = tool_place_from(state.tools, other, 0)->0;
                assert(next.tools[found].index == other);
            }
            if presented != state.presented {
                lemma_arguments_push(state.presented, presented.last(), other);
            }
        }
    }
}

proof fn lemma_fragments_shown(state: ResponseStateModel, fragments: Seq<ToolCallFragmentModel>, at: int)
    requires
        tools_shown(state),
        0 <= at <= fragments.len(),
    ensures
        fragments_step(state, fragments, at).1 is Ok ==> tools_shown(fragments_step(state, fragments, at).0),
    decreases fragments.len() - at,
{
    if at < fragments.len() {
        lemma_fragment_shown(state, fragments[at]);
        let (next, applied) = fragment_step(state, fragments[at]);
        if applied is Ok {
            lemma_fragments_shown(next, fragments, at + 1);
        }
    }
}

proof fn lemma_delta_shown<D: DialectHooks>(
    state: ResponseStateModel,
    delta: ChunkDeltaModel,
    context: DialectContextModel,
    dialect: &D,
)
    requires
        tools_shown(state),
    ensures
        delta_step(state, delta, context, dialect).1 is Ok ==> tools_shown(
            delta_step(state, delta, context, dialect).0,
        ),
{
    let (said, applied) = spoken_step(state, delta, context, dialect);
    if applied is Ok {
        let first = match delta.content {
            Some(text) => ResponseStateModel {
                content: state.content + text,
                presented: state.presented.push(PresentationDeltaModel::Content(text)),
                ..state
            },
            None => state,
        };
        if let Some(text) = delta.content {
            lemma_quiet_push(state, first, PresentationDeltaModel::Content(text));
        }
        if let Ok(Some(reasoning)) = dialect.delta_for(context, delta.extensions) {
            lemma_quiet_push(first, said, PresentationDeltaModel::Reasoning(reasoning.text));
        }
        assert(tools_shown(said));
        lemma_fragments_shown(said, delta.tool_calls, 0);
    }
}

proof fn lemma_same_tools(state: ResponseStateModel, next: ResponseStateModel)
    requires
        tools_shown(state),
        next.tools == state.tools,
        next.presented == state.presented,
    ensures
        tools_shown(next),
{
}

proof fn lemma_choices_shown<D: DialectHooks>(
    state: ResponseStateModel,
    usage: Option<ChunkUsageModel>,
    choices: Seq<ChunkChoiceModel>,
    raw: Seq<JsonModel>,
    at: int,
    policy: UsageMergePolicy,
    context: DialectContextModel,
    dialect: &D,
)
    requires
        tools_shown(state),
        0 <= at <= choices.len(),
    ensures
        choices_step(state, usage, choices, raw, at, policy, context, dialect).1 is Ok ==> tools_shown(
            choices_step(state, usage, choices, raw, at, policy, context, dialect).0,
        ),
    decreases choices.len() - at,
{
    if at < choices.len() && choices[at].index == 0 && state.terminal is None {
        lemma_delta_shown(state, choices[at].delta, context, dialect);
        let (said, applied) = delta_step(state, choices[at].delta, context, dialect);
        if applied is Ok {
            let (ended, applied) = finish_step(said, raw[at], context, dialect);
            if applied is Ok {
                lemma_same_tools(said, ended);
                if let Some(usage) = merged_usage(usage, choices[at].usage, policy) {
                    lemma_choices_shown(ended, usage, choices, raw, at + 1, policy, context, dialect);
                }
            }
        }
    }
}

proof fn lemma_frame_shown<D: DialectHooks>(
    state: ResponseStateModel,
    data: Seq<char>,
    context: DialectContextModel,
    dialect: &D,
)
    requires
        tools_shown(state),
    ensures
        frame_step(state, data, context, dialect).1 is Ok ==> tools_shown(frame_step(state, data, context, dialect).0),
{
    let (next, applied) = frame_step(state, data, context, dialect);
    if applied is Ok {
        if data == "[DONE]"@ {
            lemma_same_tools(state, next);
        } else {
            let raw = json_parse(data)->Ok_0;
            let chunk = chunk_of(raw)->Ok_0;
            let known = id_step(ResponseStateModel { recognized: true, ..state }, chunk.id).0;
            let items = raw_choices(raw, chunk.choices.len())->Ok_0;
            let policy = dialect.policy_for(context)->Ok_0;
            lemma_same_tools(state, known);
            lemma_choices_shown(known, None, chunk.choices, items, 0, policy, context, dialect);
            let said = choices_step(known, None, chunk.choices, items, 0, policy, context, dialect).0;
            lemma_same_tools(said, next);
        }
    }
}

proof fn lemma_bytes_shown<D: DialectHooks>(
    framing: FramingModel,
    state: ResponseStateModel,
    bytes: Seq<u8>,
    at: int,
    context: DialectContextModel,
    dialect: &D,
)
    requires
        tools_shown(state),
        0 <= at <= bytes.len(),
    ensures
        bytes_step(framing, state, bytes, at, context, dialect).2 is Ok ==> tools_shown(
            bytes_step(framing, state, bytes, at, context, dialect).1,
        ),
    decreases bytes.len() - at,
{
    if at < bytes.len() {
        lemma_frame_shown(state, joined(framing.data), context, dialect);
        let (next_framing, next_state, applied) = byte_step(framing, state, bytes[at], context, dialect);
        if applied is Ok {
            lemma_bytes_shown(next_framing, next_state, bytes, at + 1, context, dialect);
        }
    }
}

proof fn lemma_fed_shown<D: DialectHooks>(
    session: SessionModel,
    fragments: Seq<Seq<u8>>,
    at: int,
    context: DialectContextModel,
    dialect: &D,
)
    requires
        session.deferred_error is None ==> tools_shown(session.state),
        0 <= at <= fragments.len(),
    ensures
        ({
            let (last, fed) = fragments_fed(session, fragments, at, context, dialect);
            fed is Ok && last.deferred_error is None ==> tools_shown(last.state)
        }),
    decreases fragments.len() - at,
{
    if at < fragments.len() {
        if session.deferred_error is None {
            lemma_bytes_shown(session.framing, session.state, fragments[at], 0, context, dialect);
        }
        let (next, fed) = feed_step(session, fragments[at], context, dialect);
        if fed is Ok {
            lemma_fed_shown(next, fragments, at + 1, context, dialect);
        }
    }
}

proof fn lemma_complete_shown(
    tools: Seq<PendingToolModel>,
    presented: Seq<PresentationDeltaModel>,
    at: int,
    done: Seq<ToolCallModel>,
)
    requires
        0 <= at <= tools.len(),
        done.len() == at,
        forall|i: int| 0 <= i < tools.len() ==> shown_so_far(#[trigger] tools[i], presented),
        forall|i: int|
            0 <= i < done.len() ==> (#[trigger] done[i]).function.arguments == shown_arguments(presented, tools[i].index),
    ensures
        complete_from(tools, at, done) matches Ok(calls) ==> calls.len() == tools.len() && forall|i: int|
            0 <= i < calls.len() ==> (#[trigger] calls[i]).function.arguments == shown_arguments(
                presented,
                tools[i].index,
            ),
    decreases tools.len() - at,
{
    if at < tools.len() {
        if let Ok(call) = complete_tool(tools[at]) {
            assert(shown_so_far(tools[at], presented));
            lemma_complete_shown(tools, presented, at + 1, done.push(call));
        }
    }
}

/// What was shown of a tool call is what may be committed of it: its arguments
/// are the deltas of one number, one after another.
pub proof fn law_shown_arguments_are_committed<D: DialectHooks>(
    fragments: Seq<Seq<u8>>,
    metadata: ResponseMetadataModel,
    context: DialectContextModel,
    dialect: &D,
    call: int,
)
    ensures
        decoded_stream(fragments, metadata, context, dialect) matches Ok(decoded) ==> (decoded.pending matches Some(
            pending,
        ) ==> 0 <= call < pending.tool_calls.len() ==> exists|index: usize|
            pending.tool_calls[call].function.arguments == #[trigger] shown_arguments(
                presented_stream(fragments, context, dialect),
                index,
            )),
{
    let fresh = fresh_session();
    assert(tools_shown(fresh.state)) by {
        assert forall|index: usize| tool_place_from(fresh.state.tools, index, 0) is None implies #[trigger] shown_arguments(
            fresh.state.presented,
            index,
        ) == Seq::<char>::empty() by {}
    }
    lemma_fed_shown(fresh, fragments, 0, context, dialect);
    let (session, fed) = fragments_fed(fresh, fragments, 0, context, dialect);
    if let Ok(decoded) = decoded_stream(fragments, metadata, context, dialect) {
        lemma_frame_shown(session.state, joined(session.framing.data), context, dialect);
        let (framing, lined_state, lined) = line_step(session.framing, session.state, context, dialect);
        if session.framing.line.len() > 0 {
            assert(lined_state == session.state);
            lemma_frame_shown(session.state, joined(framing.data), context, dialect);
        }
        let last = session_closed(session, context, dialect).0;
        assert(tools_shown(last));
        lemma_complete_shown(last.tools, last.presented, 0, Seq::empty());
        if let Some(pending) = decoded.pending {
            if 0 <= call < pending.tool_calls.len() {
                let index = last.tools[call].index;
                let presented = presented_stream(fragments, context, dialect);
                assert(presented == last.presented);
                assert(pending.tool_calls[call].function.arguments == shown_arguments(presented, index));
            }
        }
    }
}

} // verus!
