//! What a decoded response commits, and how that relates to what was shown of
//! it and to what is sent back later.
use crate::api::{item_name, ResponseEventModel};
use crate::claude_code::encoding_laws::{law_calls_are_kept, open_calls, said, still_open};
use crate::claude_code::history::native_history;
use crate::claude_code::stream::{
    block_done, feed_step, session_closed, session_end, BlockStateModel, PendingBlockModel,
};
use crate::claude_code::transport::{
    announcement, block_as_item, carried_back, commit_events, delta_event, delta_place, handed_out, items_from,
    stepped, told_from, tool_identity, NativeStreamErrorModel, StreamDriverModel, StreamInputModel,
    StreamItemModel,
};
use crate::claude_code::types::{
    ContentBlockModel, DecodedBlockModel, DecodedStreamModel, Message, PresentationDeltaModel, Role, Thinking,
};
use crate::json::{canonical, json_print, nesting, sorted, JsonModel};
use crate::protocol::{
    ContentItemModel, ModelInferenceConfigModel, ReasoningItemContentModel, ResponseItemModel, TerminalOutcome,
};
use crate::text::{decimal, lemma_decimal_distinct};
use vstd::prelude::*;

verus! {

/// The id of an item, where it has one.
pub open spec fn id_of(item: ResponseItemModel) -> Option<Seq<char>> {
    match item {
        ResponseItemModel::Message { id, .. } => id,
        ResponseItemModel::Reasoning { id, .. } => id,
        ResponseItemModel::FunctionCall { id, .. } => id,
        _ => None,
    }
}

/// Whether an item holds what a block of a response does.
pub open spec fn item_holds(item: ResponseItemModel, block: DecodedBlockModel) -> bool {
    match block {
        DecodedBlockModel::Text { text } => {
            &&& item is Message
            &&& item->Message_role == "assistant"@
            &&& item->Message_content.len() == 1
            &&& item->Message_content[0] == (ContentItemModel::OutputText { text })
        },
        DecodedBlockModel::Thinking { thinking, .. } => {
            &&& item is Reasoning
            &&& item->summary.len() == 0
            &&& item->Reasoning_content is Some
            &&& item->Reasoning_content->0.len() == 1
            &&& item->Reasoning_content->0[0] == (ReasoningItemContentModel::ReasoningText { text: thinking })
            &&& item->Reasoning_encrypted_content is Some
        },
        DecodedBlockModel::RedactedThinking { .. } => {
            &&& item is Reasoning
            &&& item->summary.len() == 0
            &&& item->Reasoning_content is None
            &&& item->Reasoning_encrypted_content is Some
        },
        DecodedBlockModel::ToolUse { id, name, input } => {
            &&& item is FunctionCall
            &&& item->FunctionCall_call_id == id
            &&& item->FunctionCall_name == name
            &&& item->namespace is None
            &&& item->FunctionCall_arguments == json_print(input)
        },
    }
}

/// Whether a block is thinking, readable or not.
pub open spec fn is_thinking(block: DecodedBlockModel) -> bool {
    block is Thinking || block is RedactedThinking
}

/// A block is committed as the item that holds what it does. A tool call is
/// committed under its own id, with its own name and input. Only thinking of a
/// model without a name cannot be committed.
pub proof fn law_a_block_is_committed_as_it_is(index: usize, model: Seq<char>, block: DecodedBlockModel)
    ensures
        block_as_item(index, model, block) is Ok <==> model.len() > 0 || !is_thinking(block),
        block_as_item(index, model, block) matches Ok(item) ==> item_holds(item, block) && id_of(item) is Some,
{
}

/// Whether an event commits an item that holds what a block does.
pub open spec fn event_commits(event: ResponseEventModel, block: DecodedBlockModel) -> bool {
    event is OutputItemDone && item_holds(event->OutputItemDone_0, block)
}

proof fn lemma_items(model: Seq<char>, blocks: Seq<DecodedBlockModel>, at: int, done: Seq<ResponseEventModel>)
    requires
        0 <= at <= blocks.len() <= usize::MAX,
        done.len() == at,
        forall|i: int| 0 <= i < at ==> event_commits(#[trigger] done[i], blocks[i]),
    ensures
        items_from(model, blocks, at, done) is Ok <==> forall|i: int|
            at <= i < blocks.len() ==> model.len() > 0 || !is_thinking(#[trigger] blocks[i]),
        items_from(model, blocks, at, done) matches Ok(events) ==> events.len() == blocks.len() && forall|i: int|
            0 <= i < blocks.len() ==> event_commits(#[trigger] events[i], blocks[i]),
    decreases blocks.len() - at,
{
    if at < blocks.len() {
        law_a_block_is_committed_as_it_is(at as usize, model, blocks[at]);
        if let Ok(item) = block_as_item(at as usize, model, blocks[at]) {
            let more = done.push(ResponseEventModel::OutputItemDone(item));
            assert forall|i: int| 0 <= i < at + 1 implies event_commits(#[trigger] more[i], blocks[i]) by {
                if i < at {
                    assert(event_commits(done[i], blocks[i]));
                }
            }
            lemma_items(model, blocks, at + 1, more);
        }
    }
}

/// A response that ended well commits one item for each of its blocks, in order,
/// and then that it is complete: under its id, with what it used, and with the
/// turn at its end if and only if the model ended it. A response that was cut off
/// or refused commits nothing.
pub proof fn law_every_block_is_committed(decoded: DecodedStreamModel)
    requires
        decoded.blocks.len() <= usize::MAX,
    ensures
        ({
            let commit = commit_events(decoded);
            let count = decoded.blocks.len() as int;
            let well = decoded.terminal_outcome != TerminalOutcome::OutputExhausted && decoded.terminal_outcome
                != TerminalOutcome::Refusal;
            &&& commit is Ok <==> well && forall|i: int|
                0 <= i < count ==> decoded.model.len() > 0 || !is_thinking(#[trigger] decoded.blocks[i])
            &&& !well ==> commit == Err::<Seq<ResponseEventModel>, _>(
                NativeStreamErrorModel::UnsuccessfulTerminal(decoded.terminal_outcome),
            )
            &&& commit matches Ok(events) ==> {
                &&& events.len() == count + 1
                &&& forall|i: int| 0 <= i < count ==> event_commits(#[trigger] events[i], decoded.blocks[i])
                &&& events[count] is Completed
                &&& events[count]->Completed_response_id == decoded.message_id
                &&& events[count]->Completed_token_usage == Some(decoded.token_usage)
                &&& events[count]->Completed_usage_metadata is None
                &&& events[count]->end_turn == Some(decoded.terminal_outcome == TerminalOutcome::Completed)
            }
        }),
{
    lemma_items(decoded.model, decoded.blocks, 0, Seq::empty());
    if let Ok(events) = commit_events(decoded) {
        let items = items_from(decoded.model, decoded.blocks, 0, Seq::empty())->Ok_0;
        assert forall|i: int| 0 <= i < decoded.blocks.len() implies event_commits(
            #[trigger] events[i],
            decoded.blocks[i],
        ) by {
            assert(event_commits(items[i], decoded.blocks[i]));
        }
    }
}

/// Whether a delta shows a part of a block.
pub open spec fn shows_part(delta: PresentationDeltaModel, block: PendingBlockModel) -> bool {
    match delta {
        PresentationDeltaModel::Text { .. } => block is Text,
        PresentationDeltaModel::Thinking { .. } => block is Thinking,
        PresentationDeltaModel::ToolInput { .. } => block is ToolUse,
    }
}

/// The item that a block is announced as is the one that it is committed as: it
/// has the same id, and a call the same call id and name. Every delta of the
/// block names that item, and a delta of a call the call.
pub proof fn law_what_is_announced_is_committed(
    blocks: Seq<BlockStateModel>,
    delta: PresentationDeltaModel,
    model: Seq<char>,
)
    requires
        delta_place(delta) < blocks.len(),
        shows_part(delta, blocks[delta_place(delta) as int].block),
        block_done(blocks[delta_place(delta) as int].block, delta_place(delta)) is Ok,
        model.len() > 0,
    ensures
        ({
            let index = delta_place(delta);
            let told = announcement(delta, tool_identity(blocks, index));
            let event = delta_event(delta, tool_identity(blocks, index));
            let item = block_as_item(index, model, block_done(blocks[index as int].block, index)->Ok_0)->Ok_0;
            let first = told->OutputItemAdded_0;
            &&& told is OutputItemAdded
            &&& id_of(first) is Some
            &&& id_of(first) == id_of(item)
            &&& first is Message <==> item is Message
            &&& first is Reasoning <==> item is Reasoning
            &&& first is FunctionCall <==> item is FunctionCall
            &&& first is FunctionCall ==> first->FunctionCall_call_id == item->FunctionCall_call_id
                && first->FunctionCall_name == item->FunctionCall_name && first->FunctionCall_arguments.len() == 0
            &&& match delta {
                PresentationDeltaModel::Text { delta, .. } => event == (ResponseEventModel::OutputTextDelta {
                    item_id: id_of(item),
                    delta,
                }),
                PresentationDeltaModel::Thinking { delta, .. } => event is ReasoningContentDelta
                    && event->ReasoningContentDelta_item_id == id_of(item) && event->ReasoningContentDelta_delta == delta
                    && (index <= i64::MAX ==> event->content_index == index),
                PresentationDeltaModel::ToolInput { delta, .. } => event == (ResponseEventModel::ToolCallInputDelta {
                    item_id: id_of(item)->0,
                    call_id: Some(item->FunctionCall_call_id),
                    delta,
                }),
            }
        }),
{
}

/// No two blocks of a response are committed under one id.
pub proof fn law_items_have_ids_of_their_own(
    first: usize,
    second: usize,
    model: Seq<char>,
    one: DecodedBlockModel,
    other: DecodedBlockModel,
)
    requires
        first != second,
        block_as_item(first, model, one) is Ok,
        block_as_item(second, model, other) is Ok,
    ensures
        id_of(block_as_item(first, model, one)->Ok_0) != id_of(block_as_item(second, model, other)->Ok_0),
{
    lemma_decimal_distinct(first as nat, second as nat);
    lemma_names_differ(decimal(first as nat), decimal(second as nat));
}

proof fn lemma_names_differ(one: Seq<char>, other: Seq<char>)
    requires
        one != other,
    ensures
        forall|p: Seq<char>, q: Seq<char>|
            (p == "msg"@ || p == "rs"@ || p == "fc"@) && (q == "msg"@ || q == "rs"@ || q == "fc"@)
                ==> #[trigger] item_name(p, "claude_"@ + one) != #[trigger] item_name(q, "claude_"@ + other),
{
    reveal_strlit("msg");
    reveal_strlit("rs");
    reveal_strlit("fc");
    reveal_strlit("_");
    assert forall|p: Seq<char>, q: Seq<char>|
        (p == "msg"@ || p == "rs"@ || p == "fc"@) && (q == "msg"@ || q == "rs"@ || q == "fc"@) implies #[trigger] item_name(
        p,
        "claude_"@ + one,
    ) != #[trigger] item_name(q, "claude_"@ + other) by {
        let left = item_name(p, "claude_"@ + one);
        let right = item_name(q, "claude_"@ + other);
        if left == right {
            assert(left[0] == p[0]);
            assert(right[0] == q[0]);
            assert(p == q);
            let start = p + "_"@ + "claude_"@;
            assert(left =~= start + one);
            assert(right =~= start + other);
            assert(left.skip(start.len() as int) =~= one);
            assert(right.skip(start.len() as int) =~= other);
        }
    }
}

/// A call that a response committed stands in the next request as the model made
/// it, wherever the conversation is: with the same id, the same name and the same
/// input.
pub proof fn law_calls_come_back(
    index: usize,
    model: Seq<char>,
    id: Seq<char>,
    name: Seq<char>,
    input: JsonModel,
    history: Seq<ResponseItemModel>,
    config: ModelInferenceConfigModel,
)
    requires
        carried_back(model, DecodedBlockModel::ToolUse { id, name, input }),
        canonical(input),
        nesting(input, 127),
        sorted(input) == input,
    ensures
        ({
            let item = block_as_item(index, model, DecodedBlockModel::ToolUse { id, name, input })->Ok_0;
            let before = native_history(history, config);
            let more = history.push(item);
            let after = native_history(more, config);
            &&& after is Ok <==> before is Ok && input is Object && !still_open(
                history,
                open_calls(history),
            ).contains(id)
            &&& after is Ok ==> said(more, config).last() == (
                Role::Assistant,
                ContentBlockModel::ToolUse { id, name, input },
            ) && open_calls(more).last() == id
        }),
{
    let item = block_as_item(index, model, DecodedBlockModel::ToolUse { id, name, input })->Ok_0;
    if let ResponseItemModel::FunctionCall { id, name, namespace, arguments, call_id } = item {
        law_calls_are_kept(history, config, id, name, namespace, arguments, call_id);
    }
}

// ---- what is told while a response comes ----

proof fn lemma_told(
    started: Seq<usize>,
    blocks: Seq<BlockStateModel>,
    deltas: Seq<PresentationDeltaModel>,
    more: PresentationDeltaModel,
    at: int,
    done: Seq<StreamItemModel>,
)
    requires
        0 <= at <= deltas.len(),
    ensures
        ({
            let (known, told) = told_from(started, blocks, deltas, at, done);
            let place = delta_place(more);
            let identity = tool_identity(blocks, place);
            let event = StreamItemModel::Event(delta_event(more, identity));
            told_from(started, blocks, deltas.push(more), at, done) == if known.contains(place) {
                (known, told.push(event))
            } else {
                (known.push(place), told.push(StreamItemModel::Event(announcement(more, identity))).push(event))
            }
        }),
    decreases deltas.len() - at,
{
    let all = deltas.push(more);
    if at < deltas.len() {
        assert(all[at] == deltas[at]);
        let index = delta_place(deltas[at]);
        let identity = tool_identity(blocks, index);
        let event = StreamItemModel::Event(delta_event(deltas[at], identity));
        if started.contains(index) {
            lemma_told(started, blocks, deltas, more, at + 1, done.push(event));
        } else {
            lemma_told(
                started.push(index),
                blocks,
                deltas,
                more,
                at + 1,
                done.push(StreamItemModel::Event(announcement(deltas[at], identity))).push(event),
            );
        }
    } else {
        reveal_with_fuel(told_from, 2);
        assert(all[at] == more);
    }
}

/// Every delta is told, in order and last; before the first delta of a block the
/// item that it is a part of is announced, and never again.
pub proof fn law_every_delta_is_told(
    started: Seq<usize>,
    blocks: Seq<BlockStateModel>,
    deltas: Seq<PresentationDeltaModel>,
    more: PresentationDeltaModel,
)
    ensures
        ({
            let (known, told) = told_from(started, blocks, deltas, 0, Seq::empty());
            let (now_known, all) = told_from(started, blocks, deltas.push(more), 0, Seq::empty());
            let place = delta_place(more);
            let event = StreamItemModel::Event(delta_event(more, tool_identity(blocks, place)));
            let added = StreamItemModel::Event(announcement(more, tool_identity(blocks, place)));
            &&& now_known.contains(place)
            &&& forall|other: usize| known.contains(other) ==> now_known.contains(other)
            &&& all.last() == event
            &&& known.contains(place) ==> all.len() == told.len() + 1 && all.take(told.len() as int) == told
            &&& !known.contains(place) ==> all.len() == told.len() + 2 && all.take(told.len() as int) == told
                && all[told.len() as int] == added
        }),
        told_from(started, blocks, Seq::empty(), 0, Seq::empty()) == (started, Seq::<StreamItemModel>::empty()),
{
    lemma_told(started, blocks, deltas, more, 0, Seq::empty());
    let (known, told) = told_from(started, blocks, deltas, 0, Seq::empty());
    let (now_known, all) = told_from(started, blocks, deltas.push(more), 0, Seq::empty());
    let place = delta_place(more);
    assert(all.take(told.len() as int) =~= told);
    if !known.contains(place) {
        assert(now_known == known.push(place));
        assert(now_known[known.len() as int] == place);
        assert forall|other: usize| known.contains(other) implies now_known.contains(other) by {
            let k = choose|k: int| 0 <= k < known.len() && known[k] == other;
            assert(now_known[k] == other);
        }
    }
}

/// A stream that was cancelled, was idle for too long or broke off tells just that
/// and ends. One that ends tells what is left of the response and then commits it
/// if it ended well, and fails if it did not. One that goes on commits nothing yet.
pub proof fn law_a_stream_ends_in_one_way(driver: StreamDriverModel, message: Seq<char>)
    ensures
        ({
            let step = stepped(driver, StreamInputModel::Cancelled);
            &&& step.next is None
            &&& step.items.len() == 1
            &&& step.items[0] == StreamItemModel::Failure(NativeStreamErrorModel::Cancelled)
        }),
        ({
            let step = stepped(driver, StreamInputModel::Idle);
            &&& step.next is None
            &&& step.items.len() == 1
            &&& step.items[0] == StreamItemModel::Failure(NativeStreamErrorModel::IdleTimeout)
        }),
        ({
            let step = stepped(driver, StreamInputModel::Failed(message));
            &&& step.next is None
            &&& step.items.len() == 1
            &&& step.items[0] == StreamItemModel::Failure(NativeStreamErrorModel::Transport(message))
        }),
        ({
            let step = stepped(driver, StreamInputModel::Ended);
            let last = session_closed(driver.session).0;
            let told = told_from(driver.started, last.state.blocks, last.state.presented, 0, Seq::empty()).1;
            &&& step.next is None
            &&& step.items.len() > told.len()
            &&& step.items.take(told.len() as int) == told
            &&& match session_end(driver.session) {
                Err(error) => step.items.len() == told.len() + 1 && step.items.last() == StreamItemModel::Failure(
                    NativeStreamErrorModel::Decode(error),
                ),
                Ok(decoded) => match commit_events(decoded) {
                    Err(error) => step.items.len() == told.len() + 1 && step.items.last() == StreamItemModel::Failure(
                        error,
                    ),
                    Ok(events) => step.items.len() == told.len() + events.len() && forall|i: int|
                        0 <= i < events.len() ==> step.items[told.len() + i] == StreamItemModel::Event(
                            #[trigger] events[i],
                        ),
                },
            }
        }),
{
    let step = stepped(driver, StreamInputModel::Ended);
    let last = session_closed(driver.session).0;
    let told = told_from(driver.started, last.state.blocks, last.state.presented, 0, Seq::empty()).1;
    assert(step.items.take(told.len() as int) =~= told);
}

/// Bytes that a stream brings are told as far as they show something. The stream
/// goes on where they neither break the response nor end it, with what was told
/// behind it; where they end it, it ends as if nothing more came.
pub proof fn law_bytes_are_told_at_once(driver: StreamDriverModel, bytes: Seq<u8>)
    ensures
        ({
            let step = stepped(driver, StreamInputModel::Bytes(bytes));
            let (session, fed) = feed_step(driver.session, bytes);
            let (started, told) = told_from(
                driver.started,
                session.state.blocks,
                session.state.presented,
                0,
                Seq::empty(),
            );
            &&& step.items.take(told.len() as int) == told
            &&& step.next is Some <==> fed is Ok && !session.state.stopped
            &&& step.next matches Some(next) ==> {
                &&& step.items == told
                &&& next.started == started
                &&& next.session.state.presented.len() == 0
                &&& next.session.state.blocks == session.state.blocks
                &&& next.session.state.message == session.state.message
                &&& next.session.state.usage == session.state.usage
                &&& next.session.state.outcome == session.state.outcome
                &&& next.session.frame == session.frame
                &&& next.session.saw_event == session.saw_event
            }
            &&& fed matches Err(error) ==> step.items == told.push(
                StreamItemModel::Failure(NativeStreamErrorModel::Decode(error)),
            )
            &&& fed is Ok && session.state.stopped ==> step.items.len() > told.len()
        }),
{
    let step = stepped(driver, StreamInputModel::Bytes(bytes));
    let (session, fed) = feed_step(driver.session, bytes);
    let (started, told) = told_from(driver.started, session.state.blocks, session.state.presented, 0, Seq::empty());
    let rest = handed_out(session);
    if fed is Ok && session.state.stopped {
        let last = session_closed(rest).0;
        lemma_told_behind(started, last.state.blocks, last.state.presented, 0, told);
    }
    assert(step.items.take(told.len() as int) =~= told);
}

proof fn lemma_told_behind(
    started: Seq<usize>,
    blocks: Seq<BlockStateModel>,
    deltas: Seq<PresentationDeltaModel>,
    at: int,
    done: Seq<StreamItemModel>,
)
    ensures
        ({
            let told = told_from(started, blocks, deltas, at, done).1;
            done.len() <= told.len() && told.take(done.len() as int) == done
        }),
    decreases deltas.len() - at,
{
    let told = told_from(started, blocks, deltas, at, done).1;
    if 0 <= at < deltas.len() {
        let index = delta_place(deltas[at]);
        let identity = tool_identity(blocks, index);
        let event = StreamItemModel::Event(delta_event(deltas[at], identity));
        let more = if started.contains(index) {
            done.push(event)
        } else {
            done.push(StreamItemModel::Event(announcement(deltas[at], identity))).push(event)
        };
        if started.contains(index) {
            lemma_told_behind(started, blocks, deltas, at + 1, more);
        } else {
            lemma_told_behind(started.push(index), blocks, deltas, at + 1, more);
        }
        assert(told.take(more.len() as int) == more);
        assert(told.take(done.len() as int) =~= done) by {
            assert forall|i: int| 0 <= i < done.len() implies told[i] == done[i] by {
                assert(told.take(more.len() as int)[i] == more[i]);
            }
        }
    } else {
        assert(told.take(done.len() as int) =~= done);
    }
}

} // verus!
