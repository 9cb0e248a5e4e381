//! What a decoded response holds of the events it came in.
use crate::claude_code::stream::{
    block_done, blocks_done_from, decoded_stream, event_step, events_step, fresh_state, outcome_of, sse_events,
    tokens_of, wire_step, BlockStateModel, DecodeErrorModel, PendingBlockModel, ResponseStateModel, SseEventModel,
};
use crate::claude_code::types::{DecodedBlockModel, Thinking, Usage};
use crate::claude_code::wire::{event_of, DeltaModel, DeltaUsage, StartBlockModel, StartMessageModel, WireEventModel};
use crate::json::{json_parse, JsonModel};
use crate::protocol::TerminalOutcome;
use crate::text::utf8_chars;
use vstd::prelude::*;

verus! {

/// What an event says.
pub open spec fn wire_in(event: SseEventModel) -> WireEventModel {
    event_of(json_parse(event.data)->Ok_0)->Ok_0
}

/// The blocks that events start, in order.
pub open spec fn starts_in(events: Seq<SseEventModel>) -> Seq<StartBlockModel>
    decreases events.len(),
{
    if events.len() == 0 {
        Seq::empty()
    } else {
        match wire_in(events.last()) {
            WireEventModel::ContentBlockStart { content_block, .. } => starts_in(events.drop_last()).push(content_block),
            _ => starts_in(events.drop_last()),
        }
    }
}

/// The text that events add to the block with a number, one part after another.
pub open spec fn text_in(events: Seq<SseEventModel>, number: int) -> Seq<char>
    decreases events.len(),
{
    if events.len() == 0 {
        Seq::empty()
    } else {
        let before = text_in(events.drop_last(), number);
        match wire_in(events.last()) {
            WireEventModel::ContentBlockDelta { index, delta: DeltaModel::Text { text } } => if index == number {
                before + text
            } else {
                before
            },
            _ => before,
        }
    }
}

/// The thinking that events add to the block with a number, one part after another.
pub open spec fn thinking_in(events: Seq<SseEventModel>, number: int) -> Seq<char>
    decreases events.len(),
{
    if events.len() == 0 {
        Seq::empty()
    } else {
        let before = thinking_in(events.drop_last(), number);
        match wire_in(events.last()) {
            WireEventModel::ContentBlockDelta { index, delta: DeltaModel::Thinking { thinking } } => if index == number {
                before + thinking
            } else {
                before
            },
            _ => before,
        }
    }
}

/// The signature that events add to the block with a number, one part after another.
pub open spec fn signature_in(events: Seq<SseEventModel>, number: int) -> Seq<char>
    decreases events.len(),
{
    if events.len() == 0 {
        Seq::empty()
    } else {
        let before = signature_in(events.drop_last(), number);
        match wire_in(events.last()) {
            WireEventModel::ContentBlockDelta { index, delta: DeltaModel::Signature { signature } } => if index == number {
                before + signature
            } else {
                before
            },
            _ => before,
        }
    }
}

/// The partial input that events add to the block with a number, one part after another.
pub open spec fn input_in(events: Seq<SseEventModel>, number: int) -> Seq<char>
    decreases events.len(),
{
    if events.len() == 0 {
        Seq::empty()
    } else {
        let before = input_in(events.drop_last(), number);
        match wire_in(events.last()) {
            WireEventModel::ContentBlockDelta { index, delta: DeltaModel::InputJson { partial_json } } => if index == number {
                before + partial_json
            } else {
                before
            },
            _ => before,
        }
    }
}

/// The last message that events start.
pub open spec fn message_in(events: Seq<SseEventModel>) -> Option<StartMessageModel>
    decreases events.len(),
{
    if events.len() == 0 {
        None
    } else {
        match wire_in(events.last()) {
            WireEventModel::MessageStart { message } => Some(message),
            _ => message_in(events.drop_last()),
        }
    }
}

/// The last end that events give, and what was used until then.
pub open spec fn end_in(events: Seq<SseEventModel>) -> Option<(Option<Seq<char>>, DeltaUsage)>
    decreases events.len(),
{
    if events.len() == 0 {
        None
    } else {
        match wire_in(events.last()) {
            WireEventModel::MessageDelta { stop_reason, usage } => Some((stop_reason, usage)),
            _ => end_in(events.drop_last()),
        }
    }
}

/// Whether a block that is not done yet is the one with a number that events give.
pub open spec fn block_in(block: PendingBlockModel, events: Seq<SseEventModel>, number: int) -> bool {
    match starts_in(events)[number] {
        StartBlockModel::Text { .. } => block == PendingBlockModel::Text(text_in(events, number)),
        StartBlockModel::Thinking { .. } => block == (PendingBlockModel::Thinking {
            thinking: thinking_in(events, number),
            signature: signature_in(events, number),
        }),
        StartBlockModel::RedactedThinking { data } => block == PendingBlockModel::RedactedThinking(data),
        StartBlockModel::ToolUse { id, name, .. } => block == (PendingBlockModel::ToolUse {
            id,
            name,
            input: input_in(events, number),
        }),
    }
}

spec fn quiet_beyond(events: Seq<SseEventModel>, number: int) -> bool {
    &&& text_in(events, number).len() == 0
    &&& thinking_in(events, number).len() == 0
    &&& signature_in(events, number).len() == 0
    &&& input_in(events, number).len() == 0
}

spec fn holds_events(state: ResponseStateModel, events: Seq<SseEventModel>) -> bool {
    &&& state.blocks.len() == starts_in(events).len()
    &&& forall|i: int| 0 <= i < state.blocks.len() ==> #[trigger] block_in(state.blocks[i].block, events, i)
    &&& forall|i: int| state.blocks.len() <= i ==> #[trigger] quiet_beyond(events, i)
    &&& match message_in(events) {
        None => state.message is None && state.usage is None && state.outcome is None && end_in(events) is None,
        Some(message) => state.message == Some((message.id, message.model)) && state.usage == Some(
            match end_in(events) {
                None => message.usage,
                Some((_, usage)) => Usage {
                    output_tokens: usage.output_tokens,
                    thinking_tokens: usage.thinking_tokens,
                    ..message.usage
                },
            },
        ),
    }
    &&& match end_in(events) {
        None => state.outcome is None,
        Some((reason, _)) => reason is Some && outcome_of(reason->0) is Ok && state.outcome == Some(
            outcome_of(reason->0)->Ok_0,
        ),
    }
}

proof fn lemma_event(state: ResponseStateModel, events: Seq<SseEventModel>, event: SseEventModel)
    requires
        holds_events(state, events),
    ensures
        event_step(state, event.event, event.data).1 is Ok ==> holds_events(
            event_step(state, event.event, event.data).0,
            events.push(event),
        ),
{
    let (next, applied) = event_step(state, event.event, event.data);
    if applied is Ok {
        let more = events.push(event);
        assert(more.drop_last() =~= events);
        let wire = wire_in(event);
        assert((next, applied) == wire_step(state, event.event, wire));
        assert forall|i: int| 0 <= i < next.blocks.len() implies #[trigger] block_in(next.blocks[i].block, more, i) by {
            if i < state.blocks.len() {
                assert(block_in(state.blocks[i].block, events, i));
                assert(starts_in(more)[i] == starts_in(events)[i]);
            } else {
                assert(quiet_beyond(events, i));
                assert(text_in(events, i) =~= Seq::empty());
                assert(thinking_in(events, i) =~= Seq::empty());
                assert(signature_in(events, i) =~= Seq::empty());
                assert(input_in(events, i) =~= Seq::empty());
                if let WireEventModel::ContentBlockStart { content_block, .. } = wire {
                    match content_block {
                        StartBlockModel::Text { text } => {
                            assert(text =~= Seq::empty());
                        },
                        StartBlockModel::Thinking { thinking } => {
                            assert(thinking =~= Seq::empty());
                        },
                        _ => {},
                    }
                }
            }
        }
        assert forall|i: int| next.blocks.len() <= i implies #[trigger] quiet_beyond(more, i) by {
            assert(quiet_beyond(events, i));
        }
    }
}

proof fn lemma_events(state: ResponseStateModel, events: Seq<SseEventModel>, at: int)
    requires
        0 <= at <= events.len(),
        holds_events(state, events.take(at)),
    ensures
        events_step(state, events, at).1 is Ok ==> holds_events(events_step(state, events, at).0, events),
    decreases events.len() - at,
{
    if at < events.len() {
        lemma_event(state, events.take(at), events[at]);
        assert(events.take(at).push(events[at]) =~= events.take(at + 1));
        let (next, applied) = event_step(state, events[at].event, events[at].data);
        if applied is Ok {
            lemma_events(next, events, at + 1);
        }
    } else {
        assert(events.take(at) =~= events);
    }
}

/// Whether a decoded block is the one with a number that events give: its text or
/// its thinking and signature are the parts they add, and a call has the id and
/// the name it was started with, and as input what the parts they add parse to.
pub open spec fn decoded_in(block: DecodedBlockModel, events: Seq<SseEventModel>, number: int) -> bool {
    match starts_in(events)[number] {
        StartBlockModel::Text { .. } => block == (DecodedBlockModel::Text { text: text_in(events, number) }),
        StartBlockModel::Thinking { .. } => block == (DecodedBlockModel::Thinking {
            thinking: thinking_in(events, number),
            signature: signature_in(events, number),
        }),
        StartBlockModel::RedactedThinking { data } => block == (DecodedBlockModel::RedactedThinking { data }),
        StartBlockModel::ToolUse { id, name, .. } => block is ToolUse && block->ToolUse_id == id && block->ToolUse_name
            == name && json_parse(input_in(events, number)) == Ok::<JsonModel, Seq<char>>(block->ToolUse_input),
    }
}

proof fn lemma_done(
    blocks: Seq<BlockStateModel>,
    events: Seq<SseEventModel>,
    at: int,
    done: Seq<DecodedBlockModel>,
)
    requires
        0 <= at <= blocks.len(),
        done.len() == at,
        forall|i: int| 0 <= i < blocks.len() ==> #[trigger] block_in(blocks[i].block, events, i),
        forall|i: int| 0 <= i < at ==> #[trigger] decoded_in(done[i], events, i),
    ensures
        blocks_done_from(blocks, at, done) matches Ok(all) ==> all.len() == blocks.len() && forall|i: int|
            0 <= i < blocks.len() ==> #[trigger] decoded_in(all[i], events, i),
    decreases blocks.len() - at,
{
    if at < blocks.len() {
        if let Ok(block) = block_done(blocks[at].block, at as usize) {
            assert(block_in(blocks[at].block, events, at));
            let more = done.push(block);
            assert forall|i: int| 0 <= i < at + 1 implies #[trigger] decoded_in(more[i], events, i) by {
                if i < at {
                    assert(decoded_in(done[i], events, i));
                }
            }
            lemma_done(blocks, events, at + 1, more);
        }
    }
}

/// A response that was decoded is what its events say: it has the id and the model
/// it was started with, one block for each that was started, in order, with the
/// parts that came for it one after another, the end that was given, and the usage
/// it was started with but for what the model gave, which is told at the end.
pub proof fn law_a_response_holds_what_its_events_do(body: Seq<u8>, events: Seq<SseEventModel>)
    requires
        utf8_chars(body) is Some,
        sse_events(utf8_chars(body)->0) == Ok::<Seq<SseEventModel>, DecodeErrorModel>(events),
    ensures
        decoded_stream(body) matches Ok(decoded) ==> {
            &&& message_in(events) is Some
            &&& decoded.message_id == message_in(events)->0.id
            &&& decoded.model == message_in(events)->0.model
            &&& decoded.blocks.len() == starts_in(events).len()
            &&& forall|i: int| 0 <= i < decoded.blocks.len() ==> #[trigger] decoded_in(decoded.blocks[i], events, i)
            &&& end_in(events) is Some
            &&& (end_in(events)->0).0 is Some
            &&& Ok::<TerminalOutcome, DecodeErrorModel>(decoded.terminal_outcome) == outcome_of(
                (end_in(events)->0).0->0,
            )
            &&& decoded.usage.input_tokens == message_in(events)->0.usage.input_tokens
            &&& decoded.usage.cache_creation_input_tokens == message_in(events)->0.usage.cache_creation_input_tokens
            &&& decoded.usage.cache_read_input_tokens == message_in(events)->0.usage.cache_read_input_tokens
            &&& decoded.usage.cache_creation == message_in(events)->0.usage.cache_creation
            &&& decoded.usage.output_tokens == (end_in(events)->0).1.output_tokens
            &&& decoded.usage.thinking_tokens == (end_in(events)->0).1.thinking_tokens
            &&& decoded.token_usage == tokens_of(decoded.usage)
        },
{
    if let Ok(decoded) = decoded_stream(body) {
        let start = fresh_state();
        assert(events.take(0) =~= Seq::empty());
        assert forall|i: int| start.blocks.len() <= i implies #[trigger] quiet_beyond(events.take(0), i) by {}
        lemma_events(start, events, 0);
        let (state, _) = events_step(start, events, 0);
        lemma_done(state.blocks, events, 0, Seq::empty());
    }
}

/// A part of an optional count.
pub open spec fn count_of(count: Option<u64>) -> int {
    match count {
        Some(count) => count as int,
        None => 0,
    }
}

/// What is told of the usage are its own counts: as input all that was read, from
/// the cache, into it or past it, and as total input and output together.
pub proof fn law_usage_is_told_in_full(usage: Usage)
    requires
        usage.input_tokens + count_of(usage.cache_read_input_tokens) + count_of(usage.cache_creation_input_tokens)
            + usage.output_tokens <= i64::MAX,
        count_of(usage.thinking_tokens) <= i64::MAX,
    ensures
        ({
            let told = tokens_of(usage);
            &&& told.cached_input_tokens == count_of(usage.cache_read_input_tokens)
            &&& told.cache_write_input_tokens == count_of(usage.cache_creation_input_tokens)
            &&& told.input_tokens == usage.input_tokens + count_of(usage.cache_read_input_tokens) + count_of(
                usage.cache_creation_input_tokens,
            )
            &&& told.output_tokens == usage.output_tokens
            &&& told.reasoning_output_tokens == count_of(usage.thinking_tokens)
            &&& told.total_tokens == told.input_tokens + told.output_tokens
        }),
{
}

proof fn lemma_reasons()
    ensures
        "end_turn"@ != "stop_sequence"@,
        "end_turn"@ != "tool_use"@,
        "end_turn"@ != "pause_turn"@,
        "end_turn"@ != "max_tokens"@,
        "end_turn"@ != "refusal"@,
        "end_turn"@ != "safety"@,
        "stop_sequence"@ != "tool_use"@,
        "stop_sequence"@ != "pause_turn"@,
        "stop_sequence"@ != "max_tokens"@,
        "stop_sequence"@ != "refusal"@,
        "stop_sequence"@ != "safety"@,
        "tool_use"@ != "pause_turn"@,
        "tool_use"@ != "max_tokens"@,
        "tool_use"@ != "refusal"@,
        "tool_use"@ != "safety"@,
        "pause_turn"@ != "max_tokens"@,
        "pause_turn"@ != "refusal"@,
        "pause_turn"@ != "safety"@,
        "max_tokens"@ != "refusal"@,
        "max_tokens"@ != "safety"@,
        "refusal"@ != "safety"@,
{
    reveal_strlit("end_turn");
    reveal_strlit("stop_sequence");
    reveal_strlit("tool_use");
    reveal_strlit("pause_turn");
    reveal_strlit("max_tokens");
    reveal_strlit("refusal");
    reveal_strlit("safety");
    assert("end_turn"@.len() != "stop_sequence"@.len());
    assert("end_turn"@[0] != "tool_use"@[0]);
    assert("end_turn"@.len() != "pause_turn"@.len());
    assert("end_turn"@.len() != "max_tokens"@.len());
    assert("end_turn"@.len() != "refusal"@.len());
    assert("end_turn"@.len() != "safety"@.len());
    assert("stop_sequence"@.len() != "tool_use"@.len());
    assert("stop_sequence"@.len() != "pause_turn"@.len());
    assert("stop_sequence"@.len() != "max_tokens"@.len());
    assert("stop_sequence"@.len() != "refusal"@.len());
    assert("stop_sequence"@.len() != "safety"@.len());
    assert("tool_use"@.len() != "pause_turn"@.len());
    assert("tool_use"@.len() != "max_tokens"@.len());
    assert("tool_use"@.len() != "refusal"@.len());
    assert("tool_use"@.len() != "safety"@.len());
    assert("pause_turn"@[0] != "max_tokens"@[0]);
    assert("pause_turn"@.len() != "refusal"@.len());
    assert("pause_turn"@.len() != "safety"@.len());
    assert("max_tokens"@.len() != "refusal"@.len());
    assert("max_tokens"@.len() != "safety"@.len());
    assert("refusal"@.len() != "safety"@.len());
}

/// Why a model stops says how a response ended: the end of its turn or a stop
/// sequence completes it, tool use leaves tools to run, a pause is to be gone on
/// from, the limit exhausts it, and a refusal or the safety of its content refuses
/// it. No other reason is known.
pub proof fn law_reasons_to_stop(reason: Seq<char>)
    ensures
        outcome_of(reason) == Ok::<TerminalOutcome, DecodeErrorModel>(TerminalOutcome::Completed) <==> reason
            == "end_turn"@ || reason == "stop_sequence"@,
        outcome_of(reason) == Ok::<TerminalOutcome, DecodeErrorModel>(TerminalOutcome::ToolsReady) <==> reason
            == "tool_use"@,
        outcome_of(reason) == Ok::<TerminalOutcome, DecodeErrorModel>(TerminalOutcome::Continue) <==> reason
            == "pause_turn"@,
        outcome_of(reason) == Ok::<TerminalOutcome, DecodeErrorModel>(TerminalOutcome::OutputExhausted) <==> reason
            == "max_tokens"@,
        outcome_of(reason) == Ok::<TerminalOutcome, DecodeErrorModel>(TerminalOutcome::Refusal) <==> reason
            == "refusal"@ || reason == "safety"@,
        outcome_of(reason) matches Err(error) ==> error == DecodeErrorModel::UnknownStopReason(reason),
{
    lemma_reasons();
}

// ---- the order of events ----

/// Whether a part can be added to a block.
pub open spec fn takes(block: PendingBlockModel, delta: DeltaModel) -> bool {
    match delta {
        DeltaModel::Text { .. } => block is Text,
        DeltaModel::Thinking { .. } => block is Thinking,
        DeltaModel::Signature { .. } => block is Thinking,
        DeltaModel::InputJson { .. } => block is ToolUse,
    }
}

/// Whether an event may come next: a message starts once, empty and as the model's;
/// blocks start one after another and empty, once it did and before its end; parts
/// come for a block that is open and takes them; a block is closed once, thinking
/// only when it is signed; the end is given once, when all blocks are closed and for
/// a reason that is known; and only then the message stops. An error never fits.
pub open spec fn fits(state: ResponseStateModel, wire: WireEventModel) -> bool {
    match wire {
        WireEventModel::Ping => true,
        WireEventModel::MessageStart { message } => state.message is None && message.kind == "message"@ && message.role
            == "assistant"@ && message.content.len() == 0 && message.stop_reason is Null && message.stop_sequence is Null,
        WireEventModel::ContentBlockStart { index, content_block } => state.message is Some && state.outcome is None
            && index == state.blocks.len() && match content_block {
            StartBlockModel::Text { text } => text.len() == 0,
            StartBlockModel::Thinking { thinking } => thinking.len() == 0,
            StartBlockModel::RedactedThinking { .. } => true,
            StartBlockModel::ToolUse { input, .. } => input is Object && input->Object_0.len() == 0,
        },
        WireEventModel::ContentBlockDelta { index, delta } => index < state.blocks.len()
            && !state.blocks[index as int].stopped && takes(state.blocks[index as int].block, delta),
        WireEventModel::ContentBlockStop { index } => index < state.blocks.len() && !state.blocks[index as int].stopped
            && (state.blocks[index as int].block matches PendingBlockModel::Thinking { signature, .. }
            ==> signature.len() > 0),
        WireEventModel::MessageDelta { stop_reason, .. } => state.message is Some && state.outcome is None && (forall|
            i: int,
        |
            0 <= i < state.blocks.len() ==> (#[trigger] state.blocks[i]).stopped) && stop_reason is Some && outcome_of(
            stop_reason->0,
        ) is Ok && state.usage is Some,
        WireEventModel::MessageStop => state.message is Some && state.outcome is Some,
        WireEventModel::Error { .. } => false,
    }
}

/// An event is taken if and only if it fits. It closes the block it closes and stops
/// the message it stops; otherwise nothing is closed or stopped. An error that the
/// provider sends is told as it is.
pub proof fn law_events_are_taken_in_order(state: ResponseStateModel, event: Seq<char>, wire: WireEventModel)
    ensures
        ({
            let (next, applied) = wire_step(state, event, wire);
            &&& applied is Ok <==> fits(state, wire)
            &&& applied is Ok ==> {
                &&& next.stopped <==> state.stopped || wire is MessageStop
                &&& next.blocks.len() == state.blocks.len() + if wire is ContentBlockStart {
                    1int
                } else {
                    0
                }
                &&& forall|i: int|
                    0 <= i < state.blocks.len() ==> ((#[trigger] next.blocks[i]).stopped <==> state.blocks[i].stopped
                        || (wire is ContentBlockStop && wire->ContentBlockStop_index == i))
                &&& wire is ContentBlockStart ==> !next.blocks.last().stopped
            }
            &&& wire matches WireEventModel::Error { error_type, message } ==> applied == Err::<(), _>(
                DecodeErrorModel::ProviderError { error_type, message },
            )
        }),
{
}

proof fn lemma_labels()
    ensures
        "ping"@ != "message_start"@,
        "ping"@ != "content_block_start"@,
        "ping"@ != "content_block_delta"@,
        "ping"@ != "content_block_stop"@,
        "ping"@ != "message_delta"@,
        "ping"@ != "message_stop"@,
        "ping"@ != "error"@,
        "message_start"@ != "content_block_start"@,
        "message_start"@ != "content_block_delta"@,
        "message_start"@ != "content_block_stop"@,
        "message_start"@ != "message_delta"@,
        "message_start"@ != "message_stop"@,
        "message_start"@ != "error"@,
        "content_block_start"@ != "content_block_delta"@,
        "content_block_start"@ != "content_block_stop"@,
        "content_block_start"@ != "message_delta"@,
        "content_block_start"@ != "message_stop"@,
        "content_block_start"@ != "error"@,
        "content_block_delta"@ != "content_block_stop"@,
        "content_block_delta"@ != "message_delta"@,
        "content_block_delta"@ != "message_stop"@,
        "content_block_delta"@ != "error"@,
        "content_block_stop"@ != "message_delta"@,
        "content_block_stop"@ != "message_stop"@,
        "content_block_stop"@ != "error"@,
        "message_delta"@ != "message_stop"@,
        "message_delta"@ != "error"@,
        "message_stop"@ != "error"@,
{
    reveal_strlit("ping");
    reveal_strlit("message_start");
    reveal_strlit("content_block_start");
    reveal_strlit("content_block_delta");
    reveal_strlit("content_block_stop");
    reveal_strlit("message_delta");
    reveal_strlit("message_stop");
    reveal_strlit("error");
    assert("ping"@.len() != "message_start"@.len());
    assert("ping"@.len() != "content_block_start"@.len());
    assert("ping"@.len() != "content_block_delta"@.len());
    assert("ping"@.len() != "content_block_stop"@.len());
    assert("ping"@.len() != "message_delta"@.len());
    assert("ping"@.len() != "message_stop"@.len());
    assert("ping"@.len() != "error"@.len());
    assert("message_start"@.len() != "content_block_start"@.len());
    assert("message_start"@.len() != "content_block_delta"@.len());
    assert("message_start"@.len() != "content_block_stop"@.len());
    assert("message_start"@[8] != "message_delta"@[8]);
    assert("message_start"@.len() != "message_stop"@.len());
    assert("message_start"@.len() != "error"@.len());
    assert("content_block_start"@[14] != "content_block_delta"@[14]);
    assert("content_block_start"@.len() != "content_block_stop"@.len());
    assert("content_block_start"@.len() != "message_delta"@.len());
    assert("content_block_start"@.len() != "message_stop"@.len());
    assert("content_block_start"@.len() != "error"@.len());
    assert("content_block_delta"@.len() != "content_block_stop"@.len());
    assert("content_block_delta"@.len() != "message_delta"@.len());
    assert("content_block_delta"@.len() != "message_stop"@.len());
    assert("content_block_delta"@.len() != "error"@.len());
    assert("content_block_stop"@.len() != "message_delta"@.len());
    assert("content_block_stop"@.len() != "message_stop"@.len());
    assert("content_block_stop"@.len() != "error"@.len());
    assert("message_delta"@.len() != "message_stop"@.len());
    assert("message_delta"@.len() != "error"@.len());
    assert("message_stop"@.len() != "error"@.len());
}

/// An event is taken by its name, which its data has to say too, and nothing is taken
/// behind the end. A name that is not known is refused.
pub proof fn law_events_go_by_their_name(state: ResponseStateModel, event: Seq<char>, data: Seq<char>)
    ensures
        ({
            let (next, applied) = event_step(state, event, data);
            let wire = event_of(json_parse(data)->Ok_0);
            &&& applied is Ok ==> json_parse(data) is Ok && wire is Ok && wire->Ok_0.label() == event && !state.stopped
                && fits(state, wire->Ok_0)
            &&& json_parse(data) is Ok && wire is Ok && wire->Ok_0.label() == event && !state.stopped ==> (next, applied)
                == wire_step(state, event, wire->Ok_0)
            &&& event != "ping"@ && event != "message_start"@ && event != "content_block_start"@ && event
                != "content_block_delta"@ && event != "content_block_stop"@ && event != "message_delta"@ && event
                != "message_stop"@ && event != "error"@ ==> applied == Err::<(), _>(
                DecodeErrorModel::UnknownEvent(event),
            )
        }),
{
    lemma_labels();
    let wire = event_of(json_parse(data)->Ok_0);
    if wire is Ok {
        law_events_are_taken_in_order(state, event, wire->Ok_0);
    }
}

} // verus!
