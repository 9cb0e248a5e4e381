//! What a Kimi response commits, what it is said to have used, and how its
//! failures are told.
use crate::api::{header_from, item_name, ApiErrorModel, HttpHeaderModel, ResponseEventModel, TransportErrorModel};
use crate::claude_code::types::Message;
use crate::fields::lemma_lookup_at;
use crate::json::{member, JsonModel};
use crate::kimi_chat::client::{
    between, call_item, calls_from, classified, classified_transport, committed, completion, dated, header_delay,
    mapped_error, mapped_usage, message_events, numbered, overflow_words, quota_words, reasoning_events, shown,
    stepped, told_from, tool_item_from, KimiStreamDriverModel, KimiStreamInputModel, KimiStreamItemModel, Moment,
    PresentationStateModel,
};
use crate::kimi_chat::request::{KimiReasoningModel, KimiToolCallModel};
use crate::kimi_chat::stream::{decoded, fed, terminal_named};
use crate::kimi_chat::stream_types::{
    KimiDecodedResponseModel, KimiStreamErrorModel, KimiStreamEventModel, KimiTerminal, KimiUsage,
};
use crate::protocol::{ContentItemModel, ReasoningItemContentModel, ResponseItemModel};
use crate::text::{lowercase, mentions, occurs, whole_number};
use vstd::prelude::*;

verus! {

// ---- what is committed ----

/// The items that events say are done, in order.
pub open spec fn done_items(events: Seq<ResponseEventModel>) -> Seq<ResponseItemModel>
    decreases events.len(),
{
    if events.len() == 0 {
        Seq::empty()
    } else {
        match events.last() {
            ResponseEventModel::OutputItemDone(item) => done_items(events.drop_last()).push(item),
            _ => done_items(events.drop_last()),
        }
    }
}

/// The items that events announce, in order.
pub open spec fn added_items(events: Seq<ResponseEventModel>) -> Seq<ResponseItemModel>
    decreases events.len(),
{
    if events.len() == 0 {
        Seq::empty()
    } else {
        match events.last() {
            ResponseEventModel::OutputItemAdded(item) => added_items(events.drop_last()).push(item),
            _ => added_items(events.drop_last()),
        }
    }
}

proof fn lemma_items_push(events: Seq<ResponseEventModel>, event: ResponseEventModel)
    ensures
        done_items(events.push(event)) == match event {
            ResponseEventModel::OutputItemDone(item) => done_items(events).push(item),
            _ => done_items(events),
        },
        added_items(events.push(event)) == match event {
            ResponseEventModel::OutputItemAdded(item) => added_items(events).push(item),
            _ => added_items(events),
        },
{
    assert(events.push(event).drop_last() =~= events);
}

proof fn lemma_items_sum(first: Seq<ResponseEventModel>, second: Seq<ResponseEventModel>)
    ensures
        done_items(first + second) == done_items(first) + done_items(second),
        added_items(first + second) == added_items(first) + added_items(second),
    decreases second.len(),
{
    if second.len() == 0 {
        assert(first + second =~= first);
        assert(done_items(first) + done_items(second) =~= done_items(first));
        assert(added_items(first) + added_items(second) =~= added_items(first));
    } else {
        lemma_items_sum(first, second.drop_last());
        assert((first + second).drop_last() =~= first + second.drop_last());
        assert((first + second).last() == second.last());
        assert(done_items(first + second) =~= done_items(first) + done_items(second));
        assert(added_items(first + second) =~= added_items(first) + added_items(second));
    }
}

/// Whether an item is a call as the model made it.
pub open spec fn is_call(item: ResponseItemModel, call: KimiToolCallModel) -> bool {
    &&& item is FunctionCall
    &&& item->FunctionCall_id is Some
    &&& item->FunctionCall_call_id == call.id
    &&& item->FunctionCall_name == call.function.name
    &&& item->namespace is None
    &&& item->FunctionCall_arguments == call.function.arguments
}

/// Whether an item is the reasoning of a response, with what marks it.
pub open spec fn is_reasoning(item: ResponseItemModel, reasoning: KimiReasoningModel) -> bool {
    &&& item is Reasoning
    &&& item->Reasoning_id is Some
    &&& item->summary.len() == 0
    &&& item->Reasoning_content is Some
    &&& item->Reasoning_content->0.len() == 1
    &&& item->Reasoning_content->0[0] == (ReasoningItemContentModel::ReasoningText { text: reasoning.text })
    &&& item->Reasoning_encrypted_content == Some(reasoning.marker)
}

/// Whether an item is the text of a response.
pub open spec fn is_text(item: ResponseItemModel, text: Seq<char>) -> bool {
    &&& item is Message
    &&& item->Message_id is Some
    &&& item->Message_role == "assistant"@
    &&& item->Message_content.len() == 1
    &&& item->Message_content[0] == (ContentItemModel::OutputText { text })
}

/// Whether a call is done as the model made it, among items and behind some of them.
pub open spec fn call_done(
    items: Seq<ResponseItemModel>,
    behind: int,
    calls: Seq<KimiToolCallModel>,
    number: int,
    ids: Seq<(usize, Seq<char>)>,
) -> bool {
    is_call(items[behind + number], calls[number]) && under_its_id(items[behind + number], ids, number)
}

proof fn lemma_calls(
    state: PresentationStateModel,
    calls: Seq<KimiToolCallModel>,
    at: int,
    fresh: Seq<char>,
    done: Seq<ResponseEventModel>,
)
    requires
        0 <= at <= calls.len(),
    ensures
        ({
            let events = calls_from(state, calls, at, fresh, done).1;
            let before = done_items(done).len() as int;
            let items = done_items(events);
            &&& items.len() == before + calls.len() - at
            &&& items.take(before) == done_items(done)
            &&& forall|i: int|
                at <= i < calls.len() ==> #[trigger] call_done(items, before - at, calls, i, state.tool_item_ids)
        }),
    decreases calls.len() - at,
{
    let before = done_items(done);
    if at < calls.len() {
        let called = calls[at];
        let (next, name, told) = match tool_item_from(state.tool_item_ids, at as usize, 0) {
            Some(name) => (state, name, done),
            None => {
                let name = item_name("fc"@, numbered(fresh, at));
                (
                    PresentationStateModel { tool_item_ids: state.tool_item_ids.push((at as usize, name)), ..state },
                    name,
                    done.push(
                        ResponseEventModel::OutputItemAdded(
                            call_item(name, called.id, called.function.name, Seq::empty()),
                        ),
                    ),
                )
            },
        };
        let item = call_item(name, called.id, called.function.name, called.function.arguments);
        lemma_items_push(
            done,
            ResponseEventModel::OutputItemAdded(call_item(name, called.id, called.function.name, Seq::empty())),
        );
        lemma_items_push(told, ResponseEventModel::OutputItemDone(item));
        let more = told.push(ResponseEventModel::OutputItemDone(item));
        assert(done_items(more) == before.push(item));
        lemma_calls(next, calls, at + 1, fresh, more);
        let items = done_items(calls_from(state, calls, at, fresh, done).1);
        assert(items.take(before.len() as int) =~= before) by {
            assert forall|i: int| 0 <= i < before.len() implies items[i] == before[i] by {
                assert(items.take(before.len() as int + 1)[i] == items[i]);
            }
        }
        assert(items[before.len() as int] == item) by {
            assert(items.take(before.len() as int + 1)[before.len() as int] == items[before.len() as int]);
        }
        let shift = before.len() - at;
        assert forall|i: int| at <= i < calls.len() implies #[trigger] call_done(
            items,
            shift,
            calls,
            i,
            state.tool_item_ids,
        ) by {
            if i > at {
                assert(done_items(more).len() - (at + 1) == shift);
                assert(call_done(items, shift, calls, i, next.tool_item_ids));
                if tool_item_from(state.tool_item_ids, i as usize, 0) is Some {
                    lemma_item_kept(state.tool_item_ids, (at as usize, name), i as usize, 0);
                }
            }
        }
    } else {
        assert(before.take(before.len() as int) =~= before);
    }
}

/// Whether a call has the id that the call with its number was announced by, where
/// it was.
pub open spec fn under_its_id(item: ResponseItemModel, ids: Seq<(usize, Seq<char>)>, number: int) -> bool {
    0 <= number <= usize::MAX && tool_item_from(ids, number as usize, 0) is Some ==> item->FunctionCall_id
        == tool_item_from(ids, number as usize, 0)
}

proof fn lemma_item_kept(ids: Seq<(usize, Seq<char>)>, more: (usize, Seq<char>), index: usize, at: int)
    requires
        0 <= at <= ids.len(),
        tool_item_from(ids, index, at) is Some,
    ensures
        tool_item_from(ids.push(more), index, at) == tool_item_from(ids, index, at),
    decreases ids.len() - at,
{
    if at < ids.len() {
        assert(ids.push(more)[at] == ids[at]);
        if ids[at].0 != index {
            lemma_item_kept(ids, more, index, at + 1);
        }
    }
}

/// A response that is committed has its reasoning done first where there is any,
/// then its text where there is any, then every call in order, each as the model
/// made it; and then it is complete, under its id, with the usage it reported, if
/// any, with its trace, and with the turn at its end if and only if the model
/// ended it. An item that was announced before is done under the id it was
/// announced by.
pub proof fn law_a_response_is_committed_as_it_is(
    state: PresentationStateModel,
    response: KimiDecodedResponseModel,
    fresh: Seq<char>,
)
    ensures
        completion(state, response, fresh) is Ok <==> response.pending is Some && (response.usage is Some
            ==> mapped_usage(response.usage->0) is Ok),
        completion(state, response, fresh) matches Ok(events) ==> {
            let pending = response.pending->0;
            let items = done_items(events);
            let thought: int = if pending.reasoning.text.len() > 0 {
                1
            } else {
                0
            };
            let spoken: int = if pending.content.len() > 0 {
                1
            } else {
                0
            };
            let last = events.last();
            &&& events.len() > 0
            &&& last is Completed
            &&& last->Completed_response_id == response.response_id
            &&& last->Completed_token_usage == match response.usage {
                None => None,
                Some(usage) => Some(mapped_usage(usage)->Ok_0),
            }
            &&& last->end_turn == Some(response.terminal is Completed)
            &&& match response.trace_id {
                None => last->Completed_usage_metadata is None,
                Some(trace) => last->Completed_usage_metadata is Some
                    && last->Completed_usage_metadata->0.amount is None
                    && last->Completed_usage_metadata->0.metadata is Some && member(
                    last->Completed_usage_metadata->0.metadata->0,
                    "x-trace-id"@,
                ) == Some(JsonModel::Text(trace)),
            }
            &&& items.len() == thought + spoken + pending.tool_calls.len()
            &&& pending.reasoning.text.len() > 0 ==> is_reasoning(items[0], pending.reasoning)
            &&& pending.content.len() > 0 ==> is_text(items[thought], pending.content)
            &&& forall|i: int|
                0 <= i < pending.tool_calls.len() ==> #[trigger] call_done(
                    items,
                    thought + spoken,
                    pending.tool_calls,
                    i,
                    state.tool_item_ids,
                )
            &&& state.reasoning_item_id is Some && pending.reasoning.text.len() > 0 ==> items[0]->Reasoning_id
                == state.reasoning_item_id
            &&& state.message_item_id is Some && pending.content.len() > 0 ==> items[thought]->Message_id
                == state.message_item_id
        },
{
    if let Ok(events) = completion(state, response, fresh) {
        let pending = response.pending->0;
        let (one, reasoning) = reasoning_events(state, pending.reasoning, fresh);
        let (two, message) = message_events(one, pending.content, fresh);
        lemma_few(reasoning);
        lemma_few(message);
        lemma_items_sum(reasoning, message);
        let done = reasoning + message;
        lemma_calls(two, pending.tool_calls, 0, fresh, done);
        let all = calls_from(two, pending.tool_calls, 0, fresh, done).1;
        lemma_items_push(all, events.last());
        assert(events == all.push(events.last()));
        let items = done_items(events);
        let before = done_items(done);
        let count = before.len() as int;
        assert(items.take(count) == before);
        assert(forall|i: int| 0 <= i < count ==> #[trigger] items[i] == items.take(count)[i]);
        let thought: int = if pending.reasoning.text.len() > 0 {
            1
        } else {
            0
        };
        let spoken: int = if pending.content.len() > 0 {
            1
        } else {
            0
        };
        assert(done_items(reasoning).len() == thought);
        assert(done_items(message).len() == spoken);
        assert(count == thought + spoken);
        if thought == 1 {
            assert(items[0] == done_items(reasoning)[0]);
            assert(is_reasoning(items[0], pending.reasoning));
        }
        if spoken == 1 {
            assert(items[thought] == done_items(message)[0]);
            assert(is_text(items[thought], pending.content));
        }
        assert(two.tool_item_ids == state.tool_item_ids);
        if let Some(trace) = response.trace_id {
            let entries = seq![("x-trace-id"@, JsonModel::Text(trace))];
            lemma_lookup_at(entries, 0);
        }
    }
}

proof fn lemma_few(events: Seq<ResponseEventModel>)
    ensures
        events.len() == 0 ==> done_items(events) == Seq::<ResponseItemModel>::empty(),
        events.len() == 1 && events[0] is OutputItemDone ==> done_items(events) == seq![
            events[0]->OutputItemDone_0,
        ],
        events.len() == 2 && events[0] is OutputItemAdded && events[1] is OutputItemDone ==> done_items(events)
            == seq![events[1]->OutputItemDone_0],
{
    reveal_with_fuel(done_items, 3);
    if events.len() == 1 && events[0] is OutputItemDone {
        assert(events.drop_last() =~= Seq::empty());
        assert(done_items(events) =~= seq![events[0]->OutputItemDone_0]);
    }
    if events.len() == 2 && events[0] is OutputItemAdded && events[1] is OutputItemDone {
        assert(events.drop_last().drop_last() =~= Seq::empty());
        assert(events.drop_last().last() == events[0]);
        assert(done_items(events) =~= seq![events[1]->OutputItemDone_0]);
    }
}

// ---- usage ----

/// Usage is told as it was reported, number for number; nothing was written to a
/// cache. It is refused if and only if one of the numbers is too large.
pub proof fn law_usage_is_told_as_reported(usage: KimiUsage)
    ensures
        mapped_usage(usage) is Ok <==> usage.prompt_tokens <= i64::MAX && usage.cached_prompt_tokens <= i64::MAX
            && usage.completion_tokens <= i64::MAX && usage.reasoning_tokens <= i64::MAX && usage.total_tokens
            <= i64::MAX,
        mapped_usage(usage) matches Ok(told) ==> {
            &&& told.input_tokens == usage.prompt_tokens
            &&& told.cached_input_tokens == usage.cached_prompt_tokens
            &&& told.cache_write_input_tokens == 0
            &&& told.output_tokens == usage.completion_tokens
            &&& told.reasoning_output_tokens == usage.reasoning_tokens
            &&& told.total_tokens == usage.total_tokens
        },
{
}

// ---- failures ----

/// A response that ran out of room or was filtered is never committed; one that
/// ended well always is, as it stands.
pub proof fn law_only_good_ends_are_committed(response: KimiDecodedResponseModel)
    ensures
        committed(response) is Ok <==> response.terminal is Completed || response.terminal is ToolsReady,
        committed(response) matches Ok(same) ==> same == response,
        committed(response) matches Err(error) ==> error is InvalidTransition,
{
}

/// Why a model stops says how a response ended: a stop completes it, calls leave
/// tools to run, a length or a limit exhausts it, and a filter refuses it. No other
/// reason is known.
pub proof fn law_reasons_to_stop(reason: Seq<char>)
    ensures
        terminal_named(reason) == Ok::<KimiTerminal, KimiStreamErrorModel>(KimiTerminal::Completed) <==> reason
            == "stop"@,
        terminal_named(reason) == Ok::<KimiTerminal, KimiStreamErrorModel>(KimiTerminal::ToolsReady) <==> reason
            == "tool_calls"@ || reason == "function_call"@,
        terminal_named(reason) == Ok::<KimiTerminal, KimiStreamErrorModel>(KimiTerminal::OutputExhausted) <==> reason
            == "length"@ || reason == "max_tokens"@,
        terminal_named(reason) == Ok::<KimiTerminal, KimiStreamErrorModel>(KimiTerminal::Refusal) <==> reason
            == "content_filter"@,
        terminal_named(reason) matches Err(error) ==> error == KimiStreamErrorModel::UnknownFinishReason(reason),
{
    lemma_reasons();
}

proof fn lemma_reasons()
    ensures
        "stop"@ != "tool_calls"@,
        "stop"@ != "function_call"@,
        "stop"@ != "length"@,
        "stop"@ != "max_tokens"@,
        "stop"@ != "content_filter"@,
        "tool_calls"@ != "function_call"@,
        "tool_calls"@ != "length"@,
        "tool_calls"@ != "max_tokens"@,
        "tool_calls"@ != "content_filter"@,
        "function_call"@ != "length"@,
        "function_call"@ != "max_tokens"@,
        "function_call"@ != "content_filter"@,
        "length"@ != "max_tokens"@,
        "length"@ != "content_filter"@,
        "max_tokens"@ != "content_filter"@,
{
    reveal_strlit("stop");
    reveal_strlit("tool_calls");
    reveal_strlit("function_call");
    reveal_strlit("length");
    reveal_strlit("max_tokens");
    reveal_strlit("content_filter");
    assert("stop"@.len() != "tool_calls"@.len());
    assert("stop"@.len() != "function_call"@.len());
    assert("stop"@.len() != "length"@.len());
    assert("stop"@.len() != "max_tokens"@.len());
    assert("stop"@.len() != "content_filter"@.len());
    assert("tool_calls"@.len() != "function_call"@.len());
    assert("tool_calls"@.len() != "length"@.len());
    assert("tool_calls"@[0] != "max_tokens"@[0]);
    assert("tool_calls"@.len() != "content_filter"@.len());
    assert("function_call"@.len() != "length"@.len());
    assert("function_call"@.len() != "max_tokens"@.len());
    assert("function_call"@.len() != "content_filter"@.len());
    assert("length"@.len() != "max_tokens"@.len());
    assert("length"@.len() != "content_filter"@.len());
    assert("max_tokens"@.len() != "content_filter"@.len());
}

/// Whether a text tells, in whatever case, that the input was too long.
pub open spec fn tells_overflow(text: Seq<char>) -> bool {
    let small = lowercase(text);
    occurs(small, "context window"@) || occurs(small, "context limit"@) || occurs(small, "maximum context length"@)
        || occurs(small, "prompt is too long"@) || occurs(small, "too many input tokens"@)
}

/// Whether a text tells, in whatever case, that a quota is used up.
pub open spec fn tells_quota(text: Seq<char>) -> bool {
    let small = lowercase(text);
    occurs(small, "quota_exceeded"@) || occurs(small, "insufficient_quota"@) || occurs(small, "billing_error"@)
        || occurs(small, "credit balance is too low"@) || occurs(small, "exceeded your current quota"@) || occurs(
        small,
        "usage_limit"@,
    )
}

proof fn lemma_words(text: Seq<char>)
    ensures
        mentions(text, overflow_words()) <==> tells_overflow(text),
        mentions(text, quota_words()) <==> tells_quota(text),
{
    let small = lowercase(text);
    let long = overflow_words();
    let used = quota_words();
    if tells_overflow(text) {
        assert(occurs(small, long[0]) || occurs(small, long[1]) || occurs(small, long[2]) || occurs(small, long[3])
            || occurs(small, long[4]));
    }
    if tells_quota(text) {
        assert(occurs(small, used[0]) || occurs(small, used[1]) || occurs(small, used[2]) || occurs(small, used[3])
            || occurs(small, used[4]) || occurs(small, used[5]));
    }
    if mentions(text, long) {
        let i = choose|i: int| 0 <= i < long.len() && occurs(small, #[trigger] long[i]);
        assert(i == 0 || i == 1 || i == 2 || i == 3 || i == 4);
    }
    if mentions(text, used) {
        let i = choose|i: int| 0 <= i < used.len() && occurs(small, #[trigger] used[i]);
        assert(i == 0 || i == 1 || i == 2 || i == 3 || i == 4 || i == 5);
    }
}

/// An answer that tells that the input was too long is just that, whatever its
/// status, and so is one that tells that a quota is used up; every other is to be
/// tried again where its status says that the trouble may pass, and stays as it is
/// where it does not. A failure without an answer stays as it is.
pub proof fn law_answers_are_told_apart(error: TransportErrorModel, now: Moment)
    ensures
        match error {
            TransportErrorModel::Http { status, headers, body, .. } => {
                let text = if body is Some {
                    body->0
                } else {
                    Seq::empty()
                };
                let told = classified_transport(error, now);
                let passes = status == 408 || status == 409 || status == 429 || status == 529 || (status >= 500
                    && status <= 599);
                &&& told is ContextWindowExceeded <==> tells_overflow(text)
                &&& told is QuotaExceeded <==> tells_quota(text) && !tells_overflow(text)
                &&& told is Retryable <==> passes && !tells_quota(text) && !tells_overflow(text)
                &&& told is Retryable ==> told->delay == if headers is Some {
                    header_delay(headers->0, now)
                } else {
                    None
                }
                &&& told is Transport ==> told == ApiErrorModel::Transport(error)
                &&& told is Transport <==> !passes && !tells_quota(text) && !tells_overflow(text)
            },
            _ => classified_transport(error, now) == ApiErrorModel::Transport(error),
        },
{
    if let TransportErrorModel::Http { body, .. } = error {
        lemma_words(
            if body is Some {
                body->0
            } else {
                Seq::empty()
            },
        );
    }
}

/// An overloaded server and a limit on the rate are to be tried again; a failure of
/// the transport is told by its answer; every other failure stays as it is.
pub proof fn law_failures_are_told_apart(error: ApiErrorModel, now: Moment)
    ensures
        match error {
            ApiErrorModel::Transport(inner) => classified(error, now) == classified_transport(inner, now),
            ApiErrorModel::ServerOverloaded => classified(error, now) is Retryable && classified(error, now)->delay
                is None,
            ApiErrorModel::RateLimit(message) => classified(error, now) == (ApiErrorModel::Retryable {
                message,
                delay: None,
            }),
            _ => classified(error, now) == error,
        },
{
}

/// How long to wait is what the answer asks for: its milliseconds where it gives
/// them, or else its seconds, or else the time to its date where that is still to
/// come. Without any of these it is left open.
pub proof fn law_the_asked_wait_is_kept(headers: Seq<HttpHeaderModel>, now: Moment)
    ensures
        ({
            let millis = header_from(headers, "retry-after-ms"@, 0);
            let value = header_from(headers, "retry-after"@, 0);
            let delay = header_delay(headers, now);
            if millis is Some && whole_number(millis->0) is Some {
                delay is Some && delay->0.seconds * 1000 * 1_000_000 + delay->0.nanos == whole_number(millis->0)->0
                    * 1_000_000 && delay->0.nanos < 1_000_000_000
            } else if value is None {
                delay is None
            } else if whole_number(value->0) is Some {
                delay is Some && delay->0.seconds == whole_number(value->0)->0 && delay->0.nanos == 0
            } else {
                match dated(value->0) {
                    None => delay is None,
                    Some(date) => if date.seconds > now.seconds || (date.seconds == now.seconds && date.nanos
                        > now.nanos) {
                        delay == between(date, now)
                    } else {
                        delay is None
                    },
                }
            }
        }),
{
    if let Some(text) = header_from(headers, "retry-after-ms"@, 0) {
        if let Some(count) = whole_number(text) {
            assert(count == (count / 1000) * 1000 + count % 1000) by (nonlinear_arith);
        }
    }
}

/// A stream that was cut or garbled is told as a failure of the stream, which may
/// be tried again; what the model did against the rules of the protocol is told as
/// an invalid request. A stop without output is a failure of the stream too.
pub proof fn law_stream_errors_are_told_apart(error: KimiStreamErrorModel)
    ensures
        mapped_error(error) is Stream <==> error is EmptyStream || error is InvalidUtf8 || error is MalformedFraming
            || error is MalformedChunk || error is PrematureEof || error == KimiStreamErrorModel::InvalidTransition(
            "successful terminal had no content"@,
        ),
        !(mapped_error(error) is Stream) ==> mapped_error(error) is InvalidRequest,
{
}

// ---- what is told while a response comes ----

/// What an event shows is told: a delta of the text or of the reasoning with just that
/// text; a call that was not announced yet by its own call id and name and without
/// arguments; and the arguments of a call, where there are any, under its call id and
/// the id it was announced by.
pub proof fn law_events_are_told_as_they_are(
    state: PresentationStateModel,
    event: KimiStreamEventModel,
    fresh: Seq<char>,
)
    ensures
        ({
            let (next, told) = shown(state, event, fresh);
            match event {
                KimiStreamEventModel::Content { delta, .. } => {
                    &&& told.len() > 0
                    &&& told.last() is OutputTextDelta
                    &&& told.last()->OutputTextDelta_delta == delta
                    &&& state.message_item_id is Some ==> told.len() == 1 && next == state
                    &&& state.message_item_id is None ==> told.len() == 2 && told[0] is OutputItemAdded
                        && told[0]->OutputItemAdded_0 is Message && told[0]->OutputItemAdded_0->Message_id
                        == next.message_item_id && next.message_item_id is Some
                        && told[0]->OutputItemAdded_0->Message_content.len() == 0
                },
                KimiStreamEventModel::Reasoning { delta, .. } => {
                    &&& told.len() > 0
                    &&& told.last() is ReasoningContentDelta
                    &&& told.last()->ReasoningContentDelta_delta == delta
                    &&& state.reasoning_item_id is Some ==> told.len() == 1 && next == state
                    &&& state.reasoning_item_id is None ==> told.len() == 2 && told[0] is OutputItemAdded
                        && told[0]->OutputItemAdded_0 is Reasoning && told[0]->OutputItemAdded_0->Reasoning_id
                        == next.reasoning_item_id && next.reasoning_item_id is Some
                },
                KimiStreamEventModel::ToolCall { index, id, name, arguments_delta, .. } => {
                    let known = tool_item_from(state.tool_item_ids, index, 0);
                    let item = tool_item_from(next.tool_item_ids, index, 0);
                    let announced: int = if known is Some {
                        0
                    } else {
                        1
                    };
                    &&& item is Some
                    &&& known is Some ==> next == state
                    &&& known is None ==> told.len() > 0 && told[0] is OutputItemAdded && is_announced_call(
                        told[0]->OutputItemAdded_0,
                        item,
                        id,
                        name,
                    )
                    &&& arguments_delta.len() > 0 ==> told.len() == announced + 1 && told[announced] == (
                    ResponseEventModel::ToolCallInputDelta {
                        item_id: item->0,
                        call_id: Some(id),
                        delta: arguments_delta,
                    })
                    &&& arguments_delta.len() == 0 ==> told.len() == announced
                },
            }
        }),
{
    if let KimiStreamEventModel::ToolCall { index, .. } = event {
        if tool_item_from(state.tool_item_ids, index, 0) is None {
            let item = item_name("fc"@, fresh);
            lemma_item_added(state.tool_item_ids, (index, item), 0);
        }
    }
}

/// Whether an item announces a call that has no arguments yet.
pub open spec fn is_announced_call(
    item: ResponseItemModel,
    id: Option<Seq<char>>,
    call_id: Seq<char>,
    name: Seq<char>,
) -> bool {
    &&& item is FunctionCall
    &&& item->FunctionCall_id == id
    &&& item->FunctionCall_call_id == call_id
    &&& item->FunctionCall_name == name
    &&& item->namespace is None
    &&& item->FunctionCall_arguments.len() == 0
}

proof fn lemma_item_added(ids: Seq<(usize, Seq<char>)>, more: (usize, Seq<char>), at: int)
    requires
        0 <= at <= ids.len(),
        tool_item_from(ids, more.0, at) is None,
    ensures
        tool_item_from(ids.push(more), more.0, at) == Some(more.1),
    decreases ids.len() - at,
{
    if at < ids.len() {
        assert(ids.push(more)[at] == ids[at]);
        lemma_item_added(ids, more, at + 1);
    } else {
        assert(ids.push(more)[at] == more);
    }
}

/// A stream that was idle for too long or broke off tells just that and ends. One that
/// ends commits its response if it ended well, and fails if it did not.
pub proof fn law_a_stream_ends_in_one_way(
    driver: KimiStreamDriverModel,
    error: TransportErrorModel,
    now: Moment,
    fresh: Seq<char>,
)
    ensures
        ({
            let step = stepped(driver, KimiStreamInputModel::Idle, fresh);
            &&& step.next is None
            &&& step.items.len() == 1
            &&& step.items[0] is Failure
            &&& step.items[0]->Failure_0 is Stream
        }),
        ({
            let step = stepped(driver, KimiStreamInputModel::Failed { error, now }, fresh);
            &&& step.next is None
            &&& step.items.len() == 1
            &&& step.items[0] == KimiStreamItemModel::Failure(classified_transport(error, now))
        }),
        ({
            let step = stepped(driver, KimiStreamInputModel::Ended, fresh);
            let response = decoded(driver.decoder);
            let good = response is Ok && (response->Ok_0.terminal is Completed || response->Ok_0.terminal
                is ToolsReady);
            &&& step.next is None
            &&& !good ==> step.items.len() == 1 && step.items[0] is Failure
            &&& response is Err ==> step.items[0] == KimiStreamItemModel::Failure(mapped_error(response->Err_0))
            &&& good ==> match completion(driver.presentation, response->Ok_0, fresh) {
                Err(error) => step.items.len() == 1 && step.items[0] == KimiStreamItemModel::Failure(error),
                Ok(events) => step.items.len() == events.len() && forall|i: int|
                    0 <= i < events.len() ==> step.items[i] == KimiStreamItemModel::Event(#[trigger] events[i]),
            }
        }),
{
}

/// Bytes that a stream brings are told as far as they show something. The stream goes
/// on where they neither break the response nor announce its end.
pub proof fn law_bytes_are_told_at_once(driver: KimiStreamDriverModel, bytes: Seq<u8>, fresh: Seq<char>)
    ensures
        ({
            let step = stepped(driver, KimiStreamInputModel::Bytes(bytes), fresh);
            let (decoder, events) = fed(driver.decoder, bytes);
            &&& step.next is Some <==> events is Ok && !decoder.state.done
            &&& events matches Err(error) ==> step.items.len() == 1 && step.items[0] == KimiStreamItemModel::Failure(
                mapped_error(error),
            )
            &&& step.next matches Some(next) ==> next.decoder == decoder && (next.presentation, step.items)
                == told_from(driver.presentation, events->Ok_0, 0, fresh, Seq::empty())
            &&& events is Ok && decoder.state.done ==> {
                let told = told_from(driver.presentation, events->Ok_0, 0, fresh, Seq::empty()).1;
                step.items.len() > told.len() && step.items.take(told.len() as int) == told
            }
        }),
{
    let step = stepped(driver, KimiStreamInputModel::Bytes(bytes), fresh);
    let (decoder, events) = fed(driver.decoder, bytes);
    if events is Ok && decoder.state.done {
        let (state, told) = told_from(driver.presentation, events->Ok_0, 0, fresh, Seq::empty());
        assert(step.items.take(told.len() as int) =~= told);
    }
}

} // verus!
