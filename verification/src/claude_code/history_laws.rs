//! How calls and their results stand in an encoded conversation.
use crate::chat_completions::encoder::visible_texts;
use crate::claude_code::history::{
    call_input, group_role, item_added, items_added, native_history, orphan_result, pushed, replay_for, replayed,
    resolved, resolved_before_assistant, Group, Grouped,
};
use crate::claude_code::history_content::{agent_text, message_blocks_from, result_of};
use crate::claude_code::laws::{lemma_message_plain, lemma_replay_plain, plain_blocks};
use crate::claude_code::policy::profile_of;
use crate::claude_code::types::{ContentBlockModel, MessageModel, Role};
use crate::json::json_parse;
use crate::protocol::{InferenceDialect, ModelInferenceConfigModel, ResponseItemModel};
use crate::text::{lemma_place, place};
use vstd::multiset::Multiset;
use vstd::prelude::*;

verus! {

/// The names of the calls among blocks, in order.
pub open spec fn calls_of(blocks: Seq<ContentBlockModel>) -> Seq<Seq<char>>
    decreases blocks.len(),
{
    if blocks.len() == 0 {
        Seq::empty()
    } else {
        match blocks.last() {
            ContentBlockModel::ToolUse { id, .. } => calls_of(blocks.drop_last()).push(id),
            _ => calls_of(blocks.drop_last()),
        }
    }
}

/// The names of the calls that are answered among blocks, in order.
pub open spec fn results_of(blocks: Seq<ContentBlockModel>) -> Seq<Seq<char>>
    decreases blocks.len(),
{
    if blocks.len() == 0 {
        Seq::empty()
    } else {
        match blocks.last() {
            ContentBlockModel::ToolResult { tool_use_id, .. } => results_of(blocks.drop_last()).push(tool_use_id),
            _ => results_of(blocks.drop_last()),
        }
    }
}

/// Whether blocks are results and nothing else.
pub open spec fn only_results(blocks: Seq<ContentBlockModel>) -> bool {
    forall|i: int| 0 <= i < blocks.len() ==> (#[trigger] blocks[i]) is ToolResult
}

/// Whether behind every message with calls stands one with exactly their
/// results, each once and nothing else.
pub open spec fn answered_next(messages: Seq<MessageModel>) -> bool {
    forall|i: int|
        0 <= i < messages.len() && calls_of((#[trigger] messages[i]).content).len() > 0 ==> i + 1 < messages.len()
            && messages[i].role == Role::Assistant && messages[i + 1].role == Role::User && only_results(
            messages[i + 1].content,
        ) && results_of(messages[i + 1].content).to_multiset() == calls_of(messages[i].content).to_multiset()
}

proof fn lemma_calls_sum(left: Seq<ContentBlockModel>, right: Seq<ContentBlockModel>)
    ensures
        calls_of(left + right) == calls_of(left) + calls_of(right),
        results_of(left + right) == results_of(left) + results_of(right),
    decreases right.len(),
{
    let all = left + right;
    if right.len() == 0 {
        assert(all =~= left);
        assert(calls_of(left) + calls_of(right) =~= calls_of(left));
        assert(results_of(left) + results_of(right) =~= results_of(left));
    } else {
        assert(all.drop_last() =~= left + right.drop_last());
        assert(all.last() == right.last());
        lemma_calls_sum(left, right.drop_last());
        assert(calls_of(all) =~= calls_of(left) + calls_of(right));
        assert(results_of(all) =~= results_of(left) + results_of(right));
    }
}

proof fn lemma_plain_calls(blocks: Seq<ContentBlockModel>)
    requires
        plain_blocks(blocks),
    ensures
        calls_of(blocks).len() == 0,
    decreases blocks.len(),
{
    if blocks.len() > 0 {
        assert(!(blocks[blocks.len() - 1] is ToolUse));
        lemma_plain_calls(blocks.drop_last());
    }
}

proof fn lemma_result_calls(blocks: Seq<ContentBlockModel>)
    requires
        only_results(blocks),
    ensures
        calls_of(blocks).len() == 0,
    decreases blocks.len(),
{
    if blocks.len() > 0 {
        assert(blocks[blocks.len() - 1] is ToolResult);
        lemma_result_calls(blocks.drop_last());
    }
}

/// Whether the blocks of a message fit its group, in its role: results stand by
/// themselves, and only the model calls.
pub open spec fn in_group(grouped: (Group, MessageModel)) -> bool {
    &&& grouped.1.role == group_role(grouped.0)
    &&& grouped.0 == Group::ToolResults ==> only_results(grouped.1.content)
    &&& grouped.0 != Group::Assistant ==> calls_of(grouped.1.content).len() == 0
}

/// Whether a message holds exactly the results of the calls of another, but for
/// those that are open.
pub open spec fn answers(
    caller: (Group, MessageModel),
    results: (Group, MessageModel),
    open: Multiset<Seq<char>>,
) -> bool {
    calls_of(caller.1.content).to_multiset() == results_of(results.1.content).to_multiset().add(open)
}

/// Whether the message at a place stands as it should: results follow their
/// calls directly, and are complete where they are not the last message.
pub open spec fn stands(messages: Grouped, i: int) -> bool {
    &&& in_group(messages[i])
    &&& i + 1 < messages.len() && calls_of(messages[i].1.content).len() > 0 ==> messages[i + 1].0 == Group::ToolResults
    &&& messages[i].0 == Group::ToolResults ==> i > 0 && messages[i - 1].0 == Group::Assistant
    &&& i + 2 < messages.len() && messages[i + 1].0 == Group::ToolResults ==> answers(
        messages[i],
        messages[i + 1],
        Multiset::empty(),
    )
}

/// Whether the open calls are those of the last message that are not answered
/// yet.
pub open spec fn open_at_end(messages: Grouped, pending: Seq<Seq<char>>) -> bool {
    if messages.len() == 0 || messages.last().0 == Group::User {
        pending.len() == 0
    } else if messages.last().0 == Group::Assistant {
        calls_of(messages.last().1.content).to_multiset() == pending.to_multiset()
    } else {
        answers(messages[messages.len() - 2], messages.last(), pending.to_multiset())
    }
}

/// Whether the calls of a transcript and their results stand as they should.
pub open spec fn paired(messages: Grouped, pending: Seq<Seq<char>>) -> bool {
    &&& forall|i: int| 0 <= i < messages.len() ==> #[trigger] stands(messages, i)
    &&& open_at_end(messages, pending)
}

proof fn lemma_none_open(pending: Seq<Seq<char>>)
    requires
        pending.len() == 0,
    ensures
        pending.to_multiset() == Multiset::<Seq<char>>::empty(),
{
    broadcast use vstd::multiset::group_multiset_axioms;

    pending.to_multiset_ensures();
    assert(pending =~= Seq::empty());
    assert(pending.to_multiset() =~= Multiset::empty()) by {
        assert forall|name: Seq<char>| pending.to_multiset().count(name) == 0 by {
            assert(!pending.contains(name));
        }
    }
}

proof fn lemma_none_waits(messages: Grouped, pending: Seq<Seq<char>>)
    requires
        open_at_end(messages, pending),
        pending.len() == 0,
    ensures
        messages.len() > 0 && messages.last().0 == Group::Assistant ==> calls_of(messages.last().1.content).len() == 0,
        messages.len() > 0 && messages.last().0 == Group::ToolResults ==> answers(
            messages[messages.len() - 2],
            messages.last(),
            Multiset::empty(),
        ),
{
    lemma_none_open(pending);
    if messages.len() > 0 && messages.last().0 == Group::Assistant {
        vstd::seq_lib::to_multiset_len(calls_of(messages.last().1.content));
        vstd::seq_lib::to_multiset_len(pending);
    }
}

proof fn lemma_user_pushed(messages: Grouped, pending: Seq<Seq<char>>, blocks: Seq<ContentBlockModel>)
    requires
        paired(messages, pending),
        pending.len() == 0,
        plain_blocks(blocks),
    ensures
        paired(pushed(messages, Group::User, blocks), pending),
{
    let next = pushed(messages, Group::User, blocks);
    let count = messages.len() as int;
    lemma_plain_calls(blocks);
    lemma_none_waits(messages, pending);
    if count > 0 && messages.last().0 == Group::User {
        lemma_calls_sum(messages.last().1.content, blocks);
    }
    assert forall|i: int| 0 <= i < next.len() implies #[trigger] stands(next, i) by {
        if i < count {
            assert(stands(messages, i));
        }
        if i + 1 < count {
            assert(stands(messages, i + 1));
        }
    }
}

proof fn lemma_assistant_pushed(
    messages: Grouped,
    pending: Seq<Seq<char>>,
    blocks: Seq<ContentBlockModel>,
    open: Seq<Seq<char>>,
)
    requires
        paired(messages, pending),
        messages.len() > 0 && messages.last().0 == Group::ToolResults ==> pending.len() == 0,
        open == pending + calls_of(blocks),
    ensures
        paired(pushed(messages, Group::Assistant, blocks), open),
{
    let next = pushed(messages, Group::Assistant, blocks);
    let count = messages.len() as int;
    vstd::seq_lib::lemma_multiset_commutative(pending, calls_of(blocks));
    if count > 0 && messages.last().0 == Group::Assistant {
        lemma_calls_sum(messages.last().1.content, blocks);
        vstd::seq_lib::lemma_multiset_commutative(calls_of(messages.last().1.content), calls_of(blocks));
    } else {
        lemma_none_waits(messages, pending);
        assert(open =~= calls_of(blocks));
    }
    assert forall|i: int| 0 <= i < next.len() implies #[trigger] stands(next, i) by {
        if i < count {
            assert(stands(messages, i));
        }
        if i + 1 < count {
            assert(stands(messages, i + 1));
        }
    }
}

proof fn lemma_results_pushed(
    messages: Grouped,
    pending: Seq<Seq<char>>,
    blocks: Seq<ContentBlockModel>,
    open: Seq<Seq<char>>,
)
    requires
        paired(messages, pending),
        pending.len() > 0,
        only_results(blocks),
        pending.to_multiset() == results_of(blocks).to_multiset().add(open.to_multiset()),
    ensures
        paired(pushed(messages, Group::ToolResults, blocks), open),
{
    let next = pushed(messages, Group::ToolResults, blocks);
    let count = messages.len() as int;
    assert(stands(messages, count - 1));
    lemma_result_calls(blocks);
    if messages.last().0 == Group::ToolResults {
        let there = messages.last().1.content;
        lemma_calls_sum(there, blocks);
        vstd::seq_lib::lemma_multiset_commutative(results_of(there), results_of(blocks));
        assert(only_results(there + blocks)) by {
            assert forall|i: int| 0 <= i < (there + blocks).len() implies (#[trigger] (there + blocks)[i]) is ToolResult by {
                if i < there.len() {
                    assert((there + blocks)[i] == there[i]);
                } else {
                    assert((there + blocks)[i] == blocks[i - there.len()]);
                }
            }
        }
        let told = results_of(there).to_multiset();
        let more = results_of(blocks).to_multiset();
        let left = open.to_multiset();
        assert(told.add(more.add(left)) =~= told.add(more).add(left));
        assert(next[count - 2] == messages[count - 2]);
    } else {
        assert(next[count - 1] == messages[count - 1]);
    }
    assert forall|i: int| 0 <= i < next.len() implies #[trigger] stands(next, i) by {
        if i < count {
            assert(stands(messages, i));
        }
        if i + 1 < count {
            assert(stands(messages, i + 1));
        }
    }
}

proof fn lemma_orphans(pending: Seq<Seq<char>>, results: Seq<ContentBlockModel>)
    requires
        results.len() == pending.len(),
        forall|i: int| 0 <= i < pending.len() ==> #[trigger] results[i] == orphan_result(pending[i]),
    ensures
        only_results(results),
        results_of(results) == pending,
    decreases pending.len(),
{
    if pending.len() > 0 {
        let last = pending.len() - 1;
        assert(results[last] == orphan_result(pending[last]));
        assert forall|i: int| 0 <= i < last implies #[trigger] results.drop_last()[i] == orphan_result(
            pending.drop_last()[i],
        ) by {
            assert(results.drop_last()[i] == results[i]);
        }
        lemma_orphans(pending.drop_last(), results.drop_last());
        assert(results_of(results) =~= pending);
    } else {
        assert(results_of(results) =~= pending);
    }
}

proof fn lemma_resolved_pairs(messages: Grouped, pending: Seq<Seq<char>>)
    requires
        paired(messages, pending),
    ensures
        paired(resolved(messages, pending).0, resolved(messages, pending).1),
        resolved(messages, pending).1.len() == 0,
{
    if pending.len() > 0 {
        let results = Seq::new(pending.len(), |i: int| orphan_result(pending[i]));
        let none = Seq::<Seq<char>>::empty();
        lemma_orphans(pending, results);
        lemma_none_open(none);
        assert(pending.to_multiset().add(none.to_multiset()) =~= pending.to_multiset());
        lemma_results_pushed(messages, pending, results, none);
    }
}

proof fn lemma_item_pairs(
    messages: Grouped,
    pending: Seq<Seq<char>>,
    index: usize,
    item: ResponseItemModel,
    dialect: InferenceDialect,
    model: Seq<char>,
)
    requires
        paired(messages, pending),
    ensures
        item_added(messages, pending, index, item, dialect, model) matches Ok(next) ==> paired(next.0, next.1),
{
    lemma_resolved_pairs(messages, pending);
    let (settled, none) = resolved(messages, pending);
    let (spoken, left) = resolved_before_assistant(messages, pending);
    match item {
        ResponseItemModel::Message { role, content, .. } => {
            lemma_message_plain(Role::User, content, index, 0, Seq::empty());
            lemma_message_plain(Role::Assistant, content, index, 0, Seq::empty());
            if role == "user"@ {
                if let Ok(blocks) = message_blocks_from(Role::User, content, index, 0, Seq::empty()) {
                    lemma_user_pushed(settled, none, blocks);
                }
            } else if role == "assistant"@ {
                if let Ok(blocks) = message_blocks_from(Role::Assistant, content, index, 0, Seq::empty()) {
                    lemma_plain_calls(blocks);
                    assert(left + calls_of(blocks) =~= left);
                    lemma_assistant_pushed(spoken, left, blocks, left);
                }
            }
        },
        ResponseItemModel::AgentMessage { author, recipient, content } => {
            if let Some(text) = agent_text(author, recipient, content) {
                lemma_user_pushed(settled, none, seq![ContentBlockModel::Text { text, cache_control: None }]);
            }
        },
        ResponseItemModel::Reasoning { summary, content, encrypted_content, .. } => {
            if let Ok(replay) = replay_for(visible_texts(summary, content), encrypted_content, dialect, model) {
                lemma_replay_plain(replay);
                lemma_plain_calls(replayed(replay));
                assert(left + calls_of(replayed(replay)) =~= left);
                lemma_assistant_pushed(spoken, left, replayed(replay), left);
            }
        },
        ResponseItemModel::FunctionCall { name, arguments, call_id, .. } => {
            if item_added(messages, pending, index, item, dialect, model) is Ok {
                let input = call_input(call_id, json_parse(arguments))->Ok_0;
                let blocks = seq![ContentBlockModel::ToolUse { id: call_id, name, input }];
                assert(blocks.drop_last() =~= Seq::empty());
                assert(calls_of(blocks.drop_last()) =~= Seq::empty());
                assert(left + calls_of(blocks) =~= left.push(call_id));
                lemma_assistant_pushed(spoken, left, blocks, left.push(call_id));
            }
        },
        ResponseItemModel::FunctionCallOutput { call_id, output } => {
            if item_added(messages, pending, index, item, dialect, model) is Ok {
                let content = result_of(output.body, index)->Ok_0;
                let found = place(pending, call_id)->0;
                lemma_place(pending, call_id, 0);
                let blocks = seq![
                    ContentBlockModel::ToolResult {
                        tool_use_id: call_id,
                        content,
                        is_error: output.success == Some(false),
                        cache_control: None,
                    },
                ];
                assert(blocks.drop_last() =~= Seq::empty());
                assert(results_of(blocks.drop_last()) =~= Seq::empty());
                assert(results_of(blocks) =~= seq![call_id]);
                pending.to_multiset_ensures();
                let open = pending.remove(found);
                assert(open.push(call_id).to_multiset() == open.to_multiset().insert(call_id)) by {
                    open.to_multiset_ensures();
                }
                assert(pending.to_multiset() =~= seq![call_id].to_multiset().add(open.to_multiset())) by {
                    broadcast use vstd::multiset::group_multiset_axioms;

                    let empty = Seq::<Seq<char>>::empty();
                    lemma_none_open(empty);
                    empty.to_multiset_ensures();
                    assert(empty.push(call_id) =~= seq![call_id]);
                    assert(pending.contains(pending[found]));
                }
                lemma_results_pushed(messages, pending, blocks, open);
            }
        },
        _ => {},
    }
}

proof fn lemma_items_pairs(
    items: Seq<ResponseItemModel>,
    at: int,
    messages: Grouped,
    pending: Seq<Seq<char>>,
    dialect: InferenceDialect,
    model: Seq<char>,
)
    requires
        paired(messages, pending),
        0 <= at <= items.len(),
    ensures
        items_added(items, at, messages, pending, dialect, model) matches Ok(next) ==> paired(next.0, next.1),
    decreases items.len() - at,
{
    if at < items.len() {
        lemma_item_pairs(messages, pending, at as usize, items[at], dialect, model);
        if let Ok(next) = item_added(messages, pending, at as usize, items[at], dialect, model) {
            lemma_items_pairs(items, at + 1, next.0, next.1, dialect, model);
        }
    }
}

/// The results of the calls of a message fill exactly the next message.
pub proof fn lemma_answered_next(items: Seq<ResponseItemModel>, config: ModelInferenceConfigModel)
    ensures
        native_history(items, config) matches Ok(messages) ==> answered_next(messages),
{
    if let Ok(messages) = native_history(items, config) {
        let profile = profile_of(config)->0;
        lemma_items_pairs(items, 0, Seq::empty(), Seq::empty(), profile.dialect, profile.wire_model);
        let (said, open) = items_added(items, 0, Seq::empty(), Seq::empty(), profile.dialect, profile.wire_model)->Ok_0;
        lemma_resolved_pairs(said, open);
        let (grouped, none) = resolved(said, open);
        lemma_none_waits(grouped, none);
        let count = grouped.len() as int;
        assert forall|i: int|
            0 <= i < messages.len() && calls_of((#[trigger] messages[i]).content).len() > 0 implies i + 1
            < messages.len() && messages[i].role == Role::Assistant && messages[i + 1].role == Role::User
            && only_results(messages[i + 1].content) && results_of(messages[i + 1].content).to_multiset() == calls_of(
            messages[i].content,
        ).to_multiset() by {
            assert(messages[i] == grouped[i].1);
            assert(stands(grouped, i));
            assert(i + 1 < count);
            assert(messages[i + 1] == grouped[i + 1].1);
            assert(stands(grouped, i + 1));
            assert(answers(grouped[i], grouped[i + 1], Multiset::empty()));
            let told = results_of(messages[i + 1].content).to_multiset();
            assert(told.add(Multiset::empty()) =~= told);
        }
    }
}

} // verus!
