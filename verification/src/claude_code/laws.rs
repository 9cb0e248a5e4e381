//! What holds of native requests and responses as a whole.
use crate::claude_code::encoder::EncodeErrorModel;
use crate::claude_code::history::{
    group_role, item_added, items_added, native_history, orphan_result, pushed, replay_for, replayed, resolved,
    resolved_before_assistant, thinking_block, ungrouped, Group, Grouped,
};
use crate::claude_code::history_content::{message_block, message_blocks_from};
use crate::claude_code::history_laws::{answered_next, lemma_answered_next};
use crate::claude_code::opus_compatibility::OpusCompatibilityContextModel;
use crate::claude_code::policy::{
    all_cleared, allowed, assembled_for, block_kind, cached_messages, cached_system, claude_tools_from, cleared,
    foreign_block_from, last_cacheable, last_user, messages_error_from, with_breakpoint,
};
use crate::claude_code::replay::{decision, ReplayDecisionModel, ReplayErrorModel, ThinkingReplayBlockModel};
use crate::claude_code::sonnet_compatibility::SonnetCompatibilityContextModel;
use crate::claude_code::stream::{
    block_done, blocks_done_from, decoded_stream, event_step, events_step, feed_step, finished, frame_boundary,
    fresh_state, sse_events, stream_step, DecodeErrorModel, PendingBlockModel, ResponseStateModel, SessionModel,
    SseEventModel,
};
use crate::claude_code::transport::{
    block_as_item, comes_back, ended, stepped, told_from, StreamDriverModel, StreamInputModel, StreamItemModel,
};
use crate::claude_code::types::{
    CacheControl, ClaudeRequestProfileModel, ContentBlockModel, DecodedBlockModel, MessageModel,
    PresentationDeltaModel, Role, SystemBlockModel, ToolModel,
};
use crate::protocol::{
    ContentItemModel, InferenceDialect, ModelInferenceConfigModel, ReasoningEffortModel, ResponseItemModel,
    ToolSpecModel,
};
use crate::text::{lemma_place, place};
use vstd::prelude::*;

verus! {

// ---- tool calls and their results ----

/// The blocks of the messages from `at` on behind those that are done, in
/// order.
pub open spec fn blocks_from(messages: Seq<MessageModel>, at: int, done: Seq<ContentBlockModel>) -> Seq<
    ContentBlockModel,
>
    decreases messages.len() - at,
{
    if at < 0 || at >= messages.len() {
        done
    } else {
        blocks_from(messages, at + 1, done + messages[at].content)
    }
}

/// All blocks of a conversation, in order.
pub open spec fn all_blocks(messages: Seq<MessageModel>) -> Seq<ContentBlockModel> {
    blocks_from(messages, 0, Seq::empty())
}

/// The calls that wait for a result after the blocks from `at` on; nothing
/// where a result comes that no call waits for.
pub open spec fn waiting_from(blocks: Seq<ContentBlockModel>, at: int, waiting: Seq<Seq<char>>) -> Option<
    Seq<Seq<char>>,
>
    decreases blocks.len() - at,
{
    if at < 0 || at >= blocks.len() {
        Some(waiting)
    } else {
        match blocks[at] {
            ContentBlockModel::ToolUse { id, .. } => waiting_from(blocks, at + 1, waiting.push(id)),
            ContentBlockModel::ToolResult { tool_use_id, .. } => match place(waiting, tool_use_id) {
                None => None,
                Some(found) => waiting_from(blocks, at + 1, waiting.remove(found)),
            },
            _ => waiting_from(blocks, at + 1, waiting),
        }
    }
}

/// The calls that wait for a result at the end of a conversation.
pub open spec fn waiting(messages: Seq<MessageModel>) -> Option<Seq<Seq<char>>> {
    waiting_from(all_blocks(messages), 0, Seq::empty())
}

proof fn lemma_blocks_behind(messages: Seq<MessageModel>, at: int, done: Seq<ContentBlockModel>)
    requires
        0 <= at <= messages.len(),
    ensures
        blocks_from(messages, at, done) == done + blocks_from(messages, at, Seq::empty()),
    decreases messages.len() - at,
{
    if at < messages.len() {
        let content = messages[at].content;
        lemma_blocks_behind(messages, at + 1, done + content);
        lemma_blocks_behind(messages, at + 1, Seq::empty() + content);
        assert(Seq::<ContentBlockModel>::empty() + content =~= content);
        let rest = blocks_from(messages, at + 1, Seq::empty());
        assert((done + content) + rest =~= done + (content + rest));
    } else {
        assert(done + Seq::<ContentBlockModel>::empty() =~= done);
    }
}

proof fn lemma_blocks_last(messages: Seq<MessageModel>, at: int)
    requires
        0 <= at < messages.len(),
    ensures
        blocks_from(messages, at, Seq::empty()) == blocks_from(messages.drop_last(), at, Seq::empty())
            + messages.last().content,
    decreases messages.len() - at,
{
    let head = messages.drop_last();
    let content = messages[at].content;
    assert(Seq::<ContentBlockModel>::empty() + content =~= content);
    if at == messages.len() - 1 {
        assert(blocks_from(messages, at + 1, content) == content);
        assert(Seq::<ContentBlockModel>::empty() + messages.last().content =~= messages.last().content);
    } else {
        lemma_blocks_last(messages, at + 1);
        lemma_blocks_behind(messages, at + 1, content);
        lemma_blocks_behind(head, at + 1, content);
        assert(head[at] == messages[at]);
        let rest = blocks_from(head, at + 1, Seq::empty());
        assert(content + (rest + messages.last().content) =~= (content + rest) + messages.last().content);
    }
}

proof fn lemma_blocks_pushed(messages: Grouped, group: Group, blocks: Seq<ContentBlockModel>)
    ensures
        all_blocks(ungrouped(pushed(messages, group, blocks))) == all_blocks(ungrouped(messages)) + blocks,
{
    let plain = ungrouped(messages);
    let next = pushed(messages, group, blocks);
    let after = ungrouped(next);
    lemma_blocks_last(after, 0);
    if messages.len() > 0 && messages.last().0 == group {
        lemma_blocks_last(plain, 0);
        assert(after.drop_last() =~= plain.drop_last());
        let head = all_blocks(plain.drop_last());
        assert(after.last().content == plain.last().content + blocks);
        assert(head + (plain.last().content + blocks) =~= (head + plain.last().content) + blocks);
    } else {
        assert(after.drop_last() =~= plain);
    }
}

proof fn lemma_waiting_sum(left: Seq<ContentBlockModel>, right: Seq<ContentBlockModel>, at: int, open: Seq<Seq<char>>)
    requires
        0 <= at <= left.len(),
    ensures
        waiting_from(left + right, at, open) == match waiting_from(left, at, open) {
            None => None,
            Some(then) => waiting_from(left + right, left.len() as int, then),
        },
    decreases left.len() - at,
{
    if at < left.len() {
        assert((left + right)[at] == left[at]);
        match left[at] {
            ContentBlockModel::ToolUse { id, .. } => {
                lemma_waiting_sum(left, right, at + 1, open.push(id));
            },
            ContentBlockModel::ToolResult { tool_use_id, .. } => {
                if let Some(found) = place(open, tool_use_id) {
                    lemma_waiting_sum(left, right, at + 1, open.remove(found));
                }
            },
            _ => {
                lemma_waiting_sum(left, right, at + 1, open);
            },
        }
    }
}

proof fn lemma_waiting_shift(left: Seq<ContentBlockModel>, right: Seq<ContentBlockModel>, at: int, open: Seq<Seq<char>>)
    requires
        0 <= at <= right.len(),
    ensures
        waiting_from(left + right, left.len() + at, open) == waiting_from(right, at, open),
    decreases right.len() - at,
{
    if at < right.len() {
        assert((left + right)[left.len() + at] == right[at]);
        match right[at] {
            ContentBlockModel::ToolUse { id, .. } => {
                lemma_waiting_shift(left, right, at + 1, open.push(id));
            },
            ContentBlockModel::ToolResult { tool_use_id, .. } => {
                if let Some(found) = place(open, tool_use_id) {
                    lemma_waiting_shift(left, right, at + 1, open.remove(found));
                }
            },
            _ => {
                lemma_waiting_shift(left, right, at + 1, open);
            },
        }
    }
}

/// Blocks that are neither a call nor a result.
pub open spec fn plain_blocks(blocks: Seq<ContentBlockModel>) -> bool {
    forall|i: int| 0 <= i < blocks.len() ==> !((#[trigger] blocks[i]) is ToolUse) && !(blocks[i] is ToolResult)
}

proof fn lemma_plain_waiting(blocks: Seq<ContentBlockModel>, at: int, open: Seq<Seq<char>>)
    requires
        plain_blocks(blocks),
        0 <= at <= blocks.len(),
    ensures
        waiting_from(blocks, at, open) == Some(open),
    decreases blocks.len() - at,
{
    if at < blocks.len() {
        lemma_plain_waiting(blocks, at + 1, open);
    }
}

proof fn lemma_orphans_waiting(pending: Seq<Seq<char>>, at: int)
    requires
        0 <= at <= pending.len(),
    ensures
        waiting_from(Seq::new(pending.len(), |i: int| orphan_result(pending[i])), at, pending.skip(at)) == Some(
            Seq::<Seq<char>>::empty(),
        ),
    decreases pending.len() - at,
{
    let open = pending.skip(at);
    if at < pending.len() {
        assert(open[0] == pending[at]);
        lemma_place(open, pending[at], 0);
        assert(place(open, pending[at]) == Some(0int));
        assert(open.remove(0) =~= pending.skip(at + 1));
        lemma_orphans_waiting(pending, at + 1);
    } else {
        assert(open =~= Seq::empty());
    }
}

/// Whether the open calls of a transcript are those that wait in its messages.
pub open spec fn in_step(messages: Grouped, pending: Seq<Seq<char>>) -> bool {
    waiting(ungrouped(messages)) == Some(pending)
}

proof fn lemma_pushed_waiting(
    messages: Grouped,
    pending: Seq<Seq<char>>,
    group: Group,
    blocks: Seq<ContentBlockModel>,
    next: Seq<Seq<char>>,
)
    requires
        in_step(messages, pending),
        waiting_from(blocks, 0, pending) == Some(next),
    ensures
        in_step(pushed(messages, group, blocks), next),
{
    let before = all_blocks(ungrouped(messages));
    lemma_blocks_pushed(messages, group, blocks);
    lemma_waiting_sum(before, blocks, 0, Seq::empty());
    lemma_waiting_shift(before, blocks, 0, pending);
}

proof fn lemma_resolved_waiting(messages: Grouped, pending: Seq<Seq<char>>)
    requires
        in_step(messages, pending),
    ensures
        in_step(resolved(messages, pending).0, resolved(messages, pending).1),
        resolved(messages, pending).1.len() == 0,
{
    if pending.len() > 0 {
        let results = Seq::new(pending.len(), |i: int| orphan_result(pending[i]));
        lemma_orphans_waiting(pending, 0);
        assert(pending.skip(0) =~= pending);
        lemma_pushed_waiting(messages, pending, Group::ToolResults, results, Seq::empty());
    }
}

/// The blocks of a message are neither calls nor results.
pub proof fn lemma_message_plain(
    role: Role,
    content: Seq<ContentItemModel>,
    item_index: usize,
    at: int,
    done: Seq<ContentBlockModel>,
)
    requires
        plain_blocks(done),
        forall|i: int| 0 <= i < done.len() ==> allowed(role, #[trigger] done[i]),
        0 <= at <= content.len(),
    ensures
        message_blocks_from(role, content, item_index, at, done) matches Ok(blocks) ==> plain_blocks(blocks)
            && forall|i: int| 0 <= i < blocks.len() ==> allowed(role, #[trigger] blocks[i]),
    decreases content.len() - at,
{
    if at < content.len() {
        if let Ok(block) = message_block(role, content[at], item_index, at as usize) {
            lemma_message_plain(role, content, item_index, at + 1, done.push(block));
        }
    }
}

/// The blocks that replay reasoning are neither calls nor results.
pub proof fn lemma_replay_plain(replay: ReplayDecisionModel)
    ensures
        plain_blocks(replayed(replay)),
        forall|i: int| 0 <= i < replayed(replay).len() ==> allowed(Role::Assistant, #[trigger] replayed(replay)[i]),
{
}

proof fn lemma_item_waiting(
    messages: Grouped,
    pending: Seq<Seq<char>>,
    index: usize,
    item: ResponseItemModel,
    dialect: InferenceDialect,
    model: Seq<char>,
)
    requires
        in_step(messages, pending),
    ensures
        item_added(messages, pending, index, item, dialect, model) matches Ok(next) ==> in_step(next.0, next.1),
{
    lemma_resolved_waiting(messages, pending);
    let (settled, open) = resolved(messages, pending);
    let (spoken, left) = resolved_before_assistant(messages, pending);
    match item {
        ResponseItemModel::Message { role, content, .. } => {
            lemma_message_plain(Role::User, content, index, 0, Seq::empty());
            lemma_message_plain(Role::Assistant, content, index, 0, Seq::empty());
            if role == "user"@ {
                if let Ok(blocks) = message_blocks_from(Role::User, content, index, 0, Seq::empty()) {
                    lemma_plain_waiting(blocks, 0, open);
                    lemma_pushed_waiting(settled, open, Group::User, blocks, open);
                }
            } else if role == "assistant"@ {
                if let Ok(blocks) = message_blocks_from(Role::Assistant, content, index, 0, Seq::empty()) {
                    lemma_plain_waiting(blocks, 0, left);
                    lemma_pushed_waiting(spoken, left, Group::Assistant, blocks, left);
                }
            }
        },
        ResponseItemModel::AgentMessage { author, recipient, content } => {
            if let Some(text) = crate::claude_code::history_content::agent_text(author, recipient, content) {
                let blocks = seq![ContentBlockModel::Text { text, cache_control: None }];
                lemma_plain_waiting(blocks, 0, open);
                lemma_pushed_waiting(settled, open, Group::User, blocks, open);
            }
        },
        ResponseItemModel::Reasoning { summary, content, encrypted_content, .. } => {
            let visible = crate::chat_completions::encoder::visible_texts(summary, content);
            if let Ok(replay) = replay_for(visible, encrypted_content, dialect, model) {
                lemma_replay_plain(replay);
                lemma_plain_waiting(replayed(replay), 0, left);
                lemma_pushed_waiting(spoken, left, Group::Assistant, replayed(replay), left);
            }
        },
        ResponseItemModel::FunctionCall { name, namespace, arguments, call_id, .. } => {
            if let Ok(next) = item_added(messages, pending, index, item, dialect, model) {
                let input = crate::claude_code::history::call_input(
                    call_id,
                    crate::json::json_parse(arguments),
                )->Ok_0;
                let blocks = seq![ContentBlockModel::ToolUse { id: call_id, name, input }];
                assert(waiting_from(blocks, 1, left.push(call_id)) == Some(left.push(call_id)));
                assert(waiting_from(blocks, 0, left) == Some(left.push(call_id)));
                lemma_pushed_waiting(spoken, left, Group::Assistant, blocks, left.push(call_id));
            }
        },
        ResponseItemModel::FunctionCallOutput { call_id, output } => {
            if let Ok(next) = item_added(messages, pending, index, item, dialect, model) {
                let content = crate::claude_code::history_content::result_of(output.body, index)->Ok_0;
                let found = place(pending, call_id)->0;
                let blocks = seq![
                    ContentBlockModel::ToolResult {
                        tool_use_id: call_id,
                        content,
                        is_error: output.success == Some(false),
                        cache_control: None,
                    },
                ];
                assert(waiting_from(blocks, 1, pending.remove(found)) == Some(pending.remove(found)));
                assert(waiting_from(blocks, 0, pending) == Some(pending.remove(found)));
                lemma_pushed_waiting(messages, pending, Group::ToolResults, blocks, pending.remove(found));
            }
        },
        _ => {},
    }
}

proof fn lemma_items_waiting(
    items: Seq<ResponseItemModel>,
    at: int,
    messages: Grouped,
    pending: Seq<Seq<char>>,
    dialect: InferenceDialect,
    model: Seq<char>,
)
    requires
        in_step(messages, pending),
        0 <= at <= items.len(),
    ensures
        items_added(items, at, messages, pending, dialect, model) matches Ok(next) ==> in_step(next.0, next.1),
    decreases items.len() - at,
{
    if at < items.len() {
        lemma_item_waiting(messages, pending, at as usize, items[at], dialect, model);
        if let Ok(next) = item_added(messages, pending, at as usize, items[at], dialect, model) {
            lemma_items_waiting(items, at + 1, next.0, next.1, dialect, model);
        }
    }
}

/// In an encoded conversation every result answers a call before it that no
/// other result answered, and at the end every call is answered. The results of
/// the calls of a message fill exactly the next message.
pub proof fn law_every_call_is_answered(items: Seq<ResponseItemModel>, config: ModelInferenceConfigModel)
    ensures
        native_history(items, config) matches Ok(messages) ==> waiting(messages) == Some(Seq::<Seq<char>>::empty())
            && answered_next(messages),
{
    lemma_answered_next(items, config);
    if let Ok(messages) = native_history(items, config) {
        let profile = crate::claude_code::policy::profile_of(config)->0;
        let empty: Grouped = Seq::empty();
        assert(ungrouped(empty) =~= Seq::empty());
        lemma_items_waiting(items, 0, Seq::empty(), Seq::empty(), profile.dialect, profile.wire_model);
        let next = items_added(items, 0, Seq::empty(), Seq::empty(), profile.dialect, profile.wire_model)->Ok_0;
        lemma_resolved_waiting(next.0, next.1);
        assert(resolved(next.0, next.1).1 =~= Seq::empty());
    }
}

// ---- roles ----

/// Whether every message is spoken in the role of its group and holds only
/// blocks that the role can have.
pub open spec fn well_spoken(messages: Grouped) -> bool {
    forall|i: int|
        0 <= i < messages.len() ==> (#[trigger] messages[i]).1.role == group_role(messages[i].0) && spoken_by(
            messages[i].1.role,
            messages[i].1.content,
        )
}

/// Whether a role can have all these blocks.
pub open spec fn spoken_by(role: Role, blocks: Seq<ContentBlockModel>) -> bool {
    forall|i: int| 0 <= i < blocks.len() ==> allowed(role, #[trigger] blocks[i])
}

proof fn lemma_pushed_spoken(messages: Grouped, group: Group, blocks: Seq<ContentBlockModel>)
    requires
        well_spoken(messages),
        spoken_by(group_role(group), blocks),
    ensures
        well_spoken(pushed(messages, group, blocks)),
{
    let next = pushed(messages, group, blocks);
    assert forall|i: int| 0 <= i < next.len() implies (#[trigger] next[i]).1.role == group_role(next[i].0)
        && spoken_by(next[i].1.role, next[i].1.content) by {
        if i < messages.len() {
            assert(messages[i].1.role == group_role(messages[i].0));
            assert(spoken_by(messages[i].1.role, messages[i].1.content));
        }
    }
}

proof fn lemma_resolved_spoken(messages: Grouped, pending: Seq<Seq<char>>)
    requires
        well_spoken(messages),
    ensures
        well_spoken(resolved(messages, pending).0),
        well_spoken(resolved_before_assistant(messages, pending).0),
{
    if pending.len() > 0 {
        let results = Seq::new(pending.len(), |i: int| orphan_result(pending[i]));
        lemma_pushed_spoken(messages, Group::ToolResults, results);
    }
}

proof fn lemma_items_spoken(
    items: Seq<ResponseItemModel>,
    at: int,
    messages: Grouped,
    pending: Seq<Seq<char>>,
    dialect: InferenceDialect,
    model: Seq<char>,
)
    requires
        well_spoken(messages),
        0 <= at <= items.len(),
    ensures
        items_added(items, at, messages, pending, dialect, model) matches Ok(next) ==> well_spoken(next.0),
    decreases items.len() - at,
{
    if at < items.len() {
        let index = at as usize;
        lemma_resolved_spoken(messages, pending);
        let settled = resolved(messages, pending).0;
        let spoken = resolved_before_assistant(messages, pending).0;
        if let Ok(next) = item_added(messages, pending, index, items[at], dialect, model) {
            match items[at] {
                ResponseItemModel::Message { role, content, .. } => {
                    lemma_message_plain(Role::User, content, index, 0, Seq::empty());
                    lemma_message_plain(Role::Assistant, content, index, 0, Seq::empty());
                    if role == "user"@ {
                        let blocks = message_blocks_from(Role::User, content, index, 0, Seq::empty())->Ok_0;
                        lemma_pushed_spoken(settled, Group::User, blocks);
                    } else {
                        let blocks = message_blocks_from(Role::Assistant, content, index, 0, Seq::empty())->Ok_0;
                        lemma_pushed_spoken(spoken, Group::Assistant, blocks);
                    }
                },
                ResponseItemModel::AgentMessage { author, recipient, content } => {
                    let text = crate::claude_code::history_content::agent_text(author, recipient, content)->0;
                    lemma_pushed_spoken(
                        settled,
                        Group::User,
                        seq![ContentBlockModel::Text { text, cache_control: None }],
                    );
                },
                ResponseItemModel::Reasoning { summary, content, encrypted_content, .. } => {
                    let visible = crate::chat_completions::encoder::visible_texts(summary, content);
                    let replay = replay_for(visible, encrypted_content, dialect, model)->Ok_0;
                    lemma_replay_plain(replay);
                    lemma_pushed_spoken(spoken, Group::Assistant, replayed(replay));
                },
                ResponseItemModel::FunctionCall { name, arguments, call_id, .. } => {
                    let input = crate::claude_code::history::call_input(
                        call_id,
                        crate::json::json_parse(arguments),
                    )->Ok_0;
                    lemma_pushed_spoken(
                        spoken,
                        Group::Assistant,
                        seq![ContentBlockModel::ToolUse { id: call_id, name, input }],
                    );
                },
                ResponseItemModel::FunctionCallOutput { call_id, output } => {
                    let content = crate::claude_code::history_content::result_of(output.body, index)->Ok_0;
                    lemma_pushed_spoken(
                        messages,
                        Group::ToolResults,
                        seq![
                            ContentBlockModel::ToolResult {
                                tool_use_id: call_id,
                                content,
                                is_error: output.success == Some(false),
                                cache_control: None,
                            },
                        ],
                    );
                },
                _ => {},
            }
            lemma_items_spoken(items, at + 1, next.0, next.1, dialect, model);
        }
    }
}

proof fn lemma_no_foreign_block(role: Role, content: Seq<ContentBlockModel>, at: int)
    requires
        spoken_by(role, content),
        0 <= at <= content.len(),
    ensures
        foreign_block_from(role, content, at) is None,
    decreases content.len() - at,
{
    if at < content.len() {
        assert(allowed(role, content[at]));
        lemma_no_foreign_block(role, content, at + 1);
    }
}

proof fn lemma_no_messages_error(messages: Grouped, at: int)
    requires
        well_spoken(messages),
        0 <= at <= messages.len(),
    ensures
        messages_error_from(ungrouped(messages), at) is None,
    decreases messages.len() - at,
{
    if at < messages.len() {
        assert(spoken_by(messages[at].1.role, messages[at].1.content));
        lemma_no_foreign_block(messages[at].1.role, messages[at].1.content, 0);
        lemma_no_messages_error(messages, at + 1);
    }
}

/// An encoded conversation holds no block that the assembly of a request would
/// refuse.
pub proof fn law_encoded_history_is_accepted(items: Seq<ResponseItemModel>, config: ModelInferenceConfigModel)
    ensures
        native_history(items, config) matches Ok(messages) ==> messages_error_from(messages, 0) is None,
{
    if let Ok(messages) = native_history(items, config) {
        let profile = crate::claude_code::policy::profile_of(config)->0;
        lemma_items_spoken(items, 0, Seq::empty(), Seq::empty(), profile.dialect, profile.wire_model);
        let next = items_added(items, 0, Seq::empty(), Seq::empty(), profile.dialect, profile.wire_model)->Ok_0;
        lemma_resolved_spoken(next.0, next.1);
        lemma_no_messages_error(resolved(next.0, next.1).0, 0);
    }
}

// ---- cache breakpoints ----

/// The breakpoint of a block.
pub open spec fn breakpoint_of(block: ContentBlockModel) -> Option<CacheControl> {
    match block {
        ContentBlockModel::Text { cache_control, .. } => cache_control,
        ContentBlockModel::Image { cache_control, .. } => cache_control,
        ContentBlockModel::ToolResult { cache_control, .. } => cache_control,
        _ => None,
    }
}

/// How many of the blocks from `at` on have a breakpoint.
pub open spec fn marked_from(blocks: Seq<ContentBlockModel>, at: int) -> nat
    decreases blocks.len() - at,
{
    if at < 0 || at >= blocks.len() {
        0
    } else {
        marked_from(blocks, at + 1) + if breakpoint_of(blocks[at]) is Some {
            1nat
        } else {
            0nat
        }
    }
}

/// How many blocks of the messages from `at` on have a breakpoint.
pub open spec fn messages_marked_from(messages: Seq<MessageModel>, at: int) -> nat
    decreases messages.len() - at,
{
    if at < 0 || at >= messages.len() {
        0
    } else {
        messages_marked_from(messages, at + 1) + marked_from(messages[at].content, 0)
    }
}

/// How many blocks of the system prompt from `at` on have a breakpoint.
pub open spec fn system_marked_from(system: Seq<SystemBlockModel>, at: int) -> nat
    decreases system.len() - at,
{
    if at < 0 || at >= system.len() {
        0
    } else {
        system_marked_from(system, at + 1) + if system[at]->cache_control is Some {
            1nat
        } else {
            0nat
        }
    }
}

/// How many of the tools from `at` on have a breakpoint.
pub open spec fn tools_marked_from(tools: Seq<ToolModel>, at: int) -> nat
    decreases tools.len() - at,
{
    if at < 0 || at >= tools.len() {
        0
    } else {
        tools_marked_from(tools, at + 1) + if tools[at].cache_control is Some {
            1nat
        } else {
            0nat
        }
    }
}

proof fn lemma_unmarked(blocks: Seq<ContentBlockModel>, at: int)
    requires
        0 <= at <= blocks.len(),
        forall|i: int| at <= i < blocks.len() ==> breakpoint_of(#[trigger] blocks[i]) is None,
    ensures
        marked_from(blocks, at) == 0,
    decreases blocks.len() - at,
{
    if at < blocks.len() {
        lemma_unmarked(blocks, at + 1);
    }
}

proof fn lemma_one_marked(blocks: Seq<ContentBlockModel>, at: int, place: int)
    requires
        0 <= at <= blocks.len(),
        forall|i: int| at <= i < blocks.len() && i != place ==> breakpoint_of(#[trigger] blocks[i]) is None,
    ensures
        marked_from(blocks, at) <= 1,
    decreases blocks.len() - at,
{
    if at < blocks.len() {
        if at == place {
            lemma_unmarked(blocks, at + 1);
        } else {
            lemma_one_marked(blocks, at + 1, place);
        }
    }
}

proof fn lemma_cleared_unmarked(message: MessageModel)
    ensures
        marked_from(cleared(message).content, 0) == 0,
        forall|i: int|
            0 <= i < message.content.len() ==> breakpoint_of(#[trigger] cleared(message).content[i]) is None,
{
    lemma_unmarked(cleared(message).content, 0);
}

proof fn lemma_messages_unmarked(messages: Seq<MessageModel>, at: int)
    requires
        0 <= at <= messages.len(),
        forall|i: int| at <= i < messages.len() ==> marked_from((#[trigger] messages[i]).content, 0) == 0,
    ensures
        messages_marked_from(messages, at) == 0,
    decreases messages.len() - at,
{
    if at < messages.len() {
        lemma_messages_unmarked(messages, at + 1);
    }
}

proof fn lemma_messages_one_marked(messages: Seq<MessageModel>, at: int, place: int)
    requires
        0 <= at <= messages.len(),
        forall|i: int|
            at <= i < messages.len() && i != place ==> marked_from((#[trigger] messages[i]).content, 0) == 0,
        0 <= place < messages.len() ==> marked_from(messages[place].content, 0) <= 1,
    ensures
        messages_marked_from(messages, at) <= 1,
    decreases messages.len() - at,
{
    if at < messages.len() {
        if at == place {
            lemma_messages_unmarked(messages, at + 1);
        } else {
            lemma_messages_one_marked(messages, at + 1, place);
        }
    }
}

proof fn lemma_last_user(messages: Seq<MessageModel>, below: int)
    requires
        0 <= below <= messages.len(),
    ensures
        last_user(messages, below) matches Some(place) ==> 0 <= place < below,
    decreases below,
{
    if below > 0 && messages[below - 1].role != Role::User {
        lemma_last_user(messages, below - 1);
    }
}

proof fn lemma_last_cacheable(content: Seq<ContentBlockModel>, below: int)
    requires
        0 <= below <= content.len(),
    ensures
        last_cacheable(content, below) matches Some(place) ==> 0 <= place < below,
    decreases below,
{
    if below > 0 && !crate::claude_code::policy::cacheable(content[below - 1]) {
        lemma_last_cacheable(content, below - 1);
    }
}

proof fn lemma_cached_messages(messages: Seq<MessageModel>, control: CacheControl)
    ensures
        messages_marked_from(cached_messages(messages, control), 0) <= 1,
{
    let clear = all_cleared(messages);
    assert forall|i: int| 0 <= i < clear.len() implies marked_from((#[trigger] clear[i]).content, 0) == 0 by {
        lemma_cleared_unmarked(messages[i]);
    }
    lemma_messages_unmarked(clear, 0);
    lemma_last_user(clear, clear.len() as int);
    if let Some(place) = last_user(clear, clear.len() as int) {
        let content = clear[place].content;
        lemma_last_cacheable(content, content.len() as int);
        if let Some(block) = last_cacheable(content, content.len() as int) {
            let cached = cached_messages(messages, control);
            let marked = cached[place].content;
            lemma_cleared_unmarked(messages[place]);
            assert forall|i: int| 0 <= i < marked.len() && i != block implies breakpoint_of(#[trigger] marked[i]) is None by {
                assert(marked[i] == cleared(messages[place]).content[i]);
            }
            lemma_one_marked(marked, 0, block);
            assert forall|i: int| 0 <= i < cached.len() && i != place implies marked_from(
                (#[trigger] cached[i]).content,
                0,
            ) == 0 by {
                assert(cached[i] == clear[i]);
            }
            lemma_messages_one_marked(cached, 0, place);
        }
    }
}

proof fn lemma_cached_system(system: Seq<SystemBlockModel>, at: int)
    requires
        0 <= at <= system.len(),
    ensures
        system_marked_from(cached_system(system), at) <= 1,
        at < system.len() ==> system_marked_from(cached_system(system), at) == 1,
    decreases system.len() - at,
{
    if at < system.len() {
        lemma_cached_system(system, at + 1);
    }
}

proof fn lemma_tools_unmarked(tools: Seq<ToolSpecModel>, at: int, done: Seq<ToolModel>)
    requires
        0 <= at <= tools.len(),
        forall|i: int| 0 <= i < done.len() ==> (#[trigger] done[i]).cache_control is None,
    ensures
        claude_tools_from(tools, at, done) matches Ok(offered) ==> forall|i: int|
            0 <= i < offered.len() ==> (#[trigger] offered[i]).cache_control is None,
    decreases tools.len() - at,
{
    reveal_with_fuel(claude_tools_from, 2);
    if at < tools.len() {
        if let crate::claude_code::types::ClaudeToolSpecModel::Function(tool) = crate::claude_code::policy::claude_tool(
            tools[at],
        ) {
            lemma_tools_unmarked(
                tools,
                at + 1,
                done.push(
                    ToolModel {
                        name: tool.name,
                        description: tool.description,
                        input_schema: tool.input_schema,
                        cache_control: None,
                    },
                ),
            );
        }
    }
}

proof fn lemma_tools_count(tools: Seq<ToolModel>, at: int)
    requires
        0 <= at <= tools.len(),
        forall|i: int| 0 <= i < tools.len() ==> (#[trigger] tools[i]).cache_control is None,
    ensures
        tools_marked_from(tools, at) == 0,
    decreases tools.len() - at,
{
    if at < tools.len() {
        lemma_tools_count(tools, at + 1);
    }
}

/// A request has few cache breakpoints, whatever breakpoints its input had: one
/// in its messages at most, none in its tools, and in its system prompt one
/// where it is native and two where a profile replaces it.
pub proof fn law_breakpoints_are_bounded(
    profile: ClaudeRequestProfileModel,
    effort: ReasoningEffortModel,
    messages: Seq<MessageModel>,
    system: Seq<SystemBlockModel>,
    tools: Seq<ToolSpecModel>,
    resumable_session_id: Seq<char>,
    codex_version: Seq<char>,
    opus_context: Option<OpusCompatibilityContextModel>,
    sonnet_context: Option<SonnetCompatibilityContextModel>,
)
    ensures
        assembled_for(
            profile,
            effort,
            messages,
            system,
            tools,
            resumable_session_id,
            codex_version,
            opus_context,
            sonnet_context,
        ) matches Ok(request) ==> messages_marked_from(request.body.messages, 0) <= 1 && tools_marked_from(
            request.body.tools,
            0,
        ) == 0 && system_marked_from(request.body.system, 0) <= (if request.body.metadata is Some {
            2nat
        } else {
            1nat
        }),
{
    lemma_cached_messages(messages, crate::claude_code::policy::one_hour());
    lemma_cached_messages(messages, crate::claude_code::opus_compatibility::default_breakpoint());
    lemma_cached_system(system, 0);
    lemma_tools_unmarked(tools, 0, Seq::empty());
    if let Ok(request) = assembled_for(
        profile,
        effort,
        messages,
        system,
        tools,
        resumable_session_id,
        codex_version,
        opus_context,
        sonnet_context,
    ) {
        lemma_tools_count(request.body.tools, 0);
        reveal_with_fuel(system_marked_from, 4);
    }
}

proof fn lemma_cleared_block(role: Role, block: ContentBlockModel)
    ensures
        allowed(role, with_breakpoint(block, None)) == allowed(role, block),
        block_kind(with_breakpoint(block, None)) == block_kind(block),
{
}

proof fn lemma_cleared_foreign(role: Role, message: MessageModel, at: int)
    requires
        0 <= at <= message.content.len(),
    ensures
        foreign_block_from(role, cleared(message).content, at) == foreign_block_from(role, message.content, at),
    decreases message.content.len() - at,
{
    if at < message.content.len() {
        lemma_cleared_block(role, message.content[at]);
        lemma_cleared_foreign(role, message, at + 1);
    }
}

proof fn lemma_cleared_error(messages: Seq<MessageModel>, at: int)
    requires
        0 <= at <= messages.len(),
    ensures
        messages_error_from(all_cleared(messages), at) == messages_error_from(messages, at),
    decreases messages.len() - at,
{
    if at < messages.len() {
        lemma_cleared_foreign(messages[at].role, messages[at], 0);
        lemma_cleared_error(messages, at + 1);
    }
}

/// The texts of a system prompt.
pub open spec fn system_texts(system: Seq<SystemBlockModel>) -> Seq<Seq<char>> {
    Seq::new(system.len(), |i: int| system[i]->text)
}

/// Cache breakpoints of the caller do not matter: inputs that differ in nothing
/// else give the same request, or the same error.
pub proof fn law_breakpoints_of_the_caller_do_not_matter(
    profile: ClaudeRequestProfileModel,
    effort: ReasoningEffortModel,
    messages: Seq<MessageModel>,
    other_messages: Seq<MessageModel>,
    system: Seq<SystemBlockModel>,
    other_system: Seq<SystemBlockModel>,
    tools: Seq<ToolSpecModel>,
    resumable_session_id: Seq<char>,
    codex_version: Seq<char>,
    opus_context: Option<OpusCompatibilityContextModel>,
    sonnet_context: Option<SonnetCompatibilityContextModel>,
)
    requires
        all_cleared(messages) == all_cleared(other_messages),
        system_texts(system) == system_texts(other_system),
    ensures
        assembled_for(
            profile,
            effort,
            messages,
            system,
            tools,
            resumable_session_id,
            codex_version,
            opus_context,
            sonnet_context,
        ) == assembled_for(
            profile,
            effort,
            other_messages,
            other_system,
            tools,
            resumable_session_id,
            codex_version,
            opus_context,
            sonnet_context,
        ),
{
    lemma_cleared_error(messages, 0);
    lemma_cleared_error(other_messages, 0);
    assert(system.len() == system_texts(system).len());
    assert(other_system.len() == system_texts(other_system).len());
    assert forall|i: int| 0 <= i < system.len() implies (#[trigger] system[i])->text == other_system[i]->text by {
        assert(system_texts(system)[i] == system[i]->text);
        assert(system_texts(other_system)[i] == other_system[i]->text);
    }
    assert(cached_system(system) =~= cached_system(other_system));
}

// ---- profiles ----

/// An identity without a prompt changes nothing but the transport of a request,
/// and of that nothing but the headers.
pub proof fn law_header_only_identity_keeps_the_body(
    profile: ClaudeRequestProfileModel,
    effort: ReasoningEffortModel,
    messages: Seq<MessageModel>,
    system: Seq<SystemBlockModel>,
    tools: Seq<ToolSpecModel>,
    resumable_session_id: Seq<char>,
    codex_version: Seq<char>,
    context: SonnetCompatibilityContextModel,
)
    requires
        context.prompt is None,
    ensures
        ({
            let native = assembled_for(
                profile,
                effort,
                messages,
                system,
                tools,
                resumable_session_id,
                codex_version,
                None,
                None,
            );
            let identified = assembled_for(
                profile,
                effort,
                messages,
                system,
                tools,
                resumable_session_id,
                codex_version,
                None,
                Some(context),
            );
            native is Ok ==> identified is Ok && identified->Ok_0.body == native->Ok_0.body
                && identified->Ok_0.transport.method == native->Ok_0.transport.method
                && identified->Ok_0.transport.path == native->Ok_0.transport.path
                && identified->Ok_0.transport.query == native->Ok_0.transport.query
        }),
{
}

/// A request asks to clear thinking from its context if and only if it thinks.
pub proof fn law_context_is_edited_where_there_is_thinking(
    profile: ClaudeRequestProfileModel,
    effort: ReasoningEffortModel,
    messages: Seq<MessageModel>,
    system: Seq<SystemBlockModel>,
    tools: Seq<ToolSpecModel>,
    resumable_session_id: Seq<char>,
    codex_version: Seq<char>,
    opus_context: Option<OpusCompatibilityContextModel>,
    sonnet_context: Option<SonnetCompatibilityContextModel>,
)
    ensures
        assembled_for(
            profile,
            effort,
            messages,
            system,
            tools,
            resumable_session_id,
            codex_version,
            opus_context,
            sonnet_context,
        ) matches Ok(request) ==> (request.body.context_management is None <==> request.body.thinking is Disabled),
{
}

// ---- streams ----

/// A response is only there once it was started, told why it stopped, and
/// announced its end.
pub proof fn law_only_a_stopped_response_is_decoded(state: ResponseStateModel)
    ensures
        finished(state) is Ok ==> state.message is Some && state.outcome is Some && state.stopped,
{
}

/// A cut inside a frame changes nothing: bytes that complete no frame only
/// wait, and the rest is taken as if all had come at once.
pub proof fn law_a_cut_inside_a_frame_changes_nothing(session: SessionModel, first: Seq<u8>, second: Seq<u8>)
    requires
        frame_boundary(session.frame + first) is None,
    ensures
        feed_step(session, first) == (
            SessionModel { frame: session.frame + first, ..session },
            Ok::<(), DecodeErrorModel>(()),
        ),
        feed_step(feed_step(session, first).0, second) == feed_step(session, first + second),
{
    assert((session.frame + first) + second =~= session.frame + (first + second));
}

/// Whether an item tells the caller to commit something.
pub open spec fn commits(item: StreamItemModel) -> bool {
    item matches StreamItemModel::Event(event) && (event is OutputItemDone || event is Completed)
}

proof fn lemma_told_commits_nothing(
    started: Seq<usize>,
    blocks: Seq<crate::claude_code::stream::BlockStateModel>,
    deltas: Seq<crate::claude_code::types::PresentationDeltaModel>,
    at: int,
    done: Seq<StreamItemModel>,
)
    requires
        0 <= at <= deltas.len(),
        forall|i: int| 0 <= i < done.len() ==> !commits(#[trigger] done[i]) && !(done[i] is Failure),
    ensures
        forall|i: int|
            0 <= i < told_from(started, blocks, deltas, at, done).1.len() ==> !commits(
                #[trigger] told_from(started, blocks, deltas, at, done).1[i],
            ) && !(told_from(started, blocks, deltas, at, done).1[i] is Failure),
    decreases deltas.len() - at,
{
    if at < deltas.len() {
        let index = crate::claude_code::transport::delta_place(deltas[at]);
        let identity = crate::claude_code::transport::tool_identity(blocks, index);
        let event = StreamItemModel::Event(crate::claude_code::transport::delta_event(deltas[at], identity));
        if started.contains(index) {
            lemma_told_commits_nothing(started, blocks, deltas, at + 1, done.push(event));
        } else {
            let added = StreamItemModel::Event(crate::claude_code::transport::announcement(deltas[at], identity));
            lemma_told_commits_nothing(started.push(index), blocks, deltas, at + 1, done.push(added).push(event));
        }
    }
}

proof fn lemma_ended(session: SessionModel, started: Seq<usize>, told: Seq<StreamItemModel>)
    requires
        forall|i: int| 0 <= i < told.len() ==> !commits(#[trigger] told[i]) && !(told[i] is Failure),
    ensures
        forall|i: int, j: int|
            0 <= i < ended(session, started, told).len() && 0 <= j < ended(session, started, told).len() && (
            #[trigger] ended(session, started, told)[i]) is Failure ==> !commits(
                #[trigger] ended(session, started, told)[j],
            ),
{
    let last = crate::claude_code::stream::session_closed(session).0;
    lemma_told_commits_nothing(started, last.state.blocks, last.state.presented, 0, told);
}

/// A stream that fails commits nothing: where the caller is told of a failure,
/// no item is done and no response complete, and nothing more is told.
pub proof fn law_failure_commits_nothing(driver: StreamDriverModel, input: StreamInputModel, i: int, j: int)
    requires
        0 <= i < stepped(driver, input).items.len(),
        0 <= j < stepped(driver, input).items.len(),
        stepped(driver, input).items[i] is Failure,
    ensures
        !commits(stepped(driver, input).items[j]),
        stepped(driver, input).next is None,
{
    match input {
        StreamInputModel::Bytes(bytes) => {
            let (session, fed) = feed_step(driver.session, bytes);
            lemma_told_commits_nothing(
                driver.started,
                session.state.blocks,
                session.state.presented,
                0,
                Seq::empty(),
            );
            let (started, told) = told_from(
                driver.started,
                session.state.blocks,
                session.state.presented,
                0,
                Seq::empty(),
            );
            lemma_ended(crate::claude_code::transport::handed_out(session), started, told);
        },
        StreamInputModel::Ended => {
            lemma_ended(driver.session, driver.started, Seq::empty());
        },
        _ => {},
    }
}

// ---- what is shown is what is committed ----

/// What the display of a block has shown.
pub open spec fn shown_of(presented: Seq<PresentationDeltaModel>, index: int) -> Seq<char>
    decreases presented.len(),
{
    if presented.len() == 0 {
        Seq::empty()
    } else {
        let before = shown_of(presented.drop_last(), index);
        match presented.last() {
            PresentationDeltaModel::Text { index: place, delta } => if place == index {
                before + delta
            } else {
                before
            },
            PresentationDeltaModel::Thinking { index: place, delta } => if place == index {
                before + delta
            } else {
                before
            },
            PresentationDeltaModel::ToolInput { index: place, delta } => if place == index {
                before + delta
            } else {
                before
            },
        }
    }
}

/// What a block holds that is for display.
pub open spec fn displayed(block: PendingBlockModel) -> Seq<char> {
    match block {
        PendingBlockModel::Text(text) => text,
        PendingBlockModel::Thinking { thinking, .. } => thinking,
        PendingBlockModel::RedactedThinking(_) => Seq::empty(),
        PendingBlockModel::ToolUse { input, .. } => input,
    }
}

/// Whether the display has shown exactly what the blocks hold, and nothing of
/// blocks that there are not.
pub open spec fn faithful(state: ResponseStateModel) -> bool {
    &&& forall|i: int|
        0 <= i < state.blocks.len() ==> displayed((#[trigger] state.blocks[i]).block) == shown_of(state.presented, i)
    &&& forall|i: int| i >= state.blocks.len() ==> #[trigger] shown_of(state.presented, i) == Seq::<char>::empty()
}

proof fn lemma_shown_push(presented: Seq<PresentationDeltaModel>, delta: PresentationDeltaModel, index: int)
    ensures
        shown_of(presented.push(delta), index) == match delta {
            PresentationDeltaModel::Text { index: place, delta } => if place == index {
                shown_of(presented, index) + delta
            } else {
                shown_of(presented, index)
            },
            PresentationDeltaModel::Thinking { index: place, delta } => if place == index {
                shown_of(presented, index) + delta
            } else {
                shown_of(presented, index)
            },
            PresentationDeltaModel::ToolInput { index: place, delta } => if place == index {
                shown_of(presented, index) + delta
            } else {
                shown_of(presented, index)
            },
        },
{
    assert(presented.push(delta).drop_last() =~= presented);
}

proof fn lemma_event_faithful(state: ResponseStateModel, event: Seq<char>, data: Seq<char>)
    requires
        faithful(state),
    ensures
        faithful(event_step(state, event, data).0),
{
    let next = event_step(state, event, data).0;
    assert forall|i: int| 0 <= i < next.blocks.len() implies displayed((#[trigger] next.blocks[i]).block) == shown_of(
        next.presented,
        i,
    ) by {
        assert(i < state.blocks.len() ==> displayed(state.blocks[i].block) == shown_of(state.presented, i));
        assert(i >= state.blocks.len() ==> shown_of(state.presented, i) == Seq::<char>::empty());
        if next.presented != state.presented {
            lemma_shown_push(state.presented, next.presented.last(), i);
        }
    }
    assert forall|i: int| i >= next.blocks.len() implies #[trigger] shown_of(next.presented, i) == Seq::<char>::empty() by {
        assert(shown_of(state.presented, i) == Seq::<char>::empty());
        if next.presented != state.presented {
            lemma_shown_push(state.presented, next.presented.last(), i);
        }
    }
}

proof fn lemma_events_faithful(state: ResponseStateModel, events: Seq<SseEventModel>, at: int)
    requires
        faithful(state),
        0 <= at <= events.len(),
    ensures
        faithful(events_step(state, events, at).0),
    decreases events.len() - at,
{
    if at < events.len() {
        lemma_event_faithful(state, events[at].event, events[at].data);
        let (next, applied) = event_step(state, events[at].event, events[at].data);
        if applied is Ok {
            lemma_events_faithful(next, events, at + 1);
        }
    }
}

proof fn lemma_blocks_done(
    blocks: Seq<crate::claude_code::stream::BlockStateModel>,
    at: int,
    done: Seq<DecodedBlockModel>,
)
    requires
        0 <= at <= blocks.len(),
        done.len() == at,
        forall|i: int| 0 <= i < at ==> block_done(blocks[i].block, i as usize) == Ok::<_, DecodeErrorModel>(#[trigger] done[i]),
    ensures
        blocks_done_from(blocks, at, done) matches Ok(all) ==> all.len() == blocks.len() && forall|i: int|
            0 <= i < all.len() ==> block_done(blocks[i].block, i as usize) == Ok::<_, DecodeErrorModel>(#[trigger] all[i]),
    decreases blocks.len() - at,
{
    if at < blocks.len() {
        if let Ok(block) = block_done(blocks[at].block, at as usize) {
            let more = done.push(block);
            assert forall|i: int| 0 <= i < at + 1 implies block_done(blocks[i].block, i as usize) == Ok::<
                _,
                DecodeErrorModel,
            >(#[trigger] more[i]) by {
                if i < at {
                    assert(more[i] == done[i]);
                }
            }
            lemma_blocks_done(blocks, at + 1, more);
        }
    }
}

/// What was shown of a response is what it holds: the text and the thinking of
/// each block are its deltas one after another, and the input of a tool call is
/// what these parse to.
pub proof fn law_what_is_shown_is_committed(body: Seq<u8>, index: int)
    ensures
        decoded_stream(body) matches Ok(decoded) ==> 0 <= index < decoded.blocks.len() ==> match decoded.blocks[index] {
            DecodedBlockModel::Text { text } => text == shown_of(stream_step(body).0.presented, index),
            DecodedBlockModel::Thinking { thinking, .. } => thinking == shown_of(
                stream_step(body).0.presented,
                index,
            ),
            DecodedBlockModel::ToolUse { input, .. } => crate::json::json_parse(
                shown_of(stream_step(body).0.presented, index),
            ) == Ok::<_, Seq<char>>(input),
            DecodedBlockModel::RedactedThinking { .. } => true,
        },
{
    assert(faithful(fresh_state())) by {
        assert forall|i: int| i >= 0 implies #[trigger] shown_of(fresh_state().presented, i) == Seq::<char>::empty() by {}
    }
    if let Some(text) = crate::text::utf8_chars(body) {
        if let Ok(events) = sse_events(text) {
            lemma_events_faithful(fresh_state(), events, 0);
        }
    }
    let state = stream_step(body).0;
    lemma_blocks_done(state.blocks, 0, Seq::empty());
    if let Ok(decoded) = decoded_stream(body) {
        if 0 <= index < decoded.blocks.len() {
            assert(block_done(state.blocks[index].block, index as usize) == Ok::<_, DecodeErrorModel>(
                decoded.blocks[index],
            ));
            assert(displayed(state.blocks[index].block) == shown_of(state.presented, index));
        }
    }
}

// ---- thinking that comes back ----

/// The thinking that a block of a response holds.
pub open spec fn thinking_of(block: DecodedBlockModel) -> Option<ThinkingReplayBlockModel> {
    match block {
        DecodedBlockModel::Thinking { thinking, signature } => Some(
            ThinkingReplayBlockModel::Signed { thinking, signature },
        ),
        DecodedBlockModel::RedactedThinking { data } => Some(ThinkingReplayBlockModel::Redacted { data }),
        _ => None,
    }
}

/// Thinking that a response was committed with stands in the next request to
/// the same model as it was, block for block, wherever the conversation is.
pub proof fn law_thinking_comes_back(
    index: usize,
    model: Seq<char>,
    block: DecodedBlockModel,
    messages: Grouped,
    pending: Seq<Seq<char>>,
    at: usize,
)
    requires
        thinking_of(block) is Some,
        block_as_item(index, model, block) is Ok,
        comes_back(model, thinking_of(block)->0),
    ensures
        item_added(
            messages,
            pending,
            at,
            block_as_item(index, model, block)->Ok_0,
            InferenceDialect::ClaudeCode,
            model,
        ) == Ok::<_, EncodeErrorModel>(
            (
                pushed(
                    resolved_before_assistant(messages, pending).0,
                    Group::Assistant,
                    seq![thinking_block(thinking_of(block)->0)],
                ),
                resolved_before_assistant(messages, pending).1,
            ),
        ),
{
    let thinking = thinking_of(block)->0;
    let item = block_as_item(index, model, block)->Ok_0;
    if let ResponseItemModel::Reasoning { summary, content, encrypted_content, .. } = item {
        let visible = crate::chat_completions::encoder::visible_texts(summary, content);
        let text = encrypted_content->0;
        assert(decision(text, visible, InferenceDialect::ClaudeCode, model) == Ok::<_, ReplayErrorModel>(
            ReplayDecisionModel::Native(seq![thinking]),
        ));
        assert(replayed(ReplayDecisionModel::Native(seq![thinking])) =~= seq![thinking_block(thinking)]);
    }
}

} // verus!
