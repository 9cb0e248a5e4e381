//! A conversation in native messages.
use crate::chat_completions::encoder::{history_kind, unsupported_kind, visible_reasoning, visible_texts};
use crate::claude_code::encoder::{EncodeError, EncodeErrorModel};
use crate::claude_code::history_content::{
    agent_message_text, agent_text, encode_message_content, encode_tool_output, message_blocks_from, result_of,
};
use crate::claude_code::policy::{profile_of, AssembleError, AssembleErrorModel};
use crate::claude_code::replay::{
    decision, decode_thinking_replay, ReplayDecision, ReplayDecisionModel, ReplayErrorModel, ThinkingReplayBlock,
    ThinkingReplayBlockModel,
};
use crate::claude_code::types::{
    ClaudeRequestProfile, ContentBlock, ContentBlockModel, Message, MessageModel, Role, ToolResultContent,
    ToolResultContentModel,
};
use crate::json::{json_parse, parse_json, Json, JsonModel};
use crate::model::{append_items, no_items, outcome, push_item, Duplicate};
use crate::protocol::{
    InferenceDialect, ModelInferenceConfig, ModelInferenceConfigModel, ResponseItem, ResponseItemModel,
};
use crate::text::{place, position};
use vstd::prelude::*;
use vstd::string::*;

verus! {

/// What the blocks of a message are.
#[derive(Debug, Clone, Copy, PartialEq, Eq, Structural)]
pub enum Group {
    /// What the user said.
    User,
    /// What the model said, thought and called.
    Assistant,
    /// Tool results.
    ToolResults,
}

impl DeepView for Group {
    type V = Group;

    open spec fn deep_view(&self) -> Group {
        *self
    }
}

/// The messages so far, each with its group.
pub type Grouped = Seq<(Group, MessageModel)>;

/// The messages so far, and the calls that wait for their results.
pub type Transcript = (Grouped, Seq<Seq<char>>);

/// The role that a group is spoken in.
pub open spec fn group_role(group: Group) -> Role {
    if group == Group::Assistant {
        Role::Assistant
    } else {
        Role::User
    }
}

/// The messages with blocks behind them: in the last message where it is of
/// the same group, else in one of their own.
pub open spec fn pushed(messages: Grouped, group: Group, blocks: Seq<ContentBlockModel>) -> Grouped {
    if messages.len() > 0 && messages.last().0 == group {
        messages.update(
            messages.len() - 1,
            (group, MessageModel { content: messages.last().1.content + blocks, ..messages.last().1 }),
        )
    } else {
        messages.push((group, MessageModel { role: group_role(group), content: blocks }))
    }
}

fn push_blocks(messages: &mut Vec<(Group, Message)>, group: Group, blocks: Vec<ContentBlock>)
    ensures
        final(messages).deep_view() == pushed(old(messages).deep_view(), group, blocks.deep_view()),
{
    let ghost before = messages.deep_view();
    if let Some(last) = messages.pop() {
        assert(messages.deep_view() =~= before.drop_last());
        assert(last.deep_view() == before.last());
        if last.0 == group {
            let mut message = last.1;
            append_items(&mut message.content, blocks);
            push_item(messages, (group, message));
            assert(messages.deep_view() =~= pushed(before, group, blocks.deep_view()));
            return ;
        }
        push_item(messages, last);
        assert(messages.deep_view() =~= before);
    }
    let role = if group == Group::Assistant {
        Role::Assistant
    } else {
        Role::User
    };
    push_item(messages, (group, Message { role, content: blocks }));
}

/// The result of a call whose own result was never recorded.
pub open spec fn orphan_result(call_id: Seq<char>) -> ContentBlockModel {
    ContentBlockModel::ToolResult {
        tool_use_id: call_id,
        content: ToolResultContentModel::Text("Tool execution result was not recorded by Codex."@),
        is_error: true,
        cache_control: None,
    }
}

/// The transcript with every open call answered.
pub open spec fn resolved(messages: Grouped, pending: Seq<Seq<char>>) -> Transcript {
    if pending.len() == 0 {
        (messages, pending)
    } else {
        (
            pushed(messages, Group::ToolResults, Seq::new(pending.len(), |i: int| orphan_result(pending[i]))),
            Seq::empty(),
        )
    }
}

/// The transcript before the model speaks: once results have come, the calls
/// without one are answered.
pub open spec fn resolved_before_assistant(messages: Grouped, pending: Seq<Seq<char>>) -> Transcript {
    if messages.len() > 0 && messages.last().0 == Group::ToolResults {
        resolved(messages, pending)
    } else {
        (messages, pending)
    }
}

fn resolve_orphans(messages: &mut Vec<(Group, Message)>, pending: &mut Vec<String>)
    ensures
        (final(messages).deep_view(), final(pending).deep_view()) == resolved(
            old(messages).deep_view(),
            old(pending).deep_view(),
        ),
{
    if pending.len() == 0 {
        return ;
    }
    let ghost calls = pending.deep_view();
    let mut blocks: Vec<ContentBlock> = no_items();
    let mut i: usize = 0;
    while i < pending.len()
        invariant
            i <= pending.len(),
            *pending == *old(pending),
            calls == pending.deep_view(),
            blocks.deep_view() == Seq::new(i as nat, |j: int| orphan_result(calls[j])),
        decreases pending.len() - i,
    {
        push_item(
            &mut blocks,
            ContentBlock::ToolResult {
                tool_use_id: pending[i].duplicate(),
                content: ToolResultContent::Text("Tool execution result was not recorded by Codex.".to_owned()),
                is_error: true,
                cache_control: None,
            },
        );
        i += 1;
        assert(blocks.deep_view() =~= Seq::new(i as nat, |j: int| orphan_result(calls[j])));
    }
    *pending = no_items();
    push_blocks(messages, Group::ToolResults, blocks);
}

fn resolve_before_assistant(messages: &mut Vec<(Group, Message)>, pending: &mut Vec<String>)
    ensures
        (final(messages).deep_view(), final(pending).deep_view()) == resolved_before_assistant(
            old(messages).deep_view(),
            old(pending).deep_view(),
        ),
{
    if messages.len() > 0 && messages[messages.len() - 1].0 == Group::ToolResults {
        resolve_orphans(messages, pending);
    }
}

/// The block that replays a block of thinking.
pub open spec fn thinking_block(block: ThinkingReplayBlockModel) -> ContentBlockModel {
    match block {
        ThinkingReplayBlockModel::Signed { thinking, signature } => ContentBlockModel::Thinking {
            thinking,
            signature,
        },
        ThinkingReplayBlockModel::Redacted { data } => ContentBlockModel::RedactedThinking { data },
    }
}

/// The blocks that replay reasoning: its thinking, or what is visible of it.
pub open spec fn replayed(replay: ReplayDecisionModel) -> Seq<ContentBlockModel> {
    match replay {
        ReplayDecisionModel::Native(blocks) => Seq::new(blocks.len(), |i: int| thinking_block(blocks[i])),
        ReplayDecisionModel::UnrelatedOpaqueContent { visible } => Seq::new(
            visible.len(),
            |i: int| ContentBlockModel::Text { text: visible[i], cache_control: None },
        ),
        ReplayDecisionModel::ModelOrDialectChanged { visible } => Seq::new(
            visible.len(),
            |i: int| ContentBlockModel::Text { text: visible[i], cache_control: None },
        ),
    }
}

fn text_blocks(visible: &Vec<String>) -> (blocks: Vec<ContentBlock>)
    ensures
        blocks.deep_view() == Seq::new(
            visible.deep_view().len(),
            |i: int| ContentBlockModel::Text { text: visible.deep_view()[i], cache_control: None },
        ),
{
    let mut blocks: Vec<ContentBlock> = Vec::new();
    let mut i: usize = 0;
    while i < visible.len()
        invariant
            i <= visible.len(),
            blocks.len() == i,
            forall|j: int|
                0 <= j < i ==> (#[trigger] blocks@[j]).deep_view() == (ContentBlockModel::Text {
                    text: visible@[j]@,
                    cache_control: None,
                }),
        decreases visible.len() - i,
    {
        blocks.push(ContentBlock::Text { text: visible[i].duplicate(), cache_control: None });
        i += 1;
    }
    assert(blocks.deep_view() =~= Seq::new(
        visible.deep_view().len(),
        |i: int| ContentBlockModel::Text { text: visible.deep_view()[i], cache_control: None },
    ));
    blocks
}

fn replay_blocks(replay: &ReplayDecision) -> (blocks: Vec<ContentBlock>)
    ensures
        blocks.deep_view() == replayed(replay.deep_view()),
{
    match replay {
        ReplayDecision::Native(thinking) => {
            let mut blocks: Vec<ContentBlock> = Vec::new();
            let mut i: usize = 0;
            while i < thinking.len()
                invariant
                    i <= thinking.len(),
                    blocks.len() == i,
                    forall|j: int|
                        0 <= j < i ==> (#[trigger] blocks@[j]).deep_view() == thinking_block(thinking@[j].deep_view()),
                decreases thinking.len() - i,
            {
                blocks.push(
                    match &thinking[i] {
                        ThinkingReplayBlock::Signed { thinking, signature } => ContentBlock::Thinking {
                            thinking: thinking.duplicate(),
                            signature: signature.duplicate(),
                        },
                        ThinkingReplayBlock::Redacted { data } => ContentBlock::RedactedThinking {
                            data: data.duplicate(),
                        },
                    },
                );
                i += 1;
            }
            assert(blocks.deep_view() =~= replayed(replay.deep_view()));
            blocks
        },
        ReplayDecision::UnrelatedOpaqueContent { visible } => text_blocks(visible),
        ReplayDecision::ModelOrDialectChanged { visible } => text_blocks(visible),
    }
}

/// What becomes of reasoning in a conversation.
pub open spec fn replay_for(
    visible: Seq<Seq<char>>,
    encrypted_content: Option<Seq<char>>,
    dialect: InferenceDialect,
    model: Seq<char>,
) -> Result<ReplayDecisionModel, ReplayErrorModel> {
    match encrypted_content {
        Some(opaque) => decision(opaque, visible, dialect, model),
        None => Ok(ReplayDecisionModel::UnrelatedOpaqueContent { visible }),
    }
}

/// The input of a tool call, given as parsed arguments: a JSON object.
pub open spec fn call_input(call_id: Seq<char>, parsed: Result<JsonModel, Seq<char>>) -> Result<
    JsonModel,
    EncodeErrorModel,
> {
    match parsed {
        Err(message) => Err(EncodeErrorModel::InvalidToolArguments { call_id, message }),
        Ok(JsonModel::Object(entries)) => Ok(JsonModel::Object(entries)),
        Ok(_) => Err(EncodeErrorModel::InvalidToolArguments { call_id, message: "expected a JSON object"@ }),
    }
}

/// The input of a tool call, given as parsed arguments.
pub fn check_input(call_id: &str, parsed: Result<Json, String>) -> (input: Result<Json, EncodeError>)
    ensures
        outcome(input) == call_input(call_id@, outcome(parsed)),
{
    match parsed {
        Err(message) => Err(EncodeError::InvalidToolArguments { call_id: call_id.to_owned(), message }),
        Ok(Json::Object(entries)) => Ok(Json::Object(entries)),
        Ok(_) => Err(
            EncodeError::InvalidToolArguments {
                call_id: call_id.to_owned(),
                message: "expected a JSON object".to_owned(),
            },
        ),
    }
}

/// What one item adds to the transcript.
pub open spec fn item_added(
    messages: Grouped,
    pending: Seq<Seq<char>>,
    index: usize,
    item: ResponseItemModel,
    dialect: InferenceDialect,
    model: Seq<char>,
) -> Result<Transcript, EncodeErrorModel> {
    match item {
        ResponseItemModel::Message { role, content, .. } => if role == "user"@ {
            let (messages, pending) = resolved(messages, pending);
            match message_blocks_from(Role::User, content, index, 0, Seq::empty()) {
                Err(error) => Err(error),
                Ok(blocks) => Ok((pushed(messages, Group::User, blocks), pending)),
            }
        } else if role == "assistant"@ {
            let (messages, pending) = resolved_before_assistant(messages, pending);
            match message_blocks_from(Role::Assistant, content, index, 0, Seq::empty()) {
                Err(error) => Err(error),
                Ok(blocks) => Ok((pushed(messages, Group::Assistant, blocks), pending)),
            }
        } else {
            Err(EncodeErrorModel::UnsupportedHistoryItem { index, kind: "message role"@ })
        },
        ResponseItemModel::AgentMessage { author, recipient, content } => match agent_text(
            author,
            recipient,
            content,
        ) {
            None => Err(
                EncodeErrorModel::UnsupportedHistoryItem { index, kind: "non-plaintext structured agent message"@ },
            ),
            Some(text) => {
                let (messages, pending) = resolved(messages, pending);
                Ok(
                    (
                        pushed(
                            messages,
                            Group::User,
                            seq![ContentBlockModel::Text { text, cache_control: None }],
                        ),
                        pending,
                    ),
                )
            },
        },
        ResponseItemModel::Reasoning { summary, content, encrypted_content, .. } => {
            let (messages, pending) = resolved_before_assistant(messages, pending);
            match replay_for(visible_texts(summary, content), encrypted_content, dialect, model) {
                Err(error) => Err(EncodeErrorModel::Replay(error)),
                Ok(replay) => Ok((pushed(messages, Group::Assistant, replayed(replay)), pending)),
            }
        },
        ResponseItemModel::FunctionCall { name, namespace, arguments, call_id, .. } => {
            let (messages, pending) = resolved_before_assistant(messages, pending);
            if namespace is Some {
                Err(EncodeErrorModel::UnsupportedHistoryItem { index, kind: "namespace function call"@ })
            } else if place(pending, call_id) is Some {
                Err(EncodeErrorModel::DuplicateToolUse { call_id })
            } else {
                match call_input(call_id, json_parse(arguments)) {
                    Err(error) => Err(error),
                    Ok(input) => Ok(
                        (
                            pushed(
                                messages,
                                Group::Assistant,
                                seq![ContentBlockModel::ToolUse { id: call_id, name, input }],
                            ),
                            pending.push(call_id),
                        ),
                    ),
                }
            }
        },
        ResponseItemModel::FunctionCallOutput { call_id, output } => match place(pending, call_id) {
            None => Err(EncodeErrorModel::UnmatchedToolResult { call_id }),
            Some(position) => match result_of(output.body, index) {
                Err(error) => Err(error),
                Ok(content) => Ok(
                    (
                        pushed(
                            messages,
                            Group::ToolResults,
                            seq![
                                ContentBlockModel::ToolResult {
                                    tool_use_id: call_id,
                                    content,
                                    is_error: output.success == Some(false),
                                    cache_control: None,
                                },
                            ],
                        ),
                        pending.remove(position),
                    ),
                ),
            },
        },
        _ => Err(EncodeErrorModel::UnsupportedHistoryItem { index, kind: unsupported_kind(item) }),
    }
}

/// The transcript after the items from `at` on.
pub open spec fn items_added(
    items: Seq<ResponseItemModel>,
    at: int,
    messages: Grouped,
    pending: Seq<Seq<char>>,
    dialect: InferenceDialect,
    model: Seq<char>,
) -> Result<Transcript, EncodeErrorModel>
    decreases items.len() - at,
{
    if at < 0 || at >= items.len() {
        Ok((messages, pending))
    } else {
        match item_added(messages, pending, at as usize, items[at], dialect, model) {
            Ok((messages, pending)) => items_added(items, at + 1, messages, pending, dialect, model),
            Err(error) => Err(error),
        }
    }
}

/// The messages without their groups.
pub open spec fn ungrouped(messages: Grouped) -> Seq<MessageModel> {
    Seq::new(messages.len(), |i: int| messages[i].1)
}

/// The native messages of a conversation.
pub open spec fn native_history(items: Seq<ResponseItemModel>, config: ModelInferenceConfigModel) -> Result<
    Seq<MessageModel>,
    EncodeErrorModel,
> {
    match profile_of(config) {
        None => Err(EncodeErrorModel::Assembly(AssembleErrorModel::NotAnthropicModel)),
        Some(profile) => match items_added(
            items,
            0,
            Seq::empty(),
            Seq::empty(),
            profile.dialect,
            profile.wire_model,
        ) {
            Err(error) => Err(error),
            Ok((messages, pending)) => Ok(ungrouped(resolved(messages, pending).0)),
        },
    }
}

fn one_block(block: ContentBlock) -> (blocks: Vec<ContentBlock>)
    ensures
        blocks.deep_view() == seq![block.deep_view()],
{
    let mut blocks: Vec<ContentBlock> = no_items();
    push_item(&mut blocks, block);
    assert(blocks.deep_view() =~= seq![block.deep_view()]);
    blocks
}

fn add_item(
    mut messages: Vec<(Group, Message)>,
    mut pending: Vec<String>,
    index: usize,
    item: &ResponseItem,
    dialect: InferenceDialect,
    model: &str,
) -> (added: Result<(Vec<(Group, Message)>, Vec<String>), EncodeError>)
    ensures
        outcome(added) == item_added(
            messages.deep_view(),
            pending.deep_view(),
            index,
            item.deep_view(),
            dialect,
            model@,
        ),
{
    match item {
        ResponseItem::Message { role, content, .. } => {
            if *role.as_str() == *"user" {
                resolve_orphans(&mut messages, &mut pending);
                match encode_message_content(content, index, Role::User) {
                    Err(error) => Err(error),
                    Ok(blocks) => {
                        push_blocks(&mut messages, Group::User, blocks);
                        Ok((messages, pending))
                    },
                }
            } else if *role.as_str() == *"assistant" {
                resolve_before_assistant(&mut messages, &mut pending);
                match encode_message_content(content, index, Role::Assistant) {
                    Err(error) => Err(error),
                    Ok(blocks) => {
                        push_blocks(&mut messages, Group::Assistant, blocks);
                        Ok((messages, pending))
                    },
                }
            } else {
                Err(EncodeError::UnsupportedHistoryItem { index, kind: "message role" })
            }
        },
        ResponseItem::AgentMessage { author, recipient, content } => {
            match agent_message_text(author, recipient, content) {
                None => Err(
                    EncodeError::UnsupportedHistoryItem { index, kind: "non-plaintext structured agent message" },
                ),
                Some(text) => {
                    resolve_orphans(&mut messages, &mut pending);
                    push_blocks(
                        &mut messages,
                        Group::User,
                        one_block(ContentBlock::Text { text, cache_control: None }),
                    );
                    Ok((messages, pending))
                },
            }
        },
        ResponseItem::Reasoning { summary, content, encrypted_content, .. } => {
            resolve_before_assistant(&mut messages, &mut pending);
            let visible = visible_reasoning(summary, content);
            let replay = match encrypted_content {
                Some(opaque) => match decode_thinking_replay(opaque, visible, dialect, model) {
                    Err(error) => {
                        return Err(EncodeError::Replay(error));
                    },
                    Ok(replay) => replay,
                },
                None => ReplayDecision::UnrelatedOpaqueContent { visible },
            };
            push_blocks(&mut messages, Group::Assistant, replay_blocks(&replay));
            Ok((messages, pending))
        },
        ResponseItem::FunctionCall { name, namespace, arguments, call_id, .. } => {
            resolve_before_assistant(&mut messages, &mut pending);
            if namespace.is_some() {
                return Err(EncodeError::UnsupportedHistoryItem { index, kind: "namespace function call" });
            }
            if position(&pending, call_id).is_some() {
                return Err(EncodeError::DuplicateToolUse { call_id: call_id.duplicate() });
            }
            match check_input(call_id, parse_json(arguments)) {
                Err(error) => Err(error),
                Ok(input) => {
                    push_item(&mut pending, call_id.duplicate());
                    push_blocks(
                        &mut messages,
                        Group::Assistant,
                        one_block(
                            ContentBlock::ToolUse { id: call_id.duplicate(), name: name.duplicate(), input },
                        ),
                    );
                    Ok((messages, pending))
                },
            }
        },
        ResponseItem::FunctionCallOutput { call_id, output } => {
            match position(&pending, call_id) {
                None => Err(EncodeError::UnmatchedToolResult { call_id: call_id.duplicate() }),
                Some(found) => {
                    let ghost before = pending.deep_view();
                    pending.remove(found);
                    assert(pending.deep_view() =~= before.remove(found as int));
                    match encode_tool_output(&output.body, index) {
                        Err(error) => Err(error),
                        Ok(content) => {
                            let is_error = match output.success {
                                Some(success) => !success,
                                None => false,
                            };
                            push_blocks(
                                &mut messages,
                                Group::ToolResults,
                                one_block(
                                    ContentBlock::ToolResult {
                                        tool_use_id: call_id.duplicate(),
                                        content,
                                        is_error,
                                        cache_control: None,
                                    },
                                ),
                            );
                            Ok((messages, pending))
                        },
                    }
                },
            }
        },
        other => Err(EncodeError::UnsupportedHistoryItem { index, kind: history_kind(other) }),
    }
}

/// The native messages of a conversation.
pub fn encode_history(history: &[ResponseItem], profile: &ModelInferenceConfig) -> (encoded: Result<
    Vec<Message>,
    EncodeError,
>)
    ensures
        outcome(encoded) == native_history(history.deep_view(), profile.deep_view()),
{
    let target = match ClaudeRequestProfile::of(profile) {
        None => {
            return Err(EncodeError::Assembly(AssembleError::NotAnthropicModel));
        },
        Some(target) => target,
    };
    let mut messages: Vec<(Group, Message)> = no_items();
    let mut pending: Vec<String> = no_items();
    let mut i: usize = 0;
    while i < history.len()
        invariant
            i <= history.len(),
            profile_of(profile.deep_view()) == Some(target.deep_view()),
            items_added(history.deep_view(), 0, Seq::empty(), Seq::empty(), target.dialect, target.wire_model@)
                == items_added(
                history.deep_view(),
                i as int,
                messages.deep_view(),
                pending.deep_view(),
                target.dialect,
                target.wire_model@,
            ),
        decreases history.len() - i,
    {
        assert(history.deep_view()[i as int] == history@[i as int].deep_view());
        match add_item(messages, pending, i, &history[i], target.dialect, &target.wire_model) {
            Ok(next) => {
                messages = next.0;
                pending = next.1;
            },
            Err(error) => {
                return Err(error);
            },
        }
        i += 1;
    }
    resolve_orphans(&mut messages, &mut pending);
    let mut done: Vec<Message> = Vec::new();
    let mut j: usize = 0;
    while j < messages.len()
        invariant
            j <= messages.len(),
            done.len() == j,
            forall|k: int| 0 <= k < j ==> (#[trigger] done@[k]).deep_view() == messages@[k].1.deep_view(),
        decreases messages.len() - j,
    {
        done.push(messages[j].1.duplicate());
        j += 1;
    }
    assert(done.deep_view() =~= ungrouped(messages.deep_view()));
    Ok(done)
}

} // verus!
