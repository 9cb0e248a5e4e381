//! What an encoded conversation says of the items it stands for.
use crate::chat_completions::encoder::visible_texts;
use crate::claude_code::encoder::EncodeErrorModel;
use crate::claude_code::history::{
    group_role, item_added, items_added, native_history, orphan_result, pushed, replay_for, replayed, resolved,
    ungrouped, Group, Grouped,
};
use crate::claude_code::history_content::{
    agent_text, base64_refusal, image_of, message_block, message_blocks_from, plain_texts_from, result_block,
    result_blocks_from, result_of,
};
use crate::claude_code::policy::profile_of;
use crate::claude_code::replay::{decision, ReplayDecisionModel, ThinkingReplayBlockModel};
use crate::claude_code::types::{
    ContentBlockModel, ImageSourceModel, MessageModel, Role, Tool, ToolResultBlockModel, ToolResultContentModel,
};
use crate::json::{json_parse, JsonModel};
use crate::protocol::{
    AgentMessageInputContentModel, ContentItemModel, FunctionCallOutputBodyModel,
    FunctionCallOutputContentItemModel, FunctionCallOutputPayloadModel, InferenceDialect,
    ModelInferenceConfigModel, ReasoningItemContentModel, ReasoningItemReasoningSummaryModel, ResponseItemModel,
};
use crate::text::{begins_with, joined, lemma_place, letter_from, place};
use vstd::prelude::*;

verus! {

// ---- what is said, and what is still open ----

/// The blocks of messages in order, each with the role that says it.
pub open spec fn turns(messages: Seq<MessageModel>) -> Seq<(Role, ContentBlockModel)>
    decreases messages.len(),
{
    if messages.len() == 0 {
        Seq::empty()
    } else {
        turns(messages.drop_last()) + told_by(messages.last().role, messages.last().content)
    }
}

/// Blocks that a role says.
pub open spec fn told_by(role: Role, blocks: Seq<ContentBlockModel>) -> Seq<(Role, ContentBlockModel)> {
    Seq::new(blocks.len(), |i: int| (role, blocks[i]))
}

/// The results that stand in for those that were never recorded.
pub open spec fn stand_ins(open: Seq<Seq<char>>) -> Seq<(Role, ContentBlockModel)> {
    Seq::new(
        open.len(),
        |i: int|
            (
                Role::User,
                ContentBlockModel::ToolResult {
                    tool_use_id: open[i],
                    content: ToolResultContentModel::Text("Tool execution result was not recorded by Codex."@),
                    is_error: true,
                    cache_control: None,
                },
            ),
    )
}

/// Whether a conversation stops amid results.
pub open spec fn answering(history: Seq<ResponseItemModel>) -> bool {
    history.len() > 0 && history.last() is FunctionCallOutput
}

/// Whether a conversation stops with what the user or another agent said.
pub open spec fn asking(history: Seq<ResponseItemModel>) -> bool {
    history.len() > 0 && match history.last() {
        ResponseItemModel::Message { role, .. } => role == "user"@,
        ResponseItemModel::AgentMessage { .. } => true,
        _ => false,
    }
}

/// The calls that stay open where the model goes on: none once results came.
pub open spec fn still_open(history: Seq<ResponseItemModel>, open: Seq<Seq<char>>) -> Seq<Seq<char>> {
    if answering(history) {
        Seq::empty()
    } else {
        open
    }
}

/// The calls that a result may still come for.
pub open spec fn open_calls(history: Seq<ResponseItemModel>) -> Seq<Seq<char>>
    decreases history.len(),
{
    if history.len() == 0 {
        Seq::empty()
    } else {
        let open = open_calls(history.drop_last());
        match history.last() {
            ResponseItemModel::FunctionCall { call_id, .. } => still_open(history.drop_last(), open).push(call_id),
            ResponseItemModel::FunctionCallOutput { call_id, .. } => match place(open, call_id) {
                Some(at) => open.remove(at),
                None => open,
            },
            ResponseItemModel::Message { role, .. } => if role == "user"@ {
                Seq::empty()
            } else {
                still_open(history.drop_last(), open)
            },
            ResponseItemModel::AgentMessage { .. } => Seq::empty(),
            _ => still_open(history.drop_last(), open),
        }
    }
}

/// What the items of a conversation say: all but the results that stand in for
/// those of open calls.
pub open spec fn said(history: Seq<ResponseItemModel>, config: ModelInferenceConfigModel) -> Seq<
    (Role, ContentBlockModel),
> {
    let all = turns(native_history(history, config)->Ok_0);
    all.take(all.len() - open_calls(history).len())
}

/// What stands before that which the model says next: where results came, what
/// stands in for the others is part of it.
pub open spec fn said_before_the_model(history: Seq<ResponseItemModel>, config: ModelInferenceConfigModel) -> Seq<
    (Role, ContentBlockModel),
> {
    if answering(history) {
        said(history, config) + stand_ins(open_calls(history))
    } else {
        said(history, config)
    }
}

spec fn in_roles(messages: Grouped) -> bool {
    forall|i: int| 0 <= i < messages.len() ==> (#[trigger] messages[i]).1.role == group_role(messages[i].0)
}

proof fn lemma_turns_pushed(messages: Grouped, group: Group, blocks: Seq<ContentBlockModel>)
    requires
        in_roles(messages),
    ensures
        in_roles(pushed(messages, group, blocks)),
        turns(ungrouped(pushed(messages, group, blocks))) == turns(ungrouped(messages)) + told_by(
            group_role(group),
            blocks,
        ),
{
    let plain = ungrouped(messages);
    let next = pushed(messages, group, blocks);
    let after = ungrouped(next);
    let role = group_role(group);
    assert forall|i: int| 0 <= i < next.len() implies (#[trigger] next[i]).1.role == group_role(next[i].0) by {
        if i < messages.len() {
            assert(messages[i].1.role == group_role(messages[i].0));
        }
    }
    if messages.len() > 0 && messages.last().0 == group {
        assert(messages[messages.len() - 1].1.role == role);
        assert(after.drop_last() =~= plain.drop_last());
        assert(told_by(role, plain.last().content + blocks) =~= told_by(role, plain.last().content) + told_by(
            role,
            blocks,
        ));
        assert(turns(after) =~= turns(plain) + told_by(role, blocks));
    } else {
        assert(after.drop_last() =~= plain);
    }
}

proof fn lemma_turns_resolved(messages: Grouped, pending: Seq<Seq<char>>)
    requires
        in_roles(messages),
    ensures
        in_roles(resolved(messages, pending).0),
        turns(ungrouped(resolved(messages, pending).0)) == turns(ungrouped(messages)) + stand_ins(pending),
{
    if pending.len() == 0 {
        assert(turns(ungrouped(messages)) + stand_ins(pending) =~= turns(ungrouped(messages)));
    } else {
        let blocks = Seq::new(pending.len(), |i: int| orphan_result(pending[i]));
        lemma_turns_pushed(messages, Group::ToolResults, blocks);
        assert(told_by(Role::User, blocks) =~= stand_ins(pending));
    }
}

proof fn lemma_one_more(
    items: Seq<ResponseItemModel>,
    item: ResponseItemModel,
    at: int,
    messages: Grouped,
    pending: Seq<Seq<char>>,
    dialect: InferenceDialect,
    model: Seq<char>,
)
    requires
        0 <= at <= items.len(),
    ensures
        items_added(items.push(item), at, messages, pending, dialect, model) == match items_added(
            items,
            at,
            messages,
            pending,
            dialect,
            model,
        ) {
            Ok((messages, pending)) => item_added(messages, pending, items.len() as usize, item, dialect, model),
            Err(error) => Err(error),
        },
    decreases items.len() - at,
{
    let more = items.push(item);
    if at < items.len() {
        assert(more[at] == items[at]);
        if let Ok((next, open)) = item_added(messages, pending, at as usize, items[at], dialect, model) {
            lemma_one_more(items, item, at + 1, next, open, dialect, model);
        }
    } else {
        assert(more[at] == item);
        if let Ok((next, open)) = item_added(messages, pending, at as usize, item, dialect, model) {
            assert(items_added(more, at + 1, next, open, dialect, model) == Ok::<_, EncodeErrorModel>((next, open)));
        }
    }
}

spec fn follows(history: Seq<ResponseItemModel>, messages: Grouped, pending: Seq<Seq<char>>) -> bool {
    &&& in_roles(messages)
    &&& pending == open_calls(history)
    &&& answering(history) <==> messages.len() > 0 && messages.last().0 == Group::ToolResults
    &&& asking(history) <==> messages.len() > 0 && messages.last().0 == Group::User
    &&& history.len() > 0 <==> messages.len() > 0
}

proof fn lemma_item_follows(
    history: Seq<ResponseItemModel>,
    item: ResponseItemModel,
    messages: Grouped,
    pending: Seq<Seq<char>>,
    dialect: InferenceDialect,
    model: Seq<char>,
)
    requires
        follows(history, messages, pending),
    ensures
        item_added(messages, pending, history.len() as usize, item, dialect, model) matches Ok(next) ==> follows(
            history.push(item),
            next.0,
            next.1,
        ),
{
    let after = history.push(item);
    assert(after.drop_last() =~= history);
    if let Ok(next) = item_added(messages, pending, history.len() as usize, item, dialect, model) {
        lemma_turns_resolved(messages, pending);
        let settled = resolved(messages, pending).0;
        assert(resolved(messages, pending).1 =~= Seq::empty());
        match item {
            ResponseItemModel::Message { role, content, .. } => {
                reveal_strlit("user");
                reveal_strlit("assistant");
                assert("user"@.len() != "assistant"@.len());
                if role == "user"@ {
                    let blocks = message_blocks_from(Role::User, content, history.len() as usize, 0, Seq::empty())->Ok_0;
                    lemma_turns_pushed(settled, Group::User, blocks);
                } else {
                    let blocks = message_blocks_from(Role::Assistant, content, history.len() as usize, 0, Seq::empty())->Ok_0;
                    lemma_turns_pushed(settled, Group::Assistant, blocks);
                    lemma_turns_pushed(messages, Group::Assistant, blocks);
                }
            },
            ResponseItemModel::AgentMessage { author, recipient, content } => {
                let text = agent_text(author, recipient, content)->0;
                lemma_turns_pushed(settled, Group::User, seq![ContentBlockModel::Text { text, cache_control: None }]);
            },
            ResponseItemModel::Reasoning { summary, content, encrypted_content, .. } => {
                let blocks = replayed(replay_for(visible_texts(summary, content), encrypted_content, dialect, model)->Ok_0);
                lemma_turns_pushed(settled, Group::Assistant, blocks);
                lemma_turns_pushed(messages, Group::Assistant, blocks);
            },
            ResponseItemModel::FunctionCall { name, arguments, call_id, .. } => {
                let input = json_parse(arguments)->Ok_0;
                let blocks = seq![ContentBlockModel::ToolUse { id: call_id, name, input }];
                lemma_turns_pushed(settled, Group::Assistant, blocks);
                lemma_turns_pushed(messages, Group::Assistant, blocks);
            },
            ResponseItemModel::FunctionCallOutput { call_id, output } => {
                let content = result_of(output.body, history.len() as usize)->Ok_0;
                let blocks = seq![
                    ContentBlockModel::ToolResult {
                        tool_use_id: call_id,
                        content,
                        is_error: output.success == Some(false),
                        cache_control: None,
                    },
                ];
                lemma_turns_pushed(messages, Group::ToolResults, blocks);
            },
            _ => {},
        }
    }
}

proof fn lemma_follows(history: Seq<ResponseItemModel>, dialect: InferenceDialect, model: Seq<char>)
    ensures
        items_added(history, 0, Seq::empty(), Seq::empty(), dialect, model) matches Ok(next) ==> follows(
            history,
            next.0,
            next.1,
        ),
    decreases history.len(),
{
    if history.len() > 0 {
        let before = history.drop_last();
        assert(before.push(history.last()) =~= history);
        lemma_follows(before, dialect, model);
        lemma_one_more(before, history.last(), 0, Seq::empty(), Seq::empty(), dialect, model);
        if let Ok((messages, pending)) = items_added(before, 0, Seq::empty(), Seq::empty(), dialect, model) {
            lemma_item_follows(before, history.last(), messages, pending, dialect, model);
        }
    }
}

proof fn lemma_said(history: Seq<ResponseItemModel>, config: ModelInferenceConfigModel)
    ensures
        native_history(history, config) is Ok <==> profile_of(config) is Some && items_added(
            history,
            0,
            Seq::empty(),
            Seq::empty(),
            profile_of(config)->0.dialect,
            profile_of(config)->0.wire_model,
        ) is Ok,
        native_history(history, config) is Ok ==> {
            let (messages, pending) = items_added(
                history,
                0,
                Seq::empty(),
                Seq::empty(),
                profile_of(config)->0.dialect,
                profile_of(config)->0.wire_model,
            )->Ok_0;
            &&& follows(history, messages, pending)
            &&& said(history, config) == turns(ungrouped(messages))
            &&& turns(native_history(history, config)->Ok_0) == said(history, config) + stand_ins(pending)
        },
{
    if let Some(profile) = profile_of(config) {
        lemma_follows(history, profile.dialect, profile.wire_model);
        if let Ok((messages, pending)) = items_added(
            history,
            0,
            Seq::empty(),
            Seq::empty(),
            profile.dialect,
            profile.wire_model,
        ) {
            lemma_turns_resolved(messages, pending);
            assert(said(history, config) =~= turns(ungrouped(messages)));
        }
    }
}

/// An encoded conversation is what its items say, and behind that one result for
/// each open call that stands in for the one that was never recorded. Without
/// items nothing is said.
pub proof fn law_open_calls_get_stand_ins(history: Seq<ResponseItemModel>, config: ModelInferenceConfigModel)
    ensures
        native_history(history, config) matches Ok(messages) ==> turns(messages) == said(history, config) + stand_ins(
            open_calls(history),
        ),
        native_history(Seq::empty(), config) matches Ok(messages) ==> messages.len() == 0,
        native_history(Seq::empty(), config) is Ok <==> profile_of(config) is Some,
{
    lemma_said(history, config);
    lemma_said(Seq::empty(), config);
}

// ---- results ----

/// Whether an image is the one that a data URL holds.
pub open spec fn image_of_url(url: Seq<char>, source: ImageSourceModel) -> bool {
    &&& url == "data:"@ + source->media_type + ";base64,"@ + source->data
    &&& begins_with(source->media_type, "image/"@)
    &&& !source->media_type.contains(',')
    &&& base64_refusal(source->data) is None
}

/// Whether a URL holds an image that can be sent.
pub open spec fn holds_image(url: Seq<char>) -> bool {
    exists|source: ImageSourceModel| image_of_url(url, source)
}

/// Whether a block of a result is the part of what a tool gave.
pub open spec fn same_result(item: FunctionCallOutputContentItemModel, block: ToolResultBlockModel) -> bool {
    match item {
        FunctionCallOutputContentItemModel::InputText { text } => block == (ToolResultBlockModel::Text { text }),
        FunctionCallOutputContentItemModel::InputImage { image_url, .. } => block is Image && image_of_url(
            image_url,
            block->source,
        ),
        _ => false,
    }
}

/// Whether the content of a result is all that a tool gave, in order.
pub open spec fn keeps_result(body: FunctionCallOutputBodyModel, content: ToolResultContentModel) -> bool {
    match body {
        FunctionCallOutputBodyModel::Text(text) => content == ToolResultContentModel::Text(text),
        FunctionCallOutputBodyModel::ContentItems(items) => content is Blocks && content->Blocks_0.len() == items.len()
            && forall|i: int| 0 <= i < items.len() ==> same_result(#[trigger] items[i], content->Blocks_0[i]),
    }
}

/// Whether a part of what a tool gave can be sent.
pub open spec fn sendable_result(item: FunctionCallOutputContentItemModel) -> bool {
    match item {
        FunctionCallOutputContentItemModel::InputText { .. } => true,
        FunctionCallOutputContentItemModel::InputImage { image_url, .. } => holds_image(image_url),
        _ => false,
    }
}

/// Whether all that a tool gave can be sent.
pub open spec fn whole_result_sendable(body: FunctionCallOutputBodyModel) -> bool {
    match body {
        FunctionCallOutputBodyModel::Text(_) => true,
        FunctionCallOutputBodyModel::ContentItems(items) => forall|i: int|
            0 <= i < items.len() ==> sendable_result(#[trigger] items[i]),
    }
}

proof fn lemma_letter(text: Seq<char>, letter: char, at: int)
    requires
        0 <= at <= text.len(),
    ensures
        match letter_from(text, letter, at) {
            Some(found) => at <= found < text.len() && text[found] == letter && forall|i: int|
                at <= i < found ==> text[i] != letter,
            None => forall|i: int| at <= i < text.len() ==> text[i] != letter,
        },
    decreases text.len() - at,
{
    if at < text.len() && text[at] != letter {
        lemma_letter(text, letter, at + 1);
    }
}

/// A data URL is taken apart where it holds an image, and only there.
pub proof fn law_images_are_taken_from_their_url(url: Seq<char>, item_index: usize, block_index: usize)
    ensures
        image_of(url, item_index, block_index) is Ok <==> holds_image(url),
        image_of(url, item_index, block_index) matches Ok(source) ==> image_of_url(url, source),
{
    reveal_strlit("data:");
    reveal_strlit(";base64");
    reveal_strlit(";base64,");
    if let Ok(source) = image_of(url, item_index, block_index) {
        let rest = url.skip(5);
        lemma_letter(rest, ',', 0);
        let found = letter_from(rest, ',', 0)->0;
        let metadata = rest.take(found);
        let media = metadata.take(metadata.len() - 7);
        assert(source->media_type == media);
        assert(source->data == rest.skip(found + 1));
        assert(url.take(5) == "data:"@);
        assert(metadata.skip(metadata.len() - 7) == ";base64"@);
        let back = "data:"@ + media + ";base64,"@ + source->data;
        assert(back.len() == url.len());
        assert forall|i: int| 0 <= i < url.len() implies back[i] == url[i] by {
            if i < 5 {
                assert(url.take(5)[i] == url[i]);
            } else if i - 5 < media.len() {
                assert(media[i - 5] == rest[i - 5]);
            } else if i - 5 < found {
                let j = i - 5 - media.len();
                assert(metadata.skip(metadata.len() - 7)[j] == metadata[i - 5]);
                assert(";base64"@[j] == ";base64,"@[j]);
            } else if i - 5 == found {
                assert(rest[found] == ',');
            } else {
                assert(rest.skip(found + 1)[i - 5 - found - 1] == url[i]);
            }
        }
        assert(back =~= url);
        if media.contains(',') {
            let k = choose|k: int| 0 <= k < media.len() && media[k] == ',';
            assert(rest[k] == ',');
        }
        assert(image_of_url(url, source));
    }
    if holds_image(url) {
        let source = choose|source: ImageSourceModel| image_of_url(url, source);
        let media = source->media_type;
        assert(url.take(5) =~= "data:"@);
        let rest = url.skip(5);
        assert(rest =~= media + ";base64,"@ + source->data);
        lemma_letter(rest, ',', 0);
        assert(rest[media.len() as int + 7] == ',') by {
            assert(";base64,"@[7] == ',');
        }
        let found = letter_from(rest, ',', 0)->0;
        assert(found == media.len() + 7) by {
            if found < media.len() {
                assert(rest[found] == media[found]);
                assert(media.contains(','));
            } else if found < media.len() + 7 {
                assert(rest[found] == ";base64,"@[found - media.len()]);
            }
        }
        let metadata = rest.take(found);
        assert(metadata.skip(metadata.len() - 7) =~= ";base64"@) by {
            assert forall|j: int| 0 <= j < 7 implies metadata.skip(metadata.len() - 7)[j] == ";base64"@[j] by {
                assert(metadata[media.len() as int + j] == ";base64,"@[j]);
            }
        }
        assert(metadata.take(metadata.len() - 7) =~= media);
        assert(rest.skip(found + 1) =~= source->data);
    }
}

proof fn lemma_result_blocks(
    items: Seq<FunctionCallOutputContentItemModel>,
    index: usize,
    at: int,
    done: Seq<ToolResultBlockModel>,
)
    requires
        0 <= at <= items.len(),
        done.len() == at,
        forall|i: int| 0 <= i < at ==> same_result(#[trigger] items[i], done[i]),
    ensures
        result_blocks_from(items, index, at, done) is Ok <==> forall|i: int|
            at <= i < items.len() ==> sendable_result(#[trigger] items[i]),
        result_blocks_from(items, index, at, done) matches Ok(blocks) ==> blocks.len() == items.len() && forall|i: int|
            0 <= i < items.len() ==> same_result(#[trigger] items[i], blocks[i]),
    decreases items.len() - at,
{
    if at < items.len() {
        if let FunctionCallOutputContentItemModel::InputImage { image_url, .. } = items[at] {
            law_images_are_taken_from_their_url(image_url, index, at as usize);
        }
        if let Ok(block) = result_block(items[at], index, at as usize) {
            let more = done.push(block);
            assert forall|i: int| 0 <= i < at + 1 implies same_result(#[trigger] items[i], more[i]) by {
                if i < at {
                    assert(same_result(items[i], done[i]));
                }
            }
            lemma_result_blocks(items, index, at + 1, more);
        }
    }
}

/// A result is said by the user behind all that was said before, under the id of
/// its call and with all that the tool gave. It is an error if and only if the
/// tool failed: a tool that succeeded, or did not say, is none. The call is open
/// no more. A result is refused where its call is not open.
pub proof fn law_results_are_recorded(
    history: Seq<ResponseItemModel>,
    config: ModelInferenceConfigModel,
    call_id: Seq<char>,
    output: FunctionCallOutputPayloadModel,
)
    ensures
        ({
            let before = native_history(history, config);
            let more = history.push(ResponseItemModel::FunctionCallOutput { call_id, output });
            let after = native_history(more, config);
            &&& after is Ok <==> before is Ok && open_calls(history).contains(call_id) && whole_result_sendable(
                output.body,
            )
            &&& after is Ok ==> {
                let result = said(more, config).last();
                &&& said(more, config).len() == said(history, config).len() + 1
                &&& said(more, config).drop_last() == said(history, config)
                &&& result.0 == Role::User
                &&& result.1 is ToolResult
                &&& result.1->tool_use_id == call_id
                &&& keeps_result(output.body, result.1->ToolResult_content)
                &&& result.1->is_error <==> output.success == Some(false)
            }
        }),
{
    let item = ResponseItemModel::FunctionCallOutput { call_id, output };
    let more = history.push(item);
    lemma_said(history, config);
    lemma_said(more, config);
    if let Some(profile) = profile_of(config) {
        lemma_one_more(history, item, 0, Seq::empty(), Seq::empty(), profile.dialect, profile.wire_model);
        if let Ok((messages, pending)) = items_added(
            history,
            0,
            Seq::empty(),
            Seq::empty(),
            profile.dialect,
            profile.wire_model,
        ) {
            lemma_place(pending, call_id, 0);
            if let FunctionCallOutputBodyModel::ContentItems(items) = output.body {
                lemma_result_blocks(items, history.len() as usize, 0, Seq::empty());
            }
            if let Ok(content) = result_of(output.body, history.len() as usize) {
                let block = ContentBlockModel::ToolResult {
                    tool_use_id: call_id,
                    content,
                    is_error: output.success == Some(false),
                    cache_control: None,
                };
                lemma_turns_pushed(messages, Group::ToolResults, seq![block]);
                assert(told_by(Role::User, seq![block]) =~= seq![(Role::User, block)]);
                if native_history(more, config) is Ok {
                    assert(said(more, config).drop_last() =~= said(history, config));
                }
            }
        }
    }
}

// ---- messages ----

/// Whether a block is the part of a message that a role says.
pub open spec fn same_block(role: Role, item: ContentItemModel, block: ContentBlockModel) -> bool {
    match item {
        ContentItemModel::InputText { text } => role == Role::User && block == (ContentBlockModel::Text {
            text,
            cache_control: None,
        }),
        ContentItemModel::OutputText { text } => role == Role::Assistant && block == (ContentBlockModel::Text {
            text,
            cache_control: None,
        }),
        ContentItemModel::InputImage { image_url, .. } => role == Role::User && block is Image
            && block->Image_cache_control is None && image_of_url(image_url, block->Image_source),
        _ => false,
    }
}

/// Whether a role can say a part of a message.
pub open spec fn sendable(role: Role, item: ContentItemModel) -> bool {
    match item {
        ContentItemModel::InputText { .. } => role == Role::User,
        ContentItemModel::OutputText { .. } => role == Role::Assistant,
        ContentItemModel::InputImage { image_url, .. } => role == Role::User && holds_image(image_url),
        _ => false,
    }
}

/// Whether a role says every part of a message, in order and nothing else.
pub open spec fn says(role: Role, content: Seq<ContentItemModel>, told: Seq<(Role, ContentBlockModel)>) -> bool {
    told.len() == content.len() && forall|i: int|
        0 <= i < content.len() ==> told[i].0 == role && same_block(role, #[trigger] content[i], told[i].1)
}

proof fn lemma_message_blocks(
    role: Role,
    content: Seq<ContentItemModel>,
    index: usize,
    at: int,
    done: Seq<ContentBlockModel>,
)
    requires
        0 <= at <= content.len(),
        done.len() == at,
        forall|i: int| 0 <= i < at ==> same_block(role, #[trigger] content[i], done[i]),
    ensures
        message_blocks_from(role, content, index, at, done) is Ok <==> forall|i: int|
            at <= i < content.len() ==> sendable(role, #[trigger] content[i]),
        message_blocks_from(role, content, index, at, done) matches Ok(blocks) ==> blocks.len() == content.len()
            && forall|i: int| 0 <= i < content.len() ==> same_block(role, #[trigger] content[i], blocks[i]),
    decreases content.len() - at,
{
    if at < content.len() {
        if let ContentItemModel::InputImage { image_url, .. } = content[at] {
            law_images_are_taken_from_their_url(image_url, index, at as usize);
        }
        if let Ok(block) = message_block(role, content[at], index, at as usize) {
            let more = done.push(block);
            assert forall|i: int| 0 <= i < at + 1 implies same_block(role, #[trigger] content[i], more[i]) by {
                if i < at {
                    assert(same_block(role, content[i], done[i]));
                }
            }
            lemma_message_blocks(role, content, index, at + 1, more);
        }
    }
}

/// What the user says is said behind everything before it, stand-ins too, part
/// for part.
pub proof fn law_user_messages_are_kept(
    history: Seq<ResponseItemModel>,
    config: ModelInferenceConfigModel,
    id: Option<Seq<char>>,
    content: Seq<ContentItemModel>,
)
    ensures
        ({
            let before = native_history(history, config);
            let more = history.push(ResponseItemModel::Message { id, role: "user"@, content });
            let after = native_history(more, config);
            &&& after is Ok <==> before is Ok && forall|i: int|
                0 <= i < content.len() ==> sendable(Role::User, #[trigger] content[i])
            &&& after is Ok ==> {
                let old_turns = turns(before->Ok_0);
                let all = turns(after->Ok_0);
                &&& all.take(old_turns.len() as int) == old_turns
                &&& says(Role::User, content, all.skip(old_turns.len() as int))
            }
        }),
{
    let item = ResponseItemModel::Message { id, role: "user"@, content };
    let more = history.push(item);
    lemma_said(history, config);
    lemma_said(more, config);
    assert(more.drop_last() =~= history);
    if let Some(profile) = profile_of(config) {
        lemma_one_more(history, item, 0, Seq::empty(), Seq::empty(), profile.dialect, profile.wire_model);
        if let Ok((messages, pending)) = items_added(
            history,
            0,
            Seq::empty(),
            Seq::empty(),
            profile.dialect,
            profile.wire_model,
        ) {
            lemma_message_blocks(Role::User, content, history.len() as usize, 0, Seq::empty());
            lemma_turns_resolved(messages, pending);
            if let Ok(blocks) = message_blocks_from(Role::User, content, history.len() as usize, 0, Seq::empty()) {
                lemma_turns_pushed(resolved(messages, pending).0, Group::User, blocks);
                let told = told_by(Role::User, blocks);
                let old_turns = turns(native_history(history, config)->Ok_0);
                let all = turns(native_history(more, config)->Ok_0);
                assert(all =~= old_turns + told);
                assert(all.take(old_turns.len() as int) =~= old_turns);
                assert(all.skip(old_turns.len() as int) =~= told);
            }
        }
    }
}

/// What the model says is said behind everything before it, part for part; calls
/// that no result came for yet stay open.
pub proof fn law_what_the_model_said_is_kept(
    history: Seq<ResponseItemModel>,
    config: ModelInferenceConfigModel,
    id: Option<Seq<char>>,
    content: Seq<ContentItemModel>,
)
    ensures
        ({
            let before = native_history(history, config);
            let more = history.push(ResponseItemModel::Message { id, role: "assistant"@, content });
            let after = native_history(more, config);
            let start = said_before_the_model(history, config);
            &&& after is Ok <==> before is Ok && forall|i: int|
                0 <= i < content.len() ==> sendable(Role::Assistant, #[trigger] content[i])
            &&& after is Ok ==> {
                &&& said(more, config).take(start.len() as int) == start
                &&& says(Role::Assistant, content, said(more, config).skip(start.len() as int))
                &&& open_calls(more) == still_open(history, open_calls(history))
            }
        }),
{
    let item = ResponseItemModel::Message { id, role: "assistant"@, content };
    let more = history.push(item);
    reveal_strlit("user");
    reveal_strlit("assistant");
    assert("user"@.len() != "assistant"@.len());
    lemma_said(history, config);
    lemma_said(more, config);
    assert(more.drop_last() =~= history);
    if let Some(profile) = profile_of(config) {
        lemma_one_more(history, item, 0, Seq::empty(), Seq::empty(), profile.dialect, profile.wire_model);
        if let Ok((messages, pending)) = items_added(
            history,
            0,
            Seq::empty(),
            Seq::empty(),
            profile.dialect,
            profile.wire_model,
        ) {
            lemma_message_blocks(Role::Assistant, content, history.len() as usize, 0, Seq::empty());
            lemma_turns_resolved(messages, pending);
            if let Ok(blocks) = message_blocks_from(Role::Assistant, content, history.len() as usize, 0, Seq::empty()) {
                lemma_turns_pushed(resolved(messages, pending).0, Group::Assistant, blocks);
                lemma_turns_pushed(messages, Group::Assistant, blocks);
                let told = told_by(Role::Assistant, blocks);
                let start = said_before_the_model(history, config);
                assert(said(more, config) == start + told);
                assert(said(more, config).take(start.len() as int) =~= start);
                assert(said(more, config).skip(start.len() as int) =~= told);
            }
        }
    }
}

/// A call is said by the model behind everything before it, with its id, its
/// name and what its arguments parse to, and is open from then on. It is refused
/// where its arguments are no JSON object, where it has a namespace, or where a
/// call of the same id is open.
pub proof fn law_calls_are_kept(
    history: Seq<ResponseItemModel>,
    config: ModelInferenceConfigModel,
    id: Option<Seq<char>>,
    name: Seq<char>,
    namespace: Option<Seq<char>>,
    arguments: Seq<char>,
    call_id: Seq<char>,
)
    ensures
        ({
            let before = native_history(history, config);
            let more = history.push(ResponseItemModel::FunctionCall { id, name, namespace, arguments, call_id });
            let after = native_history(more, config);
            let start = said_before_the_model(history, config);
            let open = still_open(history, open_calls(history));
            &&& after is Ok <==> before is Ok && namespace is None && !open.contains(call_id) && (json_parse(
                arguments,
            ) matches Ok(JsonModel::Object(_)))
            &&& after is Ok ==> {
                let call = said(more, config).last();
                &&& said(more, config).len() == start.len() + 1
                &&& said(more, config).drop_last() == start
                &&& call.0 == Role::Assistant
                &&& call.1 is ToolUse
                &&& call.1->ToolUse_id == call_id
                &&& call.1->ToolUse_name == name
                &&& Ok::<JsonModel, Seq<char>>(call.1->ToolUse_input) == json_parse(arguments)
                &&& open_calls(more) == open.push(call_id)
            }
        }),
{
    let item = ResponseItemModel::FunctionCall { id, name, namespace, arguments, call_id };
    let more = history.push(item);
    lemma_said(history, config);
    lemma_said(more, config);
    assert(more.drop_last() =~= history);
    if let Some(profile) = profile_of(config) {
        lemma_one_more(history, item, 0, Seq::empty(), Seq::empty(), profile.dialect, profile.wire_model);
        if let Ok((messages, pending)) = items_added(
            history,
            0,
            Seq::empty(),
            Seq::empty(),
            profile.dialect,
            profile.wire_model,
        ) {
            let open = still_open(history, pending);
            assert(resolved(messages, pending).1 =~= Seq::empty());
            lemma_place(open, call_id, 0);
            lemma_turns_resolved(messages, pending);
            if let Ok(JsonModel::Object(entries)) = json_parse(arguments) {
                let block = ContentBlockModel::ToolUse { id: call_id, name, input: JsonModel::Object(entries) };
                lemma_turns_pushed(resolved(messages, pending).0, Group::Assistant, seq![block]);
                lemma_turns_pushed(messages, Group::Assistant, seq![block]);
                assert(told_by(Role::Assistant, seq![block]) =~= seq![(Role::Assistant, block)]);
                if native_history(more, config) is Ok {
                    assert(said(more, config).drop_last() =~= said_before_the_model(history, config));
                }
            }
        }
    }
}

/// Reasoning that came without a carrier is said by the model behind everything
/// before it, as the texts that are visible of it.
pub proof fn law_visible_reasoning_is_kept(
    history: Seq<ResponseItemModel>,
    config: ModelInferenceConfigModel,
    id: Option<Seq<char>>,
    summary: Seq<ReasoningItemReasoningSummaryModel>,
    content: Option<Seq<ReasoningItemContentModel>>,
)
    ensures
        ({
            let before = native_history(history, config);
            let more = history.push(ResponseItemModel::Reasoning { id, summary, content, encrypted_content: None });
            let after = native_history(more, config);
            let start = said_before_the_model(history, config);
            let texts = visible_texts(summary, content);
            &&& after is Ok <==> before is Ok
            &&& after is Ok ==> {
                &&& said(more, config).len() == start.len() + texts.len()
                &&& said(more, config).take(start.len() as int) == start
                &&& forall|i: int|
                    0 <= i < texts.len() ==> #[trigger] said(more, config)[start.len() + i] == (
                        Role::Assistant,
                        ContentBlockModel::Text { text: texts[i], cache_control: None },
                    )
                &&& open_calls(more) == still_open(history, open_calls(history))
            }
        }),
{
    let item = ResponseItemModel::Reasoning { id, summary, content, encrypted_content: None };
    let more = history.push(item);
    lemma_said(history, config);
    lemma_said(more, config);
    assert(more.drop_last() =~= history);
    if let Some(profile) = profile_of(config) {
        lemma_one_more(history, item, 0, Seq::empty(), Seq::empty(), profile.dialect, profile.wire_model);
        if let Ok((messages, pending)) = items_added(
            history,
            0,
            Seq::empty(),
            Seq::empty(),
            profile.dialect,
            profile.wire_model,
        ) {
            lemma_turns_resolved(messages, pending);
            let texts = visible_texts(summary, content);
            let replay = replay_for(texts, None, profile.dialect, profile.wire_model)->Ok_0;
            let blocks = replayed(replay);
            lemma_turns_pushed(resolved(messages, pending).0, Group::Assistant, blocks);
            lemma_turns_pushed(messages, Group::Assistant, blocks);
            let told = told_by(Role::Assistant, blocks);
            let start = said_before_the_model(history, config);
            assert(said(more, config) == start + told);
            assert(said(more, config).take(start.len() as int) =~= start);
        }
    }
}

proof fn lemma_plain_texts(content: Seq<AgentMessageInputContentModel>, at: int, done: Seq<Seq<char>>)
    requires
        0 <= at <= content.len(),
        done.len() == at,
        forall|i: int| 0 <= i < at ==> (#[trigger] content[i]) == (AgentMessageInputContentModel::InputText {
            text: done[i],
        }),
    ensures
        plain_texts_from(content, at, done) is Some <==> forall|i: int|
            at <= i < content.len() ==> (#[trigger] content[i]) is InputText,
        plain_texts_from(content, at, done) matches Some(texts) ==> texts.len() == content.len() && forall|i: int|
            0 <= i < content.len() ==> (#[trigger] content[i]) == (AgentMessageInputContentModel::InputText {
                text: texts[i],
            }),
    decreases content.len() - at,
{
    if at < content.len() {
        if let AgentMessageInputContentModel::InputText { text } = content[at] {
            let more = done.push(text);
            assert forall|i: int| 0 <= i < at + 1 implies (#[trigger] content[i]) == (
            AgentMessageInputContentModel::InputText { text: more[i] }) by {
                if i < at {
                    assert(content[i] == (AgentMessageInputContentModel::InputText { text: done[i] }));
                }
            }
            lemma_plain_texts(content, at + 1, more);
        }
    }
}

/// What one agent tells another is said by the user as one text, which names
/// both and holds every line, behind everything before it.
pub proof fn law_agent_messages_are_kept(
    history: Seq<ResponseItemModel>,
    config: ModelInferenceConfigModel,
    author: Seq<char>,
    recipient: Seq<char>,
    content: Seq<AgentMessageInputContentModel>,
    lines: Seq<Seq<char>>,
)
    requires
        lines.len() == content.len(),
        forall|i: int| 0 <= i < content.len() ==> (#[trigger] content[i]) == (AgentMessageInputContentModel::InputText {
            text: lines[i],
        }),
    ensures
        ({
            let before = native_history(history, config);
            let more = history.push(ResponseItemModel::AgentMessage { author, recipient, content });
            let after = native_history(more, config);
            &&& after is Ok <==> before is Ok
            &&& after is Ok ==> turns(after->Ok_0) == turns(before->Ok_0).push(
                (
                    Role::User,
                    ContentBlockModel::Text {
                        text: "Agent message from "@ + author + " to "@ + recipient + ":\n"@ + joined(lines),
                        cache_control: None,
                    },
                ),
            )
        }),
{
    let item = ResponseItemModel::AgentMessage { author, recipient, content };
    let more = history.push(item);
    lemma_said(history, config);
    lemma_said(more, config);
    assert(more.drop_last() =~= history);
    lemma_plain_texts(content, 0, Seq::empty());
    let texts = plain_texts_from(content, 0, Seq::empty())->0;
    assert(texts =~= lines) by {
        assert forall|i: int| 0 <= i < lines.len() implies texts[i] == lines[i] by {
            assert(content[i] == (AgentMessageInputContentModel::InputText { text: texts[i] }));
        }
    }
    if let Some(profile) = profile_of(config) {
        lemma_one_more(history, item, 0, Seq::empty(), Seq::empty(), profile.dialect, profile.wire_model);
        if let Ok((messages, pending)) = items_added(
            history,
            0,
            Seq::empty(),
            Seq::empty(),
            profile.dialect,
            profile.wire_model,
        ) {
            lemma_turns_resolved(messages, pending);
            let block = ContentBlockModel::Text { text: agent_text(author, recipient, content)->0, cache_control: None };
            lemma_turns_pushed(resolved(messages, pending).0, Group::User, seq![block]);
            let all = turns(native_history(more, config)->Ok_0);
            assert(all =~= turns(native_history(history, config)->Ok_0).push((Role::User, block)));
        }
    }
}

/// Whether a turn of the model is a block of thinking that is given back.
pub open spec fn gives_back(turn: (Role, ContentBlockModel), block: ThinkingReplayBlockModel) -> bool {
    &&& turn.0 == Role::Assistant
    &&& match block {
        ThinkingReplayBlockModel::Signed { thinking, signature } => turn.1 == (ContentBlockModel::Thinking {
            thinking,
            signature,
        }),
        ThinkingReplayBlockModel::Redacted { data } => turn.1 == (ContentBlockModel::RedactedThinking { data }),
    }
}

/// Reasoning that came with a carrier is said by the model behind everything before
/// it: as the thinking that is carried, block for block, where that is its own, and
/// else as the texts that are visible of it. A carrier that cannot be read is an
/// error.
pub proof fn law_carried_reasoning_is_kept(
    history: Seq<ResponseItemModel>,
    config: ModelInferenceConfigModel,
    id: Option<Seq<char>>,
    summary: Seq<ReasoningItemReasoningSummaryModel>,
    content: Option<Seq<ReasoningItemContentModel>>,
    carrier: Seq<char>,
)
    ensures
        ({
            let before = native_history(history, config);
            let more = history.push(
                ResponseItemModel::Reasoning { id, summary, content, encrypted_content: Some(carrier) },
            );
            let after = native_history(more, config);
            let start = said_before_the_model(history, config);
            let texts = visible_texts(summary, content);
            let profile = profile_of(config)->0;
            let replay = decision(carrier, texts, profile.dialect, profile.wire_model);
            &&& after is Ok <==> before is Ok && replay is Ok
            &&& after is Ok ==> {
                &&& said(more, config).take(start.len() as int) == start
                &&& open_calls(more) == still_open(history, open_calls(history))
                &&& match replay->Ok_0 {
                    ReplayDecisionModel::Native(blocks) => said(more, config).len() == start.len() + blocks.len()
                        && forall|i: int|
                        0 <= i < blocks.len() ==> gives_back(
                            said(more, config)[start.len() + i],
                            #[trigger] blocks[i],
                        ),
                    ReplayDecisionModel::UnrelatedOpaqueContent { visible } => says_texts(
                        said(more, config).skip(start.len() as int),
                        visible,
                    ),
                    ReplayDecisionModel::ModelOrDialectChanged { visible } => says_texts(
                        said(more, config).skip(start.len() as int),
                        visible,
                    ),
                }
            }
        }),
{
    let item = ResponseItemModel::Reasoning { id, summary, content, encrypted_content: Some(carrier) };
    let more = history.push(item);
    lemma_said(history, config);
    lemma_said(more, config);
    assert(more.drop_last() =~= history);
    if let Some(profile) = profile_of(config) {
        lemma_one_more(history, item, 0, Seq::empty(), Seq::empty(), profile.dialect, profile.wire_model);
        if let Ok((messages, pending)) = items_added(
            history,
            0,
            Seq::empty(),
            Seq::empty(),
            profile.dialect,
            profile.wire_model,
        ) {
            lemma_turns_resolved(messages, pending);
            let texts = visible_texts(summary, content);
            if let Ok(replay) = decision(carrier, texts, profile.dialect, profile.wire_model) {
                let blocks = replayed(replay);
                lemma_turns_pushed(resolved(messages, pending).0, Group::Assistant, blocks);
                lemma_turns_pushed(messages, Group::Assistant, blocks);
                let told = told_by(Role::Assistant, blocks);
                let start = said_before_the_model(history, config);
                assert(said(more, config) == start + told);
                assert(said(more, config).take(start.len() as int) =~= start);
                assert(said(more, config).skip(start.len() as int) =~= told);
            }
        }
    }
}

/// Whether the model says texts and nothing else.
pub open spec fn says_texts(turns: Seq<(Role, ContentBlockModel)>, texts: Seq<Seq<char>>) -> bool {
    &&& turns.len() == texts.len()
    &&& forall|i: int|
        0 <= i < texts.len() ==> turns[i] == (
            Role::Assistant,
            ContentBlockModel::Text { text: #[trigger] texts[i], cache_control: None },
        )
}

/// Whether messages are others with blocks of a role behind them: in the last message
/// where that goes on, and else in a message of their own.
pub open spec fn continued(
    before: Seq<MessageModel>,
    after: Seq<MessageModel>,
    role: Role,
    count: nat,
    goes_on: bool,
) -> bool {
    &&& after.len() > 0
    &&& after.last().role == role
    &&& goes_on ==> {
        &&& before.len() > 0
        &&& after.drop_last() == before.drop_last()
        &&& after.last().content.len() == before.last().content.len() + count
        &&& after.last().content.take(before.last().content.len() as int) == before.last().content
    }
    &&& !goes_on ==> {
        &&& after.drop_last() == before
        &&& after.last().content.len() == count
    }
}

proof fn lemma_pushed_continues(messages: Grouped, group: Group, blocks: Seq<ContentBlockModel>)
    requires
        in_roles(messages),
    ensures
        continued(
            ungrouped(messages),
            ungrouped(pushed(messages, group, blocks)),
            group_role(group),
            blocks.len(),
            messages.len() > 0 && messages.last().0 == group,
        ),
{
    let before = ungrouped(messages);
    let after = ungrouped(pushed(messages, group, blocks));
    if messages.len() > 0 && messages.last().0 == group {
        assert(messages[messages.len() - 1].1.role == group_role(group));
        assert(after.drop_last() =~= before.drop_last());
        assert(after.last().content =~= before.last().content + blocks);
        assert(after.last().content.take(before.last().content.len() as int) =~= before.last().content);
    } else {
        assert(after.drop_last() =~= before);
    }
}

/// What the user says joins the message of the user before it, where nothing came
/// between, and is a message of its own otherwise. Where no call is open, the same
/// holds of what the model says: it joins what the model said before.
pub proof fn law_turns_of_one_speaker_are_one_message(
    history: Seq<ResponseItemModel>,
    config: ModelInferenceConfigModel,
    id: Option<Seq<char>>,
    content: Seq<ContentItemModel>,
)
    ensures
        ({
            let before = native_history(history, config);
            let asked = native_history(
                history.push(ResponseItemModel::Message { id, role: "user"@, content }),
                config,
            );
            let told = native_history(
                history.push(ResponseItemModel::Message { id, role: "assistant"@, content }),
                config,
            );
            &&& asked is Ok ==> before is Ok && continued(
                before->Ok_0,
                asked->Ok_0,
                Role::User,
                content.len(),
                asking(history),
            )
            &&& told is Ok && open_calls(history).len() == 0 ==> before is Ok && continued(
                before->Ok_0,
                told->Ok_0,
                Role::Assistant,
                content.len(),
                history.len() > 0 && !asking(history) && !answering(history),
            )
        }),
{
    reveal_strlit("user");
    reveal_strlit("assistant");
    assert("user"@.len() != "assistant"@.len());
    let user = ResponseItemModel::Message { id, role: "user"@, content };
    let model = ResponseItemModel::Message { id, role: "assistant"@, content };
    lemma_said(history, config);
    lemma_said(history.push(user), config);
    lemma_said(history.push(model), config);
    assert(history.push(user).drop_last() =~= history);
    assert(history.push(model).drop_last() =~= history);
    if let Some(profile) = profile_of(config) {
        lemma_one_more(history, user, 0, Seq::empty(), Seq::empty(), profile.dialect, profile.wire_model);
        lemma_one_more(history, model, 0, Seq::empty(), Seq::empty(), profile.dialect, profile.wire_model);
        if let Ok((messages, pending)) = items_added(
            history,
            0,
            Seq::empty(),
            Seq::empty(),
            profile.dialect,
            profile.wire_model,
        ) {
            lemma_turns_resolved(messages, pending);
            assert(resolved(messages, pending).1 =~= Seq::empty());
            let settled = resolved(messages, pending).0;
            lemma_message_blocks(Role::User, content, history.len() as usize, 0, Seq::empty());
            lemma_message_blocks(Role::Assistant, content, history.len() as usize, 0, Seq::empty());
            if let Ok(blocks) = message_blocks_from(Role::User, content, history.len() as usize, 0, Seq::empty()) {
                lemma_pushed_continues(settled, Group::User, blocks);
                assert(asking(history) ==> pending.len() == 0);
            }
            if pending.len() == 0 {
                assert(settled == messages);
                if let Ok(blocks) = message_blocks_from(
                    Role::Assistant,
                    content,
                    history.len() as usize,
                    0,
                    Seq::empty(),
                ) {
                    lemma_pushed_continues(messages, Group::Assistant, blocks);
                }
            }
        }
    }
}

} // verus!
