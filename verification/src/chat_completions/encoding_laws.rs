//! What an encoded Chat Completions request says of the conversation it stands
//! for.
use crate::chat_completions::dialect::{
    AssistantReasoningReplayModel, DialectContextModel, DialectErrorModel, DialectHooks, Extensions,
    OpaqueReasoningModel,
};
use crate::chat_completions::encoder::{
    encoded_request, function_tool, history_from, item_step, merged_from, opaque_reasoning, open_assistant,
    opening, result_part, result_parts_from, spoken_from, tools_from, user_part, user_parts_from, visible_texts,
    EncodeErrorModel, Encoded,
};
use crate::chat_completions::laws::{lemma_item_waiting, waiting_from};
use crate::chat_completions::types::{
    AssistantMessageModel, ChatCompletionsRequestModel, ChatMessageModel, ContentPartModel, FunctionToolModel,
    ImageUrl, MessageContentModel,
};
use crate::claude_code::types::Tool;
use crate::fields::{law_put_then_lookup, lookup, put};
use crate::json::{json_parse, JsonModel};
use crate::protocol::{
    ContentItemModel, FunctionCallOutputBodyModel, FunctionCallOutputContentItemModel,
    FunctionCallOutputPayloadModel, ReasoningItemContentModel, ReasoningItemReasoningSummaryModel,
    ResponseItemModel, ToolSpecModel,
};
use crate::text::lemma_place;
use vstd::prelude::*;

verus! {

// ---- one item more ----

/// The messages and the open calls after the first items.
pub open spec fn encoded_items<D: DialectHooks>(
    items: Seq<ResponseItemModel>,
    count: nat,
    start: Seq<ChatMessageModel>,
    context: DialectContextModel,
    dialect: &D,
) -> Result<Encoded, EncodeErrorModel>
    decreases count,
{
    if count == 0 {
        Ok((start, Seq::empty()))
    } else {
        match encoded_items(items, (count - 1) as nat, start, context, dialect) {
            Err(error) => Err(error),
            Ok((messages, pending)) => item_step(
                messages,
                pending,
                (count - 1) as usize,
                items[count - 1],
                context,
                dialect,
            ),
        }
    }
}

proof fn lemma_error_stays<D: DialectHooks>(
    items: Seq<ResponseItemModel>,
    few: nat,
    count: nat,
    start: Seq<ChatMessageModel>,
    context: DialectContextModel,
    dialect: &D,
)
    requires
        few <= count,
    ensures
        encoded_items(items, few, start, context, dialect) is Err ==> encoded_items(
            items,
            count,
            start,
            context,
            dialect,
        ) == encoded_items(items, few, start, context, dialect),
    decreases count,
{
    if few < count {
        lemma_error_stays(items, few, (count - 1) as nat, start, context, dialect);
    }
}

proof fn lemma_as_steps<D: DialectHooks>(
    items: Seq<ResponseItemModel>,
    at: nat,
    start: Seq<ChatMessageModel>,
    context: DialectContextModel,
    dialect: &D,
)
    requires
        at <= items.len(),
        encoded_items(items, at, start, context, dialect) is Ok,
    ensures
        ({
            let (messages, pending) = encoded_items(items, at, start, context, dialect)->Ok_0;
            history_from(items, at as int, messages, pending, context, dialect) == match encoded_items(
                items,
                items.len(),
                start,
                context,
                dialect,
            ) {
                Ok((messages, _)) => Ok(messages),
                Err(error) => Err(error),
            }
        }),
    decreases items.len() - at,
{
    if at < items.len() {
        if encoded_items(items, at + 1, start, context, dialect) is Ok {
            lemma_as_steps(items, at + 1, start, context, dialect);
        } else {
            lemma_error_stays(items, at + 1, items.len(), start, context, dialect);
        }
    }
}

proof fn lemma_prefix<D: DialectHooks>(
    items: Seq<ResponseItemModel>,
    item: ResponseItemModel,
    count: nat,
    start: Seq<ChatMessageModel>,
    context: DialectContextModel,
    dialect: &D,
)
    requires
        count <= items.len(),
    ensures
        encoded_items(items.push(item), count, start, context, dialect) == encoded_items(
            items,
            count,
            start,
            context,
            dialect,
        ),
    decreases count,
{
    if count > 0 {
        lemma_prefix(items, item, (count - 1) as nat, start, context, dialect);
        assert(items.push(item)[count - 1] == items[count - 1]);
    }
}

proof fn lemma_waiting<D: DialectHooks>(
    items: Seq<ResponseItemModel>,
    count: nat,
    system: Option<Seq<char>>,
    context: DialectContextModel,
    dialect: &D,
)
    ensures
        encoded_items(items, count, opening(system), context, dialect) matches Ok(next) ==> waiting_from(
            next.0,
            0,
            Seq::empty(),
        ) == Some(next.1),
    decreases count,
{
    if count == 0 {
        reveal_with_fuel(waiting_from, 3);
    } else {
        lemma_waiting(items, (count - 1) as nat, system, context, dialect);
        if let Ok((messages, pending)) = encoded_items(items, (count - 1) as nat, opening(system), context, dialect) {
            lemma_item_waiting(messages, pending, (count - 1) as usize, items[count - 1], context, dialect);
        }
    }
}

/// The calls of messages that wait for a result.
pub open spec fn open_calls(messages: Seq<ChatMessageModel>) -> Seq<Seq<char>> {
    match waiting_from(messages, 0, Seq::empty()) {
        Some(calls) => calls,
        None => Seq::empty(),
    }
}

proof fn lemma_one_more<D: DialectHooks>(
    context: DialectContextModel,
    system: Option<Seq<char>>,
    history: Seq<ResponseItemModel>,
    item: ResponseItemModel,
    tools: Seq<ToolSpecModel>,
    dialect: &D,
)
    ensures
        encoded_request(context, system, history.push(item), tools, dialect) == match encoded_request(
            context,
            system,
            history,
            tools,
            dialect,
        ) {
            Err(error) => Err(error),
            Ok(request) => match item_step(
                request.messages,
                open_calls(request.messages),
                history.len() as usize,
                item,
                context,
                dialect,
            ) {
                Err(error) => Err(error),
                Ok((messages, _)) => Ok(ChatCompletionsRequestModel { messages, ..request }),
            },
        },
{
    let start = opening(system);
    let more = history.push(item);
    lemma_as_steps(history, 0, start, context, dialect);
    lemma_as_steps(more, 0, start, context, dialect);
    lemma_prefix(history, item, history.len(), start, context, dialect);
    lemma_waiting(history, history.len(), system, context, dialect);
    assert(more[history.len() as int] == item);
}

/// Without history a request holds the instructions and nothing else.
pub proof fn law_instructions_come_first<D: DialectHooks>(
    context: DialectContextModel,
    system: Option<Seq<char>>,
    tools: Seq<ToolSpecModel>,
    dialect: &D,
)
    ensures
        encoded_request(context, system, Seq::empty(), tools, dialect) matches Ok(request) ==> match system {
            Some(text) => request.messages.len() == 1 && request.messages[0] == (ChatMessageModel::System {
                content: MessageContentModel::Text(text),
            }),
            None => request.messages.len() == 0,
        },
{
}

// ---- what the user says ----

/// Whether a part of an item can be sent.
pub open spec fn sendable(item: ContentItemModel) -> bool {
    item is InputText || item is InputImage
}

/// Whether a sent part is the part of an item.
pub open spec fn same_part(item: ContentItemModel, part: ContentPartModel) -> bool {
    match item {
        ContentItemModel::InputText { text } => part == (ContentPartModel::Text { text }),
        ContentItemModel::InputImage { image_url, detail } => part is ImageUrl && part->image_url.url == image_url
            && part->image_url.detail == detail,
        _ => false,
    }
}

/// Whether content holds every part of an item, in order.
pub open spec fn keeps_parts(items: Seq<ContentItemModel>, content: MessageContentModel) -> bool {
    match content {
        MessageContentModel::Text(text) => items.len() == 1 && items[0] == (ContentItemModel::InputText { text }),
        MessageContentModel::Parts(parts) => parts.len() == items.len() && (forall|i: int|
            0 <= i < items.len() ==> same_part(#[trigger] items[i], parts[i])) && !(items.len() == 1
            && items[0] is InputText),
    }
}

proof fn lemma_user_parts(items: Seq<ContentItemModel>, index: usize, at: int, done: Seq<ContentPartModel>)
    requires
        0 <= at <= items.len(),
        done.len() == at,
        forall|i: int| 0 <= i < at ==> same_part(#[trigger] items[i], done[i]),
    ensures
        user_parts_from(items, index, at, done) is Ok <==> forall|i: int|
            at <= i < items.len() ==> sendable(#[trigger] items[i]),
        user_parts_from(items, index, at, done) matches Ok(parts) ==> parts.len() == items.len() && forall|i: int|
            0 <= i < items.len() ==> same_part(#[trigger] items[i], parts[i]),
    decreases items.len() - at,
{
    if at < items.len() {
        if let Ok(part) = user_part(items[at]) {
            let more = done.push(part);
            assert forall|i: int| 0 <= i < at + 1 implies same_part(#[trigger] items[i], more[i]) by {
                if i < at {
                    assert(same_part(items[i], done[i]));
                }
            }
            lemma_user_parts(items, index, at + 1, more);
        }
    }
}

/// What the user said last is the last message, with every text and image of it
/// in order; all before it stays as it was. It is refused where it holds
/// anything else.
pub proof fn law_user_messages_are_kept<D: DialectHooks>(
    context: DialectContextModel,
    system: Option<Seq<char>>,
    history: Seq<ResponseItemModel>,
    id: Option<Seq<char>>,
    content: Seq<ContentItemModel>,
    tools: Seq<ToolSpecModel>,
    dialect: &D,
)
    ensures
        ({
            let before = encoded_request(context, system, history, tools, dialect);
            let item = ResponseItemModel::Message { id, role: "user"@, content };
            let after = encoded_request(context, system, history.push(item), tools, dialect);
            &&& after is Ok <==> before is Ok && forall|i: int|
                0 <= i < content.len() ==> sendable(#[trigger] content[i])
            &&& after matches Ok(request) ==> {
                &&& request.messages.len() == before->Ok_0.messages.len() + 1
                &&& request.messages.drop_last() == before->Ok_0.messages
                &&& request.messages.last() is User
                &&& keeps_parts(content, request.messages.last()->User_content)
            }
        }),
{
    let item = ResponseItemModel::Message { id, role: "user"@, content };
    lemma_one_more(context, system, history, item, tools, dialect);
    lemma_user_parts(content, history.len() as usize, 0, Seq::empty());
    if let Ok(request) = encoded_request(context, system, history, tools, dialect) {
        if let Ok(after) = encoded_request(context, system, history.push(item), tools, dialect) {
            assert(after.messages.drop_last() =~= request.messages);
            if content.len() == 1 {
                assert(same_part(content[0], user_parts_from(content, history.len() as usize, 0, Seq::empty())->Ok_0[0]));
            }
        }
    }
}

// ---- what the model said ----

/// The texts of what the model said, after one another.
pub open spec fn spoken_text(items: Seq<ContentItemModel>) -> Seq<char>
    decreases items.len(),
{
    if items.len() == 0 {
        Seq::empty()
    } else {
        match items.last() {
            ContentItemModel::OutputText { text } => spoken_text(items.drop_last()) + text,
            _ => spoken_text(items.drop_last()),
        }
    }
}

proof fn lemma_spoken(items: Seq<ContentItemModel>, index: usize, at: int)
    requires
        0 <= at <= items.len(),
    ensures
        spoken_from(items, index, at, spoken_text(items.take(at))) is Ok <==> forall|i: int|
            at <= i < items.len() ==> (#[trigger] items[i]) is OutputText,
        spoken_from(items, index, at, spoken_text(items.take(at))) matches Ok(text) ==> text == spoken_text(items),
    decreases items.len() - at,
{
    if at < items.len() {
        let next = items.take(at + 1);
        assert(next.drop_last() =~= items.take(at));
        assert(next.last() == items[at]);
        if items[at] is OutputText {
            lemma_spoken(items, index, at + 1);
        }
    } else {
        assert(items.take(at) =~= items);
    }
}

/// The message of the model that stands last, or an empty one.
pub open spec fn last_words(messages: Seq<ChatMessageModel>) -> AssistantMessageModel {
    if messages.len() > 0 && messages.last() is Assistant {
        messages.last()->Assistant_0
    } else {
        AssistantMessageModel { content: None, tool_calls: Seq::empty(), reasoning: Seq::empty() }
    }
}

/// Whether messages are others with what the model says next: it joins the
/// message of the model that stands last, or is a message of its own.
pub open spec fn model_went_on(before: Seq<ChatMessageModel>, after: Seq<ChatMessageModel>) -> bool {
    &&& after.len() > 0
    &&& after.last() is Assistant
    &&& after.drop_last() == if before.len() > 0 && before.last() is Assistant {
        before.drop_last()
    } else {
        before
    }
}

/// What the model said last stands at the end of its last message, behind what
/// it said there before; its calls and its reasoning stay.
pub proof fn law_what_the_model_said_is_kept<D: DialectHooks>(
    context: DialectContextModel,
    system: Option<Seq<char>>,
    history: Seq<ResponseItemModel>,
    id: Option<Seq<char>>,
    content: Seq<ContentItemModel>,
    tools: Seq<ToolSpecModel>,
    dialect: &D,
)
    ensures
        ({
            let before = encoded_request(context, system, history, tools, dialect);
            let item = ResponseItemModel::Message { id, role: "assistant"@, content };
            let after = encoded_request(context, system, history.push(item), tools, dialect);
            &&& after is Ok <==> before is Ok && forall|i: int|
                0 <= i < content.len() ==> (#[trigger] content[i]) is OutputText
            &&& after matches Ok(request) ==> {
                let was = last_words(before->Ok_0.messages);
                let now = last_words(request.messages);
                &&& model_went_on(before->Ok_0.messages, request.messages)
                &&& now.content == Some(
                    match was.content {
                        Some(text) => text + spoken_text(content),
                        None => spoken_text(content),
                    },
                )
                &&& now.tool_calls == was.tool_calls
                &&& now.reasoning == was.reasoning
            }
        }),
{
    let item = ResponseItemModel::Message { id, role: "assistant"@, content };
    reveal_strlit("user");
    reveal_strlit("assistant");
    lemma_one_more(context, system, history, item, tools, dialect);
    assert("user"@.len() != "assistant"@.len());
    assert(spoken_text(content.take(0)) == Seq::<char>::empty());
    lemma_spoken(content, history.len() as usize, 0);
    if let Ok(request) = encoded_request(context, system, history, tools, dialect) {
        if let Ok(after) = encoded_request(context, system, history.push(item), tools, dialect) {
            let head = open_assistant(request.messages).0;
            assert(after.messages.drop_last() =~= head);
        }
    }
}

/// A call that the model made stands last among the calls of its last message,
/// with the id, the name and the arguments it has; what the message held stays.
/// It is refused where its arguments are no JSON object, where it has a
/// namespace, or where a call of the same id still waits for its result.
pub proof fn law_calls_are_kept<D: DialectHooks>(
    context: DialectContextModel,
    system: Option<Seq<char>>,
    history: Seq<ResponseItemModel>,
    id: Option<Seq<char>>,
    name: Seq<char>,
    namespace: Option<Seq<char>>,
    arguments: Seq<char>,
    call_id: Seq<char>,
    tools: Seq<ToolSpecModel>,
    dialect: &D,
)
    ensures
        ({
            let before = encoded_request(context, system, history, tools, dialect);
            let item = ResponseItemModel::FunctionCall { id, name, namespace, arguments, call_id };
            let after = encoded_request(context, system, history.push(item), tools, dialect);
            &&& after is Ok <==> before is Ok && namespace is None && (json_parse(arguments) matches Ok(
                JsonModel::Object(_),
            )) && !open_calls(before->Ok_0.messages).contains(call_id)
            &&& after matches Ok(request) ==> {
                let was = last_words(before->Ok_0.messages);
                let now = last_words(request.messages);
                &&& model_went_on(before->Ok_0.messages, request.messages)
                &&& now.content == was.content
                &&& now.reasoning == was.reasoning
                &&& now.tool_calls.len() == was.tool_calls.len() + 1
                &&& now.tool_calls.drop_last() == was.tool_calls
                &&& now.tool_calls.last().id == call_id
                &&& now.tool_calls.last().function.name == name
                &&& now.tool_calls.last().function.arguments == arguments
            }
        }),
{
    let item = ResponseItemModel::FunctionCall { id, name, namespace, arguments, call_id };
    lemma_one_more(context, system, history, item, tools, dialect);
    if let Ok(request) = encoded_request(context, system, history, tools, dialect) {
        lemma_place(open_calls(request.messages), call_id, 0);
        if let Ok(after) = encoded_request(context, system, history.push(item), tools, dialect) {
            let head = open_assistant(request.messages).0;
            assert(after.messages.drop_last() =~= head);
            let was = last_words(request.messages);
            let now = last_words(after.messages);
            assert(now.tool_calls.drop_last() =~= was.tool_calls);
        }
    }
}

// ---- what tools gave ----

/// Whether a part of a result can be sent.
pub open spec fn sendable_result(item: FunctionCallOutputContentItemModel) -> bool {
    item is InputText || item is InputImage
}

/// Whether a sent part is the part of a result.
pub open spec fn same_result(item: FunctionCallOutputContentItemModel, part: ContentPartModel) -> bool {
    match item {
        FunctionCallOutputContentItemModel::InputText { text } => part == (ContentPartModel::Text { text }),
        FunctionCallOutputContentItemModel::InputImage { image_url, detail } => part is ImageUrl
            && part->image_url.url == image_url && part->image_url.detail == detail,
        _ => false,
    }
}

/// Whether content holds every part of a result, in order.
pub open spec fn keeps_result(body: FunctionCallOutputBodyModel, content: MessageContentModel) -> bool {
    match body {
        FunctionCallOutputBodyModel::Text(text) => content == MessageContentModel::Text(text),
        FunctionCallOutputBodyModel::ContentItems(items) => content is Parts && content->Parts_0.len() == items.len()
            && forall|i: int| 0 <= i < items.len() ==> same_result(#[trigger] items[i], content->Parts_0[i]),
    }
}

/// Whether all of a result can be sent.
pub open spec fn whole_result_sendable(body: FunctionCallOutputBodyModel) -> bool {
    match body {
        FunctionCallOutputBodyModel::Text(_) => true,
        FunctionCallOutputBodyModel::ContentItems(items) => forall|i: int|
            0 <= i < items.len() ==> sendable_result(#[trigger] items[i]),
    }
}

proof fn lemma_result_parts(
    items: Seq<FunctionCallOutputContentItemModel>,
    index: usize,
    at: int,
    done: Seq<ContentPartModel>,
)
    requires
        0 <= at <= items.len(),
        done.len() == at,
        forall|i: int| 0 <= i < at ==> same_result(#[trigger] items[i], done[i]),
    ensures
        result_parts_from(items, index, at, done) is Ok <==> forall|i: int|
            at <= i < items.len() ==> sendable_result(#[trigger] items[i]),
        result_parts_from(items, index, at, done) matches Ok(parts) ==> parts.len() == items.len() && forall|i: int|
            0 <= i < items.len() ==> same_result(#[trigger] items[i], parts[i]),
    decreases items.len() - at,
{
    if at < items.len() {
        if let Ok(part) = result_part(items[at]) {
            let more = done.push(part);
            assert forall|i: int| 0 <= i < at + 1 implies same_result(#[trigger] items[i], more[i]) by {
                if i < at {
                    assert(same_result(items[i], done[i]));
                }
            }
            lemma_result_parts(items, index, at + 1, more);
        }
    }
}

/// A result is the last message, under the id of its call and with every part of
/// it in order; all before it stays as it was. It is refused where no call waits
/// for it.
pub proof fn law_results_are_kept<D: DialectHooks>(
    context: DialectContextModel,
    system: Option<Seq<char>>,
    history: Seq<ResponseItemModel>,
    call_id: Seq<char>,
    output: FunctionCallOutputPayloadModel,
    tools: Seq<ToolSpecModel>,
    dialect: &D,
)
    ensures
        ({
            let before = encoded_request(context, system, history, tools, dialect);
            let item = ResponseItemModel::FunctionCallOutput { call_id, output };
            let after = encoded_request(context, system, history.push(item), tools, dialect);
            &&& after is Ok <==> before is Ok && open_calls(before->Ok_0.messages).contains(call_id)
                && whole_result_sendable(output.body)
            &&& after matches Ok(request) ==> {
                &&& request.messages.len() == before->Ok_0.messages.len() + 1
                &&& request.messages.drop_last() == before->Ok_0.messages
                &&& request.messages.last() is Tool
                &&& request.messages.last()->tool_call_id == call_id
                &&& keeps_result(output.body, request.messages.last()->Tool_content)
            }
        }),
{
    let item = ResponseItemModel::FunctionCallOutput { call_id, output };
    lemma_one_more(context, system, history, item, tools, dialect);
    if let FunctionCallOutputBodyModel::ContentItems(items) = output.body {
        lemma_result_parts(items, history.len() as usize, 0, Seq::empty());
    }
    if let Ok(request) = encoded_request(context, system, history, tools, dialect) {
        lemma_place(open_calls(request.messages), call_id, 0);
        if let Ok(after) = encoded_request(context, system, history.push(item), tools, dialect) {
            assert(after.messages.drop_last() =~= request.messages);
        }
    }
}

// ---- reasoning ----

/// Whether texts are what is visible of reasoning: its content, or failing that
/// its summary.
pub open spec fn visible_of(
    texts: Seq<Seq<char>>,
    summary: Seq<ReasoningItemReasoningSummaryModel>,
    content: Option<Seq<ReasoningItemContentModel>>,
) -> bool {
    if content is Some && content->0.len() > 0 {
        texts.len() == content->0.len() && forall|i: int|
            0 <= i < texts.len() ==> content->0[i] == (ReasoningItemContentModel::ReasoningText {
                text: #[trigger] texts[i],
            }) || content->0[i] == (ReasoningItemContentModel::Text { text: texts[i] })
    } else {
        texts.len() == summary.len() && forall|i: int|
            0 <= i < texts.len() ==> summary[i] == (ReasoningItemReasoningSummaryModel::SummaryText {
                text: #[trigger] texts[i],
            })
    }
}

/// What is visible of reasoning is its content, or failing that its summary.
pub proof fn law_visible_reasoning(
    summary: Seq<ReasoningItemReasoningSummaryModel>,
    content: Option<Seq<ReasoningItemContentModel>>,
)
    ensures
        visible_of(visible_texts(summary, content), summary, content),
{
}

proof fn lemma_merged(fields: Extensions, at: int, there: Extensions, name: Seq<char>)
    requires
        0 <= at <= fields.len(),
    ensures
        merged_from(fields, at, there) matches Ok(all) ==> {
            &&& lookup(all, name) == match lookup(there, name) {
                Some(value) => Some(value),
                None => lookup(fields.skip(at), name),
            }
            &&& lookup(fields.skip(at), name) is Some ==> lookup(there, name) is None
        },
    decreases fields.len() - at,
{
    if at < fields.len() {
        if merged_from(fields, at, there) is Ok {
            let more = put(there, fields[at].0, fields[at].1);
            lemma_merged(fields, at + 1, more, name);
            law_put_then_lookup(there, fields[at].0, fields[at].1, name);
            assert(fields.skip(at)[0] == fields[at]);
            assert(fields.skip(at).drop_first() =~= fields.skip(at + 1));
        }
    }
}

/// The fields that a dialect makes of reasoning stand in the last message of the
/// model, beside all that it held. The dialect is given what is visible of it and
/// what only the provider can read.
pub proof fn law_reasoning_is_kept<D: DialectHooks>(
    context: DialectContextModel,
    system: Option<Seq<char>>,
    history: Seq<ResponseItemModel>,
    id: Option<Seq<char>>,
    summary: Seq<ReasoningItemReasoningSummaryModel>,
    content: Option<Seq<ReasoningItemContentModel>>,
    encrypted_content: Option<Seq<char>>,
    tools: Seq<ToolSpecModel>,
    dialect: &D,
    name: Seq<char>,
)
    ensures
        ({
            let before = encoded_request(context, system, history, tools, dialect);
            let item = ResponseItemModel::Reasoning { id, summary, content, encrypted_content };
            let after = encoded_request(context, system, history.push(item), tools, dialect);
            let answer = dialect.reasoning_for(
                context,
                AssistantReasoningReplayModel {
                    visible: visible_texts(summary, content),
                    opaque: match encrypted_content {
                        None => OpaqueReasoningModel::Absent,
                        Some(text) => OpaqueReasoningModel::Other(text),
                    },
                },
            );
            &&& before is Ok && answer is Err ==> after == Err::<ChatCompletionsRequestModel, _>(
                EncodeErrorModel::Dialect(answer->Err_0),
            )
            &&& after matches Ok(request) ==> {
                let was = last_words(before->Ok_0.messages);
                let now = last_words(request.messages);
                let fields = answer->Ok_0;
                &&& before is Ok
                &&& answer is Ok
                &&& model_went_on(before->Ok_0.messages, request.messages)
                &&& now.content == was.content
                &&& now.tool_calls == was.tool_calls
                &&& lookup(now.reasoning, name) == match lookup(was.reasoning, name) {
                    Some(value) => Some(value),
                    None => lookup(fields, name),
                }
                &&& lookup(fields, name) is Some ==> lookup(was.reasoning, name) is None
                &&& lookup(fields, "role"@) is None && lookup(fields, "content"@) is None && lookup(
                    fields,
                    "tool_calls"@,
                ) is None
            }
        }),
{
    let item = ResponseItemModel::Reasoning { id, summary, content, encrypted_content };
    lemma_one_more(context, system, history, item, tools, dialect);
    if let Ok(request) = encoded_request(context, system, history, tools, dialect) {
        if let Ok(after) = encoded_request(context, system, history.push(item), tools, dialect) {
            let (head, last) = open_assistant(request.messages);
            assert(after.messages.drop_last() =~= head);
            let replay = AssistantReasoningReplayModel {
                visible: visible_texts(summary, content),
                opaque: opaque_reasoning(encrypted_content),
            };
            let fields = dialect.reasoning_for(context, replay)->Ok_0;
            lemma_merged(fields, 0, last.reasoning, name);
            assert(fields.skip(0) =~= fields);
        }
    }
}

// ---- what cannot be sent ----

/// Whether the protocol has a form for an item.
pub open spec fn has_form(item: ResponseItemModel) -> bool {
    match item {
        ResponseItemModel::Message { role, .. } => role == "user"@ || role == "assistant"@,
        ResponseItemModel::Reasoning { .. } => true,
        ResponseItemModel::FunctionCall { namespace, .. } => namespace is None,
        ResponseItemModel::FunctionCallOutput { .. } => true,
        _ => false,
    }
}

/// An item is never dropped: where the protocol has no form for it, the request
/// is refused at its place. A call that has no JSON object as arguments, a call
/// that was made and not answered yet, and a result that no call waits for are
/// refused under the id of the call. A conversation that was refused stays so.
pub proof fn law_nothing_is_dropped<D: DialectHooks>(
    context: DialectContextModel,
    system: Option<Seq<char>>,
    history: Seq<ResponseItemModel>,
    item: ResponseItemModel,
    tools: Seq<ToolSpecModel>,
    dialect: &D,
)
    requires
        history.len() <= usize::MAX,
    ensures
        ({
            let before = encoded_request(context, system, history, tools, dialect);
            let after = encoded_request(context, system, history.push(item), tools, dialect);
            &&& before is Err ==> after == before
            &&& before is Ok && !has_form(item) ==> after is Err && after->Err_0 is UnsupportedHistoryItem
                && after->Err_0->UnsupportedHistoryItem_index == history.len()
            &&& before is Ok ==> (item matches ResponseItemModel::FunctionCallOutput { call_id, .. } ==> (
            !open_calls(before->Ok_0.messages).contains(call_id) <==> after == Err::<ChatCompletionsRequestModel, _>(
                EncodeErrorModel::UnmatchedToolResult { call_id },
            )))
            &&& before is Ok ==> (item matches ResponseItemModel::FunctionCall { call_id, namespace, arguments, .. } ==> (
            namespace is None && (json_parse(arguments) matches Ok(JsonModel::Object(_))) && open_calls(
                before->Ok_0.messages,
            ).contains(call_id) <==> after == Err::<ChatCompletionsRequestModel, _>(
                EncodeErrorModel::DuplicateToolCall { call_id },
            )))
            &&& before is Ok ==> (item matches ResponseItemModel::FunctionCall { call_id, namespace, arguments, .. } ==> (
            namespace is None && !(json_parse(arguments) matches Ok(JsonModel::Object(_))) <==> after is Err
                && after->Err_0 is InvalidToolArguments && after->Err_0->InvalidToolArguments_call_id == call_id))
        }),
{
    lemma_one_more(context, system, history, item, tools, dialect);
    if let Ok(request) = encoded_request(context, system, history, tools, dialect) {
        let open = open_calls(request.messages);
        match item {
            ResponseItemModel::FunctionCall { call_id, .. } => lemma_place(open, call_id, 0),
            ResponseItemModel::FunctionCallOutput { call_id, output } => {
                lemma_place(open, call_id, 0);
                if let FunctionCallOutputBodyModel::ContentItems(parts) = output.body {
                    lemma_result_errors(parts, history.len() as usize, 0, Seq::empty());
                }
            },
            _ => {},
        }
    }
}

// ---- tools ----

/// Whether a declared function is a tool.
pub open spec fn same_tool(tool: ToolSpecModel, sent: FunctionToolModel) -> bool {
    &&& tool is Function
    &&& sent.function.name == tool->Function_0.name
    &&& sent.function.description == tool->Function_0.description
    &&& sent.function.parameters == tool->Function_0.parameters
    &&& sent.function.strict == tool->Function_0.strict
}

/// Whether a tool can be declared: it is a function that is there from the start
/// and whose result is free.
pub open spec fn declarable(tool: ToolSpecModel) -> bool {
    tool is Function && tool->Function_0.defer_loading is None && tool->Function_0.output_schema is None
}

proof fn lemma_tools(tools: Seq<ToolSpecModel>, at: int, done: Seq<FunctionToolModel>)
    requires
        0 <= at <= tools.len() <= usize::MAX,
        done.len() == at,
        forall|i: int| 0 <= i < at ==> same_tool(#[trigger] tools[i], done[i]),
    ensures
        tools_from(tools, at, done) is Ok <==> forall|i: int| at <= i < tools.len() ==> declarable(#[trigger] tools[i]),
        tools_from(tools, at, done) matches Ok(sent) ==> sent.len() == tools.len() && forall|i: int|
            0 <= i < tools.len() ==> same_tool(#[trigger] tools[i], sent[i]),
        tools_from(tools, at, done) matches Err(error) ==> error is UnsupportedTool && at
            <= error->UnsupportedTool_index < tools.len() && !declarable(tools[error->UnsupportedTool_index as int])
            && forall|i: int| at <= i < error->UnsupportedTool_index ==> declarable(#[trigger] tools[i]),
    decreases tools.len() - at,
{
    if at < tools.len() {
        if let Ok(tool) = function_tool(tools[at]) {
            let more = done.push(tool);
            assert forall|i: int| 0 <= i < at + 1 implies same_tool(#[trigger] tools[i], more[i]) by {
                if i < at {
                    assert(same_tool(tools[i], done[i]));
                }
            }
            lemma_tools(tools, at + 1, more);
        }
    }
}

/// A request is for the model of its context, declares every tool in order as it
/// is, and holds the extensions of its dialect, which name none of its own
/// fields. The first tool that cannot be declared is refused at its place.
pub proof fn law_tools_and_extensions_are_kept<D: DialectHooks>(
    context: DialectContextModel,
    system: Option<Seq<char>>,
    history: Seq<ResponseItemModel>,
    tools: Seq<ToolSpecModel>,
    dialect: &D,
)
    requires
        tools.len() <= usize::MAX,
    ensures
        ({
            let encoded = encoded_request(context, system, history, tools, dialect);
            let extensions = dialect.extensions_for(context);
            &&& encoded matches Ok(request) ==> {
                &&& context.model.len() > 0
                &&& request.model == context.model
                &&& extensions == Ok::<Extensions, DialectErrorModel>(
                    request.extensions,
                )
                &&& lookup(request.extensions, "model"@) is None && lookup(request.extensions, "messages"@) is None
                    && lookup(request.extensions, "tools"@) is None
                &&& request.tools.len() == tools.len()
                &&& forall|i: int| 0 <= i < tools.len() ==> same_tool(#[trigger] tools[i], request.tools[i])
                &&& forall|i: int| 0 <= i < tools.len() ==> declarable(#[trigger] tools[i])
            }
            &&& context.model.len() == 0 <==> encoded == Err::<ChatCompletionsRequestModel, _>(
                EncodeErrorModel::EmptyModel,
            )
            &&& encoded matches Err(EncodeErrorModel::UnsupportedTool { index, .. }) ==> index < tools.len()
                && !declarable(tools[index as int]) && forall|i: int|
                0 <= i < index ==> declarable(#[trigger] tools[i])
        }),
{
    lemma_tools(tools, 0, Seq::empty());
    let start = opening(system);
    lemma_as_steps(history, 0, start, context, dialect);
    lemma_errors(history, history.len(), start, context, dialect);
}

proof fn lemma_errors<D: DialectHooks>(
    items: Seq<ResponseItemModel>,
    count: nat,
    start: Seq<ChatMessageModel>,
    context: DialectContextModel,
    dialect: &D,
)
    ensures
        encoded_items(items, count, start, context, dialect) matches Err(error) ==> !(error is UnsupportedTool)
            && !(error is EmptyModel),
    decreases count,
{
    if count > 0 {
        lemma_errors(items, (count - 1) as nat, start, context, dialect);
        if let Ok((messages, pending)) = encoded_items(items, (count - 1) as nat, start, context, dialect) {
            let item = items[count - 1];
            let index = (count - 1) as usize;
            match item {
                ResponseItemModel::Message { content, .. } => {
                    lemma_user_errors(content, index, 0, Seq::empty());
                    lemma_spoken_errors(content, index, 0, Seq::empty());
                },
                ResponseItemModel::FunctionCallOutput { output, .. } => {
                    if let FunctionCallOutputBodyModel::ContentItems(parts) = output.body {
                        lemma_result_errors(parts, index, 0, Seq::empty());
                    }
                },
                ResponseItemModel::Reasoning { summary, content, encrypted_content, .. } => {
                    let replay = AssistantReasoningReplayModel {
                        visible: visible_texts(summary, content),
                        opaque: opaque_reasoning(encrypted_content),
                    };
                    if let Ok(fields) = dialect.reasoning_for(context, replay) {
                        lemma_merge_errors(fields, 0, open_assistant(messages).1.reasoning);
                    }
                },
                _ => {},
            }
        }
    }
}

proof fn lemma_merge_errors(fields: Extensions, at: int, there: Extensions)
    ensures
        merged_from(fields, at, there) matches Err(error) ==> error is ReservedExtension,
    decreases fields.len() - at,
{
    if 0 <= at < fields.len() {
        lemma_merge_errors(fields, at + 1, put(there, fields[at].0, fields[at].1));
    }
}

proof fn lemma_user_errors(items: Seq<ContentItemModel>, index: usize, at: int, done: Seq<ContentPartModel>)
    ensures
        user_parts_from(items, index, at, done) matches Err(error) ==> error is UnsupportedContent
            && error->UnsupportedContent_item_index == index,
    decreases items.len() - at,
{
    if 0 <= at < items.len() {
        if let Ok(part) = user_part(items[at]) {
            lemma_user_errors(items, index, at + 1, done.push(part));
        }
    }
}

proof fn lemma_spoken_errors(items: Seq<ContentItemModel>, index: usize, at: int, done: Seq<char>)
    ensures
        spoken_from(items, index, at, done) matches Err(error) ==> error is UnsupportedContent
            && error->UnsupportedContent_item_index == index,
    decreases items.len() - at,
{
    if 0 <= at < items.len() {
        if let ContentItemModel::OutputText { text } = items[at] {
            lemma_spoken_errors(items, index, at + 1, done + text);
        }
    }
}

proof fn lemma_result_errors(
    items: Seq<FunctionCallOutputContentItemModel>,
    index: usize,
    at: int,
    done: Seq<ContentPartModel>,
)
    ensures
        result_parts_from(items, index, at, done) matches Err(error) ==> error is UnsupportedContent
            && error->UnsupportedContent_item_index == index,
    decreases items.len() - at,
{
    if 0 <= at < items.len() {
        if let Ok(part) = result_part(items[at]) {
            lemma_result_errors(items, index, at + 1, done.push(part));
        }
    }
}

} // verus!
