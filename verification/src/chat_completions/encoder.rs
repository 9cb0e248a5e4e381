//! The encoder of a conversation into a Chat Completions request.
use crate::chat_completions::dialect::{
    AssistantReasoningReplay, AssistantReasoningReplayModel, DialectContext, DialectContextModel, DialectError,
    DialectErrorModel, DialectHooks, Extensions, OpaqueReasoning, OpaqueReasoningModel,
};
use crate::chat_completions::types::{
    AssistantMessage, AssistantMessageModel, ChatCompletionsRequest, ChatCompletionsRequestModel, ChatMessage,
    ChatMessageModel, ContentPart, ContentPartModel, FunctionDefinition, FunctionDefinitionModel, FunctionTool,
    FunctionToolKind, FunctionToolModel, ImageUrl, ImageUrlModel, MessageContent, MessageContentModel, ToolCall,
    ToolCallFunction, ToolCallFunctionModel, ToolCallKind, ToolCallModel,
};
use crate::fields::{lookup, put, StringMap};
use crate::json::{json_parse, parse_json, Json, JsonModel};
use crate::model::{no_items, outcome, push_item, Duplicate};
use crate::protocol::{
    ContentItem, ContentItemModel, FunctionCallOutputBody, FunctionCallOutputBodyModel,
    FunctionCallOutputContentItem, FunctionCallOutputContentItemModel, ReasoningItemContent,
    ReasoningItemContentModel, ReasoningItemReasoningSummary, ReasoningItemReasoningSummaryModel, ResponseItem,
    ResponseItemModel, ToolSpec, ToolSpecModel,
};
use crate::text::{concat, concat3, decimal, decimal_text, place, position};
use vstd::prelude::*;
use vstd::string::*;

verus! {

/// What is encoded.
pub struct EncodeRequest<'a, D> {
    pub context: DialectContext<'a>,
    pub system: Option<&'a str>,
    pub history: &'a [ResponseItem],
    pub tools: &'a [ToolSpec],
    pub dialect: &'a D,
}

/// What cannot be encoded.
#[derive(Debug, Clone, PartialEq, Eq)]
pub enum EncodeError {
    /// No model was named.
    EmptyModel,
    /// An item that the protocol has no form for.
    UnsupportedHistoryItem {
        index: usize,
        kind: &'static str,
    },
    /// A part of a message that the protocol has no form for.
    UnsupportedContent {
        item_index: usize,
        block_index: usize,
        kind: &'static str,
    },
    /// A tool that the protocol has no form for.
    UnsupportedTool {
        index: usize,
        kind: &'static str,
    },
    /// A tool schema that is no JSON.
    ToolSchema {
        index: usize,
        message: String,
    },
    /// Arguments of a tool call that are no JSON object.
    InvalidToolArguments {
        call_id: String,
        message: String,
    },
    /// A tool result without an open call.
    UnmatchedToolResult {
        call_id: String,
    },
    /// A second call under the name of an open one.
    DuplicateToolCall {
        call_id: String,
    },
    /// A dialect's field under a name that is taken.
    ReservedExtension {
        target: &'static str,
        field: String,
    },
    /// The dialect refused.
    Dialect(DialectError),
}

/// The model of [`EncodeError`].
#[verifier::ext_equal]
pub enum EncodeErrorModel {
    EmptyModel,
    UnsupportedHistoryItem {
        index: usize,
        kind: Seq<char>,
    },
    UnsupportedContent {
        item_index: usize,
        block_index: usize,
        kind: Seq<char>,
    },
    UnsupportedTool {
        index: usize,
        kind: Seq<char>,
    },
    ToolSchema {
        index: usize,
        message: Seq<char>,
    },
    InvalidToolArguments {
        call_id: Seq<char>,
        message: Seq<char>,
    },
    UnmatchedToolResult {
        call_id: Seq<char>,
    },
    DuplicateToolCall {
        call_id: Seq<char>,
    },
    ReservedExtension {
        target: Seq<char>,
        field: Seq<char>,
    },
    Dialect(DialectErrorModel),
}

impl DeepView for EncodeError {
    type V = EncodeErrorModel;

    open spec fn deep_view(&self) -> EncodeErrorModel {
        match self {
            EncodeError::EmptyModel => EncodeErrorModel::EmptyModel,
            EncodeError::UnsupportedHistoryItem { index, kind } => EncodeErrorModel::UnsupportedHistoryItem {
                index: index.deep_view(),
                kind: kind.deep_view(),
            },
            EncodeError::UnsupportedContent { item_index, block_index, kind } => EncodeErrorModel::UnsupportedContent {
                item_index: item_index.deep_view(),
                block_index: block_index.deep_view(),
                kind: kind.deep_view(),
            },
            EncodeError::UnsupportedTool { index, kind } => EncodeErrorModel::UnsupportedTool {
                index: index.deep_view(),
                kind: kind.deep_view(),
            },
            EncodeError::ToolSchema { index, message } => EncodeErrorModel::ToolSchema {
                index: index.deep_view(),
                message: message.deep_view(),
            },
            EncodeError::InvalidToolArguments { call_id, message } => EncodeErrorModel::InvalidToolArguments {
                call_id: call_id.deep_view(),
                message: message.deep_view(),
            },
            EncodeError::UnmatchedToolResult { call_id } => EncodeErrorModel::UnmatchedToolResult {
                call_id: call_id.deep_view(),
            },
            EncodeError::DuplicateToolCall { call_id } => EncodeErrorModel::DuplicateToolCall {
                call_id: call_id.deep_view(),
            },
            EncodeError::ReservedExtension { target, field } => EncodeErrorModel::ReservedExtension {
                target: target.deep_view(),
                field: field.deep_view(),
            },
            EncodeError::Dialect(inner) => EncodeErrorModel::Dialect(inner.deep_view()),
        }
    }
}

impl Duplicate for EncodeError {
    fn duplicate(&self) -> (copy: Self) {
        match self {
            EncodeError::EmptyModel => EncodeError::EmptyModel,
            EncodeError::UnsupportedHistoryItem { index, kind } => EncodeError::UnsupportedHistoryItem {
                index: index.duplicate(),
                kind: kind.duplicate(),
            },
            EncodeError::UnsupportedContent { item_index, block_index, kind } => EncodeError::UnsupportedContent {
                item_index: item_index.duplicate(),
                block_index: block_index.duplicate(),
                kind: kind.duplicate(),
            },
            EncodeError::UnsupportedTool { index, kind } => EncodeError::UnsupportedTool {
                index: index.duplicate(),
                kind: kind.duplicate(),
            },
            EncodeError::ToolSchema { index, message } => EncodeError::ToolSchema {
                index: index.duplicate(),
                message: message.duplicate(),
            },
            EncodeError::InvalidToolArguments { call_id, message } => EncodeError::InvalidToolArguments {
                call_id: call_id.duplicate(),
                message: message.duplicate(),
            },
            EncodeError::UnmatchedToolResult { call_id } => EncodeError::UnmatchedToolResult {
                call_id: call_id.duplicate(),
            },
            EncodeError::DuplicateToolCall { call_id } => EncodeError::DuplicateToolCall {
                call_id: call_id.duplicate(),
            },
            EncodeError::ReservedExtension { target, field } => EncodeError::ReservedExtension {
                target: target.duplicate(),
                field: field.duplicate(),
            },
            EncodeError::Dialect(inner) => EncodeError::Dialect(inner.duplicate()),
        }
    }
}

/// The number of an item in an error message.
pub open spec fn shown(index: usize) -> Seq<char> {
    decimal(index as nat)
}

impl EncodeErrorModel {
    /// The message of the error.
    pub open spec fn text(self) -> Seq<char> {
        match self {
            EncodeErrorModel::EmptyModel => "native Chat Completions model is empty"@,
            EncodeErrorModel::UnsupportedHistoryItem { index, kind } => "unsupported history item at index "@
                + shown(index) + ": "@ + kind,
            EncodeErrorModel::UnsupportedContent { item_index, block_index, kind } =>
                "unsupported content at history item "@ + shown(item_index) + ", block "@ + shown(block_index)
                + ": "@ + kind,
            EncodeErrorModel::UnsupportedTool { index, kind } => "unsupported tool at index "@ + shown(index)
                + ": "@ + kind,
            EncodeErrorModel::ToolSchema { index, message } => "function tool schema at index "@ + shown(index)
                + " could not be serialized: "@ + message,
            EncodeErrorModel::InvalidToolArguments { call_id, message } => "tool call `"@ + call_id
                + "` contains invalid JSON-object arguments: "@ + message,
            EncodeErrorModel::UnmatchedToolResult { call_id } => "tool result `"@ + call_id
                + "` has no matching unresolved tool call"@,
            EncodeErrorModel::DuplicateToolCall { call_id } => "duplicate unresolved tool call ID `"@ + call_id
                + "`"@,
            EncodeErrorModel::ReservedExtension { target, field } => "dialect extension `"@ + field
                + "` conflicts with a reserved "@ + target + " field"@,
            EncodeErrorModel::Dialect(error) => error.text(),
        }
    }
}

impl EncodeError {
    /// The message of the error.
    pub fn message(&self) -> (message: String)
        ensures
            message@ == self.deep_view().text(),
    {
        match self {
            EncodeError::EmptyModel => "native Chat Completions model is empty".to_owned(),
            EncodeError::UnsupportedHistoryItem { index, kind } => {
                let mut text = concat("unsupported history item at index ", &decimal_text(*index as u64));
                text.append(": ");
                text.append(kind);
                text
            },
            EncodeError::UnsupportedContent { item_index, block_index, kind } => {
                let mut text = concat("unsupported content at history item ", &decimal_text(*item_index as u64));
                text.append(", block ");
                text.append(&decimal_text(*block_index as u64));
                text.append(": ");
                text.append(kind);
                text
            },
            EncodeError::UnsupportedTool { index, kind } => {
                let mut text = concat("unsupported tool at index ", &decimal_text(*index as u64));
                text.append(": ");
                text.append(kind);
                text
            },
            EncodeError::ToolSchema { index, message } => {
                let mut text = concat("function tool schema at index ", &decimal_text(*index as u64));
                text.append(" could not be serialized: ");
                text.append(message);
                text
            },
            EncodeError::InvalidToolArguments { call_id, message } => {
                let mut text = concat3("tool call `", call_id, "` contains invalid JSON-object arguments: ");
                text.append(message);
                text
            },
            EncodeError::UnmatchedToolResult { call_id } => concat3(
                "tool result `",
                call_id,
                "` has no matching unresolved tool call",
            ),
            EncodeError::DuplicateToolCall { call_id } => concat3("duplicate unresolved tool call ID `", call_id, "`"),
            EncodeError::ReservedExtension { target, field } => {
                let mut text = concat3("dialect extension `", field, "` conflicts with a reserved ");
                text.append(target);
                text.append(" field");
                text
            },
            EncodeError::Dialect(error) => error.message(),
        }
    }
}

// ---- tools ----

/// The form of a tool, or why it has none.
pub open spec fn function_tool(tool: ToolSpecModel) -> Result<FunctionToolModel, Seq<char>> {
    match tool {
        ToolSpecModel::Function(function) => if function.defer_loading is None && function.output_schema is None {
            Ok(
                FunctionToolModel {
                    kind: FunctionToolKind::Function,
                    function: FunctionDefinitionModel {
                        name: function.name,
                        description: function.description,
                        parameters: function.parameters,
                        strict: function.strict,
                    },
                },
            )
        } else {
            Err("deferred function or function output schema"@)
        },
        ToolSpecModel::Namespace(_) => Err("namespace"@),
        ToolSpecModel::ToolSearch { .. } => Err("tool search"@),
        ToolSpecModel::WebSearch { .. } => Err("web search"@),
        ToolSpecModel::Freeform(_) => Err("freeform"@),
    }
}

/// The tools from `at` on behind those that are done: all of them, or the
/// first that has no form.
pub open spec fn tools_from(tools: Seq<ToolSpecModel>, at: int, done: Seq<FunctionToolModel>) -> Result<
    Seq<FunctionToolModel>,
    EncodeErrorModel,
>
    decreases tools.len() - at,
{
    if at < 0 || at >= tools.len() {
        Ok(done)
    } else {
        match function_tool(tools[at]) {
            Ok(tool) => tools_from(tools, at + 1, done.push(tool)),
            Err(kind) => Err(EncodeErrorModel::UnsupportedTool { index: at as usize, kind }),
        }
    }
}

fn encode_tool(tool: &ToolSpec) -> (form: Result<FunctionTool, &'static str>)
    ensures
        outcome(form) == function_tool(tool.deep_view()),
{
    match tool {
        ToolSpec::Function(function) => {
            if function.defer_loading.is_none() && function.output_schema.is_none() {
                Ok(
                    FunctionTool {
                        kind: FunctionToolKind::Function,
                        function: FunctionDefinition {
                            name: function.name.duplicate(),
                            description: function.description.duplicate(),
                            parameters: function.parameters.duplicate(),
                            strict: function.strict,
                        },
                    },
                )
            } else {
                Err("deferred function or function output schema")
            }
        },
        ToolSpec::Namespace(_) => Err("namespace"),
        ToolSpec::ToolSearch { .. } => Err("tool search"),
        ToolSpec::WebSearch { .. } => Err("web search"),
        ToolSpec::Freeform(_) => Err("freeform"),
    }
}

fn encode_tools(tools: &[ToolSpec]) -> (encoded: Result<Vec<FunctionTool>, EncodeError>)
    ensures
        outcome(encoded) == tools_from(tools.deep_view(), 0, Seq::empty()),
{
    let mut done: Vec<FunctionTool> = no_items();
    let mut i: usize = 0;
    while i < tools.len()
        invariant
            i <= tools.len(),
            tools_from(tools.deep_view(), 0, Seq::empty()) == tools_from(tools.deep_view(), i as int, done.deep_view()),
        decreases tools.len() - i,
    {
        match encode_tool(&tools[i]) {
            Ok(tool) => {
                push_item(&mut done, tool);
            },
            Err(kind) => {
                return Err(EncodeError::UnsupportedTool { index: i, kind });
            },
        }
        i += 1;
    }
    Ok(done)
}

// ---- content ----

/// The form of a part of a user message, or why it has none.
pub open spec fn user_part(item: ContentItemModel) -> Result<ContentPartModel, Seq<char>> {
    match item {
        ContentItemModel::InputText { text } => Ok(ContentPartModel::Text { text }),
        ContentItemModel::InputImage { image_url, detail } => Ok(
            ContentPartModel::ImageUrl { image_url: ImageUrlModel { url: image_url, detail } },
        ),
        ContentItemModel::InputAudio { .. } => Err("audio"@),
        ContentItemModel::OutputText { .. } => Err("content role/type combination"@),
    }
}

/// The parts from `at` on behind those that are done: all of them, or the
/// first that has no form.
pub open spec fn user_parts_from(
    content: Seq<ContentItemModel>,
    item_index: usize,
    at: int,
    done: Seq<ContentPartModel>,
) -> Result<Seq<ContentPartModel>, EncodeErrorModel>
    decreases content.len() - at,
{
    if at < 0 || at >= content.len() {
        Ok(done)
    } else {
        match user_part(content[at]) {
            Ok(part) => user_parts_from(content, item_index, at + 1, done.push(part)),
            Err(kind) => Err(EncodeErrorModel::UnsupportedContent { item_index, block_index: at as usize, kind }),
        }
    }
}

/// The content of a user message: plain text where it is one text, else its
/// parts.
pub open spec fn user_content(content: Seq<ContentItemModel>, item_index: usize) -> Result<
    MessageContentModel,
    EncodeErrorModel,
> {
    match user_parts_from(content, item_index, 0, Seq::empty()) {
        Ok(parts) => Ok(
            if parts.len() == 1 && parts[0] is Text {
                MessageContentModel::Text(parts[0]->Text_text)
            } else {
                MessageContentModel::Parts(parts)
            },
        ),
        Err(error) => Err(error),
    }
}

fn encode_user_part(item: &ContentItem) -> (form: Result<ContentPart, &'static str>)
    ensures
        outcome(form) == user_part(item.deep_view()),
{
    match item {
        ContentItem::InputText { text } => Ok(ContentPart::Text { text: text.duplicate() }),
        ContentItem::InputImage { image_url, detail } => Ok(
            ContentPart::ImageUrl { image_url: ImageUrl { url: image_url.duplicate(), detail: detail.duplicate() } },
        ),
        ContentItem::InputAudio { .. } => Err("audio"),
        ContentItem::OutputText { .. } => Err("content role/type combination"),
    }
}

fn message_content(content: &Vec<ContentItem>, item_index: usize) -> (encoded: Result<MessageContent, EncodeError>)
    ensures
        outcome(encoded) == user_content(content.deep_view(), item_index),
{
    let mut parts: Vec<ContentPart> = no_items();
    let mut i: usize = 0;
    while i < content.len()
        invariant
            i <= content.len(),
            user_parts_from(content.deep_view(), item_index, 0, Seq::empty()) == user_parts_from(
                content.deep_view(),
                item_index,
                i as int,
                parts.deep_view(),
            ),
        decreases content.len() - i,
    {
        match encode_user_part(&content[i]) {
            Ok(part) => {
                push_item(&mut parts, part);
            },
            Err(kind) => {
                return Err(EncodeError::UnsupportedContent { item_index, block_index: i, kind });
            },
        }
        i += 1;
    }
    if parts.len() == 1 {
        if let ContentPart::Text { text } = &parts[0] {
            return Ok(MessageContent::Text(text.duplicate()));
        }
    }
    Ok(MessageContent::Parts(parts))
}

/// The text of an assistant message from `at` on behind `done`: all of it, or
/// the first part that is no output text.
pub open spec fn spoken_from(content: Seq<ContentItemModel>, item_index: usize, at: int, done: Seq<char>) -> Result<
    Seq<char>,
    EncodeErrorModel,
>
    decreases content.len() - at,
{
    if at < 0 || at >= content.len() {
        Ok(done)
    } else {
        match content[at] {
            ContentItemModel::OutputText { text } => spoken_from(content, item_index, at + 1, done + text),
            ContentItemModel::InputAudio { .. } => Err(
                EncodeErrorModel::UnsupportedContent { item_index, block_index: at as usize, kind: "audio"@ },
            ),
            _ => Err(
                EncodeErrorModel::UnsupportedContent {
                    item_index,
                    block_index: at as usize,
                    kind: "content role/type combination"@,
                },
            ),
        }
    }
}

fn assistant_text(content: &Vec<ContentItem>, item_index: usize) -> (encoded: Result<String, EncodeError>)
    ensures
        outcome(encoded) == spoken_from(content.deep_view(), item_index, 0, Seq::empty()),
{
    let mut text: String = String::new();
    let mut i: usize = 0;
    while i < content.len()
        invariant
            i <= content.len(),
            spoken_from(content.deep_view(), item_index, 0, Seq::empty()) == spoken_from(
                content.deep_view(),
                item_index,
                i as int,
                text@,
            ),
        decreases content.len() - i,
    {
        assert(content.deep_view()[i as int] == content@[i as int].deep_view());
        match &content[i] {
            ContentItem::OutputText { text: part } => {
                text.append(part);
            },
            ContentItem::InputAudio { .. } => {
                return Err(EncodeError::UnsupportedContent { item_index, block_index: i, kind: "audio" });
            },
            _ => {
                return Err(
                    EncodeError::UnsupportedContent {
                        item_index,
                        block_index: i,
                        kind: "content role/type combination",
                    },
                );
            },
        }
        i += 1;
    }
    Ok(text)
}

/// The form of a part of a tool result, or why it has none.
pub open spec fn result_part(item: FunctionCallOutputContentItemModel) -> Result<ContentPartModel, Seq<char>> {
    match item {
        FunctionCallOutputContentItemModel::InputText { text } => Ok(ContentPartModel::Text { text }),
        FunctionCallOutputContentItemModel::InputImage { image_url, detail } => Ok(
            ContentPartModel::ImageUrl { image_url: ImageUrlModel { url: image_url, detail } },
        ),
        FunctionCallOutputContentItemModel::InputAudio { .. } => Err("audio tool result"@),
        FunctionCallOutputContentItemModel::EncryptedContent { .. } => Err("encrypted tool result"@),
    }
}

/// The parts of a tool result from `at` on behind those that are done: all of
/// them, or the first that has no form.
pub open spec fn result_parts_from(
    items: Seq<FunctionCallOutputContentItemModel>,
    item_index: usize,
    at: int,
    done: Seq<ContentPartModel>,
) -> Result<Seq<ContentPartModel>, EncodeErrorModel>
    decreases items.len() - at,
{
    if at < 0 || at >= items.len() {
        Ok(done)
    } else {
        match result_part(items[at]) {
            Ok(part) => result_parts_from(items, item_index, at + 1, done.push(part)),
            Err(kind) => Err(EncodeErrorModel::UnsupportedContent { item_index, block_index: at as usize, kind }),
        }
    }
}

/// The content of a tool result.
pub open spec fn result_content(body: FunctionCallOutputBodyModel, item_index: usize) -> Result<
    MessageContentModel,
    EncodeErrorModel,
> {
    match body {
        FunctionCallOutputBodyModel::Text(text) => Ok(MessageContentModel::Text(text)),
        FunctionCallOutputBodyModel::ContentItems(items) => match result_parts_from(
            items,
            item_index,
            0,
            Seq::empty(),
        ) {
            Ok(parts) => Ok(MessageContentModel::Parts(parts)),
            Err(error) => Err(error),
        },
    }
}

fn encode_result_part(item: &FunctionCallOutputContentItem) -> (form: Result<ContentPart, &'static str>)
    ensures
        outcome(form) == result_part(item.deep_view()),
{
    match item {
        FunctionCallOutputContentItem::InputText { text } => Ok(ContentPart::Text { text: text.duplicate() }),
        FunctionCallOutputContentItem::InputImage { image_url, detail } => Ok(
            ContentPart::ImageUrl { image_url: ImageUrl { url: image_url.duplicate(), detail: detail.duplicate() } },
        ),
        FunctionCallOutputContentItem::InputAudio { .. } => Err("audio tool result"),
        FunctionCallOutputContentItem::EncryptedContent { .. } => Err("encrypted tool result"),
    }
}

fn tool_output(body: &FunctionCallOutputBody, item_index: usize) -> (encoded: Result<MessageContent, EncodeError>)
    ensures
        outcome(encoded) == result_content(body.deep_view(), item_index),
{
    match body {
        FunctionCallOutputBody::Text(text) => Ok(MessageContent::Text(text.duplicate())),
        FunctionCallOutputBody::ContentItems(items) => {
            let mut parts: Vec<ContentPart> = no_items();
            let mut i: usize = 0;
            while i < items.len()
                invariant
                    i <= items.len(),
                    body.deep_view() == FunctionCallOutputBodyModel::ContentItems(items.deep_view()),
                    result_parts_from(items.deep_view(), item_index, 0, Seq::empty()) == result_parts_from(
                        items.deep_view(),
                        item_index,
                        i as int,
                        parts.deep_view(),
                    ),
                decreases items.len() - i,
            {
                match encode_result_part(&items[i]) {
                    Ok(part) => {
                        push_item(&mut parts, part);
                    },
                    Err(kind) => {
                        return Err(EncodeError::UnsupportedContent { item_index, block_index: i, kind });
                    },
                }
                i += 1;
            }
            Ok(MessageContent::Parts(parts))
        },
    }
}

// ---- reasoning ----

/// The texts of visible reasoning: its content, or its summary where there is
/// no content.
pub open spec fn visible_texts(
    summary: Seq<ReasoningItemReasoningSummaryModel>,
    content: Option<Seq<ReasoningItemContentModel>>,
) -> Seq<Seq<char>> {
    match content {
        Some(items) if items.len() > 0 => Seq::new(items.len(), |i: int| reasoning_text(items[i])),
        _ => Seq::new(summary.len(), |i: int| summary[i]->SummaryText_text),
    }
}

/// The text of a part of visible reasoning.
pub open spec fn reasoning_text(item: ReasoningItemContentModel) -> Seq<char> {
    match item {
        ReasoningItemContentModel::ReasoningText { text } => text,
        ReasoningItemContentModel::Text { text } => text,
    }
}

/// The texts of visible reasoning.
pub fn visible_reasoning(
    summary: &Vec<ReasoningItemReasoningSummary>,
    content: &Option<Vec<ReasoningItemContent>>,
) -> (texts: Vec<String>)
    ensures
        texts.deep_view() == visible_texts(summary.deep_view(), content.deep_view()),
{
    let mut texts: Vec<String> = Vec::new();
    if let Some(items) = content {
        if items.len() > 0 {
            let mut i: usize = 0;
            while i < items.len()
                invariant
                    i <= items.len(),
                    texts.len() == i,
                    forall|j: int| 0 <= j < i ==> (#[trigger] texts@[j])@ == reasoning_text(items@[j].deep_view()),
                decreases items.len() - i,
            {
                match &items[i] {
                    ReasoningItemContent::ReasoningText { text } => {
                        texts.push(text.duplicate());
                    },
                    ReasoningItemContent::Text { text } => {
                        texts.push(text.duplicate());
                    },
                }
                i += 1;
            }
            assert(texts.deep_view() =~= visible_texts(summary.deep_view(), content.deep_view()));
            return texts;
        }
    }
    let mut i: usize = 0;
    while i < summary.len()
        invariant
            i <= summary.len(),
            texts.len() == i,
            forall|j: int| 0 <= j < i ==> (#[trigger] texts@[j])@ == summary@[j].deep_view()->SummaryText_text,
        decreases summary.len() - i,
    {
        match &summary[i] {
            ReasoningItemReasoningSummary::SummaryText { text } => {
                texts.push(text.duplicate());
            },
        }
        i += 1;
    }
    assert(texts.deep_view() =~= visible_texts(summary.deep_view(), content.deep_view()));
    texts
}

/// The provenance of opaque reasoning.
pub open spec fn opaque_reasoning(opaque: Option<Seq<char>>) -> OpaqueReasoningModel {
    match opaque {
        None => OpaqueReasoningModel::Absent,
        Some(text) => OpaqueReasoningModel::Other(text),
    }
}

fn classify_opaque_reasoning<'a>(opaque: &'a Option<String>) -> (class: OpaqueReasoning<'a>)
    ensures
        class.deep_view() == opaque_reasoning(opaque.deep_view()),
{
    match opaque {
        None => OpaqueReasoning::Absent,
        Some(text) => OpaqueReasoning::Other(text.as_str()),
    }
}

/// The error for the first of three reserved names that a dialect's fields
/// hold.
pub open spec fn reserved_error(
    fields: Extensions,
    first: Seq<char>,
    second: Seq<char>,
    third: Seq<char>,
    target: Seq<char>,
) -> Option<EncodeErrorModel> {
    if lookup(fields, first) is Some {
        Some(EncodeErrorModel::ReservedExtension { target, field: first })
    } else if lookup(fields, second) is Some {
        Some(EncodeErrorModel::ReservedExtension { target, field: second })
    } else if lookup(fields, third) is Some {
        Some(EncodeErrorModel::ReservedExtension { target, field: third })
    } else {
        None
    }
}

fn reject_reserved(
    fields: &StringMap<Json>,
    first: &str,
    second: &str,
    third: &str,
    target: &'static str,
) -> (error: Option<EncodeError>)
    ensures
        error.deep_view() == reserved_error(fields.deep_view(), first@, second@, third@, target@),
{
    if fields.contains_key(first) {
        Some(EncodeError::ReservedExtension { target, field: first.to_owned() })
    } else if fields.contains_key(second) {
        Some(EncodeError::ReservedExtension { target, field: second.to_owned() })
    } else if fields.contains_key(third) {
        Some(EncodeError::ReservedExtension { target, field: third.to_owned() })
    } else {
        None
    }
}

/// The fields from `at` on put beside those that are there: all of them, or
/// the first whose name is taken.
pub open spec fn merged_from(fields: Extensions, at: int, there: Extensions) -> Result<Extensions, EncodeErrorModel>
    decreases fields.len() - at,
{
    if at < 0 || at >= fields.len() {
        Ok(there)
    } else if lookup(there, fields[at].0) is Some {
        Err(EncodeErrorModel::ReservedExtension { target: "assistant reasoning"@, field: fields[at].0 })
    } else {
        merged_from(fields, at + 1, put(there, fields[at].0, fields[at].1))
    }
}

fn merge_reasoning(fields: &StringMap<Json>, there: &mut StringMap<Json>) -> (error: Option<EncodeError>)
    ensures
        match error {
            None => merged_from(fields.deep_view(), 0, old(there).deep_view()) == Ok::<Extensions, EncodeErrorModel>(
                final(there).deep_view(),
            ),
            Some(error) => merged_from(fields.deep_view(), 0, old(there).deep_view()) == Err::<
                Extensions,
                EncodeErrorModel,
            >(error.deep_view()),
        },
{
    let mut i: usize = 0;
    while i < fields.len()
        invariant
            i <= fields.deep_view().len(),
            merged_from(fields.deep_view(), 0, old(there).deep_view()) == merged_from(
                fields.deep_view(),
                i as int,
                there.deep_view(),
            ),
        decreases fields.deep_view().len() - i,
    {
        let entry = fields.entry(i);
        if there.contains_key(entry.0.as_str()) {
            return Some(
                EncodeError::ReservedExtension { target: "assistant reasoning", field: entry.0.duplicate() },
            );
        }
        there.insert(entry.0.duplicate(), entry.1.duplicate());
        i += 1;
    }
    None
}

// ---- history ----

/// Why the arguments of a tool call cannot stand: they are no JSON, or JSON
/// but no object.
pub open spec fn arguments_error(call_id: Seq<char>, arguments: Seq<char>) -> Option<EncodeErrorModel> {
    arguments_error_for(call_id, json_parse(arguments))
}

/// Why parsed arguments of a tool call cannot stand.
pub open spec fn arguments_error_for(call_id: Seq<char>, parsed: Result<JsonModel, Seq<char>>) -> Option<
    EncodeErrorModel,
> {
    match parsed {
        Err(message) => Some(EncodeErrorModel::InvalidToolArguments { call_id, message }),
        Ok(JsonModel::Object(_)) => None,
        Ok(_) => Some(EncodeErrorModel::InvalidToolArguments { call_id, message: "expected a JSON object"@ }),
    }
}

/// Why parsed arguments of a tool call cannot stand.
pub fn check_arguments(call_id: &str, parsed: Result<Json, String>) -> (error: Option<EncodeError>)
    ensures
        error.deep_view() == arguments_error_for(call_id@, outcome(parsed)),
{
    match parsed {
        Err(message) => Some(EncodeError::InvalidToolArguments { call_id: call_id.to_owned(), message }),
        Ok(Json::Object(_)) => None,
        Ok(_) => Some(
            EncodeError::InvalidToolArguments {
                call_id: call_id.to_owned(),
                message: "expected a JSON object".to_owned(),
            },
        ),
    }
}

fn validate_arguments(call_id: &str, arguments: &str) -> (error: Option<EncodeError>)
    ensures
        error.deep_view() == arguments_error(call_id@, arguments@),
{
    check_arguments(call_id, parse_json(arguments))
}

/// What an item is called that the protocol has no form for.
pub open spec fn unsupported_kind(item: ResponseItemModel) -> Seq<char> {
    match item {
        ResponseItemModel::AdditionalTools => "additional tools"@,
        ResponseItemModel::AgentMessage { .. } => "structured agent message"@,
        ResponseItemModel::LocalShellCall => "local shell call"@,
        ResponseItemModel::CustomToolCall { .. } => "freeform tool call"@,
        ResponseItemModel::CustomToolCallOutput { .. } => "freeform tool result"@,
        ResponseItemModel::ToolSearchCall => "hosted tool search"@,
        ResponseItemModel::ToolSearchOutput => "hosted tool search"@,
        ResponseItemModel::WebSearchCall => "hosted web search"@,
        ResponseItemModel::ImageGenerationCall => "image generation"@,
        ResponseItemModel::Compaction { .. } => "encrypted Responses compaction"@,
        ResponseItemModel::ContextCompaction { .. } => "encrypted Responses compaction"@,
        ResponseItemModel::CompactionTrigger => "compaction trigger"@,
        ResponseItemModel::Other => "unknown input"@,
        _ => "invalid supported item"@,
    }
}

/// What an item is called that the protocol has no form for.
pub fn history_kind(item: &ResponseItem) -> (kind: &'static str)
    ensures
        kind@ == unsupported_kind(item.deep_view()),
{
    match item {
        ResponseItem::AdditionalTools => "additional tools",
        ResponseItem::AgentMessage { .. } => "structured agent message",
        ResponseItem::LocalShellCall => "local shell call",
        ResponseItem::CustomToolCall { .. } => "freeform tool call",
        ResponseItem::CustomToolCallOutput { .. } => "freeform tool result",
        ResponseItem::ToolSearchCall => "hosted tool search",
        ResponseItem::ToolSearchOutput => "hosted tool search",
        ResponseItem::WebSearchCall => "hosted web search",
        ResponseItem::ImageGenerationCall => "image generation",
        ResponseItem::Compaction { .. } => "encrypted Responses compaction",
        ResponseItem::ContextCompaction { .. } => "encrypted Responses compaction",
        ResponseItem::CompactionTrigger => "compaction trigger",
        ResponseItem::Other => "unknown input",
        _ => "invalid supported item",
    }
}

/// The messages before the assistant message that is still open, and that
/// message: the last one, or a new one where the last is not the assistant's.
pub open spec fn open_assistant(messages: Seq<ChatMessageModel>) -> (Seq<ChatMessageModel>, AssistantMessageModel) {
    if messages.len() > 0 && messages.last() is Assistant {
        (messages.drop_last(), messages.last()->Assistant_0)
    } else {
        (messages, AssistantMessageModel { content: None, tool_calls: Seq::empty(), reasoning: Seq::empty() })
    }
}

fn take_assistant(messages: &mut Vec<ChatMessage>) -> (message: AssistantMessage)
    ensures
        (final(messages).deep_view(), message.deep_view()) == open_assistant(old(messages).deep_view()),
{
    let ghost before = messages.deep_view();
    let last = messages.pop();
    assert(before.len() > 0 ==> messages.deep_view() =~= before.drop_last());
    if let Some(ChatMessage::Assistant(message)) = last {
        return message;
    }
    if let Some(other) = last {
        push_item(messages, other);
    }
    assert(messages.deep_view() =~= before);
    AssistantMessage { content: None, tool_calls: no_items(), reasoning: StringMap::new() }
}

/// The messages, and the calls that wait for their results.
pub type Encoded = (Seq<ChatMessageModel>, Seq<Seq<char>>);

/// What one item adds to the messages and to the open calls.
pub open spec fn item_step<D: DialectHooks>(
    messages: Seq<ChatMessageModel>,
    pending: Seq<Seq<char>>,
    index: usize,
    item: ResponseItemModel,
    context: DialectContextModel,
    dialect: &D,
) -> Result<Encoded, EncodeErrorModel> {
    let (head, last) = open_assistant(messages);
    match item {
        ResponseItemModel::Message { role, content, .. } => if role == "user"@ {
            match user_content(content, index) {
                Ok(content) => Ok((messages.push(ChatMessageModel::User { content }), pending)),
                Err(error) => Err(error),
            }
        } else if role == "assistant"@ {
            match spoken_from(content, index, 0, Seq::empty()) {
                Ok(text) => {
                    let said = match last.content {
                        Some(said) => said + text,
                        None => text,
                    };
                    let message = AssistantMessageModel { content: Some(said), ..last };
                    Ok((head.push(ChatMessageModel::Assistant(message)), pending))
                },
                Err(error) => Err(error),
            }
        } else {
            Err(EncodeErrorModel::UnsupportedHistoryItem { index, kind: "message role"@ })
        },
        ResponseItemModel::Reasoning { summary, content, encrypted_content, .. } => {
            let replay = AssistantReasoningReplayModel {
                visible: visible_texts(summary, content),
                opaque: opaque_reasoning(encrypted_content),
            };
            match dialect.reasoning_for(context, replay) {
                Err(error) => Err(EncodeErrorModel::Dialect(error)),
                Ok(fields) => match reserved_error(fields, "role"@, "content"@, "tool_calls"@, "assistant"@) {
                    Some(error) => Err(error),
                    None => match merged_from(fields, 0, last.reasoning) {
                        Err(error) => Err(error),
                        Ok(reasoning) => {
                            let message = AssistantMessageModel { reasoning, ..last };
                            Ok((head.push(ChatMessageModel::Assistant(message)), pending))
                        },
                    },
                },
            }
        },
        ResponseItemModel::FunctionCall { name, namespace, arguments, call_id, .. } => if namespace is Some {
            Err(EncodeErrorModel::UnsupportedHistoryItem { index, kind: "namespace function call"@ })
        } else {
            match arguments_error(call_id, arguments) {
                Some(error) => Err(error),
                None => if place(pending, call_id) is Some {
                    Err(EncodeErrorModel::DuplicateToolCall { call_id })
                } else {
                    let call = ToolCallModel {
                        id: call_id,
                        kind: ToolCallKind::Function,
                        function: ToolCallFunctionModel { name, arguments },
                    };
                    let message = AssistantMessageModel { tool_calls: last.tool_calls.push(call), ..last };
                    Ok((head.push(ChatMessageModel::Assistant(message)), pending.push(call_id)))
                },
            }
        },
        ResponseItemModel::FunctionCallOutput { call_id, output } => match place(pending, call_id) {
            None => Err(EncodeErrorModel::UnmatchedToolResult { call_id }),
            Some(position) => match result_content(output.body, index) {
                Ok(content) => Ok(
                    (
                        messages.push(ChatMessageModel::Tool { tool_call_id: call_id, content }),
                        pending.remove(position),
                    ),
                ),
                Err(error) => Err(error),
            },
        },
        _ => Err(EncodeErrorModel::UnsupportedHistoryItem { index, kind: unsupported_kind(item) }),
    }
}

/// The messages for the items from `at` on behind those that are done.
pub open spec fn history_from<D: DialectHooks>(
    items: Seq<ResponseItemModel>,
    at: int,
    messages: Seq<ChatMessageModel>,
    pending: Seq<Seq<char>>,
    context: DialectContextModel,
    dialect: &D,
) -> Result<Seq<ChatMessageModel>, EncodeErrorModel>
    decreases items.len() - at,
{
    if at < 0 || at >= items.len() {
        Ok(messages)
    } else {
        match item_step(messages, pending, at as usize, items[at], context, dialect) {
            Ok((messages, pending)) => history_from(items, at + 1, messages, pending, context, dialect),
            Err(error) => Err(error),
        }
    }
}

fn encode_item<'a, D: DialectHooks>(
    mut messages: Vec<ChatMessage>,
    mut pending: Vec<String>,
    index: usize,
    item: &ResponseItem,
    context: DialectContext<'a>,
    dialect: &D,
) -> (encoded: Result<(Vec<ChatMessage>, Vec<String>), EncodeError>)
    ensures
        outcome(encoded) == item_step(
            messages.deep_view(),
            pending.deep_view(),
            index,
            item.deep_view(),
            context.deep_view(),
            dialect,
        ),
{
    match item {
        ResponseItem::Message { role, content, .. } => {
            if *role.as_str() == *"user" {
                match message_content(content, index) {
                    Ok(content) => {
                        push_item(&mut messages, ChatMessage::User { content });
                        Ok((messages, pending))
                    },
                    Err(error) => Err(error),
                }
            } else if *role.as_str() == *"assistant" {
                match assistant_text(content, index) {
                    Ok(text) => {
                        let mut message = take_assistant(&mut messages);
                        message.content = Some(
                            match message.content {
                                Some(said) => concat(&said, &text),
                                None => text,
                            },
                        );
                        push_item(&mut messages, ChatMessage::Assistant(message));
                        Ok((messages, pending))
                    },
                    Err(error) => Err(error),
                }
            } else {
                Err(EncodeError::UnsupportedHistoryItem { index, kind: "message role" })
            }
        },
        ResponseItem::Reasoning { summary, content, encrypted_content, .. } => {
            let visible = visible_reasoning(summary, content);
            let replay = AssistantReasoningReplay {
                visible: visible.as_slice(),
                opaque: classify_opaque_reasoning(encrypted_content),
            };
            assert(replay.visible.deep_view() =~= visible.deep_view());
            match dialect.assistant_reasoning(context, replay) {
                Err(error) => Err(EncodeError::Dialect(error)),
                Ok(fields) => {
                    if let Some(error) = reject_reserved(&fields, "role", "content", "tool_calls", "assistant") {
                        return Err(error);
                    }
                    let mut message = take_assistant(&mut messages);
                    let mut reasoning = message.reasoning;
                    if let Some(error) = merge_reasoning(&fields, &mut reasoning) {
                        return Err(error);
                    }
                    push_item(&mut messages, 
                        ChatMessage::Assistant(
                            AssistantMessage { content: message.content, tool_calls: message.tool_calls, reasoning },
                        ),
                    );
                    Ok((messages, pending))
                },
            }
        },
        ResponseItem::FunctionCall { name, namespace, arguments, call_id, .. } => {
            if namespace.is_some() {
                return Err(EncodeError::UnsupportedHistoryItem { index, kind: "namespace function call" });
            }
            if let Some(error) = validate_arguments(call_id, arguments) {
                return Err(error);
            }
            if position(&pending, call_id).is_some() {
                return Err(EncodeError::DuplicateToolCall { call_id: call_id.duplicate() });
            }
            push_item(&mut pending, call_id.duplicate());
            let mut message = take_assistant(&mut messages);
            push_item(&mut message.tool_calls, 
                ToolCall {
                    id: call_id.duplicate(),
                    kind: ToolCallKind::Function,
                    function: ToolCallFunction { name: name.duplicate(), arguments: arguments.duplicate() },
                },
            );
            push_item(&mut messages, ChatMessage::Assistant(message));
            Ok((messages, pending))
        },
        ResponseItem::FunctionCallOutput { call_id, output } => {
            match position(&pending, call_id) {
                None => Err(EncodeError::UnmatchedToolResult { call_id: call_id.duplicate() }),
                Some(index_of_call) => {
                    let ghost before = pending.deep_view();
                    pending.remove(index_of_call);
                    assert(pending.deep_view() =~= before.remove(index_of_call as int));
                    match tool_output(&output.body, index) {
                        Ok(content) => {
                            push_item(&mut messages, ChatMessage::Tool { tool_call_id: call_id.duplicate(), content });
                            Ok((messages, pending))
                        },
                        Err(error) => Err(error),
                    }
                },
            }
        },
        other => Err(EncodeError::UnsupportedHistoryItem { index, kind: history_kind(other) }),
    }
}

fn encode_history<'a, D: DialectHooks>(
    messages: Vec<ChatMessage>,
    history: &[ResponseItem],
    context: DialectContext<'a>,
    dialect: &D,
) -> (encoded: Result<Vec<ChatMessage>, EncodeError>)
    ensures
        outcome(encoded) == history_from(
            history.deep_view(),
            0,
            messages.deep_view(),
            Seq::empty(),
            context.deep_view(),
            dialect,
        ),
{
    let mut done = messages;
    let mut pending: Vec<String> = no_items();
    let mut i: usize = 0;
    while i < history.len()
        invariant
            i <= history.len(),
            history_from(history.deep_view(), 0, messages.deep_view(), Seq::empty(), context.deep_view(), dialect)
                == history_from(
                history.deep_view(),
                i as int,
                done.deep_view(),
                pending.deep_view(),
                context.deep_view(),
                dialect,
            ),
        decreases history.len() - i,
    {
        match encode_item(done, pending, i, &history[i], context, dialect) {
            Ok(next) => {
                done = next.0;
                pending = next.1;
            },
            Err(error) => {
                return Err(error);
            },
        }
        i += 1;
    }
    Ok(done)
}

// ---- request ----

/// The messages that stand before the conversation.
pub open spec fn opening(system: Option<Seq<char>>) -> Seq<ChatMessageModel> {
    match system {
        Some(text) => seq![ChatMessageModel::System { content: MessageContentModel::Text(text) }],
        None => Seq::empty(),
    }
}

/// The request for a conversation, or the first thing that stands against it:
/// an empty model, a refusal of the dialect, a taken field, a tool, an item.
pub open spec fn encoded_request<D: DialectHooks>(
    context: DialectContextModel,
    system: Option<Seq<char>>,
    history: Seq<ResponseItemModel>,
    tools: Seq<ToolSpecModel>,
    dialect: &D,
) -> Result<ChatCompletionsRequestModel, EncodeErrorModel> {
    if context.model.len() == 0 {
        Err(EncodeErrorModel::EmptyModel)
    } else {
        match dialect.extensions_for(context) {
            Err(error) => Err(EncodeErrorModel::Dialect(error)),
            Ok(extensions) => match reserved_error(extensions, "model"@, "messages"@, "tools"@, "request"@) {
                Some(error) => Err(error),
                None => match tools_from(tools, 0, Seq::empty()) {
                    Err(error) => Err(error),
                    Ok(tools) => match history_from(history, 0, opening(system), Seq::empty(), context, dialect) {
                        Err(error) => Err(error),
                        Ok(messages) => Ok(
                            ChatCompletionsRequestModel { model: context.model, messages, tools, extensions },
                        ),
                    },
                },
            },
        }
    }
}

/// Encodes a conversation into a request.
pub fn encode_request<'a, D: DialectHooks>(params: EncodeRequest<'a, D>) -> (request: Result<
    ChatCompletionsRequest,
    EncodeError,
>)
    ensures
        outcome(request) == encoded_request(
            params.context.deep_view(),
            params.system.deep_view(),
            params.history.deep_view(),
            params.tools.deep_view(),
            params.dialect,
        ),
{
    if params.context.model.is_empty() {
        return Err(EncodeError::EmptyModel);
    }
    let extensions = match params.dialect.request_extensions(params.context) {
        Ok(extensions) => extensions,
        Err(error) => {
            return Err(EncodeError::Dialect(error));
        },
    };
    if let Some(error) = reject_reserved(&extensions, "model", "messages", "tools", "request") {
        return Err(error);
    }
    let tools = match encode_tools(params.tools) {
        Ok(tools) => tools,
        Err(error) => {
            return Err(error);
        },
    };
    let mut messages: Vec<ChatMessage> = Vec::new();
    if let Some(text) = params.system {
        push_item(&mut messages, ChatMessage::System { content: MessageContent::Text(text.to_owned()) });
    }
    assert(messages.deep_view() =~= opening(params.system.deep_view()));
    match encode_history(messages, params.history, params.context, params.dialect) {
        Ok(messages) => Ok(
            ChatCompletionsRequest { model: params.context.model.to_owned(), messages, tools, extensions },
        ),
        Err(error) => Err(error),
    }
}

} // verus!
