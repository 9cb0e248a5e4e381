//! The wire form of a Chat Completions request.
use crate::chat_completions::types::{
    AssistantMessage, AssistantMessageModel, ChatCompletionsRequest, ChatCompletionsRequestModel, ChatMessage,
    ChatMessageModel, ContentPart, ContentPartModel, FunctionTool, FunctionToolModel, ImageUrl, ImageUrlModel,
    MessageContent, MessageContentModel, ToolCall, ToolCallModel,
};
use crate::fields::StringMap;
use crate::json::{
    add_field, add_text, json_print, lemma_array_model, lemma_object_model, print_json, Json, JsonModel,
};
use crate::model::{no_items, push_item, Duplicate};
use crate::protocol::ImageDetail;
use vstd::prelude::*;

verus! {

/// The entries of an object.
pub type Entries = Seq<(Seq<char>, JsonModel)>;

/// The name of a level of detail.
pub open spec fn detail_label(detail: ImageDetail) -> Seq<char> {
    match detail {
        ImageDetail::Auto => "auto"@,
        ImageDetail::Low => "low"@,
        ImageDetail::High => "high"@,
        ImageDetail::Original => "original"@,
    }
}

fn detail_name(detail: ImageDetail) -> (name: &'static str)
    ensures
        name@ == detail_label(detail),
{
    match detail {
        ImageDetail::Auto => "auto",
        ImageDetail::Low => "low",
        ImageDetail::High => "high",
        ImageDetail::Original => "original",
    }
}

/// An image as JSON.
pub open spec fn image_json(image: ImageUrlModel) -> JsonModel {
    let entries = seq![("url"@, JsonModel::Text(image.url))];
    JsonModel::Object(
        match image.detail {
            Some(detail) => entries.push(("detail"@, JsonModel::Text(detail_label(detail)))),
            None => entries,
        },
    )
}

/// A part of a message as JSON.
pub open spec fn part_json(part: ContentPartModel) -> JsonModel {
    JsonModel::Object(
        match part {
            ContentPartModel::Text { text } => seq![
                ("type"@, JsonModel::Text("text"@)),
                ("text"@, JsonModel::Text(text)),
            ],
            ContentPartModel::ImageUrl { image_url } => seq![
                ("type"@, JsonModel::Text("image_url"@)),
                ("image_url"@, image_json(image_url)),
            ],
        },
    )
}

/// Content as JSON.
pub open spec fn content_json(content: MessageContentModel) -> JsonModel {
    match content {
        MessageContentModel::Text(text) => JsonModel::Text(text),
        MessageContentModel::Parts(parts) => JsonModel::Array(Seq::new(parts.len(), |i: int| part_json(parts[i]))),
    }
}

/// A call as JSON.
pub open spec fn call_json(call: ToolCallModel) -> JsonModel {
    JsonModel::Object(
        seq![
            ("id"@, JsonModel::Text(call.id)),
            ("type"@, JsonModel::Text("function"@)),
            (
                "function"@,
                JsonModel::Object(
                    seq![
                        ("name"@, JsonModel::Text(call.function.name)),
                        ("arguments"@, JsonModel::Text(call.function.arguments)),
                    ],
                ),
            ),
        ],
    )
}

/// The entries of an assistant message: what there is of text, calls and
/// reasoning.
pub open spec fn assistant_entries(message: AssistantMessageModel, first: Entries) -> Entries {
    let entries = match message.content {
        Some(text) => first.push(("content"@, JsonModel::Text(text))),
        None => first,
    };
    let entries = if message.tool_calls.len() > 0 {
        entries.push(
            (
                "tool_calls"@,
                JsonModel::Array(Seq::new(message.tool_calls.len(), |i: int| call_json(message.tool_calls[i]))),
            ),
        )
    } else {
        entries
    };
    entries + message.reasoning
}

/// A message as JSON.
pub open spec fn message_json(message: ChatMessageModel) -> JsonModel {
    JsonModel::Object(
        match message {
            ChatMessageModel::System { content } => seq![
                ("role"@, JsonModel::Text("system"@)),
                ("content"@, content_json(content)),
            ],
            ChatMessageModel::User { content } => seq![
                ("role"@, JsonModel::Text("user"@)),
                ("content"@, content_json(content)),
            ],
            ChatMessageModel::Assistant(message) => assistant_entries(
                message,
                seq![("role"@, JsonModel::Text("assistant"@))],
            ),
            ChatMessageModel::Tool { tool_call_id, content } => seq![
                ("role"@, JsonModel::Text("tool"@)),
                ("tool_call_id"@, JsonModel::Text(tool_call_id)),
                ("content"@, content_json(content)),
            ],
        },
    )
}

/// A tool as JSON.
pub open spec fn tool_json(tool: FunctionToolModel) -> JsonModel {
    JsonModel::Object(
        seq![
            ("type"@, JsonModel::Text("function"@)),
            (
                "function"@,
                JsonModel::Object(
                    seq![
                        ("name"@, JsonModel::Text(tool.function.name)),
                        ("description"@, JsonModel::Text(tool.function.description)),
                        ("parameters"@, tool.function.parameters),
                        ("strict"@, JsonModel::Bool(tool.function.strict)),
                    ],
                ),
            ),
        ],
    )
}

/// A request as JSON: the extensions stand beside its own fields, and no tools
/// are not mentioned.
pub open spec fn request_json(request: ChatCompletionsRequestModel) -> JsonModel {
    let entries = seq![
        ("model"@, JsonModel::Text(request.model)),
        (
            "messages"@,
            JsonModel::Array(Seq::new(request.messages.len(), |i: int| message_json(request.messages[i]))),
        ),
    ];
    let entries = if request.tools.len() > 0 {
        entries.push(
            ("tools"@, JsonModel::Array(Seq::new(request.tools.len(), |i: int| tool_json(request.tools[i])))),
        )
    } else {
        entries
    };
    JsonModel::Object(entries + request.extensions)
}

fn add_all(entries: &mut Vec<(String, Json)>, fields: &StringMap<Json>)
    ensures
        final(entries).deep_view() == old(entries).deep_view() + fields.deep_view(),
{
    let ghost before = entries.deep_view();
    let ghost all = fields.deep_view();
    let mut i: usize = 0;
    assert(before + all.take(0) =~= before);
    while i < fields.len()
        invariant
            i <= all.len(),
            all == fields.deep_view(),
            entries.deep_view() == before + all.take(i as int),
        decreases all.len() - i,
    {
        let field = fields.entry(i);
        add_field(entries, &field.0, field.1.duplicate());
        i += 1;
        assert(before + all.take(i as int) =~= (before + all.take(i - 1)).push(all[i - 1]));
    }
    assert(all.take(all.len() as int) =~= all);
}

impl ImageUrl {
    /// The image as JSON.
    pub fn to_json(&self) -> (json: Json)
        ensures
            json.deep_view() == image_json(self.deep_view()),
    {
        broadcast use lemma_object_model;
        let mut entries: Vec<(String, Json)> = no_items();
        add_text(&mut entries, "url", &self.url);
        if let Some(detail) = self.detail {
            add_text(&mut entries, "detail", detail_name(detail));
        }
        assert(entries.deep_view() =~= image_json(self.deep_view())->Object_0);
        Json::Object(entries)
    }
}

impl ContentPart {
    /// The part as JSON.
    pub fn to_json(&self) -> (json: Json)
        ensures
            json.deep_view() == part_json(self.deep_view()),
    {
        broadcast use lemma_object_model;
        let mut entries: Vec<(String, Json)> = no_items();
        match self {
            ContentPart::Text { text } => {
                add_text(&mut entries, "type", "text");
                add_text(&mut entries, "text", text);
            },
            ContentPart::ImageUrl { image_url } => {
                add_text(&mut entries, "type", "image_url");
                add_field(&mut entries, "image_url", image_url.to_json());
            },
        }
        assert(entries.deep_view() =~= part_json(self.deep_view())->Object_0);
        Json::Object(entries)
    }
}

impl MessageContent {
    /// The content as JSON.
    pub fn to_json(&self) -> (json: Json)
        ensures
            json.deep_view() == content_json(self.deep_view()),
    {
        broadcast use lemma_array_model;
        match self {
            MessageContent::Text(text) => Json::Text(text.duplicate()),
            MessageContent::Parts(parts) => {
                let mut items: Vec<Json> = no_items();
                let mut i: usize = 0;
                while i < parts.len()
                    invariant
                        i <= parts.len(),
                        items.deep_view() == Seq::new(i as nat, |j: int| part_json(parts.deep_view()[j])),
                    decreases parts.len() - i,
                {
                    push_item(&mut items, parts[i].to_json());
                    i += 1;
                    assert(items.deep_view() =~= Seq::new(i as nat, |j: int| part_json(parts.deep_view()[j])));
                }
                Json::Array(items)
            },
        }
    }
}

impl ToolCall {
    /// The call as JSON.
    pub fn to_json(&self) -> (json: Json)
        ensures
            json.deep_view() == call_json(self.deep_view()),
    {
        broadcast use lemma_object_model;
        let mut function: Vec<(String, Json)> = no_items();
        add_text(&mut function, "name", &self.function.name);
        add_text(&mut function, "arguments", &self.function.arguments);
        let ghost inner = function.deep_view();
        let mut entries: Vec<(String, Json)> = no_items();
        add_text(&mut entries, "id", &self.id);
        add_text(&mut entries, "type", "function");
        add_field(&mut entries, "function", Json::Object(function));
        assert(inner =~= seq![
            ("name"@, JsonModel::Text(self.function.name@)),
            ("arguments"@, JsonModel::Text(self.function.arguments@)),
        ]);
        assert(entries.deep_view() =~= call_json(self.deep_view())->Object_0);
        Json::Object(entries)
    }
}

impl AssistantMessage {
    fn write(&self, entries: &mut Vec<(String, Json)>)
        ensures
            final(entries).deep_view() == assistant_entries(self.deep_view(), old(entries).deep_view()),
    {
        broadcast use lemma_array_model;
        if let Some(text) = &self.content {
            add_text(entries, "content", text);
        }
        if self.tool_calls.len() > 0 {
            let mut calls: Vec<Json> = no_items();
            let mut i: usize = 0;
            let ghost all = self.tool_calls.deep_view();
            while i < self.tool_calls.len()
                invariant
                    i <= self.tool_calls.len(),
                    all == self.tool_calls.deep_view(),
                    calls.deep_view() == Seq::new(i as nat, |j: int| call_json(all[j])),
                decreases self.tool_calls.len() - i,
            {
                push_item(&mut calls, self.tool_calls[i].to_json());
                i += 1;
                assert(calls.deep_view() =~= Seq::new(i as nat, |j: int| call_json(all[j])));
            }
            add_field(entries, "tool_calls", Json::Array(calls));
        }
        add_all(entries, &self.reasoning);
    }
}

impl ChatMessage {
    /// The message as JSON.
    pub fn to_json(&self) -> (json: Json)
        ensures
            json.deep_view() == message_json(self.deep_view()),
    {
        broadcast use lemma_object_model;
        let mut entries: Vec<(String, Json)> = no_items();
        match self {
            ChatMessage::System { content } => {
                add_text(&mut entries, "role", "system");
                add_field(&mut entries, "content", content.to_json());
            },
            ChatMessage::User { content } => {
                add_text(&mut entries, "role", "user");
                add_field(&mut entries, "content", content.to_json());
            },
            ChatMessage::Assistant(message) => {
                add_text(&mut entries, "role", "assistant");
                assert(entries.deep_view() =~= seq![("role"@, JsonModel::Text("assistant"@))]);
                message.write(&mut entries);
            },
            ChatMessage::Tool { tool_call_id, content } => {
                add_text(&mut entries, "role", "tool");
                add_text(&mut entries, "tool_call_id", tool_call_id);
                add_field(&mut entries, "content", content.to_json());
            },
        }
        assert(entries.deep_view() =~= message_json(self.deep_view())->Object_0);
        Json::Object(entries)
    }
}

impl FunctionTool {
    /// The tool as JSON.
    pub fn to_json(&self) -> (json: Json)
        ensures
            json.deep_view() == tool_json(self.deep_view()),
    {
        broadcast use lemma_object_model;
        let mut function: Vec<(String, Json)> = no_items();
        add_text(&mut function, "name", &self.function.name);
        add_text(&mut function, "description", &self.function.description);
        add_field(&mut function, "parameters", self.function.parameters.duplicate());
        add_field(&mut function, "strict", Json::Bool(self.function.strict));
        let ghost inner = function.deep_view();
        assert(inner =~= seq![
            ("name"@, JsonModel::Text(self.function.name@)),
            ("description"@, JsonModel::Text(self.function.description@)),
            ("parameters"@, self.function.parameters.deep_view()),
            ("strict"@, JsonModel::Bool(self.function.strict)),
        ]);
        let mut entries: Vec<(String, Json)> = no_items();
        add_text(&mut entries, "type", "function");
        add_field(&mut entries, "function", Json::Object(function));
        assert(entries.deep_view() =~= tool_json(self.deep_view())->Object_0);
        Json::Object(entries)
    }
}

impl ChatCompletionsRequest {
    /// The request as JSON.
    pub fn to_json(&self) -> (json: Json)
        ensures
            json.deep_view() == request_json(self.deep_view()),
    {
        broadcast use lemma_object_model, lemma_array_model;
        let mut messages: Vec<Json> = no_items();
        let mut i: usize = 0;
        let ghost said = self.messages.deep_view();
        while i < self.messages.len()
            invariant
                i <= self.messages.len(),
                said == self.messages.deep_view(),
                messages.deep_view() == Seq::new(i as nat, |j: int| message_json(said[j])),
            decreases self.messages.len() - i,
        {
            push_item(&mut messages, self.messages[i].to_json());
            i += 1;
            assert(messages.deep_view() =~= Seq::new(i as nat, |j: int| message_json(said[j])));
        }
        let mut entries: Vec<(String, Json)> = no_items();
        add_text(&mut entries, "model", &self.model);
        add_field(&mut entries, "messages", Json::Array(messages));
        if self.tools.len() > 0 {
            let mut tools: Vec<Json> = no_items();
            let mut k: usize = 0;
            let ghost offered = self.tools.deep_view();
            while k < self.tools.len()
                invariant
                    k <= self.tools.len(),
                    offered == self.tools.deep_view(),
                    tools.deep_view() == Seq::new(k as nat, |j: int| tool_json(offered[j])),
                decreases self.tools.len() - k,
            {
                push_item(&mut tools, self.tools[k].to_json());
                k += 1;
                assert(tools.deep_view() =~= Seq::new(k as nat, |j: int| tool_json(offered[j])));
            }
            add_field(&mut entries, "tools", Json::Array(tools));
        }
        add_all(&mut entries, &self.extensions);
        assert(self.tools.deep_view().len() == self.tools.len());
        assert(entries.deep_view() =~= request_json(self.deep_view())->Object_0);
        Json::Object(entries)
    }

    /// The request as it is sent.
    pub fn body(&self) -> (body: String)
        ensures
            body@ == json_print(request_json(self.deep_view())),
    {
        print_json(&self.to_json())
    }
}

} // verus!
