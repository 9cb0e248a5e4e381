//! The wire form of a Messages request.
use crate::claude_code::types::{
    CacheControl, CacheTtl, ContentBlock, ContentBlockModel, ContextEdit, ContextKeep, ContextManagement,
    ContextManagementModel, ImageSource, ImageSourceModel, Message, MessageModel, MessagesRequest,
    MessagesRequestModel, OutputConfig, OutputEffort, Role, SystemBlock, SystemBlockModel, Thinking,
    ThinkingDisplay, Tool, ToolModel, ToolResultBlock, ToolResultBlockModel, ToolResultContent,
    ToolResultContentModel,
};
use crate::json::{
    add_field, add_text, json_print, lemma_array_model, lemma_object_model, print_json, Json, JsonModel,
    JsonNumber, JsonNumberModel,
};
use crate::model::{no_items, push_item, Duplicate};
use vstd::prelude::*;

verus! {

/// The entries of an object.
pub type Entries = Seq<(Seq<char>, JsonModel)>;

/// A cache breakpoint as JSON.
pub open spec fn cache_json(control: CacheControl) -> JsonModel {
    match control {
        CacheControl::Ephemeral { ttl } => {
            let entries = seq![("type"@, JsonModel::Text("ephemeral"@))];
            JsonModel::Object(
                match ttl {
                    Some(CacheTtl::FiveMinutes) => entries.push(("ttl"@, JsonModel::Text("5m"@))),
                    Some(CacheTtl::OneHour) => entries.push(("ttl"@, JsonModel::Text("1h"@))),
                    None => entries,
                },
            )
        },
    }
}

/// Entries with a cache breakpoint behind them, where there is one.
pub open spec fn with_cache(entries: Entries, control: Option<CacheControl>) -> Entries {
    match control {
        Some(control) => entries.push(("cache_control"@, cache_json(control))),
        None => entries,
    }
}

/// The source of an image as JSON.
pub open spec fn source_json(source: ImageSourceModel) -> JsonModel {
    match source {
        ImageSourceModel::Base64 { media_type, data } => JsonModel::Object(
            seq![
                ("type"@, JsonModel::Text("base64"@)),
                ("media_type"@, JsonModel::Text(media_type)),
                ("data"@, JsonModel::Text(data)),
            ],
        ),
    }
}

/// A part of a tool result as JSON.
pub open spec fn result_block_json(block: ToolResultBlockModel) -> JsonModel {
    JsonModel::Object(
        match block {
            ToolResultBlockModel::Text { text } => seq![
                ("type"@, JsonModel::Text("text"@)),
                ("text"@, JsonModel::Text(text)),
            ],
            ToolResultBlockModel::Image { source } => seq![
                ("type"@, JsonModel::Text("image"@)),
                ("source"@, source_json(source)),
            ],
        },
    )
}

/// What a tool gave back as JSON.
pub open spec fn result_json(content: ToolResultContentModel) -> JsonModel {
    match content {
        ToolResultContentModel::Text(text) => JsonModel::Text(text),
        ToolResultContentModel::Blocks(blocks) => JsonModel::Array(
            Seq::new(blocks.len(), |i: int| result_block_json(blocks[i])),
        ),
    }
}

/// A block of a message as JSON.
pub open spec fn block_json(block: ContentBlockModel) -> JsonModel {
    JsonModel::Object(
        match block {
            ContentBlockModel::Text { text, cache_control } => with_cache(
                seq![("type"@, JsonModel::Text("text"@)), ("text"@, JsonModel::Text(text))],
                cache_control,
            ),
            ContentBlockModel::Image { source, cache_control } => with_cache(
                seq![("type"@, JsonModel::Text("image"@)), ("source"@, source_json(source))],
                cache_control,
            ),
            ContentBlockModel::Thinking { thinking, signature } => seq![
                ("type"@, JsonModel::Text("thinking"@)),
                ("thinking"@, JsonModel::Text(thinking)),
                ("signature"@, JsonModel::Text(signature)),
            ],
            ContentBlockModel::RedactedThinking { data } => seq![
                ("type"@, JsonModel::Text("redacted_thinking"@)),
                ("data"@, JsonModel::Text(data)),
            ],
            ContentBlockModel::ToolUse { id, name, input } => seq![
                ("type"@, JsonModel::Text("tool_use"@)),
                ("id"@, JsonModel::Text(id)),
                ("name"@, JsonModel::Text(name)),
                ("input"@, input),
            ],
            ContentBlockModel::ToolResult { tool_use_id, content, is_error, cache_control } => with_cache(
                seq![
                    ("type"@, JsonModel::Text("tool_result"@)),
                    ("tool_use_id"@, JsonModel::Text(tool_use_id)),
                    ("content"@, result_json(content)),
                    ("is_error"@, JsonModel::Bool(is_error)),
                ],
                cache_control,
            ),
        },
    )
}

/// The name of a role.
pub open spec fn role_label(role: Role) -> Seq<char> {
    match role {
        Role::User => "user"@,
        Role::Assistant => "assistant"@,
    }
}

/// A message as JSON.
pub open spec fn message_json(message: MessageModel) -> JsonModel {
    JsonModel::Object(
        seq![
            ("role"@, JsonModel::Text(role_label(message.role))),
            (
                "content"@,
                JsonModel::Array(Seq::new(message.content.len(), |i: int| block_json(message.content[i]))),
            ),
        ],
    )
}

/// A block of the system prompt as JSON.
pub open spec fn system_json(block: SystemBlockModel) -> JsonModel {
    match block {
        SystemBlockModel::Text { text, cache_control } => JsonModel::Object(
            with_cache(
                seq![("type"@, JsonModel::Text("text"@)), ("text"@, JsonModel::Text(text))],
                cache_control,
            ),
        ),
    }
}

/// A tool as JSON.
pub open spec fn tool_json(tool: ToolModel) -> JsonModel {
    JsonModel::Object(
        with_cache(
            seq![
                ("name"@, JsonModel::Text(tool.name)),
                ("description"@, JsonModel::Text(tool.description)),
                ("input_schema"@, tool.input_schema),
            ],
            tool.cache_control,
        ),
    )
}

/// How thinking is shown, as JSON.
pub open spec fn display_json(display: ThinkingDisplay) -> JsonModel {
    match display {
        ThinkingDisplay::Omitted => JsonModel::Text("omitted"@),
    }
}

/// A whole number as JSON.
pub open spec fn whole_json(value: u32) -> JsonModel {
    JsonModel::Number(JsonNumberModel::Unsigned(value as u64))
}

/// How the model thinks, as JSON.
pub open spec fn thinking_json(thinking: Thinking) -> JsonModel {
    JsonModel::Object(
        match thinking {
            Thinking::Enabled { budget_tokens, display } => seq![
                ("type"@, JsonModel::Text("enabled"@)),
                ("budget_tokens"@, whole_json(budget_tokens)),
                ("display"@, display_json(display)),
            ],
            Thinking::Adaptive { display } => match display {
                Some(display) => seq![
                    ("type"@, JsonModel::Text("adaptive"@)),
                    ("display"@, display_json(display)),
                ],
                None => seq![("type"@, JsonModel::Text("adaptive"@))],
            },
            Thinking::Disabled => seq![("type"@, JsonModel::Text("disabled"@))],
        },
    )
}

/// The name of a level of effort.
pub open spec fn effort_label(effort: OutputEffort) -> Seq<char> {
    match effort {
        OutputEffort::Low => "low"@,
        OutputEffort::Medium => "medium"@,
        OutputEffort::High => "high"@,
        OutputEffort::Xhigh => "xhigh"@,
        OutputEffort::Max => "max"@,
    }
}

/// The output settings as JSON.
pub open spec fn output_json(config: OutputConfig) -> JsonModel {
    JsonModel::Object(seq![("effort"@, JsonModel::Text(effort_label(config.effort)))])
}

/// An edit of the context as JSON.
pub open spec fn edit_json(edit: ContextEdit) -> JsonModel {
    match edit {
        ContextEdit::ClearThinking20251015 { keep } => JsonModel::Object(
            seq![
                ("type"@, JsonModel::Text("clear_thinking_20251015"@)),
                (
                    "keep"@,
                    match keep {
                        ContextKeep::All => JsonModel::Text("all"@),
                    },
                ),
            ],
        ),
    }
}

/// The edits of the context as JSON.
pub open spec fn edits_json(management: ContextManagementModel) -> JsonModel {
    JsonModel::Object(
        seq![
            (
                "edits"@,
                JsonModel::Array(Seq::new(management.edits.len(), |i: int| edit_json(management.edits[i]))),
            ),
        ],
    )
}

/// Who a request is made for, as JSON.
pub open spec fn metadata_json(user_id: Option<Seq<char>>) -> JsonModel {
    JsonModel::Object(
        match user_id {
            Some(id) => seq![("user_id"@, JsonModel::Text(id))],
            None => Seq::empty(),
        },
    )
}

/// A list of values as JSON where there are any.
pub open spec fn with_list(entries: Entries, name: Seq<char>, items: Seq<JsonModel>) -> Entries {
    if items.len() > 0 {
        entries.push((name, JsonModel::Array(items)))
    } else {
        entries
    }
}

/// A value under a name where there is one.
pub open spec fn with_value(entries: Entries, name: Seq<char>, value: Option<JsonModel>) -> Entries {
    match value {
        Some(value) => entries.push((name, value)),
        None => entries,
    }
}

/// The system prompt as JSON.
pub open spec fn systems_json(system: Seq<SystemBlockModel>) -> Seq<JsonModel> {
    Seq::new(system.len(), |i: int| system_json(system[i]))
}

/// The messages as JSON.
pub open spec fn messages_json(messages: Seq<MessageModel>) -> Seq<JsonModel> {
    Seq::new(messages.len(), |i: int| message_json(messages[i]))
}

/// The tools as JSON.
pub open spec fn tools_json(tools: Seq<ToolModel>) -> Seq<JsonModel> {
    Seq::new(tools.len(), |i: int| tool_json(tools[i]))
}

/// A request as JSON. What there is none of is not mentioned, but for the
/// messages.
pub open spec fn request_json(request: MessagesRequestModel) -> JsonModel {
    let entries = seq![
        ("model"@, JsonModel::Text(request.model)),
        ("max_tokens"@, whole_json(request.max_tokens)),
        ("stream"@, JsonModel::Bool(request.stream)),
    ];
    let entries = with_list(entries, "system"@, systems_json(request.system));
    let entries = entries.push(("messages"@, JsonModel::Array(messages_json(request.messages))));
    let entries = with_list(entries, "tools"@, tools_json(request.tools));
    let entries = entries.push(("thinking"@, thinking_json(request.thinking)));
    let entries = with_value(
        entries,
        "output_config"@,
        match request.output_config {
            Some(config) => Some(output_json(config)),
            None => None,
        },
    );
    let entries = with_value(
        entries,
        "context_management"@,
        match request.context_management {
            Some(management) => Some(edits_json(management)),
            None => None,
        },
    );
    JsonModel::Object(
        with_value(
            entries,
            "metadata"@,
            match request.metadata {
                Some(metadata) => Some(metadata_json(metadata.user_id)),
                None => None,
            },
        ),
    )
}

fn add_cache(entries: &mut Vec<(String, Json)>, control: Option<CacheControl>)
    ensures
        final(entries).deep_view() == with_cache(old(entries).deep_view(), control),
{
    broadcast use lemma_object_model;
    if let Some(control) = control {
        let mut inner: Vec<(String, Json)> = no_items();
        add_text(&mut inner, "type", "ephemeral");
        match control {
            CacheControl::Ephemeral { ttl } => match ttl {
                Some(CacheTtl::FiveMinutes) => add_text(&mut inner, "ttl", "5m"),
                Some(CacheTtl::OneHour) => add_text(&mut inner, "ttl", "1h"),
                None => {},
            },
        }
        assert(inner.deep_view() =~= cache_json(control)->Object_0);
        add_field(entries, "cache_control", Json::Object(inner));
    }
}

impl ImageSource {
    /// The source as JSON.
    pub fn to_json(&self) -> (json: Json)
        ensures
            json.deep_view() == source_json(self.deep_view()),
    {
        broadcast use lemma_object_model;
        match self {
            ImageSource::Base64 { media_type, data } => {
                let mut entries: Vec<(String, Json)> = no_items();
                add_text(&mut entries, "type", "base64");
                add_text(&mut entries, "media_type", media_type);
                add_text(&mut entries, "data", data);
                assert(entries.deep_view() =~= source_json(self.deep_view())->Object_0);
                Json::Object(entries)
            },
        }
    }
}

impl ToolResultBlock {
    /// The part as JSON.
    pub fn to_json(&self) -> (json: Json)
        ensures
            json.deep_view() == result_block_json(self.deep_view()),
    {
        broadcast use lemma_object_model;
        let mut entries: Vec<(String, Json)> = no_items();
        match self {
            ToolResultBlock::Text { text } => {
                add_text(&mut entries, "type", "text");
                add_text(&mut entries, "text", text);
            },
            ToolResultBlock::Image { source } => {
                add_text(&mut entries, "type", "image");
                add_field(&mut entries, "source", source.to_json());
            },
        }
        assert(entries.deep_view() =~= result_block_json(self.deep_view())->Object_0);
        Json::Object(entries)
    }
}

impl ToolResultContent {
    /// What the tool gave back as JSON.
    pub fn to_json(&self) -> (json: Json)
        ensures
            json.deep_view() == result_json(self.deep_view()),
    {
        broadcast use lemma_array_model;
        match self {
            ToolResultContent::Text(text) => Json::Text(text.duplicate()),
            ToolResultContent::Blocks(blocks) => {
                let mut items: Vec<Json> = no_items();
                let mut i: usize = 0;
                while i < blocks.len()
                    invariant
                        i <= blocks.len(),
                        items.deep_view() == Seq::new(i as nat, |j: int| result_block_json(blocks.deep_view()[j])),
                    decreases blocks.len() - i,
                {
                    push_item(&mut items, blocks[i].to_json());
                    i += 1;
                    assert(items.deep_view() =~= Seq::new(
                        i as nat,
                        |j: int| result_block_json(blocks.deep_view()[j]),
                    ));
                }
                Json::Array(items)
            },
        }
    }
}

impl ContentBlock {
    /// The block as JSON.
    pub fn to_json(&self) -> (json: Json)
        ensures
            json.deep_view() == block_json(self.deep_view()),
    {
        broadcast use lemma_object_model;
        let mut entries: Vec<(String, Json)> = no_items();
        match self {
            ContentBlock::Text { text, cache_control } => {
                add_text(&mut entries, "type", "text");
                add_text(&mut entries, "text", text);
                add_cache(&mut entries, *cache_control);
            },
            ContentBlock::Image { source, cache_control } => {
                add_text(&mut entries, "type", "image");
                add_field(&mut entries, "source", source.to_json());
                add_cache(&mut entries, *cache_control);
            },
            ContentBlock::Thinking { thinking, signature } => {
                add_text(&mut entries, "type", "thinking");
                add_text(&mut entries, "thinking", thinking);
                add_text(&mut entries, "signature", signature);
            },
            ContentBlock::RedactedThinking { data } => {
                add_text(&mut entries, "type", "redacted_thinking");
                add_text(&mut entries, "data", data);
            },
            ContentBlock::ToolUse { id, name, input } => {
                add_text(&mut entries, "type", "tool_use");
                add_text(&mut entries, "id", id);
                add_text(&mut entries, "name", name);
                add_field(&mut entries, "input", input.duplicate());
            },
            ContentBlock::ToolResult { tool_use_id, content, is_error, cache_control } => {
                add_text(&mut entries, "type", "tool_result");
                add_text(&mut entries, "tool_use_id", tool_use_id);
                add_field(&mut entries, "content", content.to_json());
                add_field(&mut entries, "is_error", Json::Bool(*is_error));
                add_cache(&mut entries, *cache_control);
            },
        }
        assert(entries.deep_view() =~= block_json(self.deep_view())->Object_0);
        Json::Object(entries)
    }
}

impl Message {
    /// The message as JSON.
    pub fn to_json(&self) -> (json: Json)
        ensures
            json.deep_view() == message_json(self.deep_view()),
    {
        broadcast use lemma_object_model, lemma_array_model;
        let mut items: Vec<Json> = no_items();
        let mut i: usize = 0;
        let ghost blocks = self.content.deep_view();
        while i < self.content.len()
            invariant
                i <= self.content.len(),
                blocks == self.content.deep_view(),
                items.deep_view() == Seq::new(i as nat, |j: int| block_json(blocks[j])),
            decreases self.content.len() - i,
        {
            push_item(&mut items, self.content[i].to_json());
            i += 1;
            assert(items.deep_view() =~= Seq::new(i as nat, |j: int| block_json(blocks[j])));
        }
        let mut entries: Vec<(String, Json)> = no_items();
        let role = match self.role {
            Role::User => "user",
            Role::Assistant => "assistant",
        };
        add_text(&mut entries, "role", role);
        add_field(&mut entries, "content", Json::Array(items));
        assert(entries.deep_view() =~= message_json(self.deep_view())->Object_0);
        Json::Object(entries)
    }
}

impl SystemBlock {
    /// The block as JSON.
    pub fn to_json(&self) -> (json: Json)
        ensures
            json.deep_view() == system_json(self.deep_view()),
    {
        broadcast use lemma_object_model;
        match self {
            SystemBlock::Text { text, cache_control } => {
                let mut entries: Vec<(String, Json)> = no_items();
                add_text(&mut entries, "type", "text");
                add_text(&mut entries, "text", text);
                assert(entries.deep_view() =~= seq![
                    ("type"@, JsonModel::Text("text"@)),
                    ("text"@, JsonModel::Text(text@)),
                ]);
                add_cache(&mut entries, *cache_control);
                Json::Object(entries)
            },
        }
    }
}

impl Tool {
    /// The tool as JSON.
    pub fn to_json(&self) -> (json: Json)
        ensures
            json.deep_view() == tool_json(self.deep_view()),
    {
        broadcast use lemma_object_model;
        let mut entries: Vec<(String, Json)> = no_items();
        add_text(&mut entries, "name", &self.name);
        add_text(&mut entries, "description", &self.description);
        add_field(&mut entries, "input_schema", self.input_schema.duplicate());
        assert(entries.deep_view() =~= seq![
            ("name"@, JsonModel::Text(self.name@)),
            ("description"@, JsonModel::Text(self.description@)),
            ("input_schema"@, self.input_schema.deep_view()),
        ]);
        add_cache(&mut entries, self.cache_control);
        Json::Object(entries)
    }
}

fn whole(value: u32) -> (json: Json)
    ensures
        json.deep_view() == whole_json(value),
{
    Json::Number(JsonNumber::Unsigned(value as u64))
}

impl Thinking {
    /// How the model thinks, as JSON.
    pub fn to_json(&self) -> (json: Json)
        ensures
            json.deep_view() == thinking_json(*self),
    {
        broadcast use lemma_object_model;
        let mut entries: Vec<(String, Json)> = no_items();
        match self {
            Thinking::Enabled { budget_tokens, display: ThinkingDisplay::Omitted } => {
                add_text(&mut entries, "type", "enabled");
                add_field(&mut entries, "budget_tokens", whole(*budget_tokens));
                add_text(&mut entries, "display", "omitted");
            },
            Thinking::Adaptive { display } => {
                add_text(&mut entries, "type", "adaptive");
                if let Some(ThinkingDisplay::Omitted) = display {
                    add_text(&mut entries, "display", "omitted");
                }
            },
            Thinking::Disabled => {
                add_text(&mut entries, "type", "disabled");
            },
        }
        assert(entries.deep_view() =~= thinking_json(*self)->Object_0);
        Json::Object(entries)
    }
}

impl OutputConfig {
    /// The output settings as JSON.
    pub fn to_json(&self) -> (json: Json)
        ensures
            json.deep_view() == output_json(*self),
    {
        broadcast use lemma_object_model;
        let effort = match self.effort {
            OutputEffort::Low => "low",
            OutputEffort::Medium => "medium",
            OutputEffort::High => "high",
            OutputEffort::Xhigh => "xhigh",
            OutputEffort::Max => "max",
        };
        let mut entries: Vec<(String, Json)> = no_items();
        add_text(&mut entries, "effort", effort);
        assert(entries.deep_view() =~= output_json(*self)->Object_0);
        Json::Object(entries)
    }
}

impl ContextEdit {
    /// The edit as JSON.
    pub fn to_json(&self) -> (json: Json)
        ensures
            json.deep_view() == edit_json(*self),
    {
        broadcast use lemma_object_model;
        match self {
            ContextEdit::ClearThinking20251015 { keep: ContextKeep::All } => {
                let mut entries: Vec<(String, Json)> = no_items();
                add_text(&mut entries, "type", "clear_thinking_20251015");
                add_text(&mut entries, "keep", "all");
                assert(entries.deep_view() =~= edit_json(*self)->Object_0);
                Json::Object(entries)
            },
        }
    }
}

impl ContextManagement {
    /// The edits as JSON.
    pub fn to_json(&self) -> (json: Json)
        ensures
            json.deep_view() == edits_json(self.deep_view()),
    {
        broadcast use lemma_object_model, lemma_array_model;
        let mut items: Vec<Json> = no_items();
        let mut i: usize = 0;
        let ghost edits = self.edits.deep_view();
        while i < self.edits.len()
            invariant
                i <= self.edits.len(),
                edits == self.edits.deep_view(),
                items.deep_view() == Seq::new(i as nat, |j: int| edit_json(edits[j])),
            decreases self.edits.len() - i,
        {
            push_item(&mut items, self.edits[i].to_json());
            i += 1;
            assert(items.deep_view() =~= Seq::new(i as nat, |j: int| edit_json(edits[j])));
        }
        let mut entries: Vec<(String, Json)> = no_items();
        add_field(&mut entries, "edits", Json::Array(items));
        assert(entries.deep_view() =~= edits_json(self.deep_view())->Object_0);
        Json::Object(entries)
    }
}

fn write_metadata(user_id: &Option<String>) -> (json: Json)
    ensures
        json.deep_view() == metadata_json(user_id.deep_view()),
{
    broadcast use lemma_object_model;
    let mut entries: Vec<(String, Json)> = no_items();
    if let Some(id) = user_id {
        add_text(&mut entries, "user_id", id);
    }
    assert(entries.deep_view() =~= metadata_json(user_id.deep_view())->Object_0);
    Json::Object(entries)
}

fn write_system(system: &Vec<SystemBlock>) -> (items: Vec<Json>)
    ensures
        items.deep_view() == systems_json(system.deep_view()),
{
    let mut items: Vec<Json> = no_items();
    let mut i: usize = 0;
    while i < system.len()
        invariant
            i <= system.len(),
            items.deep_view() == Seq::new(i as nat, |j: int| system_json(system.deep_view()[j])),
        decreases system.len() - i,
    {
        push_item(&mut items, system[i].to_json());
        i += 1;
        assert(items.deep_view() =~= Seq::new(i as nat, |j: int| system_json(system.deep_view()[j])));
    }
    items
}

fn write_messages(messages: &Vec<Message>) -> (items: Vec<Json>)
    ensures
        items.deep_view() == messages_json(messages.deep_view()),
{
    let mut items: Vec<Json> = no_items();
    let mut i: usize = 0;
    while i < messages.len()
        invariant
            i <= messages.len(),
            items.deep_view() == Seq::new(i as nat, |j: int| message_json(messages.deep_view()[j])),
        decreases messages.len() - i,
    {
        push_item(&mut items, messages[i].to_json());
        i += 1;
        assert(items.deep_view() =~= Seq::new(i as nat, |j: int| message_json(messages.deep_view()[j])));
    }
    items
}

fn write_tools(tools: &Vec<Tool>) -> (items: Vec<Json>)
    ensures
        items.deep_view() == tools_json(tools.deep_view()),
{
    let mut items: Vec<Json> = no_items();
    let mut i: usize = 0;
    while i < tools.len()
        invariant
            i <= tools.len(),
            items.deep_view() == Seq::new(i as nat, |j: int| tool_json(tools.deep_view()[j])),
        decreases tools.len() - i,
    {
        push_item(&mut items, tools[i].to_json());
        i += 1;
        assert(items.deep_view() =~= Seq::new(i as nat, |j: int| tool_json(tools.deep_view()[j])));
    }
    items
}

fn add_list(entries: &mut Vec<(String, Json)>, name: &str, items: Vec<Json>)
    ensures
        final(entries).deep_view() == with_list(old(entries).deep_view(), name@, items.deep_view()),
{
    broadcast use lemma_array_model;
    assert(items.deep_view().len() == items.len());
    if items.len() > 0 {
        add_field(entries, name, Json::Array(items));
    }
}

impl MessagesRequest {
    /// The request as JSON.
    pub fn to_json(&self) -> (json: Json)
        ensures
            json.deep_view() == request_json(self.deep_view()),
    {
        broadcast use lemma_object_model, lemma_array_model;
        let mut entries: Vec<(String, Json)> = no_items();
        add_text(&mut entries, "model", &self.model);
        add_field(&mut entries, "max_tokens", whole(self.max_tokens));
        add_field(&mut entries, "stream", Json::Bool(self.stream));
        assert(entries.deep_view() =~= seq![
            ("model"@, JsonModel::Text(self.model@)),
            ("max_tokens"@, whole_json(self.max_tokens)),
            ("stream"@, JsonModel::Bool(self.stream)),
        ]);
        add_list(&mut entries, "system", write_system(&self.system));
        add_field(&mut entries, "messages", Json::Array(write_messages(&self.messages)));
        add_list(&mut entries, "tools", write_tools(&self.tools));
        add_field(&mut entries, "thinking", self.thinking.to_json());
        if let Some(config) = &self.output_config {
            add_field(&mut entries, "output_config", config.to_json());
        }
        if let Some(management) = &self.context_management {
            add_field(&mut entries, "context_management", management.to_json());
        }
        if let Some(metadata) = &self.metadata {
            add_field(&mut entries, "metadata", write_metadata(&metadata.user_id));
        }
        Json::Object(entries)
    }

    /// The request as it is sent.
    pub fn body(&self) -> (body: String)
        ensures
            body@ == json_print(request_json(self.deep_view())),
    {
        print_json(&self.to_json())
    }
}

} // verus!
