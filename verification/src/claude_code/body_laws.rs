//! What the JSON of a native request says of the request.
use crate::claude_code::body::{
    block_json, cache_json, edit_json, edits_json, message_json, messages_json, metadata_json, output_json,
    request_json, result_block_json, result_json, source_json, system_json, systems_json, thinking_json,
    tool_json, tools_json, whole_json, with_cache, with_list, with_value,
};
use crate::claude_code::types::{
    CacheControl, CacheTtl, ContentBlockModel, ContextEdit, ImageSourceModel, MessageModel, MessagesRequestModel,
    OutputEffort, Role, SystemBlockModel, Thinking, ToolModel, ToolResultBlockModel, ToolResultContentModel,
};
use crate::fields::{lemma_lookup_at, lemma_lookup_none, lemma_lookup_push, lookup};
use crate::json::{member, JsonModel, JsonNumberModel};
use vstd::prelude::*;

verus! {

proof fn lemma_request_names()
    ensures
        "model"@ != "max_tokens"@,
        "model"@ != "stream"@,
        "model"@ != "system"@,
        "model"@ != "messages"@,
        "model"@ != "tools"@,
        "model"@ != "thinking"@,
        "model"@ != "output_config"@,
        "model"@ != "context_management"@,
        "model"@ != "metadata"@,
        "max_tokens"@ != "stream"@,
        "max_tokens"@ != "system"@,
        "max_tokens"@ != "messages"@,
        "max_tokens"@ != "tools"@,
        "max_tokens"@ != "thinking"@,
        "max_tokens"@ != "output_config"@,
        "max_tokens"@ != "context_management"@,
        "max_tokens"@ != "metadata"@,
        "stream"@ != "system"@,
        "stream"@ != "messages"@,
        "stream"@ != "tools"@,
        "stream"@ != "thinking"@,
        "stream"@ != "output_config"@,
        "stream"@ != "context_management"@,
        "stream"@ != "metadata"@,
        "system"@ != "messages"@,
        "system"@ != "tools"@,
        "system"@ != "thinking"@,
        "system"@ != "output_config"@,
        "system"@ != "context_management"@,
        "system"@ != "metadata"@,
        "messages"@ != "tools"@,
        "messages"@ != "thinking"@,
        "messages"@ != "output_config"@,
        "messages"@ != "context_management"@,
        "messages"@ != "metadata"@,
        "tools"@ != "thinking"@,
        "tools"@ != "output_config"@,
        "tools"@ != "context_management"@,
        "tools"@ != "metadata"@,
        "thinking"@ != "output_config"@,
        "thinking"@ != "context_management"@,
        "thinking"@ != "metadata"@,
        "output_config"@ != "context_management"@,
        "output_config"@ != "metadata"@,
        "context_management"@ != "metadata"@,
{
    reveal_strlit("model");
    reveal_strlit("max_tokens");
    reveal_strlit("stream");
    reveal_strlit("system");
    reveal_strlit("messages");
    reveal_strlit("tools");
    reveal_strlit("thinking");
    reveal_strlit("output_config");
    reveal_strlit("context_management");
    reveal_strlit("metadata");
    assert("model"@.len() != "max_tokens"@.len());
    assert("model"@.len() != "stream"@.len());
    assert("model"@.len() != "system"@.len());
    assert("model"@.len() != "messages"@.len());
    assert("model"@[0] != "tools"@[0]);
    assert("model"@.len() != "thinking"@.len());
    assert("model"@.len() != "output_config"@.len());
    assert("model"@.len() != "context_management"@.len());
    assert("model"@.len() != "metadata"@.len());
    assert("max_tokens"@.len() != "stream"@.len());
    assert("max_tokens"@.len() != "system"@.len());
    assert("max_tokens"@.len() != "messages"@.len());
    assert("max_tokens"@.len() != "tools"@.len());
    assert("max_tokens"@.len() != "thinking"@.len());
    assert("max_tokens"@.len() != "output_config"@.len());
    assert("max_tokens"@.len() != "context_management"@.len());
    assert("max_tokens"@.len() != "metadata"@.len());
    assert("stream"@[1] != "system"@[1]);
    assert("stream"@.len() != "messages"@.len());
    assert("stream"@.len() != "tools"@.len());
    assert("stream"@.len() != "thinking"@.len());
    assert("stream"@.len() != "output_config"@.len());
    assert("stream"@.len() != "context_management"@.len());
    assert("stream"@.len() != "metadata"@.len());
    assert("system"@.len() != "messages"@.len());
    assert("system"@.len() != "tools"@.len());
    assert("system"@.len() != "thinking"@.len());
    assert("system"@.len() != "output_config"@.len());
    assert("system"@.len() != "context_management"@.len());
    assert("system"@.len() != "metadata"@.len());
    assert("messages"@.len() != "tools"@.len());
    assert("messages"@[0] != "thinking"@[0]);
    assert("messages"@.len() != "output_config"@.len());
    assert("messages"@.len() != "context_management"@.len());
    assert("messages"@[2] != "metadata"@[2]);
    assert("tools"@.len() != "thinking"@.len());
    assert("tools"@.len() != "output_config"@.len());
    assert("tools"@.len() != "context_management"@.len());
    assert("tools"@.len() != "metadata"@.len());
    assert("thinking"@.len() != "output_config"@.len());
    assert("thinking"@.len() != "context_management"@.len());
    assert("thinking"@[0] != "metadata"@[0]);
    assert("output_config"@.len() != "context_management"@.len());
    assert("output_config"@.len() != "metadata"@.len());
    assert("context_management"@.len() != "metadata"@.len());
}

proof fn lemma_block_names()
    ensures
        "type"@ != "text"@,
        "type"@ != "source"@,
        "type"@ != "thinking"@,
        "type"@ != "signature"@,
        "type"@ != "data"@,
        "type"@ != "id"@,
        "type"@ != "name"@,
        "type"@ != "input"@,
        "type"@ != "tool_use_id"@,
        "type"@ != "content"@,
        "type"@ != "is_error"@,
        "type"@ != "cache_control"@,
        "type"@ != "media_type"@,
        "text"@ != "source"@,
        "text"@ != "thinking"@,
        "text"@ != "signature"@,
        "text"@ != "data"@,
        "text"@ != "id"@,
        "text"@ != "name"@,
        "text"@ != "input"@,
        "text"@ != "tool_use_id"@,
        "text"@ != "content"@,
        "text"@ != "is_error"@,
        "text"@ != "cache_control"@,
        "text"@ != "media_type"@,
        "source"@ != "thinking"@,
        "source"@ != "signature"@,
        "source"@ != "data"@,
        "source"@ != "id"@,
        "source"@ != "name"@,
        "source"@ != "input"@,
        "source"@ != "tool_use_id"@,
        "source"@ != "content"@,
        "source"@ != "is_error"@,
        "source"@ != "cache_control"@,
        "source"@ != "media_type"@,
        "thinking"@ != "signature"@,
        "thinking"@ != "data"@,
        "thinking"@ != "id"@,
        "thinking"@ != "name"@,
        "thinking"@ != "input"@,
        "thinking"@ != "tool_use_id"@,
        "thinking"@ != "content"@,
        "thinking"@ != "is_error"@,
        "thinking"@ != "cache_control"@,
        "thinking"@ != "media_type"@,
        "signature"@ != "data"@,
        "signature"@ != "id"@,
        "signature"@ != "name"@,
        "signature"@ != "input"@,
        "signature"@ != "tool_use_id"@,
        "signature"@ != "content"@,
        "signature"@ != "is_error"@,
        "signature"@ != "cache_control"@,
        "signature"@ != "media_type"@,
        "data"@ != "id"@,
        "data"@ != "name"@,
        "data"@ != "input"@,
        "data"@ != "tool_use_id"@,
        "data"@ != "content"@,
        "data"@ != "is_error"@,
        "data"@ != "cache_control"@,
        "data"@ != "media_type"@,
        "id"@ != "name"@,
        "id"@ != "input"@,
        "id"@ != "tool_use_id"@,
        "id"@ != "content"@,
        "id"@ != "is_error"@,
        "id"@ != "cache_control"@,
        "id"@ != "media_type"@,
        "name"@ != "input"@,
        "name"@ != "tool_use_id"@,
        "name"@ != "content"@,
        "name"@ != "is_error"@,
        "name"@ != "cache_control"@,
        "name"@ != "media_type"@,
        "input"@ != "tool_use_id"@,
        "input"@ != "content"@,
        "input"@ != "is_error"@,
        "input"@ != "cache_control"@,
        "input"@ != "media_type"@,
        "tool_use_id"@ != "content"@,
        "tool_use_id"@ != "is_error"@,
        "tool_use_id"@ != "cache_control"@,
        "tool_use_id"@ != "media_type"@,
        "content"@ != "is_error"@,
        "content"@ != "cache_control"@,
        "content"@ != "media_type"@,
        "is_error"@ != "cache_control"@,
        "is_error"@ != "media_type"@,
        "cache_control"@ != "media_type"@,
{
    reveal_strlit("type");
    reveal_strlit("text");
    reveal_strlit("source");
    reveal_strlit("thinking");
    reveal_strlit("signature");
    reveal_strlit("data");
    reveal_strlit("id");
    reveal_strlit("name");
    reveal_strlit("input");
    reveal_strlit("tool_use_id");
    reveal_strlit("content");
    reveal_strlit("is_error");
    reveal_strlit("cache_control");
    reveal_strlit("media_type");
    assert("type"@[1] != "text"@[1]);
    assert("type"@.len() != "source"@.len());
    assert("type"@.len() != "thinking"@.len());
    assert("type"@.len() != "signature"@.len());
    assert("type"@[0] != "data"@[0]);
    assert("type"@.len() != "id"@.len());
    assert("type"@[0] != "name"@[0]);
    assert("type"@.len() != "input"@.len());
    assert("type"@.len() != "tool_use_id"@.len());
    assert("type"@.len() != "content"@.len());
    assert("type"@.len() != "is_error"@.len());
    assert("type"@.len() != "cache_control"@.len());
    assert("type"@.len() != "media_type"@.len());
    assert("text"@.len() != "source"@.len());
    assert("text"@.len() != "thinking"@.len());
    assert("text"@.len() != "signature"@.len());
    assert("text"@[0] != "data"@[0]);
    assert("text"@.len() != "id"@.len());
    assert("text"@[0] != "name"@[0]);
    assert("text"@.len() != "input"@.len());
    assert("text"@.len() != "tool_use_id"@.len());
    assert("text"@.len() != "content"@.len());
    assert("text"@.len() != "is_error"@.len());
    assert("text"@.len() != "cache_control"@.len());
    assert("text"@.len() != "media_type"@.len());
    assert("source"@.len() != "thinking"@.len());
    assert("source"@.len() != "signature"@.len());
    assert("source"@.len() != "data"@.len());
    assert("source"@.len() != "id"@.len());
    assert("source"@.len() != "name"@.len());
    assert("source"@.len() != "input"@.len());
    assert("source"@.len() != "tool_use_id"@.len());
    assert("source"@.len() != "content"@.len());
    assert("source"@.len() != "is_error"@.len());
    assert("source"@.len() != "cache_control"@.len());
    assert("source"@.len() != "media_type"@.len());
    assert("thinking"@.len() != "signature"@.len());
    assert("thinking"@.len() != "data"@.len());
    assert("thinking"@.len() != "id"@.len());
    assert("thinking"@.len() != "name"@.len());
    assert("thinking"@.len() != "input"@.len());
    assert("thinking"@.len() != "tool_use_id"@.len());
    assert("thinking"@.len() != "content"@.len());
    assert("thinking"@[0] != "is_error"@[0]);
    assert("thinking"@.len() != "cache_control"@.len());
    assert("thinking"@.len() != "media_type"@.len());
    assert("signature"@.len() != "data"@.len());
    assert("signature"@.len() != "id"@.len());
    assert("signature"@.len() != "name"@.len());
    assert("signature"@.len() != "input"@.len());
    assert("signature"@.len() != "tool_use_id"@.len());
    assert("signature"@.len() != "content"@.len());
    assert("signature"@.len() != "is_error"@.len());
    assert("signature"@.len() != "cache_control"@.len());
    assert("signature"@.len() != "media_type"@.len());
    assert("data"@.len() != "id"@.len());
    assert("data"@[0] != "name"@[0]);
    assert("data"@.len() != "input"@.len());
    assert("data"@.len() != "tool_use_id"@.len());
    assert("data"@.len() != "content"@.len());
    assert("data"@.len() != "is_error"@.len());
    assert("data"@.len() != "cache_control"@.len());
    assert("data"@.len() != "media_type"@.len());
    assert("id"@.len() != "name"@.len());
    assert("id"@.len() != "input"@.len());
    assert("id"@.len() != "tool_use_id"@.len());
    assert("id"@.len() != "content"@.len());
    assert("id"@.len() != "is_error"@.len());
    assert("id"@.len() != "cache_control"@.len());
    assert("id"@.len() != "media_type"@.len());
    assert("name"@.len() != "input"@.len());
    assert("name"@.len() != "tool_use_id"@.len());
    assert("name"@.len() != "content"@.len());
    assert("name"@.len() != "is_error"@.len());
    assert("name"@.len() != "cache_control"@.len());
    assert("name"@.len() != "media_type"@.len());
    assert("input"@.len() != "tool_use_id"@.len());
    assert("input"@.len() != "content"@.len());
    assert("input"@.len() != "is_error"@.len());
    assert("input"@.len() != "cache_control"@.len());
    assert("input"@.len() != "media_type"@.len());
    assert("tool_use_id"@.len() != "content"@.len());
    assert("tool_use_id"@.len() != "is_error"@.len());
    assert("tool_use_id"@.len() != "cache_control"@.len());
    assert("tool_use_id"@.len() != "media_type"@.len());
    assert("content"@.len() != "is_error"@.len());
    assert("content"@.len() != "cache_control"@.len());
    assert("content"@.len() != "media_type"@.len());
    assert("is_error"@.len() != "cache_control"@.len());
    assert("is_error"@.len() != "media_type"@.len());
    assert("cache_control"@.len() != "media_type"@.len());
}

proof fn lemma_tool_names()
    ensures
        "name"@ != "description"@,
        "name"@ != "input_schema"@,
        "name"@ != "cache_control"@,
        "description"@ != "input_schema"@,
        "description"@ != "cache_control"@,
        "input_schema"@ != "cache_control"@,
{
    reveal_strlit("name");
    reveal_strlit("description");
    reveal_strlit("input_schema");
    reveal_strlit("cache_control");
    assert("name"@.len() != "description"@.len());
    assert("name"@.len() != "input_schema"@.len());
    assert("name"@.len() != "cache_control"@.len());
    assert("description"@.len() != "input_schema"@.len());
    assert("description"@.len() != "cache_control"@.len());
    assert("input_schema"@.len() != "cache_control"@.len());
}

proof fn lemma_small_names()
    ensures
        "type"@ != "ttl"@,
        "type"@ != "budget_tokens"@,
        "type"@ != "display"@,
        "type"@ != "keep"@,
        "type"@ != "role"@,
        "type"@ != "content"@,
        "ttl"@ != "budget_tokens"@,
        "ttl"@ != "display"@,
        "ttl"@ != "keep"@,
        "ttl"@ != "role"@,
        "ttl"@ != "content"@,
        "budget_tokens"@ != "display"@,
        "budget_tokens"@ != "keep"@,
        "budget_tokens"@ != "role"@,
        "budget_tokens"@ != "content"@,
        "display"@ != "keep"@,
        "display"@ != "role"@,
        "display"@ != "content"@,
        "keep"@ != "role"@,
        "keep"@ != "content"@,
        "role"@ != "content"@,
{
    reveal_strlit("type");
    reveal_strlit("ttl");
    reveal_strlit("budget_tokens");
    reveal_strlit("display");
    reveal_strlit("keep");
    reveal_strlit("role");
    reveal_strlit("content");
    assert("type"@.len() != "ttl"@.len());
    assert("type"@.len() != "budget_tokens"@.len());
    assert("type"@.len() != "display"@.len());
    assert("type"@[0] != "keep"@[0]);
    assert("type"@[0] != "role"@[0]);
    assert("type"@.len() != "content"@.len());
    assert("ttl"@.len() != "budget_tokens"@.len());
    assert("ttl"@.len() != "display"@.len());
    assert("ttl"@.len() != "keep"@.len());
    assert("ttl"@.len() != "role"@.len());
    assert("ttl"@.len() != "content"@.len());
    assert("budget_tokens"@.len() != "display"@.len());
    assert("budget_tokens"@.len() != "keep"@.len());
    assert("budget_tokens"@.len() != "role"@.len());
    assert("budget_tokens"@.len() != "content"@.len());
    assert("display"@.len() != "keep"@.len());
    assert("display"@.len() != "role"@.len());
    assert("display"@[0] != "content"@[0]);
    assert("keep"@[0] != "role"@[0]);
    assert("keep"@.len() != "content"@.len());
    assert("role"@.len() != "content"@.len());
}

/// Whether JSON marks a breakpoint of the cache, or none.
pub open spec fn cache_at(json: JsonModel, control: Option<CacheControl>) -> bool {
    match control {
        None => member(json, "cache_control"@) is None,
        Some(CacheControl::Ephemeral { ttl }) => member(json, "cache_control"@) matches Some(part) && member(
            part,
            "type"@,
        ) == Some(JsonModel::Text("ephemeral"@)) && member(part, "ttl"@) == match ttl {
            None => None,
            Some(CacheTtl::FiveMinutes) => Some(JsonModel::Text("5m"@)),
            Some(CacheTtl::OneHour) => Some(JsonModel::Text("1h"@)),
        },
    }
}

/// Whether JSON is an image.
pub open spec fn is_source(json: Option<JsonModel>, source: ImageSourceModel) -> bool {
    json matches Some(part) && {
        &&& member(part, "type"@) == Some(JsonModel::Text("base64"@))
        &&& member(part, "media_type"@) == Some(JsonModel::Text(source->media_type))
        &&& member(part, "data"@) == Some(JsonModel::Text(source->data))
    }
}

/// Whether JSON is a block of a result.
pub open spec fn is_result_block(json: JsonModel, block: ToolResultBlockModel) -> bool {
    match block {
        ToolResultBlockModel::Text { text } => {
            &&& member(json, "type"@) == Some(JsonModel::Text("text"@))
            &&& member(json, "text"@) == Some(JsonModel::Text(text))
        },
        ToolResultBlockModel::Image { source } => {
            &&& member(json, "type"@) == Some(JsonModel::Text("image"@))
            &&& is_source(member(json, "source"@), source)
        },
    }
}

/// Whether JSON is what a tool gave, block for block.
pub open spec fn is_result(json: Option<JsonModel>, content: ToolResultContentModel) -> bool {
    match content {
        ToolResultContentModel::Text(text) => json == Some(JsonModel::Text(text)),
        ToolResultContentModel::Blocks(blocks) => {
            &&& json is Some
            &&& json->0 is Array
            &&& json->0->Array_0.len() == blocks.len()
            &&& forall|i: int| 0 <= i < blocks.len() ==> is_result_block(json->0->Array_0[i], #[trigger] blocks[i])
        },
    }
}

/// Whether JSON is a block of a message.
pub open spec fn is_block(json: JsonModel, block: ContentBlockModel) -> bool {
    match block {
        ContentBlockModel::Text { text, cache_control } => {
            &&& member(json, "type"@) == Some(JsonModel::Text("text"@))
            &&& member(json, "text"@) == Some(JsonModel::Text(text))
            &&& cache_at(json, cache_control)
        },
        ContentBlockModel::Image { source, cache_control } => {
            &&& member(json, "type"@) == Some(JsonModel::Text("image"@))
            &&& is_source(member(json, "source"@), source)
            &&& cache_at(json, cache_control)
        },
        ContentBlockModel::Thinking { thinking, signature } => {
            &&& member(json, "type"@) == Some(JsonModel::Text("thinking"@))
            &&& member(json, "thinking"@) == Some(JsonModel::Text(thinking))
            &&& member(json, "signature"@) == Some(JsonModel::Text(signature))
        },
        ContentBlockModel::RedactedThinking { data } => {
            &&& member(json, "type"@) == Some(JsonModel::Text("redacted_thinking"@))
            &&& member(json, "data"@) == Some(JsonModel::Text(data))
        },
        ContentBlockModel::ToolUse { id, name, input } => {
            &&& member(json, "type"@) == Some(JsonModel::Text("tool_use"@))
            &&& member(json, "id"@) == Some(JsonModel::Text(id))
            &&& member(json, "name"@) == Some(JsonModel::Text(name))
            &&& member(json, "input"@) == Some(input)
        },
        ContentBlockModel::ToolResult { tool_use_id, content, is_error, cache_control } => {
            &&& member(json, "type"@) == Some(JsonModel::Text("tool_result"@))
            &&& member(json, "tool_use_id"@) == Some(JsonModel::Text(tool_use_id))
            &&& is_result(member(json, "content"@), content)
            &&& member(json, "is_error"@) == Some(JsonModel::Bool(is_error))
            &&& cache_at(json, cache_control)
        },
    }
}

/// Whether JSON is a message, block for block.
pub open spec fn is_message(json: JsonModel, message: MessageModel) -> bool {
    let content = member(json, "content"@);
    &&& member(json, "role"@) == Some(
        JsonModel::Text(
            match message.role {
                Role::User => "user"@,
                Role::Assistant => "assistant"@,
            },
        ),
    )
    &&& content is Some
    &&& content->0 is Array
    &&& content->0->Array_0.len() == message.content.len()
    &&& forall|i: int|
        0 <= i < message.content.len() ==> is_block(content->0->Array_0[i], #[trigger] message.content[i])
}

/// Whether JSON is a part of the instructions.
pub open spec fn is_system(json: JsonModel, block: SystemBlockModel) -> bool {
    &&& member(json, "type"@) == Some(JsonModel::Text("text"@))
    &&& member(json, "text"@) == Some(JsonModel::Text(block->text))
    &&& cache_at(json, block->cache_control)
}

/// Whether JSON declares a tool.
pub open spec fn declares(json: JsonModel, tool: ToolModel) -> bool {
    &&& member(json, "name"@) == Some(JsonModel::Text(tool.name))
    &&& member(json, "description"@) == Some(JsonModel::Text(tool.description))
    &&& member(json, "input_schema"@) == Some(tool.input_schema)
    &&& cache_at(json, tool.cache_control)
}

/// Whether JSON says how the model is to think.
pub open spec fn is_thinking(json: Option<JsonModel>, thinking: Thinking) -> bool {
    json matches Some(part) && match thinking {
        Thinking::Enabled { budget_tokens, display } => {
            &&& member(part, "type"@) == Some(JsonModel::Text("enabled"@))
            &&& member(part, "budget_tokens"@) == Some(
                JsonModel::Number(JsonNumberModel::Unsigned(budget_tokens as u64)),
            )
            &&& member(part, "display"@) == Some(JsonModel::Text("omitted"@))
        },
        Thinking::Adaptive { display } => {
            &&& member(part, "type"@) == Some(JsonModel::Text("adaptive"@))
            &&& member(part, "display"@) == if display is Some {
                Some(JsonModel::Text("omitted"@))
            } else {
                None
            }
        },
        Thinking::Disabled => member(part, "type"@) == Some(JsonModel::Text("disabled"@)),
    }
}

proof fn lemma_cache(entries: Seq<(Seq<char>, JsonModel)>, control: Option<CacheControl>)
    requires
        forall|i: int| 0 <= i < entries.len() ==> (#[trigger] entries[i]).0 != "cache_control"@,
    ensures
        cache_at(JsonModel::Object(with_cache(entries, control)), control),
        forall|name: Seq<char>|
            name != "cache_control"@ ==> #[trigger] lookup(with_cache(entries, control), name) == lookup(entries, name),
{
    lemma_small_names();
    let all = with_cache(entries, control);
    match control {
        None => lemma_lookup_none(entries, "cache_control"@),
        Some(CacheControl::Ephemeral { ttl }) => {
            assert(all[entries.len() as int].0 == "cache_control"@);
            assert forall|i: int| 0 <= i < entries.len() implies (#[trigger] all[i]).0 != "cache_control"@ by {
                assert(all[i] == entries[i]);
            }
            lemma_lookup_at(all, entries.len() as int);
            let fields = cache_json(control->0)->Object_0;
            assert(fields[0].0 == "type"@);
            lemma_lookup_at(fields, 0);
            match ttl {
                None => lemma_lookup_none(fields, "ttl"@),
                Some(_) => lemma_lookup_at(fields, 1),
            }
        },
    }
    assert forall|name: Seq<char>| name != "cache_control"@ implies #[trigger] lookup(all, name) == lookup(
        entries,
        name,
    ) by {
        if let Some(control) = control {
            lemma_lookup_push(entries, ("cache_control"@, cache_json(control)), name);
        }
    }
}

proof fn lemma_source(source: ImageSourceModel)
    ensures
        is_source(Some(source_json(source)), source),
{
    lemma_block_names();
    let fields = source_json(source)->Object_0;
    lemma_lookup_at(fields, 0);
    lemma_lookup_at(fields, 1);
    lemma_lookup_at(fields, 2);
}

proof fn lemma_result(content: ToolResultContentModel)
    ensures
        is_result(Some(result_json(content)), content),
{
    lemma_block_names();
    if let ToolResultContentModel::Blocks(blocks) = content {
        assert forall|i: int| 0 <= i < blocks.len() implies is_result_block(
            result_json(content)->Array_0[i],
            #[trigger] blocks[i],
        ) by {
            let fields = result_block_json(blocks[i])->Object_0;
            lemma_lookup_at(fields, 0);
            lemma_lookup_at(fields, 1);
            if let ToolResultBlockModel::Image { source } = blocks[i] {
                lemma_source(source);
            }
        }
    }
}

/// The JSON of a block says what the block does.
pub proof fn law_block_json_keeps_the_block(block: ContentBlockModel)
    ensures
        is_block(block_json(block), block),
{
    lemma_block_names();
    let json = block_json(block);
    match block {
        ContentBlockModel::Text { text, cache_control } => {
            let entries = seq![("type"@, JsonModel::Text("text"@)), ("text"@, JsonModel::Text(text))];
            lemma_cache(entries, cache_control);
            lemma_lookup_at(entries, 0);
            lemma_lookup_at(entries, 1);
            assert(member(json, "type"@) == lookup(entries, "type"@));
            assert(member(json, "text"@) == lookup(entries, "text"@));
        },
        ContentBlockModel::Image { source, cache_control } => {
            let entries = seq![("type"@, JsonModel::Text("image"@)), ("source"@, source_json(source))];
            lemma_cache(entries, cache_control);
            lemma_lookup_at(entries, 0);
            lemma_lookup_at(entries, 1);
            lemma_source(source);
            assert(member(json, "type"@) == lookup(entries, "type"@));
            assert(member(json, "source"@) == lookup(entries, "source"@));
        },
        ContentBlockModel::ToolResult { tool_use_id, content, is_error, cache_control } => {
            let entries = seq![
                ("type"@, JsonModel::Text("tool_result"@)),
                ("tool_use_id"@, JsonModel::Text(tool_use_id)),
                ("content"@, result_json(content)),
                ("is_error"@, JsonModel::Bool(is_error)),
            ];
            lemma_cache(entries, cache_control);
            lemma_result(content);
            lemma_lookup_at(entries, 0);
            lemma_lookup_at(entries, 1);
            lemma_lookup_at(entries, 2);
            lemma_lookup_at(entries, 3);
            assert(member(json, "type"@) == lookup(entries, "type"@));
            assert(member(json, "tool_use_id"@) == lookup(entries, "tool_use_id"@));
            assert(member(json, "content"@) == lookup(entries, "content"@));
            assert(member(json, "is_error"@) == lookup(entries, "is_error"@));
        },
        ContentBlockModel::Thinking { .. } => {
            let entries = json->Object_0;
            lemma_lookup_at(entries, 0);
            lemma_lookup_at(entries, 1);
            lemma_lookup_at(entries, 2);
        },
        ContentBlockModel::RedactedThinking { .. } => {
            let entries = json->Object_0;
            lemma_lookup_at(entries, 0);
            lemma_lookup_at(entries, 1);
        },
        ContentBlockModel::ToolUse { .. } => {
            let entries = json->Object_0;
            lemma_lookup_at(entries, 0);
            lemma_lookup_at(entries, 1);
            lemma_lookup_at(entries, 2);
            lemma_lookup_at(entries, 3);
        },
    }
}

proof fn lemma_message(message: MessageModel)
    ensures
        is_message(message_json(message), message),
{
    lemma_small_names();
    let json = message_json(message);
    lemma_lookup_at(json->Object_0, 0);
    lemma_lookup_at(json->Object_0, 1);
    assert forall|i: int| 0 <= i < message.content.len() implies is_block(
        member(json, "content"@)->0->Array_0[i],
        #[trigger] message.content[i],
    ) by {
        law_block_json_keeps_the_block(message.content[i]);
    }
}

proof fn lemma_system(block: SystemBlockModel)
    ensures
        is_system(system_json(block), block),
{
    lemma_block_names();
    let entries = seq![("type"@, JsonModel::Text("text"@)), ("text"@, JsonModel::Text(block->text))];
    lemma_cache(entries, block->cache_control);
    lemma_lookup_at(entries, 0);
    lemma_lookup_at(entries, 1);
    assert(member(system_json(block), "type"@) == lookup(entries, "type"@));
    assert(member(system_json(block), "text"@) == lookup(entries, "text"@));
}

proof fn lemma_tool(tool: ToolModel)
    ensures
        declares(tool_json(tool), tool),
{
    lemma_tool_names();
    let entries = seq![
        ("name"@, JsonModel::Text(tool.name)),
        ("description"@, JsonModel::Text(tool.description)),
        ("input_schema"@, tool.input_schema),
    ];
    lemma_cache(entries, tool.cache_control);
    lemma_lookup_at(entries, 0);
    lemma_lookup_at(entries, 1);
    lemma_lookup_at(entries, 2);
    assert(member(tool_json(tool), "name"@) == lookup(entries, "name"@));
    assert(member(tool_json(tool), "description"@) == lookup(entries, "description"@));
    assert(member(tool_json(tool), "input_schema"@) == lookup(entries, "input_schema"@));
}

proof fn lemma_thinking(thinking: Thinking)
    ensures
        is_thinking(Some(thinking_json(thinking)), thinking),
{
    lemma_small_names();
    let fields = thinking_json(thinking)->Object_0;
    assert(fields[0].0 == "type"@);
    lemma_lookup_at(fields, 0);
    match thinking {
        Thinking::Enabled { .. } => {
            lemma_lookup_at(fields, 1);
            lemma_lookup_at(fields, 2);
        },
        Thinking::Adaptive { display } => {
            if display is Some {
                lemma_lookup_at(fields, 1);
            } else {
                lemma_lookup_none(fields, "display"@);
            }
        },
        Thinking::Disabled => {},
    }
}

/// The members of the JSON of a request.
spec fn request_member(request: MessagesRequestModel, name: Seq<char>) -> Option<JsonModel> {
    if name == "model"@ {
        Some(JsonModel::Text(request.model))
    } else if name == "max_tokens"@ {
        Some(whole_json(request.max_tokens))
    } else if name == "stream"@ {
        Some(JsonModel::Bool(request.stream))
    } else if name == "system"@ && request.system.len() > 0 {
        Some(JsonModel::Array(systems_json(request.system)))
    } else if name == "messages"@ {
        Some(JsonModel::Array(messages_json(request.messages)))
    } else if name == "tools"@ && request.tools.len() > 0 {
        Some(JsonModel::Array(tools_json(request.tools)))
    } else if name == "thinking"@ {
        Some(thinking_json(request.thinking))
    } else if name == "output_config"@ && request.output_config is Some {
        Some(output_json(request.output_config->0))
    } else if name == "context_management"@ && request.context_management is Some {
        Some(edits_json(request.context_management->0))
    } else if name == "metadata"@ && request.metadata is Some {
        Some(metadata_json(request.metadata->0.user_id))
    } else {
        None
    }
}

proof fn lemma_push_if(
    entries: Seq<(Seq<char>, JsonModel)>,
    all: Seq<(Seq<char>, JsonModel)>,
    name: Seq<char>,
    value: Option<JsonModel>,
    wanted: Seq<char>,
)
    requires
        all == with_value(entries, name, value),
    ensures
        lookup(all, wanted) == match lookup(entries, wanted) {
            Some(found) => Some(found),
            None => if name == wanted {
                value
            } else {
                None
            },
        },
{
    if let Some(value) = value {
        lemma_lookup_push(entries, (name, value), wanted);
    }
}

proof fn lemma_request_member(request: MessagesRequestModel, name: Seq<char>)
    ensures
        member(request_json(request), name) == request_member(request, name),
{
    lemma_request_names();
    let one = seq![
        ("model"@, JsonModel::Text(request.model)),
        ("max_tokens"@, whole_json(request.max_tokens)),
        ("stream"@, JsonModel::Bool(request.stream)),
    ];
    assert(lookup(one, name) == if name == "model"@ {
        Some(JsonModel::Text(request.model))
    } else if name == "max_tokens"@ {
        Some(whole_json(request.max_tokens))
    } else if name == "stream"@ {
        Some(JsonModel::Bool(request.stream))
    } else {
        None
    }) by {
        if name == "model"@ {
            lemma_lookup_at(one, 0);
        } else if name == "max_tokens"@ {
            lemma_lookup_at(one, 1);
        } else if name == "stream"@ {
            lemma_lookup_at(one, 2);
        } else {
            lemma_lookup_none(one, name);
        }
    }
    let systems = if request.system.len() > 0 {
        Some(JsonModel::Array(systems_json(request.system)))
    } else {
        None
    };
    let two = with_list(one, "system"@, systems_json(request.system));
    lemma_push_if(one, two, "system"@, systems, name);
    let list = JsonModel::Array(messages_json(request.messages));
    let three = two.push(("messages"@, list));
    lemma_push_if(two, three, "messages"@, Some(list), name);
    let tools = if request.tools.len() > 0 {
        Some(JsonModel::Array(tools_json(request.tools)))
    } else {
        None
    };
    let four = with_list(three, "tools"@, tools_json(request.tools));
    lemma_push_if(three, four, "tools"@, tools, name);
    let five = four.push(("thinking"@, thinking_json(request.thinking)));
    lemma_push_if(four, five, "thinking"@, Some(thinking_json(request.thinking)), name);
    let output = match request.output_config {
        Some(config) => Some(output_json(config)),
        None => None,
    };
    let six = with_value(five, "output_config"@, output);
    lemma_push_if(five, six, "output_config"@, output, name);
    let edits = match request.context_management {
        Some(management) => Some(edits_json(management)),
        None => None,
    };
    let seven = with_value(six, "context_management"@, edits);
    lemma_push_if(six, seven, "context_management"@, edits, name);
    let metadata = match request.metadata {
        Some(metadata) => Some(metadata_json(metadata.user_id)),
        None => None,
    };
    let eight = with_value(seven, "metadata"@, metadata);
    lemma_push_if(seven, eight, "metadata"@, metadata, name);
    assert(request_json(request)->Object_0 == eight);
}

/// The JSON of a request names the model, how many tokens it may give and that it
/// is to stream, holds the instructions, every message and every tool in order, and
/// says how the model is to think, with what effort, what is to be cleared from the
/// context, and for whom.
pub proof fn law_request_json_keeps_the_request(request: MessagesRequestModel)
    ensures
        ({
            let json = request_json(request);
            let system = member(json, "system"@);
            let messages = member(json, "messages"@);
            let tools = member(json, "tools"@);
            let edits = member(json, "context_management"@);
            &&& member(json, "model"@) == Some(JsonModel::Text(request.model))
            &&& member(json, "max_tokens"@) == Some(
                JsonModel::Number(JsonNumberModel::Unsigned(request.max_tokens as u64)),
            )
            &&& member(json, "stream"@) == Some(JsonModel::Bool(request.stream))
            &&& request.system.len() == 0 ==> system is None
            &&& request.system.len() > 0 ==> system is Some && system->0 is Array && system->0->Array_0.len()
                == request.system.len() && forall|i: int|
                0 <= i < request.system.len() ==> is_system(system->0->Array_0[i], #[trigger] request.system[i])
            &&& messages is Some && messages->0 is Array && messages->0->Array_0.len() == request.messages.len()
            &&& forall|i: int|
                0 <= i < request.messages.len() ==> is_message(
                    messages->0->Array_0[i],
                    #[trigger] request.messages[i],
                )
            &&& request.tools.len() == 0 ==> tools is None
            &&& request.tools.len() > 0 ==> tools is Some && tools->0 is Array && tools->0->Array_0.len()
                == request.tools.len() && forall|i: int|
                0 <= i < request.tools.len() ==> declares(tools->0->Array_0[i], #[trigger] request.tools[i])
            &&& is_thinking(member(json, "thinking"@), request.thinking)
            &&& match request.output_config {
                None => member(json, "output_config"@) is None,
                Some(config) => member(json, "output_config"@) matches Some(part) && member(part, "effort"@) == Some(
                    JsonModel::Text(
                        match config.effort {
                            OutputEffort::Low => "low"@,
                            OutputEffort::Medium => "medium"@,
                            OutputEffort::High => "high"@,
                            OutputEffort::Xhigh => "xhigh"@,
                            OutputEffort::Max => "max"@,
                        },
                    ),
                ),
            }
            &&& match request.context_management {
                None => edits is None,
                Some(management) => edits is Some && (member(edits->0, "edits"@) matches Some(list) && list is Array
                    && list->Array_0.len() == management.edits.len() && forall|i: int|
                    0 <= i < management.edits.len() ==> is_edit(list->Array_0[i], #[trigger] management.edits[i])),
            }
            &&& match request.metadata {
                None => member(json, "metadata"@) is None,
                Some(metadata) => member(json, "metadata"@) matches Some(part) && member(part, "user_id"@)
                    == match metadata.user_id {
                    Some(id) => Some(JsonModel::Text(id)),
                    None => None,
                },
            }
        }),
{
    lemma_request_names();
    lemma_request_member(request, "model"@);
    lemma_request_member(request, "max_tokens"@);
    lemma_request_member(request, "stream"@);
    lemma_request_member(request, "system"@);
    lemma_request_member(request, "messages"@);
    lemma_request_member(request, "tools"@);
    lemma_request_member(request, "thinking"@);
    lemma_request_member(request, "output_config"@);
    lemma_request_member(request, "context_management"@);
    lemma_request_member(request, "metadata"@);
    lemma_thinking(request.thinking);
    assert forall|i: int| 0 <= i < request.system.len() implies is_system(
        systems_json(request.system)[i],
        #[trigger] request.system[i],
    ) by {
        lemma_system(request.system[i]);
    }
    assert forall|i: int| 0 <= i < request.messages.len() implies is_message(
        messages_json(request.messages)[i],
        #[trigger] request.messages[i],
    ) by {
        lemma_message(request.messages[i]);
    }
    assert forall|i: int| 0 <= i < request.tools.len() implies declares(
        tools_json(request.tools)[i],
        #[trigger] request.tools[i],
    ) by {
        lemma_tool(request.tools[i]);
    }
    if let Some(config) = request.output_config {
        lemma_lookup_at(output_json(config)->Object_0, 0);
    }
    if let Some(management) = request.context_management {
        lemma_lookup_at(edits_json(management)->Object_0, 0);
        assert forall|i: int| 0 <= i < management.edits.len() implies is_edit(
            edit_json(management.edits[i]),
            #[trigger] management.edits[i],
        ) by {
            lemma_small_names();
            let fields = edit_json(management.edits[i])->Object_0;
            lemma_lookup_at(fields, 0);
            lemma_lookup_at(fields, 1);
        }
    }
    if let Some(metadata) = request.metadata {
        let fields = metadata_json(metadata.user_id)->Object_0;
        if metadata.user_id is Some {
            lemma_lookup_at(fields, 0);
        } else {
            lemma_lookup_none(fields, "user_id"@);
        }
    }
}

/// Whether JSON asks to clear thinking, and what of it to keep.
pub open spec fn is_edit(json: JsonModel, edit: ContextEdit) -> bool {
    &&& member(json, "type"@) == Some(JsonModel::Text("clear_thinking_20251015"@))
    &&& member(json, "keep"@) == Some(JsonModel::Text("all"@))
}

} // verus!
