//! What the JSON of a Chat Completions request says of the request.
use crate::chat_completions::body::{
    call_json, content_json, image_json, message_json, part_json, request_json, tool_json,
};
use crate::chat_completions::types::{
    AssistantMessageModel, ChatCompletionsRequestModel, ChatMessageModel, ContentPartModel, FunctionToolModel,
    MessageContentModel, ToolCallModel,
};
use crate::fields::{lemma_lookup_at, lemma_lookup_none, lemma_lookup_sum, lookup};
use crate::json::{member, JsonModel};
use crate::protocol::ImageDetail;
use vstd::prelude::*;

verus! {

proof fn lemma_request_names()
    ensures
        "model"@ != "messages"@,
        "model"@ != "tools"@,
        "messages"@ != "tools"@,
{
    reveal_strlit("model");
    reveal_strlit("messages");
    reveal_strlit("tools");
    assert("model"@.len() != "messages"@.len());
    assert("model"@[0] != "tools"@[0]);
    assert("messages"@.len() != "tools"@.len());
}

proof fn lemma_message_names()
    ensures
        "role"@ != "content"@,
        "role"@ != "tool_calls"@,
        "role"@ != "tool_call_id"@,
        "content"@ != "tool_calls"@,
        "content"@ != "tool_call_id"@,
        "tool_calls"@ != "tool_call_id"@,
{
    reveal_strlit("role");
    reveal_strlit("content");
    reveal_strlit("tool_calls");
    reveal_strlit("tool_call_id");
    assert("role"@.len() != "content"@.len());
    assert("role"@.len() != "tool_calls"@.len());
    assert("role"@.len() != "tool_call_id"@.len());
    assert("content"@.len() != "tool_calls"@.len());
    assert("content"@.len() != "tool_call_id"@.len());
    assert("tool_calls"@.len() != "tool_call_id"@.len());
}

proof fn lemma_part_names()
    ensures
        "id"@ != "type"@,
        "id"@ != "function"@,
        "id"@ != "name"@,
        "id"@ != "arguments"@,
        "id"@ != "description"@,
        "id"@ != "parameters"@,
        "id"@ != "strict"@,
        "id"@ != "text"@,
        "id"@ != "image_url"@,
        "id"@ != "url"@,
        "id"@ != "detail"@,
        "type"@ != "function"@,
        "type"@ != "name"@,
        "type"@ != "arguments"@,
        "type"@ != "description"@,
        "type"@ != "parameters"@,
        "type"@ != "strict"@,
        "type"@ != "text"@,
        "type"@ != "image_url"@,
        "type"@ != "url"@,
        "type"@ != "detail"@,
        "function"@ != "name"@,
        "function"@ != "arguments"@,
        "function"@ != "description"@,
        "function"@ != "parameters"@,
        "function"@ != "strict"@,
        "function"@ != "text"@,
        "function"@ != "image_url"@,
        "function"@ != "url"@,
        "function"@ != "detail"@,
        "name"@ != "arguments"@,
        "name"@ != "description"@,
        "name"@ != "parameters"@,
        "name"@ != "strict"@,
        "name"@ != "text"@,
        "name"@ != "image_url"@,
        "name"@ != "url"@,
        "name"@ != "detail"@,
        "arguments"@ != "description"@,
        "arguments"@ != "parameters"@,
        "arguments"@ != "strict"@,
        "arguments"@ != "text"@,
        "arguments"@ != "image_url"@,
        "arguments"@ != "url"@,
        "arguments"@ != "detail"@,
        "description"@ != "parameters"@,
        "description"@ != "strict"@,
        "description"@ != "text"@,
        "description"@ != "image_url"@,
        "description"@ != "url"@,
        "description"@ != "detail"@,
        "parameters"@ != "strict"@,
        "parameters"@ != "text"@,
        "parameters"@ != "image_url"@,
        "parameters"@ != "url"@,
        "parameters"@ != "detail"@,
        "strict"@ != "text"@,
        "strict"@ != "image_url"@,
        "strict"@ != "url"@,
        "strict"@ != "detail"@,
        "text"@ != "image_url"@,
        "text"@ != "url"@,
        "text"@ != "detail"@,
        "image_url"@ != "url"@,
        "image_url"@ != "detail"@,
        "url"@ != "detail"@,
{
    reveal_strlit("id");
    reveal_strlit("type");
    reveal_strlit("function");
    reveal_strlit("name");
    reveal_strlit("arguments");
    reveal_strlit("description");
    reveal_strlit("parameters");
    reveal_strlit("strict");
    reveal_strlit("text");
    reveal_strlit("image_url");
    reveal_strlit("url");
    reveal_strlit("detail");
    assert("id"@.len() != "type"@.len());
    assert("id"@.len() != "function"@.len());
    assert("id"@.len() != "name"@.len());
    assert("id"@.len() != "arguments"@.len());
    assert("id"@.len() != "description"@.len());
    assert("id"@.len() != "parameters"@.len());
    assert("id"@.len() != "strict"@.len());
    assert("id"@.len() != "text"@.len());
    assert("id"@.len() != "image_url"@.len());
    assert("id"@.len() != "url"@.len());
    assert("id"@.len() != "detail"@.len());
    assert("type"@.len() != "function"@.len());
    assert("type"@[0] != "name"@[0]);
    assert("type"@.len() != "arguments"@.len());
    assert("type"@.len() != "description"@.len());
    assert("type"@.len() != "parameters"@.len());
    assert("type"@.len() != "strict"@.len());
    assert("type"@[1] != "text"@[1]);
    assert("type"@.len() != "image_url"@.len());
    assert("type"@.len() != "url"@.len());
    assert("type"@.len() != "detail"@.len());
    assert("function"@.len() != "name"@.len());
    assert("function"@.len() != "arguments"@.len());
    assert("function"@.len() != "description"@.len());
    assert("function"@.len() != "parameters"@.len());
    assert("function"@.len() != "strict"@.len());
    assert("function"@.len() != "text"@.len());
    assert("function"@.len() != "image_url"@.len());
    assert("function"@.len() != "url"@.len());
    assert("function"@.len() != "detail"@.len());
    assert("name"@.len() != "arguments"@.len());
    assert("name"@.len() != "description"@.len());
    assert("name"@.len() != "parameters"@.len());
    assert("name"@.len() != "strict"@.len());
    assert("name"@[0] != "text"@[0]);
    assert("name"@.len() != "image_url"@.len());
    assert("name"@.len() != "url"@.len());
    assert("name"@.len() != "detail"@.len());
    assert("arguments"@.len() != "description"@.len());
    assert("arguments"@.len() != "parameters"@.len());
    assert("arguments"@.len() != "strict"@.len());
    assert("arguments"@.len() != "text"@.len());
    assert("arguments"@[0] != "image_url"@[0]);
    assert("arguments"@.len() != "url"@.len());
    assert("arguments"@.len() != "detail"@.len());
    assert("description"@.len() != "parameters"@.len());
    assert("description"@.len() != "strict"@.len());
    assert("description"@.len() != "text"@.len());
    assert("description"@.len() != "image_url"@.len());
    assert("description"@.len() != "url"@.len());
    assert("description"@.len() != "detail"@.len());
    assert("parameters"@.len() != "strict"@.len());
    assert("parameters"@.len() != "text"@.len());
    assert("parameters"@.len() != "image_url"@.len());
    assert("parameters"@.len() != "url"@.len());
    assert("parameters"@.len() != "detail"@.len());
    assert("strict"@.len() != "text"@.len());
    assert("strict"@.len() != "image_url"@.len());
    assert("strict"@.len() != "url"@.len());
    assert("strict"@[0] != "detail"@[0]);
    assert("text"@.len() != "image_url"@.len());
    assert("text"@.len() != "url"@.len());
    assert("text"@.len() != "detail"@.len());
    assert("image_url"@.len() != "url"@.len());
    assert("image_url"@.len() != "detail"@.len());
    assert("url"@.len() != "detail"@.len());
}

proof fn lemma_details()
    ensures
        "auto"@ != "low"@,
        "auto"@ != "high"@,
        "auto"@ != "original"@,
        "low"@ != "high"@,
        "low"@ != "original"@,
        "high"@ != "original"@,
{
    reveal_strlit("auto");
    reveal_strlit("low");
    reveal_strlit("high");
    reveal_strlit("original");
    assert("auto"@.len() != "low"@.len());
    assert("auto"@[0] != "high"@[0]);
    assert("auto"@.len() != "original"@.len());
    assert("low"@.len() != "high"@.len());
    assert("low"@.len() != "original"@.len());
    assert("high"@.len() != "original"@.len());
}

/// Whether JSON is a part of a message.
pub open spec fn is_part(json: JsonModel, part: ContentPartModel) -> bool {
    match part {
        ContentPartModel::Text { text } => {
            &&& member(json, "type"@) == Some(JsonModel::Text("text"@))
            &&& member(json, "text"@) == Some(JsonModel::Text(text))
        },
        ContentPartModel::ImageUrl { image_url } => {
            &&& member(json, "type"@) == Some(JsonModel::Text("image_url"@))
            &&& member(json, "image_url"@) matches Some(image) && {
                &&& member(image, "url"@) == Some(JsonModel::Text(image_url.url))
                &&& member(image, "detail"@) == match image_url.detail {
                    None => None,
                    Some(ImageDetail::Auto) => Some(JsonModel::Text("auto"@)),
                    Some(ImageDetail::Low) => Some(JsonModel::Text("low"@)),
                    Some(ImageDetail::High) => Some(JsonModel::Text("high"@)),
                    Some(ImageDetail::Original) => Some(JsonModel::Text("original"@)),
                }
            }
        },
    }
}

/// Whether JSON is the content of a message, part for part.
pub open spec fn is_content(json: Option<JsonModel>, content: MessageContentModel) -> bool {
    match content {
        MessageContentModel::Text(text) => json == Some(JsonModel::Text(text)),
        MessageContentModel::Parts(parts) => {
            &&& json is Some
            &&& json->0 is Array
            &&& json->0->Array_0.len() == parts.len()
            &&& forall|i: int| 0 <= i < parts.len() ==> is_part(json->0->Array_0[i], #[trigger] parts[i])
        },
    }
}

/// Whether JSON is a tool call.
pub open spec fn is_call(json: JsonModel, call: ToolCallModel) -> bool {
    &&& member(json, "id"@) == Some(JsonModel::Text(call.id))
    &&& member(json, "type"@) == Some(JsonModel::Text("function"@))
    &&& member(json, "function"@) matches Some(function) && {
        &&& member(function, "name"@) == Some(JsonModel::Text(call.function.name))
        &&& member(function, "arguments"@) == Some(JsonModel::Text(call.function.arguments))
    }
}

/// Whether JSON is a list of tool calls, one for one.
pub open spec fn is_calls(json: Option<JsonModel>, calls: Seq<ToolCallModel>) -> bool {
    &&& json is Some
    &&& json->0 is Array
    &&& json->0->Array_0.len() == calls.len()
    &&& forall|i: int| 0 <= i < calls.len() ==> is_call(json->0->Array_0[i], #[trigger] calls[i])
}

/// Whether JSON is a message. That of the model holds every field of its
/// reasoning beside what it said and called.
pub open spec fn is_message(json: JsonModel, message: ChatMessageModel) -> bool {
    match message {
        ChatMessageModel::System { content } => {
            &&& member(json, "role"@) == Some(JsonModel::Text("system"@))
            &&& is_content(member(json, "content"@), content)
        },
        ChatMessageModel::User { content } => {
            &&& member(json, "role"@) == Some(JsonModel::Text("user"@))
            &&& is_content(member(json, "content"@), content)
        },
        ChatMessageModel::Tool { tool_call_id, content } => {
            &&& member(json, "role"@) == Some(JsonModel::Text("tool"@))
            &&& member(json, "tool_call_id"@) == Some(JsonModel::Text(tool_call_id))
            &&& is_content(member(json, "content"@), content)
        },
        ChatMessageModel::Assistant(said) => {
            &&& member(json, "role"@) == Some(JsonModel::Text("assistant"@))
            &&& match said.content {
                Some(text) => member(json, "content"@) == Some(JsonModel::Text(text)),
                None => member(json, "content"@) == lookup(said.reasoning, "content"@),
            }
            &&& if said.tool_calls.len() > 0 {
                is_calls(member(json, "tool_calls"@), said.tool_calls)
            } else {
                member(json, "tool_calls"@) == lookup(said.reasoning, "tool_calls"@)
            }
            &&& forall|name: Seq<char>|
                name != "role"@ && name != "content"@ && name != "tool_calls"@ ==> #[trigger] member(json, name)
                    == lookup(said.reasoning, name)
        },
    }
}

/// Whether JSON declares a tool.
pub open spec fn declares(json: JsonModel, tool: FunctionToolModel) -> bool {
    &&& member(json, "type"@) == Some(JsonModel::Text("function"@))
    &&& member(json, "function"@) matches Some(function) && {
        &&& member(function, "name"@) == Some(JsonModel::Text(tool.function.name))
        &&& member(function, "description"@) == Some(JsonModel::Text(tool.function.description))
        &&& member(function, "parameters"@) == Some(tool.function.parameters)
        &&& member(function, "strict"@) == Some(JsonModel::Bool(tool.function.strict))
    }
}

proof fn lemma_part(part: ContentPartModel)
    ensures
        is_part(part_json(part), part),
{
    lemma_part_names();
    lemma_details();
    let entries = part_json(part)->Object_0;
    lemma_lookup_at(entries, 0);
    lemma_lookup_at(entries, 1);
    if let ContentPartModel::ImageUrl { image_url } = part {
        let fields = image_json(image_url)->Object_0;
        assert(fields[0].0 == "url"@);
        lemma_lookup_at(fields, 0);
        if image_url.detail is Some {
            lemma_lookup_at(fields, 1);
        } else {
            lemma_lookup_none(fields, "detail"@);
        }
    }
}

proof fn lemma_content(content: MessageContentModel)
    ensures
        is_content(Some(content_json(content)), content),
{
    if let MessageContentModel::Parts(parts) = content {
        assert forall|i: int| 0 <= i < parts.len() implies is_part(
            content_json(content)->Array_0[i],
            #[trigger] parts[i],
        ) by {
            lemma_part(parts[i]);
        }
    }
}

proof fn lemma_call(call: ToolCallModel)
    ensures
        is_call(call_json(call), call),
{
    lemma_part_names();
    let entries = call_json(call)->Object_0;
    lemma_lookup_at(entries, 0);
    lemma_lookup_at(entries, 1);
    lemma_lookup_at(entries, 2);
    let fields = entries[2].1->Object_0;
    lemma_lookup_at(fields, 0);
    lemma_lookup_at(fields, 1);
}

proof fn lemma_said(said: AssistantMessageModel)
    ensures
        is_message(message_json(ChatMessageModel::Assistant(said)), ChatMessageModel::Assistant(said)),
{
    lemma_message_names();
    let json = message_json(ChatMessageModel::Assistant(said));
    let first = seq![("role"@, JsonModel::Text("assistant"@))];
    let second = match said.content {
        Some(text) => first.push(("content"@, JsonModel::Text(text))),
        None => first,
    };
    let calls = JsonModel::Array(Seq::new(said.tool_calls.len(), |i: int| call_json(said.tool_calls[i])));
    let third = if said.tool_calls.len() > 0 {
        second.push(("tool_calls"@, calls))
    } else {
        second
    };
    assert(json->Object_0 == third + said.reasoning);
    assert forall|name: Seq<char>| #[trigger] member(json, name) == match lookup(third, name) {
        Some(value) => Some(value),
        None => lookup(said.reasoning, name),
    } by {
        lemma_lookup_sum(third, said.reasoning, name);
    }
    assert forall|name: Seq<char>| #[trigger] lookup(third, name) == if name == "role"@ {
        Some(JsonModel::Text("assistant"@))
    } else if name == "content"@ && said.content is Some {
        Some(JsonModel::Text(said.content->0))
    } else if name == "tool_calls"@ && said.tool_calls.len() > 0 {
        Some(calls)
    } else {
        None
    } by {
        if name == "role"@ {
            lemma_lookup_at(third, 0);
        } else if name == "content"@ && said.content is Some {
            lemma_lookup_at(third, 1);
        } else if name == "tool_calls"@ && said.tool_calls.len() > 0 {
            lemma_lookup_at(third, third.len() - 1);
        } else {
            lemma_lookup_none(third, name);
        }
    }
    assert forall|i: int| 0 <= i < said.tool_calls.len() implies is_call(
        calls->Array_0[i],
        #[trigger] said.tool_calls[i],
    ) by {
        lemma_call(said.tool_calls[i]);
    }
    assert(member(json, "role"@) == Some(JsonModel::Text("assistant"@)));
    assert(member(json, "content"@) == match lookup(third, "content"@) {
        Some(value) => Some(value),
        None => lookup(said.reasoning, "content"@),
    });
    assert(member(json, "tool_calls"@) == match lookup(third, "tool_calls"@) {
        Some(value) => Some(value),
        None => lookup(said.reasoning, "tool_calls"@),
    });
}

/// The JSON of a message says what the message does.
pub proof fn law_message_json_keeps_the_message(message: ChatMessageModel)
    ensures
        is_message(message_json(message), message),
{
    lemma_message_names();
    match message {
        ChatMessageModel::Assistant(said) => lemma_said(said),
        ChatMessageModel::System { content } => {
            let entries = message_json(message)->Object_0;
            lemma_content(content);
            lemma_lookup_at(entries, 0);
            lemma_lookup_at(entries, 1);
        },
        ChatMessageModel::User { content } => {
            let entries = message_json(message)->Object_0;
            lemma_content(content);
            lemma_lookup_at(entries, 0);
            lemma_lookup_at(entries, 1);
        },
        ChatMessageModel::Tool { content, .. } => {
            let entries = message_json(message)->Object_0;
            lemma_content(content);
            lemma_lookup_at(entries, 0);
            lemma_lookup_at(entries, 1);
            lemma_lookup_at(entries, 2);
        },
    }
}

/// The JSON of a tool declares it as it is.
pub proof fn law_tool_json_declares_the_tool(tool: FunctionToolModel)
    ensures
        declares(tool_json(tool), tool),
{
    lemma_part_names();
    let entries = tool_json(tool)->Object_0;
    lemma_lookup_at(entries, 0);
    lemma_lookup_at(entries, 1);
    let fields = entries[1].1->Object_0;
    lemma_lookup_at(fields, 0);
    lemma_lookup_at(fields, 1);
    lemma_lookup_at(fields, 2);
    lemma_lookup_at(fields, 3);
}

/// The JSON of a request names its model, holds every message and every tool in
/// order, and every extension beside them. Without tools it does not speak of
/// them.
pub proof fn law_request_json_keeps_the_request(request: ChatCompletionsRequestModel)
    ensures
        ({
            let json = request_json(request);
            let messages = member(json, "messages"@);
            let tools = member(json, "tools"@);
            &&& member(json, "model"@) == Some(JsonModel::Text(request.model))
            &&& messages is Some && messages->0 is Array
            &&& messages->0->Array_0.len() == request.messages.len()
            &&& forall|i: int|
                0 <= i < request.messages.len() ==> is_message(
                    messages->0->Array_0[i],
                    #[trigger] request.messages[i],
                )
            &&& request.tools.len() == 0 ==> tools == lookup(request.extensions, "tools"@)
            &&& request.tools.len() > 0 ==> tools is Some && tools->0 is Array && tools->0->Array_0.len()
                == request.tools.len() && forall|i: int|
                0 <= i < request.tools.len() ==> declares(tools->0->Array_0[i], #[trigger] request.tools[i])
            &&& forall|name: Seq<char>|
                name != "model"@ && name != "messages"@ && name != "tools"@ ==> #[trigger] member(json, name) == lookup(
                    request.extensions,
                    name,
                )
        }),
{
    lemma_request_names();
    let json = request_json(request);
    let list = JsonModel::Array(Seq::new(request.messages.len(), |i: int| message_json(request.messages[i])));
    let declared = JsonModel::Array(Seq::new(request.tools.len(), |i: int| tool_json(request.tools[i])));
    let two = seq![("model"@, JsonModel::Text(request.model)), ("messages"@, list)];
    let first = if request.tools.len() > 0 {
        two.push(("tools"@, declared))
    } else {
        two
    };
    assert(json->Object_0 == first + request.extensions);
    assert forall|name: Seq<char>| #[trigger] member(json, name) == match lookup(first, name) {
        Some(value) => Some(value),
        None => lookup(request.extensions, name),
    } by {
        lemma_lookup_sum(first, request.extensions, name);
    }
    assert forall|name: Seq<char>| #[trigger] lookup(first, name) == if name == "model"@ {
        Some(JsonModel::Text(request.model))
    } else if name == "messages"@ {
        Some(list)
    } else if name == "tools"@ && request.tools.len() > 0 {
        Some(declared)
    } else {
        None
    } by {
        if name == "model"@ {
            lemma_lookup_at(first, 0);
        } else if name == "messages"@ {
            lemma_lookup_at(first, 1);
        } else if name == "tools"@ && request.tools.len() > 0 {
            lemma_lookup_at(first, 2);
        } else {
            lemma_lookup_none(first, name);
        }
    }
    assert(lookup(first, "model"@) is Some);
    assert(lookup(first, "messages"@) is Some);
    assert(member(json, "tools"@) == match lookup(first, "tools"@) {
        Some(value) => Some(value),
        None => lookup(request.extensions, "tools"@),
    });
    assert forall|i: int| 0 <= i < request.messages.len() implies is_message(
        list->Array_0[i],
        #[trigger] request.messages[i],
    ) by {
        law_message_json_keeps_the_message(request.messages[i]);
    }
    assert forall|i: int| 0 <= i < request.tools.len() implies declares(
        declared->Array_0[i],
        #[trigger] request.tools[i],
    ) by {
        law_tool_json_declares_the_tool(request.tools[i]);
    }
}

} // verus!
