//! What the JSON of a Kimi request says of the conversation it stands for.
use crate::fields::{law_put_then_lookup, lemma_lookup_at, lemma_lookup_none, lemma_lookup_sum, lookup, put};
use crate::ids::lemma_digits;
use crate::json::{json_print, member, JsonModel, JsonNumberModel};
use crate::kimi_chat::request::{
    all_call_ids, call_json, collision_from, estimated_tokens, hashed_from, kimi_request, last_reasoning_key,
    marker_json, marker_name, marker_of, marker_read, marker_text, message_json, messages_json, normal_assistant,
    normal_call_id, normal_message, normal_messages, normal_tools_from, only_marker_names, reasoning_fields,
    request_json, shared_reasoning_key, text_hash, tool_json, tools_json, usage_option, valid_profile,
    KimiAssistantMessageModel, KimiChatRequestModel, KimiContentModel, KimiFunctionDefinitionModel,
    KimiFunctionToolModel, KimiInputEstimate, KimiMessageModel, KimiReasoningKey, KimiReasoningModel,
    KimiRequestErrorModel, KimiRequestSettingsModel, KimiThinkingEffort, KimiToolCallModel, ReplayMarkerModel,
    CALL_ID_PREFIX_LEN, MAX_REPLAY_MARKER_LEN, REPLAY_PREFIX,
};
use crate::kimi_chat::schema::{normal_schema, KimiSchemaErrorModel};
use crate::protocol::{InferenceDialect, KimiInferenceConfigModel, WireApi};
use crate::read::{number_at, text_at};
use crate::text::{begins_with, byte_length, fitting_end, fitting_prefix, lemma_fitting, lemma_place, place};
use vstd::prelude::*;

verus! {

proof fn lemma_request_names()
    ensures
        "model"@ != "messages"@,
        "model"@ != "tools"@,
        "model"@ != "stream"@,
        "model"@ != "stream_options"@,
        "model"@ != "max_completion_tokens"@,
        "model"@ != "prompt_cache_key"@,
        "model"@ != "thinking"@,
        "messages"@ != "tools"@,
        "messages"@ != "stream"@,
        "messages"@ != "stream_options"@,
        "messages"@ != "max_completion_tokens"@,
        "messages"@ != "prompt_cache_key"@,
        "messages"@ != "thinking"@,
        "tools"@ != "stream"@,
        "tools"@ != "stream_options"@,
        "tools"@ != "max_completion_tokens"@,
        "tools"@ != "prompt_cache_key"@,
        "tools"@ != "thinking"@,
        "stream"@ != "stream_options"@,
        "stream"@ != "max_completion_tokens"@,
        "stream"@ != "prompt_cache_key"@,
        "stream"@ != "thinking"@,
        "stream_options"@ != "max_completion_tokens"@,
        "stream_options"@ != "prompt_cache_key"@,
        "stream_options"@ != "thinking"@,
        "max_completion_tokens"@ != "prompt_cache_key"@,
        "max_completion_tokens"@ != "thinking"@,
        "prompt_cache_key"@ != "thinking"@,
{
    reveal_strlit("model");
    reveal_strlit("messages");
    reveal_strlit("tools");
    reveal_strlit("stream");
    reveal_strlit("stream_options");
    reveal_strlit("max_completion_tokens");
    reveal_strlit("prompt_cache_key");
    reveal_strlit("thinking");
    assert("model"@.len() != "messages"@.len());
    assert("model"@[0] != "tools"@[0]);
    assert("model"@.len() != "stream"@.len());
    assert("model"@.len() != "stream_options"@.len());
    assert("model"@.len() != "max_completion_tokens"@.len());
    assert("model"@.len() != "prompt_cache_key"@.len());
    assert("model"@.len() != "thinking"@.len());
    assert("messages"@.len() != "tools"@.len());
    assert("messages"@.len() != "stream"@.len());
    assert("messages"@.len() != "stream_options"@.len());
    assert("messages"@.len() != "max_completion_tokens"@.len());
    assert("messages"@.len() != "prompt_cache_key"@.len());
    assert("messages"@[0] != "thinking"@[0]);
    assert("tools"@.len() != "stream"@.len());
    assert("tools"@.len() != "stream_options"@.len());
    assert("tools"@.len() != "max_completion_tokens"@.len());
    assert("tools"@.len() != "prompt_cache_key"@.len());
    assert("tools"@.len() != "thinking"@.len());
    assert("stream"@.len() != "stream_options"@.len());
    assert("stream"@.len() != "max_completion_tokens"@.len());
    assert("stream"@.len() != "prompt_cache_key"@.len());
    assert("stream"@.len() != "thinking"@.len());
    assert("stream_options"@.len() != "max_completion_tokens"@.len());
    assert("stream_options"@.len() != "prompt_cache_key"@.len());
    assert("stream_options"@.len() != "thinking"@.len());
    assert("max_completion_tokens"@.len() != "prompt_cache_key"@.len());
    assert("max_completion_tokens"@.len() != "thinking"@.len());
    assert("prompt_cache_key"@.len() != "thinking"@.len());
}

proof fn lemma_message_names()
    ensures
        "role"@ != "content"@,
        "role"@ != "tool_calls"@,
        "role"@ != "tool_call_id"@,
        "content"@ != "tool_calls"@,
        "content"@ != "tool_call_id"@,
        "tool_calls"@ != "tool_call_id"@,
{
    reveal_strlit("role");
    reveal_strlit("content");
    reveal_strlit("tool_calls");
    reveal_strlit("tool_call_id");
    assert("role"@.len() != "content"@.len());
    assert("role"@.len() != "tool_calls"@.len());
    assert("role"@.len() != "tool_call_id"@.len());
    assert("content"@.len() != "tool_calls"@.len());
    assert("content"@.len() != "tool_call_id"@.len());
    assert("tool_calls"@.len() != "tool_call_id"@.len());
}

proof fn lemma_part_names()
    ensures
        "id"@ != "type"@,
        "id"@ != "function"@,
        "id"@ != "name"@,
        "id"@ != "arguments"@,
        "id"@ != "description"@,
        "id"@ != "parameters"@,
        "id"@ != "strict"@,
        "type"@ != "function"@,
        "type"@ != "name"@,
        "type"@ != "arguments"@,
        "type"@ != "description"@,
        "type"@ != "parameters"@,
        "type"@ != "strict"@,
        "function"@ != "name"@,
        "function"@ != "arguments"@,
        "function"@ != "description"@,
        "function"@ != "parameters"@,
        "function"@ != "strict"@,
        "name"@ != "arguments"@,
        "name"@ != "description"@,
        "name"@ != "parameters"@,
        "name"@ != "strict"@,
        "arguments"@ != "description"@,
        "arguments"@ != "parameters"@,
        "arguments"@ != "strict"@,
        "description"@ != "parameters"@,
        "description"@ != "strict"@,
        "parameters"@ != "strict"@,
{
    reveal_strlit("id");
    reveal_strlit("type");
    reveal_strlit("function");
    reveal_strlit("name");
    reveal_strlit("arguments");
    reveal_strlit("description");
    reveal_strlit("parameters");
    reveal_strlit("strict");
    assert("id"@.len() != "type"@.len());
    assert("id"@.len() != "function"@.len());
    assert("id"@.len() != "name"@.len());
    assert("id"@.len() != "arguments"@.len());
    assert("id"@.len() != "description"@.len());
    assert("id"@.len() != "parameters"@.len());
    assert("id"@.len() != "strict"@.len());
    assert("type"@.len() != "function"@.len());
    assert("type"@[0] != "name"@[0]);
    assert("type"@.len() != "arguments"@.len());
    assert("type"@.len() != "description"@.len());
    assert("type"@.len() != "parameters"@.len());
    assert("type"@.len() != "strict"@.len());
    assert("function"@.len() != "name"@.len());
    assert("function"@.len() != "arguments"@.len());
    assert("function"@.len() != "description"@.len());
    assert("function"@.len() != "parameters"@.len());
    assert("function"@.len() != "strict"@.len());
    assert("name"@.len() != "arguments"@.len());
    assert("name"@.len() != "description"@.len());
    assert("name"@.len() != "parameters"@.len());
    assert("name"@.len() != "strict"@.len());
    assert("arguments"@.len() != "description"@.len());
    assert("arguments"@.len() != "parameters"@.len());
    assert("arguments"@.len() != "strict"@.len());
    assert("description"@.len() != "parameters"@.len());
    assert("description"@.len() != "strict"@.len());
    assert("parameters"@.len() != "strict"@.len());
}

// ---- tools ----

/// Whether JSON declares a function with a name, a description, parameters and
/// strictness, and nothing else.
pub open spec fn declares(
    json: JsonModel,
    name: Seq<char>,
    description: Seq<char>,
    parameters: JsonModel,
    strict: bool,
) -> bool {
    &&& member(json, "type"@) == Some(JsonModel::Text("function"@))
    &&& member(json, "function"@) matches Some(function) && {
        &&& member(function, "name"@) == Some(JsonModel::Text(name))
        &&& member(function, "description"@) == Some(JsonModel::Text(description))
        &&& member(function, "parameters"@) == Some(parameters)
        &&& member(function, "strict"@) == Some(JsonModel::Bool(strict))
    }
}

proof fn lemma_tool(tool: KimiFunctionToolModel)
    ensures
        declares(
            tool_json(tool),
            tool.function.name,
            tool.function.description,
            tool.function.parameters,
            tool.function.strict,
        ),
{
    lemma_part_names();
    let json = tool_json(tool);
    let entries = json->Object_0;
    lemma_lookup_at(entries, 0);
    lemma_lookup_at(entries, 1);
    let fields = entries[1].1->Object_0;
    lemma_lookup_at(fields, 0);
    lemma_lookup_at(fields, 1);
    lemma_lookup_at(fields, 2);
    lemma_lookup_at(fields, 3);
}

/// Whether a tool is another with its schema brought into form.
pub open spec fn same_tool(given: KimiFunctionToolModel, sent: KimiFunctionToolModel) -> bool {
    &&& sent.function.name == given.function.name
    &&& sent.function.description == given.function.description
    &&& sent.function.strict == given.function.strict
    &&& Ok::<JsonModel, KimiSchemaErrorModel>(sent.function.parameters) == normal_schema(given.function.parameters)
}

proof fn lemma_tools(tools: Seq<KimiFunctionToolModel>, at: int, done: Seq<KimiFunctionToolModel>)
    requires
        0 <= at <= tools.len(),
        done.len() == at,
        forall|i: int| 0 <= i < at ==> same_tool(#[trigger] tools[i], done[i]),
    ensures
        normal_tools_from(tools, at, done) is Ok <==> forall|i: int|
            at <= i < tools.len() ==> normal_schema((#[trigger] tools[i]).function.parameters) is Ok,
        normal_tools_from(tools, at, done) matches Ok(sent) ==> sent.len() == tools.len() && forall|i: int|
            0 <= i < tools.len() ==> same_tool(#[trigger] tools[i], sent[i]),
    decreases tools.len() - at,
{
    if at < tools.len() {
        if let Ok(parameters) = normal_schema(tools[at].function.parameters) {
            let tool = KimiFunctionToolModel {
                function: KimiFunctionDefinitionModel { parameters, ..tools[at].function },
                ..tools[at]
            };
            let more = done.push(tool);
            assert forall|i: int| 0 <= i < at + 1 implies same_tool(#[trigger] tools[i], more[i]) by {
                if i < at {
                    assert(same_tool(tools[i], done[i]));
                }
            }
            lemma_tools(tools, at + 1, more);
        }
    }
}

proof fn lemma_request_members(request: KimiChatRequestModel)
    ensures
        ({
            let json = request_json(request);
            &&& member(json, "model"@) == Some(JsonModel::Text(request.model))
            &&& member(json, "messages"@) == Some(messages_json(request.messages))
            &&& member(json, "tools"@) == if request.tools.len() > 0 {
                Some(tools_json(request.tools))
            } else {
                None
            }
            &&& member(json, "stream"@) == Some(JsonModel::Bool(request.stream))
            &&& member(json, "stream_options"@) == Some(request.stream_options)
            &&& member(json, "max_completion_tokens"@) == Some(
                JsonModel::Number(JsonNumberModel::Unsigned(request.max_completion_tokens)),
            )
            &&& member(json, "prompt_cache_key"@) == Some(JsonModel::Text(request.prompt_cache_key))
            &&& member(json, "thinking"@) == Some(request.thinking)
        }),
{
    lemma_request_names();
    let entries = request_json(request)->Object_0;
    let more: int = if request.tools.len() > 0 {
        1
    } else {
        0
    };
    assert(entries[0].0 == "model"@);
    assert(entries[1].0 == "messages"@);
    if request.tools.len() > 0 {
        assert(entries[2].0 == "tools"@);
        lemma_lookup_at(entries, 2);
    } else {
        lemma_lookup_none(entries, "tools"@);
    }
    assert(entries[2 + more].0 == "stream"@);
    assert(entries[3 + more].0 == "stream_options"@);
    assert(entries[4 + more].0 == "max_completion_tokens"@);
    assert(entries[5 + more].0 == "prompt_cache_key"@);
    assert(entries[6 + more].0 == "thinking"@);
    lemma_lookup_at(entries, 0);
    lemma_lookup_at(entries, 1);
    lemma_lookup_at(entries, 2 + more);
    lemma_lookup_at(entries, 3 + more);
    lemma_lookup_at(entries, 4 + more);
    lemma_lookup_at(entries, 5 + more);
    lemma_lookup_at(entries, 6 + more);
}

/// The JSON of a request declares every tool in order: under its own name, with
/// its own description and strictness, and with its own schema brought into form.
/// Without tools it does not speak of them.
pub proof fn law_every_tool_is_declared(
    config: KimiInferenceConfigModel,
    settings: KimiRequestSettingsModel,
    messages: Seq<KimiMessageModel>,
    tools: Seq<KimiFunctionToolModel>,
)
    ensures
        kimi_request(config, settings, messages, tools) matches Ok(request) ==> match member(
            request_json(request),
            "tools"@,
        ) {
            None => tools.len() == 0,
            Some(sent) => {
                &&& tools.len() > 0
                &&& sent is Array
                &&& sent->Array_0.len() == tools.len()
                &&& forall|i: int|
                    0 <= i < tools.len() ==> normal_schema((#[trigger] tools[i]).function.parameters) is Ok && declares(
                        sent->Array_0[i],
                        tools[i].function.name,
                        tools[i].function.description,
                        normal_schema(tools[i].function.parameters)->Ok_0,
                        tools[i].function.strict,
                    )
            },
        },
{
    if let Ok(request) = kimi_request(config, settings, messages, tools) {
        lemma_tools(tools, 0, Seq::empty());
        lemma_request_members(request);
        assert forall|i: int| 0 <= i < tools.len() implies normal_schema(
            (#[trigger] tools[i]).function.parameters,
        ) is Ok && declares(
            tools_json(request.tools)->Array_0[i],
            tools[i].function.name,
            tools[i].function.description,
            normal_schema(tools[i].function.parameters)->Ok_0,
            tools[i].function.strict,
        ) by {
            assert(same_tool(tools[i], request.tools[i]));
            lemma_tool(request.tools[i]);
        }
    }
}

// ---- messages ----

/// Whether JSON is the content of a message.
pub open spec fn is_content(json: Option<JsonModel>, content: KimiContentModel) -> bool {
    match content {
        KimiContentModel::Text(text) => json == Some(JsonModel::Text(text)),
        KimiContentModel::Parts(parts) => json == Some(JsonModel::Array(parts)),
    }
}

/// Whether JSON is a call of a function.
pub open spec fn is_call(json: JsonModel, id: Seq<char>, name: Seq<char>, arguments: Seq<char>) -> bool {
    &&& member(json, "id"@) == Some(JsonModel::Text(id))
    &&& member(json, "type"@) == Some(JsonModel::Text("function"@))
    &&& member(json, "function"@) matches Some(function) && {
        &&& member(function, "name"@) == Some(JsonModel::Text(name))
        &&& member(function, "arguments"@) == Some(JsonModel::Text(arguments))
    }
}

/// Whether JSON is a list of calls, one for one, under the ids they are sent by.
pub open spec fn is_calls(json: Option<JsonModel>, calls: Seq<KimiToolCallModel>) -> bool {
    &&& json is Some
    &&& json->0 is Array
    &&& json->0->Array_0.len() == calls.len()
    &&& forall|i: int|
        0 <= i < calls.len() ==> is_call(
            json->0->Array_0[i],
            normal_call_id((#[trigger] calls[i]).id),
            calls[i].function.name,
            calls[i].function.arguments,
        )
}

/// Whether JSON is a message of a conversation as it is sent: what was said stays,
/// and so do the names and the arguments of calls. A message of the model has the
/// first field of its reasoning under one name, be it empty.
pub open spec fn is_message(
    json: JsonModel,
    message: KimiMessageModel,
    messages: Seq<KimiMessageModel>,
    key: Seq<char>,
) -> bool {
    match message {
        KimiMessageModel::System { content } => {
            &&& member(json, "role"@) == Some(JsonModel::Text("system"@))
            &&& is_content(member(json, "content"@), content)
        },
        KimiMessageModel::User { content } => {
            &&& member(json, "role"@) == Some(JsonModel::Text("user"@))
            &&& is_content(member(json, "content"@), content)
        },
        KimiMessageModel::Tool { tool_call_id, content } => {
            &&& member(json, "role"@) == Some(JsonModel::Text("tool"@))
            &&& member(json, "tool_call_id"@) == Some(
                JsonModel::Text(
                    if all_call_ids(messages).contains(tool_call_id) {
                        normal_call_id(tool_call_id)
                    } else {
                        tool_call_id
                    },
                ),
            )
            &&& is_content(member(json, "content"@), content)
        },
        KimiMessageModel::Assistant(said) => {
            &&& member(json, "role"@) == Some(JsonModel::Text("assistant"@))
            &&& key != "content"@ && key != "tool_calls"@ && key != "role"@ && said.reasoning.len() <= 1 ==> {
                &&& member(json, "content"@) == match said.content {
                    Some(text) => if said.tool_calls.len() > 0 && text.len() == 0 {
                        None
                    } else {
                        Some(JsonModel::Text(text))
                    },
                    None => None,
                }
                &&& if said.tool_calls.len() > 0 {
                    is_calls(member(json, "tool_calls"@), said.tool_calls)
                } else {
                    member(json, "tool_calls"@) is None
                }
                &&& member(json, key) == Some(
                    if said.reasoning.len() > 0 {
                        said.reasoning[0].1
                    } else {
                        JsonModel::Text(Seq::empty())
                    },
                )
            }
        },
    }
}

proof fn lemma_call(call: KimiToolCallModel)
    ensures
        is_call(call_json(call), call.id, call.function.name, call.function.arguments),
{
    lemma_part_names();
    let entries = call_json(call)->Object_0;
    lemma_lookup_at(entries, 0);
    lemma_lookup_at(entries, 1);
    lemma_lookup_at(entries, 2);
    let fields = entries[2].1->Object_0;
    lemma_lookup_at(fields, 0);
    lemma_lookup_at(fields, 1);
}

proof fn lemma_said_json(said: KimiAssistantMessageModel)
    ensures
        ({
            let json = message_json(KimiMessageModel::Assistant(said));
            &&& member(json, "role"@) == Some(JsonModel::Text("assistant"@))
            &&& member(json, "content"@) == match said.content {
                Some(text) => Some(JsonModel::Text(text)),
                None => lookup(said.reasoning, "content"@),
            }
            &&& member(json, "tool_calls"@) == if said.tool_calls.len() > 0 {
                Some(JsonModel::Array(Seq::new(said.tool_calls.len(), |i: int| call_json(said.tool_calls[i]))))
            } else {
                lookup(said.reasoning, "tool_calls"@)
            }
            &&& forall|name: Seq<char>|
                name != "role"@ && name != "content"@ && name != "tool_calls"@ ==> #[trigger] member(json, name)
                    == lookup(said.reasoning, name)
        }),
{
    lemma_message_names();
    let json = message_json(KimiMessageModel::Assistant(said));
    let first = seq![("role"@, JsonModel::Text("assistant"@))];
    let second = match said.content {
        Some(text) => first.push(("content"@, JsonModel::Text(text))),
        None => first,
    };
    let calls = JsonModel::Array(Seq::new(said.tool_calls.len(), |i: int| call_json(said.tool_calls[i])));
    let third = if said.tool_calls.len() > 0 {
        second.push(("tool_calls"@, calls))
    } else {
        second
    };
    assert(json->Object_0 == third + said.reasoning);
    assert forall|name: Seq<char>| #[trigger] member(json, name) == match lookup(third, name) {
        Some(value) => Some(value),
        None => lookup(said.reasoning, name),
    } by {
        lemma_lookup_sum(third, said.reasoning, name);
    }
    assert forall|name: Seq<char>| #[trigger] lookup(third, name) == if name == "role"@ {
        Some(JsonModel::Text("assistant"@))
    } else if name == "content"@ && said.content is Some {
        Some(JsonModel::Text(said.content->0))
    } else if name == "tool_calls"@ && said.tool_calls.len() > 0 {
        Some(calls)
    } else {
        None
    } by {
        if name == "role"@ {
            lemma_lookup_at(third, 0);
        } else if name == "content"@ && said.content is Some {
            lemma_lookup_at(third, 1);
        } else if name == "tool_calls"@ && said.tool_calls.len() > 0 {
            lemma_lookup_at(third, third.len() - 1);
        } else {
            lemma_lookup_none(third, name);
        }
    }
    assert(member(json, "role"@) == Some(JsonModel::Text("assistant"@)));
    assert(member(json, "content"@) == match lookup(third, "content"@) {
        Some(value) => Some(value),
        None => lookup(said.reasoning, "content"@),
    });
    assert(member(json, "tool_calls"@) == match lookup(third, "tool_calls"@) {
        Some(value) => Some(value),
        None => lookup(said.reasoning, "tool_calls"@),
    });
}

proof fn lemma_message(message: KimiMessageModel, messages: Seq<KimiMessageModel>, key: Seq<char>)
    ensures
        is_message(message_json(normal_message(message, all_call_ids(messages), key)), message, messages, key),
{
    lemma_message_names();
    let sent = normal_message(message, all_call_ids(messages), key);
    match message {
        KimiMessageModel::Assistant(said) => {
            let now = normal_assistant(said, key);
            lemma_said_json(now);
            let json = message_json(sent);
            if key != "content"@ && key != "tool_calls"@ && key != "role"@ && said.reasoning.len() <= 1 {
                let value = if said.reasoning.len() > 0 {
                    said.reasoning[0].1
                } else {
                    JsonModel::Text(Seq::empty())
                };
                let none = Seq::<(Seq<char>, JsonModel)>::empty();
                if said.reasoning.len() > 0 {
                    assert(said.reasoning.drop_first() =~= none);
                } else {
                    assert(said.reasoning =~= none);
                }
                assert(now.reasoning == put(none, key, value));
                law_put_then_lookup(none, key, value, "content"@);
                law_put_then_lookup(none, key, value, "tool_calls"@);
                assert(member(json, key) == lookup(now.reasoning, key));
                if let Some(text) = said.content {
                    if text.len() == 0 {
                        assert(text =~= Seq::<char>::empty());
                    }
                }
                if said.tool_calls.len() > 0 {
                    let list = member(json, "tool_calls"@)->0->Array_0;
                    assert forall|i: int| 0 <= i < said.tool_calls.len() implies is_call(
                        list[i],
                        normal_call_id((#[trigger] said.tool_calls[i]).id),
                        said.tool_calls[i].function.name,
                        said.tool_calls[i].function.arguments,
                    ) by {
                        lemma_call(now.tool_calls[i]);
                    }
                }
            }
        },
        KimiMessageModel::Tool { tool_call_id, .. } => {
            let entries = message_json(sent)->Object_0;
            lemma_place(all_call_ids(messages), tool_call_id, 0);
            lemma_lookup_at(entries, 0);
            lemma_lookup_at(entries, 1);
            lemma_lookup_at(entries, 2);
        },
        _ => {
            let entries = message_json(sent)->Object_0;
            lemma_lookup_at(entries, 0);
            lemma_lookup_at(entries, 1);
        },
    }
}

/// The JSON of a request holds every message in order and as it is, but for ids of
/// calls that were too long and for the name of the reasoning.
pub proof fn law_every_message_is_kept(
    config: KimiInferenceConfigModel,
    settings: KimiRequestSettingsModel,
    messages: Seq<KimiMessageModel>,
    tools: Seq<KimiFunctionToolModel>,
)
    ensures
        kimi_request(config, settings, messages, tools) matches Ok(request) ==> {
            let sent = member(request_json(request), "messages"@);
            &&& sent is Some
            &&& sent->0 is Array
            &&& sent->0->Array_0.len() == messages.len()
            &&& forall|i: int|
                0 <= i < messages.len() ==> is_message(
                    sent->0->Array_0[i],
                    #[trigger] messages[i],
                    messages,
                    shared_reasoning_key(messages, settings.reasoning_key),
                )
        },
{
    if let Ok(request) = kimi_request(config, settings, messages, tools) {
        lemma_request_members(request);
        let key = shared_reasoning_key(messages, settings.reasoning_key);
        let sent = member(request_json(request), "messages"@)->0->Array_0;
        assert forall|i: int| 0 <= i < messages.len() implies is_message(
            sent[i],
            #[trigger] messages[i],
            messages,
            key,
        ) by {
            lemma_message(messages[i], messages, key);
        }
    }
}

/// The reasoning of a conversation stands under the name that was chosen; where
/// none was, under that of the last message of the model that has any; failing
/// that, under the usual one.
pub proof fn law_the_reasoning_key_is_the_last(messages: Seq<KimiMessageModel>, at: int)
    ensures
        shared_reasoning_key(messages, Some(KimiReasoningKey::ReasoningContent)) == "reasoning_content"@,
        shared_reasoning_key(messages, Some(KimiReasoningKey::Reasoning)) == "reasoning"@,
        shared_reasoning_key(messages, Some(KimiReasoningKey::ReasoningDetails)) == "reasoning_details"@,
        0 <= at < messages.len() && reasons(messages[at]) && (forall|i: int|
            at < i < messages.len() ==> !reasons(#[trigger] messages[i])) ==> shared_reasoning_key(messages, None)
            == messages[at]->Assistant_0.reasoning[0].0,
        (forall|i: int| 0 <= i < messages.len() ==> !reasons(#[trigger] messages[i])) ==> shared_reasoning_key(
            messages,
            None,
        ) == "reasoning_content"@,
{
    lemma_last_key(messages, messages.len() as int, at);
}

/// Whether a message of the model has reasoning.
pub open spec fn reasons(message: KimiMessageModel) -> bool {
    message is Assistant && message->Assistant_0.reasoning.len() > 0
}

proof fn lemma_last_key(messages: Seq<KimiMessageModel>, below: int, at: int)
    requires
        0 <= below <= messages.len(),
    ensures
        0 <= at < below && reasons(messages[at]) && (forall|i: int|
            at < i < below ==> !reasons(#[trigger] messages[i])) ==> last_reasoning_key(messages, below) == Some(
            messages[at]->Assistant_0.reasoning[0].0,
        ),
        (forall|i: int| 0 <= i < below ==> !reasons(#[trigger] messages[i])) ==> last_reasoning_key(messages, below)
            is None,
    decreases below,
{
    if below > 0 {
        lemma_last_key(messages, below - 1, at);
    }
}

// ---- settings ----

/// A request names the model that is wired, asks for a stream with usage, keeps
/// thinking enabled for all turns with the effort that was asked for, has the key
/// of its prompt cache, and asks for as many tokens as are left beside the input,
/// one where nothing is left, and no more than the model gives.
pub proof fn law_settings_are_kept(
    config: KimiInferenceConfigModel,
    settings: KimiRequestSettingsModel,
    messages: Seq<KimiMessageModel>,
    tools: Seq<KimiFunctionToolModel>,
)
    ensures
        kimi_request(config, settings, messages, tools) matches Ok(request) ==> {
            let json = request_json(request);
            let thinking = member(json, "thinking"@);
            let limit = member(json, "max_completion_tokens"@);
            &&& member(json, "model"@) == Some(JsonModel::Text(config.wire_model))
            &&& member(json, "stream"@) == Some(JsonModel::Bool(true))
            &&& member(json, "stream_options"@) is Some
            &&& member(member(json, "stream_options"@)->0, "include_usage"@) == Some(JsonModel::Bool(true))
            &&& member(json, "prompt_cache_key"@) == Some(JsonModel::Text(settings.prompt_cache_key))
            &&& thinking is Some
            &&& member(thinking->0, "type"@) == Some(JsonModel::Text("enabled"@))
            &&& member(thinking->0, "keep"@) == Some(JsonModel::Text("all"@))
            &&& member(thinking->0, "effort"@) == match settings.thinking_effort {
                None => None,
                Some(KimiThinkingEffort::Low) => Some(JsonModel::Text("low"@)),
                Some(KimiThinkingEffort::High) => Some(JsonModel::Text("high"@)),
                Some(KimiThinkingEffort::Max) => Some(JsonModel::Text("max"@)),
            }
            &&& limit == Some(JsonModel::Number(JsonNumberModel::Unsigned(request.max_completion_tokens)))
            &&& settings.input_estimate is FinalSerialized ==> {
                let tokens = estimated_tokens(request.messages, request.tools);
                &&& tokens < settings.context_window && settings.context_window - tokens <= config.max_output_tokens
                    ==> request.max_completion_tokens == settings.context_window - tokens
                &&& tokens < settings.context_window && settings.context_window - tokens > config.max_output_tokens
                    ==> request.max_completion_tokens == config.max_output_tokens
                &&& tokens >= settings.context_window ==> request.max_completion_tokens == 1
            }
            &&& settings.input_estimate matches KimiInputEstimate::Fixed(tokens) ==> {
                &&& tokens < settings.context_window && settings.context_window - tokens <= config.max_output_tokens
                    ==> request.max_completion_tokens == settings.context_window - tokens
                &&& tokens < settings.context_window && settings.context_window - tokens > config.max_output_tokens
                    ==> request.max_completion_tokens == config.max_output_tokens
                &&& tokens >= settings.context_window ==> request.max_completion_tokens == 1
            }
        },
{
    if let Ok(request) = kimi_request(config, settings, messages, tools) {
        lemma_request_members(request);
        lemma_setting_names();
        lemma_lookup_at(usage_option()->Object_0, 0);
        let entries = seq![("keep"@, JsonModel::Text("all"@)), ("type"@, JsonModel::Text("enabled"@))];
        lemma_lookup_at(entries, 0);
        lemma_lookup_at(entries, 1);
        lemma_lookup_none(entries, "effort"@);
        if let Some(effort) = settings.thinking_effort {
            law_put_then_lookup(entries, "effort"@, JsonModel::Text(effort.label()), "keep"@);
            law_put_then_lookup(entries, "effort"@, JsonModel::Text(effort.label()), "type"@);
        }
    }
}

proof fn lemma_setting_names()
    ensures
        "keep"@ != "type"@,
        "keep"@ != "effort"@,
        "type"@ != "effort"@,
{
    reveal_strlit("keep");
    reveal_strlit("type");
    reveal_strlit("effort");
    assert("keep"@[0] != "type"@[0]);
    assert("keep"@.len() != "effort"@.len());
    assert("type"@.len() != "effort"@.len());
}

/// A request is built if and only if its profile is one of this protocol, with a
/// model, a window and a limit, whose name leaves room for what marks its
/// reasoning, its cache key has a length that is permitted, an effort comes if and
/// only if the model takes one, no two calls are sent under one id, and every
/// schema has a form.
pub proof fn law_when_a_request_is_built(
    config: KimiInferenceConfigModel,
    settings: KimiRequestSettingsModel,
    messages: Seq<KimiMessageModel>,
    tools: Seq<KimiFunctionToolModel>,
)
    ensures
        ({
            let built = kimi_request(config, settings, messages, tools);
            let usable = is_usable(config, settings.context_window);
            let keyed = settings.prompt_cache_key.len() > 0 && byte_length(settings.prompt_cache_key) <= 256;
            let unsaid = config.thinking is RequiredWithEffort && settings.thinking_effort is None;
            let unasked = config.thinking is Required && settings.thinking_effort is Some;
            let formed = forall|i: int|
                0 <= i < tools.len() ==> normal_schema((#[trigger] tools[i]).function.parameters) is Ok;
            &&& built is Ok <==> usable && keyed && !unsaid && !unasked && normal_messages(
                messages,
                settings.reasoning_key,
            ) is Ok && formed
            &&& !usable <==> built == Err::<KimiChatRequestModel, _>(KimiRequestErrorModel::InvalidProfile)
            &&& usable && !keyed <==> built == Err::<KimiChatRequestModel, _>(
                KimiRequestErrorModel::InvalidPromptCacheKey,
            )
            &&& usable && keyed && unsaid <==> built == Err::<KimiChatRequestModel, _>(
                KimiRequestErrorModel::MissingThinkingEffort,
            )
            &&& usable && keyed && unasked <==> built == Err::<KimiChatRequestModel, _>(
                KimiRequestErrorModel::UnsupportedThinkingEffort,
            )
        }),
{
    lemma_tools(tools, 0, Seq::empty());
    lemma_tool_errors(tools, 0, Seq::empty());
    let model = config.wire_model;
    assert(is_usable(config, settings.context_window) <==> valid_profile(config, settings.context_window)) by {
        let one = marker_json(model, KimiReasoningKey::ReasoningContent);
        let two = marker_json(model, KimiReasoningKey::Reasoning);
        let three = marker_json(model, KimiReasoningKey::ReasoningDetails);
        assert(marker_text(model, KimiReasoningKey::ReasoningContent) == REPLAY_PREFIX@ + json_print(one));
        assert(marker_text(model, KimiReasoningKey::Reasoning) == REPLAY_PREFIX@ + json_print(two));
        assert(marker_text(model, KimiReasoningKey::ReasoningDetails) == REPLAY_PREFIX@ + json_print(three));
    }
}

/// Whether a profile is one of this protocol: with a model whose name has a length that
/// is permitted and leaves room for what marks its reasoning under each of its names,
/// with a limit for the output and with a window.
pub open spec fn is_usable(config: KimiInferenceConfigModel, context_window: u64) -> bool {
    &&& config.wire_api == WireApi::ChatCompletions
    &&& config.dialect == InferenceDialect::Kimi
    &&& config.wire_model.len() > 0
    &&& byte_length(config.wire_model) <= 256
    &&& forall|key: KimiReasoningKey|
        byte_length(REPLAY_PREFIX@ + json_print(#[trigger] marker_json(config.wire_model, key))) <= 512
    &&& config.max_output_tokens > 0
    &&& context_window > 0
}

proof fn lemma_tool_errors(tools: Seq<KimiFunctionToolModel>, at: int, done: Seq<KimiFunctionToolModel>)
    ensures
        normal_tools_from(tools, at, done) matches Err(error) ==> error is ToolSchema,
    decreases tools.len() - at,
{
    if 0 <= at < tools.len() {
        if let Ok(parameters) = normal_schema(tools[at].function.parameters) {
            lemma_tool_errors(
                tools,
                at + 1,
                done.push(
                    KimiFunctionToolModel {
                        function: KimiFunctionDefinitionModel { parameters, ..tools[at].function },
                        ..tools[at]
                    },
                ),
            );
        }
    }
}

proof fn lemma_apart(ids: Seq<Seq<char>>, at: int, normal: Seq<Seq<char>>)
    requires
        0 <= at <= ids.len(),
        normal.len() == at,
        forall|i: int| 0 <= i < at ==> #[trigger] normal[i] == normal_call_id(ids[i]),
        forall|i: int, j: int|
            0 <= i < at && 0 <= j < at && ids[i] != ids[j] ==> #[trigger] normal_call_id(ids[i]) != #[trigger] normal_call_id(
                ids[j],
            ),
    ensures
        collision_from(ids, at, normal) is None ==> forall|i: int, j: int|
            0 <= i < ids.len() && 0 <= j < ids.len() && ids[i] != ids[j] ==> #[trigger] normal_call_id(ids[i])
                != #[trigger] normal_call_id(ids[j]),
        collision_from(ids, at, normal) matches Some(id) ==> exists|i: int, j: int|
            0 <= i < ids.len() && 0 <= j < ids.len() && ids[i] != ids[j] && id == #[trigger] normal_call_id(ids[i])
                && id == #[trigger] normal_call_id(ids[j]),
    decreases ids.len() - at,
{
    if at < ids.len() {
        let id = normal_call_id(ids[at]);
        lemma_place(normal, id, 0);
        lemma_place(ids.take(at), ids[at], 0);
        if place(normal, id) is Some && place(ids.take(at), ids[at]) is None {
            let i = place(normal, id)->0;
            assert(normal[i] == normal_call_id(ids[i]));
            assert(ids.take(at)[i] == ids[i]);
            assert(ids[i] != ids[at] && id == normal_call_id(ids[i]) && id == normal_call_id(ids[at]));
        } else {
            let more = normal.push(id);
            assert forall|i: int, j: int|
                0 <= i < at + 1 && 0 <= j < at + 1 && ids[i] != ids[j] implies #[trigger] normal_call_id(ids[i])
                != #[trigger] normal_call_id(ids[j]) by {
                if i == at || j == at {
                    let k = if i == at {
                        j
                    } else {
                        i
                    };
                    assert(normal[k] == normal_call_id(ids[k]));
                    if place(normal, id) is Some {
                        let twin = place(ids.take(at), ids[at])->0;
                        assert(ids.take(at)[twin] == ids[twin]);
                        assert(normal_call_id(ids[twin]) != normal_call_id(ids[k]));
                    }
                }
            }
            lemma_apart(ids, at + 1, more);
        }
    }
}

/// Two calls of a conversation that have ids of their own are sent under ids of
/// their own. A conversation is refused only where two would not be, and under
/// the id that they would share.
pub proof fn law_call_ids_stay_apart(
    messages: Seq<KimiMessageModel>,
    selected: Option<KimiReasoningKey>,
)
    ensures
        normal_messages(messages, selected) is Ok ==> forall|i: int, j: int|
            0 <= i < all_call_ids(messages).len() && 0 <= j < all_call_ids(messages).len() && all_call_ids(messages)[i]
                != all_call_ids(messages)[j] ==> #[trigger] normal_call_id(all_call_ids(messages)[i])
                != #[trigger] normal_call_id(all_call_ids(messages)[j]),
        normal_messages(messages, selected) matches Err(error) ==> error is DuplicateToolCallId && exists|
            i: int,
            j: int,
        |
            0 <= i < all_call_ids(messages).len() && 0 <= j < all_call_ids(messages).len() && all_call_ids(messages)[i]
                != all_call_ids(messages)[j] && error->DuplicateToolCallId_0 == #[trigger] normal_call_id(
                all_call_ids(messages)[i],
            ) && error->DuplicateToolCallId_0 == #[trigger] normal_call_id(all_call_ids(messages)[j]),
{
    lemma_apart(all_call_ids(messages), 0, Seq::empty());
}

// ---- reasoning that comes back ----

proof fn lemma_marker_fields()
    ensures
        "dialect"@ != "key"@,
        "dialect"@ != "model"@,
        "dialect"@ != "version"@,
        "key"@ != "model"@,
        "key"@ != "version"@,
        "model"@ != "version"@,
{
    reveal_strlit("dialect");
    reveal_strlit("key");
    reveal_strlit("model");
    reveal_strlit("version");
    assert("dialect"@.len() != "key"@.len());
    assert("dialect"@.len() != "model"@.len());
    assert("dialect"@[0] != "version"@[0]);
    assert("key"@.len() != "model"@.len());
    assert("key"@.len() != "version"@.len());
    assert("model"@.len() != "version"@.len());
}

proof fn lemma_keys()
    ensures
        "reasoning_content"@ != "reasoning"@,
        "reasoning_content"@ != "reasoning_details"@,
        "reasoning"@ != "reasoning_details"@,
{
    reveal_strlit("reasoning_content");
    reveal_strlit("reasoning");
    reveal_strlit("reasoning_details");
    assert("reasoning_content"@.len() != "reasoning"@.len());
    assert("reasoning_content"@[10] != "reasoning_details"@[10]);
    assert("reasoning"@.len() != "reasoning_details"@.len());
}

/// Whether JSON marks reasoning as that of a model, under a name, and says nothing
/// else.
pub open spec fn marks(json: JsonModel, model: Seq<char>, key: KimiReasoningKey) -> bool {
    &&& json is Object
    &&& number_at(json, "version"@, 1)
    &&& text_at(json, "dialect"@, Some("kimi_chat"@))
    &&& text_at(json, "model"@, Some(model))
    &&& text_at(
        json,
        "key"@,
        Some(
            match key {
                KimiReasoningKey::ReasoningContent => "reasoning_content"@,
                KimiReasoningKey::Reasoning => "reasoning"@,
                KimiReasoningKey::ReasoningDetails => "reasoning_details"@,
            },
        ),
    )
    &&& forall|i: int|
        0 <= i < json->Object_0.len() ==> {
            let name = (#[trigger] json->Object_0[i]).0;
            name == "version"@ || name == "dialect"@ || name == "model"@ || name == "key"@
        }
}

/// What is written to mark reasoning marks it, and what marks it is read as the model
/// and the name it marks.
pub proof fn law_markers_are_read_as_written(json: JsonModel, model: Seq<char>, key: KimiReasoningKey)
    ensures
        marks(marker_json(model, key), model, key),
        marks(json, model, key) ==> marker_of(Ok(json)) == Some(ReplayMarkerModel { model, key }),
{
    lemma_marker_fields();
    lemma_keys();
    let entries = marker_json(model, key)->Object_0;
    lemma_lookup_at(entries, 0);
    lemma_lookup_at(entries, 1);
    lemma_lookup_at(entries, 2);
    lemma_lookup_at(entries, 3);
    assert forall|i: int| 0 <= i < entries.len() implies {
        let name = (#[trigger] entries[i]).0;
        name == "version"@ || name == "dialect"@ || name == "model"@ || name == "key"@
    } by {
        assert(i == 0 || i == 1 || i == 2 || i == 3);
    }
    if marks(json, model, key) {
        assert(only_marker_names(json->Object_0)) by {
            assert forall|i: int| 0 <= i < json->Object_0.len() implies marker_name(
                (#[trigger] json->Object_0[i]).0,
            ) by {}
        }
    }
}

/// A marker of another version or another dialect marks nothing, and neither does one
/// that is too long or does not start as markers do.
pub proof fn law_other_markers_mark_nothing(json: JsonModel, marker: Seq<char>)
    requires
        json is Object,
    ensures
        !number_at(json, "version"@, 1) ==> marker_of(Ok(json)) is None,
        !text_at(json, "dialect"@, Some("kimi_chat"@)) ==> marker_of(Ok(json)) is None,
        byte_length(marker) > MAX_REPLAY_MARKER_LEN ==> marker_read(marker) is None,
        !begins_with(marker, REPLAY_PREFIX@) ==> marker_read(marker) is None,
{
}

/// A message of the model is sent with its reasoning under the name that it came by
/// where the same model reads it, without it where another does, and with empty
/// reasoning where it had none.
pub proof fn law_reasoning_goes_back_to_its_model(
    reasoning: KimiReasoningModel,
    wire_model: Seq<char>,
    name: Seq<char>,
)
    ensures
        ({
            let fields = reasoning_fields(Some(reasoning), wire_model);
            let none = reasoning_fields(None, wire_model);
            let marker = marker_read(reasoning.marker);
            &&& none matches Ok(fields) && lookup(fields, name) == if name == "reasoning_content"@ {
                Some(JsonModel::Text(Seq::empty()))
            } else {
                None
            }
            &&& marker is None ==> fields == Err::<Seq<(Seq<char>, JsonModel)>, _>(
                KimiRequestErrorModel::MalformedReplayMarker,
            )
            &&& marker is Some && marker->0.model != wire_model ==> fields is Ok && fields->Ok_0.len() == 0
            &&& marker is Some && marker->0.model == wire_model ==> fields is Ok && lookup(fields->Ok_0, name)
                == if name == marker->0.key.label() {
                Some(JsonModel::Text(reasoning.text))
            } else {
                None
            }
        }),
{
    let empty = Seq::<(Seq<char>, JsonModel)>::empty();
    lemma_lookup_none(empty, name);
    law_put_then_lookup(empty, "reasoning_content"@, JsonModel::Text(Seq::empty()), name);
    if let Some(marker) = marker_read(reasoning.marker) {
        law_put_then_lookup(empty, marker.key.label(), JsonModel::Text(reasoning.text), name);
    }
}

// ---- ids and sizes ----

/// A call id that fits is sent as it is. One that does not is sent as a start of it, a
/// hyphen and sixteen digits.
pub proof fn law_long_ids_keep_their_start(call_id: Seq<char>)
    ensures
        ({
            let sent = normal_call_id(call_id);
            let start = sent.len() - 17;
            &&& byte_length(call_id) <= 64 ==> sent == call_id
            &&& byte_length(call_id) > 64 ==> {
                &&& 0 <= start <= call_id.len()
                &&& sent.take(start) == call_id.take(start)
                &&& byte_length(sent.take(start)) <= 47
                &&& sent[start] == '-'
            }
        }),
{
    if byte_length(call_id) > 64 {
        reveal_strlit("-");
        let start = fitting_prefix(call_id, CALL_ID_PREFIX_LEN as nat);
        lemma_fitting(call_id, 0, CALL_ID_PREFIX_LEN as int);
        let end = fitting_end(call_id, 0, CALL_ID_PREFIX_LEN as int);
        assert(start =~= call_id.subrange(0, end));
        lemma_digits(text_hash(call_id) as nat, 16, 16);
        let sent = normal_call_id(call_id);
        assert(sent.len() == end + 17);
        assert(sent.take(end) =~= call_id.take(end));
        assert(sent.take(end) =~= start);
    }
}

proof fn lemma_hashed(bytes: Seq<u8>, more: u8, at: int, hash: u64)
    requires
        0 <= at <= bytes.len(),
    ensures
        hashed_from(bytes.push(more), at, hash) == (hashed_from(bytes, at, hash) ^ (more as u64)).wrapping_mul(
            0x100000001b3,
        ),
    decreases bytes.len() - at,
{
    let all = bytes.push(more);
    if at < bytes.len() {
        assert(all[at] == bytes[at]);
        lemma_hashed(bytes, more, at + 1, (hash ^ (bytes[at] as u64)).wrapping_mul(0x100000001b3));
    } else {
        reveal_with_fuel(hashed_from, 2);
        assert(all[at] == more);
    }
}

/// The hash of bytes grows byte by byte: each is mixed into it, and the whole is
/// multiplied by the prime of the hash.
pub proof fn law_the_hash_takes_every_byte(bytes: Seq<u8>, more: u8, hash: u64)
    ensures
        hashed_from(bytes.push(more), 0, hash) == (hashed_from(bytes, 0, hash) ^ (more as u64)).wrapping_mul(
            0x100000001b3,
        ),
        hashed_from(Seq::empty(), 0, hash) == hash,
        text_hash(Seq::empty()) == 0xcbf29ce484222325,
{
    lemma_hashed(bytes, more, 0, hash);
}

/// The size of a request is estimated from the JSON of its messages and its tools, a
/// token for every four bytes that are begun.
pub proof fn law_the_estimate_covers_the_request(
    messages: Seq<KimiMessageModel>,
    tools: Seq<KimiFunctionToolModel>,
)
    ensures
        ({
            let list = Seq::new(messages.len(), |i: int| message_json(messages[i]));
            let declared = Seq::new(tools.len(), |i: int| tool_json(tools[i]));
            let bytes = byte_length(
                json_print(JsonModel::Array(seq![JsonModel::Array(list), JsonModel::Array(declared)])),
            );
            let tokens = estimated_tokens(messages, tools);
            4 * tokens >= bytes && (bytes > 0 ==> 4 * (tokens - 1) < bytes)
        }),
{
}

} // verus!
