//! How the events of a stream are read.
use crate::claude_code::types::Usage;
use crate::claude_code::wire::{
    delta_of, event_of, start_block_of, start_message_of, usage_of, DeltaModel, StartBlockModel,
    StartMessageModel, WireEventModel,
};
use crate::json::{member, JsonModel};
use crate::read::{count_at, number_at, text_at};
use vstd::prelude::*;

verus! {

proof fn lemma_event_names()
    ensures
        "ping"@ != "message_start"@,
        "ping"@ != "content_block_start"@,
        "ping"@ != "content_block_delta"@,
        "ping"@ != "content_block_stop"@,
        "ping"@ != "message_delta"@,
        "ping"@ != "message_stop"@,
        "ping"@ != "error"@,
        "message_start"@ != "content_block_start"@,
        "message_start"@ != "content_block_delta"@,
        "message_start"@ != "content_block_stop"@,
        "message_start"@ != "message_delta"@,
        "message_start"@ != "message_stop"@,
        "message_start"@ != "error"@,
        "content_block_start"@ != "content_block_delta"@,
        "content_block_start"@ != "content_block_stop"@,
        "content_block_start"@ != "message_delta"@,
        "content_block_start"@ != "message_stop"@,
        "content_block_start"@ != "error"@,
        "content_block_delta"@ != "content_block_stop"@,
        "content_block_delta"@ != "message_delta"@,
        "content_block_delta"@ != "message_stop"@,
        "content_block_delta"@ != "error"@,
        "content_block_stop"@ != "message_delta"@,
        "content_block_stop"@ != "message_stop"@,
        "content_block_stop"@ != "error"@,
        "message_delta"@ != "message_stop"@,
        "message_delta"@ != "error"@,
        "message_stop"@ != "error"@,
{
    reveal_strlit("ping");
    reveal_strlit("message_start");
    reveal_strlit("content_block_start");
    reveal_strlit("content_block_delta");
    reveal_strlit("content_block_stop");
    reveal_strlit("message_delta");
    reveal_strlit("message_stop");
    reveal_strlit("error");
    assert("ping"@.len() != "message_start"@.len());
    assert("ping"@.len() != "content_block_start"@.len());
    assert("ping"@.len() != "content_block_delta"@.len());
    assert("ping"@.len() != "content_block_stop"@.len());
    assert("ping"@.len() != "message_delta"@.len());
    assert("ping"@.len() != "message_stop"@.len());
    assert("ping"@.len() != "error"@.len());
    assert("message_start"@.len() != "content_block_start"@.len());
    assert("message_start"@.len() != "content_block_delta"@.len());
    assert("message_start"@.len() != "content_block_stop"@.len());
    assert("message_start"@[8] != "message_delta"@[8]);
    assert("message_start"@.len() != "message_stop"@.len());
    assert("message_start"@.len() != "error"@.len());
    assert("content_block_start"@[14] != "content_block_delta"@[14]);
    assert("content_block_start"@.len() != "content_block_stop"@.len());
    assert("content_block_start"@.len() != "message_delta"@.len());
    assert("content_block_start"@.len() != "message_stop"@.len());
    assert("content_block_start"@.len() != "error"@.len());
    assert("content_block_delta"@.len() != "content_block_stop"@.len());
    assert("content_block_delta"@.len() != "message_delta"@.len());
    assert("content_block_delta"@.len() != "message_stop"@.len());
    assert("content_block_delta"@.len() != "error"@.len());
    assert("content_block_stop"@.len() != "message_delta"@.len());
    assert("content_block_stop"@.len() != "message_stop"@.len());
    assert("content_block_stop"@.len() != "error"@.len());
    assert("message_delta"@.len() != "message_stop"@.len());
    assert("message_delta"@.len() != "error"@.len());
    assert("message_stop"@.len() != "error"@.len());
}

proof fn lemma_block_names()
    ensures
        "text"@ != "thinking"@,
        "text"@ != "redacted_thinking"@,
        "text"@ != "tool_use"@,
        "thinking"@ != "redacted_thinking"@,
        "thinking"@ != "tool_use"@,
        "redacted_thinking"@ != "tool_use"@,
{
    reveal_strlit("text");
    reveal_strlit("thinking");
    reveal_strlit("redacted_thinking");
    reveal_strlit("tool_use");
    assert("text"@.len() != "thinking"@.len());
    assert("text"@.len() != "redacted_thinking"@.len());
    assert("text"@.len() != "tool_use"@.len());
    assert("thinking"@.len() != "redacted_thinking"@.len());
    assert("thinking"@[1] != "tool_use"@[1]);
    assert("redacted_thinking"@.len() != "tool_use"@.len());
}

proof fn lemma_delta_names()
    ensures
        "text_delta"@ != "thinking_delta"@,
        "text_delta"@ != "signature_delta"@,
        "text_delta"@ != "input_json_delta"@,
        "thinking_delta"@ != "signature_delta"@,
        "thinking_delta"@ != "input_json_delta"@,
        "signature_delta"@ != "input_json_delta"@,
{
    reveal_strlit("text_delta");
    reveal_strlit("thinking_delta");
    reveal_strlit("signature_delta");
    reveal_strlit("input_json_delta");
    assert("text_delta"@.len() != "thinking_delta"@.len());
    assert("text_delta"@.len() != "signature_delta"@.len());
    assert("text_delta"@.len() != "input_json_delta"@.len());
    assert("thinking_delta"@.len() != "signature_delta"@.len());
    assert("thinking_delta"@.len() != "input_json_delta"@.len());
    assert("signature_delta"@.len() != "input_json_delta"@.len());
}

/// Whether JSON is a block at its start.
pub open spec fn is_block(json: JsonModel, block: StartBlockModel) -> bool {
    &&& json is Object
    &&& match block {
        StartBlockModel::Text { text } => {
            &&& text_at(json, "type"@, Some("text"@))
            &&& text_at(json, "text"@, Some(text))
        },
        StartBlockModel::Thinking { thinking } => {
            &&& text_at(json, "type"@, Some("thinking"@))
            &&& text_at(json, "thinking"@, Some(thinking))
        },
        StartBlockModel::RedactedThinking { data } => {
            &&& text_at(json, "type"@, Some("redacted_thinking"@))
            &&& text_at(json, "data"@, Some(data))
        },
        StartBlockModel::ToolUse { id, name, input } => {
            &&& text_at(json, "type"@, Some("tool_use"@))
            &&& text_at(json, "id"@, Some(id))
            &&& text_at(json, "name"@, Some(name))
            &&& member(json, "input"@) == Some(input)
        },
    }
}

/// Whether JSON is a part of a block.
pub open spec fn is_delta(json: JsonModel, delta: DeltaModel) -> bool {
    &&& json is Object
    &&& match delta {
        DeltaModel::Text { text } => {
            &&& text_at(json, "type"@, Some("text_delta"@))
            &&& text_at(json, "text"@, Some(text))
        },
        DeltaModel::Thinking { thinking } => {
            &&& text_at(json, "type"@, Some("thinking_delta"@))
            &&& text_at(json, "thinking"@, Some(thinking))
        },
        DeltaModel::Signature { signature } => {
            &&& text_at(json, "type"@, Some("signature_delta"@))
            &&& text_at(json, "signature"@, Some(signature))
        },
        DeltaModel::InputJson { partial_json } => {
            &&& text_at(json, "type"@, Some("input_json_delta"@))
            &&& text_at(json, "partial_json"@, Some(partial_json))
        },
    }
}

/// Whether JSON tells what was used.
pub open spec fn is_usage(json: JsonModel, usage: Usage) -> bool {
    &&& json is Object
    &&& number_at(json, "input_tokens"@, usage.input_tokens)
    &&& number_at(json, "output_tokens"@, usage.output_tokens)
    &&& count_at(json, "cache_creation_input_tokens"@, usage.cache_creation_input_tokens)
    &&& count_at(json, "cache_read_input_tokens"@, usage.cache_read_input_tokens)
    &&& count_at(json, "thinking_tokens"@, usage.thinking_tokens)
    &&& match usage.cache_creation {
        None => member(json, "cache_creation"@) is None || member(json, "cache_creation"@) == Some(JsonModel::Null),
        Some(written) => member(json, "cache_creation"@) matches Some(part) && part is Object && number_at(
            part,
            "ephemeral_5m_input_tokens"@,
            written.ephemeral_5m_input_tokens,
        ) && number_at(part, "ephemeral_1h_input_tokens"@, written.ephemeral_1h_input_tokens),
    }
}

/// Whether JSON is a message at its start.
pub open spec fn is_message(json: JsonModel, message: StartMessageModel) -> bool {
    &&& json is Object
    &&& text_at(json, "id"@, Some(message.id))
    &&& text_at(json, "type"@, Some(message.kind))
    &&& text_at(json, "role"@, Some(message.role))
    &&& text_at(json, "model"@, Some(message.model))
    &&& member(json, "content"@) == Some(JsonModel::Array(message.content))
    &&& member(json, "stop_reason"@) == Some(message.stop_reason)
    &&& member(json, "stop_sequence"@) == Some(message.stop_sequence)
    &&& member(json, "usage"@) matches Some(usage) && is_usage(usage, message.usage)
}

/// Whether JSON is an event.
pub open spec fn is_event(json: JsonModel, wire: WireEventModel) -> bool {
    &&& json is Object
    &&& match wire {
        WireEventModel::Ping => text_at(json, "type"@, Some("ping"@)),
        WireEventModel::MessageStart { message } => {
            &&& text_at(json, "type"@, Some("message_start"@))
            &&& member(json, "message"@) matches Some(part) && is_message(part, message)
        },
        WireEventModel::ContentBlockStart { index, content_block } => {
            &&& text_at(json, "type"@, Some("content_block_start"@))
            &&& number_at(json, "index"@, index as u64)
            &&& member(json, "content_block"@) matches Some(part) && is_block(part, content_block)
        },
        WireEventModel::ContentBlockDelta { index, delta } => {
            &&& text_at(json, "type"@, Some("content_block_delta"@))
            &&& number_at(json, "index"@, index as u64)
            &&& member(json, "delta"@) matches Some(part) && is_delta(part, delta)
        },
        WireEventModel::ContentBlockStop { index } => {
            &&& text_at(json, "type"@, Some("content_block_stop"@))
            &&& number_at(json, "index"@, index as u64)
        },
        WireEventModel::MessageDelta { stop_reason, usage } => {
            &&& text_at(json, "type"@, Some("message_delta"@))
            &&& member(json, "delta"@) matches Some(part) && part is Object && text_at(
                part,
                "stop_reason"@,
                stop_reason,
            )
            &&& member(json, "usage"@) matches Some(part) && part is Object && number_at(
                part,
                "output_tokens"@,
                usage.output_tokens,
            ) && count_at(part, "thinking_tokens"@, usage.thinking_tokens)
        },
        WireEventModel::MessageStop => text_at(json, "type"@, Some("message_stop"@)),
        WireEventModel::Error { error_type, message } => {
            &&& text_at(json, "type"@, Some("error"@))
            &&& member(json, "error"@) matches Some(part) && part is Object && text_at(
                part,
                "type"@,
                Some(error_type),
            ) && text_at(part, "message"@, Some(message))
        },
    }
}

/// A block is read as it stands.
pub proof fn law_blocks_are_read_as_they_stand(json: JsonModel, block: StartBlockModel)
    requires
        is_block(json, block),
    ensures
        start_block_of(json) == Ok::<StartBlockModel, Seq<char>>(block),
{
    lemma_block_names();
}

/// A part of a block is read as it stands.
pub proof fn law_deltas_are_read_as_they_stand(json: JsonModel, delta: DeltaModel)
    requires
        is_delta(json, delta),
    ensures
        delta_of(json) == Ok::<DeltaModel, Seq<char>>(delta),
{
    lemma_delta_names();
}

/// What was used is read as it stands.
pub proof fn law_usage_is_read_as_it_stands(json: JsonModel, usage: Usage)
    requires
        is_usage(json, usage),
    ensures
        usage_of(json) == Ok::<Usage, Seq<char>>(usage),
{
}

/// An event is read as it stands, with all of its parts.
pub proof fn law_events_are_read_as_they_stand(json: JsonModel, wire: WireEventModel)
    requires
        is_event(json, wire),
    ensures
        event_of(json) == Ok::<WireEventModel, Seq<char>>(wire),
{
    lemma_event_names();
    match wire {
        WireEventModel::MessageStart { message } => {
            let part = member(json, "message"@)->0;
            law_usage_is_read_as_it_stands(member(part, "usage"@)->0, message.usage);
            assert(start_message_of(part) == Ok::<StartMessageModel, Seq<char>>(message));
        },
        WireEventModel::ContentBlockStart { content_block, .. } => {
            law_blocks_are_read_as_they_stand(member(json, "content_block"@)->0, content_block);
        },
        WireEventModel::ContentBlockDelta { delta, .. } => {
            law_deltas_are_read_as_they_stand(member(json, "delta"@)->0, delta);
        },
        _ => {},
    }
}

} // verus!
