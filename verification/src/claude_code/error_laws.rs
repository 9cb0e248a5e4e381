//! What the messages of errors tell.
use crate::claude_code::encoder::EncodeErrorModel;
use crate::claude_code::names::in_title;
use crate::claude_code::policy::AssembleErrorModel;
use crate::claude_code::replay::ReplayErrorModel;
use crate::claude_code::stream::DecodeErrorModel;
use crate::claude_code::transport::NativeStreamErrorModel;
use crate::text::{decimal, lemma_occurs_itself, lemma_occurs_longer, occurs};
use vstd::prelude::*;

verus! {

/// The message of an error tells everything that the error knows.
pub proof fn law_native_encode_errors_tell_what_they_know(error: EncodeErrorModel)
    ensures
        match error {
            EncodeErrorModel::Assembly(error) => occurs(error.text(), error.text()),
            EncodeErrorModel::UnsupportedHistoryItem { index, kind } => {
                &&& occurs(error.text(), decimal(index as nat))
                &&& occurs(error.text(), kind)
            },
            EncodeErrorModel::UnsupportedContent { item_index, block_index, kind } => {
                &&& occurs(error.text(), decimal(item_index as nat))
                &&& occurs(error.text(), decimal(block_index as nat))
                &&& occurs(error.text(), kind)
            },
            EncodeErrorModel::InvalidToolArguments { call_id, message } => {
                &&& occurs(error.text(), call_id)
                &&& occurs(error.text(), message)
            },
            EncodeErrorModel::InvalidImage { item_index, block_index, message } => {
                &&& occurs(error.text(), decimal(item_index as nat))
                &&& occurs(error.text(), decimal(block_index as nat))
                &&& occurs(error.text(), message)
            },
            EncodeErrorModel::UnmatchedToolResult { call_id } => occurs(error.text(), call_id),
            EncodeErrorModel::DuplicateToolUse { call_id } => occurs(error.text(), call_id),
            EncodeErrorModel::Replay(error) => occurs(error.text(), error.text()),
            _ => true,
        },
{
    match error {
        EncodeErrorModel::Assembly(error) => {
            lemma_occurs_itself(error.text());
        },
        EncodeErrorModel::UnsupportedHistoryItem { index, kind } => {
            let t0 = "unsupported history item at index "@;
            let t1 = t0 + decimal(index as nat);
            lemma_occurs_itself(decimal(index as nat));
            lemma_occurs_longer(t0, decimal(index as nat), Seq::empty());
            lemma_occurs_longer(Seq::empty(), t0, decimal(index as nat));
            let t2 = t1 + ": "@;
            lemma_occurs_longer(Seq::empty(), t1, ": "@);
            let t3 = t2 + kind;
            lemma_occurs_itself(kind);
            lemma_occurs_longer(t2, kind, Seq::empty());
            lemma_occurs_longer(Seq::empty(), t2, kind);
        },
        EncodeErrorModel::UnsupportedContent { item_index, block_index, kind } => {
            let t0 = "unsupported content at history item "@;
            let t1 = t0 + decimal(item_index as nat);
            lemma_occurs_itself(decimal(item_index as nat));
            lemma_occurs_longer(t0, decimal(item_index as nat), Seq::empty());
            lemma_occurs_longer(Seq::empty(), t0, decimal(item_index as nat));
            let t2 = t1 + ", block "@;
            lemma_occurs_longer(Seq::empty(), t1, ", block "@);
            let t3 = t2 + decimal(block_index as nat);
            lemma_occurs_itself(decimal(block_index as nat));
            lemma_occurs_longer(t2, decimal(block_index as nat), Seq::empty());
            lemma_occurs_longer(Seq::empty(), t2, decimal(block_index as nat));
            let t4 = t3 + ": "@;
            lemma_occurs_longer(Seq::empty(), t3, ": "@);
            let t5 = t4 + kind;
            lemma_occurs_itself(kind);
            lemma_occurs_longer(t4, kind, Seq::empty());
            lemma_occurs_longer(Seq::empty(), t4, kind);
        },
        EncodeErrorModel::InvalidToolArguments { call_id, message } => {
            let t0 = "tool call `"@;
            let t1 = t0 + call_id;
            lemma_occurs_itself(call_id);
            lemma_occurs_longer(t0, call_id, Seq::empty());
            lemma_occurs_longer(Seq::empty(), t0, call_id);
            let t2 = t1 + "` contains invalid JSON arguments: "@;
            lemma_occurs_longer(Seq::empty(), t1, "` contains invalid JSON arguments: "@);
            let t3 = t2 + message;
            lemma_occurs_itself(message);
            lemma_occurs_longer(t2, message, Seq::empty());
            lemma_occurs_longer(Seq::empty(), t2, message);
        },
        EncodeErrorModel::InvalidImage { item_index, block_index, message } => {
            let t0 = "invalid base64 image at history item "@;
            let t1 = t0 + decimal(item_index as nat);
            lemma_occurs_itself(decimal(item_index as nat));
            lemma_occurs_longer(t0, decimal(item_index as nat), Seq::empty());
            lemma_occurs_longer(Seq::empty(), t0, decimal(item_index as nat));
            let t2 = t1 + ", block "@;
            lemma_occurs_longer(Seq::empty(), t1, ", block "@);
            let t3 = t2 + decimal(block_index as nat);
            lemma_occurs_itself(decimal(block_index as nat));
            lemma_occurs_longer(t2, decimal(block_index as nat), Seq::empty());
            lemma_occurs_longer(Seq::empty(), t2, decimal(block_index as nat));
            let t4 = t3 + ": "@;
            lemma_occurs_longer(Seq::empty(), t3, ": "@);
            let t5 = t4 + message;
            lemma_occurs_itself(message);
            lemma_occurs_longer(t4, message, Seq::empty());
            lemma_occurs_longer(Seq::empty(), t4, message);
        },
        EncodeErrorModel::UnmatchedToolResult { call_id } => {
            let t0 = "tool result `"@;
            let t1 = t0 + call_id;
            lemma_occurs_itself(call_id);
            lemma_occurs_longer(t0, call_id, Seq::empty());
            lemma_occurs_longer(Seq::empty(), t0, call_id);
            let t2 = t1 + "` has no matching unresolved tool use"@;
            lemma_occurs_longer(Seq::empty(), t1, "` has no matching unresolved tool use"@);
        },
        EncodeErrorModel::DuplicateToolUse { call_id } => {
            let t0 = "duplicate unresolved tool use ID `"@;
            let t1 = t0 + call_id;
            lemma_occurs_itself(call_id);
            lemma_occurs_longer(t0, call_id, Seq::empty());
            lemma_occurs_longer(Seq::empty(), t0, call_id);
            let t2 = t1 + "`"@;
            lemma_occurs_longer(Seq::empty(), t1, "`"@);
        },
        EncodeErrorModel::Replay(error) => {
            lemma_occurs_itself(error.text());
        },
        _ => {},
    }
}

/// The message of an error tells everything that the error knows.
pub proof fn law_assembly_errors_tell_what_they_know(error: AssembleErrorModel)
    ensures
        match error {
            AssembleErrorModel::UnsupportedRouteContract { wire_api, dialect } => {
                &&& occurs(error.text(), wire_api.label())
                &&& occurs(error.text(), dialect.label())
            },
            AssembleErrorModel::UnsupportedEffort { effort } => occurs(error.text(), effort),
            AssembleErrorModel::DisabledThinkingUnsupported { model } => occurs(error.text(), model),
            AssembleErrorModel::InvalidSessionId { session_id } => occurs(error.text(), session_id),
            AssembleErrorModel::UnsupportedTool { index, kind, name } => {
                &&& occurs(error.text(), decimal(index as nat))
                &&& occurs(error.text(), kind)
                &&& occurs(error.text(), name)
            },
            AssembleErrorModel::InvalidToolSchema { index, name, message } => {
                &&& occurs(error.text(), name)
                &&& occurs(error.text(), decimal(index as nat))
                &&& occurs(error.text(), message)
            },
            AssembleErrorModel::UnsupportedNativeBlock { index, role, kind } => {
                &&& occurs(error.text(), decimal(index as nat))
                &&& occurs(error.text(), role)
                &&& occurs(error.text(), kind)
            },
            _ => true,
        },
{
    match error {
        AssembleErrorModel::UnsupportedRouteContract { wire_api, dialect } => {
            let t0 = "unsupported Anthropic route contract: "@;
            let t1 = t0 + wire_api.label();
            lemma_occurs_itself(wire_api.label());
            lemma_occurs_longer(t0, wire_api.label(), Seq::empty());
            lemma_occurs_longer(Seq::empty(), t0, wire_api.label());
            let t2 = t1 + "/"@;
            lemma_occurs_longer(Seq::empty(), t1, "/"@);
            let t3 = t2 + dialect.label();
            lemma_occurs_itself(dialect.label());
            lemma_occurs_longer(t2, dialect.label(), Seq::empty());
            lemma_occurs_longer(Seq::empty(), t2, dialect.label());
        },
        AssembleErrorModel::UnsupportedEffort { effort } => {
            let t0 = "reasoning effort `"@;
            let t1 = t0 + effort;
            lemma_occurs_itself(effort);
            lemma_occurs_longer(t0, effort, Seq::empty());
            lemma_occurs_longer(Seq::empty(), t0, effort);
            let t2 = t1 + in_title("` is unsupported by adaptive "@, " thinking"@);
            lemma_occurs_longer(Seq::empty(), t1, in_title("` is unsupported by adaptive "@, " thinking"@));
        },
        AssembleErrorModel::DisabledThinkingUnsupported { model } => {
            let t0 = "reasoning effort `none` is unsupported by native model `"@;
            let t1 = t0 + model;
            lemma_occurs_itself(model);
            lemma_occurs_longer(t0, model, Seq::empty());
            lemma_occurs_longer(Seq::empty(), t0, model);
            let t2 = t1 + "`"@;
            lemma_occurs_longer(Seq::empty(), t1, "`"@);
        },
        AssembleErrorModel::InvalidSessionId { session_id } => {
            let t0 = "resumable Codex session ID must be a UUID: "@;
            let t1 = t0 + session_id;
            lemma_occurs_itself(session_id);
            lemma_occurs_longer(t0, session_id, Seq::empty());
            lemma_occurs_longer(Seq::empty(), t0, session_id);
        },
        AssembleErrorModel::UnsupportedTool { index, kind, name } => {
            let t0 = "unsupported tool at index "@;
            let t1 = t0 + decimal(index as nat);
            lemma_occurs_itself(decimal(index as nat));
            lemma_occurs_longer(t0, decimal(index as nat), Seq::empty());
            lemma_occurs_longer(Seq::empty(), t0, decimal(index as nat));
            let t2 = t1 + ": "@;
            lemma_occurs_longer(Seq::empty(), t1, ": "@);
            let t3 = t2 + kind;
            lemma_occurs_itself(kind);
            lemma_occurs_longer(t2, kind, Seq::empty());
            lemma_occurs_longer(Seq::empty(), t2, kind);
            let t4 = t3 + " `"@;
            lemma_occurs_longer(Seq::empty(), t3, " `"@);
            let t5 = t4 + name;
            lemma_occurs_itself(name);
            lemma_occurs_longer(t4, name, Seq::empty());
            lemma_occurs_longer(Seq::empty(), t4, name);
            let t6 = t5 + "`; only JSON-schema function tools are supported"@;
            lemma_occurs_longer(Seq::empty(), t5, "`; only JSON-schema function tools are supported"@);
        },
        AssembleErrorModel::InvalidToolSchema { index, name, message } => {
            let t0 = "tool `"@;
            let t1 = t0 + name;
            lemma_occurs_itself(name);
            lemma_occurs_longer(t0, name, Seq::empty());
            lemma_occurs_longer(Seq::empty(), t0, name);
            let t2 = t1 + "` at index "@;
            lemma_occurs_longer(Seq::empty(), t1, "` at index "@);
            let t3 = t2 + decimal(index as nat);
            lemma_occurs_itself(decimal(index as nat));
            lemma_occurs_longer(t2, decimal(index as nat), Seq::empty());
            lemma_occurs_longer(Seq::empty(), t2, decimal(index as nat));
            let t4 = t3 + " contains an invalid JSON schema: "@;
            lemma_occurs_longer(Seq::empty(), t3, " contains an invalid JSON schema: "@);
            let t5 = t4 + message;
            lemma_occurs_itself(message);
            lemma_occurs_longer(t4, message, Seq::empty());
            lemma_occurs_longer(Seq::empty(), t4, message);
        },
        AssembleErrorModel::UnsupportedNativeBlock { index, role, kind } => {
            let t0 = "native message at index "@;
            let t1 = t0 + decimal(index as nat);
            lemma_occurs_itself(decimal(index as nat));
            lemma_occurs_longer(t0, decimal(index as nat), Seq::empty());
            lemma_occurs_longer(Seq::empty(), t0, decimal(index as nat));
            let t2 = t1 + " has unsupported "@;
            lemma_occurs_longer(Seq::empty(), t1, " has unsupported "@);
            let t3 = t2 + role;
            lemma_occurs_itself(role);
            lemma_occurs_longer(t2, role, Seq::empty());
            lemma_occurs_longer(Seq::empty(), t2, role);
            let t4 = t3 + " block `"@;
            lemma_occurs_longer(Seq::empty(), t3, " block `"@);
            let t5 = t4 + kind;
            lemma_occurs_itself(kind);
            lemma_occurs_longer(t4, kind, Seq::empty());
            lemma_occurs_longer(Seq::empty(), t4, kind);
        },
        _ => {},
    }
}

/// The message of an error tells everything that the error knows.
pub proof fn law_replay_errors_tell_what_they_know(error: ReplayErrorModel)
    ensures
        match error {
            ReplayErrorModel::Malformed(message) => occurs(error.text(), message),
            ReplayErrorModel::UnknownVersion(version) => occurs(error.text(), decimal(version as nat)),
            _ => true,
        },
{
    match error {
        ReplayErrorModel::Malformed(message) => {
            let t0 = "malformed Anthropic thinking replay envelope: "@;
            let t1 = t0 + message;
            lemma_occurs_itself(message);
            lemma_occurs_longer(t0, message, Seq::empty());
            lemma_occurs_longer(Seq::empty(), t0, message);
        },
        ReplayErrorModel::UnknownVersion(version) => {
            let t0 = "unsupported Anthropic thinking replay envelope version "@;
            let t1 = t0 + decimal(version as nat);
            lemma_occurs_itself(decimal(version as nat));
            lemma_occurs_longer(t0, decimal(version as nat), Seq::empty());
            lemma_occurs_longer(Seq::empty(), t0, decimal(version as nat));
        },
        _ => {},
    }
}

/// The message of an error tells everything that the error knows.
pub proof fn law_native_decode_errors_tell_what_they_know(error: DecodeErrorModel)
    ensures
        match error {
            DecodeErrorModel::MalformedSse(message) => occurs(error.text(), message),
            DecodeErrorModel::MalformedEvent { event, message } => {
                &&& occurs(error.text(), event)
                &&& occurs(error.text(), message)
            },
            DecodeErrorModel::UnknownEvent(event) => occurs(error.text(), event),
            DecodeErrorModel::ProviderError { error_type, message } => {
                &&& occurs(error.text(), error_type)
                &&& occurs(error.text(), message)
            },
            DecodeErrorModel::InvalidTransition { event, reason } => {
                &&& occurs(error.text(), event)
                &&& occurs(error.text(), reason)
            },
            DecodeErrorModel::UnknownStopReason(reason) => occurs(error.text(), reason),
            DecodeErrorModel::InvalidToolJson { index, input } => {
                &&& occurs(error.text(), decimal(index as nat))
                &&& occurs(error.text(), input)
            },
            DecodeErrorModel::PrematureEof { expected } => occurs(error.text(), expected),
            DecodeErrorModel::Replay(message) => occurs(error.text(), message),
            _ => true,
        },
{
    match error {
        DecodeErrorModel::MalformedSse(message) => {
            let t0 = "malformed SSE framing: "@;
            let t1 = t0 + message;
            lemma_occurs_itself(message);
            lemma_occurs_longer(t0, message, Seq::empty());
            lemma_occurs_longer(Seq::empty(), t0, message);
        },
        DecodeErrorModel::MalformedEvent { event, message } => {
            let t0 = "malformed "@;
            let t1 = t0 + event;
            lemma_occurs_itself(event);
            lemma_occurs_longer(t0, event, Seq::empty());
            lemma_occurs_longer(Seq::empty(), t0, event);
            let t2 = t1 + " event: "@;
            lemma_occurs_longer(Seq::empty(), t1, " event: "@);
            let t3 = t2 + message;
            lemma_occurs_itself(message);
            lemma_occurs_longer(t2, message, Seq::empty());
            lemma_occurs_longer(Seq::empty(), t2, message);
        },
        DecodeErrorModel::UnknownEvent(event) => {
            let t0 = in_title("unknown native "@, " event "@);
            let t1 = t0 + event;
            lemma_occurs_itself(event);
            lemma_occurs_longer(t0, event, Seq::empty());
            lemma_occurs_longer(Seq::empty(), t0, event);
        },
        DecodeErrorModel::ProviderError { error_type, message } => {
            let t0 = in_title("native "@, " error "@);
            let t1 = t0 + error_type;
            lemma_occurs_itself(error_type);
            lemma_occurs_longer(t0, error_type, Seq::empty());
            lemma_occurs_longer(Seq::empty(), t0, error_type);
            let t2 = t1 + ": "@;
            lemma_occurs_longer(Seq::empty(), t1, ": "@);
            let t3 = t2 + message;
            lemma_occurs_itself(message);
            lemma_occurs_longer(t2, message, Seq::empty());
            lemma_occurs_longer(Seq::empty(), t2, message);
        },
        DecodeErrorModel::InvalidTransition { event, reason } => {
            let t0 = in_title("invalid native "@, " transition for "@);
            let t1 = t0 + event;
            lemma_occurs_itself(event);
            lemma_occurs_longer(t0, event, Seq::empty());
            lemma_occurs_longer(Seq::empty(), t0, event);
            let t2 = t1 + ": "@;
            lemma_occurs_longer(Seq::empty(), t1, ": "@);
            let t3 = t2 + reason;
            lemma_occurs_itself(reason);
            lemma_occurs_longer(t2, reason, Seq::empty());
            lemma_occurs_longer(Seq::empty(), t2, reason);
        },
        DecodeErrorModel::UnknownStopReason(reason) => {
            let t0 = in_title("unknown native "@, " stop reason "@);
            let t1 = t0 + reason;
            lemma_occurs_itself(reason);
            lemma_occurs_longer(t0, reason, Seq::empty());
            lemma_occurs_longer(Seq::empty(), t0, reason);
        },
        DecodeErrorModel::InvalidToolJson { index, input } => {
            let t0 = "tool block "@;
            let t1 = t0 + decimal(index as nat);
            lemma_occurs_itself(decimal(index as nat));
            lemma_occurs_longer(t0, decimal(index as nat), Seq::empty());
            lemma_occurs_longer(Seq::empty(), t0, decimal(index as nat));
            let t2 = t1 + " contained invalid JSON: "@;
            lemma_occurs_longer(Seq::empty(), t1, " contained invalid JSON: "@);
            let t3 = t2 + input;
            lemma_occurs_itself(input);
            lemma_occurs_longer(t2, input, Seq::empty());
            lemma_occurs_longer(Seq::empty(), t2, input);
        },
        DecodeErrorModel::PrematureEof { expected } => {
            let t0 = in_title("native "@, " stream ended before "@);
            let t1 = t0 + expected;
            lemma_occurs_itself(expected);
            lemma_occurs_longer(t0, expected, Seq::empty());
            lemma_occurs_longer(Seq::empty(), t0, expected);
        },
        DecodeErrorModel::Replay(message) => {
            lemma_occurs_itself(message);
        },
        _ => {},
    }
}

/// The message of an error tells everything that the error knows.
pub proof fn law_native_stream_errors_tell_what_they_know(error: NativeStreamErrorModel)
    ensures
        match error {
            NativeStreamErrorModel::Request(error) => occurs(error.text(), error.text()),
            NativeStreamErrorModel::Transport(message) => occurs(error.text(), message),
            NativeStreamErrorModel::Decode(error) => occurs(error.text(), error.text()),
            NativeStreamErrorModel::InvalidRequest(message) => occurs(error.text(), message),
            _ => true,
        },
{
    match error {
        NativeStreamErrorModel::Request(error) => {
            let t0 = in_title("native "@, " request failed: "@);
            let t1 = t0 + error.text();
            lemma_occurs_itself(error.text());
            lemma_occurs_longer(t0, error.text(), Seq::empty());
            lemma_occurs_longer(Seq::empty(), t0, error.text());
        },
        NativeStreamErrorModel::Transport(message) => {
            let t0 = in_title("native "@, " transport failed: "@);
            let t1 = t0 + message;
            lemma_occurs_itself(message);
            lemma_occurs_longer(t0, message, Seq::empty());
            lemma_occurs_longer(Seq::empty(), t0, message);
        },
        NativeStreamErrorModel::Decode(error) => {
            lemma_occurs_itself(error.text());
        },
        NativeStreamErrorModel::InvalidRequest(message) => {
            let t0 = in_title("invalid native "@, " request metadata: "@);
            let t1 = t0 + message;
            lemma_occurs_itself(message);
            lemma_occurs_longer(t0, message, Seq::empty());
            lemma_occurs_longer(Seq::empty(), t0, message);
        },
        _ => {},
    }
}

} // verus!
