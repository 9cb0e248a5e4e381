//! What the messages of errors tell.
use crate::chat_completions::dialect::DialectErrorModel;
use crate::chat_completions::encoder::{shown, EncodeErrorModel};
use crate::chat_completions::stream::DecodeErrorModel;
use crate::text::{decimal, lemma_occurs_itself, lemma_occurs_longer, occurs};
use vstd::prelude::*;

verus! {

/// The message of an error tells everything that the error knows.
pub proof fn law_chat_encode_errors_tell_what_they_know(error: EncodeErrorModel)
    ensures
        match error {
            EncodeErrorModel::UnsupportedHistoryItem { index, kind } => occurs(error.text(), kind),
            EncodeErrorModel::UnsupportedContent { item_index, block_index, kind } => occurs(error.text(), kind),
            EncodeErrorModel::UnsupportedTool { index, kind } => occurs(error.text(), kind),
            EncodeErrorModel::ToolSchema { index, message } => occurs(error.text(), message),
            EncodeErrorModel::InvalidToolArguments { call_id, message } => {
                &&& occurs(error.text(), call_id)
                &&& occurs(error.text(), message)
            },
            EncodeErrorModel::UnmatchedToolResult { call_id } => occurs(error.text(), call_id),
            EncodeErrorModel::DuplicateToolCall { call_id } => occurs(error.text(), call_id),
            EncodeErrorModel::ReservedExtension { target, field } => {
                &&& occurs(error.text(), field)
                &&& occurs(error.text(), target)
            },
            EncodeErrorModel::Dialect(error) => occurs(error.text(), error.text()),
            _ => true,
        },
{
    match error {
        EncodeErrorModel::UnsupportedHistoryItem { index, kind } => {
            let t0 = "unsupported history item at index "@;
            let t1 = t0 + shown(index);
            lemma_occurs_longer(Seq::empty(), t0, shown(index));
            let t2 = t1 + ": "@;
            lemma_occurs_longer(Seq::empty(), t1, ": "@);
            let t3 = t2 + kind;
            lemma_occurs_itself(kind);
            lemma_occurs_longer(t2, kind, Seq::empty());
            lemma_occurs_longer(Seq::empty(), t2, kind);
        },
        EncodeErrorModel::UnsupportedContent { item_index, block_index, kind } => {
            let t0 = "unsupported content at history item "@;
            let t1 = t0 + shown(item_index);
            lemma_occurs_longer(Seq::empty(), t0, shown(item_index));
            let t2 = t1 + ", block "@;
            lemma_occurs_longer(Seq::empty(), t1, ", block "@);
            let t3 = t2 + shown(block_index);
            lemma_occurs_longer(Seq::empty(), t2, shown(block_index));
            let t4 = t3 + ": "@;
            lemma_occurs_longer(Seq::empty(), t3, ": "@);
            let t5 = t4 + kind;
            lemma_occurs_itself(kind);
            lemma_occurs_longer(t4, kind, Seq::empty());
            lemma_occurs_longer(Seq::empty(), t4, kind);
        },
        EncodeErrorModel::UnsupportedTool { index, kind } => {
            let t0 = "unsupported tool at index "@;
            let t1 = t0 + shown(index);
            lemma_occurs_longer(Seq::empty(), t0, shown(index));
            let t2 = t1 + ": "@;
            lemma_occurs_longer(Seq::empty(), t1, ": "@);
            let t3 = t2 + kind;
            lemma_occurs_itself(kind);
            lemma_occurs_longer(t2, kind, Seq::empty());
            lemma_occurs_longer(Seq::empty(), t2, kind);
        },
        EncodeErrorModel::ToolSchema { index, message } => {
            let t0 = "function tool schema at index "@;
            let t1 = t0 + shown(index);
            lemma_occurs_longer(Seq::empty(), t0, shown(index));
            let t2 = t1 + " could not be serialized: "@;
            lemma_occurs_longer(Seq::empty(), t1, " could not be serialized: "@);
            let t3 = t2 + message;
            lemma_occurs_itself(message);
            lemma_occurs_longer(t2, message, Seq::empty());
            lemma_occurs_longer(Seq::empty(), t2, message);
        },
        EncodeErrorModel::InvalidToolArguments { call_id, message } => {
            let t0 = "tool call `"@;
            let t1 = t0 + call_id;
            lemma_occurs_itself(call_id);
            lemma_occurs_longer(t0, call_id, Seq::empty());
            lemma_occurs_longer(Seq::empty(), t0, call_id);
            let t2 = t1 + "` contains invalid JSON-object arguments: "@;
            lemma_occurs_longer(Seq::empty(), t1, "` contains invalid JSON-object arguments: "@);
            let t3 = t2 + message;
            lemma_occurs_itself(message);
            lemma_occurs_longer(t2, message, Seq::empty());
            lemma_occurs_longer(Seq::empty(), t2, message);
        },
        EncodeErrorModel::UnmatchedToolResult { call_id } => {
            let t0 = "tool result `"@;
            let t1 = t0 + call_id;
            lemma_occurs_itself(call_id);
            lemma_occurs_longer(t0, call_id, Seq::empty());
            lemma_occurs_longer(Seq::empty(), t0, call_id);
            let t2 = t1 + "` has no matching unresolved tool call"@;
            lemma_occurs_longer(Seq::empty(), t1, "` has no matching unresolved tool call"@);
        },
        EncodeErrorModel::DuplicateToolCall { call_id } => {
            let t0 = "duplicate unresolved tool call ID `"@;
            let t1 = t0 + call_id;
            lemma_occurs_itself(call_id);
            lemma_occurs_longer(t0, call_id, Seq::empty());
            lemma_occurs_longer(Seq::empty(), t0, call_id);
            let t2 = t1 + "`"@;
            lemma_occurs_longer(Seq::empty(), t1, "`"@);
        },
        EncodeErrorModel::ReservedExtension { target, field } => {
            let t0 = "dialect extension `"@;
            let t1 = t0 + field;
            lemma_occurs_itself(field);
            lemma_occurs_longer(t0, field, Seq::empty());
            lemma_occurs_longer(Seq::empty(), t0, field);
            let t2 = t1 + "` conflicts with a reserved "@;
            lemma_occurs_longer(Seq::empty(), t1, "` conflicts with a reserved "@);
            let t3 = t2 + target;
            lemma_occurs_itself(target);
            lemma_occurs_longer(t2, target, Seq::empty());
            lemma_occurs_longer(Seq::empty(), t2, target);
            let t4 = t3 + " field"@;
            lemma_occurs_longer(Seq::empty(), t3, " field"@);
        },
        EncodeErrorModel::Dialect(error) => {
            lemma_occurs_itself(error.text());
        },
        _ => {},
    }
}

/// The message of an error tells everything that the error knows.
pub proof fn law_chat_decode_errors_tell_what_they_know(error: DecodeErrorModel)
    ensures
        match error {
            DecodeErrorModel::MalformedFraming(message) => occurs(error.text(), message),
            DecodeErrorModel::MalformedChunk(message) => occurs(error.text(), message),
            DecodeErrorModel::InvalidTransition(message) => occurs(error.text(), message),
            DecodeErrorModel::UnknownFinishReason(reason) => occurs(error.text(), reason),
            DecodeErrorModel::IncompleteTool { index, field } => {
                &&& occurs(error.text(), decimal(index as nat))
                &&& occurs(error.text(), field)
            },
            DecodeErrorModel::InvalidToolJson { index, arguments } => {
                &&& occurs(error.text(), decimal(index as nat))
                &&& occurs(error.text(), arguments)
            },
            DecodeErrorModel::PrematureEof { expected } => occurs(error.text(), expected),
            DecodeErrorModel::Dialect(error) => occurs(error.text(), error.text()),
            _ => true,
        },
{
    match error {
        DecodeErrorModel::MalformedFraming(message) => {
            let t0 = "malformed data stream framing: "@;
            let t1 = t0 + message;
            lemma_occurs_itself(message);
            lemma_occurs_longer(t0, message, Seq::empty());
            lemma_occurs_longer(Seq::empty(), t0, message);
        },
        DecodeErrorModel::MalformedChunk(message) => {
            let t0 = "malformed Chat Completions chunk: "@;
            let t1 = t0 + message;
            lemma_occurs_itself(message);
            lemma_occurs_longer(t0, message, Seq::empty());
            lemma_occurs_longer(Seq::empty(), t0, message);
        },
        DecodeErrorModel::InvalidTransition(message) => {
            let t0 = "invalid Chat Completions transition: "@;
            let t1 = t0 + message;
            lemma_occurs_itself(message);
            lemma_occurs_longer(t0, message, Seq::empty());
            lemma_occurs_longer(Seq::empty(), t0, message);
        },
        DecodeErrorModel::UnknownFinishReason(reason) => {
            let t0 = "unknown Chat Completions finish reason "@;
            let t1 = t0 + reason;
            lemma_occurs_itself(reason);
            lemma_occurs_longer(t0, reason, Seq::empty());
            lemma_occurs_longer(Seq::empty(), t0, reason);
        },
        DecodeErrorModel::IncompleteTool { index, field } => {
            let t0 = "tool call "@;
            let t1 = t0 + decimal(index as nat);
            lemma_occurs_itself(decimal(index as nat));
            lemma_occurs_longer(t0, decimal(index as nat), Seq::empty());
            lemma_occurs_longer(Seq::empty(), t0, decimal(index as nat));
            let t2 = t1 + " was incomplete: "@;
            lemma_occurs_longer(Seq::empty(), t1, " was incomplete: "@);
            let t3 = t2 + field;
            lemma_occurs_itself(field);
            lemma_occurs_longer(t2, field, Seq::empty());
            lemma_occurs_longer(Seq::empty(), t2, field);
        },
        DecodeErrorModel::InvalidToolJson { index, arguments } => {
            let t0 = "tool call "@;
            let t1 = t0 + decimal(index as nat);
            lemma_occurs_itself(decimal(index as nat));
            lemma_occurs_longer(t0, decimal(index as nat), Seq::empty());
            lemma_occurs_longer(Seq::empty(), t0, decimal(index as nat));
            let t2 = t1 + " contained invalid JSON object: "@;
            lemma_occurs_longer(Seq::empty(), t1, " contained invalid JSON object: "@);
            let t3 = t2 + arguments;
            lemma_occurs_itself(arguments);
            lemma_occurs_longer(t2, arguments, Seq::empty());
            lemma_occurs_longer(Seq::empty(), t2, arguments);
        },
        DecodeErrorModel::PrematureEof { expected } => {
            let t0 = "Chat Completions stream ended before "@;
            let t1 = t0 + expected;
            lemma_occurs_itself(expected);
            lemma_occurs_longer(t0, expected, Seq::empty());
            lemma_occurs_longer(Seq::empty(), t0, expected);
        },
        DecodeErrorModel::Dialect(error) => {
            lemma_occurs_itself(error.text());
        },
        _ => {},
    }
}

/// The message of an error tells everything that the error knows.
pub proof fn law_dialect_errors_tell_what_they_know(error: DialectErrorModel)
    ensures
        match error {
            DialectErrorModel::MalformedReplay(message) => occurs(error.text(), message),
            DialectErrorModel::InvalidRequestExtension(message) => occurs(error.text(), message),
            DialectErrorModel::InvalidResponseExtension(message) => occurs(error.text(), message),
            _ => true,
        },
{
    match error {
        DialectErrorModel::MalformedReplay(message) => {
            let t0 = "malformed assistant reasoning replay: "@;
            let t1 = t0 + message;
            lemma_occurs_itself(message);
            lemma_occurs_longer(t0, message, Seq::empty());
            lemma_occurs_longer(Seq::empty(), t0, message);
        },
        DialectErrorModel::InvalidRequestExtension(message) => {
            let t0 = "invalid request extension: "@;
            let t1 = t0 + message;
            lemma_occurs_itself(message);
            lemma_occurs_longer(t0, message, Seq::empty());
            lemma_occurs_longer(Seq::empty(), t0, message);
        },
        DialectErrorModel::InvalidResponseExtension(message) => {
            let t0 = "invalid streamed response extension: "@;
            let t1 = t0 + message;
            lemma_occurs_itself(message);
            lemma_occurs_longer(t0, message, Seq::empty());
            lemma_occurs_longer(Seq::empty(), t0, message);
        },
        _ => {},
    }
}

} // verus!
