//! What the messages of errors tell.
use crate::kimi_chat::request::KimiRequestErrorModel;
use crate::kimi_chat::schema::KimiSchemaErrorModel;
use crate::kimi_chat::stream_types::KimiStreamErrorModel;
use crate::text::{decimal, lemma_occurs_itself, lemma_occurs_longer, occurs};
use vstd::prelude::*;

verus! {

/// The message of an error tells everything that the error knows.
pub proof fn law_kimi_request_errors_tell_what_they_know(error: KimiRequestErrorModel)
    ensures
        match error {
            KimiRequestErrorModel::DuplicateToolCallId(id) => occurs(error.text(), id),
            KimiRequestErrorModel::ToolSchema { index, source } => {
                &&& occurs(error.text(), decimal(index as nat))
                &&& occurs(error.text(), source.text())
            },
            _ => true,
        },
{
    match error {
        KimiRequestErrorModel::DuplicateToolCallId(id) => {
            let t0 = "two tool-call IDs normalize to the same Kimi ID `"@;
            let t1 = t0 + id;
            lemma_occurs_itself(id);
            lemma_occurs_longer(t0, id, Seq::empty());
            lemma_occurs_longer(Seq::empty(), t0, id);
            let t2 = t1 + "`"@;
            lemma_occurs_longer(Seq::empty(), t1, "`"@);
        },
        KimiRequestErrorModel::ToolSchema { index, source } => {
            let t0 = "Kimi tool schema at index "@;
            let t1 = t0 + decimal(index as nat);
            lemma_occurs_itself(decimal(index as nat));
            lemma_occurs_longer(t0, decimal(index as nat), Seq::empty());
            lemma_occurs_longer(Seq::empty(), t0, decimal(index as nat));
            let t2 = t1 + " is unsupported: "@;
            lemma_occurs_longer(Seq::empty(), t1, " is unsupported: "@);
            let t3 = t2 + source.text();
            lemma_occurs_itself(source.text());
            lemma_occurs_longer(t2, source.text(), Seq::empty());
            lemma_occurs_longer(Seq::empty(), t2, source.text());
        },
        _ => {},
    }
}

/// The message of an error tells everything that the error knows.
pub proof fn law_kimi_stream_errors_tell_what_they_know(error: KimiStreamErrorModel)
    ensures
        match error {
            KimiStreamErrorModel::MalformedFraming(line) => occurs(error.text(), line),
            KimiStreamErrorModel::MalformedChunk(message) => occurs(error.text(), message),
            KimiStreamErrorModel::InvalidTransition(message) => occurs(error.text(), message),
            KimiStreamErrorModel::PrematureEof(expected) => occurs(error.text(), expected),
            KimiStreamErrorModel::UnknownFinishReason(reason) => occurs(error.text(), reason),
            KimiStreamErrorModel::ConflictingToolField(field) => occurs(error.text(), field),
            KimiStreamErrorModel::IncompleteTool { index, field } => {
                &&& occurs(error.text(), decimal(index as nat))
                &&& occurs(error.text(), field)
            },
            KimiStreamErrorModel::InvalidToolJson { index, arguments } => {
                &&& occurs(error.text(), decimal(index as nat))
                &&& occurs(error.text(), arguments)
            },
            KimiStreamErrorModel::Request(error) => occurs(error.text(), error.text()),
            _ => true,
        },
{
    match error {
        KimiStreamErrorModel::MalformedFraming(line) => {
            let t0 = "malformed Kimi Chat SSE line `"@;
            let t1 = t0 + line;
            lemma_occurs_itself(line);
            lemma_occurs_longer(t0, line, Seq::empty());
            lemma_occurs_longer(Seq::empty(), t0, line);
            let t2 = t1 + "`"@;
            lemma_occurs_longer(Seq::empty(), t1, "`"@);
        },
        KimiStreamErrorModel::MalformedChunk(message) => {
            let t0 = "malformed Kimi Chat chunk: "@;
            let t1 = t0 + message;
            lemma_occurs_itself(message);
            lemma_occurs_longer(t0, message, Seq::empty());
            lemma_occurs_longer(Seq::empty(), t0, message);
        },
        KimiStreamErrorModel::InvalidTransition(message) => {
            let t0 = "invalid Kimi Chat transition: "@;
            let t1 = t0 + message;
            lemma_occurs_itself(message);
            lemma_occurs_longer(t0, message, Seq::empty());
            lemma_occurs_longer(Seq::empty(), t0, message);
        },
        KimiStreamErrorModel::PrematureEof(expected) => {
            let t0 = "Kimi Chat stream ended before "@;
            let t1 = t0 + expected;
            lemma_occurs_itself(expected);
            lemma_occurs_longer(t0, expected, Seq::empty());
            lemma_occurs_longer(Seq::empty(), t0, expected);
        },
        KimiStreamErrorModel::UnknownFinishReason(reason) => {
            let t0 = "unknown Kimi Chat finish reason `"@;
            let t1 = t0 + reason;
            lemma_occurs_itself(reason);
            lemma_occurs_longer(t0, reason, Seq::empty());
            lemma_occurs_longer(Seq::empty(), t0, reason);
            let t2 = t1 + "`"@;
            lemma_occurs_longer(Seq::empty(), t1, "`"@);
        },
        KimiStreamErrorModel::ConflictingToolField(field) => {
            let t0 = "Kimi Chat tool contained conflicting "@;
            let t1 = t0 + field;
            lemma_occurs_itself(field);
            lemma_occurs_longer(t0, field, Seq::empty());
            lemma_occurs_longer(Seq::empty(), t0, field);
            let t2 = t1 + " fragments"@;
            lemma_occurs_longer(Seq::empty(), t1, " fragments"@);
        },
        KimiStreamErrorModel::IncompleteTool { index, field } => {
            let t0 = "Kimi Chat tool "@;
            let t1 = t0 + decimal(index as nat);
            lemma_occurs_itself(decimal(index as nat));
            lemma_occurs_longer(t0, decimal(index as nat), Seq::empty());
            lemma_occurs_longer(Seq::empty(), t0, decimal(index as nat));
            let t2 = t1 + " was incomplete: "@;
            lemma_occurs_longer(Seq::empty(), t1, " was incomplete: "@);
            let t3 = t2 + field;
            lemma_occurs_itself(field);
            lemma_occurs_longer(t2, field, Seq::empty());
            lemma_occurs_longer(Seq::empty(), t2, field);
        },
        KimiStreamErrorModel::InvalidToolJson { index, arguments } => {
            let t0 = "Kimi Chat tool "@;
            let t1 = t0 + decimal(index as nat);
            lemma_occurs_itself(decimal(index as nat));
            lemma_occurs_longer(t0, decimal(index as nat), Seq::empty());
            lemma_occurs_longer(Seq::empty(), t0, decimal(index as nat));
            let t2 = t1 + " contained invalid JSON object: "@;
            lemma_occurs_longer(Seq::empty(), t1, " contained invalid JSON object: "@);
            let t3 = t2 + arguments;
            lemma_occurs_itself(arguments);
            lemma_occurs_longer(t2, arguments, Seq::empty());
            lemma_occurs_longer(Seq::empty(), t2, arguments);
        },
        KimiStreamErrorModel::Request(error) => {
            lemma_occurs_itself(error.text());
        },
        _ => {},
    }
}

/// The message of an error tells everything that the error knows.
pub proof fn law_kimi_schema_errors_tell_what_they_know(error: KimiSchemaErrorModel)
    ensures
        match error {
            KimiSchemaErrorModel::UnsupportedReference(reference) => occurs(error.text(), reference),
            _ => true,
        },
{
    match error {
        KimiSchemaErrorModel::UnsupportedReference(reference) => {
            let t0 = "unsupported schema reference `"@;
            let t1 = t0 + reference;
            lemma_occurs_itself(reference);
            lemma_occurs_longer(t0, reference, Seq::empty());
            lemma_occurs_longer(Seq::empty(), t0, reference);
            let t2 = t1 + "`"@;
            lemma_occurs_longer(Seq::empty(), t1, "`"@);
        },
        _ => {},
    }
}

} // verus!
