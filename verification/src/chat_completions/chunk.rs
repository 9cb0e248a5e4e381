//! Chunks of a streamed response, read from JSON.
use crate::chat_completions::dialect::Extensions;
use crate::chat_completions::types::{
    ChatCompletionChunk, ChatCompletionChunkModel, ChunkChoice, ChunkChoiceModel, ChunkDelta, ChunkDeltaModel,
    ChunkUsage, ChunkUsageModel, ToolCallFragment, ToolCallFragmentModel, ToolFunctionFragment,
    ToolFunctionFragmentModel,
};
use crate::fields::{put, StringMap};
use crate::json::{lemma_array_model, lemma_object_model, member, Json, JsonModel};
use crate::model::{no_items, outcome, push_item, Duplicate};
use crate::read::{
    fill, filled, given_text, given_whole, length_error, missing, missing_field, not_object, object_error,
    optional_text, read_given_text, read_given_whole, read_optional_text, seat, take_seat, type_error,
    wrong_length, wrong_type, Source,
};
use crate::text::concat;
use vstd::prelude::*;

verus! {

/// The entries from `at` on under none of three names, put beside those that
/// are there.
pub open spec fn others_from(
    entries: Extensions,
    at: int,
    first: Seq<char>,
    second: Seq<char>,
    third: Seq<char>,
    there: Extensions,
) -> Extensions
    decreases entries.len() - at,
{
    if at < 0 || at >= entries.len() {
        there
    } else if entries[at].0 == first || entries[at].0 == second || entries[at].0 == third {
        others_from(entries, at + 1, first, second, third, there)
    } else {
        others_from(entries, at + 1, first, second, third, put(there, entries[at].0, entries[at].1))
    }
}

/// The entries of an object under none of three names.
pub open spec fn other_fields(json: JsonModel, first: Seq<char>, second: Seq<char>, third: Seq<char>) -> Extensions {
    match json {
        JsonModel::Object(entries) => others_from(entries, 0, first, second, third, Seq::empty()),
        _ => Seq::empty(),
    }
}

/// The entries of an object under none of three names.
pub fn read_other_fields(json: &Json, first: &str, second: &str, third: &str) -> (fields: StringMap<Json>)
    ensures
        fields.deep_view() == other_fields(json.deep_view(), first@, second@, third@),
        fields.in_order(),
{
    broadcast use lemma_object_model;
    let mut fields: StringMap<Json> = StringMap::new();
    if let Json::Object(entries) = json {
        let mut i: usize = 0;
        while i < entries.len()
            invariant
                i <= entries.len(),
                fields.in_order(),
                others_from(entries.deep_view(), 0, first@, second@, third@, Seq::empty()) == others_from(
                    entries.deep_view(),
                    i as int,
                    first@,
                    second@,
                    third@,
                    fields.deep_view(),
                ),
            decreases entries.len() - i,
        {
            assert(entries.deep_view()[i as int] == entries@[i as int].deep_view());
            let name = entries[i].0.as_str();
            if !(*name == *first || *name == *second || *name == *third) {
                fields.insert(entries[i].0.duplicate(), entries[i].1.duplicate());
            }
            i += 1;
        }
    }
    fields
}

/// The usage that a value reports.
pub open spec fn usage_of(json: JsonModel) -> Result<ChunkUsageModel, Seq<char>> {
    match not_object(json, "struct ChunkUsage"@) {
        Some(message) => Err(message),
        None => match given_whole(json, "completion_tokens"@, u64::MAX, "u64"@) {
            Err(message) => Err(message),
            Ok(completion) => match given_whole(json, "prompt_tokens"@, u64::MAX, "u64"@) {
                Err(message) => Err(message),
                Ok(prompt) => match given_whole(json, "total_tokens"@, u64::MAX, "u64"@) {
                    Err(message) => Err(message),
                    Ok(total) => match (prompt, completion, total) {
                        (None, _, _) => Err(missing("prompt_tokens"@)),
                        (_, None, _) => Err(missing("completion_tokens"@)),
                        (_, _, None) => Err(missing("total_tokens"@)),
                        (Some(prompt_tokens), Some(completion_tokens), Some(total_tokens)) => Ok(
                            ChunkUsageModel {
                                prompt_tokens,
                                completion_tokens,
                                total_tokens,
                                details: other_fields(
                                    json,
                                    "completion_tokens"@,
                                    "prompt_tokens"@,
                                    "total_tokens"@,
                                ),
                            },
                        ),
                    },
                },
            },
        },
    }
}

/// The usage under `usage`, where there is a value that is not null.
pub open spec fn optional_usage(json: JsonModel) -> Result<Option<ChunkUsageModel>, Seq<char>> {
    match member(json, "usage"@) {
        None => Ok(None),
        Some(JsonModel::Null) => Ok(None),
        Some(value) => match usage_of(value) {
            Ok(usage) => Ok(Some(usage)),
            Err(message) => Err(message),
        },
    }
}

fn read_usage(json: &Json) -> (usage: Result<ChunkUsage, String>)
    ensures
        outcome(usage) == usage_of(json.deep_view()),
{
    if let Some(message) = object_error(json, "struct ChunkUsage") {
        return Err(message);
    }
    let completion = match read_given_whole(json, "completion_tokens", u64::MAX, "u64") {
        Ok(value) => value,
        Err(message) => {
            return Err(message);
        },
    };
    let prompt = match read_given_whole(json, "prompt_tokens", u64::MAX, "u64") {
        Ok(value) => value,
        Err(message) => {
            return Err(message);
        },
    };
    let total = match read_given_whole(json, "total_tokens", u64::MAX, "u64") {
        Ok(value) => value,
        Err(message) => {
            return Err(message);
        },
    };
    match (prompt, completion, total) {
        (None, _, _) => Err(missing_field("prompt_tokens")),
        (_, None, _) => Err(missing_field("completion_tokens")),
        (_, _, None) => Err(missing_field("total_tokens")),
        (Some(prompt_tokens), Some(completion_tokens), Some(total_tokens)) => Ok(
            ChunkUsage {
                prompt_tokens,
                completion_tokens,
                total_tokens,
                details: read_other_fields(json, "completion_tokens", "prompt_tokens", "total_tokens"),
            },
        ),
    }
}

fn read_optional_usage(json: &Json) -> (usage: Result<Option<ChunkUsage>, String>)
    ensures
        outcome(usage) == optional_usage(json.deep_view()),
{
    match json.get("usage") {
        None => Ok(None),
        Some(Json::Null) => Ok(None),
        Some(value) => match read_usage(value) {
            Ok(usage) => Ok(Some(usage)),
            Err(message) => Err(message),
        },
    }
}

/// Which structures a delta is read as: messages name them.
#[derive(Debug, Clone, Copy, PartialEq, Eq, Structural)]
pub enum DeltaForm {
    /// Those of any Chat Completions response.
    Generic,
    /// Those of a Kimi response.
    Kimi,
}

impl DeltaForm {
    /// What the structures are read from.
    #[verifier::when_used_as_spec(spec_source)]
    pub fn source(self) -> (source: Source)
        ensures
            source == self.source(),
    {
        match self {
            DeltaForm::Generic => Source::Value,
            DeltaForm::Kimi => Source::Text,
        }
    }

    /// What the structures are read from.
    pub open spec fn spec_source(self) -> Source {
        match self {
            DeltaForm::Generic => Source::Value,
            DeltaForm::Kimi => Source::Text,
        }
    }

    /// What a delta is called.
    pub open spec fn delta_label(self) -> Seq<char> {
        match self {
            DeltaForm::Generic => "struct ChunkDelta"@,
            DeltaForm::Kimi => "struct Delta"@,
        }
    }

    /// What a delta is called.
    pub fn delta_name(self) -> (name: &'static str)
        ensures
            name@ == self.delta_label(),
    {
        match self {
            DeltaForm::Generic => "struct ChunkDelta",
            DeltaForm::Kimi => "struct Delta",
        }
    }

    /// What a part of a tool call is called.
    pub open spec fn tool_label(self) -> Seq<char> {
        match self {
            DeltaForm::Generic => "struct ToolCallFragment"@,
            DeltaForm::Kimi => "struct ToolFragment"@,
        }
    }

    /// What a part of a tool call is called.
    pub fn tool_name(self) -> (name: &'static str)
        ensures
            name@ == self.tool_label(),
    {
        match self {
            DeltaForm::Generic => "struct ToolCallFragment",
            DeltaForm::Kimi => "struct ToolFragment",
        }
    }

    /// What a part of a function is called.
    pub open spec fn function_label(self) -> Seq<char> {
        match self {
            DeltaForm::Generic => "struct ToolFunctionFragment"@,
            DeltaForm::Kimi => "struct FunctionFragment"@,
        }
    }

    /// What a part of a function is called.
    pub fn function_name(self) -> (name: &'static str)
        ensures
            name@ == self.function_label(),
    {
        match self {
            DeltaForm::Generic => "struct ToolFunctionFragment",
            DeltaForm::Kimi => "struct FunctionFragment",
        }
    }
}

/// The function that an array holds by position.
pub open spec fn seated_function(items: Seq<JsonModel>, form: DeltaForm) -> Result<ToolFunctionFragmentModel, Seq<char>> {
    match optional_text(seat(items, 0, "name"@), "name"@) {
        Err(message) => Err(message),
        Ok(name) => match optional_text(seat(items, 1, "arguments"@), "arguments"@) {
            Err(message) => Err(message),
            Ok(arguments) => filled(ToolFunctionFragmentModel { name, arguments }, items.len(), 2, form.source()),
        },
    }
}

fn read_seated_function(items: &Vec<Json>, form: DeltaForm) -> (read: Result<ToolFunctionFragment, String>)
    ensures
        outcome(read) == seated_function(items.deep_view(), form),
{
    let json = take_seat(items, 0, "name");
    let name = match read_optional_text(&json, "name") {
        Err(message) => {
            return Err(message);
        },
        Ok(value) => value,
    };
    let json = take_seat(items, 1, "arguments");
    let arguments = match read_optional_text(&json, "arguments") {
        Err(message) => {
            return Err(message);
        },
        Ok(value) => value,
    };
    fill(ToolFunctionFragment { name, arguments }, items.len(), 2, form.source())
}

/// The function under `function`, where there is a value that is not null.
pub open spec fn optional_function(json: JsonModel, form: DeltaForm) -> Result<Option<ToolFunctionFragmentModel>, Seq<char>> {
    match member(json, "function"@) {
        None => Ok(None),
        Some(JsonModel::Null) => Ok(None),
        Some(JsonModel::Array(items)) => match seated_function(items, form) {
            Err(message) => Err(message),
            Ok(function) => Ok(Some(function)),
        },
        Some(value) => match not_object(value, form.function_label()) {
            Some(message) => Err(message),
            None => match optional_text(value, "arguments"@) {
                Err(message) => Err(message),
                Ok(arguments) => match optional_text(value, "name"@) {
                    Err(message) => Err(message),
                    Ok(name) => Ok(Some(ToolFunctionFragmentModel { name, arguments })),
                },
            },
        },
    }
}

fn read_optional_function(json: &Json, form: DeltaForm) -> (function: Result<Option<ToolFunctionFragment>, String>)
    ensures
        outcome(function) == optional_function(json.deep_view(), form),
{
    broadcast use lemma_array_model;
    match json.get("function") {
        None => Ok(None),
        Some(Json::Null) => Ok(None),
        Some(Json::Array(items)) => match read_seated_function(items, form) {
            Err(message) => Err(message),
            Ok(function) => Ok(Some(function)),
        },
        Some(value) => {
            if let Some(message) = object_error(value, form.function_name()) {
                return Err(message);
            }
            match read_optional_text(value, "arguments") {
                Err(message) => Err(message),
                Ok(arguments) => match read_optional_text(value, "name") {
                    Err(message) => Err(message),
                    Ok(name) => Ok(Some(ToolFunctionFragment { name, arguments })),
                },
            }
        },
    }
}

/// The part of a tool call that an array holds by position.
pub open spec fn seated_fragment(items: Seq<JsonModel>, form: DeltaForm) -> Result<ToolCallFragmentModel, Seq<char>> {
    match given_whole(seat(items, 0, "index"@), "index"@, usize::MAX as u64, "usize"@) {
        Err(message) => Err(message),
        Ok(None) => Err(wrong_length(0, form.tool_label() + " with 4 elements"@)),
        Ok(Some(index)) => match optional_text(seat(items, 1, "id"@), "id"@) {
            Err(message) => Err(message),
            Ok(id) => match optional_text(seat(items, 2, "type"@), "type"@) {
                Err(message) => Err(message),
                Ok(kind) => match optional_function(seat(items, 3, "function"@), form) {
                    Err(message) => Err(message),
                    Ok(function) => filled(
                        ToolCallFragmentModel { index: index as usize, id, kind, function },
                        items.len(),
                        4,
                        form.source(),
                    ),
                },
            },
        },
    }
}

fn read_seated_fragment(items: &Vec<Json>, form: DeltaForm) -> (read: Result<ToolCallFragment, String>)
    ensures
        outcome(read) == seated_fragment(items.deep_view(), form),
{
    let json = take_seat(items, 0, "index");
    let index = match read_given_whole(&json, "index", usize::MAX as u64, "usize") {
        Err(message) => {
            return Err(message);
        },
        Ok(None) => {
            return Err(length_error(0, &concat(form.tool_name(), " with 4 elements")));
        },
        Ok(Some(value)) => value,
    };
    let json = take_seat(items, 1, "id");
    let id = match read_optional_text(&json, "id") {
        Err(message) => {
            return Err(message);
        },
        Ok(value) => value,
    };
    let json = take_seat(items, 2, "type");
    let kind = match read_optional_text(&json, "type") {
        Err(message) => {
            return Err(message);
        },
        Ok(value) => value,
    };
    let json = take_seat(items, 3, "function");
    let function = match read_optional_function(&json, form) {
        Err(message) => {
            return Err(message);
        },
        Ok(value) => value,
    };
    fill(ToolCallFragment { index: index as usize, id, kind, function }, items.len(), 4, form.source())
}

/// The part of a tool call that a value holds.
pub open spec fn fragment_of(json: JsonModel, form: DeltaForm) -> Result<ToolCallFragmentModel, Seq<char>> {
    match json {
        JsonModel::Array(items) => seated_fragment(items, form),
        _ => match not_object(json, form.tool_label()) {
            Some(message) => Err(message),
            None => match optional_function(json, form) {
                Err(message) => Err(message),
                Ok(function) => match optional_text(json, "id"@) {
                    Err(message) => Err(message),
                    Ok(id) => match given_whole(json, "index"@, usize::MAX as u64, "usize"@) {
                        Err(message) => Err(message),
                        Ok(index) => match optional_text(json, "type"@) {
                            Err(message) => Err(message),
                            Ok(kind) => match index {
                                None => Err(missing("index"@)),
                                Some(index) => Ok(ToolCallFragmentModel { index: index as usize, id, kind, function }),
                            },
                        },
                    },
                },
            },
        },
    }
}

fn read_fragment(json: &Json, form: DeltaForm) -> (fragment: Result<ToolCallFragment, String>)
    ensures
        outcome(fragment) == fragment_of(json.deep_view(), form),
{
    broadcast use lemma_array_model;
    if let Json::Array(items) = json {
        return read_seated_fragment(items, form);
    }
    if let Some(message) = object_error(json, form.tool_name()) {
        return Err(message);
    }
    let function = match read_optional_function(json, form) {
        Ok(function) => function,
        Err(message) => {
            return Err(message);
        },
    };
    let id = match read_optional_text(json, "id") {
        Ok(id) => id,
        Err(message) => {
            return Err(message);
        },
    };
    let index = match read_given_whole(json, "index", usize::MAX as u64, "usize") {
        Ok(index) => index,
        Err(message) => {
            return Err(message);
        },
    };
    match read_optional_text(json, "type") {
        Err(message) => Err(message),
        Ok(kind) => match index {
            None => Err(missing_field("index")),
            Some(index) => Ok(ToolCallFragment { index: index as usize, id, kind, function }),
        },
    }
}

/// The parts of tool calls from `at` on behind those that are done.
pub open spec fn fragments_from(
    items: Seq<JsonModel>,
    at: int,
    done: Seq<ToolCallFragmentModel>,
    form: DeltaForm,
) -> Result<Seq<ToolCallFragmentModel>, Seq<char>>
    decreases items.len() - at,
{
    if at < 0 || at >= items.len() {
        Ok(done)
    } else {
        match fragment_of(items[at], form) {
            Ok(fragment) => fragments_from(items, at + 1, done.push(fragment), form),
            Err(message) => Err(message),
        }
    }
}

/// The parts of tool calls under `tool_calls`, none where there is no value.
pub open spec fn given_fragments(json: JsonModel, form: DeltaForm) -> Result<Seq<ToolCallFragmentModel>, Seq<char>> {
    match member(json, "tool_calls"@) {
        None => Ok(Seq::empty()),
        Some(JsonModel::Array(items)) => fragments_from(items, 0, Seq::empty(), form),
        Some(value) => Err(wrong_type(value, "a sequence"@)),
    }
}

fn read_fragments(json: &Json, form: DeltaForm) -> (fragments: Result<Vec<ToolCallFragment>, String>)
    ensures
        outcome(fragments) == given_fragments(json.deep_view(), form),
{
    broadcast use lemma_array_model;
    match json.get("tool_calls") {
        None => Ok(no_items()),
        Some(Json::Array(items)) => {
            let mut done: Vec<ToolCallFragment> = no_items();
            let mut i: usize = 0;
            while i < items.len()
                invariant
                    i <= items.len(),
                    member(json.deep_view(), "tool_calls"@) == Some(JsonModel::Array(items.deep_view())),
                    fragments_from(items.deep_view(), 0, Seq::empty(), form) == fragments_from(
                        items.deep_view(),
                        i as int,
                        done.deep_view(),
                        form,
                    ),
                decreases items.len() - i,
            {
                assert(items.deep_view()[i as int] == items@[i as int].deep_view());
                match read_fragment(&items[i], form) {
                    Ok(fragment) => {
                        push_item(&mut done, fragment);
                    },
                    Err(message) => {
                        return Err(message);
                    },
                }
                i += 1;
            }
            Ok(done)
        },
        Some(value) => Err(type_error(value, "a sequence")),
    }
}

/// What a value adds to a response.
pub open spec fn delta_of(json: JsonModel, form: DeltaForm) -> Result<ChunkDeltaModel, Seq<char>> {
    match not_object(json, form.delta_label()) {
        Some(message) => Err(message),
        None => match optional_text(json, "content"@) {
            Err(message) => Err(message),
            Ok(content) => match optional_text(json, "role"@) {
                Err(message) => Err(message),
                Ok(role) => match given_fragments(json, form) {
                    Err(message) => Err(message),
                    Ok(tool_calls) => Ok(
                        ChunkDeltaModel {
                            role,
                            content,
                            tool_calls,
                            extensions: other_fields(json, "content"@, "role"@, "tool_calls"@),
                        },
                    ),
                },
            },
        },
    }
}

fn read_delta(json: &Json, form: DeltaForm) -> (delta: Result<ChunkDelta, String>)
    ensures
        outcome(delta) == delta_of(json.deep_view(), form),
{
    if let Some(message) = object_error(json, form.delta_name()) {
        return Err(message);
    }
    match read_optional_text(json, "content") {
        Err(message) => Err(message),
        Ok(content) => match read_optional_text(json, "role") {
            Err(message) => Err(message),
            Ok(role) => match read_fragments(json, form) {
                Err(message) => Err(message),
                Ok(tool_calls) => Ok(
                    ChunkDelta {
                        role,
                        content,
                        tool_calls,
                        extensions: read_other_fields(json, "content", "role", "tool_calls"),
                    },
                ),
            },
        },
    }
}

/// The delta under `delta`, where there is a value.
pub open spec fn given_delta(json: JsonModel, form: DeltaForm) -> Result<Option<ChunkDeltaModel>, Seq<char>> {
    match member(json, "delta"@) {
        None => Ok(None),
        Some(value) => match delta_of(value, form) {
            Ok(delta) => Ok(Some(delta)),
            Err(message) => Err(message),
        },
    }
}

/// The delta under `delta`, where there is a value.
pub fn read_given_delta(json: &Json, form: DeltaForm) -> (delta: Result<Option<ChunkDelta>, String>)
    ensures
        outcome(delta) == given_delta(json.deep_view(), form),
{
    match json.get("delta") {
        None => Ok(None),
        Some(value) => match read_delta(value, form) {
            Ok(delta) => Ok(Some(delta)),
            Err(message) => Err(message),
        },
    }
}

/// The choice that an array holds by position.
pub open spec fn seated_choice(items: Seq<JsonModel>) -> Result<ChunkChoiceModel, Seq<char>> {
    match given_whole(seat(items, 0, "index"@), "index"@, usize::MAX as u64, "usize"@) {
        Err(message) => Err(message),
        Ok(None) => Err(wrong_length(0, "struct ChunkChoice with 4 elements"@)),
        Ok(Some(index)) => match given_delta(seat(items, 1, "delta"@), DeltaForm::Generic) {
            Err(message) => Err(message),
            Ok(None) => Err(wrong_length(1, "struct ChunkChoice with 4 elements"@)),
            Ok(Some(delta)) => match optional_text(seat(items, 2, "finish_reason"@), "finish_reason"@) {
                Err(message) => Err(message),
                Ok(finish_reason) => match optional_usage(seat(items, 3, "usage"@)) {
                    Err(message) => Err(message),
                    Ok(usage) => filled(
                        ChunkChoiceModel { index: index as usize, delta, finish_reason, usage },
                        items.len(),
                        4,
                        Source::Value,
                    ),
                },
            },
        },
    }
}

fn read_seated_choice(items: &Vec<Json>) -> (read: Result<ChunkChoice, String>)
    ensures
        outcome(read) == seated_choice(items.deep_view()),
{
    let json = take_seat(items, 0, "index");
    let index = match read_given_whole(&json, "index", usize::MAX as u64, "usize") {
        Err(message) => {
            return Err(message);
        },
        Ok(None) => {
            return Err(length_error(0, "struct ChunkChoice with 4 elements"));
        },
        Ok(Some(value)) => value,
    };
    let json = take_seat(items, 1, "delta");
    let delta = match read_given_delta(&json, DeltaForm::Generic) {
        Err(message) => {
            return Err(message);
        },
        Ok(None) => {
            return Err(length_error(1, "struct ChunkChoice with 4 elements"));
        },
        Ok(Some(value)) => value,
    };
    let json = take_seat(items, 2, "finish_reason");
    let finish_reason = match read_optional_text(&json, "finish_reason") {
        Err(message) => {
            return Err(message);
        },
        Ok(value) => value,
    };
    let json = take_seat(items, 3, "usage");
    let usage = match read_optional_usage(&json) {
        Err(message) => {
            return Err(message);
        },
        Ok(value) => value,
    };
    fill(ChunkChoice { index: index as usize, delta, finish_reason, usage }, items.len(), 4, Source::Value)
}

/// The choice that a value holds.
pub open spec fn choice_of(json: JsonModel) -> Result<ChunkChoiceModel, Seq<char>> {
    match json {
        JsonModel::Array(items) => seated_choice(items),
        _ => match not_object(json, "struct ChunkChoice"@) {
            Some(message) => Err(message),
            None => match given_delta(json, DeltaForm::Generic) {
                Err(message) => Err(message),
                Ok(delta) => match optional_text(json, "finish_reason"@) {
                    Err(message) => Err(message),
                    Ok(finish_reason) => match given_whole(json, "index"@, usize::MAX as u64, "usize"@) {
                        Err(message) => Err(message),
                        Ok(index) => match optional_usage(json) {
                            Err(message) => Err(message),
                            Ok(usage) => match (index, delta) {
                                (None, _) => Err(missing("index"@)),
                                (_, None) => Err(missing("delta"@)),
                                (Some(index), Some(delta)) => Ok(
                                    ChunkChoiceModel { index: index as usize, delta, finish_reason, usage },
                                ),
                            },
                        },
                    },
                },
            },
        },
    }
}

fn read_choice(json: &Json) -> (choice: Result<ChunkChoice, String>)
    ensures
        outcome(choice) == choice_of(json.deep_view()),
{
    broadcast use lemma_array_model;
    if let Json::Array(items) = json {
        return read_seated_choice(items);
    }
    if let Some(message) = object_error(json, "struct ChunkChoice") {
        return Err(message);
    }
    let delta = match read_given_delta(json, DeltaForm::Generic) {
        Ok(delta) => delta,
        Err(message) => {
            return Err(message);
        },
    };
    let finish_reason = match read_optional_text(json, "finish_reason") {
        Ok(reason) => reason,
        Err(message) => {
            return Err(message);
        },
    };
    let index = match read_given_whole(json, "index", usize::MAX as u64, "usize") {
        Ok(index) => index,
        Err(message) => {
            return Err(message);
        },
    };
    match read_optional_usage(json) {
        Err(message) => Err(message),
        Ok(usage) => match (index, delta) {
            (None, _) => Err(missing_field("index")),
            (_, None) => Err(missing_field("delta")),
            (Some(index), Some(delta)) => Ok(ChunkChoice { index: index as usize, delta, finish_reason, usage }),
        },
    }
}

/// The choices from `at` on behind those that are done.
pub open spec fn choices_from(items: Seq<JsonModel>, at: int, done: Seq<ChunkChoiceModel>) -> Result<
    Seq<ChunkChoiceModel>,
    Seq<char>,
>
    decreases items.len() - at,
{
    if at < 0 || at >= items.len() {
        Ok(done)
    } else {
        match choice_of(items[at]) {
            Ok(choice) => choices_from(items, at + 1, done.push(choice)),
            Err(message) => Err(message),
        }
    }
}

/// The choices under `choices`, where there is a value.
pub open spec fn given_choices(json: JsonModel) -> Result<Option<Seq<ChunkChoiceModel>>, Seq<char>> {
    match member(json, "choices"@) {
        None => Ok(None),
        Some(JsonModel::Array(items)) => match choices_from(items, 0, Seq::empty()) {
            Ok(choices) => Ok(Some(choices)),
            Err(message) => Err(message),
        },
        Some(value) => Err(wrong_type(value, "a sequence"@)),
    }
}

fn read_choices(json: &Json) -> (choices: Result<Option<Vec<ChunkChoice>>, String>)
    ensures
        outcome(choices) == given_choices(json.deep_view()),
{
    broadcast use lemma_array_model;
    match json.get("choices") {
        None => Ok(None),
        Some(Json::Array(items)) => {
            let mut done: Vec<ChunkChoice> = no_items();
            let mut i: usize = 0;
            while i < items.len()
                invariant
                    i <= items.len(),
                    member(json.deep_view(), "choices"@) == Some(JsonModel::Array(items.deep_view())),
                    choices_from(items.deep_view(), 0, Seq::empty()) == choices_from(
                        items.deep_view(),
                        i as int,
                        done.deep_view(),
                    ),
                decreases items.len() - i,
            {
                assert(items.deep_view()[i as int] == items@[i as int].deep_view());
                match read_choice(&items[i]) {
                    Ok(choice) => {
                        push_item(&mut done, choice);
                    },
                    Err(message) => {
                        return Err(message);
                    },
                }
                i += 1;
            }
            Ok(Some(done))
        },
        Some(value) => Err(type_error(value, "a sequence")),
    }
}

/// The chunk that an array holds by position.
pub open spec fn seated_chunk(items: Seq<JsonModel>) -> Result<ChatCompletionChunkModel, Seq<char>> {
    match given_text(seat(items, 0, "id"@), "id"@) {
        Err(message) => Err(message),
        Ok(None) => Err(wrong_length(0, "struct ChatCompletionChunk with 3 elements"@)),
        Ok(Some(id)) => match given_choices(seat(items, 1, "choices"@)) {
            Err(message) => Err(message),
            Ok(None) => Err(wrong_length(1, "struct ChatCompletionChunk with 3 elements"@)),
            Ok(Some(choices)) => match optional_usage(seat(items, 2, "usage"@)) {
                Err(message) => Err(message),
                Ok(usage) => filled(ChatCompletionChunkModel { id, choices, usage }, items.len(), 3, Source::Value),
            },
        },
    }
}

fn read_seated_chunk(items: &Vec<Json>) -> (read: Result<ChatCompletionChunk, String>)
    ensures
        outcome(read) == seated_chunk(items.deep_view()),
{
    let json = take_seat(items, 0, "id");
    let id = match read_given_text(&json, "id") {
        Err(message) => {
            return Err(message);
        },
        Ok(None) => {
            return Err(length_error(0, "struct ChatCompletionChunk with 3 elements"));
        },
        Ok(Some(value)) => value,
    };
    let json = take_seat(items, 1, "choices");
    let choices = match read_choices(&json) {
        Err(message) => {
            return Err(message);
        },
        Ok(None) => {
            return Err(length_error(1, "struct ChatCompletionChunk with 3 elements"));
        },
        Ok(Some(value)) => value,
    };
    let json = take_seat(items, 2, "usage");
    let usage = match read_optional_usage(&json) {
        Err(message) => {
            return Err(message);
        },
        Ok(value) => value,
    };
    fill(ChatCompletionChunk { id, choices, usage }, items.len(), 3, Source::Value)
}

/// The chunk that a value holds, or the message for what does not fit: of the
/// fields that are there the first in the order of their names, then of those
/// that are not the first in the order of the structure.
pub open spec fn chunk_of(json: JsonModel) -> Result<ChatCompletionChunkModel, Seq<char>> {
    match json {
        JsonModel::Array(items) => seated_chunk(items),
        _ => match not_object(json, "struct ChatCompletionChunk"@) {
            Some(message) => Err(message),
            None => match given_choices(json) {
                Err(message) => Err(message),
                Ok(choices) => match given_text(json, "id"@) {
                    Err(message) => Err(message),
                    Ok(id) => match optional_usage(json) {
                        Err(message) => Err(message),
                        Ok(usage) => match (id, choices) {
                            (None, _) => Err(missing("id"@)),
                            (_, None) => Err(missing("choices"@)),
                            (Some(id), Some(choices)) => Ok(ChatCompletionChunkModel { id, choices, usage }),
                        },
                    },
                },
            },
        },
    }
}

impl ChatCompletionChunk {
    /// The chunk that a value holds.
    pub fn from_json(json: &Json) -> (chunk: Result<ChatCompletionChunk, String>)
        ensures
            outcome(chunk) == chunk_of(json.deep_view()),
    {
        broadcast use lemma_array_model;
        if let Json::Array(items) = json {
            return read_seated_chunk(items);
        }
        if let Some(message) = object_error(json, "struct ChatCompletionChunk") {
            return Err(message);
        }
        let choices = match read_choices(json) {
            Ok(choices) => choices,
            Err(message) => {
                return Err(message);
            },
        };
        let id = match read_given_text(json, "id") {
            Ok(id) => id,
            Err(message) => {
                return Err(message);
            },
        };
        match read_optional_usage(json) {
            Err(message) => Err(message),
            Ok(usage) => match (id, choices) {
                (None, _) => Err(missing_field("id")),
                (_, None) => Err(missing_field("choices")),
                (Some(id), Some(choices)) => Ok(ChatCompletionChunk { id, choices, usage }),
            },
        }
    }
}

} // verus!
