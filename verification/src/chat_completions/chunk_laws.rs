//! How the chunks of a response are read.
use crate::chat_completions::chunk::{
    choice_of, choices_from, chunk_of, delta_of, fragment_of, fragments_from, other_fields, others_from, usage_of,
    DeltaForm,
};
use crate::chat_completions::dialect::Extensions;
use crate::chat_completions::types::{
    ChatCompletionChunkModel, ChunkChoiceModel, ChunkDeltaModel, ChunkUsageModel, ToolCallFragmentModel,
};
use crate::fields::{law_put_then_lookup, lemma_lookup_none, lookup, put};
use crate::json::{distinct, member, JsonModel};
use crate::read::{number_at, text_at};
use vstd::prelude::*;

verus! {

proof fn lemma_others(
    entries: Extensions,
    at: int,
    first: Seq<char>,
    second: Seq<char>,
    third: Seq<char>,
    there: Extensions,
    name: Seq<char>,
)
    requires
        0 <= at <= entries.len(),
        distinct(entries),
    ensures
        lookup(others_from(entries, at, first, second, third, there), name) == if name == first || name == second || name
            == third {
            lookup(there, name)
        } else {
            match lookup(entries.skip(at), name) {
                Some(value) => Some(value),
                None => lookup(there, name),
            }
        },
    decreases entries.len() - at,
{
    if at < entries.len() {
        let rest = entries.skip(at);
        assert(rest[0] == entries[at]);
        assert(rest.drop_first() =~= entries.skip(at + 1));
        if entries[at].0 == first || entries[at].0 == second || entries[at].0 == third {
            lemma_others(entries, at + 1, first, second, third, there, name);
        } else {
            let more = put(there, entries[at].0, entries[at].1);
            lemma_others(entries, at + 1, first, second, third, more, name);
            law_put_then_lookup(there, entries[at].0, entries[at].1, name);
            if name == entries[at].0 {
                let after = entries.skip(at + 1);
                assert forall|i: int| 0 <= i < after.len() implies (#[trigger] after[i]).0 != name by {
                    assert(after[i] == entries[at + 1 + i]);
                }
                lemma_lookup_none(after, name);
            }
        }
    }
}

/// The fields that are no field of a form are kept with their values.
pub proof fn law_other_fields_are_kept(
    json: JsonModel,
    first: Seq<char>,
    second: Seq<char>,
    third: Seq<char>,
    name: Seq<char>,
)
    requires
        json is Object,
        distinct(json->Object_0),
    ensures
        lookup(other_fields(json, first, second, third), name) == if name == first || name == second || name == third {
            None
        } else {
            member(json, name)
        },
{
    let entries = json->Object_0;
    lemma_others(entries, 0, first, second, third, Seq::empty(), name);
    assert(entries.skip(0) =~= entries);
}

/// What was used is read number by number; what else is told of it is kept.
pub proof fn law_usage_is_read_as_it_stands(
    json: JsonModel,
    prompt_tokens: u64,
    completion_tokens: u64,
    total_tokens: u64,
    name: Seq<char>,
)
    requires
        json is Object,
        distinct(json->Object_0),
        number_at(json, "prompt_tokens"@, prompt_tokens),
        number_at(json, "completion_tokens"@, completion_tokens),
        number_at(json, "total_tokens"@, total_tokens),
    ensures
        usage_of(json) matches Ok(usage) && usage.prompt_tokens == prompt_tokens && usage.completion_tokens
            == completion_tokens && usage.total_tokens == total_tokens && lookup(usage.details, name) == if name
            == "prompt_tokens"@ || name == "completion_tokens"@ || name == "total_tokens"@ {
            None
        } else {
            member(json, name)
        },
{
    law_other_fields_are_kept(json, "completion_tokens"@, "prompt_tokens"@, "total_tokens"@, name);
}

/// Whether JSON is a part of a tool call.
pub open spec fn is_fragment(json: JsonModel, fragment: ToolCallFragmentModel) -> bool {
    &&& json is Object
    &&& number_at(json, "index"@, fragment.index as u64)
    &&& text_at(json, "id"@, fragment.id)
    &&& text_at(json, "type"@, fragment.kind)
    &&& match fragment.function {
        None => member(json, "function"@) is None || member(json, "function"@) == Some(JsonModel::Null),
        Some(function) => member(json, "function"@) matches Some(part) && part is Object && text_at(
            part,
            "name"@,
            function.name,
        ) && text_at(part, "arguments"@, function.arguments),
    }
}

/// A part of a tool call is read as it stands.
pub proof fn law_fragments_are_read_as_they_stand(json: JsonModel, fragment: ToolCallFragmentModel, form: DeltaForm)
    requires
        is_fragment(json, fragment),
    ensures
        fragment_of(json, form) == Ok::<ToolCallFragmentModel, Seq<char>>(fragment),
{
}

/// Whether JSON is a list of parts of tool calls; none stand for no list.
pub open spec fn is_fragments(json: Option<JsonModel>, fragments: Seq<ToolCallFragmentModel>) -> bool {
    match json {
        None => fragments.len() == 0,
        Some(list) => list is Array && list->Array_0.len() == fragments.len() && forall|i: int|
            0 <= i < fragments.len() ==> is_fragment(list->Array_0[i], #[trigger] fragments[i]),
    }
}

proof fn lemma_fragments(
    items: Seq<JsonModel>,
    at: int,
    done: Seq<ToolCallFragmentModel>,
    fragments: Seq<ToolCallFragmentModel>,
    form: DeltaForm,
)
    requires
        0 <= at <= items.len() == fragments.len(),
        done == fragments.take(at),
        forall|i: int| 0 <= i < fragments.len() ==> is_fragment(items[i], #[trigger] fragments[i]),
    ensures
        fragments_from(items, at, done, form) == Ok::<Seq<ToolCallFragmentModel>, Seq<char>>(fragments),
    decreases items.len() - at,
{
    if at < items.len() {
        assert(is_fragment(items[at], fragments[at]));
        law_fragments_are_read_as_they_stand(items[at], fragments[at], form);
        assert(done.push(fragments[at]) =~= fragments.take(at + 1));
        lemma_fragments(items, at + 1, done.push(fragments[at]), fragments, form);
    } else {
        assert(fragments.take(at) =~= fragments);
    }
}

/// A part of a message is read as it stands: its role, its content, every part of a
/// tool call in order, and beside them every other field.
pub proof fn law_deltas_are_read_as_they_stand(
    json: JsonModel,
    role: Option<Seq<char>>,
    content: Option<Seq<char>>,
    fragments: Seq<ToolCallFragmentModel>,
    form: DeltaForm,
    name: Seq<char>,
)
    requires
        json is Object,
        distinct(json->Object_0),
        text_at(json, "role"@, role),
        text_at(json, "content"@, content),
        is_fragments(member(json, "tool_calls"@), fragments),
    ensures
        delta_of(json, form) matches Ok(delta) && delta.role == role && delta.content == content && delta.tool_calls
            == fragments && lookup(delta.extensions, name) == if name == "content"@ || name == "role"@ || name
            == "tool_calls"@ {
            None
        } else {
            member(json, name)
        },
{
    law_other_fields_are_kept(json, "content"@, "role"@, "tool_calls"@, name);
    match member(json, "tool_calls"@) {
        None => {
            assert(fragments =~= Seq::empty());
        },
        Some(list) => {
            assert(fragments.take(0) =~= Seq::empty());
            lemma_fragments(list->Array_0, 0, Seq::empty(), fragments, form);
        },
    }
}

/// Whether JSON tells what was used, or nothing of it.
pub open spec fn usage_at(json: JsonModel, usage: Option<ChunkUsageModel>) -> bool {
    match usage {
        None => member(json, "usage"@) is None || member(json, "usage"@) == Some(JsonModel::Null),
        Some(usage) => member(json, "usage"@) matches Some(part) && part is Object && usage_of(part) == Ok::<
            ChunkUsageModel,
            Seq<char>,
        >(usage),
    }
}

/// Whether JSON is a choice.
pub open spec fn is_choice(json: JsonModel, choice: ChunkChoiceModel) -> bool {
    &&& json is Object
    &&& number_at(json, "index"@, choice.index as u64)
    &&& member(json, "delta"@) matches Some(part) && delta_of(part, DeltaForm::Generic) == Ok::<
        ChunkDeltaModel,
        Seq<char>,
    >(choice.delta)
    &&& text_at(json, "finish_reason"@, choice.finish_reason)
    &&& usage_at(json, choice.usage)
}

proof fn lemma_choices(
    items: Seq<JsonModel>,
    at: int,
    done: Seq<ChunkChoiceModel>,
    choices: Seq<ChunkChoiceModel>,
)
    requires
        0 <= at <= items.len() == choices.len(),
        done == choices.take(at),
        forall|i: int| 0 <= i < choices.len() ==> is_choice(items[i], #[trigger] choices[i]),
    ensures
        choices_from(items, at, done) == Ok::<Seq<ChunkChoiceModel>, Seq<char>>(choices),
    decreases items.len() - at,
{
    if at < items.len() {
        assert(is_choice(items[at], choices[at]));
        assert(choice_of(items[at]) == Ok::<ChunkChoiceModel, Seq<char>>(choices[at]));
        assert(done.push(choices[at]) =~= choices.take(at + 1));
        lemma_choices(items, at + 1, done.push(choices[at]), choices);
    } else {
        assert(choices.take(at) =~= choices);
    }
}

/// A chunk is read as it stands: its id, every choice in order, and what was used
/// where it tells that.
pub proof fn law_chunks_are_read_as_they_stand(json: JsonModel, chunk: ChatCompletionChunkModel)
    requires
        json is Object,
        text_at(json, "id"@, Some(chunk.id)),
        member(json, "choices"@) matches Some(list) && list is Array && list->Array_0.len() == chunk.choices.len()
            && forall|i: int|
            0 <= i < chunk.choices.len() ==> is_choice(list->Array_0[i], #[trigger] chunk.choices[i]),
        usage_at(json, chunk.usage),
    ensures
        chunk_of(json) == Ok::<ChatCompletionChunkModel, Seq<char>>(chunk),
{
    assert(chunk.choices.take(0) =~= Seq::empty());
    lemma_choices(member(json, "choices"@)->0->Array_0, 0, Seq::empty(), chunk.choices);
}

} // verus!
