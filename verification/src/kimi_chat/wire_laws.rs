//! How the chunks of a Kimi response are read.
use crate::chat_completions::chunk::{delta_of, DeltaForm};
use crate::chat_completions::types::ChunkDeltaModel;
use crate::fields::lookup;
use crate::json::{member, JsonModel};
use crate::kimi_chat::request::KimiReasoningKey;
use crate::kimi_chat::stream::reasoning_in;
use crate::kimi_chat::stream_types::{
    choice_of, choices_from, chunk_of, usage_of, KimiChoiceModel, KimiChunkModel, KimiUsage,
};
use crate::read::{count_at, number_at, text_at};
use vstd::prelude::*;

verus! {

/// Whether JSON tells a count under a name of its own, or under a name among its
/// details.
pub open spec fn detail_at(json: JsonModel, details: Seq<char>, name: Seq<char>, count: Option<u64>) -> bool {
    match member(json, details) {
        None => count is None,
        Some(JsonModel::Null) => count is None,
        Some(part) => part is Object && count_at(part, name, count),
    }
}

/// What was used is read number by number. What came out of the cache and what
/// went into reasoning is told beside the other numbers, or among their details,
/// or else it is nothing.
pub proof fn law_usage_is_read_as_it_stands(
    json: JsonModel,
    prompt_tokens: u64,
    completion_tokens: u64,
    total_tokens: u64,
    cached: Option<u64>,
    cached_detail: Option<u64>,
    reasoning: Option<u64>,
    reasoning_detail: Option<u64>,
)
    requires
        json is Object,
        number_at(json, "prompt_tokens"@, prompt_tokens),
        number_at(json, "completion_tokens"@, completion_tokens),
        number_at(json, "total_tokens"@, total_tokens),
        count_at(json, "cached_tokens"@, cached),
        count_at(json, "reasoning_tokens"@, reasoning),
        detail_at(json, "prompt_tokens_details"@, "cached_tokens"@, cached_detail),
        detail_at(json, "completion_tokens_details"@, "reasoning_tokens"@, reasoning_detail),
    ensures
        usage_of(json) == Ok::<KimiUsage, Seq<char>>(
            KimiUsage {
                prompt_tokens,
                completion_tokens,
                total_tokens,
                cached_prompt_tokens: if cached is Some {
                    cached->0
                } else if cached_detail is Some {
                    cached_detail->0
                } else {
                    0
                },
                reasoning_tokens: if reasoning is Some {
                    reasoning->0
                } else if reasoning_detail is Some {
                    reasoning_detail->0
                } else {
                    0
                },
            },
        ),
{
}

/// Whether JSON tells what was used, or nothing of it.
pub open spec fn usage_at(json: JsonModel, usage: Option<KimiUsage>) -> bool {
    match usage {
        None => member(json, "usage"@) is None || member(json, "usage"@) == Some(JsonModel::Null),
        Some(usage) => member(json, "usage"@) matches Some(part) && part is Object && usage_of(part) == Ok::<
            KimiUsage,
            Seq<char>,
        >(usage),
    }
}

/// Whether JSON is a choice.
pub open spec fn is_choice(json: JsonModel, choice: KimiChoiceModel) -> bool {
    &&& json is Object
    &&& number_at(json, "index"@, choice.index as u64)
    &&& member(json, "delta"@) matches Some(part) && delta_of(part, DeltaForm::Kimi) == Ok::<
        ChunkDeltaModel,
        Seq<char>,
    >(choice.delta)
    &&& text_at(json, "finish_reason"@, choice.finish_reason)
    &&& usage_at(json, choice.usage)
}

proof fn lemma_choices(items: Seq<JsonModel>, at: int, done: Seq<KimiChoiceModel>, choices: Seq<KimiChoiceModel>)
    requires
        0 <= at <= items.len() == choices.len(),
        done == choices.take(at),
        forall|i: int| 0 <= i < choices.len() ==> is_choice(items[i], #[trigger] choices[i]),
    ensures
        choices_from(items, at, done) == Ok::<Seq<KimiChoiceModel>, Seq<char>>(choices),
    decreases items.len() - at,
{
    if at < items.len() {
        assert(is_choice(items[at], choices[at]));
        assert(choice_of(items[at]) == Ok::<KimiChoiceModel, Seq<char>>(choices[at]));
        assert(done.push(choices[at]) =~= choices.take(at + 1));
        lemma_choices(items, at + 1, done.push(choices[at]), choices);
    } else {
        assert(choices.take(at) =~= choices);
    }
}

/// A chunk is read as it stands: its id, every choice in order, and what was used
/// where it tells that.
pub proof fn law_chunks_are_read_as_they_stand(json: JsonModel, chunk: KimiChunkModel)
    requires
        json is Object,
        text_at(json, "id"@, Some(chunk.id)),
        member(json, "choices"@) matches Some(list) && list is Array && list->Array_0.len() == chunk.choices.len()
            && forall|i: int|
            0 <= i < chunk.choices.len() ==> is_choice(list->Array_0[i], #[trigger] chunk.choices[i]),
        usage_at(json, chunk.usage),
    ensures
        chunk_of(json) == Ok::<KimiChunkModel, Seq<char>>(chunk),
{
    assert(chunk.choices.take(0) =~= Seq::empty());
    lemma_choices(member(json, "choices"@)->0->Array_0, 0, Seq::empty(), chunk.choices);
}

/// Reasoning is found under the first of its names that holds a text.
pub proof fn law_reasoning_is_found_by_name(fields: Seq<(Seq<char>, JsonModel)>)
    ensures
        ({
            let first = lookup(fields, "reasoning_content"@);
            let second = lookup(fields, "reasoning"@);
            let third = lookup(fields, "reasoning_details"@);
            let found = reasoning_in(fields);
            &&& first matches Some(JsonModel::Text(text)) ==> found == Some((KimiReasoningKey::ReasoningContent, text))
            &&& !(first matches Some(JsonModel::Text(_))) ==> (second matches Some(JsonModel::Text(text)) ==> found
                == Some((KimiReasoningKey::Reasoning, text)))
            &&& !(first matches Some(JsonModel::Text(_))) && !(second matches Some(JsonModel::Text(_))) ==> (
            third matches Some(JsonModel::Text(text)) ==> found == Some((KimiReasoningKey::ReasoningDetails, text)))
            &&& found is None ==> !(first matches Some(JsonModel::Text(_))) && !(second matches Some(
                JsonModel::Text(_),
            )) && !(third matches Some(JsonModel::Text(_)))
        }),
{
}

} // verus!
