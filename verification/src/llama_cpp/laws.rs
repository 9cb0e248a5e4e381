//! What holds of the models of an endpoint, of the requests to them and of its
//! failures.
use crate::api::{ApiErrorModel, Delay, ResponseEventModel, TransportErrorModel};
use crate::fields::{lemma_lookup_at, lemma_lookup_none};
use crate::json::{json_parse, json_parse_bytes, member, JsonModel, JsonNumberModel};
use crate::llama_cpp::catalog::{
    after_separator, basename, catalog_of, goes_by, model_of, models_from, models_of, namesakes, resolved,
    selected_from, short_name, DiscoveredModelModel, LlamaCppCatalogEntryModel, LlamaCppCatalogModel,
    CONVENIENCE_ALIAS,
};
use crate::llama_cpp::request::{
    local_level, request_body, template_settings, LlamaCppPreparedRequestModel, LlamaCppRequestInputModel,
};
use crate::llama_cpp::runtime::{
    action_after_health, after_listing, class_of, doubled, error_text, health_answer, lasting_words, model_named,
    models_answer, prepared, runtime_at, streamed, tokens_answer, without_slashes, DiscoveryActionModel,
    LlamaCppRuntimeModel, LlamaCppStreamItemModel, ReadinessPolicy, ReadinessState,
};
use crate::protocol::ReasoningEffortModel;
use crate::read::{number_at, text_at};
use crate::text::{all_white, lowercase, mentions, occurs, without_suffix};
use vstd::prelude::*;

verus! {

// ---- models ----

/// Whether a name is the last part of a path.
pub open spec fn is_last_part(path: Seq<char>, name: Seq<char>) -> bool {
    &&& name.len() <= path.len()
    &&& path.skip(path.len() - name.len()) == name
    &&& !name.contains('/') && !name.contains('\\')
    &&& name.len() < path.len() ==> path[path.len() - name.len() - 1] == '/' || path[path.len() - name.len() - 1]
        == '\\'
}

/// Whether a name is another without the ending of a model file, where that has it.
pub open spec fn is_without_ending(name: Seq<char>, short: Seq<char>) -> bool {
    if name.len() >= 5 && name.skip(name.len() - 5) == ".gguf"@ {
        name == short + ".gguf"@
    } else {
        short == name
    }
}

proof fn lemma_separator(id: Seq<char>, end: int)
    requires
        0 <= end <= id.len(),
    ensures
        0 <= after_separator(id, end) <= end,
        forall|i: int| after_separator(id, end) <= i < end ==> id[i] != '/' && id[i] != '\\',
        after_separator(id, end) > 0 ==> id[after_separator(id, end) - 1] == '/' || id[after_separator(id, end) - 1]
            == '\\',
    decreases end,
{
    if end > 0 && id[end - 1] != '/' && id[end - 1] != '\\' {
        lemma_separator(id, end - 1);
    }
}

/// Whether a model has a short name that no other has, in whatever case.
pub open spec fn has_own_name(data: Seq<DiscoveredModelModel>, index: int) -> bool {
    forall|j: int|
        0 <= j < data.len() && j != index ==> lowercase(short_name((#[trigger] data[j]).id)) != lowercase(
            short_name(data[index].id),
        )
}

proof fn lemma_namesakes(data: Seq<DiscoveredModelModel>, name: Seq<char>, at: int)
    requires
        0 <= at <= data.len(),
    ensures
        namesakes(data, name, at) == 0 <==> forall|j: int|
            at <= j < data.len() ==> lowercase(short_name((#[trigger] data[j]).id)) != lowercase(name),
    decreases data.len() - at,
{
    if at < data.len() {
        lemma_namesakes(data, name, at + 1);
    }
}

proof fn lemma_one_namesake(data: Seq<DiscoveredModelModel>, name: Seq<char>, at: int, index: int)
    requires
        0 <= at <= index < data.len(),
        lowercase(short_name(data[index].id)) == lowercase(name),
    ensures
        namesakes(data, name, at) >= 1,
        namesakes(data, name, at) == 1 <==> forall|j: int|
            at <= j < data.len() && j != index ==> lowercase(short_name((#[trigger] data[j]).id)) != lowercase(name),
    decreases data.len() - at,
{
    lemma_namesakes(data, name, at + 1);
    if at < index {
        lemma_one_namesake(data, name, at + 1, index);
    }
}

/// A model is listed under its own id, shown by the last part of it, and found by
/// its short name where that is its own and by the usual name where it is the only
/// model. Its window is the one that the endpoint tells, or else the usual one; what
/// is left of it beside the output and a margin is for the input.
pub proof fn law_models_are_listed_as_they_are(data: Seq<DiscoveredModelModel>, index: int, name: Seq<char>)
    requires
        0 <= index < data.len(),
    ensures
        ({
            let entry = catalog_of(data).models[index];
            let model = data[index];
            let told = model.meta is Some && model.meta->0.n_ctx is Some && model.meta->0.n_ctx->0 > 0;
            &&& catalog_of(data).models.len() == data.len()
            &&& entry.wire_model == model.id
            &&& entry.canonical_id == "local/"@ + model.id
            &&& is_last_part(model.id, entry.display_name)
            &&& is_without_ending(entry.display_name, short_name(model.id))
            &&& entry.aliases.contains(name) <==> (name == short_name(model.id) && has_own_name(data, index)) || (name
                == "llama-cpp-local"@ && data.len() == 1)
            &&& told ==> entry.context_window == model.meta->0.n_ctx->0
            &&& !told ==> entry.context_window == 32_768
            &&& entry.max_output_tokens == 8_192
            &&& entry.safety_margin_tokens == 1_024
            &&& entry.context_window >= entry.max_output_tokens + entry.safety_margin_tokens ==> entry.max_input_tokens
                + entry.max_output_tokens + entry.safety_margin_tokens == entry.context_window
            &&& entry.context_window < entry.max_output_tokens + entry.safety_margin_tokens ==> entry.max_input_tokens
                == 0
        }),
{
    let entry = catalog_of(data).models[index];
    let id = data[index].id;
    lemma_separator(id, id.len() as int);
    let start = after_separator(id, id.len() as int);
    let shown = basename(id);
    assert(id.skip(id.len() - shown.len()) =~= shown);
    if shown.contains('/') {
        let k = choose|k: int| 0 <= k < shown.len() && shown[k] == '/';
        assert(id[start + k] == '/');
    }
    if shown.contains('\\') {
        let k = choose|k: int| 0 <= k < shown.len() && shown[k] == '\\';
        assert(id[start + k] == '\\');
    }
    reveal_strlit(".gguf");
    if without_suffix(shown, ".gguf"@) is Some {
        let short = shown.take(shown.len() - 5);
        assert(shown =~= short + shown.skip(shown.len() - 5));
    }
    lemma_one_namesake(data, short_name(id), 0, index);
    let own = if namesakes(data, short_name(id), 0) == 1 {
        seq![short_name(id)]
    } else {
        Seq::empty()
    };
    assert(own.contains(name) <==> name == short_name(id) && has_own_name(data, index)) by {
        if has_own_name(data, index) {
            assert(own[0] == short_name(id));
        }
    }
    if data.len() == 1 && own != seq![CONVENIENCE_ALIAS@] {
        let all = own.push(CONVENIENCE_ALIAS@);
        assert(all[own.len() as int] == CONVENIENCE_ALIAS@);
        if own.contains(name) {
            let k = choose|k: int| 0 <= k < own.len() && own[k] == name;
            assert(all[k] == name);
        }
        if all.contains(name) && name != CONVENIENCE_ALIAS@ {
            let k = choose|k: int| 0 <= k < all.len() && all[k] == name;
            assert(own[k] == name);
        }
    } else if data.len() == 1 {
        assert(own[0] == CONVENIENCE_ALIAS@);
    }
}

/// Whether JSON is a model that an endpoint tells of.
pub open spec fn is_model(json: JsonModel, model: DiscoveredModelModel) -> bool {
    &&& json is Object
    &&& text_at(json, "id"@, Some(model.id))
    &&& match model.meta {
        None => member(json, "meta"@) is None || member(json, "meta"@) == Some(JsonModel::Null),
        Some(meta) => member(json, "meta"@) matches Some(part) && part is Object && match meta.n_ctx {
            None => member(part, "n_ctx"@) is None || member(part, "n_ctx"@) == Some(JsonModel::Null),
            Some(count) => (count >= 0 && number_at(part, "n_ctx"@, count as u64)) || member(part, "n_ctx"@) == Some(
                JsonModel::Number(JsonNumberModel::Negative(count)),
            ),
        },
    }
}

proof fn lemma_models(
    items: Seq<JsonModel>,
    at: int,
    done: Seq<DiscoveredModelModel>,
    models: Seq<DiscoveredModelModel>,
)
    requires
        0 <= at <= items.len() == models.len(),
        done == models.take(at),
        forall|i: int| 0 <= i < models.len() ==> is_model(items[i], #[trigger] models[i]),
    ensures
        models_from(items, at, done) == Ok::<Seq<DiscoveredModelModel>, Seq<char>>(models),
    decreases items.len() - at,
{
    if at < items.len() {
        assert(is_model(items[at], models[at]));
        assert(model_of(items[at]) == Ok::<DiscoveredModelModel, Seq<char>>(models[at]));
        assert(done.push(models[at]) =~= models.take(at + 1));
        lemma_models(items, at + 1, done.push(models[at]), models);
    } else {
        assert(models.take(at) =~= models);
    }
}

/// The models that an endpoint tells of are read in order and as they stand.
pub proof fn law_models_are_read_as_they_stand(json: JsonModel, models: Seq<DiscoveredModelModel>)
    requires
        json is Object,
        member(json, "data"@) matches Some(list) && list is Array && list->Array_0.len() == models.len() && forall|
            i: int,
        |
            0 <= i < models.len() ==> is_model(list->Array_0[i], #[trigger] models[i]),
    ensures
        models_of(json) matches Ok(response) && response.data == models,
{
    assert(models.take(0) =~= Seq::empty());
    lemma_models(member(json, "data"@)->0->Array_0, 0, Seq::empty(), models);
}

// ---- requests ----

proof fn lemma_body_names()
    ensures
        "cache_prompt"@ != "chat_template_kwargs"@,
        "cache_prompt"@ != "include"@,
        "cache_prompt"@ != "input"@,
        "cache_prompt"@ != "instructions"@,
        "cache_prompt"@ != "max_output_tokens"@,
        "cache_prompt"@ != "min_p"@,
        "cache_prompt"@ != "model"@,
        "cache_prompt"@ != "parallel_tool_calls"@,
        "cache_prompt"@ != "presence_penalty"@,
        "cache_prompt"@ != "reasoning"@,
        "cache_prompt"@ != "repeat_penalty"@,
        "cache_prompt"@ != "store"@,
        "cache_prompt"@ != "stream"@,
        "cache_prompt"@ != "temperature"@,
        "cache_prompt"@ != "tool_choice"@,
        "cache_prompt"@ != "tools"@,
        "cache_prompt"@ != "top_k"@,
        "cache_prompt"@ != "top_p"@,
        "chat_template_kwargs"@ != "include"@,
        "chat_template_kwargs"@ != "input"@,
        "chat_template_kwargs"@ != "instructions"@,
        "chat_template_kwargs"@ != "max_output_tokens"@,
        "chat_template_kwargs"@ != "min_p"@,
        "chat_template_kwargs"@ != "model"@,
        "chat_template_kwargs"@ != "parallel_tool_calls"@,
        "chat_template_kwargs"@ != "presence_penalty"@,
        "chat_template_kwargs"@ != "reasoning"@,
        "chat_template_kwargs"@ != "repeat_penalty"@,
        "chat_template_kwargs"@ != "store"@,
        "chat_template_kwargs"@ != "stream"@,
        "chat_template_kwargs"@ != "temperature"@,
        "chat_template_kwargs"@ != "tool_choice"@,
        "chat_template_kwargs"@ != "tools"@,
        "chat_template_kwargs"@ != "top_k"@,
        "chat_template_kwargs"@ != "top_p"@,
        "include"@ != "input"@,
        "include"@ != "instructions"@,
        "include"@ != "max_output_tokens"@,
        "include"@ != "min_p"@,
        "include"@ != "model"@,
        "include"@ != "parallel_tool_calls"@,
        "include"@ != "presence_penalty"@,
        "include"@ != "reasoning"@,
        "include"@ != "repeat_penalty"@,
        "include"@ != "store"@,
        "include"@ != "stream"@,
        "include"@ != "temperature"@,
        "include"@ != "tool_choice"@,
        "include"@ != "tools"@,
        "include"@ != "top_k"@,
        "include"@ != "top_p"@,
        "input"@ != "instructions"@,
        "input"@ != "max_output_tokens"@,
        "input"@ != "min_p"@,
        "input"@ != "model"@,
        "input"@ != "parallel_tool_calls"@,
        "input"@ != "presence_penalty"@,
        "input"@ != "reasoning"@,
        "input"@ != "repeat_penalty"@,
        "input"@ != "store"@,
        "input"@ != "stream"@,
        "input"@ != "temperature"@,
        "input"@ != "tool_choice"@,
        "input"@ != "tools"@,
        "input"@ != "top_k"@,
        "input"@ != "top_p"@,
        "instructions"@ != "max_output_tokens"@,
        "instructions"@ != "min_p"@,
        "instructions"@ != "model"@,
        "instructions"@ != "parallel_tool_calls"@,
        "instructions"@ != "presence_penalty"@,
        "instructions"@ != "reasoning"@,
        "instructions"@ != "repeat_penalty"@,
        "instructions"@ != "store"@,
        "instructions"@ != "stream"@,
        "instructions"@ != "temperature"@,
        "instructions"@ != "tool_choice"@,
        "instructions"@ != "tools"@,
        "instructions"@ != "top_k"@,
        "instructions"@ != "top_p"@,
        "max_output_tokens"@ != "min_p"@,
        "max_output_tokens"@ != "model"@,
        "max_output_tokens"@ != "parallel_tool_calls"@,
        "max_output_tokens"@ != "presence_penalty"@,
        "max_output_tokens"@ != "reasoning"@,
        "max_output_tokens"@ != "repeat_penalty"@,
        "max_output_tokens"@ != "store"@,
        "max_output_tokens"@ != "stream"@,
        "max_output_tokens"@ != "temperature"@,
        "max_output_tokens"@ != "tool_choice"@,
        "max_output_tokens"@ != "tools"@,
        "max_output_tokens"@ != "top_k"@,
        "max_output_tokens"@ != "top_p"@,
        "min_p"@ != "model"@,
        "min_p"@ != "parallel_tool_calls"@,
        "min_p"@ != "presence_penalty"@,
        "min_p"@ != "reasoning"@,
        "min_p"@ != "repeat_penalty"@,
        "min_p"@ != "store"@,
        "min_p"@ != "stream"@,
        "min_p"@ != "temperature"@,
        "min_p"@ != "tool_choice"@,
        "min_p"@ != "tools"@,
        "min_p"@ != "top_k"@,
        "min_p"@ != "top_p"@,
        "model"@ != "parallel_tool_calls"@,
        "model"@ != "presence_penalty"@,
        "model"@ != "reasoning"@,
        "model"@ != "repeat_penalty"@,
        "model"@ != "store"@,
        "model"@ != "stream"@,
        "model"@ != "temperature"@,
        "model"@ != "tool_choice"@,
        "model"@ != "tools"@,
        "model"@ != "top_k"@,
        "model"@ != "top_p"@,
        "parallel_tool_calls"@ != "presence_penalty"@,
        "parallel_tool_calls"@ != "reasoning"@,
        "parallel_tool_calls"@ != "repeat_penalty"@,
        "parallel_tool_calls"@ != "store"@,
        "parallel_tool_calls"@ != "stream"@,
        "parallel_tool_calls"@ != "temperature"@,
        "parallel_tool_calls"@ != "tool_choice"@,
        "parallel_tool_calls"@ != "tools"@,
        "parallel_tool_calls"@ != "top_k"@,
        "parallel_tool_calls"@ != "top_p"@,
        "presence_penalty"@ != "reasoning"@,
        "presence_penalty"@ != "repeat_penalty"@,
        "presence_penalty"@ != "store"@,
        "presence_penalty"@ != "stream"@,
        "presence_penalty"@ != "temperature"@,
        "presence_penalty"@ != "tool_choice"@,
        "presence_penalty"@ != "tools"@,
        "presence_penalty"@ != "top_k"@,
        "presence_penalty"@ != "top_p"@,
        "reasoning"@ != "repeat_penalty"@,
        "reasoning"@ != "store"@,
        "reasoning"@ != "stream"@,
        "reasoning"@ != "temperature"@,
        "reasoning"@ != "tool_choice"@,
        "reasoning"@ != "tools"@,
        "reasoning"@ != "top_k"@,
        "reasoning"@ != "top_p"@,
        "repeat_penalty"@ != "store"@,
        "repeat_penalty"@ != "stream"@,
        "repeat_penalty"@ != "temperature"@,
        "repeat_penalty"@ != "tool_choice"@,
        "repeat_penalty"@ != "tools"@,
        "repeat_penalty"@ != "top_k"@,
        "repeat_penalty"@ != "top_p"@,
        "store"@ != "stream"@,
        "store"@ != "temperature"@,
        "store"@ != "tool_choice"@,
        "store"@ != "tools"@,
        "store"@ != "top_k"@,
        "store"@ != "top_p"@,
        "stream"@ != "temperature"@,
        "stream"@ != "tool_choice"@,
        "stream"@ != "tools"@,
        "stream"@ != "top_k"@,
        "stream"@ != "top_p"@,
        "temperature"@ != "tool_choice"@,
        "temperature"@ != "tools"@,
        "temperature"@ != "top_k"@,
        "temperature"@ != "top_p"@,
        "tool_choice"@ != "tools"@,
        "tool_choice"@ != "top_k"@,
        "tool_choice"@ != "top_p"@,
        "tools"@ != "top_k"@,
        "tools"@ != "top_p"@,
        "top_k"@ != "top_p"@,
{
    reveal_strlit("cache_prompt");
    reveal_strlit("chat_template_kwargs");
    reveal_strlit("include");
    reveal_strlit("input");
    reveal_strlit("instructions");
    reveal_strlit("max_output_tokens");
    reveal_strlit("min_p");
    reveal_strlit("model");
    reveal_strlit("parallel_tool_calls");
    reveal_strlit("presence_penalty");
    reveal_strlit("reasoning");
    reveal_strlit("repeat_penalty");
    reveal_strlit("store");
    reveal_strlit("stream");
    reveal_strlit("temperature");
    reveal_strlit("tool_choice");
    reveal_strlit("tools");
    reveal_strlit("top_k");
    reveal_strlit("top_p");
    assert("cache_prompt"@.len() != "chat_template_kwargs"@.len());
    assert("cache_prompt"@.len() != "include"@.len());
    assert("cache_prompt"@.len() != "input"@.len());
    assert("cache_prompt"@[0] != "instructions"@[0]);
    assert("cache_prompt"@.len() != "max_output_tokens"@.len());
    assert("cache_prompt"@.len() != "min_p"@.len());
    assert("cache_prompt"@.len() != "model"@.len());
    assert("cache_prompt"@.len() != "parallel_tool_calls"@.len());
    assert("cache_prompt"@.len() != "presence_penalty"@.len());
    assert("cache_prompt"@.len() != "reasoning"@.len());
    assert("cache_prompt"@.len() != "repeat_penalty"@.len());
    assert("cache_prompt"@.len() != "store"@.len());
    assert("cache_prompt"@.len() != "stream"@.len());
    assert("cache_prompt"@.len() != "temperature"@.len());
    assert("cache_prompt"@.len() != "tool_choice"@.len());
    assert("cache_prompt"@.len() != "tools"@.len());
    assert("cache_prompt"@.len() != "top_k"@.len());
    assert("cache_prompt"@.len() != "top_p"@.len());
    assert("chat_template_kwargs"@.len() != "include"@.len());
    assert("chat_template_kwargs"@.len() != "input"@.len());
    assert("chat_template_kwargs"@.len() != "instructions"@.len());
    assert("chat_template_kwargs"@.len() != "max_output_tokens"@.len());
    assert("chat_template_kwargs"@.len() != "min_p"@.len());
    assert("chat_template_kwargs"@.len() != "model"@.len());
    assert("chat_template_kwargs"@.len() != "parallel_tool_calls"@.len());
    assert("chat_template_kwargs"@.len() != "presence_penalty"@.len());
    assert("chat_template_kwargs"@.len() != "reasoning"@.len());
    assert("chat_template_kwargs"@.len() != "repeat_penalty"@.len());
    assert("chat_template_kwargs"@.len() != "store"@.len());
    assert("chat_template_kwargs"@.len() != "stream"@.len());
    assert("chat_template_kwargs"@.len() != "temperature"@.len());
    assert("chat_template_kwargs"@.len() != "tool_choice"@.len());
    assert("chat_template_kwargs"@.len() != "tools"@.len());
    assert("chat_template_kwargs"@.len() != "top_k"@.len());
    assert("chat_template_kwargs"@.len() != "top_p"@.len());
    assert("include"@.len() != "input"@.len());
    assert("include"@.len() != "instructions"@.len());
    assert("include"@.len() != "max_output_tokens"@.len());
    assert("include"@.len() != "min_p"@.len());
    assert("include"@.len() != "model"@.len());
    assert("include"@.len() != "parallel_tool_calls"@.len());
    assert("include"@.len() != "presence_penalty"@.len());
    assert("include"@.len() != "reasoning"@.len());
    assert("include"@.len() != "repeat_penalty"@.len());
    assert("include"@.len() != "store"@.len());
    assert("include"@.len() != "stream"@.len());
    assert("include"@.len() != "temperature"@.len());
    assert("include"@.len() != "tool_choice"@.len());
    assert("include"@.len() != "tools"@.len());
    assert("include"@.len() != "top_k"@.len());
    assert("include"@.len() != "top_p"@.len());
    assert("input"@.len() != "instructions"@.len());
    assert("input"@.len() != "max_output_tokens"@.len());
    assert("input"@[0] != "min_p"@[0]);
    assert("input"@[0] != "model"@[0]);
    assert("input"@.len() != "parallel_tool_calls"@.len());
    assert("input"@.len() != "presence_penalty"@.len());
    assert("input"@.len() != "reasoning"@.len());
    assert("input"@.len() != "repeat_penalty"@.len());
    assert("input"@[0] != "store"@[0]);
    assert("input"@.len() != "stream"@.len());
    assert("input"@.len() != "temperature"@.len());
    assert("input"@.len() != "tool_choice"@.len());
    assert("input"@[0] != "tools"@[0]);
    assert("input"@[0] != "top_k"@[0]);
    assert("input"@[0] != "top_p"@[0]);
    assert("instructions"@.len() != "max_output_tokens"@.len());
    assert("instructions"@.len() != "min_p"@.len());
    assert("instructions"@.len() != "model"@.len());
    assert("instructions"@.len() != "parallel_tool_calls"@.len());
    assert("instructions"@.len() != "presence_penalty"@.len());
    assert("instructions"@.len() != "reasoning"@.len());
    assert("instructions"@.len() != "repeat_penalty"@.len());
    assert("instructions"@.len() != "store"@.len());
    assert("instructions"@.len() != "stream"@.len());
    assert("instructions"@.len() != "temperature"@.len());
    assert("instructions"@.len() != "tool_choice"@.len());
    assert("instructions"@.len() != "tools"@.len());
    assert("instructions"@.len() != "top_k"@.len());
    assert("instructions"@.len() != "top_p"@.len());
    assert("max_output_tokens"@.len() != "min_p"@.len());
    assert("max_output_tokens"@.len() != "model"@.len());
    assert("max_output_tokens"@.len() != "parallel_tool_calls"@.len());
    assert("max_output_tokens"@.len() != "presence_penalty"@.len());
    assert("max_output_tokens"@.len() != "reasoning"@.len());
    assert("max_output_tokens"@.len() != "repeat_penalty"@.len());
    assert("max_output_tokens"@.len() != "store"@.len());
    assert("max_output_tokens"@.len() != "stream"@.len());
    assert("max_output_tokens"@.len() != "temperature"@.len());
    assert("max_output_tokens"@.len() != "tool_choice"@.len());
    assert("max_output_tokens"@.len() != "tools"@.len());
    assert("max_output_tokens"@.len() != "top_k"@.len());
    assert("max_output_tokens"@.len() != "top_p"@.len());
    assert("min_p"@[1] != "model"@[1]);
    assert("min_p"@.len() != "parallel_tool_calls"@.len());
    assert("min_p"@.len() != "presence_penalty"@.len());
    assert("min_p"@.len() != "reasoning"@.len());
    assert("min_p"@.len() != "repeat_penalty"@.len());
    assert("min_p"@[0] != "store"@[0]);
    assert("min_p"@.len() != "stream"@.len());
    assert("min_p"@.len() != "temperature"@.len());
    assert("min_p"@.len() != "tool_choice"@.len());
    assert("min_p"@[0] != "tools"@[0]);
    assert("min_p"@[0] != "top_k"@[0]);
    assert("min_p"@[0] != "top_p"@[0]);
    assert("model"@.len() != "parallel_tool_calls"@.len());
    assert("model"@.len() != "presence_penalty"@.len());
    assert("model"@.len() != "reasoning"@.len());
    assert("model"@.len() != "repeat_penalty"@.len());
    assert("model"@[0] != "store"@[0]);
    assert("model"@.len() != "stream"@.len());
    assert("model"@.len() != "temperature"@.len());
    assert("model"@.len() != "tool_choice"@.len());
    assert("model"@[0] != "tools"@[0]);
    assert("model"@[0] != "top_k"@[0]);
    assert("model"@[0] != "top_p"@[0]);
    assert("parallel_tool_calls"@.len() != "presence_penalty"@.len());
    assert("parallel_tool_calls"@.len() != "reasoning"@.len());
    assert("parallel_tool_calls"@.len() != "repeat_penalty"@.len());
    assert("parallel_tool_calls"@.len() != "store"@.len());
    assert("parallel_tool_calls"@.len() != "stream"@.len());
    assert("parallel_tool_calls"@.len() != "temperature"@.len());
    assert("parallel_tool_calls"@.len() != "tool_choice"@.len());
    assert("parallel_tool_calls"@.len() != "tools"@.len());
    assert("parallel_tool_calls"@.len() != "top_k"@.len());
    assert("parallel_tool_calls"@.len() != "top_p"@.len());
    assert("presence_penalty"@.len() != "reasoning"@.len());
    assert("presence_penalty"@.len() != "repeat_penalty"@.len());
    assert("presence_penalty"@.len() != "store"@.len());
    assert("presence_penalty"@.len() != "stream"@.len());
    assert("presence_penalty"@.len() != "temperature"@.len());
    assert("presence_penalty"@.len() != "tool_choice"@.len());
    assert("presence_penalty"@.len() != "tools"@.len());
    assert("presence_penalty"@.len() != "top_k"@.len());
    assert("presence_penalty"@.len() != "top_p"@.len());
    assert("reasoning"@.len() != "repeat_penalty"@.len());
    assert("reasoning"@.len() != "store"@.len());
    assert("reasoning"@.len() != "stream"@.len());
    assert("reasoning"@.len() != "temperature"@.len());
    assert("reasoning"@.len() != "tool_choice"@.len());
    assert("reasoning"@.len() != "tools"@.len());
    assert("reasoning"@.len() != "top_k"@.len());
    assert("reasoning"@.len() != "top_p"@.len());
    assert("repeat_penalty"@.len() != "store"@.len());
    assert("repeat_penalty"@.len() != "stream"@.len());
    assert("repeat_penalty"@.len() != "temperature"@.len());
    assert("repeat_penalty"@.len() != "tool_choice"@.len());
    assert("repeat_penalty"@.len() != "tools"@.len());
    assert("repeat_penalty"@.len() != "top_k"@.len());
    assert("repeat_penalty"@.len() != "top_p"@.len());
    assert("store"@.len() != "stream"@.len());
    assert("store"@.len() != "temperature"@.len());
    assert("store"@.len() != "tool_choice"@.len());
    assert("store"@[0] != "tools"@[0]);
    assert("store"@[0] != "top_k"@[0]);
    assert("store"@[0] != "top_p"@[0]);
    assert("stream"@.len() != "temperature"@.len());
    assert("stream"@.len() != "tool_choice"@.len());
    assert("stream"@.len() != "tools"@.len());
    assert("stream"@.len() != "top_k"@.len());
    assert("stream"@.len() != "top_p"@.len());
    assert("temperature"@[1] != "tool_choice"@[1]);
    assert("temperature"@.len() != "tools"@.len());
    assert("temperature"@.len() != "top_k"@.len());
    assert("temperature"@.len() != "top_p"@.len());
    assert("tool_choice"@.len() != "tools"@.len());
    assert("tool_choice"@.len() != "top_k"@.len());
    assert("tool_choice"@.len() != "top_p"@.len());
    assert("tools"@[2] != "top_k"@[2]);
    assert("tools"@[2] != "top_p"@[2]);
    assert("top_k"@[4] != "top_p"@[4]);
}

proof fn lemma_thinking_names()
    ensures
        "enable_thinking"@ != "preserve_thinking"@,
{
    reveal_strlit("enable_thinking");
    reveal_strlit("preserve_thinking");
    assert("enable_thinking"@.len() != "preserve_thinking"@.len());
}

/// The effort that a local model is asked for.
pub open spec fn asked_effort(given: Option<ReasoningEffortModel>) -> Option<Seq<char>> {
    match given {
        None => Some("low"@),
        Some(ReasoningEffortModel::Off) => Some("none"@),
        Some(ReasoningEffortModel::Low) => Some("low"@),
        Some(ReasoningEffortModel::Medium) => Some("medium"@),
        Some(ReasoningEffortModel::High) => Some("xhigh"@),
        Some(ReasoningEffortModel::XHigh) => Some("xhigh"@),
        Some(_) => None,
    }
}

/// A request names the model, holds the history and, where there are any, the
/// instructions and the tools as they are, asks for a stream of as many tokens as
/// the model gives, for the effort that was asked for, and to store nothing. The
/// model thinks, and samples as a model that thinks does, unless it was asked not
/// to. An effort that local models do not have is refused.
pub proof fn law_a_request_says_what_it_is_given(model: LlamaCppCatalogEntryModel, input: LlamaCppRequestInputModel)
    ensures
        request_body(model, input) is Ok <==> asked_effort(input.reasoning_effort) is Some,
        request_body(model, input) matches Err(error) ==> error is InvalidRequest,
        request_body(model, input) matches Ok(json) ==> {
            let thinking = input.reasoning_effort != Some(ReasoningEffortModel::Off);
            let template = member(json, "chat_template_kwargs"@);
            let reasoning = member(json, "reasoning"@);
            &&& member(json, "model"@) == Some(JsonModel::Text(model.wire_model))
            &&& member(json, "input"@) == Some(JsonModel::Array(input.history))
            &&& member(json, "instructions"@) == if input.instructions.len() > 0 {
                Some(JsonModel::Text(input.instructions))
            } else {
                None
            }
            &&& member(json, "tools"@) == input.tools
            &&& member(json, "parallel_tool_calls"@) == Some(JsonModel::Bool(input.parallel_tool_calls))
            &&& member(json, "tool_choice"@) == Some(JsonModel::Text("auto"@))
            &&& member(json, "max_output_tokens"@) == Some(
                JsonModel::Number(JsonNumberModel::Unsigned(model.max_output_tokens)),
            )
            &&& member(json, "store"@) == Some(JsonModel::Bool(false))
            &&& member(json, "stream"@) == Some(JsonModel::Bool(true))
            &&& member(json, "cache_prompt"@) == Some(JsonModel::Bool(true))
            &&& member(json, "include"@) is Some
            &&& member(json, "include"@)->0 is Array
            &&& member(json, "include"@)->0->Array_0.len() == 0
            &&& template is Some
            &&& member(template->0, "enable_thinking"@) == Some(JsonModel::Bool(thinking))
            &&& member(template->0, "preserve_thinking"@) == Some(JsonModel::Bool(thinking))
            &&& reasoning is Some
            &&& member(reasoning->0, "effort"@) == Some(JsonModel::Text(asked_effort(input.reasoning_effort)->0))
            &&& member(json, "temperature"@) == Some(
                JsonModel::Number(
                    JsonNumberModel::Float(
                        if thinking {
                            "1.0"@
                        } else {
                            "0.7"@
                        },
                    ),
                ),
            )
            &&& member(json, "top_p"@) == Some(
                JsonModel::Number(
                    JsonNumberModel::Float(
                        if thinking {
                            "0.95"@
                        } else {
                            "0.8"@
                        },
                    ),
                ),
            )
            &&& member(json, "presence_penalty"@) == Some(
                JsonModel::Number(
                    JsonNumberModel::Float(
                        if thinking {
                            "0.0"@
                        } else {
                            "1.5"@
                        },
                    ),
                ),
            )
            &&& member(json, "min_p"@) == Some(JsonModel::Number(JsonNumberModel::Float("0.0"@)))
            &&& member(json, "repeat_penalty"@) == Some(JsonModel::Number(JsonNumberModel::Float("1.0"@)))
            &&& member(json, "top_k"@) == Some(JsonModel::Number(JsonNumberModel::Unsigned(20)))
        },
{
    if let Ok(json) = request_body(model, input) {
        lemma_body_names();
        lemma_thinking_names();
        let effort = local_level(input.reasoning_effort)->Ok_0;
        let entries = json->Object_0;
        let more: int = if input.instructions.len() > 0 {
            1
        } else {
            0
        };
        let tooled: int = if input.tools is Some {
            1
        } else {
            0
        };
        assert(entries[0].0 == "cache_prompt"@);
        assert(entries[1].0 == "chat_template_kwargs"@);
        assert(entries[2].0 == "include"@);
        assert(entries[3].0 == "input"@);
        assert(entries[4 + more].0 == "max_output_tokens"@);
        assert(entries[5 + more].0 == "min_p"@);
        assert(entries[6 + more].0 == "model"@);
        assert(entries[7 + more].0 == "parallel_tool_calls"@);
        assert(entries[8 + more].0 == "presence_penalty"@);
        assert(entries[9 + more].0 == "reasoning"@);
        assert(entries[10 + more].0 == "repeat_penalty"@);
        assert(entries[11 + more].0 == "store"@);
        assert(entries[12 + more].0 == "stream"@);
        assert(entries[13 + more].0 == "temperature"@);
        assert(entries[14 + more].0 == "tool_choice"@);
        assert(entries[15 + more + tooled].0 == "top_k"@);
        assert(entries[16 + more + tooled].0 == "top_p"@);
        if input.instructions.len() > 0 {
            assert(entries[4].0 == "instructions"@);
            lemma_lookup_at(entries, 4);
        } else {
            lemma_lookup_none(entries, "instructions"@);
        }
        if input.tools is Some {
            assert(entries[15 + more].0 == "tools"@);
            lemma_lookup_at(entries, 15 + more);
        } else {
            lemma_lookup_none(entries, "tools"@);
        }
        lemma_lookup_at(entries, 0);
        lemma_lookup_at(entries, 1);
        lemma_lookup_at(entries, 2);
        lemma_lookup_at(entries, 3);
        lemma_lookup_at(entries, 4 + more);
        lemma_lookup_at(entries, 5 + more);
        lemma_lookup_at(entries, 6 + more);
        lemma_lookup_at(entries, 7 + more);
        lemma_lookup_at(entries, 8 + more);
        lemma_lookup_at(entries, 9 + more);
        lemma_lookup_at(entries, 10 + more);
        lemma_lookup_at(entries, 11 + more);
        lemma_lookup_at(entries, 12 + more);
        lemma_lookup_at(entries, 13 + more);
        lemma_lookup_at(entries, 14 + more);
        lemma_lookup_at(entries, 15 + more + tooled);
        lemma_lookup_at(entries, 16 + more + tooled);
        let template = template_settings(effort != ReasoningEffortModel::Off)->Object_0;
        lemma_lookup_at(template, 0);
        lemma_lookup_at(template, 1);
        lemma_lookup_at(seq![("effort"@, JsonModel::Text(effort.label()))], 0);
    }
}

/// A request is sent if and only if its tokens were counted and fit, as it was
/// counted and to the model it was made for. One that does not fit is told as such;
/// one that could not be counted is told by its failure.
pub proof fn law_only_what_fits_is_sent(
    runtime: LlamaCppRuntimeModel,
    model: LlamaCppCatalogEntryModel,
    body: JsonModel,
    count: Result<u64, ApiErrorModel>,
)
    ensures
        ({
            let (after, request) = prepared(runtime, model, body, count);
            &&& request is Ok <==> count is Ok && count->Ok_0 <= model.max_input_tokens
            &&& request matches Ok(request) ==> request.model == model && request.body == body && after == runtime
            &&& count is Ok && count->Ok_0 > model.max_input_tokens ==> request->Err_0 is ContextWindowExceeded
                && after == runtime
            &&& count matches Err(error) ==> request == Err::<LlamaCppPreparedRequestModel, _>(class_of(error))
            &&& after.api_provider == runtime.api_provider && after.health_provider == runtime.health_provider
                && after.readiness == runtime.readiness
        }),
{
}

// ---- failures ----

/// Whether a text tells, in whatever case, of trouble that does not pass.
pub open spec fn tells_lasting(text: Seq<char>) -> bool {
    let small = lowercase(text);
    occurs(small, "system message must be at the beginning"@) || occurs(small, "system message must be the first"@)
        || occurs(small, "previous_response_id"@) || occurs(small, "cannot determine type of 'item'"@) || occurs(
        small,
        "invalid request"@,
    ) || occurs(small, "template error"@)
}

proof fn lemma_lasting(text: Seq<char>)
    ensures
        mentions(text, lasting_words()) <==> tells_lasting(text),
{
    let small = lowercase(text);
    let words = lasting_words();
    if tells_lasting(text) {
        assert(occurs(small, words[0]) || occurs(small, words[1]) || occurs(small, words[2]) || occurs(small, words[3])
            || occurs(small, words[4]) || occurs(small, words[5]));
    }
    if mentions(text, words) {
        let i = choose|i: int| 0 <= i < words.len() && occurs(small, #[trigger] words[i]);
        assert(i == 0 || i == 1 || i == 2 || i == 3 || i == 4 || i == 5);
    }
}

/// An answer is told by the message of its error, where it holds one that is not
/// blank, and else by its text.
pub proof fn law_the_message_of_an_error_is_told(json: JsonModel, error: JsonModel, message: Seq<char>, body: Seq<char>)
    ensures
        member(json, "error"@) == Some(error) && member(error, "message"@) == Some(JsonModel::Text(message))
            && !all_white(message) ==> error_text(Ok(json), body) == message,
        member(json, "error"@) is None ==> error_text(Ok(json), body) == body,
        member(json, "error"@) == Some(error) && member(error, "message"@) == Some(JsonModel::Text(message))
            && all_white(message) ==> error_text(Ok(json), body) == body,
        error_text(Err(message), body) == body,
{
}

/// A fault of the client, and one of the server that tells of trouble that does not
/// pass, are invalid requests; every other fault of the server, a lost connection
/// and a time that ran out may be tried again.
pub proof fn law_failures_are_told_apart(error: ApiErrorModel)
    ensures
        match error {
            ApiErrorModel::Transport(TransportErrorModel::Http { status, body, .. }) => {
                let text = if body is Some {
                    body->0
                } else {
                    Seq::empty()
                };
                let message = error_text(json_parse(text), text);
                let lasting = (400 <= status && status <= 499) || (status == 500 && tells_lasting(message));
                &&& class_of(error) is InvalidRequest <==> lasting
                &&& class_of(error) is Retryable <==> !lasting
                &&& lasting ==> class_of(error) == (ApiErrorModel::InvalidRequest { message })
                &&& !lasting ==> class_of(error)->delay is None
            },
            ApiErrorModel::Transport(TransportErrorModel::Build(message)) => class_of(error) == (
            ApiErrorModel::InvalidRequest { message }),
            ApiErrorModel::Transport(_) => class_of(error) is Retryable && class_of(error)->delay is None,
            ApiErrorModel::Stream(message) => class_of(error) == if tells_lasting(message) {
                ApiErrorModel::InvalidRequest { message }
            } else {
                ApiErrorModel::Retryable { message, delay: None }
            },
            ApiErrorModel::Retryable { message, .. } => class_of(error) == if tells_lasting(message) {
                ApiErrorModel::InvalidRequest { message }
            } else {
                error
            },
            ApiErrorModel::ServerOverloaded => class_of(error) is Retryable && class_of(error)->delay is None,
            _ => class_of(error) == error,
        },
{
    match error {
        ApiErrorModel::Transport(TransportErrorModel::Http { body, .. }) => {
            let text = if body is Some {
                body->0
            } else {
                Seq::empty()
            };
            lemma_lasting(error_text(json_parse(text), text));
        },
        ApiErrorModel::Stream(message) => lemma_lasting(message),
        ApiErrorModel::Retryable { message, .. } => lemma_lasting(message),
        _ => {},
    }
}

/// What a stream brings is told as it is, and the stream ends with the response. A
/// failure is told by its class, and ends the stream where the models may have
/// changed. Nothing but the catalog is ever forgotten.
pub proof fn law_events_are_told_as_they_are(
    runtime: LlamaCppRuntimeModel,
    event: Result<ResponseEventModel, ApiErrorModel>,
)
    ensures
        ({
            let (after, step) = streamed(runtime, event);
            &&& match event {
                Ok(event) => step.item == LlamaCppStreamItemModel::Event(event) && (step.ended <==> event is Completed)
                    && after == runtime,
                Err(error) => {
                    let class = class_of(error);
                    let passes = class is Retryable || class is Stream || class is ServerOverloaded || class
                        == ApiErrorModel::Transport(TransportErrorModel::Timeout) || (class is Transport && (
                    class->Transport_0 is Connection || class->Transport_0 is Network));
                    &&& step.item == LlamaCppStreamItemModel::Failure(class)
                    &&& step.ended <==> passes
                    &&& after.catalog == if passes {
                        None
                    } else {
                        runtime.catalog
                    }
                },
            }
            &&& after.api_provider == runtime.api_provider && after.health_provider == runtime.health_provider
                && after.readiness == runtime.readiness
        }),
{
}

// ---- readiness ----

/// A time as one number.
pub open spec fn nanos_of(delay: Delay) -> int {
    delay.seconds * 1_000_000_000 + delay.nanos
}

/// Only an endpoint that reports ready is asked for its models. One that is not
/// available yet is asked again after the wait that is due, as often as the policy
/// permits, and each wait is twice the one before it; any other failure ends the
/// search.
pub proof fn law_an_endpoint_is_waited_for(
    policy: ReadinessPolicy,
    state: ReadinessState,
    status: Result<Seq<char>, ApiErrorModel>,
)
    requires
        state.delay.nanos < 1_000_000_000,
        nanos_of(state.delay) * 2 <= u64::MAX * 1_000_000_000,
    ensures
        ({
            let action = action_after_health(policy, state, status);
            let later = status is Err && status->Err_0 is Transport && status->Err_0->Transport_0 is Http
                && status->Err_0->Transport_0->Http_status == 503 && state.attempt + 1 < policy.attempts;
            &&& action is List <==> status == Ok::<Seq<char>, ApiErrorModel>("ok"@)
            &&& action is Wait <==> later
            &&& action is Fail <==> !later && status != Ok::<Seq<char>, ApiErrorModel>("ok"@)
            &&& action is Wait ==> action->delay == state.delay && action->next.attempt == state.attempt + 1
                && nanos_of(action->next.delay) == 2 * nanos_of(state.delay) && action->next.delay.nanos
                < 1_000_000_000
            &&& status is Err && !later ==> action == DiscoveryActionModel::Fail(class_of(status->Err_0))
            &&& status is Ok && status->Ok_0 != "ok"@ ==> action->Fail_0 is InvalidRequest
        }),
{
    let delay = state.delay;
    assert(nanos_of(doubled(delay)) == 2 * nanos_of(delay)) by {
        let nanos = delay.nanos * 2;
        if nanos >= 1_000_000_000 {
            assert(delay.seconds * 2 + 1 <= u64::MAX);
        } else {
            assert(delay.seconds * 2 <= u64::MAX);
        }
    }
}

/// Listed models are the catalog from then on; a listing that fails changes nothing.
pub proof fn law_a_listing_is_the_catalog(
    runtime: LlamaCppRuntimeModel,
    listing: Result<LlamaCppCatalogModel, ApiErrorModel>,
)
    ensures
        ({
            let (after, action) = after_listing(runtime, listing);
            &&& listing matches Ok(catalog) ==> after.catalog == Some(catalog) && action
                == DiscoveryActionModel::Found(catalog)
            &&& listing matches Err(error) ==> after == runtime && action == DiscoveryActionModel::Fail(error)
            &&& after.api_provider == runtime.api_provider && after.health_provider == runtime.health_provider
                && after.readiness == runtime.readiness
        }),
{
}

proof fn lemma_slashes(text: Seq<char>)
    ensures
        ({
            let short = without_slashes(text);
            &&& short.len() <= text.len()
            &&& text.take(short.len() as int) == short
            &&& short.len() > 0 ==> short.last() != '/'
            &&& forall|i: int| short.len() <= i < text.len() ==> text[i] == '/'
        }),
    decreases text.len(),
{
    if text.len() > 0 && text.last() == '/' {
        lemma_slashes(text.drop_last());
        let short = without_slashes(text);
        assert(text.take(short.len() as int) =~= text.drop_last().take(short.len() as int));
        assert forall|i: int| short.len() <= i < text.len() implies text[i] == '/' by {
            if i < text.len() - 1 {
                assert(text.drop_last()[i] == text[i]);
            }
        }
    } else {
        assert(text.take(text.len() as int) =~= text);
    }
}

/// A runtime asks its endpoint for its health at the address itself, without slashes
/// at the end, and for all else below it. Neither is tried again by itself, and no
/// models are known at first.
pub proof fn law_a_runtime_asks_its_endpoint(endpoint: Seq<char>)
    ensures
        ({
            let runtime = runtime_at(endpoint);
            let base = runtime.health_provider.base_url;
            &&& base.len() <= endpoint.len()
            &&& endpoint.take(base.len() as int) == base
            &&& base.len() > 0 ==> base.last() != '/'
            &&& forall|i: int| base.len() <= i < endpoint.len() ==> endpoint[i] == '/'
            &&& runtime.api_provider.base_url == base + "/v1"@
            &&& runtime.catalog is None
            &&& runtime.api_provider.retry.max_attempts == 0 && runtime.health_provider.retry.max_attempts == 0
            &&& !runtime.api_provider.retry.retry_429 && !runtime.api_provider.retry.retry_5xx
                && !runtime.api_provider.retry.retry_transport
            &&& runtime.api_provider.headers.len() == 0 && runtime.api_provider.query_params is None
            &&& runtime.readiness.attempts == 5
            &&& nanos_of(runtime.readiness.initial_delay) == 250_000_000
            &&& runtime.api_provider.stream_idle_timeout_millis == 300_000
        }),
{
    lemma_slashes(endpoint);
}

// ---- answers ----

/// An endpoint's answer is read as it stands: its status, its models, or the tokens it
/// counts. A failure of the transport is told as it is, and an answer that cannot be
/// read is an invalid request.
pub proof fn law_answers_are_read_as_they_stand(
    body: Seq<u8>,
    json: JsonModel,
    status: Seq<char>,
    count: u64,
    error: TransportErrorModel,
)
    ensures
        json_parse_bytes(body) == Ok::<JsonModel, Seq<char>>(json) && json is Object && text_at(
            json,
            "status"@,
            Some(status),
        ) ==> health_answer(Ok(body)) == Ok::<Seq<char>, ApiErrorModel>(status),
        json_parse_bytes(body) == Ok::<JsonModel, Seq<char>>(json) && json is Object && number_at(
            json,
            "input_tokens"@,
            count,
        ) ==> tokens_answer(Ok(body)) == Ok::<u64, ApiErrorModel>(count),
        json_parse_bytes(body) == Ok::<JsonModel, Seq<char>>(json) && models_of(json) is Ok ==> models_answer(Ok(body))
            == Ok::<LlamaCppCatalogModel, ApiErrorModel>(catalog_of(models_of(json)->Ok_0.data)),
        health_answer(Err(error)) == Err::<Seq<char>, _>(ApiErrorModel::Transport(error)),
        models_answer(Err(error)) == Err::<LlamaCppCatalogModel, _>(ApiErrorModel::Transport(error)),
        tokens_answer(Err(error)) == Err::<u64, _>(ApiErrorModel::Transport(error)),
        json_parse_bytes(body) is Err ==> health_answer(Ok(body)) is Err && health_answer(Ok(body))->Err_0
            is InvalidRequest && models_answer(Ok(body)) is Err && models_answer(Ok(body))->Err_0 is InvalidRequest
            && tokens_answer(Ok(body)) is Err && tokens_answer(Ok(body))->Err_0 is InvalidRequest,
{
}

/// A model is found by its full name and by each of its short names; the first that
/// goes by a name has it. What goes by no name is refused, and every model that could
/// have been asked for is named.
pub proof fn law_models_are_found_by_name(catalog: LlamaCppCatalogModel, requested: Seq<char>, index: int)
    ensures
        model_named(catalog, requested) is Ok <==> resolved(catalog, requested) is Ok,
        model_named(catalog, requested) matches Ok(entry) ==> entry.canonical_id == requested || entry.aliases.contains(
            requested,
        ),
        0 <= index < catalog.models.len() && (catalog.models[index].canonical_id == requested
            || catalog.models[index].aliases.contains(requested)) ==> model_named(catalog, requested) is Ok,
        0 <= index < catalog.models.len() && (catalog.models[index].canonical_id == requested
            || catalog.models[index].aliases.contains(requested)) && (forall|j: int|
            0 <= j < index ==> !goes_by(#[trigger] catalog.models[j], requested)) ==> model_named(catalog, requested)
            == Ok::<LlamaCppCatalogEntryModel, ApiErrorModel>(catalog.models[index]),
        resolved(catalog, requested) matches Err(error) ==> error.requested == requested
            && error.currently_discovered.len() == catalog.models.len() && forall|i: int|
            0 <= i < catalog.models.len() ==> error.currently_discovered[i] == (#[trigger] catalog.models[i]).canonical_id,
        model_named(catalog, requested) matches Err(error) ==> error is InvalidRequest,
{
    lemma_found(catalog.models, requested, 0, index);
}

proof fn lemma_found(models: Seq<LlamaCppCatalogEntryModel>, requested: Seq<char>, at: int, index: int)
    requires
        0 <= at <= models.len(),
    ensures
        selected_from(models, requested, at) matches Some(entry) ==> goes_by(entry, requested),
        at <= index < models.len() && goes_by(models[index], requested) ==> selected_from(models, requested, at)
            is Some,
        at <= index < models.len() && goes_by(models[index], requested) && (forall|j: int|
            at <= j < index ==> !goes_by(#[trigger] models[j], requested)) ==> selected_from(models, requested, at)
            == Some(models[index]),
    decreases models.len() - at,
{
    if at < models.len() && !goes_by(models[at], requested) {
        lemma_found(models, requested, at + 1, index);
    }
}

} // verus!
