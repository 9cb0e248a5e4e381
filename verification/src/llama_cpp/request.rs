//! Requests to a llama.cpp endpoint.
use crate::api::{ApiError, ApiErrorModel};
use crate::json::{add_field, lemma_array_model, lemma_object_model, Json, JsonModel, JsonNumber, JsonNumberModel};
use crate::llama_cpp::catalog::{LlamaCppCatalogEntry, LlamaCppCatalogEntryModel};
use crate::model::{no_items, outcome, push_item, Duplicate};
use crate::protocol::{ReasoningEffort, ReasoningEffortModel};
use crate::text::concat3;
use vstd::prelude::*;
use vstd::string::*;

verus! {

/// Provider-neutral input used to build one direct llama.cpp Responses request.
/// History and tools are sent as they are given.
#[derive(Debug, Clone, PartialEq, Eq)]
pub struct LlamaCppRequestInput {
    pub instructions: String,
    pub history: Vec<Json>,
    pub tools: Option<Json>,
    pub parallel_tool_calls: bool,
    pub reasoning_effort: Option<ReasoningEffort>,
}

/// The model of [`LlamaCppRequestInput`].
#[verifier::ext_equal]
pub struct LlamaCppRequestInputModel {
    pub instructions: Seq<char>,
    pub history: Seq<JsonModel>,
    pub tools: Option<JsonModel>,
    pub parallel_tool_calls: bool,
    pub reasoning_effort: Option<ReasoningEffortModel>,
}

impl DeepView for LlamaCppRequestInput {
    type V = LlamaCppRequestInputModel;

    open spec fn deep_view(&self) -> LlamaCppRequestInputModel {
        LlamaCppRequestInputModel {
            instructions: self.instructions.deep_view(),
            history: self.history.deep_view(),
            tools: self.tools.deep_view(),
            parallel_tool_calls: self.parallel_tool_calls.deep_view(),
            reasoning_effort: self.reasoning_effort.deep_view(),
        }
    }
}

impl Duplicate for LlamaCppRequestInput {
    fn duplicate(&self) -> (copy: Self) {
        LlamaCppRequestInput {
            instructions: self.instructions.duplicate(),
            history: self.history.duplicate(),
            tools: self.tools.duplicate(),
            parallel_tool_calls: self.parallel_tool_calls.duplicate(),
            reasoning_effort: self.reasoning_effort.duplicate(),
        }
    }
}

/// A request that passed exact llama.cpp input-token preflight.
#[derive(Debug, Clone, PartialEq, Eq)]
pub struct LlamaCppPreparedRequest {
    pub model: LlamaCppCatalogEntry,
    pub body: Json,
}

/// The model of [`LlamaCppPreparedRequest`].
#[verifier::ext_equal]
pub struct LlamaCppPreparedRequestModel {
    pub model: LlamaCppCatalogEntryModel,
    pub body: JsonModel,
}

impl DeepView for LlamaCppPreparedRequest {
    type V = LlamaCppPreparedRequestModel;

    open spec fn deep_view(&self) -> LlamaCppPreparedRequestModel {
        LlamaCppPreparedRequestModel {
            model: self.model.deep_view(),
            body: self.body.deep_view(),
        }
    }
}

impl Duplicate for LlamaCppPreparedRequest {
    fn duplicate(&self) -> (copy: Self) {
        LlamaCppPreparedRequest {
            model: self.model.duplicate(),
            body: self.body.duplicate(),
        }
    }
}

impl LlamaCppPreparedRequest {
    /// Returns the exact inference body that passed llama.cpp token preflight.
    pub fn body(&self) -> (body: &Json)
        ensures
            *body == self.body,
    {
        &self.body
    }
}

/// The level of reasoning that is asked for in place of another, or why there
/// is none.
pub open spec fn local_level(effort: Option<ReasoningEffortModel>) -> Result<ReasoningEffortModel, ApiErrorModel> {
    match effort {
        None => Ok(ReasoningEffortModel::Low),
        Some(effort) => match effort {
            ReasoningEffortModel::Off => Ok(effort),
            ReasoningEffortModel::Low => Ok(effort),
            ReasoningEffortModel::Medium => Ok(effort),
            ReasoningEffortModel::XHigh => Ok(effort),
            ReasoningEffortModel::High => Ok(ReasoningEffortModel::XHigh),
            _ => Err(
                ApiErrorModel::InvalidRequest {
                    message: "llama.cpp reasoning effort `"@ + effort.label() + "` is unsupported"@,
                },
            ),
        },
    }
}

/// The level of reasoning that is asked for in place of another, or why there
/// is none.
pub fn local_effort(effort: Option<ReasoningEffort>) -> (level: Result<ReasoningEffort, ApiError>)
    ensures
        outcome(level) == local_level(effort.deep_view()),
{
    match effort {
        None => Ok(ReasoningEffort::Low),
        Some(effort) => match effort {
            ReasoningEffort::Off => Ok(effort),
            ReasoningEffort::Low => Ok(effort),
            ReasoningEffort::Medium => Ok(effort),
            ReasoningEffort::XHigh => Ok(effort),
            ReasoningEffort::High => Ok(ReasoningEffort::XHigh),
            _ => Err(
                ApiError::InvalidRequest {
                    message: concat3("llama.cpp reasoning effort `", effort.name(), "` is unsupported"),
                },
            ),
        },
    }
}

/// A fraction as JSON.
pub open spec fn fraction(digits: Seq<char>) -> JsonModel {
    JsonModel::Number(JsonNumberModel::Float(digits))
}

/// A whole number as JSON.
pub open spec fn whole(value: u64) -> JsonModel {
    JsonModel::Number(JsonNumberModel::Unsigned(value))
}

/// What the template of the chat is told of thinking.
pub open spec fn template_settings(thinking: bool) -> JsonModel {
    JsonModel::Object(
        seq![
            ("enable_thinking"@, JsonModel::Bool(thinking)),
            ("preserve_thinking"@, JsonModel::Bool(thinking)),
        ],
    )
}

/// The body of a request for a level of reasoning. How tokens are drawn depends
/// on whether the model thinks.
pub open spec fn body_for(
    model: LlamaCppCatalogEntryModel,
    input: LlamaCppRequestInputModel,
    effort: ReasoningEffortModel,
) -> JsonModel {
    let thinking = effort != ReasoningEffortModel::Off;
    let start = seq![
        ("cache_prompt"@, JsonModel::Bool(true)),
        ("chat_template_kwargs"@, template_settings(thinking)),
        ("include"@, JsonModel::Array(Seq::empty())),
        ("input"@, JsonModel::Array(input.history)),
    ];
    let instructed = if input.instructions.len() > 0 {
        start.push(("instructions"@, JsonModel::Text(input.instructions)))
    } else {
        start
    };
    let middle = instructed + seq![
        ("max_output_tokens"@, whole(model.max_output_tokens)),
        ("min_p"@, fraction("0.0"@)),
        ("model"@, JsonModel::Text(model.wire_model)),
        ("parallel_tool_calls"@, JsonModel::Bool(input.parallel_tool_calls)),
        (
            "presence_penalty"@,
            fraction(
                if thinking {
                    "0.0"@
                } else {
                    "1.5"@
                },
            ),
        ),
        ("reasoning"@, JsonModel::Object(seq![("effort"@, JsonModel::Text(effort.label()))])),
        ("repeat_penalty"@, fraction("1.0"@)),
        ("store"@, JsonModel::Bool(false)),
        ("stream"@, JsonModel::Bool(true)),
        (
            "temperature"@,
            fraction(
                if thinking {
                    "1.0"@
                } else {
                    "0.7"@
                },
            ),
        ),
        ("tool_choice"@, JsonModel::Text("auto"@)),
    ];
    let tooled = match input.tools {
        Some(tools) => middle.push(("tools"@, tools)),
        None => middle,
    };
    JsonModel::Object(
        tooled.push(("top_k"@, whole(20))).push(
            (
                "top_p"@,
                fraction(
                    if thinking {
                        "0.95"@
                    } else {
                        "0.8"@
                    },
                ),
            ),
        ),
    )
}

/// The body of a request, or why there is none.
pub open spec fn request_body(model: LlamaCppCatalogEntryModel, input: LlamaCppRequestInputModel) -> Result<
    JsonModel,
    ApiErrorModel,
> {
    match local_level(input.reasoning_effort) {
        Err(error) => Err(error),
        Ok(effort) => Ok(body_for(model, input, effort)),
    }
}

fn decimal_field(entries: &mut Vec<(String, Json)>, name: &str, digits: &str)
    ensures
        final(entries).deep_view() == old(entries).deep_view().push((name@, fraction(digits@))),
{
    push_item(entries, (name.to_owned(), Json::Number(JsonNumber::Float(digits.to_owned()))));
}

fn template_kwargs(thinking: bool) -> (json: Json)
    ensures
        json.deep_view() == template_settings(thinking),
{
    broadcast use lemma_object_model;
    let mut entries: Vec<(String, Json)> = no_items();
    add_field(&mut entries, "enable_thinking", Json::Bool(thinking));
    add_field(&mut entries, "preserve_thinking", Json::Bool(thinking));
    assert(entries.deep_view() =~= template_settings(thinking)->Object_0);
    Json::Object(entries)
}

fn reasoning_field(effort: &ReasoningEffort) -> (json: Json)
    ensures
        json.deep_view() == JsonModel::Object(seq![("effort"@, JsonModel::Text(effort.deep_view().label()))]),
{
    broadcast use lemma_object_model;
    let mut entries: Vec<(String, Json)> = no_items();
    add_field(&mut entries, "effort", Json::Text(effort.name().to_owned()));
    assert(entries.deep_view() =~= seq![("effort"@, JsonModel::Text(effort.deep_view().label()))]);
    Json::Object(entries)
}

/// The body of a request, or why there is none.
pub fn llama_cpp_request_body(model: &LlamaCppCatalogEntry, input: LlamaCppRequestInput) -> (body: Result<
    Json,
    ApiError,
>)
    ensures
        outcome(body) == request_body(model.deep_view(), input.deep_view()),
{
    broadcast use lemma_object_model, lemma_array_model;
    let effort = match local_effort(input.reasoning_effort) {
        Err(error) => {
            return Err(error);
        },
        Ok(effort) => effort,
    };
    let thinking = match &effort {
        ReasoningEffort::Off => false,
        _ => true,
    };
    let none: Vec<Json> = no_items();
    let mut entries: Vec<(String, Json)> = no_items();
    add_field(&mut entries, "cache_prompt", Json::Bool(true));
    add_field(&mut entries, "chat_template_kwargs", template_kwargs(thinking));
    add_field(&mut entries, "include", Json::Array(none));
    add_field(&mut entries, "input", Json::Array(input.history));
    if !input.instructions.as_str().is_empty() {
        add_field(&mut entries, "instructions", Json::Text(input.instructions));
    }
    add_field(&mut entries, "max_output_tokens", Json::Number(JsonNumber::Unsigned(model.max_output_tokens)));
    decimal_field(&mut entries, "min_p", "0.0");
    add_field(&mut entries, "model", Json::Text(model.wire_model.duplicate()));
    add_field(&mut entries, "parallel_tool_calls", Json::Bool(input.parallel_tool_calls));
    let penalty = if thinking {
        "0.0"
    } else {
        "1.5"
    };
    decimal_field(&mut entries, "presence_penalty", penalty);
    add_field(&mut entries, "reasoning", reasoning_field(&effort));
    decimal_field(&mut entries, "repeat_penalty", "1.0");
    add_field(&mut entries, "store", Json::Bool(false));
    add_field(&mut entries, "stream", Json::Bool(true));
    let temperature = if thinking {
        "1.0"
    } else {
        "0.7"
    };
    decimal_field(&mut entries, "temperature", temperature);
    add_field(&mut entries, "tool_choice", Json::Text("auto".to_owned()));
    if let Some(tools) = input.tools {
        add_field(&mut entries, "tools", tools);
    }
    add_field(&mut entries, "top_k", Json::Number(JsonNumber::Unsigned(20)));
    let mass = if thinking {
        "0.95"
    } else {
        "0.8"
    };
    decimal_field(&mut entries, "top_p", mass);
    proof {
        let whole_body = body_for(model.deep_view(), input.deep_view(), effort.deep_view());
        assert(entries.deep_view() =~= whole_body->Object_0);
    }
    Ok(Json::Object(entries))
}

} // verus!
