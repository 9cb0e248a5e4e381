//! How a llama.cpp endpoint is found ready, asked and heard.
use crate::api::{
    show_status, status_line, ApiError, ApiErrorModel, Delay, Provider, ProviderModel, ResponseEvent,
    ResponseEventModel, RetryConfig, TransportError, TransportErrorModel,
};
use crate::json::{
    json_parse, json_parse_bytes, lemma_array_model, member, parse_json, parse_json_bytes, Json, JsonModel,
};
use crate::llama_cpp::catalog::{
    catalog_of, models_of, resolved, LlamaCppCatalog, LlamaCppCatalogEntry, LlamaCppCatalogEntryModel,
    LlamaCppCatalogModel, ModelsResponse,
};
use crate::llama_cpp::request::{LlamaCppPreparedRequest, LlamaCppPreparedRequestModel};
use crate::model::{no_items, outcome, Duplicate};
use crate::read::{
    fill, filled, given_text, given_whole, length_error, missing, missing_field, not_object, object_error,
    read_given_text, read_given_whole, seat, take_seat, wrong_length, Source,
};
use crate::text::{all_white, chars_of, concat, concat3, contains_any, mentions, only_white, text_range};
use vstd::prelude::*;
use vstd::string::*;

verus! {

/// Where the endpoint is.
pub const LLAMA_CPP_LOCAL_ENDPOINT: &'static str = "http://desktop-uae.netbird.selfhosted:8080";

/// How often the endpoint is asked whether it is ready.
pub const HEALTH_ATTEMPTS: u32 = 5;

/// How long to wait before it is asked again for the first time.
pub const HEALTH_INITIAL_DELAY_MILLIS: u64 = 250;

/// How long an answer that is no stream may take.
pub const CONTROL_REQUEST_TIMEOUT_SECONDS: u64 = 300;

/// How long a stream may be silent.
pub const STREAM_IDLE_TIMEOUT_MILLIS: u64 = 300_000;

/// How often the endpoint is asked whether it is ready, and how long to wait
/// before it is asked again for the first time.
#[derive(Debug, Clone, Copy, PartialEq, Eq, Structural)]
pub struct ReadinessPolicy {
    pub attempts: u32,
    pub initial_delay: Delay,
}

impl DeepView for ReadinessPolicy {
    type V = ReadinessPolicy;

    open spec fn deep_view(&self) -> ReadinessPolicy {
        *self
    }
}

impl Duplicate for ReadinessPolicy {
    fn duplicate(&self) -> (copy: Self) {
        *self
    }
}

/// How far the wait has come: which attempt is made, and how long to wait after
/// it.
#[derive(Debug, Clone, Copy, PartialEq, Eq, Structural)]
pub struct ReadinessState {
    pub attempt: u32,
    pub delay: Delay,
}

impl DeepView for ReadinessState {
    type V = ReadinessState;

    open spec fn deep_view(&self) -> ReadinessState {
        *self
    }
}

impl Duplicate for ReadinessState {
    fn duplicate(&self) -> (copy: Self) {
        *self
    }
}

/// How a llama.cpp endpoint is reached, and the models that it listed last.
#[derive(Debug, Clone, PartialEq, Eq)]
pub struct LlamaCppRuntime {
    pub api_provider: Provider,
    pub health_provider: Provider,
    pub catalog: Option<LlamaCppCatalog>,
    pub readiness: ReadinessPolicy,
}

/// The model of [`LlamaCppRuntime`].
#[verifier::ext_equal]
pub struct LlamaCppRuntimeModel {
    pub api_provider: ProviderModel,
    pub health_provider: ProviderModel,
    pub catalog: Option<LlamaCppCatalogModel>,
    pub readiness: ReadinessPolicy,
}

impl DeepView for LlamaCppRuntime {
    type V = LlamaCppRuntimeModel;

    open spec fn deep_view(&self) -> LlamaCppRuntimeModel {
        LlamaCppRuntimeModel {
            api_provider: self.api_provider.deep_view(),
            health_provider: self.health_provider.deep_view(),
            catalog: self.catalog.deep_view(),
            readiness: self.readiness.deep_view(),
        }
    }
}

impl Duplicate for LlamaCppRuntime {
    fn duplicate(&self) -> (copy: Self) {
        LlamaCppRuntime {
            api_provider: self.api_provider.duplicate(),
            health_provider: self.health_provider.duplicate(),
            catalog: self.catalog.duplicate(),
            readiness: self.readiness.duplicate(),
        }
    }
}

/// What to do next on the way to a catalog.
#[derive(Debug, Clone, PartialEq, Eq)]
pub enum DiscoveryAction {
    /// Ask whether the endpoint is ready.
    Probe(ReadinessState),
    /// Wait, then ask again.
    Wait {
        delay: Delay,
        next: ReadinessState,
    },
    /// Ask for the models.
    List,
    /// The catalog is known.
    Found(LlamaCppCatalog),
    /// There is none.
    Fail(ApiError),
}

/// The model of [`DiscoveryAction`].
#[verifier::ext_equal]
pub enum DiscoveryActionModel {
    Probe(ReadinessState),
    Wait {
        delay: Delay,
        next: ReadinessState,
    },
    List,
    Found(LlamaCppCatalogModel),
    Fail(ApiErrorModel),
}

impl DeepView for DiscoveryAction {
    type V = DiscoveryActionModel;

    open spec fn deep_view(&self) -> DiscoveryActionModel {
        match self {
            DiscoveryAction::Probe(inner) => DiscoveryActionModel::Probe(inner.deep_view()),
            DiscoveryAction::Wait { delay, next } => DiscoveryActionModel::Wait {
                delay: delay.deep_view(),
                next: next.deep_view(),
            },
            DiscoveryAction::List => DiscoveryActionModel::List,
            DiscoveryAction::Found(inner) => DiscoveryActionModel::Found(inner.deep_view()),
            DiscoveryAction::Fail(inner) => DiscoveryActionModel::Fail(inner.deep_view()),
        }
    }
}

impl Duplicate for DiscoveryAction {
    fn duplicate(&self) -> (copy: Self) {
        match self {
            DiscoveryAction::Probe(inner) => DiscoveryAction::Probe(inner.duplicate()),
            DiscoveryAction::Wait { delay, next } => DiscoveryAction::Wait {
                delay: delay.duplicate(),
                next: next.duplicate(),
            },
            DiscoveryAction::List => DiscoveryAction::List,
            DiscoveryAction::Found(inner) => DiscoveryAction::Found(inner.duplicate()),
            DiscoveryAction::Fail(inner) => DiscoveryAction::Fail(inner.duplicate()),
        }
    }
}

/// One event of a stream, to be handed on.
#[derive(Debug, Clone, PartialEq, Eq)]
pub enum LlamaCppStreamItem {
    /// An event.
    Event(ResponseEvent),
    /// An error.
    Failure(ApiError),
}

/// The model of [`LlamaCppStreamItem`].
#[verifier::ext_equal]
pub enum LlamaCppStreamItemModel {
    Event(ResponseEventModel),
    Failure(ApiErrorModel),
}

impl DeepView for LlamaCppStreamItem {
    type V = LlamaCppStreamItemModel;

    open spec fn deep_view(&self) -> LlamaCppStreamItemModel {
        match self {
            LlamaCppStreamItem::Event(inner) => LlamaCppStreamItemModel::Event(inner.deep_view()),
            LlamaCppStreamItem::Failure(inner) => LlamaCppStreamItemModel::Failure(inner.deep_view()),
        }
    }
}

impl Duplicate for LlamaCppStreamItem {
    fn duplicate(&self) -> (copy: Self) {
        match self {
            LlamaCppStreamItem::Event(inner) => LlamaCppStreamItem::Event(inner.duplicate()),
            LlamaCppStreamItem::Failure(inner) => LlamaCppStreamItem::Failure(inner.duplicate()),
        }
    }
}

/// What to do with an event of a stream.
#[derive(Debug, Clone, PartialEq, Eq)]
pub struct LlamaCppStreamStep {
    pub item: LlamaCppStreamItem,
    pub ended: bool,
}

/// The model of [`LlamaCppStreamStep`].
#[verifier::ext_equal]
pub struct LlamaCppStreamStepModel {
    pub item: LlamaCppStreamItemModel,
    pub ended: bool,
}

impl DeepView for LlamaCppStreamStep {
    type V = LlamaCppStreamStepModel;

    open spec fn deep_view(&self) -> LlamaCppStreamStepModel {
        LlamaCppStreamStepModel {
            item: self.item.deep_view(),
            ended: self.ended.deep_view(),
        }
    }
}

impl Duplicate for LlamaCppStreamStep {
    fn duplicate(&self) -> (copy: Self) {
        LlamaCppStreamStep {
            item: self.item.duplicate(),
            ended: self.ended.duplicate(),
        }
    }
}

// ---- the endpoint ----

/// A text without the slashes at its end.
pub open spec fn without_slashes(text: Seq<char>) -> Seq<char>
    decreases text.len(),
{
    if text.len() > 0 && text.last() == '/' {
        without_slashes(text.drop_last())
    } else {
        text
    }
}

fn trim_slashes(text: &str) -> (rest: String)
    ensures
        rest@ == without_slashes(text@),
{
    let chars = chars_of(text);
    let mut end: usize = chars.len();
    assert(text@.take(text@.len() as int) =~= text@);
    while end > 0 && chars[end - 1] == '/'
        invariant
            end <= chars.len(),
            chars@ == text@,
            without_slashes(text@) == without_slashes(text@.take(end as int)),
        decreases end,
    {
        assert(text@.take(end as int).drop_last() =~= text@.take(end - 1));
        end -= 1;
    }
    assert(chars@.subrange(0, end as int) =~= text@.take(end as int));
    text_range(&chars, 0, end)
}

/// How an address of the endpoint is reached: nothing is tried twice.
pub open spec fn provider_at(base_url: Seq<char>) -> ProviderModel {
    ProviderModel {
        name: "llama.cpp local"@,
        base_url,
        query_params: None,
        headers: Seq::empty(),
        retry: RetryConfig {
            max_attempts: 0,
            base_delay_millis: 250,
            retry_429: false,
            retry_5xx: false,
            retry_transport: false,
        },
        stream_idle_timeout_millis: STREAM_IDLE_TIMEOUT_MILLIS,
    }
}

fn provider(base_url: String) -> (provider: Provider)
    ensures
        provider.deep_view() == provider_at(base_url@),
{
    Provider {
        name: "llama.cpp local".to_owned(),
        base_url,
        query_params: None,
        headers: no_items(),
        retry: RetryConfig {
            max_attempts: 0,
            base_delay_millis: 250,
            retry_429: false,
            retry_5xx: false,
            retry_transport: false,
        },
        stream_idle_timeout_millis: STREAM_IDLE_TIMEOUT_MILLIS,
    }
}

/// The usual wait for an endpoint.
pub open spec fn usual_readiness() -> ReadinessPolicy {
    ReadinessPolicy {
        attempts: HEALTH_ATTEMPTS,
        initial_delay: Delay { seconds: 0, nanos: (HEALTH_INITIAL_DELAY_MILLIS * 1_000_000) as u32 },
    }
}

impl Default for ReadinessPolicy {
    /// The usual wait for an endpoint.
    fn default() -> (policy: Self)
        ensures
            policy == usual_readiness(),
    {
        ReadinessPolicy {
            attempts: HEALTH_ATTEMPTS,
            initial_delay: Delay { seconds: 0, nanos: (HEALTH_INITIAL_DELAY_MILLIS * 1_000_000) as u32 },
        }
    }
}

/// A runtime that knows of no models yet.
pub open spec fn runtime_at(endpoint: Seq<char>) -> LlamaCppRuntimeModel {
    LlamaCppRuntimeModel {
        api_provider: provider_at(without_slashes(endpoint) + "/v1"@),
        health_provider: provider_at(without_slashes(endpoint)),
        catalog: None,
        readiness: usual_readiness(),
    }
}

// ---- errors ----

/// What the body of an error says: the message in it where there is one, or
/// else the body itself.
pub open spec fn error_text(parsed: Result<JsonModel, Seq<char>>, body: Seq<char>) -> Seq<char> {
    match parsed {
        Ok(json) => match member(json, "error"@) {
            Some(error) => match member(error, "message"@) {
                Some(JsonModel::Text(message)) => if all_white(message) {
                    body
                } else {
                    message
                },
                _ => body,
            },
            None => body,
        },
        Err(_) => body,
    }
}

/// What the body of an error says, given what it was parsed to.
pub fn error_message(parsed: Result<Json, String>, body: &str) -> (message: String)
    ensures
        message@ == error_text(outcome(parsed), body@),
{
    if let Ok(json) = &parsed {
        if let Some(error) = json.get("error") {
            if let Some(Json::Text(message)) = error.get("message") {
                if !only_white(message) {
                    return message.duplicate();
                }
            }
        }
    }
    body.to_owned()
}

/// What the body of an error says.
pub fn llama_error_message(body: &str) -> (message: String)
    ensures
        message@ == error_text(json_parse(body@), body@),
{
    error_message(parse_json(body), body)
}

/// What is said where another try would fail again.
pub open spec fn lasting_words() -> Seq<Seq<char>> {
    seq![
        "system message must be at the beginning"@,
        "system message must be the first"@,
        "previous_response_id"@,
        "cannot determine type of 'item'"@,
        "invalid request"@,
        "template error"@,
    ]
}

/// Whether another try would fail again.
pub fn deterministic_failure(message: &str) -> (so: bool)
    ensures
        so == mentions(message@, lasting_words()),
{
    let words: [&str; 6] = [
        "system message must be at the beginning",
        "system message must be the first",
        "previous_response_id",
        "cannot determine type of 'item'",
        "invalid request",
        "template error",
    ];
    let words = words.as_slice();
    assert(words.deep_view() =~= lasting_words());
    contains_any(message, words)
}

/// What an error status with what its body says means: a request that cannot be
/// served, or one that may be tried again.
pub open spec fn status_class(status: u16, message: Seq<char>) -> ApiErrorModel {
    if 400 <= status < 500 || status == 500 && mentions(message, lasting_words()) {
        ApiErrorModel::InvalidRequest { message }
    } else {
        ApiErrorModel::Retryable {
            message: "llama.cpp request failed with HTTP "@ + status_line(status) + ": "@ + message,
            delay: None,
        }
    }
}

/// What an error of the transport means.
pub open spec fn transport_class(error: TransportErrorModel) -> ApiErrorModel {
    match error {
        TransportErrorModel::Http { status, body, .. } => {
            let text = match body {
                Some(text) => text,
                None => Seq::empty(),
            };
            status_class(status, error_text(json_parse(text), text))
        },
        TransportErrorModel::Timeout => ApiErrorModel::Retryable { message: error.text(), delay: None },
        TransportErrorModel::Connection(_) => ApiErrorModel::Retryable { message: error.text(), delay: None },
        TransportErrorModel::Network(_) => ApiErrorModel::Retryable { message: error.text(), delay: None },
        TransportErrorModel::RetryLimit => ApiErrorModel::Retryable {
            message: "llama.cpp transport retry limit reached"@,
            delay: None,
        },
        TransportErrorModel::Build(message) => ApiErrorModel::InvalidRequest { message },
    }
}

/// What an error means.
pub open spec fn class_of(error: ApiErrorModel) -> ApiErrorModel {
    match error {
        ApiErrorModel::Transport(error) => transport_class(error),
        ApiErrorModel::Stream(message) => if mentions(message, lasting_words()) {
            ApiErrorModel::InvalidRequest { message }
        } else {
            ApiErrorModel::Retryable { message, delay: None }
        },
        ApiErrorModel::Retryable { message, .. } => if mentions(message, lasting_words()) {
            ApiErrorModel::InvalidRequest { message }
        } else {
            error
        },
        ApiErrorModel::ServerOverloaded => ApiErrorModel::Retryable {
            message: "llama.cpp service unavailable"@,
            delay: None,
        },
        error => error,
    }
}

/// What an error status with what its body says means.
pub fn classify_status(status: u16, message: String) -> (class: ApiError)
    ensures
        class.deep_view() == status_class(status, message@),
{
    if (400 <= status && status < 500) || (status == 500 && deterministic_failure(&message)) {
        ApiError::InvalidRequest { message }
    } else {
        let mut text = concat3("llama.cpp request failed with HTTP ", &show_status(status), ": ");
        text.append(&message);
        ApiError::Retryable { message: text, delay: None }
    }
}

fn classify_transport(error: TransportError) -> (class: ApiError)
    ensures
        class.deep_view() == transport_class(error.deep_view()),
{
    let text = error.message();
    match error {
        TransportError::Http { status, body, .. } => {
            let body = match body {
                Some(body) => body,
                None => String::new(),
            };
            classify_status(status, llama_error_message(&body))
        },
        TransportError::Timeout => ApiError::Retryable { message: text, delay: None },
        TransportError::Connection(_) => ApiError::Retryable { message: text, delay: None },
        TransportError::Network(_) => ApiError::Retryable { message: text, delay: None },
        TransportError::RetryLimit => ApiError::Retryable {
            message: "llama.cpp transport retry limit reached".to_owned(),
            delay: None,
        },
        TransportError::Build(message) => ApiError::InvalidRequest { message },
    }
}

/// What an error means.
pub fn classify_error(error: ApiError) -> (class: ApiError)
    ensures
        class.deep_view() == class_of(error.deep_view()),
{
    match error {
        ApiError::Transport(error) => classify_transport(error),
        ApiError::Stream(message) => {
            if deterministic_failure(&message) {
                ApiError::InvalidRequest { message }
            } else {
                ApiError::Retryable { message, delay: None }
            }
        },
        ApiError::Retryable { message, delay } => {
            if deterministic_failure(&message) {
                ApiError::InvalidRequest { message }
            } else {
                ApiError::Retryable { message, delay }
            }
        },
        ApiError::ServerOverloaded => ApiError::Retryable {
            message: "llama.cpp service unavailable".to_owned(),
            delay: None,
        },
        error => error,
    }
}

/// Whether an error means that the endpoint may have other models by now.
pub open spec fn forgets_models(error: ApiErrorModel) -> bool {
    match error {
        ApiErrorModel::Retryable { .. } => true,
        ApiErrorModel::Stream(_) => true,
        ApiErrorModel::ServerOverloaded => true,
        ApiErrorModel::Transport(TransportErrorModel::Timeout) => true,
        ApiErrorModel::Transport(TransportErrorModel::Connection(_)) => true,
        ApiErrorModel::Transport(TransportErrorModel::Network(_)) => true,
        _ => false,
    }
}

/// Whether an error means that the endpoint may have other models by now.
pub fn invalidates_discovery(error: &ApiError) -> (so: bool)
    ensures
        so == forgets_models(error.deep_view()),
{
    match error {
        ApiError::Retryable { .. } => true,
        ApiError::Stream(_) => true,
        ApiError::ServerOverloaded => true,
        ApiError::Transport(TransportError::Timeout) => true,
        ApiError::Transport(TransportError::Connection(_)) => true,
        ApiError::Transport(TransportError::Network(_)) => true,
        _ => false,
    }
}

// ---- answers ----

/// The error for an answer that cannot be read.
pub open spec fn unreadable(path: Seq<char>, message: Seq<char>) -> ApiErrorModel {
    ApiErrorModel::InvalidRequest {
        message: "invalid llama.cpp JSON response from `"@ + path + "`: "@ + message,
    }
}

fn unreadable_error(path: &str, message: &str) -> (error: ApiError)
    ensures
        error.deep_view() == unreadable(path@, message@),
{
    let mut text = concat3("invalid llama.cpp JSON response from `", path, "`: ");
    text.append(message);
    ApiError::InvalidRequest { message: text }
}

/// The state of health that an array holds by position.
pub open spec fn seated_health(items: Seq<JsonModel>) -> Result<Seq<char>, Seq<char>> {
    match given_text(seat(items, 0, "status"@), "status"@) {
        Err(message) => Err(message),
        Ok(None) => Err(wrong_length(0, "struct HealthResponse with 1 element"@)),
        Ok(Some(status)) => filled(status, items.len(), 1, Source::Text),
    }
}

fn read_seated_health(items: &Vec<Json>) -> (read: Result<String, String>)
    ensures
        outcome(read) == seated_health(items.deep_view()),
{
    let json = take_seat(items, 0, "status");
    let status = match read_given_text(&json, "status") {
        Err(message) => {
            return Err(message);
        },
        Ok(None) => {
            return Err(length_error(0, "struct HealthResponse with 1 element"));
        },
        Ok(Some(value)) => value,
    };
    fill(status, items.len(), 1, Source::Text)
}

/// The state of health that an answer tells.
pub open spec fn health_of(json: JsonModel) -> Result<Seq<char>, Seq<char>> {
    match json {
        JsonModel::Array(items) => seated_health(items),
        _ => match not_object(json, "struct HealthResponse"@) {
            Some(message) => Err(message),
            None => match given_text(json, "status"@) {
                Err(message) => Err(message),
                Ok(None) => Err(missing("status"@)),
                Ok(Some(status)) => Ok(status),
            },
        },
    }
}

/// The state of health that an answer tells.
pub fn read_health(json: &Json) -> (status: Result<String, String>)
    ensures
        outcome(status) == health_of(json.deep_view()),
{
    broadcast use lemma_array_model;
    if let Json::Array(items) = json {
        return read_seated_health(items);
    }
    if let Some(message) = object_error(json, "struct HealthResponse") {
        return Err(message);
    }
    match read_given_text(json, "status") {
        Err(message) => Err(message),
        Ok(None) => Err(missing_field("status")),
        Ok(Some(status)) => Ok(status),
    }
}

/// The number of tokens that an array holds by position.
pub open spec fn seated_tokens(items: Seq<JsonModel>) -> Result<u64, Seq<char>> {
    match given_whole(seat(items, 0, "input_tokens"@), "input_tokens"@, u64::MAX, "u64"@) {
        Err(message) => Err(message),
        Ok(None) => Err(wrong_length(0, "struct InputTokensResponse with 1 element"@)),
        Ok(Some(count)) => filled(count, items.len(), 1, Source::Text),
    }
}

fn read_seated_tokens(items: &Vec<Json>) -> (read: Result<u64, String>)
    ensures
        outcome(read) == seated_tokens(items.deep_view()),
{
    let json = take_seat(items, 0, "input_tokens");
    let count = match read_given_whole(&json, "input_tokens", u64::MAX, "u64") {
        Err(message) => {
            return Err(message);
        },
        Ok(None) => {
            return Err(length_error(0, "struct InputTokensResponse with 1 element"));
        },
        Ok(Some(value)) => value,
    };
    fill(count, items.len(), 1, Source::Text)
}

/// The number of tokens that an answer tells.
pub open spec fn tokens_of(json: JsonModel) -> Result<u64, Seq<char>> {
    match json {
        JsonModel::Array(items) => seated_tokens(items),
        _ => match not_object(json, "struct InputTokensResponse"@) {
            Some(message) => Err(message),
            None => match given_whole(json, "input_tokens"@, u64::MAX, "u64"@) {
                Err(message) => Err(message),
                Ok(None) => Err(missing("input_tokens"@)),
                Ok(Some(count)) => Ok(count),
            },
        },
    }
}

/// The number of tokens that an answer tells.
pub fn read_tokens(json: &Json) -> (count: Result<u64, String>)
    ensures
        outcome(count) == tokens_of(json.deep_view()),
{
    broadcast use lemma_array_model;
    if let Json::Array(items) = json {
        return read_seated_tokens(items);
    }
    if let Some(message) = object_error(json, "struct InputTokensResponse") {
        return Err(message);
    }
    match read_given_whole(json, "input_tokens", u64::MAX, "u64") {
        Err(message) => Err(message),
        Ok(None) => Err(missing_field("input_tokens")),
        Ok(Some(count)) => Ok(count),
    }
}

/// What the answer to a question on health tells: the state, or the error.
pub open spec fn health_answer(reply: Result<Seq<u8>, TransportErrorModel>) -> Result<Seq<char>, ApiErrorModel> {
    match reply {
        Err(error) => Err(ApiErrorModel::Transport(error)),
        Ok(body) => match json_parse_bytes(body) {
            Err(message) => Err(unreadable("health"@, message)),
            Ok(json) => match health_of(json) {
                Err(message) => Err(unreadable("health"@, message)),
                Ok(status) => Ok(status),
            },
        },
    }
}

/// What the answer to a question on health tells.
pub fn hear_health(reply: Result<Vec<u8>, TransportError>) -> (status: Result<String, ApiError>)
    ensures
        outcome(status) == health_answer(outcome(reply)),
{
    match reply {
        Err(error) => Err(ApiError::Transport(error)),
        Ok(body) => {
            assert(body@ =~= body.deep_view());
            match parse_json_bytes(body.as_slice()) {
                Err(message) => Err(unreadable_error("health", &message)),
                Ok(json) => match read_health(&json) {
                    Err(message) => Err(unreadable_error("health", &message)),
                    Ok(status) => Ok(status),
                },
            }
        },
    }
}

/// What the answer to a question on models tells: the catalog, or the error.
pub open spec fn models_answer(reply: Result<Seq<u8>, TransportErrorModel>) -> Result<
    LlamaCppCatalogModel,
    ApiErrorModel,
> {
    match reply {
        Err(error) => Err(ApiErrorModel::Transport(error)),
        Ok(body) => match json_parse_bytes(body) {
            Err(message) => Err(unreadable("models"@, message)),
            Ok(json) => match models_of(json) {
                Err(message) => Err(unreadable("models"@, message)),
                Ok(response) => Ok(catalog_of(response.data)),
            },
        },
    }
}

/// What the answer to a question on models tells.
pub fn hear_models(reply: Result<Vec<u8>, TransportError>) -> (catalog: Result<LlamaCppCatalog, ApiError>)
    ensures
        outcome(catalog) == models_answer(outcome(reply)),
{
    match reply {
        Err(error) => Err(ApiError::Transport(error)),
        Ok(body) => {
            assert(body@ =~= body.deep_view());
            match parse_json_bytes(body.as_slice()) {
                Err(message) => Err(unreadable_error("models", &message)),
                Ok(json) => match ModelsResponse::from_json(&json) {
                    Err(message) => Err(unreadable_error("models", &message)),
                    Ok(response) => Ok(LlamaCppCatalog::from_discovery(&response)),
                },
            }
        },
    }
}

/// What the answer to a question on tokens tells: their number, or the error.
pub open spec fn tokens_answer(reply: Result<Seq<u8>, TransportErrorModel>) -> Result<u64, ApiErrorModel> {
    match reply {
        Err(error) => Err(ApiErrorModel::Transport(error)),
        Ok(body) => match json_parse_bytes(body) {
            Err(message) => Err(unreadable("responses/input_tokens"@, message)),
            Ok(json) => match tokens_of(json) {
                Err(message) => Err(unreadable("responses/input_tokens"@, message)),
                Ok(count) => Ok(count),
            },
        },
    }
}

/// What the answer to a question on tokens tells.
pub fn hear_tokens(reply: Result<Vec<u8>, TransportError>) -> (count: Result<u64, ApiError>)
    ensures
        outcome(count) == tokens_answer(outcome(reply)),
{
    match reply {
        Err(error) => Err(ApiError::Transport(error)),
        Ok(body) => {
            assert(body@ =~= body.deep_view());
            match parse_json_bytes(body.as_slice()) {
                Err(message) => Err(unreadable_error("responses/input_tokens", &message)),
                Ok(json) => match read_tokens(&json) {
                    Err(message) => Err(unreadable_error("responses/input_tokens", &message)),
                    Ok(count) => Ok(count),
                },
            }
        },
    }
}

// ---- discovery ----

/// Twice a span of time, or the longest one.
pub open spec fn doubled(delay: Delay) -> Delay {
    let nanos = delay.nanos * 2;
    let carry = if nanos >= 1_000_000_000 {
        1int
    } else {
        0int
    };
    if delay.seconds * 2 + carry > u64::MAX {
        Delay { seconds: u64::MAX, nanos: 999_999_999 }
    } else {
        Delay { seconds: (delay.seconds * 2 + carry) as u64, nanos: (nanos - carry * 1_000_000_000) as u32 }
    }
}

fn double(delay: Delay) -> (twice: Delay)
    requires
        delay.nanos < 1_000_000_000,
    ensures
        twice == doubled(delay),
        twice.nanos < 1_000_000_000,
{
    let nanos: u32 = delay.nanos * 2;
    let carry: u64 = if nanos >= 1_000_000_000 {
        1
    } else {
        0
    };
    if delay.seconds > (u64::MAX - carry) / 2 {
        return Delay { seconds: u64::MAX, nanos: 999_999_999 };
    }
    Delay {
        seconds: delay.seconds * 2 + carry,
        nanos: if nanos >= 1_000_000_000 {
            nanos - 1_000_000_000
        } else {
            nanos
        },
    }
}

/// The error for an endpoint that does not become ready.
pub open spec fn never_ready() -> ApiErrorModel {
    ApiErrorModel::Retryable {
        message: "llama.cpp did not become ready within the bounded health retry window"@,
        delay: None,
    }
}

/// The first step to a catalog: it is known, or the endpoint has to be ready.
pub open spec fn first_action(runtime: LlamaCppRuntimeModel) -> DiscoveryActionModel {
    match runtime.catalog {
        Some(catalog) => DiscoveryActionModel::Found(catalog),
        None => if runtime.readiness.attempts == 0 {
            DiscoveryActionModel::Fail(never_ready())
        } else {
            DiscoveryActionModel::Probe(ReadinessState { attempt: 0, delay: runtime.readiness.initial_delay })
        },
    }
}

/// The step to a catalog that follows an answer on health. An endpoint that is
/// not available yet is asked again after a while, as often as the policy
/// permits; the while doubles.
pub open spec fn action_after_health(
    policy: ReadinessPolicy,
    state: ReadinessState,
    status: Result<Seq<char>, ApiErrorModel>,
) -> DiscoveryActionModel {
    match status {
        Ok(status) => if status == "ok"@ {
            DiscoveryActionModel::List
        } else {
            DiscoveryActionModel::Fail(
                ApiErrorModel::InvalidRequest { message: "llama.cpp health response did not report ready"@ },
            )
        },
        Err(error) => if unavailable(error) && state.attempt + 1 < policy.attempts {
            DiscoveryActionModel::Wait {
                delay: state.delay,
                next: ReadinessState { attempt: (state.attempt + 1) as u32, delay: doubled(state.delay) },
            }
        } else {
            DiscoveryActionModel::Fail(class_of(error))
        },
    }
}

/// Whether an error says that the endpoint is not available yet.
pub open spec fn unavailable(error: ApiErrorModel) -> bool {
    error matches ApiErrorModel::Transport(TransportErrorModel::Http { status, .. }) && status == 503
}

fn is_unavailable(error: &ApiError) -> (so: bool)
    ensures
        so == unavailable(error.deep_view()),
{
    match error {
        ApiError::Transport(TransportError::Http { status, .. }) => *status == 503,
        _ => false,
    }
}

/// The step to a catalog that follows the state of health.
pub fn after_health(policy: ReadinessPolicy, state: ReadinessState, status: Result<String, ApiError>) -> (action: DiscoveryAction)
    requires
        state.delay.nanos < 1_000_000_000,
    ensures
        action.deep_view() == action_after_health(policy, state, outcome(status)),
        action matches DiscoveryAction::Wait { delay, next } ==> delay.nanos < 1_000_000_000 && next.delay.nanos
            < 1_000_000_000,
{
    match status {
        Ok(status) => {
            if *status.as_str() == *"ok" {
                DiscoveryAction::List
            } else {
                DiscoveryAction::Fail(
                    ApiError::InvalidRequest {
                        message: "llama.cpp health response did not report ready".to_owned(),
                    },
                )
            }
        },
        Err(error) => {
            if is_unavailable(&error) && state.attempt < policy.attempts && policy.attempts - state.attempt > 1 {
                DiscoveryAction::Wait {
                    delay: state.delay,
                    next: ReadinessState { attempt: state.attempt + 1, delay: double(state.delay) },
                }
            } else {
                DiscoveryAction::Fail(classify_error(error))
            }
        },
    }
}

/// The step to a catalog that follows the answer on models, and the runtime
/// that remembers the catalog.
pub open spec fn after_listing(runtime: LlamaCppRuntimeModel, catalog: Result<LlamaCppCatalogModel, ApiErrorModel>) -> (
    LlamaCppRuntimeModel,
    DiscoveryActionModel,
) {
    match catalog {
        Ok(catalog) => (
            LlamaCppRuntimeModel { catalog: Some(catalog), ..runtime },
            DiscoveryActionModel::Found(catalog),
        ),
        Err(error) => (runtime, DiscoveryActionModel::Fail(error)),
    }
}

/// The model that goes by a name in a catalog, or why there is none.
pub open spec fn model_named(catalog: LlamaCppCatalogModel, requested: Seq<char>) -> Result<
    LlamaCppCatalogEntryModel,
    ApiErrorModel,
> {
    match resolved(catalog, requested) {
        Ok(entry) => Ok(entry),
        Err(error) => Err(ApiErrorModel::InvalidRequest { message: error.text() }),
    }
}

// ---- requests ----

/// A runtime after an error: the catalog is forgotten where the endpoint may
/// have other models by now.
pub open spec fn after_error(runtime: LlamaCppRuntimeModel, error: ApiErrorModel) -> LlamaCppRuntimeModel {
    if forgets_models(error) {
        LlamaCppRuntimeModel { catalog: None, ..runtime }
    } else {
        runtime
    }
}

/// What follows the number of tokens of a request: it is ready where they fit.
pub open spec fn prepared(
    runtime: LlamaCppRuntimeModel,
    model: LlamaCppCatalogEntryModel,
    body: JsonModel,
    count: Result<u64, ApiErrorModel>,
) -> (LlamaCppRuntimeModel, Result<LlamaCppPreparedRequestModel, ApiErrorModel>) {
    match count {
        Err(error) => (after_error(runtime, class_of(error)), Err(class_of(error))),
        Ok(count) => if count > model.max_input_tokens {
            (runtime, Err(ApiErrorModel::ContextWindowExceeded))
        } else {
            (runtime, Ok(LlamaCppPreparedRequestModel { model, body }))
        },
    }
}

/// What to do with an event of a stream: a complete response ends it, and so
/// does an error that forgets the catalog.
pub open spec fn streamed(runtime: LlamaCppRuntimeModel, event: Result<ResponseEventModel, ApiErrorModel>) -> (
    LlamaCppRuntimeModel,
    LlamaCppStreamStepModel,
) {
    match event {
        Ok(event) => (
            runtime,
            LlamaCppStreamStepModel { item: LlamaCppStreamItemModel::Event(event), ended: event is Completed },
        ),
        Err(error) => (
            after_error(runtime, class_of(error)),
            LlamaCppStreamStepModel {
                item: LlamaCppStreamItemModel::Failure(class_of(error)),
                ended: forgets_models(class_of(error)),
            },
        ),
    }
}

impl LlamaCppRuntime {
    /// The runtime of the managed endpoint.
    pub fn new() -> (runtime: Self)
        ensures
            runtime.deep_view() == runtime_at(LLAMA_CPP_LOCAL_ENDPOINT@),
    {
        LlamaCppRuntime::for_endpoint(LLAMA_CPP_LOCAL_ENDPOINT)
    }

    /// The runtime of an endpoint.
    pub fn for_endpoint(endpoint: &str) -> (runtime: Self)
        ensures
            runtime.deep_view() == runtime_at(endpoint@),
    {
        let endpoint = trim_slashes(endpoint);
        LlamaCppRuntime {
            api_provider: provider(concat(&endpoint, "/v1")),
            health_provider: provider(endpoint),
            catalog: None,
            readiness: ReadinessPolicy::default(),
        }
    }

    /// The first step to the catalog.
    pub fn catalog(&self) -> (action: DiscoveryAction)
        ensures
            action.deep_view() == first_action(self.deep_view()),
    {
        match &self.catalog {
            Some(catalog) => DiscoveryAction::Found(catalog.duplicate()),
            None => {
                if self.readiness.attempts == 0 {
                    DiscoveryAction::Fail(
                        ApiError::Retryable {
                            message:
                                "llama.cpp did not become ready within the bounded health retry window".to_owned(),
                            delay: None,
                        },
                    )
                } else {
                    DiscoveryAction::Probe(ReadinessState { attempt: 0, delay: self.readiness.initial_delay })
                }
            },
        }
    }

    /// Takes the answer on models: a catalog is remembered.
    pub fn listed(&mut self, catalog: Result<LlamaCppCatalog, ApiError>) -> (action: DiscoveryAction)
        ensures
            (final(self).deep_view(), action.deep_view()) == after_listing(old(self).deep_view(), outcome(catalog)),
    {
        match catalog {
            Ok(catalog) => {
                self.catalog = Some(catalog.duplicate());
                DiscoveryAction::Found(catalog)
            },
            Err(error) => DiscoveryAction::Fail(error),
        }
    }

    /// The model that goes by a name in a catalog, or why there is none.
    pub fn resolve_model(catalog: &LlamaCppCatalog, requested: &str) -> (entry: Result<LlamaCppCatalogEntry, ApiError>)
        ensures
            outcome(entry) == model_named(catalog.deep_view(), requested@),
    {
        match catalog.resolve(requested) {
            Ok(entry) => Ok(entry),
            Err(error) => Err(ApiError::InvalidRequest { message: error.message() }),
        }
    }

    /// What a failed request means. The catalog is forgotten where the endpoint
    /// may have other models by now.
    pub fn request_failed(&mut self, error: ApiError) -> (class: ApiError)
        ensures
            class.deep_view() == class_of(error.deep_view()),
            final(self).deep_view() == after_error(old(self).deep_view(), class_of(error.deep_view())),
    {
        let class = classify_error(error);
        if invalidates_discovery(&class) {
            self.catalog = None;
        }
        class
    }

    /// What follows the number of tokens of a request: it is ready where they
    /// fit.
    pub fn prepare(&mut self, model: LlamaCppCatalogEntry, body: Json, count: Result<u64, ApiError>) -> (request: Result<
        LlamaCppPreparedRequest,
        ApiError,
    >)
        ensures
            (final(self).deep_view(), outcome(request)) == prepared(
                old(self).deep_view(),
                model.deep_view(),
                body.deep_view(),
                outcome(count),
            ),
    {
        match count {
            Err(error) => Err(self.request_failed(error)),
            Ok(count) => {
                if count > model.max_input_tokens {
                    Err(ApiError::ContextWindowExceeded)
                } else {
                    Ok(LlamaCppPreparedRequest { model, body })
                }
            },
        }
    }

    /// What to do with an event of a stream.
    pub fn stream(&mut self, event: Result<ResponseEvent, ApiError>) -> (step: LlamaCppStreamStep)
        ensures
            (final(self).deep_view(), step.deep_view()) == streamed(old(self).deep_view(), outcome(event)),
    {
        match event {
            Ok(event) => {
                let ended = match &event {
                    ResponseEvent::Completed { .. } => true,
                    _ => false,
                };
                LlamaCppStreamStep { item: LlamaCppStreamItem::Event(event), ended }
            },
            Err(error) => {
                let class = self.request_failed(error);
                let ended = invalidates_discovery(&class);
                LlamaCppStreamStep { item: LlamaCppStreamItem::Failure(class), ended }
            },
        }
    }

    /// Takes the end of a stream that told of no complete response: the
    /// endpoint may have gone, and its catalog is forgotten.
    pub fn stream_ended(&mut self)
        ensures
            final(self).deep_view() == (LlamaCppRuntimeModel { catalog: None, ..old(self).deep_view() }),
    {
        self.invalidate_discovery();
    }

    /// Forgets the catalog.
    pub fn invalidate_discovery(&mut self)
        ensures
            final(self).deep_view() == (LlamaCppRuntimeModel { catalog: None, ..old(self).deep_view() }),
    {
        self.catalog = None;
    }
}

// ---- laws ----

/// An endpoint is asked no more often than the policy permits: every wait leads
/// to a later attempt that is still within it.
pub proof fn law_waiting_is_bounded(
    policy: ReadinessPolicy,
    state: ReadinessState,
    status: Result<Seq<char>, ApiErrorModel>,
)
    ensures
        action_after_health(policy, state, status) matches DiscoveryActionModel::Wait { next, .. } ==> state.attempt
            < next.attempt < policy.attempts,
        !(action_after_health(policy, state, status) is Probe),
{
}

/// Once a catalog was found, it is known without another question until it is
/// forgotten.
pub proof fn law_catalog_is_kept(runtime: LlamaCppRuntimeModel, catalog: LlamaCppCatalogModel)
    ensures
        first_action(after_listing(runtime, Ok(catalog)).0) == DiscoveryActionModel::Found(catalog),
        !(first_action(LlamaCppRuntimeModel { catalog: None, ..runtime }) is Found),
{
}

/// A request is only ready where its tokens fit beside the output and the
/// margin of the model, and it is sent as it was counted.
pub proof fn law_prepared_request_fits(
    runtime: LlamaCppRuntimeModel,
    data: Seq<crate::llama_cpp::catalog::DiscoveredModelModel>,
    index: int,
    body: JsonModel,
    count: Result<u64, ApiErrorModel>,
)
    requires
        0 <= index < data.len(),
    ensures
        ({
            let model = catalog_of(data).models[index];
            prepared(runtime, model, body, count).1 matches Ok(request) ==> request.body == body && count is Ok && (
            count->Ok_0 == 0 || count->Ok_0 + model.max_output_tokens + model.safety_margin_tokens
                <= model.context_window)
        }),
{
}

/// A stream that may have met another set of models ends, and the catalog is
/// forgotten; any other event keeps it.
pub proof fn law_stream_forgets_what_may_have_changed(
    runtime: LlamaCppRuntimeModel,
    event: Result<ResponseEventModel, ApiErrorModel>,
)
    ensures
        ({
            let (after, step) = streamed(runtime, event);
            (event matches Err(error) && forgets_models(class_of(error))) ==> after.catalog is None && step.ended
        }),
        ({
            let (after, step) = streamed(runtime, event);
            !(event matches Err(error) && forgets_models(class_of(error))) ==> after == runtime
        }),
{
}

} // verus!
