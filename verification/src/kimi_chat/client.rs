//! What is sent for a Kimi request, and what a streamed response becomes.
use crate::api::{
    header_from, header_text, item_id, item_name, retryable, show_status, status_line, ApiError, ApiErrorModel,
    Delay, HttpHeader, HttpHeaderModel, Provider, ResponseEvent, ResponseEventModel, ResponseUsageMetadata,
    ResponseUsageMetadataModel, TransportError, TransportErrorModel,
};
use crate::json::{json_print, lemma_object_model, print_json, Json, JsonModel};
use crate::kimi_chat::request::{request_json, KimiChatRequest, KimiReasoning, KimiReasoningModel, KimiToolCallModel};
use crate::kimi_chat::stream::{committable, decoded, fed, fresh, KimiStreamDecoder, KimiStreamDecoderModel};
use crate::kimi_chat::stream_types::{
    KimiDecodedResponse, KimiDecodedResponseModel, KimiPendingResponse, KimiPendingResponseModel, KimiStreamError,
    KimiStreamErrorModel, KimiStreamEvent, KimiStreamEventModel, KimiTerminal, KimiUsage,
};
use crate::model::{append_items, no_items, outcome, push_item, Duplicate};
use crate::protocol::{
    ContentItem, ContentItemModel, ReasoningItemContent, ReasoningItemContentModel, ResponseItem,
    ResponseItemModel, TokenUsage,
};
use crate::text::{concat, concat3, contains_any, decimal, decimal_text, mentions, parse_whole, whole_number};
use vstd::prelude::*;
use vstd::string::*;

verus! {

/// A point in time: seconds since the start of 1970, and nanoseconds. A leap
/// second has more than a second of these.
#[derive(Debug, Clone, Copy, PartialEq, Eq, Structural)]
pub struct Moment {
    pub seconds: i64,
    pub nanos: u32,
}

impl DeepView for Moment {
    type V = Moment;

    open spec fn deep_view(&self) -> Moment {
        *self
    }
}

impl Duplicate for Moment {
    fn duplicate(&self) -> (copy: Self) {
        *self
    }
}

/// The names of the items that were announced.
#[derive(Debug, Clone, PartialEq, Eq)]
pub struct PresentationState {
    pub reasoning_item_id: Option<String>,
    pub message_item_id: Option<String>,
    pub tool_item_ids: Vec<(usize, String)>,
}

/// The model of [`PresentationState`].
#[verifier::ext_equal]
pub struct PresentationStateModel {
    pub reasoning_item_id: Option<Seq<char>>,
    pub message_item_id: Option<Seq<char>>,
    pub tool_item_ids: Seq<(usize, Seq<char>)>,
}

impl DeepView for PresentationState {
    type V = PresentationStateModel;

    open spec fn deep_view(&self) -> PresentationStateModel {
        PresentationStateModel {
            reasoning_item_id: self.reasoning_item_id.deep_view(),
            message_item_id: self.message_item_id.deep_view(),
            tool_item_ids: self.tool_item_ids.deep_view(),
        }
    }
}

impl Duplicate for PresentationState {
    fn duplicate(&self) -> (copy: Self) {
        PresentationState {
            reasoning_item_id: self.reasoning_item_id.duplicate(),
            message_item_id: self.message_item_id.duplicate(),
            tool_item_ids: self.tool_item_ids.duplicate(),
        }
    }
}

/// What happens on the connection.
#[derive(Debug, Clone, PartialEq, Eq)]
pub enum KimiStreamInput {
    /// Bytes came.
    Bytes(Vec<u8>),
    /// The connection ended.
    Ended,
    /// The connection broke at some time.
    Failed {
        error: TransportError,
        now: Moment,
    },
    /// Nothing came for too long.
    Idle,
}

/// The model of [`KimiStreamInput`].
#[verifier::ext_equal]
pub enum KimiStreamInputModel {
    Bytes(Seq<u8>),
    Ended,
    Failed {
        error: TransportErrorModel,
        now: Moment,
    },
    Idle,
}

impl DeepView for KimiStreamInput {
    type V = KimiStreamInputModel;

    open spec fn deep_view(&self) -> KimiStreamInputModel {
        match self {
            KimiStreamInput::Bytes(inner) => KimiStreamInputModel::Bytes(inner.deep_view()),
            KimiStreamInput::Ended => KimiStreamInputModel::Ended,
            KimiStreamInput::Failed { error, now } => KimiStreamInputModel::Failed {
                error: error.deep_view(),
                now: now.deep_view(),
            },
            KimiStreamInput::Idle => KimiStreamInputModel::Idle,
        }
    }
}

impl Duplicate for KimiStreamInput {
    fn duplicate(&self) -> (copy: Self) {
        match self {
            KimiStreamInput::Bytes(inner) => KimiStreamInput::Bytes(inner.duplicate()),
            KimiStreamInput::Ended => KimiStreamInput::Ended,
            KimiStreamInput::Failed { error, now } => KimiStreamInput::Failed {
                error: error.duplicate(),
                now: now.duplicate(),
            },
            KimiStreamInput::Idle => KimiStreamInput::Idle,
        }
    }
}

/// What the caller is told.
#[derive(Debug, Clone, PartialEq, Eq)]
pub enum KimiStreamItem {
    /// An event of the response.
    Event(ResponseEvent),
    /// The stream failed.
    Failure(ApiError),
}

/// The model of [`KimiStreamItem`].
#[verifier::ext_equal]
pub enum KimiStreamItemModel {
    Event(ResponseEventModel),
    Failure(ApiErrorModel),
}

impl DeepView for KimiStreamItem {
    type V = KimiStreamItemModel;

    open spec fn deep_view(&self) -> KimiStreamItemModel {
        match self {
            KimiStreamItem::Event(inner) => KimiStreamItemModel::Event(inner.deep_view()),
            KimiStreamItem::Failure(inner) => KimiStreamItemModel::Failure(inner.deep_view()),
        }
    }
}

impl Duplicate for KimiStreamItem {
    fn duplicate(&self) -> (copy: Self) {
        match self {
            KimiStreamItem::Event(inner) => KimiStreamItem::Event(inner.duplicate()),
            KimiStreamItem::Failure(inner) => KimiStreamItem::Failure(inner.duplicate()),
        }
    }
}

/// A stream in progress: its decoder, and the items that were announced.
#[derive(Debug, Clone, PartialEq, Eq)]
pub struct KimiStreamDriver {
    pub decoder: KimiStreamDecoder,
    pub presentation: PresentationState,
}

/// The model of [`KimiStreamDriver`].
#[verifier::ext_equal]
pub struct KimiStreamDriverModel {
    pub decoder: KimiStreamDecoderModel,
    pub presentation: PresentationStateModel,
}

impl DeepView for KimiStreamDriver {
    type V = KimiStreamDriverModel;

    open spec fn deep_view(&self) -> KimiStreamDriverModel {
        KimiStreamDriverModel {
            decoder: self.decoder.deep_view(),
            presentation: self.presentation.deep_view(),
        }
    }
}

impl Duplicate for KimiStreamDriver {
    fn duplicate(&self) -> (copy: Self) {
        KimiStreamDriver {
            decoder: self.decoder.duplicate(),
            presentation: self.presentation.duplicate(),
        }
    }
}

/// What is told after something happened, and the stream where it goes on.
#[derive(Debug, Clone, PartialEq, Eq)]
pub struct KimiStreamStep {
    pub items: Vec<KimiStreamItem>,
    pub next: Option<KimiStreamDriver>,
}

/// The model of [`KimiStreamStep`].
#[verifier::ext_equal]
pub struct KimiStreamStepModel {
    pub items: Seq<KimiStreamItemModel>,
    pub next: Option<KimiStreamDriverModel>,
}

impl DeepView for KimiStreamStep {
    type V = KimiStreamStepModel;

    open spec fn deep_view(&self) -> KimiStreamStepModel {
        KimiStreamStepModel {
            items: self.items.deep_view(),
            next: self.next.deep_view(),
        }
    }
}

impl Duplicate for KimiStreamStep {
    fn duplicate(&self) -> (copy: Self) {
        KimiStreamStep {
            items: self.items.duplicate(),
            next: self.next.duplicate(),
        }
    }
}

// ---- client ----

/// A client of a provider: its transport, how the provider is reached, and who
/// asks. The telemetry hears of its requests.
pub struct KimiChatClient<T, A, R> {
    pub transport: T,
    pub provider: Provider,
    pub auth: A,
    pub telemetry: Option<R>,
}

impl<T, A, R> KimiChatClient<T, A, R> {
    /// A client that nothing listens to.
    pub fn new(transport: T, provider: Provider, auth: A) -> (client: Self)
        ensures
            client.transport == transport,
            client.provider == provider,
            client.auth == auth,
            client.telemetry is None,
    {
        KimiChatClient { transport, provider, auth, telemetry: None }
    }

    /// The client with this telemetry in place of its own.
    pub fn with_telemetry(self, telemetry: Option<R>) -> (client: Self)
        ensures
            client.transport == self.transport,
            client.provider == self.provider,
            client.auth == self.auth,
            client.telemetry == telemetry,
    {
        KimiChatClient { transport: self.transport, provider: self.provider, auth: self.auth, telemetry }
    }
}

/// The body of a request.
pub fn request_body(request: &KimiChatRequest) -> (body: String)
    ensures
        body@ == json_print(request_json(request.deep_view())),
{
    print_json(&request.to_json())
}

// ---- headers ----

/// The name under which the other side knows a response.
pub fn trace_id(headers: &Vec<HttpHeader>) -> (id: Option<String>)
    ensures
        id.deep_view() == header_from(headers.deep_view(), "x-trace-id"@, 0),
{
    header_text(headers, "x-trace-id")
}

// ---- delays ----

/// The point in time that `chrono` reads in an RFC 2822 date.
pub uninterp spec fn dated(text: Seq<char>) -> Option<Moment>;

/// The time that `chrono` finds between two points in time, from the later one
/// and the earlier one.
pub uninterp spec fn between(later: Moment, earlier: Moment) -> Option<Delay>;

/// `chrono::DateTime::parse_from_rfc2822`: the point in time of a date, nothing
/// for what is no date; a function of the text alone.
#[verifier::external_body]
fn parse_date(text: &str) -> (moment: Option<Moment>)
    ensures
        moment == dated(text@),
{
    chrono::DateTime::parse_from_rfc2822(text).ok().map(
        |date| Moment { seconds: date.timestamp(), nanos: date.timestamp_subsec_nanos() },
    )
}

/// Whether a point in time is in no leap second and within the years that
/// `chrono` knows.
pub open spec fn ordinary(moment: Moment) -> bool {
    moment.nanos < 1_000_000_000 && -8_000_000_000_000 <= moment.seconds <= 8_000_000_000_000
}

/// The nanoseconds since the start of 1970.
pub open spec fn total_nanos(moment: Moment) -> int {
    moment.seconds * 1_000_000_000 + moment.nanos
}

/// `chrono::DateTime::signed_duration_since` with `TimeDelta::to_std`: the time
/// from one point in time to a later one. It is a function of the two; outside
/// leap seconds it is their difference.
#[verifier::external_body]
fn time_between(later: Moment, earlier: Moment) -> (delay: Option<Delay>)
    ensures
        delay == between(later, earlier),
        ordinary(later) && ordinary(earlier) && total_nanos(earlier) <= total_nanos(later) ==> delay is Some
            && (delay->0).nanos < 1_000_000_000 && (delay->0).seconds * 1_000_000_000 + (delay->0).nanos == total_nanos(
            later,
        ) - total_nanos(earlier),
{
    let later = chrono::DateTime::from_timestamp(later.seconds, later.nanos)?;
    let earlier = chrono::DateTime::from_timestamp(earlier.seconds, earlier.nanos)?;
    let span = later.signed_duration_since(earlier).to_std().ok()?;
    Some(Delay { seconds: span.as_secs(), nanos: span.subsec_nanos() })
}

/// Whether one point in time is after another.
pub open spec fn after(moment: Moment, other: Moment) -> bool {
    moment.seconds > other.seconds || moment.seconds == other.seconds && moment.nanos > other.nanos
}

/// How long to wait until a date: nothing where it is past.
pub open spec fn wait_until(date: Option<Moment>, now: Moment) -> Option<Delay> {
    match date {
        None => None,
        Some(date) => if after(date, now) {
            between(date, now)
        } else {
            None
        },
    }
}

/// How long to wait until a date: nothing where it is past, and the difference
/// of the two outside leap seconds.
pub fn delay_until(date: Option<Moment>, now: Moment) -> (delay: Option<Delay>)
    ensures
        delay == wait_until(date, now),
        date matches Some(date) ==> ordinary(date) && ordinary(now) ==> match delay {
            Some(delay) => total_nanos(now) < total_nanos(date) && delay.nanos < 1_000_000_000 && delay.seconds
                * 1_000_000_000 + delay.nanos == total_nanos(date) - total_nanos(now),
            None => total_nanos(date) <= total_nanos(now),
        },
{
    match date {
        None => None,
        Some(date) => {
            if date.seconds > now.seconds || (date.seconds == now.seconds && date.nanos > now.nanos) {
                time_between(date, now)
            } else {
                None
            }
        },
    }
}

/// A number of milliseconds as a span of time.
pub open spec fn millis(count: u64) -> Delay {
    Delay { seconds: count / 1000, nanos: ((count % 1000) * 1_000_000) as u32 }
}

/// A number of seconds as a span of time.
pub open spec fn seconds(count: u64) -> Delay {
    Delay { seconds: count, nanos: 0 }
}

/// The number of milliseconds that a header asks to wait, where it does.
pub open spec fn asked_millis(headers: Seq<HttpHeaderModel>) -> Option<u64> {
    match header_from(headers, "retry-after-ms"@, 0) {
        Some(value) => whole_number(value),
        None => None,
    }
}

/// How long the headers ask to wait: by milliseconds, or else by seconds or a
/// date.
pub open spec fn header_delay(headers: Seq<HttpHeaderModel>, now: Moment) -> Option<Delay> {
    match asked_millis(headers) {
        Some(count) => Some(millis(count)),
        None => match header_from(headers, "retry-after"@, 0) {
            None => None,
            Some(value) => match whole_number(value) {
                Some(count) => Some(seconds(count)),
                None => wait_until(dated(value), now),
            },
        },
    }
}

fn retry_header_delay(headers: &Vec<HttpHeader>, now: Moment) -> (delay: Option<Delay>)
    ensures
        delay == header_delay(headers.deep_view(), now),
{
    if let Some(value) = header_text(headers, "retry-after-ms") {
        if let Some(count) = parse_whole(&value) {
            return Some(Delay { seconds: count / 1000, nanos: ((count % 1000) * 1_000_000) as u32 });
        }
    }
    match header_text(headers, "retry-after") {
        None => None,
        Some(value) => match parse_whole(&value) {
            Some(count) => Some(Delay { seconds: count, nanos: 0 }),
            None => delay_until(parse_date(&value), now),
        },
    }
}

// ---- errors ----

/// What a body says where the conversation does not fit.
pub open spec fn overflow_words() -> Seq<Seq<char>> {
    seq![
        "context window"@,
        "context limit"@,
        "maximum context length"@,
        "prompt is too long"@,
        "too many input tokens"@,
    ]
}

/// What a body says where the quota is used up.
pub open spec fn quota_words() -> Seq<Seq<char>> {
    seq![
        "quota_exceeded"@,
        "insufficient_quota"@,
        "billing_error"@,
        "credit balance is too low"@,
        "exceeded your current quota"@,
        "usage_limit"@,
    ]
}

fn is_context_overflow(message: &str) -> (so: bool)
    ensures
        so == mentions(message@, overflow_words()),
{
    let words: [&str; 5] = [
        "context window",
        "context limit",
        "maximum context length",
        "prompt is too long",
        "too many input tokens",
    ];
    let words = words.as_slice();
    assert(words.deep_view() =~= overflow_words());
    contains_any(message, words)
}

fn is_quota_exhaustion(message: &str) -> (so: bool)
    ensures
        so == mentions(message@, quota_words()),
{
    let words: [&str; 6] = [
        "quota_exceeded",
        "insufficient_quota",
        "billing_error",
        "credit balance is too low",
        "exceeded your current quota",
        "usage_limit",
    ];
    let words = words.as_slice();
    assert(words.deep_view() =~= quota_words());
    contains_any(message, words)
}

/// Whether a status says to try again: overloads, conflicts, and all errors of
/// the server.
pub open spec fn retried_status(status: u16) -> bool {
    status == 408 || status == 409 || status == 429 || status == 529 || 500 <= status < 600
}

/// What an error of the transport means. What the body says comes before the
/// status.
pub open spec fn classified_transport(error: TransportErrorModel, now: Moment) -> ApiErrorModel {
    match error {
        TransportErrorModel::Http { status, url, headers, body } => {
            let text = match body {
                Some(text) => text,
                None => Seq::empty(),
            };
            if mentions(text, overflow_words()) {
                ApiErrorModel::ContextWindowExceeded
            } else if mentions(text, quota_words()) {
                ApiErrorModel::QuotaExceeded
            } else if retried_status(status) {
                retryable(
                    "native Kimi request failed with HTTP "@ + status_line(status),
                    match headers {
                        Some(headers) => header_delay(headers, now),
                        None => None,
                    },
                )
            } else {
                ApiErrorModel::Transport(error)
            }
        },
        error => ApiErrorModel::Transport(error),
    }
}

/// What an error means.
pub open spec fn classified(error: ApiErrorModel, now: Moment) -> ApiErrorModel {
    match error {
        ApiErrorModel::Transport(error) => classified_transport(error, now),
        ApiErrorModel::ServerOverloaded => retryable("server overloaded"@, None),
        ApiErrorModel::RateLimit(message) => retryable(message, None),
        error => error,
    }
}

fn classify_kimi_transport_error(error: TransportError, now: Moment) -> (class: ApiError)
    ensures
        class.deep_view() == classified_transport(error.deep_view(), now),
{
    match error {
        TransportError::Http { status, url, headers, body } => {
            let text = match &body {
                Some(text) => text.duplicate(),
                None => String::new(),
            };
            if is_context_overflow(&text) {
                return ApiError::ContextWindowExceeded;
            }
            if is_quota_exhaustion(&text) {
                return ApiError::QuotaExceeded;
            }
            if status == 408 || status == 409 || status == 429 || status == 529 || (500 <= status && status < 600) {
                let delay = match &headers {
                    Some(headers) => retry_header_delay(headers, now),
                    None => None,
                };
                return ApiError::Retryable {
                    message: concat("native Kimi request failed with HTTP ", &show_status(status)),
                    delay,
                };
            }
            ApiError::Transport(TransportError::Http { status, url, headers, body })
        },
        error => ApiError::Transport(error),
    }
}

/// What an error means at some time.
pub fn classify_kimi_api_error_at(error: ApiError, now: Moment) -> (class: ApiError)
    ensures
        class.deep_view() == classified(error.deep_view(), now),
{
    match error {
        ApiError::Transport(error) => classify_kimi_transport_error(error, now),
        ApiError::ServerOverloaded => ApiError::Retryable { message: "server overloaded".to_owned(), delay: None },
        ApiError::RateLimit(message) => ApiError::Retryable { message, delay: None },
        error => error,
    }
}

/// A response that may be committed, or why it may not.
pub open spec fn committed(response: KimiDecodedResponseModel) -> Result<
    KimiDecodedResponseModel,
    KimiStreamErrorModel,
> {
    match response.terminal {
        KimiTerminal::Completed | KimiTerminal::ToolsReady => Ok(response),
        KimiTerminal::OutputExhausted => Err(
            KimiStreamErrorModel::InvalidTransition("native Kimi output exhausted before completion"@),
        ),
        KimiTerminal::Refusal => Err(KimiStreamErrorModel::InvalidTransition("native Kimi response was filtered"@)),
    }
}

/// A response that may be committed, or why it may not.
pub fn validate_committable(response: KimiDecodedResponse) -> (committed: Result<KimiDecodedResponse, KimiStreamError>)
    ensures
        outcome(committed) == self::committed(response.deep_view()),
{
    match response.terminal {
        KimiTerminal::Completed | KimiTerminal::ToolsReady => Ok(response),
        KimiTerminal::OutputExhausted => Err(
            KimiStreamError::InvalidTransition("native Kimi output exhausted before completion"),
        ),
        KimiTerminal::Refusal => Err(KimiStreamError::InvalidTransition("native Kimi response was filtered")),
    }
}

/// What an error of the stream means: a broken stream, or a response that
/// cannot be used.
pub open spec fn mapped_error(error: KimiStreamErrorModel) -> ApiErrorModel {
    match error {
        KimiStreamErrorModel::EmptyStream => ApiErrorModel::Stream(error.text()),
        KimiStreamErrorModel::InvalidUtf8 => ApiErrorModel::Stream(error.text()),
        KimiStreamErrorModel::MalformedFraming(_) => ApiErrorModel::Stream(error.text()),
        KimiStreamErrorModel::MalformedChunk(_) => ApiErrorModel::Stream(error.text()),
        KimiStreamErrorModel::PrematureEof(_) => ApiErrorModel::Stream(error.text()),
        KimiStreamErrorModel::InvalidTransition(message) => if message == "successful terminal had no content"@ {
            ApiErrorModel::Stream("native Kimi stop contained no usable output"@)
        } else if message == "native Kimi output exhausted before completion"@ {
            ApiErrorModel::InvalidRequest { message }
        } else {
            ApiErrorModel::InvalidRequest { message: error.text() }
        },
        _ => ApiErrorModel::InvalidRequest { message: error.text() },
    }
}

/// What an error of the stream means.
pub fn map_stream_error(error: KimiStreamError) -> (mapped: ApiError)
    ensures
        mapped.deep_view() == mapped_error(error.deep_view()),
{
    let text = error.message();
    match error {
        KimiStreamError::EmptyStream => ApiError::Stream(text),
        KimiStreamError::InvalidUtf8 => ApiError::Stream(text),
        KimiStreamError::MalformedFraming(_) => ApiError::Stream(text),
        KimiStreamError::MalformedChunk(_) => ApiError::Stream(text),
        KimiStreamError::PrematureEof(_) => ApiError::Stream(text),
        KimiStreamError::InvalidTransition(message) => {
            if *message == *"successful terminal had no content" {
                ApiError::Stream("native Kimi stop contained no usable output".to_owned())
            } else if *message == *"native Kimi output exhausted before completion" {
                ApiError::InvalidRequest { message: message.to_owned() }
            } else {
                ApiError::InvalidRequest { message: text }
            }
        },
        _ => ApiError::InvalidRequest { message: text },
    }
}

// ---- presentation ----

/// A message that holds nothing yet.
pub open spec fn blank_message(id: Seq<char>) -> ResponseItemModel {
    ResponseItemModel::Message { id: Some(id), role: "assistant"@, content: Seq::empty() }
}

/// Reasoning that holds nothing yet.
pub open spec fn blank_reasoning(id: Seq<char>) -> ResponseItemModel {
    ResponseItemModel::Reasoning {
        id: Some(id),
        summary: Seq::empty(),
        content: Some(Seq::empty()),
        encrypted_content: None,
    }
}

/// A tool call.
pub open spec fn call_item(id: Seq<char>, call_id: Seq<char>, name: Seq<char>, arguments: Seq<char>) -> ResponseItemModel {
    ResponseItemModel::FunctionCall { id: Some(id), name, namespace: None, arguments, call_id }
}

fn empty_message(id: String) -> (item: ResponseItem)
    ensures
        item.deep_view() == blank_message(id@),
{
    ResponseItem::Message { id: Some(id), role: "assistant".to_owned(), content: no_items() }
}

fn empty_reasoning(id: String) -> (item: ResponseItem)
    ensures
        item.deep_view() == blank_reasoning(id@),
{
    ResponseItem::Reasoning { id: Some(id), summary: no_items(), content: Some(no_items()), encrypted_content: None }
}

fn call(id: String, call_id: String, name: String, arguments: String) -> (item: ResponseItem)
    ensures
        item.deep_view() == call_item(id@, call_id@, name@, arguments@),
{
    ResponseItem::FunctionCall { id: Some(id), name, namespace: None, arguments, call_id }
}

/// The name of the item for the tool call with this number, from `at` on.
pub open spec fn tool_item_from(ids: Seq<(usize, Seq<char>)>, index: usize, at: int) -> Option<Seq<char>>
    decreases ids.len() - at,
{
    if at < 0 || at >= ids.len() {
        None
    } else if ids[at].0 == index {
        Some(ids[at].1)
    } else {
        tool_item_from(ids, index, at + 1)
    }
}

fn find_tool_item(ids: &Vec<(usize, String)>, index: usize) -> (id: Option<String>)
    ensures
        id.deep_view() == tool_item_from(ids.deep_view(), index, 0),
{
    let mut i: usize = 0;
    while i < ids.len()
        invariant
            i <= ids.len(),
            tool_item_from(ids.deep_view(), index, 0) == tool_item_from(ids.deep_view(), index, i as int),
        decreases ids.len() - i,
    {
        assert(ids.deep_view()[i as int] == ids@[i as int].deep_view());
        if ids[i].0 == index {
            return Some(ids[i].1.duplicate());
        }
        i += 1;
    }
    None
}

/// The announced items after an event, and what the caller is told: an item is
/// announced once, before the first delta of it. A new item is named by `fresh`.
pub open spec fn shown(state: PresentationStateModel, event: KimiStreamEventModel, fresh: Seq<char>) -> (
    PresentationStateModel,
    Seq<ResponseEventModel>,
) {
    match event {
        KimiStreamEventModel::Content { delta, .. } => {
            let told = ResponseEventModel::OutputTextDelta { item_id: None, delta };
            if state.message_item_id is Some {
                (state, seq![told])
            } else {
                let id = item_name("msg"@, fresh);
                (
                    PresentationStateModel { message_item_id: Some(id), ..state },
                    seq![ResponseEventModel::OutputItemAdded(blank_message(id)), told],
                )
            }
        },
        KimiStreamEventModel::Reasoning { delta, .. } => {
            let told = ResponseEventModel::ReasoningContentDelta { item_id: None, delta, content_index: 0 };
            if state.reasoning_item_id is Some {
                (state, seq![told])
            } else {
                let id = item_name("rs"@, fresh);
                (
                    PresentationStateModel { reasoning_item_id: Some(id), ..state },
                    seq![ResponseEventModel::OutputItemAdded(blank_reasoning(id)), told],
                )
            }
        },
        KimiStreamEventModel::ToolCall { index, id, name, arguments_delta, .. } => {
            let (next, item, told) = match tool_item_from(state.tool_item_ids, index, 0) {
                Some(item) => (state, item, Seq::empty()),
                None => {
                    let item = item_name("fc"@, fresh);
                    (
                        PresentationStateModel { tool_item_ids: state.tool_item_ids.push((index, item)), ..state },
                        item,
                        seq![ResponseEventModel::OutputItemAdded(call_item(item, id, name, Seq::empty()))],
                    )
                },
            };
            (
                next,
                if arguments_delta.len() > 0 {
                    told.push(
                        ResponseEventModel::ToolCallInputDelta {
                            item_id: item,
                            call_id: Some(id),
                            delta: arguments_delta,
                        },
                    )
                } else {
                    told
                },
            )
        },
    }
}

impl PresentationState {
    /// Nothing announced yet.
    pub fn new() -> (state: Self)
        ensures
            state.deep_view() == (PresentationStateModel {
                reasoning_item_id: None,
                message_item_id: None,
                tool_item_ids: Seq::empty(),
            }),
    {
        PresentationState { reasoning_item_id: None, message_item_id: None, tool_item_ids: no_items() }
    }

    /// What the caller is told of an event. A new item is named by `fresh`, which
    /// tells it from all others.
    pub fn events(&mut self, event: KimiStreamEvent, fresh: &str) -> (events: Vec<ResponseEvent>)
        ensures
            (final(self).deep_view(), events.deep_view()) == shown(old(self).deep_view(), event.deep_view(), fresh@),
    {
        let mut events: Vec<ResponseEvent> = no_items();
        match event {
            KimiStreamEvent::Content { delta, .. } => {
                if self.message_item_id.is_none() {
                    let id = item_id("msg", fresh);
                    push_item(&mut events, ResponseEvent::OutputItemAdded(empty_message(id.duplicate())));
                    self.message_item_id = Some(id);
                }
                push_item(&mut events, ResponseEvent::OutputTextDelta { item_id: None, delta });
            },
            KimiStreamEvent::Reasoning { delta, .. } => {
                if self.reasoning_item_id.is_none() {
                    let id = item_id("rs", fresh);
                    push_item(&mut events, ResponseEvent::OutputItemAdded(empty_reasoning(id.duplicate())));
                    self.reasoning_item_id = Some(id);
                }
                push_item(
                    &mut events,
                    ResponseEvent::ReasoningContentDelta { item_id: None, delta, content_index: 0 },
                );
            },
            KimiStreamEvent::ToolCall { index, id, name, arguments_delta, .. } => {
                let item = match find_tool_item(&self.tool_item_ids, index) {
                    Some(item) => item,
                    None => {
                        let item = item_id("fc", fresh);
                        push_item(
                            &mut events,
                            ResponseEvent::OutputItemAdded(
                                call(item.duplicate(), id.duplicate(), name, String::new()),
                            ),
                        );
                        push_item(&mut self.tool_item_ids, (index, item.duplicate()));
                        item
                    },
                };
                if !arguments_delta.as_str().is_empty() {
                    push_item(
                        &mut events,
                        ResponseEvent::ToolCallInputDelta {
                            item_id: item,
                            call_id: Some(id),
                            delta: arguments_delta,
                        },
                    );
                }
            },
        }
        proof {
            let told = shown(old(self).deep_view(), event.deep_view(), fresh@).1;
            assert(events.deep_view() =~= told);
        }
        events
    }
}

// ---- canonical items ----

/// The events that commit reasoning: none where there is no text.
pub open spec fn reasoning_events(state: PresentationStateModel, reasoning: KimiReasoningModel, fresh: Seq<char>) -> (
    PresentationStateModel,
    Seq<ResponseEventModel>,
) {
    if reasoning.text.len() == 0 {
        (state, Seq::empty())
    } else {
        let (id, announced) = match state.reasoning_item_id {
            Some(id) => (id, Seq::empty()),
            None => {
                let id = item_name("rs"@, fresh);
                (id, seq![ResponseEventModel::OutputItemAdded(blank_reasoning(id))])
            },
        };
        (
            PresentationStateModel { reasoning_item_id: Some(id), ..state },
            announced.push(
                ResponseEventModel::OutputItemDone(
                    ResponseItemModel::Reasoning {
                        id: Some(id),
                        summary: Seq::empty(),
                        content: Some(seq![ReasoningItemContentModel::ReasoningText { text: reasoning.text }]),
                        encrypted_content: Some(reasoning.marker),
                    },
                ),
            ),
        )
    }
}

/// The events that commit a message: none where there is no text.
pub open spec fn message_events(state: PresentationStateModel, text: Seq<char>, fresh: Seq<char>) -> (
    PresentationStateModel,
    Seq<ResponseEventModel>,
) {
    if text.len() == 0 {
        (state, Seq::empty())
    } else {
        let (id, announced) = match state.message_item_id {
            Some(id) => (id, Seq::empty()),
            None => {
                let id = item_name("msg"@, fresh);
                (id, seq![ResponseEventModel::OutputItemAdded(blank_message(id))])
            },
        };
        (
            PresentationStateModel { message_item_id: Some(id), ..state },
            announced.push(
                ResponseEventModel::OutputItemDone(
                    ResponseItemModel::Message {
                        id: Some(id),
                        role: "assistant"@,
                        content: seq![ContentItemModel::OutputText { text }],
                    },
                ),
            ),
        )
    }
}

/// What tells the item of a tool call from all others.
pub open spec fn numbered(fresh: Seq<char>, index: int) -> Seq<char> {
    fresh + "_"@ + decimal(index as nat)
}

/// The events that commit the tool calls from `at` on.
pub open spec fn calls_from(
    state: PresentationStateModel,
    calls: Seq<KimiToolCallModel>,
    at: int,
    fresh: Seq<char>,
    done: Seq<ResponseEventModel>,
) -> (PresentationStateModel, Seq<ResponseEventModel>)
    decreases calls.len() - at,
{
    if at < 0 || at >= calls.len() {
        (state, done)
    } else {
        let called = calls[at];
        let (next, id, told) = match tool_item_from(state.tool_item_ids, at as usize, 0) {
            Some(id) => (state, id, done),
            None => {
                let id = item_name("fc"@, numbered(fresh, at));
                (
                    PresentationStateModel { tool_item_ids: state.tool_item_ids.push((at as usize, id)), ..state },
                    id,
                    done.push(
                        ResponseEventModel::OutputItemAdded(
                            call_item(id, called.id, called.function.name, Seq::empty()),
                        ),
                    ),
                )
            },
        };
        calls_from(
            next,
            calls,
            at + 1,
            fresh,
            told.push(
                ResponseEventModel::OutputItemDone(
                    call_item(id, called.id, called.function.name, called.function.arguments),
                ),
            ),
        )
    }
}

/// The events that commit the output of a response: its reasoning, its message,
/// its tool calls.
pub open spec fn commit_items(state: PresentationStateModel, pending: KimiPendingResponseModel, fresh: Seq<char>) -> (
    PresentationStateModel,
    Seq<ResponseEventModel>,
) {
    let (state, reasoning) = reasoning_events(state, pending.reasoning, fresh);
    let (state, message) = message_events(state, pending.content, fresh);
    calls_from(state, pending.tool_calls, 0, fresh, reasoning + message)
}

fn commit_reasoning(state: &mut PresentationState, reasoning: KimiReasoning, fresh: &str) -> (events: Vec<ResponseEvent>)
    ensures
        (final(state).deep_view(), events.deep_view()) == reasoning_events(
            old(state).deep_view(),
            reasoning.deep_view(),
            fresh@,
        ),
{
    let mut events: Vec<ResponseEvent> = no_items();
    if !reasoning.text.as_str().is_empty() {
        let known = state.reasoning_item_id.duplicate();
        let id = match known {
            Some(id) => id,
            None => {
                let id = item_id("rs", fresh);
                push_item(&mut events, ResponseEvent::OutputItemAdded(empty_reasoning(id.duplicate())));
                state.reasoning_item_id = Some(id.duplicate());
                id
            },
        };
        let mut content: Vec<ReasoningItemContent> = no_items();
        push_item(&mut content, ReasoningItemContent::ReasoningText { text: reasoning.text });
        assert(content.deep_view() =~= seq![ReasoningItemContentModel::ReasoningText { text: reasoning.text@ }]);
        push_item(
            &mut events,
            ResponseEvent::OutputItemDone(
                ResponseItem::Reasoning {
                    id: Some(id),
                    summary: no_items(),
                    content: Some(content),
                    encrypted_content: Some(reasoning.marker),
                },
            ),
        );
    }
    proof {
        let told = reasoning_events(old(state).deep_view(), reasoning.deep_view(), fresh@).1;
        assert(events.deep_view() =~= told);
    }
    events
}

fn commit_message(state: &mut PresentationState, text: String, fresh: &str) -> (events: Vec<ResponseEvent>)
    ensures
        (final(state).deep_view(), events.deep_view()) == message_events(old(state).deep_view(), text@, fresh@),
{
    let mut events: Vec<ResponseEvent> = no_items();
    if !text.as_str().is_empty() {
        let known = state.message_item_id.duplicate();
        let id = match known {
            Some(id) => id,
            None => {
                let id = item_id("msg", fresh);
                push_item(&mut events, ResponseEvent::OutputItemAdded(empty_message(id.duplicate())));
                state.message_item_id = Some(id.duplicate());
                id
            },
        };
        let mut content: Vec<ContentItem> = no_items();
        push_item(&mut content, ContentItem::OutputText { text });
        assert(content.deep_view() =~= seq![ContentItemModel::OutputText { text: text@ }]);
        push_item(
            &mut events,
            ResponseEvent::OutputItemDone(
                ResponseItem::Message { id: Some(id), role: "assistant".to_owned(), content },
            ),
        );
    }
    proof {
        let told = message_events(old(state).deep_view(), text@, fresh@).1;
        assert(events.deep_view() =~= told);
    }
    events
}

/// The events that commit the output of a response. New items are named by
/// `fresh`.
pub fn canonical_items(state: &mut PresentationState, pending: KimiPendingResponse, fresh: &str) -> (events: Vec<
    ResponseEvent,
>)
    ensures
        (final(state).deep_view(), events.deep_view()) == commit_items(
            old(state).deep_view(),
            pending.deep_view(),
            fresh@,
        ),
{
    let mut events = commit_reasoning(state, pending.reasoning, fresh);
    append_items(&mut events, commit_message(state, pending.content, fresh));
    let calls = &pending.tool_calls;
    let mut i: usize = 0;
    while i < calls.len()
        invariant
            i <= calls.len(),
            calls.deep_view() == pending.deep_view().tool_calls,
            commit_items(old(state).deep_view(), pending.deep_view(), fresh@) == calls_from(
                state.deep_view(),
                calls.deep_view(),
                i as int,
                fresh@,
                events.deep_view(),
            ),
        decreases calls.len() - i,
    {
        assert(calls.deep_view()[i as int] == calls@[i as int].deep_view());
        let called = &calls[i];
        let id = match find_tool_item(&state.tool_item_ids, i) {
            Some(id) => id,
            None => {
                let id = item_id("fc", &concat3(fresh, "_", &decimal_text(i as u64)));
                push_item(
                    &mut events,
                    ResponseEvent::OutputItemAdded(
                        call(id.duplicate(), called.id.duplicate(), called.function.name.duplicate(), String::new()),
                    ),
                );
                push_item(&mut state.tool_item_ids, (i, id.duplicate()));
                id
            },
        };
        push_item(
            &mut events,
            ResponseEvent::OutputItemDone(
                call(
                    id,
                    called.id.duplicate(),
                    called.function.name.duplicate(),
                    called.function.arguments.duplicate(),
                ),
            ),
        );
        i += 1;
    }
    events
}

// ---- the end ----

/// Usage as the conversation counts it, where it fits.
pub open spec fn mapped_usage(usage: KimiUsage) -> Result<TokenUsage, ApiErrorModel> {
    if usage.prompt_tokens > i64::MAX || usage.cached_prompt_tokens > i64::MAX || usage.completion_tokens > i64::MAX
        || usage.reasoning_tokens > i64::MAX || usage.total_tokens > i64::MAX {
        Err(
            ApiErrorModel::InvalidRequest { message: "native Kimi usage exceeded canonical integer bounds"@ },
        )
    } else {
        Ok(
            TokenUsage {
                input_tokens: usage.prompt_tokens as i64,
                cached_input_tokens: usage.cached_prompt_tokens as i64,
                cache_write_input_tokens: 0,
                output_tokens: usage.completion_tokens as i64,
                reasoning_output_tokens: usage.reasoning_tokens as i64,
                total_tokens: usage.total_tokens as i64,
            },
        )
    }
}

/// Usage as the conversation counts it, where it fits.
pub fn map_usage(usage: KimiUsage) -> (mapped: Result<TokenUsage, ApiError>)
    ensures
        outcome(mapped) == mapped_usage(usage),
{
    let most: u64 = i64::MAX as u64;
    if usage.prompt_tokens > most || usage.cached_prompt_tokens > most || usage.completion_tokens > most
        || usage.reasoning_tokens > most || usage.total_tokens > most {
        return Err(
            ApiError::InvalidRequest { message: "native Kimi usage exceeded canonical integer bounds".to_owned() },
        );
    }
    Ok(
        TokenUsage {
            input_tokens: usage.prompt_tokens as i64,
            cached_input_tokens: usage.cached_prompt_tokens as i64,
            cache_write_input_tokens: 0,
            output_tokens: usage.completion_tokens as i64,
            reasoning_output_tokens: usage.reasoning_tokens as i64,
            total_tokens: usage.total_tokens as i64,
        },
    )
}

/// What is kept of the name under which the other side knows a response.
pub open spec fn trace_metadata(trace_id: Option<Seq<char>>) -> Option<ResponseUsageMetadataModel> {
    match trace_id {
        None => None,
        Some(id) => Some(
            ResponseUsageMetadataModel {
                amount: None,
                metadata: Some(JsonModel::Object(seq![("x-trace-id"@, JsonModel::Text(id))])),
            },
        ),
    }
}

fn make_metadata(trace_id: Option<String>) -> (metadata: Option<ResponseUsageMetadata>)
    ensures
        metadata.deep_view() == trace_metadata(trace_id.deep_view()),
{
    broadcast use lemma_object_model;
    match trace_id {
        None => None,
        Some(id) => {
            let mut entries: Vec<(String, Json)> = no_items();
            push_item(&mut entries, ("x-trace-id".to_owned(), Json::Text(id)));
            assert(entries.deep_view() =~= seq![("x-trace-id"@, JsonModel::Text(id@))]);
            Some(ResponseUsageMetadata { amount: None, metadata: Some(Json::Object(entries)) })
        },
    }
}

/// The events that commit a response and complete it.
pub open spec fn completion(state: PresentationStateModel, response: KimiDecodedResponseModel, fresh: Seq<char>) -> Result<
    Seq<ResponseEventModel>,
    ApiErrorModel,
> {
    let usage = match response.usage {
        None => Ok(None),
        Some(usage) => match mapped_usage(usage) {
            Ok(usage) => Ok(Some(usage)),
            Err(error) => Err(error),
        },
    };
    match usage {
        Err(error) => Err(error),
        Ok(token_usage) => match response.pending {
            None => Err(
                ApiErrorModel::InvalidRequest { message: "native Kimi response had no committable output"@ },
            ),
            Some(pending) => Ok(
                commit_items(state, pending, fresh).1.push(
                    ResponseEventModel::Completed {
                        response_id: response.response_id,
                        token_usage,
                        usage_metadata: trace_metadata(response.trace_id),
                        end_turn: Some(response.terminal == KimiTerminal::Completed),
                    },
                ),
            ),
        },
    }
}

/// The events that commit a response and complete it. New items are named by
/// `fresh`.
pub fn completed_events(state: PresentationState, response: KimiDecodedResponse, fresh: &str) -> (events: Result<
    Vec<ResponseEvent>,
    ApiError,
>)
    ensures
        outcome(events) == completion(state.deep_view(), response.deep_view(), fresh@),
{
    let mut state = state;
    let token_usage = match response.usage {
        None => None,
        Some(usage) => match map_usage(usage) {
            Ok(usage) => Some(usage),
            Err(error) => {
                return Err(error);
            },
        },
    };
    match response.pending {
        None => Err(
            ApiError::InvalidRequest { message: "native Kimi response had no committable output".to_owned() },
        ),
        Some(pending) => {
            let mut events = canonical_items(&mut state, pending, fresh);
            push_item(
                &mut events,
                ResponseEvent::Completed {
                    response_id: response.response_id,
                    token_usage,
                    usage_metadata: make_metadata(response.trace_id),
                    end_turn: Some(response.terminal == KimiTerminal::Completed),
                },
            );
            Ok(events)
        },
    }
}

// ---- the stream ----

/// Events as the caller is told them.
pub open spec fn as_items(events: Seq<ResponseEventModel>) -> Seq<KimiStreamItemModel> {
    Seq::new(events.len(), |i: int| KimiStreamItemModel::Event(events[i]))
}

/// What the events from `at` on tell behind what was told. The item of an event
/// is named by its number.
pub open spec fn told_from(
    state: PresentationStateModel,
    events: Seq<KimiStreamEventModel>,
    at: int,
    fresh: Seq<char>,
    told: Seq<KimiStreamItemModel>,
) -> (PresentationStateModel, Seq<KimiStreamItemModel>)
    decreases events.len() - at,
{
    if at < 0 || at >= events.len() {
        (state, told)
    } else {
        let (next, more) = shown(state, events[at], numbered(fresh, at));
        told_from(next, events, at + 1, fresh, told + as_items(more))
    }
}

/// What the end of a stream tells behind what was told.
pub open spec fn end_told(
    decoder: KimiStreamDecoderModel,
    state: PresentationStateModel,
    fresh: Seq<char>,
    told: Seq<KimiStreamItemModel>,
) -> Seq<KimiStreamItemModel> {
    let response = match decoded(decoder) {
        Err(error) => Err(error),
        Ok(response) => committed(response),
    };
    match response {
        Err(error) => told.push(KimiStreamItemModel::Failure(mapped_error(error))),
        Ok(response) => match completion(state, response, fresh) {
            Err(error) => told.push(KimiStreamItemModel::Failure(error)),
            Ok(events) => told + as_items(events),
        },
    }
}

/// What the caller is told after something happened, and whether the stream
/// goes on.
pub open spec fn stepped(driver: KimiStreamDriverModel, input: KimiStreamInputModel, fresh: Seq<char>) -> KimiStreamStepModel {
    match input {
        KimiStreamInputModel::Idle => KimiStreamStepModel {
            items: seq![
                KimiStreamItemModel::Failure(
                    ApiErrorModel::Stream("native Kimi stream was idle past its deadline"@),
                ),
            ],
            next: None,
        },
        KimiStreamInputModel::Failed { error, now } => KimiStreamStepModel {
            items: seq![KimiStreamItemModel::Failure(classified_transport(error, now))],
            next: None,
        },
        KimiStreamInputModel::Ended => KimiStreamStepModel {
            items: end_told(driver.decoder, driver.presentation, fresh, Seq::empty()),
            next: None,
        },
        KimiStreamInputModel::Bytes(bytes) => {
            let (decoder, events) = fed(driver.decoder, bytes);
            match events {
                Err(error) => KimiStreamStepModel {
                    items: seq![KimiStreamItemModel::Failure(mapped_error(error))],
                    next: None,
                },
                Ok(events) => {
                    let (presentation, told) = told_from(driver.presentation, events, 0, fresh, Seq::empty());
                    if decoder.state.done {
                        KimiStreamStepModel {
                            items: end_told(decoder, presentation, numbered(fresh, events.len() as int), told),
                            next: None,
                        }
                    } else {
                        KimiStreamStepModel {
                            items: told,
                            next: Some(KimiStreamDriverModel { decoder, presentation }),
                        }
                    }
                },
            }
        },
    }
}

fn append_events(items: &mut Vec<KimiStreamItem>, events: &Vec<ResponseEvent>)
    ensures
        final(items).deep_view() == old(items).deep_view() + as_items(events.deep_view()),
{
    let ghost before = items.deep_view();
    let mut i: usize = 0;
    while i < events.len()
        invariant
            i <= events.len(),
            before == old(items).deep_view(),
            items.deep_view() == before + as_items(events.deep_view()).take(i as int),
        decreases events.len() - i,
    {
        push_item(items, KimiStreamItem::Event(events[i].duplicate()));
        i += 1;
        assert(as_items(events.deep_view()).take(i as int) =~= as_items(events.deep_view()).take(i - 1).push(
            as_items(events.deep_view())[i - 1],
        ));
        assert(items.deep_view() =~= before + as_items(events.deep_view()).take(i as int));
    }
    assert(as_items(events.deep_view()).take(events.len() as int) =~= as_items(events.deep_view()));
}

fn failed(error: ApiError) -> (step: KimiStreamStep)
    ensures
        step.deep_view() == (KimiStreamStepModel {
            items: seq![KimiStreamItemModel::Failure(error.deep_view())],
            next: None,
        }),
{
    let mut items: Vec<KimiStreamItem> = no_items();
    push_item(&mut items, KimiStreamItem::Failure(error));
    assert(items.deep_view() =~= seq![KimiStreamItemModel::Failure(error.deep_view())]);
    KimiStreamStep { items, next: None }
}

fn tell(state: &mut PresentationState, events: &Vec<KimiStreamEvent>, fresh: &str) -> (told: Vec<KimiStreamItem>)
    ensures
        (final(state).deep_view(), told.deep_view()) == told_from(
            old(state).deep_view(),
            events.deep_view(),
            0,
            fresh@,
            Seq::empty(),
        ),
{
    let mut told: Vec<KimiStreamItem> = no_items();
    let mut i: usize = 0;
    while i < events.len()
        invariant
            i <= events.len(),
            told_from(old(state).deep_view(), events.deep_view(), 0, fresh@, Seq::empty()) == told_from(
                state.deep_view(),
                events.deep_view(),
                i as int,
                fresh@,
                told.deep_view(),
            ),
        decreases events.len() - i,
    {
        assert(events.deep_view()[i as int] == events@[i as int].deep_view());
        let more = state.events(events[i].duplicate(), &concat3(fresh, "_", &decimal_text(i as u64)));
        append_events(&mut told, &more);
        i += 1;
    }
    told
}

fn end_stream(decoder: KimiStreamDecoder, state: PresentationState, fresh: &str, told: Vec<KimiStreamItem>) -> (items: Vec<
    KimiStreamItem,
>)
    ensures
        items.deep_view() == end_told(decoder.deep_view(), state.deep_view(), fresh@, told.deep_view()),
{
    let mut items = told;
    let response = match decoder.finish() {
        Err(error) => Err(error),
        Ok(response) => validate_committable(response),
    };
    match response {
        Err(error) => {
            push_item(&mut items, KimiStreamItem::Failure(map_stream_error(error)));
        },
        Ok(response) => match completed_events(state, response, fresh) {
            Err(error) => {
                push_item(&mut items, KimiStreamItem::Failure(error));
            },
            Ok(events) => {
                append_events(&mut items, &events);
            },
        },
    }
    items
}

impl KimiStreamDriver {
    /// A stream before anything happened.
    pub fn new(wire_model: String, trace_id: Option<String>) -> (driver: Self)
        ensures
            driver.deep_view().decoder == (KimiStreamDecoderModel {
                trace_id: trace_id.deep_view(),
                ..fresh(wire_model@)
            }),
            driver.deep_view().presentation == (PresentationStateModel {
                reasoning_item_id: None,
                message_item_id: None,
                tool_item_ids: Seq::empty(),
            }),
    {
        let decoder = KimiStreamDecoder::new(wire_model);
        let decoder = match trace_id {
            Some(id) => decoder.with_trace_id(id),
            None => decoder,
        };
        KimiStreamDriver { decoder, presentation: PresentationState::new() }
    }

    /// What the caller is told after something happened, and the stream where it
    /// goes on. New items are named by `fresh`, which differs from step to step.
    pub fn step(self, input: KimiStreamInput, fresh: &str) -> (step: KimiStreamStep)
        ensures
            step.deep_view() == stepped(self.deep_view(), input.deep_view(), fresh@),
    {
        let mut decoder = self.decoder;
        let mut presentation = self.presentation;
        match input {
            KimiStreamInput::Idle => failed(
                ApiError::Stream("native Kimi stream was idle past its deadline".to_owned()),
            ),
            KimiStreamInput::Failed { error, now } => failed(classify_kimi_transport_error(error, now)),
            KimiStreamInput::Ended => KimiStreamStep {
                items: end_stream(decoder, presentation, fresh, no_items()),
                next: None,
            },
            KimiStreamInput::Bytes(bytes) => {
                assert(bytes@ =~= bytes.deep_view());
                match decoder.feed(bytes.as_slice()) {
                    Err(error) => failed(map_stream_error(error)),
                    Ok(events) => {
                        let told = tell(&mut presentation, &events, fresh);
                        if decoder.is_done() {
                            let last = concat3(fresh, "_", &decimal_text(events.len() as u64));
                            KimiStreamStep { items: end_stream(decoder, presentation, &last, told), next: None }
                        } else {
                            KimiStreamStep { items: told, next: Some(KimiStreamDriver { decoder, presentation }) }
                        }
                    },
                }
            },
        }
    }
}

} // verus!
