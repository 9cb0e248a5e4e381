//! What a client of a provider says and hears.
use crate::fields::StringMap;
use crate::json::{Json, JsonModel};
use crate::model::Duplicate;
use crate::protocol::{ResponseItem, ResponseItemModel, TokenUsage};
use crate::text::{concat, concat3, quote, quoted};
use vstd::prelude::*;
use vstd::string::*;

verus! {

/// A span of time.
#[derive(Debug, Clone, Copy, PartialEq, Eq, Structural)]
pub struct Delay {
    pub seconds: u64,
    pub nanos: u32,
}

impl DeepView for Delay {
    type V = Delay;

    open spec fn deep_view(&self) -> Delay {
        *self
    }
}

impl Duplicate for Delay {
    fn duplicate(&self) -> (copy: Self) {
        *self
    }
}

/// A header of a response: its name in small letters, and its value where it is
/// plain text.
#[derive(Debug, Clone, PartialEq, Eq)]
pub struct HttpHeader {
    pub name: String,
    pub value: Option<String>,
}

/// The model of [`HttpHeader`].
#[verifier::ext_equal]
pub struct HttpHeaderModel {
    pub name: Seq<char>,
    pub value: Option<Seq<char>>,
}

impl DeepView for HttpHeader {
    type V = HttpHeaderModel;

    open spec fn deep_view(&self) -> HttpHeaderModel {
        HttpHeaderModel {
            name: self.name.deep_view(),
            value: self.value.deep_view(),
        }
    }
}

impl Duplicate for HttpHeader {
    fn duplicate(&self) -> (copy: Self) {
        HttpHeader {
            name: self.name.duplicate(),
            value: self.value.duplicate(),
        }
    }
}

/// Why a request did not get through.
#[derive(Debug, Clone, PartialEq, Eq)]
pub enum TransportError {
    /// The server answered with an error.
    Http {
        status: u16,
        url: Option<String>,
        headers: Option<Vec<HttpHeader>>,
        body: Option<String>,
    },
    /// It was tried too often.
    RetryLimit,
    /// It took too long.
    Timeout,
    /// No connection could be made.
    Connection(String),
    /// The network failed.
    Network(String),
    /// The request could not be built.
    Build(String),
}

/// The model of [`TransportError`].
#[verifier::ext_equal]
pub enum TransportErrorModel {
    Http {
        status: u16,
        url: Option<Seq<char>>,
        headers: Option<Seq<HttpHeaderModel>>,
        body: Option<Seq<char>>,
    },
    RetryLimit,
    Timeout,
    Connection(Seq<char>),
    Network(Seq<char>),
    Build(Seq<char>),
}

impl DeepView for TransportError {
    type V = TransportErrorModel;

    open spec fn deep_view(&self) -> TransportErrorModel {
        match self {
            TransportError::Http { status, url, headers, body } => TransportErrorModel::Http {
                status: status.deep_view(),
                url: url.deep_view(),
                headers: headers.deep_view(),
                body: body.deep_view(),
            },
            TransportError::RetryLimit => TransportErrorModel::RetryLimit,
            TransportError::Timeout => TransportErrorModel::Timeout,
            TransportError::Connection(inner) => TransportErrorModel::Connection(inner.deep_view()),
            TransportError::Network(inner) => TransportErrorModel::Network(inner.deep_view()),
            TransportError::Build(inner) => TransportErrorModel::Build(inner.deep_view()),
        }
    }
}

impl Duplicate for TransportError {
    fn duplicate(&self) -> (copy: Self) {
        match self {
            TransportError::Http { status, url, headers, body } => TransportError::Http {
                status: status.duplicate(),
                url: url.duplicate(),
                headers: headers.duplicate(),
                body: body.duplicate(),
            },
            TransportError::RetryLimit => TransportError::RetryLimit,
            TransportError::Timeout => TransportError::Timeout,
            TransportError::Connection(inner) => TransportError::Connection(inner.duplicate()),
            TransportError::Network(inner) => TransportError::Network(inner.duplicate()),
            TransportError::Build(inner) => TransportError::Build(inner.duplicate()),
        }
    }
}

/// Why a provider could not be used.
#[derive(Debug, Clone, PartialEq, Eq)]
pub enum ApiError {
    /// The request did not get through.
    Transport(TransportError),
    /// The stream broke.
    Stream(String),
    /// The conversation does not fit.
    ContextWindowExceeded,
    /// The quota is used up.
    QuotaExceeded,
    /// It may be tried again.
    Retryable {
        message: String,
        delay: Option<Delay>,
    },
    /// Too many requests.
    RateLimit(String),
    /// The request cannot be served.
    InvalidRequest {
        message: String,
    },
    /// The server is overloaded.
    ServerOverloaded,
}

/// The model of [`ApiError`].
#[verifier::ext_equal]
pub enum ApiErrorModel {
    Transport(TransportErrorModel),
    Stream(Seq<char>),
    ContextWindowExceeded,
    QuotaExceeded,
    Retryable {
        message: Seq<char>,
        delay: Option<Delay>,
    },
    RateLimit(Seq<char>),
    InvalidRequest {
        message: Seq<char>,
    },
    ServerOverloaded,
}

impl DeepView for ApiError {
    type V = ApiErrorModel;

    open spec fn deep_view(&self) -> ApiErrorModel {
        match self {
            ApiError::Transport(inner) => ApiErrorModel::Transport(inner.deep_view()),
            ApiError::Stream(inner) => ApiErrorModel::Stream(inner.deep_view()),
            ApiError::ContextWindowExceeded => ApiErrorModel::ContextWindowExceeded,
            ApiError::QuotaExceeded => ApiErrorModel::QuotaExceeded,
            ApiError::Retryable { message, delay } => ApiErrorModel::Retryable {
                message: message.deep_view(),
                delay: delay.deep_view(),
            },
            ApiError::RateLimit(inner) => ApiErrorModel::RateLimit(inner.deep_view()),
            ApiError::InvalidRequest { message } => ApiErrorModel::InvalidRequest { message: message.deep_view() },
            ApiError::ServerOverloaded => ApiErrorModel::ServerOverloaded,
        }
    }
}

impl Duplicate for ApiError {
    fn duplicate(&self) -> (copy: Self) {
        match self {
            ApiError::Transport(inner) => ApiError::Transport(inner.duplicate()),
            ApiError::Stream(inner) => ApiError::Stream(inner.duplicate()),
            ApiError::ContextWindowExceeded => ApiError::ContextWindowExceeded,
            ApiError::QuotaExceeded => ApiError::QuotaExceeded,
            ApiError::Retryable { message, delay } => ApiError::Retryable {
                message: message.duplicate(),
                delay: delay.duplicate(),
            },
            ApiError::RateLimit(inner) => ApiError::RateLimit(inner.duplicate()),
            ApiError::InvalidRequest { message } => ApiError::InvalidRequest { message: message.duplicate() },
            ApiError::ServerOverloaded => ApiError::ServerOverloaded,
        }
    }
}

/// What a provider says of the cost of a response.
#[derive(Debug, Clone, PartialEq, Eq)]
pub struct ResponseUsageMetadata {
    pub amount: Option<u64>,
    pub metadata: Option<Json>,
}

/// The model of [`ResponseUsageMetadata`].
#[verifier::ext_equal]
pub struct ResponseUsageMetadataModel {
    pub amount: Option<u64>,
    pub metadata: Option<JsonModel>,
}

impl DeepView for ResponseUsageMetadata {
    type V = ResponseUsageMetadataModel;

    open spec fn deep_view(&self) -> ResponseUsageMetadataModel {
        ResponseUsageMetadataModel {
            amount: self.amount.deep_view(),
            metadata: self.metadata.deep_view(),
        }
    }
}

impl Duplicate for ResponseUsageMetadata {
    fn duplicate(&self) -> (copy: Self) {
        ResponseUsageMetadata {
            amount: self.amount.duplicate(),
            metadata: self.metadata.duplicate(),
        }
    }
}

/// One event of a response.
#[derive(Debug, Clone, PartialEq, Eq)]
pub enum ResponseEvent {
    /// An item starts.
    OutputItemAdded(ResponseItem),
    /// An item is complete.
    OutputItemDone(ResponseItem),
    /// A message grows.
    OutputTextDelta {
        item_id: Option<String>,
        delta: String,
    },
    /// Reasoning grows.
    ReasoningContentDelta {
        item_id: Option<String>,
        delta: String,
        content_index: i64,
    },
    /// The input of a tool call grows.
    ToolCallInputDelta {
        item_id: String,
        call_id: Option<String>,
        delta: String,
    },
    /// The response is complete.
    Completed {
        response_id: String,
        token_usage: Option<TokenUsage>,
        usage_metadata: Option<ResponseUsageMetadata>,
        end_turn: Option<bool>,
    },
}

/// The model of [`ResponseEvent`].
#[verifier::ext_equal]
pub enum ResponseEventModel {
    OutputItemAdded(ResponseItemModel),
    OutputItemDone(ResponseItemModel),
    OutputTextDelta {
        item_id: Option<Seq<char>>,
        delta: Seq<char>,
    },
    ReasoningContentDelta {
        item_id: Option<Seq<char>>,
        delta: Seq<char>,
        content_index: i64,
    },
    ToolCallInputDelta {
        item_id: Seq<char>,
        call_id: Option<Seq<char>>,
        delta: Seq<char>,
    },
    Completed {
        response_id: Seq<char>,
        token_usage: Option<TokenUsage>,
        usage_metadata: Option<ResponseUsageMetadataModel>,
        end_turn: Option<bool>,
    },
}

impl DeepView for ResponseEvent {
    type V = ResponseEventModel;

    open spec fn deep_view(&self) -> ResponseEventModel {
        match self {
            ResponseEvent::OutputItemAdded(inner) => ResponseEventModel::OutputItemAdded(inner.deep_view()),
            ResponseEvent::OutputItemDone(inner) => ResponseEventModel::OutputItemDone(inner.deep_view()),
            ResponseEvent::OutputTextDelta { item_id, delta } => ResponseEventModel::OutputTextDelta {
                item_id: item_id.deep_view(),
                delta: delta.deep_view(),
            },
            ResponseEvent::ReasoningContentDelta {
                item_id,
                delta,
                content_index,
            } => ResponseEventModel::ReasoningContentDelta {
                item_id: item_id.deep_view(),
                delta: delta.deep_view(),
                content_index: content_index.deep_view(),
            },
            ResponseEvent::ToolCallInputDelta { item_id, call_id, delta } => ResponseEventModel::ToolCallInputDelta {
                item_id: item_id.deep_view(),
                call_id: call_id.deep_view(),
                delta: delta.deep_view(),
            },
            ResponseEvent::Completed {
                response_id,
                token_usage,
                usage_metadata,
                end_turn,
            } => ResponseEventModel::Completed {
                response_id: response_id.deep_view(),
                token_usage: token_usage.deep_view(),
                usage_metadata: usage_metadata.deep_view(),
                end_turn: end_turn.deep_view(),
            },
        }
    }
}

impl Duplicate for ResponseEvent {
    fn duplicate(&self) -> (copy: Self) {
        match self {
            ResponseEvent::OutputItemAdded(inner) => ResponseEvent::OutputItemAdded(inner.duplicate()),
            ResponseEvent::OutputItemDone(inner) => ResponseEvent::OutputItemDone(inner.duplicate()),
            ResponseEvent::OutputTextDelta { item_id, delta } => ResponseEvent::OutputTextDelta {
                item_id: item_id.duplicate(),
                delta: delta.duplicate(),
            },
            ResponseEvent::ReasoningContentDelta {
                item_id,
                delta,
                content_index,
            } => ResponseEvent::ReasoningContentDelta {
                item_id: item_id.duplicate(),
                delta: delta.duplicate(),
                content_index: content_index.duplicate(),
            },
            ResponseEvent::ToolCallInputDelta { item_id, call_id, delta } => ResponseEvent::ToolCallInputDelta {
                item_id: item_id.duplicate(),
                call_id: call_id.duplicate(),
                delta: delta.duplicate(),
            },
            ResponseEvent::Completed {
                response_id,
                token_usage,
                usage_metadata,
                end_turn,
            } => ResponseEvent::Completed {
                response_id: response_id.duplicate(),
                token_usage: token_usage.duplicate(),
                usage_metadata: usage_metadata.duplicate(),
                end_turn: end_turn.duplicate(),
            },
        }
    }
}

/// How often and when a request is tried again.
#[derive(Debug, Clone, Copy, PartialEq, Eq, Structural)]
pub struct RetryConfig {
    pub max_attempts: u64,
    pub base_delay_millis: u64,
    pub retry_429: bool,
    pub retry_5xx: bool,
    pub retry_transport: bool,
}

impl DeepView for RetryConfig {
    type V = RetryConfig;

    open spec fn deep_view(&self) -> RetryConfig {
        *self
    }
}

impl Duplicate for RetryConfig {
    fn duplicate(&self) -> (copy: Self) {
        *self
    }
}

/// Where and how a provider is reached.
#[derive(Debug, Clone, PartialEq, Eq)]
pub struct Provider {
    pub name: String,
    pub base_url: String,
    pub query_params: Option<StringMap<String>>,
    pub headers: Vec<HttpHeader>,
    pub retry: RetryConfig,
    pub stream_idle_timeout_millis: u64,
}

/// The model of [`Provider`].
#[verifier::ext_equal]
pub struct ProviderModel {
    pub name: Seq<char>,
    pub base_url: Seq<char>,
    pub query_params: Option<Seq<(Seq<char>, Seq<char>)>>,
    pub headers: Seq<HttpHeaderModel>,
    pub retry: RetryConfig,
    pub stream_idle_timeout_millis: u64,
}

impl DeepView for Provider {
    type V = ProviderModel;

    open spec fn deep_view(&self) -> ProviderModel {
        ProviderModel {
            name: self.name.deep_view(),
            base_url: self.base_url.deep_view(),
            query_params: self.query_params.deep_view(),
            headers: self.headers.deep_view(),
            retry: self.retry.deep_view(),
            stream_idle_timeout_millis: self.stream_idle_timeout_millis.deep_view(),
        }
    }
}

impl Duplicate for Provider {
    fn duplicate(&self) -> (copy: Self) {
        Provider {
            name: self.name.duplicate(),
            base_url: self.base_url.duplicate(),
            query_params: self.query_params.duplicate(),
            headers: self.headers.duplicate(),
            retry: self.retry.duplicate(),
            stream_idle_timeout_millis: self.stream_idle_timeout_millis.duplicate(),
        }
    }
}

/// The status line of an HTTP status as `http::StatusCode` shows it.
pub uninterp spec fn status_line(status: u16) -> Seq<char>;

/// `Display` of `http::StatusCode`: the number with its reason, a function of
/// the number alone; a number that is no status is shown as it is.
#[verifier::external_body]
pub(crate) fn show_status(status: u16) -> (text: String)
    ensures
        text@ == status_line(status),
{
    http::StatusCode::from_u16(status).map_or(status.to_string(), |code| code.to_string())
}

impl TransportErrorModel {
    /// The message of the error.
    pub open spec fn text(self) -> Seq<char> {
        match self {
            TransportErrorModel::Http { status, body, .. } => match body {
                Some(body) => "http "@ + status_line(status) + ": "@ + quoted(body),
                None => "http "@ + status_line(status),
            },
            TransportErrorModel::RetryLimit => "retry limit reached"@,
            TransportErrorModel::Timeout => "timeout"@,
            TransportErrorModel::Connection(message) => "connection error: "@ + message,
            TransportErrorModel::Network(message) => "network error: "@ + message,
            TransportErrorModel::Build(message) => "request build error: "@ + message,
        }
    }
}

impl TransportError {
    /// The message of the error.
    pub fn message(&self) -> (message: String)
        ensures
            message@ == self.deep_view().text(),
    {
        match self {
            TransportError::Http { status, body, .. } => match body {
                Some(body) => {
                    let mut text = concat3("http ", &show_status(*status), ": ");
                    text.append(&quote(body));
                    text
                },
                None => concat("http ", &show_status(*status)),
            },
            TransportError::RetryLimit => "retry limit reached".to_owned(),
            TransportError::Timeout => "timeout".to_owned(),
            TransportError::Connection(message) => concat("connection error: ", message),
            TransportError::Network(message) => concat("network error: ", message),
            TransportError::Build(message) => concat("request build error: ", message),
        }
    }
}

impl ApiErrorModel {
    /// The message of the error.
    pub open spec fn text(self) -> Seq<char> {
        match self {
            ApiErrorModel::Transport(error) => error.text(),
            ApiErrorModel::Stream(message) => "stream error: "@ + message,
            ApiErrorModel::ContextWindowExceeded => "context window exceeded"@,
            ApiErrorModel::QuotaExceeded => "quota exceeded"@,
            ApiErrorModel::Retryable { message, .. } => "retryable error: "@ + message,
            ApiErrorModel::RateLimit(message) => "rate limit: "@ + message,
            ApiErrorModel::InvalidRequest { message } => "invalid request: "@ + message,
            ApiErrorModel::ServerOverloaded => "server overloaded"@,
        }
    }
}

impl ApiError {
    /// The message of the error.
    pub fn message(&self) -> (message: String)
        ensures
            message@ == self.deep_view().text(),
    {
        match self {
            ApiError::Transport(error) => error.message(),
            ApiError::Stream(message) => concat("stream error: ", message),
            ApiError::ContextWindowExceeded => "context window exceeded".to_owned(),
            ApiError::QuotaExceeded => "quota exceeded".to_owned(),
            ApiError::Retryable { message, .. } => concat("retryable error: ", message),
            ApiError::RateLimit(message) => concat("rate limit: ", message),
            ApiError::InvalidRequest { message } => concat("invalid request: ", message),
            ApiError::ServerOverloaded => "server overloaded".to_owned(),
        }
    }
}

/// The first header from `at` on under a name: its value where it is plain
/// text.
pub open spec fn header_from(headers: Seq<HttpHeaderModel>, name: Seq<char>, at: int) -> Option<Seq<char>>
    decreases headers.len() - at,
{
    if at < 0 || at >= headers.len() {
        None
    } else if headers[at].name == name {
        headers[at].value
    } else {
        header_from(headers, name, at + 1)
    }
}

/// The first header under a name: its value where it is plain text.
pub fn header_text(headers: &Vec<HttpHeader>, name: &str) -> (value: Option<String>)
    ensures
        value.deep_view() == header_from(headers.deep_view(), name@, 0),
{
    let mut i: usize = 0;
    while i < headers.len()
        invariant
            i <= headers.len(),
            header_from(headers.deep_view(), name@, 0) == header_from(headers.deep_view(), name@, i as int),
        decreases headers.len() - i,
    {
        assert(headers.deep_view()[i as int] == headers@[i as int].deep_view());
        if *headers[i].name.as_str() == *name {
            return headers[i].value.duplicate();
        }
        i += 1;
    }
    None
}

/// An error that may be tried again.
pub open spec fn retryable(message: Seq<char>, delay: Option<Delay>) -> ApiErrorModel {
    ApiErrorModel::Retryable { message, delay }
}

/// A name for an item: what kind it is, and what tells it from others.
pub open spec fn item_name(prefix: Seq<char>, suffix: Seq<char>) -> Seq<char> {
    prefix + "_"@ + suffix
}

/// A name for an item.
pub fn item_id(prefix: &str, suffix: &str) -> (id: String)
    ensures
        id@ == item_name(prefix@, suffix@),
{
    concat3(prefix, "_", suffix)
}

} // verus!
