//! Configurations that another process hands out.
use crate::fields::{lemma_put_last, ordered, put, StringMap};
use crate::model::{no_items, outcome, push_item, Duplicate};
use crate::protocol::{InferenceDialect, WireApi};
use crate::text::{concat, concat3, decimal, quote, quoted, signed_decimal, signed_text, text_less};
use crate::thread_config::{
    ModelProviderAuthInfo, ModelProviderAuthInfoModel, ModelProviderInfo, ModelProviderInfoModel,
    ModelProviderWireRoute, ModelProviderWireRouteModel, NonZeroMillis, SessionThreadConfig,
    SessionThreadConfigModel, ThreadConfigContext, ThreadConfigLoadError, ThreadConfigLoadErrorCode,
    ThreadConfigLoadErrorModel, ThreadConfigSource, ThreadConfigSourceModel, UserThreadConfig,
};
use vstd::prelude::*;
use vstd::string::*;

verus! {

/// How long a configuration may take, in seconds.
pub const REMOTE_THREAD_CONFIG_LOAD_TIMEOUT_SECONDS: u64 = 5;

/// Where configurations are loaded from.
#[derive(Debug, Clone, PartialEq, Eq)]
pub struct RemoteThreadConfigLoader {
    pub endpoint: String,
}

/// The model of [`RemoteThreadConfigLoader`].
#[verifier::ext_equal]
pub struct RemoteThreadConfigLoaderModel {
    pub endpoint: Seq<char>,
}

impl DeepView for RemoteThreadConfigLoader {
    type V = RemoteThreadConfigLoaderModel;

    open spec fn deep_view(&self) -> RemoteThreadConfigLoaderModel {
        RemoteThreadConfigLoaderModel {
            endpoint: self.endpoint.deep_view(),
        }
    }
}

impl Duplicate for RemoteThreadConfigLoader {
    fn duplicate(&self) -> (copy: Self) {
        RemoteThreadConfigLoader {
            endpoint: self.endpoint.duplicate(),
        }
    }
}

/// A request for a configuration, with the header that bounds its time.
#[derive(Debug, Clone, PartialEq, Eq)]
pub struct LoadThreadConfigRequest {
    pub thread_id: Option<String>,
    pub cwd: Option<String>,
    pub timeout: String,
}

/// The model of [`LoadThreadConfigRequest`].
#[verifier::ext_equal]
pub struct LoadThreadConfigRequestModel {
    pub thread_id: Option<Seq<char>>,
    pub cwd: Option<Seq<char>>,
    pub timeout: Seq<char>,
}

impl DeepView for LoadThreadConfigRequest {
    type V = LoadThreadConfigRequestModel;

    open spec fn deep_view(&self) -> LoadThreadConfigRequestModel {
        LoadThreadConfigRequestModel {
            thread_id: self.thread_id.deep_view(),
            cwd: self.cwd.deep_view(),
            timeout: self.timeout.deep_view(),
        }
    }
}

impl Duplicate for LoadThreadConfigRequest {
    fn duplicate(&self) -> (copy: Self) {
        LoadThreadConfigRequest {
            thread_id: self.thread_id.duplicate(),
            cwd: self.cwd.duplicate(),
            timeout: self.timeout.duplicate(),
        }
    }
}

/// How a call of another process ended.
#[derive(Debug, Clone, Copy, PartialEq, Eq, Structural)]
pub enum RpcCode {
    /// Well.
    Done,
    /// It was given up.
    Cancelled,
    /// In some way.
    Unknown,
    /// An argument was wrong.
    InvalidArgument,
    /// It took too long.
    DeadlineExceeded,
    /// Something was not found.
    NotFound,
    /// Something was there already.
    AlreadyExists,
    /// The caller may not do this.
    PermissionDenied,
    /// Something is used up.
    ResourceExhausted,
    /// The time was wrong.
    FailedPrecondition,
    /// It was broken off.
    Aborted,
    /// A range was left.
    OutOfRange,
    /// It cannot be done.
    Unimplemented,
    /// The other side failed.
    Internal,
    /// The other side is not there.
    Unavailable,
    /// Data was lost.
    DataLoss,
    /// The caller is not known.
    Unauthenticated,
}

impl DeepView for RpcCode {
    type V = RpcCode;

    open spec fn deep_view(&self) -> RpcCode {
        *self
    }
}

impl Duplicate for RpcCode {
    fn duplicate(&self) -> (copy: Self) {
        *self
    }
}

/// The number of an API in an answer.
#[derive(Debug, Clone, Copy, PartialEq, Eq, Structural)]
pub enum WireApiTag {
    /// None was given.
    Unspecified,
    /// The Responses API.
    Responses,
    /// The Anthropic Messages API.
    AnthropicMessages,
    /// The Chat Completions API.
    ChatCompletions,
    /// A number without a meaning.
    Unknown(i32),
}

impl DeepView for WireApiTag {
    type V = WireApiTag;

    open spec fn deep_view(&self) -> WireApiTag {
        *self
    }
}

impl Duplicate for WireApiTag {
    fn duplicate(&self) -> (copy: Self) {
        *self
    }
}

/// The number of a dialect in an answer.
#[derive(Debug, Clone, Copy, PartialEq, Eq, Structural)]
pub enum InferenceDialectTag {
    /// None was given.
    Unspecified,
    /// That of OpenAI.
    OpenAi,
    /// That of Anthropic's coding client.
    ClaudeCode,
    /// That of Kimi.
    Kimi,
    /// That of Grok.
    Grok,
    /// A number without a meaning.
    Unknown(i32),
}

impl DeepView for InferenceDialectTag {
    type V = InferenceDialectTag;

    open spec fn deep_view(&self) -> InferenceDialectTag {
        *self
    }
}

impl Duplicate for InferenceDialectTag {
    fn duplicate(&self) -> (copy: Self) {
        *self
    }
}

/// What came of the check that a path is absolute.
#[derive(Debug, Clone, PartialEq, Eq)]
pub enum PathCheck {
    /// It is; the path to use.
    Absolute(String),
    /// It is not, for this reason.
    Refused(String),
}

/// The model of [`PathCheck`].
#[verifier::ext_equal]
pub enum PathCheckModel {
    Absolute(Seq<char>),
    Refused(Seq<char>),
}

impl DeepView for PathCheck {
    type V = PathCheckModel;

    open spec fn deep_view(&self) -> PathCheckModel {
        match self {
            PathCheck::Absolute(inner) => PathCheckModel::Absolute(inner.deep_view()),
            PathCheck::Refused(inner) => PathCheckModel::Refused(inner.deep_view()),
        }
    }
}

impl Duplicate for PathCheck {
    fn duplicate(&self) -> (copy: Self) {
        match self {
            PathCheck::Absolute(inner) => PathCheck::Absolute(inner.duplicate()),
            PathCheck::Refused(inner) => PathCheck::Refused(inner.duplicate()),
        }
    }
}

/// A path in an answer.
#[derive(Debug, Clone, PartialEq, Eq)]
pub struct CheckedPath {
    pub given: String,
    pub check: PathCheck,
}

/// The model of [`CheckedPath`].
#[verifier::ext_equal]
pub struct CheckedPathModel {
    pub given: Seq<char>,
    pub check: PathCheckModel,
}

impl DeepView for CheckedPath {
    type V = CheckedPathModel;

    open spec fn deep_view(&self) -> CheckedPathModel {
        CheckedPathModel {
            given: self.given.deep_view(),
            check: self.check.deep_view(),
        }
    }
}

impl Duplicate for CheckedPath {
    fn duplicate(&self) -> (copy: Self) {
        CheckedPath {
            given: self.given.duplicate(),
            check: self.check.duplicate(),
        }
    }
}

/// A command that hands out tokens, in an answer.
#[derive(Debug, Clone, PartialEq, Eq)]
pub struct ProtoModelProviderAuthInfo {
    pub command: String,
    pub args: Vec<String>,
    pub timeout_ms: u64,
    pub refresh_interval_ms: u64,
    pub cwd: CheckedPath,
}

/// The model of [`ProtoModelProviderAuthInfo`].
#[verifier::ext_equal]
pub struct ProtoModelProviderAuthInfoModel {
    pub command: Seq<char>,
    pub args: Seq<Seq<char>>,
    pub timeout_ms: u64,
    pub refresh_interval_ms: u64,
    pub cwd: CheckedPathModel,
}

impl DeepView for ProtoModelProviderAuthInfo {
    type V = ProtoModelProviderAuthInfoModel;

    open spec fn deep_view(&self) -> ProtoModelProviderAuthInfoModel {
        ProtoModelProviderAuthInfoModel {
            command: self.command.deep_view(),
            args: self.args.deep_view(),
            timeout_ms: self.timeout_ms.deep_view(),
            refresh_interval_ms: self.refresh_interval_ms.deep_view(),
            cwd: self.cwd.deep_view(),
        }
    }
}

impl Duplicate for ProtoModelProviderAuthInfo {
    fn duplicate(&self) -> (copy: Self) {
        ProtoModelProviderAuthInfo {
            command: self.command.duplicate(),
            args: self.args.duplicate(),
            timeout_ms: self.timeout_ms.duplicate(),
            refresh_interval_ms: self.refresh_interval_ms.duplicate(),
            cwd: self.cwd.duplicate(),
        }
    }
}

/// A way in which a provider is reached, in an answer.
#[derive(Debug, Clone, PartialEq, Eq)]
pub struct ProtoNamedWireRoute {
    pub name: String,
    pub wire_api: WireApiTag,
    pub dialect: InferenceDialectTag,
    pub base_url: String,
    pub request_path: String,
    pub query_params: StringMap<String>,
    pub request_max_retries: Option<u64>,
    pub stream_max_retries: Option<u64>,
    pub stream_idle_timeout_ms: Option<u64>,
}

/// The model of [`ProtoNamedWireRoute`].
#[verifier::ext_equal]
pub struct ProtoNamedWireRouteModel {
    pub name: Seq<char>,
    pub wire_api: WireApiTag,
    pub dialect: InferenceDialectTag,
    pub base_url: Seq<char>,
    pub request_path: Seq<char>,
    pub query_params: Seq<(Seq<char>, Seq<char>)>,
    pub request_max_retries: Option<u64>,
    pub stream_max_retries: Option<u64>,
    pub stream_idle_timeout_ms: Option<u64>,
}

impl DeepView for ProtoNamedWireRoute {
    type V = ProtoNamedWireRouteModel;

    open spec fn deep_view(&self) -> ProtoNamedWireRouteModel {
        ProtoNamedWireRouteModel {
            name: self.name.deep_view(),
            wire_api: self.wire_api.deep_view(),
            dialect: self.dialect.deep_view(),
            base_url: self.base_url.deep_view(),
            request_path: self.request_path.deep_view(),
            query_params: self.query_params.deep_view(),
            request_max_retries: self.request_max_retries.deep_view(),
            stream_max_retries: self.stream_max_retries.deep_view(),
            stream_idle_timeout_ms: self.stream_idle_timeout_ms.deep_view(),
        }
    }
}

impl Duplicate for ProtoNamedWireRoute {
    fn duplicate(&self) -> (copy: Self) {
        ProtoNamedWireRoute {
            name: self.name.duplicate(),
            wire_api: self.wire_api.duplicate(),
            dialect: self.dialect.duplicate(),
            base_url: self.base_url.duplicate(),
            request_path: self.request_path.duplicate(),
            query_params: self.query_params.duplicate(),
            request_max_retries: self.request_max_retries.duplicate(),
            stream_max_retries: self.stream_max_retries.duplicate(),
            stream_idle_timeout_ms: self.stream_idle_timeout_ms.duplicate(),
        }
    }
}

/// A provider in an answer.
#[derive(Debug, Clone, PartialEq, Eq)]
pub struct ProtoModelProvider {
    pub id: String,
    pub name: String,
    pub base_url: Option<String>,
    pub env_key: Option<String>,
    pub env_key_instructions: Option<String>,
    pub experimental_bearer_token: Option<String>,
    pub auth: Option<ProtoModelProviderAuthInfo>,
    pub wire_api: WireApiTag,
    pub wire_routes: Vec<ProtoNamedWireRoute>,
    pub query_params: Option<StringMap<String>>,
    pub http_headers: Option<StringMap<String>>,
    pub env_http_headers: Option<StringMap<String>>,
    pub request_max_retries: Option<u64>,
    pub stream_max_retries: Option<u64>,
    pub stream_idle_timeout_ms: Option<u64>,
    pub websocket_connect_timeout_ms: Option<u64>,
    pub requires_openai_auth: bool,
    pub supports_websockets: bool,
    pub supports_standalone_web_search: bool,
}

/// The model of [`ProtoModelProvider`].
#[verifier::ext_equal]
pub struct ProtoModelProviderModel {
    pub id: Seq<char>,
    pub name: Seq<char>,
    pub base_url: Option<Seq<char>>,
    pub env_key: Option<Seq<char>>,
    pub env_key_instructions: Option<Seq<char>>,
    pub experimental_bearer_token: Option<Seq<char>>,
    pub auth: Option<ProtoModelProviderAuthInfoModel>,
    pub wire_api: WireApiTag,
    pub wire_routes: Seq<ProtoNamedWireRouteModel>,
    pub query_params: Option<Seq<(Seq<char>, Seq<char>)>>,
    pub http_headers: Option<Seq<(Seq<char>, Seq<char>)>>,
    pub env_http_headers: Option<Seq<(Seq<char>, Seq<char>)>>,
    pub request_max_retries: Option<u64>,
    pub stream_max_retries: Option<u64>,
    pub stream_idle_timeout_ms: Option<u64>,
    pub websocket_connect_timeout_ms: Option<u64>,
    pub requires_openai_auth: bool,
    pub supports_websockets: bool,
    pub supports_standalone_web_search: bool,
}

impl DeepView for ProtoModelProvider {
    type V = ProtoModelProviderModel;

    open spec fn deep_view(&self) -> ProtoModelProviderModel {
        ProtoModelProviderModel {
            id: self.id.deep_view(),
            name: self.name.deep_view(),
            base_url: self.base_url.deep_view(),
            env_key: self.env_key.deep_view(),
            env_key_instructions: self.env_key_instructions.deep_view(),
            experimental_bearer_token: self.experimental_bearer_token.deep_view(),
            auth: self.auth.deep_view(),
            wire_api: self.wire_api.deep_view(),
            wire_routes: self.wire_routes.deep_view(),
            query_params: self.query_params.deep_view(),
            http_headers: self.http_headers.deep_view(),
            env_http_headers: self.env_http_headers.deep_view(),
            request_max_retries: self.request_max_retries.deep_view(),
            stream_max_retries: self.stream_max_retries.deep_view(),
            stream_idle_timeout_ms: self.stream_idle_timeout_ms.deep_view(),
            websocket_connect_timeout_ms: self.websocket_connect_timeout_ms.deep_view(),
            requires_openai_auth: self.requires_openai_auth.deep_view(),
            supports_websockets: self.supports_websockets.deep_view(),
            supports_standalone_web_search: self.supports_standalone_web_search.deep_view(),
        }
    }
}

impl Duplicate for ProtoModelProvider {
    fn duplicate(&self) -> (copy: Self) {
        ProtoModelProvider {
            id: self.id.duplicate(),
            name: self.name.duplicate(),
            base_url: self.base_url.duplicate(),
            env_key: self.env_key.duplicate(),
            env_key_instructions: self.env_key_instructions.duplicate(),
            experimental_bearer_token: self.experimental_bearer_token.duplicate(),
            auth: self.auth.duplicate(),
            wire_api: self.wire_api.duplicate(),
            wire_routes: self.wire_routes.duplicate(),
            query_params: self.query_params.duplicate(),
            http_headers: self.http_headers.duplicate(),
            env_http_headers: self.env_http_headers.duplicate(),
            request_max_retries: self.request_max_retries.duplicate(),
            stream_max_retries: self.stream_max_retries.duplicate(),
            stream_idle_timeout_ms: self.stream_idle_timeout_ms.duplicate(),
            websocket_connect_timeout_ms: self.websocket_connect_timeout_ms.duplicate(),
            requires_openai_auth: self.requires_openai_auth.duplicate(),
            supports_websockets: self.supports_websockets.duplicate(),
            supports_standalone_web_search: self.supports_standalone_web_search.duplicate(),
        }
    }
}

/// The part of a session in an answer.
#[derive(Debug, Clone, PartialEq, Eq)]
pub struct ProtoSessionThreadConfig {
    pub model_provider: Option<String>,
    pub model_providers: Vec<ProtoModelProvider>,
    pub features: StringMap<bool>,
}

/// The model of [`ProtoSessionThreadConfig`].
#[verifier::ext_equal]
pub struct ProtoSessionThreadConfigModel {
    pub model_provider: Option<Seq<char>>,
    pub model_providers: Seq<ProtoModelProviderModel>,
    pub features: Seq<(Seq<char>, bool)>,
}

impl DeepView for ProtoSessionThreadConfig {
    type V = ProtoSessionThreadConfigModel;

    open spec fn deep_view(&self) -> ProtoSessionThreadConfigModel {
        ProtoSessionThreadConfigModel {
            model_provider: self.model_provider.deep_view(),
            model_providers: self.model_providers.deep_view(),
            features: self.features.deep_view(),
        }
    }
}

impl Duplicate for ProtoSessionThreadConfig {
    fn duplicate(&self) -> (copy: Self) {
        ProtoSessionThreadConfig {
            model_provider: self.model_provider.duplicate(),
            model_providers: self.model_providers.duplicate(),
            features: self.features.duplicate(),
        }
    }
}

/// One part of an answer, where it is there.
#[derive(Debug, Clone, PartialEq, Eq)]
pub enum ProtoThreadConfigSource {
    /// That of a session.
    Session(ProtoSessionThreadConfig),
    /// That of the user.
    User,
    /// It was left out.
    Omitted,
}

/// The model of [`ProtoThreadConfigSource`].
#[verifier::ext_equal]
pub enum ProtoThreadConfigSourceModel {
    Session(ProtoSessionThreadConfigModel),
    User,
    Omitted,
}

impl DeepView for ProtoThreadConfigSource {
    type V = ProtoThreadConfigSourceModel;

    open spec fn deep_view(&self) -> ProtoThreadConfigSourceModel {
        match self {
            ProtoThreadConfigSource::Session(inner) => ProtoThreadConfigSourceModel::Session(inner.deep_view()),
            ProtoThreadConfigSource::User => ProtoThreadConfigSourceModel::User,
            ProtoThreadConfigSource::Omitted => ProtoThreadConfigSourceModel::Omitted,
        }
    }
}

impl Duplicate for ProtoThreadConfigSource {
    fn duplicate(&self) -> (copy: Self) {
        match self {
            ProtoThreadConfigSource::Session(inner) => ProtoThreadConfigSource::Session(inner.duplicate()),
            ProtoThreadConfigSource::User => ProtoThreadConfigSource::User,
            ProtoThreadConfigSource::Omitted => ProtoThreadConfigSource::Omitted,
        }
    }
}

impl RemoteThreadConfigLoader {
    /// A loader from this place.
    pub fn new(endpoint: String) -> (loader: Self)
        ensures
            loader.deep_view() == (RemoteThreadConfigLoaderModel { endpoint: endpoint@ }),
    {
        RemoteThreadConfigLoader { endpoint }
    }
}

// ---- requests ----

/// `tonic::Request::set_timeout`: the `grpc-timeout` header that a request gets,
/// in the most precise unit that takes no more than eight digits. From one
/// second to ninety-nine these are microseconds.
#[verifier::external_body]
fn timeout_header(seconds: u64) -> (header: String)
    requires
        1 <= seconds <= 99,
    ensures
        header@ == decimal((seconds * 1_000_000) as nat) + "u"@,
{
    let mut request = tonic::Request::new(());
    request.set_timeout(std::time::Duration::from_secs(seconds));
    request.metadata().get("grpc-timeout").and_then(|value| value.to_str().ok()).unwrap_or_default().to_owned()
}

/// The request for a configuration.
pub fn load_thread_config_request(context: ThreadConfigContext) -> (request: LoadThreadConfigRequest)
    ensures
        request.deep_view() == (LoadThreadConfigRequestModel {
            thread_id: context.deep_view().thread_id,
            cwd: context.deep_view().cwd,
            timeout: decimal((REMOTE_THREAD_CONFIG_LOAD_TIMEOUT_SECONDS * 1_000_000) as nat) + "u"@,
        }),
{
    LoadThreadConfigRequest {
        thread_id: context.thread_id,
        cwd: context.cwd,
        timeout: timeout_header(REMOTE_THREAD_CONFIG_LOAD_TIMEOUT_SECONDS),
    }
}

// ---- errors ----

/// An error of the kind for answers that make no sense.
pub open spec fn parse_failure(message: Seq<char>) -> ThreadConfigLoadErrorModel {
    ThreadConfigLoadErrorModel { code: ThreadConfigLoadErrorCode::Parse, status_code: None, message }
}

fn parse_error(message: String) -> (error: ThreadConfigLoadError)
    ensures
        error.deep_view() == parse_failure(message@),
{
    ThreadConfigLoadError::new(ThreadConfigLoadErrorCode::Parse, None, message)
}

/// What kind of failure the end of a call is.
pub open spec fn failure_kind(code: RpcCode) -> ThreadConfigLoadErrorCode {
    match code {
        RpcCode::Unauthenticated => ThreadConfigLoadErrorCode::Auth,
        RpcCode::PermissionDenied => ThreadConfigLoadErrorCode::Auth,
        RpcCode::DeadlineExceeded => ThreadConfigLoadErrorCode::Timeout,
        _ => ThreadConfigLoadErrorCode::RequestFailed,
    }
}

/// The error for a call that ended in this way; `status` is what the other side
/// said.
pub fn remote_status_to_error(code: RpcCode, status: &str) -> (error: ThreadConfigLoadError)
    ensures
        error.deep_view() == (ThreadConfigLoadErrorModel {
            code: failure_kind(code),
            status_code: None,
            message: "remote thread config request failed: "@ + status@,
        }),
{
    let kind = match code {
        RpcCode::Unauthenticated => ThreadConfigLoadErrorCode::Auth,
        RpcCode::PermissionDenied => ThreadConfigLoadErrorCode::Auth,
        RpcCode::DeadlineExceeded => ThreadConfigLoadErrorCode::Timeout,
        _ => ThreadConfigLoadErrorCode::RequestFailed,
    };
    ThreadConfigLoadError::new(kind, None, concat("remote thread config request failed: ", status))
}

/// The error where nothing answers.
pub fn connection_error(message: &str) -> (error: ThreadConfigLoadError)
    ensures
        error.deep_view() == (ThreadConfigLoadErrorModel {
            code: ThreadConfigLoadErrorCode::RequestFailed,
            status_code: None,
            message: "failed to connect to remote thread config loader: "@ + message@,
        }),
{
    ThreadConfigLoadError::new(
        ThreadConfigLoadErrorCode::RequestFailed,
        None,
        concat("failed to connect to remote thread config loader: ", message),
    )
}

// ---- reading ----

/// The API of a number.
pub open spec fn tagged_api(tag: WireApiTag) -> Result<WireApi, ThreadConfigLoadErrorModel> {
    match tag {
        WireApiTag::Responses => Ok(WireApi::Responses),
        WireApiTag::AnthropicMessages => Ok(WireApi::AnthropicMessages),
        WireApiTag::ChatCompletions => Ok(WireApi::ChatCompletions),
        WireApiTag::Unspecified => Err(parse_failure("remote thread config omitted wire_api"@)),
        WireApiTag::Unknown(value) => Err(
            parse_failure("remote thread config returned unknown wire_api: "@ + signed_decimal(value as int)),
        ),
    }
}

/// The API of a number.
pub fn wire_api_from_proto(tag: WireApiTag) -> (api: Result<WireApi, ThreadConfigLoadError>)
    ensures
        outcome(api) == tagged_api(tag),
{
    match tag {
        WireApiTag::Responses => Ok(WireApi::Responses),
        WireApiTag::AnthropicMessages => Ok(WireApi::AnthropicMessages),
        WireApiTag::ChatCompletions => Ok(WireApi::ChatCompletions),
        WireApiTag::Unspecified => Err(parse_error("remote thread config omitted wire_api".to_owned())),
        WireApiTag::Unknown(value) => Err(
            parse_error(concat("remote thread config returned unknown wire_api: ", &signed_text(value as i64))),
        ),
    }
}

/// The dialect of a number.
pub open spec fn tagged_dialect(tag: InferenceDialectTag) -> Result<InferenceDialect, ThreadConfigLoadErrorModel> {
    match tag {
        InferenceDialectTag::OpenAi => Ok(InferenceDialect::OpenAi),
        InferenceDialectTag::ClaudeCode => Ok(InferenceDialect::ClaudeCode),
        InferenceDialectTag::Kimi => Ok(InferenceDialect::Kimi),
        InferenceDialectTag::Grok => Ok(InferenceDialect::Grok),
        InferenceDialectTag::Unspecified => Err(parse_failure("remote thread config omitted inference dialect"@)),
        InferenceDialectTag::Unknown(value) => Err(
            parse_failure(
                "remote thread config returned unknown inference dialect: "@ + signed_decimal(value as int),
            ),
        ),
    }
}

/// The dialect of a number.
pub fn inference_dialect_from_proto(tag: InferenceDialectTag) -> (dialect: Result<
    InferenceDialect,
    ThreadConfigLoadError,
>)
    ensures
        outcome(dialect) == tagged_dialect(tag),
{
    match tag {
        InferenceDialectTag::OpenAi => Ok(InferenceDialect::OpenAi),
        InferenceDialectTag::ClaudeCode => Ok(InferenceDialect::ClaudeCode),
        InferenceDialectTag::Kimi => Ok(InferenceDialect::Kimi),
        InferenceDialectTag::Grok => Ok(InferenceDialect::Grok),
        InferenceDialectTag::Unspecified => Err(
            parse_error("remote thread config omitted inference dialect".to_owned()),
        ),
        InferenceDialectTag::Unknown(value) => Err(
            parse_error(
                concat("remote thread config returned unknown inference dialect: ", &signed_text(value as i64)),
            ),
        ),
    }
}

/// A named route, or why it makes no sense. No parameters are the same as none
/// given.
pub open spec fn read_route(route: ProtoNamedWireRouteModel) -> Result<
    (Seq<char>, ModelProviderWireRouteModel),
    ThreadConfigLoadErrorModel,
> {
    if route.name.len() == 0 {
        Err(parse_failure("remote thread config returned unnamed wire route"@))
    } else {
        match tagged_api(route.wire_api) {
            Err(error) => Err(error),
            Ok(wire_api) => match tagged_dialect(route.dialect) {
                Err(error) => Err(error),
                Ok(dialect) => Ok(
                    (
                        route.name,
                        ModelProviderWireRouteModel {
                            wire_api,
                            dialect,
                            base_url: route.base_url,
                            request_path: route.request_path,
                            query_params: if route.query_params.len() > 0 {
                                Some(route.query_params)
                            } else {
                                None
                            },
                            request_max_retries: route.request_max_retries,
                            stream_max_retries: route.stream_max_retries,
                            stream_idle_timeout_ms: route.stream_idle_timeout_ms,
                        },
                    ),
                ),
            },
        }
    }
}

/// A named route, or why it makes no sense.
pub fn named_wire_route_from_proto(route: ProtoNamedWireRoute) -> (named: Result<
    (String, ModelProviderWireRoute),
    ThreadConfigLoadError,
>)
    ensures
        outcome(named) == read_route(route.deep_view()),
{
    if route.name.as_str().is_empty() {
        return Err(parse_error("remote thread config returned unnamed wire route".to_owned()));
    }
    let wire_api = match wire_api_from_proto(route.wire_api) {
        Err(error) => {
            return Err(error);
        },
        Ok(api) => api,
    };
    let dialect = match inference_dialect_from_proto(route.dialect) {
        Err(error) => {
            return Err(error);
        },
        Ok(dialect) => dialect,
    };
    let query_params = if route.query_params.len() > 0 {
        Some(route.query_params)
    } else {
        None
    };
    Ok(
        (
            route.name,
            ModelProviderWireRoute {
                wire_api,
                dialect,
                base_url: route.base_url,
                request_path: route.request_path,
                query_params,
                request_max_retries: route.request_max_retries,
                stream_max_retries: route.stream_max_retries,
                stream_idle_timeout_ms: route.stream_idle_timeout_ms,
            },
        ),
    )
}

/// Routes by their names.
pub type Routes = Seq<(Seq<char>, ModelProviderWireRouteModel)>;

/// The routes from `at` on put beside those that are done.
pub open spec fn routes_from(routes: Seq<ProtoNamedWireRouteModel>, at: int, done: Routes) -> Result<
    Routes,
    ThreadConfigLoadErrorModel,
>
    decreases routes.len() - at,
{
    if at < 0 || at >= routes.len() {
        Ok(done)
    } else {
        match read_route(routes[at]) {
            Err(error) => Err(error),
            Ok((name, route)) => routes_from(routes, at + 1, put(done, name, route)),
        }
    }
}

fn read_routes(routes: &Vec<ProtoNamedWireRoute>) -> (named: Result<
    StringMap<ModelProviderWireRoute>,
    ThreadConfigLoadError,
>)
    ensures
        outcome(named) == routes_from(routes.deep_view(), 0, Seq::empty()),
{
    let mut done: StringMap<ModelProviderWireRoute> = StringMap::new();
    let mut i: usize = 0;
    while i < routes.len()
        invariant
            i <= routes.len(),
            routes_from(routes.deep_view(), 0, Seq::empty()) == routes_from(
                routes.deep_view(),
                i as int,
                done.deep_view(),
            ),
        decreases routes.len() - i,
    {
        assert(routes.deep_view()[i as int] == routes@[i as int].deep_view());
        match named_wire_route_from_proto(routes[i].duplicate()) {
            Err(error) => {
                return Err(error);
            },
            Ok(named) => {
                done.insert(named.0, named.1);
            },
        }
        i += 1;
    }
    Ok(done)
}

/// A command that hands out tokens, or why it makes no sense.
pub open spec fn read_auth(auth: ProtoModelProviderAuthInfoModel) -> Result<
    ModelProviderAuthInfoModel,
    ThreadConfigLoadErrorModel,
> {
    if auth.timeout_ms == 0 {
        Err(parse_failure("remote thread config returned zero auth timeout_ms"@))
    } else {
        match auth.cwd.check {
            PathCheckModel::Refused(reason) => Err(
                parse_failure(
                    "remote thread config returned invalid auth cwd "@ + quoted(auth.cwd.given) + ": "@ + reason,
                ),
            ),
            PathCheckModel::Absolute(cwd) => Ok(
                ModelProviderAuthInfoModel {
                    command: auth.command,
                    args: auth.args,
                    timeout_ms: auth.timeout_ms,
                    refresh_interval_ms: auth.refresh_interval_ms,
                    cwd,
                },
            ),
        }
    }
}

/// A command that hands out tokens, or why it makes no sense.
pub fn model_provider_auth_from_proto(auth: ProtoModelProviderAuthInfo) -> (info: Result<
    ModelProviderAuthInfo,
    ThreadConfigLoadError,
>)
    ensures
        outcome(info) == read_auth(auth.deep_view()),
{
    let timeout_ms = match NonZeroMillis::new(auth.timeout_ms) {
        Some(time) => time,
        None => {
            return Err(parse_error("remote thread config returned zero auth timeout_ms".to_owned()));
        },
    };
    match auth.cwd.check {
        PathCheck::Refused(reason) => {
            let mut text = concat3(
                "remote thread config returned invalid auth cwd ",
                &quote(&auth.cwd.given),
                ": ",
            );
            text.append(&reason);
            Err(parse_error(text))
        },
        PathCheck::Absolute(cwd) => Ok(
            ModelProviderAuthInfo {
                command: auth.command,
                args: auth.args,
                timeout_ms,
                refresh_interval_ms: auth.refresh_interval_ms,
                cwd,
            },
        ),
    }
}

/// What was read of a command that hands out tokens, where there is one.
pub open spec fn read_optional_auth(auth: Option<ProtoModelProviderAuthInfoModel>) -> Result<
    Option<ModelProviderAuthInfoModel>,
    ThreadConfigLoadErrorModel,
> {
    match auth {
        None => Ok(None),
        Some(auth) => match read_auth(auth) {
            Ok(info) => Ok(Some(info)),
            Err(error) => Err(error),
        },
    }
}

/// A provider with its name, or why it makes no sense: its name, its API, its
/// routes, its command, in this order.
pub open spec fn read_provider(provider: ProtoModelProviderModel) -> Result<
    (Seq<char>, ModelProviderInfoModel),
    ThreadConfigLoadErrorModel,
> {
    if provider.id.len() == 0 {
        Err(parse_failure("remote thread config returned model provider without an id"@))
    } else {
        match tagged_api(provider.wire_api) {
            Err(error) => Err(error),
            Ok(wire_api) => match routes_from(provider.wire_routes, 0, Seq::empty()) {
                Err(error) => Err(error),
                Ok(wire_routes) => match read_optional_auth(provider.auth) {
                    Err(error) => Err(error),
                    Ok(auth) => Ok(
                        (
                            provider.id,
                            ModelProviderInfoModel {
                                name: provider.name,
                                base_url: provider.base_url,
                                env_key: provider.env_key,
                                env_key_instructions: provider.env_key_instructions,
                                experimental_bearer_token: provider.experimental_bearer_token,
                                auth,
                                wire_api,
                                wire_routes,
                                query_params: provider.query_params,
                                http_headers: provider.http_headers,
                                env_http_headers: provider.env_http_headers,
                                request_max_retries: provider.request_max_retries,
                                stream_max_retries: provider.stream_max_retries,
                                stream_idle_timeout_ms: provider.stream_idle_timeout_ms,
                                websocket_connect_timeout_ms: provider.websocket_connect_timeout_ms,
                                requires_openai_auth: provider.requires_openai_auth,
                                supports_websockets: provider.supports_websockets,
                                supports_standalone_web_search: provider.supports_standalone_web_search,
                            },
                        ),
                    ),
                },
            },
        }
    }
}

/// A provider with its name, or why it makes no sense.
pub fn model_provider_from_proto(provider: ProtoModelProvider) -> (named: Result<
    (String, ModelProviderInfo),
    ThreadConfigLoadError,
>)
    ensures
        outcome(named) == read_provider(provider.deep_view()),
{
    if provider.id.as_str().is_empty() {
        return Err(parse_error("remote thread config returned model provider without an id".to_owned()));
    }
    let wire_api = match wire_api_from_proto(provider.wire_api) {
        Err(error) => {
            return Err(error);
        },
        Ok(api) => api,
    };
    let wire_routes = match read_routes(&provider.wire_routes) {
        Err(error) => {
            return Err(error);
        },
        Ok(routes) => routes,
    };
    let auth = match provider.auth {
        None => None,
        Some(auth) => match model_provider_auth_from_proto(auth) {
            Err(error) => {
                return Err(error);
            },
            Ok(info) => Some(info),
        },
    };
    Ok(
        (
            provider.id,
            ModelProviderInfo {
                name: provider.name,
                base_url: provider.base_url,
                env_key: provider.env_key,
                env_key_instructions: provider.env_key_instructions,
                experimental_bearer_token: provider.experimental_bearer_token,
                auth,
                wire_api,
                wire_routes,
                query_params: provider.query_params,
                http_headers: provider.http_headers,
                env_http_headers: provider.env_http_headers,
                request_max_retries: provider.request_max_retries,
                stream_max_retries: provider.stream_max_retries,
                stream_idle_timeout_ms: provider.stream_idle_timeout_ms,
                websocket_connect_timeout_ms: provider.websocket_connect_timeout_ms,
                requires_openai_auth: provider.requires_openai_auth,
                supports_websockets: provider.supports_websockets,
                supports_standalone_web_search: provider.supports_standalone_web_search,
            },
        ),
    )
}

/// Providers by their names.
pub type Providers = Seq<(Seq<char>, ModelProviderInfoModel)>;

/// The providers from `at` on put beside those that are done.
pub open spec fn providers_from(providers: Seq<ProtoModelProviderModel>, at: int, done: Providers) -> Result<
    Providers,
    ThreadConfigLoadErrorModel,
>
    decreases providers.len() - at,
{
    if at < 0 || at >= providers.len() {
        Ok(done)
    } else {
        match read_provider(providers[at]) {
            Err(error) => Err(error),
            Ok((id, info)) => providers_from(providers, at + 1, put(done, id, info)),
        }
    }
}

/// The part of a session, or why it makes no sense.
pub open spec fn read_session(config: ProtoSessionThreadConfigModel) -> Result<
    SessionThreadConfigModel,
    ThreadConfigLoadErrorModel,
> {
    match providers_from(config.model_providers, 0, Seq::empty()) {
        Err(error) => Err(error),
        Ok(model_providers) => Ok(
            SessionThreadConfigModel {
                model_provider: config.model_provider,
                model_providers,
                features: config.features,
            },
        ),
    }
}

/// The part of a session, or why it makes no sense.
pub fn session_thread_config_from_proto(config: ProtoSessionThreadConfig) -> (session: Result<
    SessionThreadConfig,
    ThreadConfigLoadError,
>)
    ensures
        outcome(session) == read_session(config.deep_view()),
{
    let providers = &config.model_providers;
    let mut done: StringMap<ModelProviderInfo> = StringMap::new();
    let mut i: usize = 0;
    while i < providers.len()
        invariant
            i <= providers.len(),
            *providers == config.model_providers,
            providers_from(providers.deep_view(), 0, Seq::empty()) == providers_from(
                providers.deep_view(),
                i as int,
                done.deep_view(),
            ),
        decreases providers.len() - i,
    {
        assert(providers.deep_view()[i as int] == providers@[i as int].deep_view());
        match model_provider_from_proto(providers[i].duplicate()) {
            Err(error) => {
                return Err(error);
            },
            Ok(named) => {
                done.insert(named.0, named.1);
            },
        }
        i += 1;
    }
    Ok(
        SessionThreadConfig {
            model_provider: config.model_provider,
            model_providers: done,
            features: config.features,
        },
    )
}

/// One part of an answer, or why it makes no sense.
pub open spec fn read_source(source: ProtoThreadConfigSourceModel) -> Result<
    ThreadConfigSourceModel,
    ThreadConfigLoadErrorModel,
> {
    match source {
        ProtoThreadConfigSourceModel::Session(config) => match read_session(config) {
            Ok(session) => Ok(ThreadConfigSourceModel::Session(session)),
            Err(error) => Err(error),
        },
        ProtoThreadConfigSourceModel::User => Ok(ThreadConfigSourceModel::User(UserThreadConfig {  })),
        ProtoThreadConfigSourceModel::Omitted => Err(parse_failure("remote thread config omitted source payload"@)),
    }
}

/// One part of an answer, or why it makes no sense.
pub fn thread_config_source_from_proto(source: ProtoThreadConfigSource) -> (read: Result<
    ThreadConfigSource,
    ThreadConfigLoadError,
>)
    ensures
        outcome(read) == read_source(source.deep_view()),
{
    match source {
        ProtoThreadConfigSource::Session(config) => match session_thread_config_from_proto(config) {
            Ok(session) => Ok(ThreadConfigSource::Session(session)),
            Err(error) => Err(error),
        },
        ProtoThreadConfigSource::User => Ok(ThreadConfigSource::User(UserThreadConfig {  })),
        ProtoThreadConfigSource::Omitted => Err(
            parse_error("remote thread config omitted source payload".to_owned()),
        ),
    }
}

/// The parts of an answer from `at` on behind those that are done.
pub open spec fn sources_from(
    sources: Seq<ProtoThreadConfigSourceModel>,
    at: int,
    done: Seq<ThreadConfigSourceModel>,
) -> Result<Seq<ThreadConfigSourceModel>, ThreadConfigLoadErrorModel>
    decreases sources.len() - at,
{
    if at < 0 || at >= sources.len() {
        Ok(done)
    } else {
        match read_source(sources[at]) {
            Err(error) => Err(error),
            Ok(source) => sources_from(sources, at + 1, done.push(source)),
        }
    }
}

/// All parts of an answer, in order, or the first error.
pub fn thread_config_sources_from_proto(sources: &Vec<ProtoThreadConfigSource>) -> (read: Result<
    Vec<ThreadConfigSource>,
    ThreadConfigLoadError,
>)
    ensures
        outcome(read) == sources_from(sources.deep_view(), 0, Seq::empty()),
{
    let mut done: Vec<ThreadConfigSource> = no_items();
    let mut i: usize = 0;
    while i < sources.len()
        invariant
            i <= sources.len(),
            sources_from(sources.deep_view(), 0, Seq::empty()) == sources_from(
                sources.deep_view(),
                i as int,
                done.deep_view(),
            ),
        decreases sources.len() - i,
    {
        assert(sources.deep_view()[i as int] == sources@[i as int].deep_view());
        match thread_config_source_from_proto(sources[i].duplicate()) {
            Err(error) => {
                return Err(error);
            },
            Ok(source) => {
                push_item(&mut done, source);
            },
        }
        i += 1;
    }
    Ok(done)
}

// ---- writing ----

/// The number of an API.
pub open spec fn api_tag(api: WireApi) -> WireApiTag {
    match api {
        WireApi::Responses => WireApiTag::Responses,
        WireApi::AnthropicMessages => WireApiTag::AnthropicMessages,
        WireApi::ChatCompletions => WireApiTag::ChatCompletions,
    }
}

fn proto_wire_api(api: WireApi) -> (tag: WireApiTag)
    ensures
        tag == api_tag(api),
{
    match api {
        WireApi::Responses => WireApiTag::Responses,
        WireApi::AnthropicMessages => WireApiTag::AnthropicMessages,
        WireApi::ChatCompletions => WireApiTag::ChatCompletions,
    }
}

/// The number of a dialect.
pub open spec fn dialect_tag(dialect: InferenceDialect) -> InferenceDialectTag {
    match dialect {
        InferenceDialect::OpenAi => InferenceDialectTag::OpenAi,
        InferenceDialect::ClaudeCode => InferenceDialectTag::ClaudeCode,
        InferenceDialect::Kimi => InferenceDialectTag::Kimi,
        InferenceDialect::Grok => InferenceDialectTag::Grok,
    }
}

fn proto_inference_dialect(dialect: InferenceDialect) -> (tag: InferenceDialectTag)
    ensures
        tag == dialect_tag(dialect),
{
    match dialect {
        InferenceDialect::OpenAi => InferenceDialectTag::OpenAi,
        InferenceDialect::ClaudeCode => InferenceDialectTag::ClaudeCode,
        InferenceDialect::Kimi => InferenceDialectTag::Kimi,
        InferenceDialect::Grok => InferenceDialectTag::Grok,
    }
}

/// A named route as an answer holds it.
pub open spec fn written_route(named: (Seq<char>, ModelProviderWireRouteModel)) -> ProtoNamedWireRouteModel {
    ProtoNamedWireRouteModel {
        name: named.0,
        wire_api: api_tag(named.1.wire_api),
        dialect: dialect_tag(named.1.dialect),
        base_url: named.1.base_url,
        request_path: named.1.request_path,
        query_params: match named.1.query_params {
            Some(params) => params,
            None => Seq::empty(),
        },
        request_max_retries: named.1.request_max_retries,
        stream_max_retries: named.1.stream_max_retries,
        stream_idle_timeout_ms: named.1.stream_idle_timeout_ms,
    }
}

fn named_wire_route_to_proto(name: &String, route: &ModelProviderWireRoute) -> (written: ProtoNamedWireRoute)
    ensures
        written.deep_view() == written_route((name@, route.deep_view())),
{
    ProtoNamedWireRoute {
        name: name.duplicate(),
        wire_api: proto_wire_api(route.wire_api),
        dialect: proto_inference_dialect(route.dialect),
        base_url: route.base_url.duplicate(),
        request_path: route.request_path.duplicate(),
        query_params: match &route.query_params {
            Some(params) => params.duplicate(),
            None => StringMap::new(),
        },
        request_max_retries: route.request_max_retries,
        stream_max_retries: route.stream_max_retries,
        stream_idle_timeout_ms: route.stream_idle_timeout_ms,
    }
}

/// A command that hands out tokens as an answer holds it. Its path is absolute.
pub open spec fn written_auth(auth: ModelProviderAuthInfoModel) -> ProtoModelProviderAuthInfoModel {
    ProtoModelProviderAuthInfoModel {
        command: auth.command,
        args: auth.args,
        timeout_ms: auth.timeout_ms,
        refresh_interval_ms: auth.refresh_interval_ms,
        cwd: CheckedPathModel { given: auth.cwd, check: PathCheckModel::Absolute(auth.cwd) },
    }
}

fn model_provider_auth_to_proto(auth: ModelProviderAuthInfo) -> (written: ProtoModelProviderAuthInfo)
    ensures
        written.deep_view() == written_auth(auth.deep_view()),
        auth.deep_view().timeout_ms != 0,
{
    ProtoModelProviderAuthInfo {
        command: auth.command,
        args: auth.args,
        timeout_ms: auth.timeout_ms.get(),
        refresh_interval_ms: auth.refresh_interval_ms,
        cwd: CheckedPath { given: auth.cwd.duplicate(), check: PathCheck::Absolute(auth.cwd) },
    }
}

/// A provider as an answer holds it.
pub open spec fn written_provider(id: Seq<char>, provider: ModelProviderInfoModel) -> ProtoModelProviderModel {
    ProtoModelProviderModel {
        id,
        name: provider.name,
        base_url: provider.base_url,
        env_key: provider.env_key,
        env_key_instructions: provider.env_key_instructions,
        experimental_bearer_token: provider.experimental_bearer_token,
        auth: match provider.auth {
            Some(auth) => Some(written_auth(auth)),
            None => None,
        },
        wire_api: api_tag(provider.wire_api),
        wire_routes: Seq::new(provider.wire_routes.len(), |i: int| written_route(provider.wire_routes[i])),
        query_params: provider.query_params,
        http_headers: provider.http_headers,
        env_http_headers: provider.env_http_headers,
        request_max_retries: provider.request_max_retries,
        stream_max_retries: provider.stream_max_retries,
        stream_idle_timeout_ms: provider.stream_idle_timeout_ms,
        websocket_connect_timeout_ms: provider.websocket_connect_timeout_ms,
        requires_openai_auth: provider.requires_openai_auth,
        supports_websockets: provider.supports_websockets,
        supports_standalone_web_search: provider.supports_standalone_web_search,
    }
}

/// A provider as an answer holds it. It is read back as it was, under the same
/// name, unless a route has no name or empty parameters; without a name of its
/// own it is refused.
pub fn model_provider_to_proto(id: String, provider: ModelProviderInfo) -> (written: ProtoModelProvider)
    ensures
        written.deep_view() == written_provider(id@, provider.deep_view()),
        id@.len() > 0 && writable_routes(provider.deep_view().wire_routes) ==> read_provider(written.deep_view()) == Ok::<
            (Seq<char>, ModelProviderInfoModel),
            ThreadConfigLoadErrorModel,
        >((id@, provider.deep_view())),
        id@.len() == 0 ==> (read_provider(written.deep_view()) matches Err(error) && error.code
            == ThreadConfigLoadErrorCode::Parse),
{
    let ghost given = provider.deep_view();
    let routes = &provider.wire_routes;
    let ghost named = routes.deep_view();
    let mut wire_routes: Vec<ProtoNamedWireRoute> = no_items();
    let mut i: usize = 0;
    while i < routes.len()
        invariant
            i <= named.len(),
            named == routes.deep_view(),
            wire_routes.deep_view() == Seq::new(i as nat, |j: int| written_route(named[j])),
        decreases named.len() - i,
    {
        let entry = routes.entry(i);
        push_item(&mut wire_routes, named_wire_route_to_proto(&entry.0, &entry.1));
        i += 1;
        assert(wire_routes.deep_view() =~= Seq::new(i as nat, |j: int| written_route(named[j])));
    }
    let auth = match provider.auth {
        Some(auth) => Some(model_provider_auth_to_proto(auth)),
        None => None,
    };
    proof {
        if id@.len() > 0 && writable_routes(given.wire_routes) {
            law_provider_round_trip(id@, given);
        }
    }
    ProtoModelProvider {
        id,
        name: provider.name,
        base_url: provider.base_url,
        env_key: provider.env_key,
        env_key_instructions: provider.env_key_instructions,
        experimental_bearer_token: provider.experimental_bearer_token,
        auth,
        wire_api: proto_wire_api(provider.wire_api),
        wire_routes,
        query_params: provider.query_params,
        http_headers: provider.http_headers,
        env_http_headers: provider.env_http_headers,
        request_max_retries: provider.request_max_retries,
        stream_max_retries: provider.stream_max_retries,
        stream_idle_timeout_ms: provider.stream_idle_timeout_ms,
        websocket_connect_timeout_ms: provider.websocket_connect_timeout_ms,
        requires_openai_auth: provider.requires_openai_auth,
        supports_websockets: provider.supports_websockets,
        supports_standalone_web_search: provider.supports_standalone_web_search,
    }
}

// ---- laws ----

/// Whether a named route can be told from any other once it is written: it has
/// a name, and given parameters are not empty.
pub open spec fn writable_route(named: (Seq<char>, ModelProviderWireRouteModel)) -> bool {
    named.0.len() > 0 && (named.1.query_params matches Some(params) ==> params.len() > 0)
}

/// Whether every named route can be told from any other once it is written.
pub open spec fn writable_routes(routes: Routes) -> bool {
    forall|i: int| 0 <= i < routes.len() ==> writable_route(#[trigger] routes[i])
}

proof fn lemma_routes_round_trip(routes: Routes, written: Seq<ProtoNamedWireRouteModel>, at: int)
    requires
        ordered(routes),
        0 <= at <= routes.len(),
        writable_routes(routes),
        written == Seq::new(routes.len(), |i: int| written_route(routes[i])),
    ensures
        routes_from(written, at, routes.take(at)) == Ok::<Routes, ThreadConfigLoadErrorModel>(routes),
    decreases routes.len() - at,
{
    if at == routes.len() {
        assert(routes.take(at) =~= routes);
    } else {
        assert(writable_route(routes[at]));
        assert(read_route(written[at]) == Ok::<
            (Seq<char>, ModelProviderWireRouteModel),
            ThreadConfigLoadErrorModel,
        >(routes[at]));
        let before = routes.take(at);
        assert forall|i: int| 0 <= i < before.len() implies text_less((#[trigger] before[i]).0, routes[at].0) by {
            assert(before[i] == routes[i]);
        }
        lemma_put_last(before, routes[at].0, routes[at].1);
        assert(routes.take(at + 1) =~= before.push(routes[at]));
        lemma_routes_round_trip(routes, written, at + 1);
    }
}

/// A provider that is written and read is the same, under the same name. A
/// route without a name or with empty parameters would not come back.
pub proof fn law_provider_round_trip(id: Seq<char>, provider: ModelProviderInfoModel)
    requires
        id.len() > 0,
        ordered(provider.wire_routes),
        writable_routes(provider.wire_routes),
        provider.auth matches Some(auth) ==> auth.timeout_ms > 0,
    ensures
        read_provider(written_provider(id, provider)) == Ok::<
            (Seq<char>, ModelProviderInfoModel),
            ThreadConfigLoadErrorModel,
        >((id, provider)),
{
    let routes = provider.wire_routes;
    let written = written_provider(id, provider).wire_routes;
    assert(routes.take(0) =~= Seq::empty());
    lemma_routes_round_trip(routes, written, 0);
}

} // verus!
