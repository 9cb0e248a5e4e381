//! What configures a thread.
use crate::fields::StringMap;
use crate::model::Duplicate;
use crate::protocol::{InferenceDialect, WireApi};
use vstd::prelude::*;

pub mod laws;
pub mod remote;

verus! {

/// The part of a configuration that belongs to the user. It holds nothing yet.
#[derive(Debug, Clone, Copy, PartialEq, Eq, Structural)]
pub struct UserThreadConfig {}

impl DeepView for UserThreadConfig {
    type V = UserThreadConfig;

    open spec fn deep_view(&self) -> UserThreadConfig {
        *self
    }
}

impl Duplicate for UserThreadConfig {
    fn duplicate(&self) -> (copy: Self) {
        *self
    }
}

/// What a configuration is asked for.
#[derive(Debug, Clone, PartialEq, Eq)]
pub struct ThreadConfigContext {
    pub thread_id: Option<String>,
    pub cwd: Option<String>,
}

/// The model of [`ThreadConfigContext`].
#[verifier::ext_equal]
pub struct ThreadConfigContextModel {
    pub thread_id: Option<Seq<char>>,
    pub cwd: Option<Seq<char>>,
}

impl DeepView for ThreadConfigContext {
    type V = ThreadConfigContextModel;

    open spec fn deep_view(&self) -> ThreadConfigContextModel {
        ThreadConfigContextModel {
            thread_id: self.thread_id.deep_view(),
            cwd: self.cwd.deep_view(),
        }
    }
}

impl Duplicate for ThreadConfigContext {
    fn duplicate(&self) -> (copy: Self) {
        ThreadConfigContext {
            thread_id: self.thread_id.duplicate(),
            cwd: self.cwd.duplicate(),
        }
    }
}

/// What kind of failure a configuration ended in.
#[derive(Debug, Clone, Copy, PartialEq, Eq, Structural)]
pub enum ThreadConfigLoadErrorCode {
    /// The caller is not known or not permitted.
    Auth,
    /// It took too long.
    Timeout,
    /// The answer makes no sense.
    Parse,
    /// The request failed.
    RequestFailed,
}

impl DeepView for ThreadConfigLoadErrorCode {
    type V = ThreadConfigLoadErrorCode;

    open spec fn deep_view(&self) -> ThreadConfigLoadErrorCode {
        *self
    }
}

impl Duplicate for ThreadConfigLoadErrorCode {
    fn duplicate(&self) -> (copy: Self) {
        *self
    }
}

/// Why a configuration could not be loaded.
#[derive(Debug, Clone, PartialEq, Eq)]
pub struct ThreadConfigLoadError {
    pub code: ThreadConfigLoadErrorCode,
    pub status_code: Option<u16>,
    pub message: String,
}

/// The model of [`ThreadConfigLoadError`].
#[verifier::ext_equal]
pub struct ThreadConfigLoadErrorModel {
    pub code: ThreadConfigLoadErrorCode,
    pub status_code: Option<u16>,
    pub message: Seq<char>,
}

impl DeepView for ThreadConfigLoadError {
    type V = ThreadConfigLoadErrorModel;

    open spec fn deep_view(&self) -> ThreadConfigLoadErrorModel {
        ThreadConfigLoadErrorModel {
            code: self.code.deep_view(),
            status_code: self.status_code.deep_view(),
            message: self.message.deep_view(),
        }
    }
}

impl Duplicate for ThreadConfigLoadError {
    fn duplicate(&self) -> (copy: Self) {
        ThreadConfigLoadError {
            code: self.code.duplicate(),
            status_code: self.status_code.duplicate(),
            message: self.message.duplicate(),
        }
    }
}

/// A number of milliseconds that is not zero.
#[derive(Debug, Clone, Copy, PartialEq, Eq)]
pub struct NonZeroMillis {
    millis: u64,
}

impl DeepView for NonZeroMillis {
    type V = u64;

    closed spec fn deep_view(&self) -> u64 {
        self.millis
    }
}

impl Duplicate for NonZeroMillis {
    fn duplicate(&self) -> (copy: Self) {
        *self
    }
}

impl NonZeroMillis {
    /// The number is not zero.
    #[verifier::type_invariant]
    closed spec fn not_zero(&self) -> bool {
        self.millis != 0
    }

    /// So many milliseconds, unless there are none.
    pub fn new(millis: u64) -> (time: Option<Self>)
        ensures
            time.deep_view() == (if millis == 0 {
                None::<u64>
            } else {
                Some(millis)
            }),
    {
        if millis == 0 {
            None
        } else {
            Some(NonZeroMillis { millis })
        }
    }

    /// How many milliseconds there are.
    pub fn get(self) -> (millis: u64)
        ensures
            millis == self.deep_view(),
            millis != 0,
    {
        proof {
            use_type_invariant(self);
        }
        self.millis
    }
}

/// A command that hands out tokens for a provider.
#[derive(Debug, Clone, PartialEq, Eq)]
pub struct ModelProviderAuthInfo {
    pub command: String,
    pub args: Vec<String>,
    pub timeout_ms: NonZeroMillis,
    pub refresh_interval_ms: u64,
    pub cwd: String,
}

/// The model of [`ModelProviderAuthInfo`].
#[verifier::ext_equal]
pub struct ModelProviderAuthInfoModel {
    pub command: Seq<char>,
    pub args: Seq<Seq<char>>,
    pub timeout_ms: u64,
    pub refresh_interval_ms: u64,
    pub cwd: Seq<char>,
}

impl DeepView for ModelProviderAuthInfo {
    type V = ModelProviderAuthInfoModel;

    open spec fn deep_view(&self) -> ModelProviderAuthInfoModel {
        ModelProviderAuthInfoModel {
            command: self.command.deep_view(),
            args: self.args.deep_view(),
            timeout_ms: self.timeout_ms.deep_view(),
            refresh_interval_ms: self.refresh_interval_ms.deep_view(),
            cwd: self.cwd.deep_view(),
        }
    }
}

impl Duplicate for ModelProviderAuthInfo {
    fn duplicate(&self) -> (copy: Self) {
        ModelProviderAuthInfo {
            command: self.command.duplicate(),
            args: self.args.duplicate(),
            timeout_ms: self.timeout_ms.duplicate(),
            refresh_interval_ms: self.refresh_interval_ms.duplicate(),
            cwd: self.cwd.duplicate(),
        }
    }
}

/// One of the ways in which a provider is reached.
#[derive(Debug, Clone, PartialEq, Eq)]
pub struct ModelProviderWireRoute {
    pub wire_api: WireApi,
    pub dialect: InferenceDialect,
    pub base_url: String,
    pub request_path: String,
    pub query_params: Option<StringMap<String>>,
    pub request_max_retries: Option<u64>,
    pub stream_max_retries: Option<u64>,
    pub stream_idle_timeout_ms: Option<u64>,
}

/// The model of [`ModelProviderWireRoute`].
#[verifier::ext_equal]
pub struct ModelProviderWireRouteModel {
    pub wire_api: WireApi,
    pub dialect: InferenceDialect,
    pub base_url: Seq<char>,
    pub request_path: Seq<char>,
    pub query_params: Option<Seq<(Seq<char>, Seq<char>)>>,
    pub request_max_retries: Option<u64>,
    pub stream_max_retries: Option<u64>,
    pub stream_idle_timeout_ms: Option<u64>,
}

impl DeepView for ModelProviderWireRoute {
    type V = ModelProviderWireRouteModel;

    open spec fn deep_view(&self) -> ModelProviderWireRouteModel {
        ModelProviderWireRouteModel {
            wire_api: self.wire_api.deep_view(),
            dialect: self.dialect.deep_view(),
            base_url: self.base_url.deep_view(),
            request_path: self.request_path.deep_view(),
            query_params: self.query_params.deep_view(),
            request_max_retries: self.request_max_retries.deep_view(),
            stream_max_retries: self.stream_max_retries.deep_view(),
            stream_idle_timeout_ms: self.stream_idle_timeout_ms.deep_view(),
        }
    }
}

impl Duplicate for ModelProviderWireRoute {
    fn duplicate(&self) -> (copy: Self) {
        ModelProviderWireRoute {
            wire_api: self.wire_api.duplicate(),
            dialect: self.dialect.duplicate(),
            base_url: self.base_url.duplicate(),
            request_path: self.request_path.duplicate(),
            query_params: self.query_params.duplicate(),
            request_max_retries: self.request_max_retries.duplicate(),
            stream_max_retries: self.stream_max_retries.duplicate(),
            stream_idle_timeout_ms: self.stream_idle_timeout_ms.duplicate(),
        }
    }
}

/// How a provider is reached.
#[derive(Debug, Clone, PartialEq, Eq)]
pub struct ModelProviderInfo {
    pub name: String,
    pub base_url: Option<String>,
    pub env_key: Option<String>,
    pub env_key_instructions: Option<String>,
    pub experimental_bearer_token: Option<String>,
    pub auth: Option<ModelProviderAuthInfo>,
    pub wire_api: WireApi,
    pub wire_routes: StringMap<ModelProviderWireRoute>,
    pub query_params: Option<StringMap<String>>,
    pub http_headers: Option<StringMap<String>>,
    pub env_http_headers: Option<StringMap<String>>,
    pub request_max_retries: Option<u64>,
    pub stream_max_retries: Option<u64>,
    pub stream_idle_timeout_ms: Option<u64>,
    pub websocket_connect_timeout_ms: Option<u64>,
    pub requires_openai_auth: bool,
    pub supports_websockets: bool,
    pub supports_standalone_web_search: bool,
}

/// The model of [`ModelProviderInfo`].
#[verifier::ext_equal]
pub struct ModelProviderInfoModel {
    pub name: Seq<char>,
    pub base_url: Option<Seq<char>>,
    pub env_key: Option<Seq<char>>,
    pub env_key_instructions: Option<Seq<char>>,
    pub experimental_bearer_token: Option<Seq<char>>,
    pub auth: Option<ModelProviderAuthInfoModel>,
    pub wire_api: WireApi,
    pub wire_routes: Seq<(Seq<char>, ModelProviderWireRouteModel)>,
    pub query_params: Option<Seq<(Seq<char>, Seq<char>)>>,
    pub http_headers: Option<Seq<(Seq<char>, Seq<char>)>>,
    pub env_http_headers: Option<Seq<(Seq<char>, Seq<char>)>>,
    pub request_max_retries: Option<u64>,
    pub stream_max_retries: Option<u64>,
    pub stream_idle_timeout_ms: Option<u64>,
    pub websocket_connect_timeout_ms: Option<u64>,
    pub requires_openai_auth: bool,
    pub supports_websockets: bool,
    pub supports_standalone_web_search: bool,
}

impl DeepView for ModelProviderInfo {
    type V = ModelProviderInfoModel;

    open spec fn deep_view(&self) -> ModelProviderInfoModel {
        ModelProviderInfoModel {
            name: self.name.deep_view(),
            base_url: self.base_url.deep_view(),
            env_key: self.env_key.deep_view(),
            env_key_instructions: self.env_key_instructions.deep_view(),
            experimental_bearer_token: self.experimental_bearer_token.deep_view(),
            auth: self.auth.deep_view(),
            wire_api: self.wire_api.deep_view(),
            wire_routes: self.wire_routes.deep_view(),
            query_params: self.query_params.deep_view(),
            http_headers: self.http_headers.deep_view(),
            env_http_headers: self.env_http_headers.deep_view(),
            request_max_retries: self.request_max_retries.deep_view(),
            stream_max_retries: self.stream_max_retries.deep_view(),
            stream_idle_timeout_ms: self.stream_idle_timeout_ms.deep_view(),
            websocket_connect_timeout_ms: self.websocket_connect_timeout_ms.deep_view(),
            requires_openai_auth: self.requires_openai_auth.deep_view(),
            supports_websockets: self.supports_websockets.deep_view(),
            supports_standalone_web_search: self.supports_standalone_web_search.deep_view(),
        }
    }
}

impl Duplicate for ModelProviderInfo {
    fn duplicate(&self) -> (copy: Self) {
        ModelProviderInfo {
            name: self.name.duplicate(),
            base_url: self.base_url.duplicate(),
            env_key: self.env_key.duplicate(),
            env_key_instructions: self.env_key_instructions.duplicate(),
            experimental_bearer_token: self.experimental_bearer_token.duplicate(),
            auth: self.auth.duplicate(),
            wire_api: self.wire_api.duplicate(),
            wire_routes: self.wire_routes.duplicate(),
            query_params: self.query_params.duplicate(),
            http_headers: self.http_headers.duplicate(),
            env_http_headers: self.env_http_headers.duplicate(),
            request_max_retries: self.request_max_retries.duplicate(),
            stream_max_retries: self.stream_max_retries.duplicate(),
            stream_idle_timeout_ms: self.stream_idle_timeout_ms.duplicate(),
            websocket_connect_timeout_ms: self.websocket_connect_timeout_ms.duplicate(),
            requires_openai_auth: self.requires_openai_auth.duplicate(),
            supports_websockets: self.supports_websockets.duplicate(),
            supports_standalone_web_search: self.supports_standalone_web_search.duplicate(),
        }
    }
}

/// The part of a configuration that belongs to a session.
#[derive(Debug, Clone, PartialEq, Eq)]
pub struct SessionThreadConfig {
    pub model_provider: Option<String>,
    pub model_providers: StringMap<ModelProviderInfo>,
    pub features: StringMap<bool>,
}

/// The model of [`SessionThreadConfig`].
#[verifier::ext_equal]
pub struct SessionThreadConfigModel {
    pub model_provider: Option<Seq<char>>,
    pub model_providers: Seq<(Seq<char>, ModelProviderInfoModel)>,
    pub features: Seq<(Seq<char>, bool)>,
}

impl DeepView for SessionThreadConfig {
    type V = SessionThreadConfigModel;

    open spec fn deep_view(&self) -> SessionThreadConfigModel {
        SessionThreadConfigModel {
            model_provider: self.model_provider.deep_view(),
            model_providers: self.model_providers.deep_view(),
            features: self.features.deep_view(),
        }
    }
}

impl Duplicate for SessionThreadConfig {
    fn duplicate(&self) -> (copy: Self) {
        SessionThreadConfig {
            model_provider: self.model_provider.duplicate(),
            model_providers: self.model_providers.duplicate(),
            features: self.features.duplicate(),
        }
    }
}

/// One part of a configuration.
#[derive(Debug, Clone, PartialEq, Eq)]
pub enum ThreadConfigSource {
    /// That of a session.
    Session(SessionThreadConfig),
    /// That of the user.
    User(UserThreadConfig),
}

/// The model of [`ThreadConfigSource`].
#[verifier::ext_equal]
pub enum ThreadConfigSourceModel {
    Session(SessionThreadConfigModel),
    User(UserThreadConfig),
}

impl DeepView for ThreadConfigSource {
    type V = ThreadConfigSourceModel;

    open spec fn deep_view(&self) -> ThreadConfigSourceModel {
        match self {
            ThreadConfigSource::Session(inner) => ThreadConfigSourceModel::Session(inner.deep_view()),
            ThreadConfigSource::User(inner) => ThreadConfigSourceModel::User(inner.deep_view()),
        }
    }
}

impl Duplicate for ThreadConfigSource {
    fn duplicate(&self) -> (copy: Self) {
        match self {
            ThreadConfigSource::Session(inner) => ThreadConfigSource::Session(inner.duplicate()),
            ThreadConfigSource::User(inner) => ThreadConfigSource::User(inner.duplicate()),
        }
    }
}

impl ThreadConfigLoadError {
    /// An error of a kind, with what is known of it.
    pub fn new(code: ThreadConfigLoadErrorCode, status_code: Option<u16>, message: String) -> (error: Self)
        ensures
            error.deep_view() == (ThreadConfigLoadErrorModel { code, status_code, message: message@ }),
    {
        ThreadConfigLoadError { code, status_code, message }
    }
}

} // verus!
