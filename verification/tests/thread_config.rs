use codex_dialects::fields::StringMap;
use codex_dialects::protocol::{InferenceDialect, WireApi};
use codex_dialects::thread_config::remote::{
    connection_error, load_thread_config_request, model_provider_from_proto, model_provider_to_proto,
    named_wire_route_from_proto, remote_status_to_error, thread_config_sources_from_proto, CheckedPath,
    InferenceDialectTag, PathCheck, ProtoModelProvider, ProtoModelProviderAuthInfo, ProtoNamedWireRoute,
    ProtoSessionThreadConfig, ProtoThreadConfigSource, RemoteThreadConfigLoader, RpcCode, WireApiTag,
};
use codex_dialects::thread_config::{
    ModelProviderAuthInfo, ModelProviderInfo, ModelProviderWireRoute, NonZeroMillis, SessionThreadConfig,
    ThreadConfigContext, ThreadConfigLoadErrorCode, ThreadConfigSource, UserThreadConfig,
};

fn texts(entries: &[(&str, &str)]) -> StringMap<String> {
    let mut map = StringMap::new();
    for (name, value) in entries {
        map.insert(name.to_string(), value.to_string());
    }
    map
}

fn expected_provider() -> ModelProviderInfo {
    let mut wire_routes = StringMap::new();
    wire_routes.insert(
        "claude_code".to_string(),
        ModelProviderWireRoute {
            wire_api: WireApi::AnthropicMessages,
            dialect: InferenceDialect::ClaudeCode,
            base_url: "http://127.0.0.1:8080/v1/native".to_string(),
            request_path: "v1/messages".to_string(),
            query_params: Some(texts(&[("beta", "true")])),
            request_max_retries: None,
            stream_max_retries: Some(10),
            stream_idle_timeout_ms: None,
        },
    );
    ModelProviderInfo {
        name: "Local".to_string(),
        base_url: Some("http://127.0.0.1:8061/api/codex".to_string()),
        env_key: None,
        env_key_instructions: None,
        experimental_bearer_token: None,
        auth: Some(ModelProviderAuthInfo {
            command: "token-helper".to_string(),
            args: vec!["--json".to_string()],
            timeout_ms: NonZeroMillis::new(5_000).expect("non-zero timeout"),
            refresh_interval_ms: 300_000,
            cwd: "/workspace".to_string(),
        }),
        wire_api: WireApi::Responses,
        wire_routes,
        query_params: Some(texts(&[("api-version", "2026-04-16")])),
        http_headers: Some(texts(&[("X-Test", "enabled")])),
        env_http_headers: Some(texts(&[("X-Env", "LOCAL_HEADER")])),
        request_max_retries: Some(7),
        stream_max_retries: Some(8),
        stream_idle_timeout_ms: Some(9_000),
        websocket_connect_timeout_ms: Some(10_000),
        requires_openai_auth: false,
        supports_websockets: true,
        supports_standalone_web_search: true,
    }
}

fn proto_route() -> ProtoNamedWireRoute {
    ProtoNamedWireRoute {
        name: "claude_code".to_string(),
        wire_api: WireApiTag::AnthropicMessages,
        dialect: InferenceDialectTag::ClaudeCode,
        base_url: "http://127.0.0.1:8080/v1/native".to_string(),
        request_path: "v1/messages".to_string(),
        query_params: texts(&[("beta", "true")]),
        request_max_retries: None,
        stream_max_retries: Some(10),
        stream_idle_timeout_ms: None,
    }
}

fn proto_auth() -> ProtoModelProviderAuthInfo {
    ProtoModelProviderAuthInfo {
        command: "token-helper".to_string(),
        args: vec!["--json".to_string()],
        timeout_ms: 5_000,
        refresh_interval_ms: 300_000,
        cwd: CheckedPath {
            given: "/workspace".to_string(),
            check: PathCheck::Absolute("/workspace".to_string()),
        },
    }
}

fn proto_provider() -> ProtoModelProvider {
    ProtoModelProvider {
        id: "local".to_string(),
        name: "Local".to_string(),
        base_url: Some("http://127.0.0.1:8061/api/codex".to_string()),
        env_key: None,
        env_key_instructions: None,
        experimental_bearer_token: None,
        auth: Some(proto_auth()),
        wire_api: WireApiTag::Responses,
        wire_routes: vec![proto_route()],
        query_params: Some(texts(&[("api-version", "2026-04-16")])),
        http_headers: Some(texts(&[("X-Test", "enabled")])),
        env_http_headers: Some(texts(&[("X-Env", "LOCAL_HEADER")])),
        request_max_retries: Some(7),
        stream_max_retries: Some(8),
        stream_idle_timeout_ms: Some(9_000),
        websocket_connect_timeout_ms: Some(10_000),
        requires_openai_auth: false,
        supports_websockets: true,
        supports_standalone_web_search: true,
    }
}

#[test]
fn load_thread_config_calls_remote_service() {
    let loader = RemoteThreadConfigLoader::new("http://127.0.0.1:1".to_string());
    assert_eq!(loader.endpoint, "http://127.0.0.1:1");
    let request = load_thread_config_request(ThreadConfigContext {
        thread_id: Some("thread-1".to_string()),
        cwd: Some("/workspace/project".to_string()),
    });
    assert_eq!(request.thread_id.as_deref(), Some("thread-1"));
    assert_eq!(request.cwd.as_deref(), Some("/workspace/project"));

    let mut features = StringMap::new();
    features.insert("plugins".to_string(), false);
    features.insert("tools".to_string(), true);
    let mut model_providers = StringMap::new();
    model_providers.insert("local".to_string(), expected_provider());
    let sources = vec![
        ProtoThreadConfigSource::Session(ProtoSessionThreadConfig {
            model_provider: Some("local".to_string()),
            model_providers: vec![proto_provider()],
            features: features.clone(),
        }),
        ProtoThreadConfigSource::User,
    ];
    assert_eq!(
        thread_config_sources_from_proto(&sources),
        Ok(vec![
            ThreadConfigSource::Session(SessionThreadConfig {
                model_provider: Some("local".to_string()),
                model_providers,
                features,
            }),
            ThreadConfigSource::User(UserThreadConfig {}),
        ])
    );
}

#[test]
fn load_thread_config_request_sets_timeout() {
    let request = load_thread_config_request(ThreadConfigContext { thread_id: None, cwd: None });
    assert_eq!(request.timeout, "5000000u");
}

#[test]
fn model_provider_proto_roundtrips_through_domain_type() {
    let expected = expected_provider();
    let proto = model_provider_to_proto("local".to_string(), expected.clone());
    assert!(proto.supports_standalone_web_search);
    assert_eq!(proto, proto_provider());
    let (id, actual) = model_provider_from_proto(proto).expect("model provider from proto");
    assert_eq!(id, "local");
    assert_eq!(actual, expected);
}

#[test]
fn model_provider_proto_defaults_standalone_web_search_to_false() {
    let expected = ModelProviderInfo { supports_standalone_web_search: false, ..expected_provider() };
    let proto = model_provider_to_proto("local".to_string(), expected.clone());
    assert!(!proto.supports_standalone_web_search);
    let (id, actual) = model_provider_from_proto(proto).expect("model provider from proto");
    assert_eq!(id, "local");
    assert_eq!(actual, expected);
}

#[test]
fn answers_that_make_no_sense_are_parse_errors() {
    let refused = |provider: ProtoModelProvider, message: &str| {
        let error = model_provider_from_proto(provider).expect_err("refused");
        assert_eq!(error.code, ThreadConfigLoadErrorCode::Parse);
        assert_eq!(error.message, message);
    };
    refused(
        ProtoModelProvider { id: String::new(), ..proto_provider() },
        "remote thread config returned model provider without an id",
    );
    refused(
        ProtoModelProvider { wire_api: WireApiTag::Unspecified, ..proto_provider() },
        "remote thread config omitted wire_api",
    );
    refused(
        ProtoModelProvider { wire_api: WireApiTag::Unknown(-7), ..proto_provider() },
        "remote thread config returned unknown wire_api: -7",
    );
    let route = |route: ProtoNamedWireRoute| ProtoModelProvider { wire_routes: vec![route], ..proto_provider() };
    refused(
        route(ProtoNamedWireRoute { name: String::new(), ..proto_route() }),
        "remote thread config returned unnamed wire route",
    );
    refused(
        route(ProtoNamedWireRoute { dialect: InferenceDialectTag::Unspecified, ..proto_route() }),
        "remote thread config omitted inference dialect",
    );
    refused(
        route(ProtoNamedWireRoute { dialect: InferenceDialectTag::Unknown(99), ..proto_route() }),
        "remote thread config returned unknown inference dialect: 99",
    );
    let auth = |auth: ProtoModelProviderAuthInfo| ProtoModelProvider { auth: Some(auth), ..proto_provider() };
    refused(
        auth(ProtoModelProviderAuthInfo { timeout_ms: 0, ..proto_auth() }),
        "remote thread config returned zero auth timeout_ms",
    );
    refused(
        auth(ProtoModelProviderAuthInfo {
            cwd: CheckedPath {
                given: "a\tb".to_string(),
                check: PathCheck::Refused("not absolute".to_string()),
            },
            ..proto_auth()
        }),
        "remote thread config returned invalid auth cwd \"a\\tb\": not absolute",
    );
    assert_eq!(
        thread_config_sources_from_proto(&vec![ProtoThreadConfigSource::Omitted]).map_err(|error| error.message),
        Err("remote thread config omitted source payload".to_string())
    );
}

#[test]
fn no_parameters_are_the_same_as_none_given() {
    let (name, route) = named_wire_route_from_proto(ProtoNamedWireRoute {
        query_params: StringMap::new(),
        ..proto_route()
    })
    .expect("route");
    assert_eq!(name, "claude_code");
    assert_eq!(route.query_params, None);
}

#[test]
fn ends_of_calls_have_a_kind() {
    for (code, kind) in [
        (RpcCode::Unauthenticated, ThreadConfigLoadErrorCode::Auth),
        (RpcCode::PermissionDenied, ThreadConfigLoadErrorCode::Auth),
        (RpcCode::DeadlineExceeded, ThreadConfigLoadErrorCode::Timeout),
        (RpcCode::Unavailable, ThreadConfigLoadErrorCode::RequestFailed),
        (RpcCode::Done, ThreadConfigLoadErrorCode::RequestFailed),
    ] {
        let error = remote_status_to_error(code, "status text");
        assert_eq!(error.code, kind);
        assert_eq!(error.status_code, None);
        assert_eq!(error.message, "remote thread config request failed: status text");
    }
    let error = connection_error("refused");
    assert_eq!(error.code, ThreadConfigLoadErrorCode::RequestFailed);
    assert_eq!(error.message, "failed to connect to remote thread config loader: refused");
}

#[test]
fn a_provider_without_a_name_is_not_read_back() {
    let proto = model_provider_to_proto(String::new(), expected_provider());
    let error = model_provider_from_proto(proto).expect_err("unnamed provider");
    assert_eq!(error.code, ThreadConfigLoadErrorCode::Parse);
    assert_eq!(NonZeroMillis::new(0), None);
    assert_eq!(NonZeroMillis::new(7).map(|time| time.get()), Some(7));
}
