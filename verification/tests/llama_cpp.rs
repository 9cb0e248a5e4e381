use codex_dialects::api::{ApiError, Delay, ResponseEvent, TransportError};
use codex_dialects::json::{parse_json, Json};
use codex_dialects::llama_cpp::catalog::{
    LlamaCppCatalog, LlamaCppCatalogEntry, LlamaCppModelSelectionError, ModelsResponse,
};
use codex_dialects::llama_cpp::request::{llama_cpp_request_body, local_effort, LlamaCppRequestInput};
use codex_dialects::llama_cpp::runtime::{
    after_health, classify_error, classify_status, hear_health, hear_models, hear_tokens, invalidates_discovery,
    llama_error_message, DiscoveryAction, LlamaCppRuntime, LlamaCppStreamItem, ReadinessPolicy, ReadinessState,
};
use codex_dialects::protocol::{ReasoningEffort, ReasoningItemContent, ResponseItem};

const WIRE_MODEL: &str = r"F:\ai\llama-server\models\JonathanColetti\Qwen3.8-27B-Uncensored-GGUF\Qwen3.8-27B-Uncensored-noMTP-IQ2_M.gguf";

fn json(text: &str) -> Json {
    parse_json(text).expect("JSON fixture")
}

fn discovery(data: &str) -> ModelsResponse {
    ModelsResponse::from_json(&json(&format!(r#"{{"data":{data}}}"#))).expect("valid discovery response")
}

fn one_model_data() -> String {
    format!(r#"[{{"id":"{}","meta":{{"n_ctx":131072}}}}]"#, WIRE_MODEL.replace('\\', "\\\\"))
}

fn request_input(effort: Option<ReasoningEffort>) -> LlamaCppRequestInput {
    LlamaCppRequestInput {
        instructions: "You are a coding agent.".to_string(),
        history: vec![json(
            r#"{"type":"message","role":"user","content":[{"type":"input_text","text":"Read Cargo.toml."}]}"#,
        )],
        tools: None,
        parallel_tool_calls: true,
        reasoning_effort: effort,
    }
}

fn runtime() -> LlamaCppRuntime {
    let mut runtime = LlamaCppRuntime::for_endpoint("http://127.0.0.1:8080");
    runtime.catalog = Some(LlamaCppCatalog::from_discovery(&discovery(&one_model_data())));
    runtime
}

fn completed(response_id: &str) -> ResponseEvent {
    ResponseEvent::Completed {
        response_id: response_id.to_string(),
        token_usage: None,
        usage_metadata: None,
        end_turn: None,
    }
}

fn stream_all(events: Vec<ResponseEvent>) -> Vec<LlamaCppStreamItem> {
    let mut runtime = runtime();
    let mut items = Vec::new();
    for event in events {
        let step = runtime.stream(Ok(event));
        items.push(step.item);
        if step.ended {
            break;
        }
    }
    assert!(runtime.catalog.is_some());
    items
}

fn only_model() -> LlamaCppCatalogEntry {
    LlamaCppCatalog::from_discovery(&discovery(&one_model_data())).resolve("llama-cpp-local").expect("only model")
}

#[test]
fn derives_zero_one_and_multiple_model_catalogs() {
    let empty = LlamaCppCatalog::from_discovery(&discovery("[]"));
    assert_eq!(empty, LlamaCppCatalog::default());
    assert_eq!(
        empty.resolve("llama-cpp-local").unwrap_err(),
        LlamaCppModelSelectionError {
            requested: "llama-cpp-local".to_string(),
            currently_discovered: Vec::new(),
        }
    );

    let one = LlamaCppCatalog::from_discovery(&discovery(&one_model_data()));
    assert_eq!(
        one,
        LlamaCppCatalog {
            models: vec![LlamaCppCatalogEntry {
                canonical_id: format!("local/{WIRE_MODEL}"),
                wire_model: WIRE_MODEL.to_string(),
                display_name: "Qwen3.8-27B-Uncensored-noMTP-IQ2_M.gguf".to_string(),
                aliases: vec![
                    "Qwen3.8-27B-Uncensored-noMTP-IQ2_M".to_string(),
                    "llama-cpp-local".to_string(),
                ],
                context_window: 131_072,
                max_input_tokens: 121_856,
                max_output_tokens: 8_192,
                safety_margin_tokens: 1_024,
            }],
        }
    );

    let multiple = LlamaCppCatalog::from_discovery(&discovery(
        r#"[
            {"id": "C:\\models\\shared.gguf", "meta": {"n_ctx": 9000}},
            {"id": "D:\\other\\shared.gguf", "meta": {"n_ctx": 0}},
            {"id": "/models/unique.gguf"}
        ]"#,
    ));
    assert_eq!(
        multiple
            .models
            .iter()
            .map(|model| (
                model.canonical_id.as_str(),
                model.wire_model.as_str(),
                model.display_name.as_str(),
                model.aliases.clone(),
                model.context_window,
                model.max_input_tokens,
            ))
            .collect::<Vec<_>>(),
        vec![
            (
                "local/C:\\models\\shared.gguf",
                "C:\\models\\shared.gguf",
                "shared.gguf",
                Vec::<String>::new(),
                9_000,
                0,
            ),
            (
                "local/D:\\other\\shared.gguf",
                "D:\\other\\shared.gguf",
                "shared.gguf",
                Vec::<String>::new(),
                32_768,
                23_552,
            ),
            (
                "local//models/unique.gguf",
                "/models/unique.gguf",
                "unique.gguf",
                vec!["unique".to_string()],
                32_768,
                23_552,
            ),
        ]
    );
}

#[test]
fn missing_model_error_lists_current_canonical_choices() {
    let catalog = LlamaCppCatalog::from_discovery(&discovery(
        r#"[{"id": "A.gguf", "meta": {"n_ctx": 32768}}, {"id": "B.gguf", "meta": {"n_ctx": 65536}}]"#,
    ));
    assert_eq!(
        catalog.resolve("local/gone.gguf").unwrap_err().message(),
        "llama.cpp model `local/gone.gguf` is unavailable; currently discovered choices: local/A.gguf, local/B.gguf"
    );
    assert_eq!(
        LlamaCppCatalog::default().resolve("x").unwrap_err().message(),
        "llama.cpp model `x` is unavailable; the endpoint currently advertises no models"
    );
}

#[test]
fn aliases_are_unique_case_insensitively_after_removing_the_gguf_suffix() {
    let catalog = LlamaCppCatalog::from_discovery(&discovery(
        r#"[{"id": "C:\\models\\Qwen.gguf"}, {"id": "D:\\models\\qwen.gguf"}]"#,
    ));
    assert_eq!(
        catalog.models.iter().map(|model| model.aliases.clone()).collect::<Vec<_>>(),
        vec![Vec::<String>::new(), Vec::<String>::new()]
    );
}

#[test]
fn every_listed_model_is_found_by_its_canonical_name() {
    let catalog = LlamaCppCatalog::from_discovery(&discovery(
        r#"[{"id": "local/a.gguf"}, {"id": "a.gguf"}, {"id": "llama-cpp-local.gguf"}]"#,
    ));
    for model in &catalog.models {
        assert_eq!(
            catalog.resolve(&model.canonical_id).map(|entry| entry.wire_model),
            Ok(model.wire_model.clone())
        );
    }
    let only = LlamaCppCatalog::from_discovery(&discovery(r#"[{"id": "llama-cpp-local.gguf"}]"#));
    assert_eq!(only.models[0].aliases, vec!["llama-cpp-local".to_string()]);
}

#[test]
fn answers_that_cannot_be_read_say_why() {
    let refused = |text: &str, message: &str| {
        assert_eq!(ModelsResponse::from_json(&json(text)), Err(message.to_string()));
    };
    refused("1", "invalid type: integer `1`, expected struct ModelsResponse");
    refused("[]", "invalid length 0, expected struct ModelsResponse with 1 element");
    refused(r#"[[["a"]]]"#, "invalid length 1, expected struct DiscoveredModel with 2 elements");
    refused(r#"[[["a",[]]]]"#, "invalid length 0, expected struct DiscoveredModelMeta with 1 element");
    refused("[[],[]]", "trailing characters");
    refused("{}", "missing field `data`");
    refused(r#"{"data":{}}"#, "invalid type: map, expected a sequence");
    refused(r#"{"data":[{}]}"#, "missing field `id`");
    refused(r#"{"data":[{"id":1}]}"#, "invalid type: integer `1`, expected a string");
    refused(
        r#"{"data":[{"id":"a","meta":{"n_ctx":18446744073709551615}}]}"#,
        "invalid value: integer `18446744073709551615`, expected i64",
    );
    let negative = discovery(r#"[{"id":"a","meta":{"n_ctx":-5}}]"#);
    assert_eq!(LlamaCppCatalog::from_discovery(&negative).models[0].context_window, 32_768);
    assert_eq!(
        hear_models(Ok(b"{".to_vec())),
        Err(ApiError::InvalidRequest {
            message: "invalid llama.cpp JSON response from `models`: EOF while parsing an object at line 1 column 1"
                .to_string(),
        })
    );
    assert_eq!(hear_tokens(Ok(br#"{"input_tokens":42}"#.to_vec())), Ok(42));
    assert!(matches!(
        hear_tokens(Ok(b"{}".to_vec())),
        Err(ApiError::InvalidRequest { message }) if message.starts_with(
            "invalid llama.cpp JSON response from `responses/input_tokens`: missing field `input_tokens`"
        )
    ));
    assert!(hear_health(Ok(b"\"\xff\"".to_vec())).is_err());
}

#[test]
fn answers_may_give_their_fields_by_position() {
    assert_eq!(hear_health(Ok(br#"["ok"]"#.to_vec())), Ok("ok".to_string()));
    assert_eq!(hear_tokens(Ok(b"[42]".to_vec())), Ok(42));
    let named = br#"{"data":[{"id":"a.gguf","meta":{"n_ctx":4096}},{"id":"b.gguf","meta":null}]}"#.to_vec();
    let placed = br#"[[["a.gguf",[4096]],["b.gguf",null]]]"#.to_vec();
    assert!(hear_models(Ok(named.clone())).is_ok());
    assert_eq!(hear_models(Ok(placed)), hear_models(Ok(named)));
}

#[test]
fn a_stream_that_just_ends_forgets_the_models() {
    let mut runtime = runtime();
    assert!(runtime.catalog.is_some());
    runtime.stream_ended();
    assert!(runtime.catalog.is_none());
    assert_eq!(runtime.api_provider, LlamaCppRuntime::for_endpoint("http://127.0.0.1:8080").api_provider);
}

#[test]
fn deterministic_stream_failures_are_not_retryable() {
    let error = classify_error(ApiError::Retryable {
        message: "template error: unsupported item".to_string(),
        delay: None,
    });
    assert_eq!(
        error,
        ApiError::InvalidRequest { message: "template error: unsupported item".to_string() }
    );
}

fn http(status: u16, body: &str) -> ApiError {
    ApiError::Transport(TransportError::Http {
        status,
        url: None,
        headers: None,
        body: Some(body.to_string()),
    })
}

#[test]
fn errors_are_classified_by_status_and_message() {
    assert_eq!(
        classify_error(http(404, r#"{"error":{"message":"no such route"}}"#)),
        ApiError::InvalidRequest { message: "no such route".to_string() }
    );
    assert_eq!(
        classify_error(http(500, "Template Error in line 3")),
        ApiError::InvalidRequest { message: "Template Error in line 3".to_string() }
    );
    assert_eq!(
        classify_error(http(500, "out of memory")),
        ApiError::Retryable {
            message: "llama.cpp request failed with HTTP 500 Internal Server Error: out of memory".to_string(),
            delay: None,
        }
    );
    assert_eq!(
        classify_status(503, "later".to_string()),
        ApiError::Retryable {
            message: "llama.cpp request failed with HTTP 503 Service Unavailable: later".to_string(),
            delay: None,
        }
    );
    assert_eq!(
        classify_error(ApiError::Transport(TransportError::RetryLimit)),
        ApiError::Retryable { message: "llama.cpp transport retry limit reached".to_string(), delay: None }
    );
    assert_eq!(
        classify_error(ApiError::Transport(TransportError::Build("bad".to_string()))),
        ApiError::InvalidRequest { message: "bad".to_string() }
    );
    assert_eq!(
        classify_error(ApiError::ServerOverloaded),
        ApiError::Retryable { message: "llama.cpp service unavailable".to_string(), delay: None }
    );
    assert_eq!(
        classify_error(ApiError::Stream("cut".to_string())),
        ApiError::Retryable { message: "cut".to_string(), delay: None }
    );
    assert_eq!(classify_error(ApiError::ContextWindowExceeded), ApiError::ContextWindowExceeded);
    assert!(invalidates_discovery(&ApiError::Transport(TransportError::Timeout)));
    assert!(!invalidates_discovery(&ApiError::QuotaExceeded));
    assert_eq!(llama_error_message(r#"{"error":{"message":"  "}}"#), r#"{"error":{"message":"  "}}"#);
    assert_eq!(llama_error_message("plain"), "plain");
}

#[test]
fn exact_preflight_and_stream_replay_full_typed_history() {
    let model = only_model();
    let body = llama_cpp_request_body(&model, request_input(None)).expect("first request body");
    let get = |name: &str| body.get(name).cloned();
    assert_eq!(get("model"), Some(Json::Text(WIRE_MODEL.to_string())));
    assert_eq!(get("input"), Some(Json::Array(request_input(None).history)));
    assert_eq!(get("reasoning"), Some(json(r#"{"effort":"low"}"#)));
    assert_eq!(
        get("chat_template_kwargs"),
        Some(json(r#"{"enable_thinking":true,"preserve_thinking":true}"#))
    );
    assert_eq!(get("temperature"), Some(json("1.0")));
    assert_eq!(get("top_p"), Some(json("0.95")));
    assert_eq!(get("top_k"), Some(json("20")));
    assert_eq!(get("min_p"), Some(json("0.0")));
    assert_eq!(get("presence_penalty"), Some(json("0.0")));
    assert_eq!(get("repeat_penalty"), Some(json("1.0")));
    assert_eq!(get("max_output_tokens"), Some(json("8192")));
    assert_eq!(get("stream"), Some(Json::Bool(true)));
    assert_eq!(get("cache_prompt"), Some(Json::Bool(true)));
    assert_eq!(get("previous_response_id"), None);
    assert_eq!(get("tools"), None);

    let prepared = runtime().prepare(model.clone(), body.clone(), Ok(42)).expect("first request preflight");
    assert_eq!(prepared.model.wire_model, WIRE_MODEL);
    assert_eq!(prepared.body(), &body);
    let first_events = stream_all(vec![
        ResponseEvent::ReasoningContentDelta {
            item_id: Some("reasoning-1".to_string()),
            delta: "Need the tool.".to_string(),
            content_index: 0,
        },
        ResponseEvent::OutputItemDone(ResponseItem::Reasoning {
            id: Some("reasoning-1".to_string()),
            summary: Vec::new(),
            content: Some(vec![ReasoningItemContent::ReasoningText { text: "Need the tool.".to_string() }]),
            encrypted_content: Some(String::new()),
        }),
        ResponseEvent::ToolCallInputDelta {
            item_id: "function-1".to_string(),
            call_id: Some("call-1".to_string()),
            delta: "{\"path\":\"Cargo.toml\"}".to_string(),
        },
        ResponseEvent::OutputItemDone(ResponseItem::FunctionCall {
            id: Some("function-1".to_string()),
            name: "read_file".to_string(),
            namespace: None,
            arguments: "{\"path\":\"Cargo.toml\"}".to_string(),
            call_id: "call-1".to_string(),
        }),
        completed("resp-1"),
        completed("never reached"),
    ]);
    assert!(first_events.iter().any(|event| matches!(
        event,
        LlamaCppStreamItem::Event(ResponseEvent::ReasoningContentDelta { delta, .. }) if delta == "Need the tool."
    )));
    let completed_calls = first_events
        .iter()
        .filter(|event| {
            matches!(
                event,
                LlamaCppStreamItem::Event(ResponseEvent::OutputItemDone(ResponseItem::FunctionCall { .. }))
            )
        })
        .count();
    assert_eq!(completed_calls, 1);
    assert!(matches!(
        first_events.last(),
        Some(LlamaCppStreamItem::Event(ResponseEvent::Completed { response_id, .. })) if response_id == "resp-1"
    ));

    let history = json(
        r#"[
            {"type":"message","role":"user","content":[{"type":"input_text","text":"Read Cargo.toml."}]},
            {"id":"reasoning-1","type":"reasoning","summary":[],
             "content":[{"type":"reasoning_text","text":"Need the tool."}],"encrypted_content":""},
            {"id":"function-1","type":"function_call","name":"read_file",
             "arguments":"{\"path\":\"Cargo.toml\"}","call_id":"call-1"},
            {"type":"function_call_output","call_id":"call-1","output":"workspace contents"}
        ]"#,
    );
    let Json::Array(items) = history.clone() else {
        panic!("the history is an array");
    };
    let catalog = LlamaCppCatalog::from_discovery(&discovery(&one_model_data()));
    let model = LlamaCppRuntime::resolve_model(&catalog, &format!("local/{WIRE_MODEL}")).expect("listed model");
    let input = LlamaCppRequestInput { history: items, ..request_input(Some(ReasoningEffort::High)) };
    let continued = llama_cpp_request_body(&model, input).expect("continuation");
    assert_eq!(continued.get("reasoning"), Some(&json(r#"{"effort":"xhigh"}"#)));
    assert_eq!(continued.get("input"), Some(&history));
    assert_eq!(continued.get("previous_response_id"), None);
    let prepared = runtime().prepare(model, continued.clone(), Ok(42)).expect("continuation preflight");
    assert_eq!(prepared.body(), &continued);
    let second_events = stream_all(vec![
        ResponseEvent::OutputTextDelta { item_id: Some("message-1".to_string()), delta: "done".to_string() },
        completed("resp-2"),
    ]);
    assert_eq!(second_events.len(), 2);
    assert!(matches!(
        second_events.last(),
        Some(LlamaCppStreamItem::Event(ResponseEvent::Completed { response_id, .. })) if response_id == "resp-2"
    ));
}

#[test]
fn non_thinking_sampling_and_exact_context_preflight_are_enforced() {
    let model = only_model();
    let body = llama_cpp_request_body(&model, request_input(Some(ReasoningEffort::Off))).expect("request body");
    assert_eq!(body.get("reasoning"), Some(&json(r#"{"effort":"none"}"#)));
    assert_eq!(
        body.get("chat_template_kwargs"),
        Some(&json(r#"{"enable_thinking":false,"preserve_thinking":false}"#))
    );
    assert_eq!(body.get("temperature"), Some(&json("0.7")));
    assert_eq!(body.get("top_p"), Some(&json("0.8")));
    assert_eq!(body.get("presence_penalty"), Some(&json("1.5")));
    let mut runtime = runtime();
    assert_eq!(
        runtime.prepare(model.clone(), body.clone(), Ok(121_857)),
        Err(ApiError::ContextWindowExceeded)
    );
    assert!(runtime.prepare(model.clone(), body.clone(), Ok(121_856)).is_ok());
    assert!(runtime.catalog.is_some());
    assert!(matches!(
        runtime.prepare(model, body, Err(http(503, "busy"))),
        Err(ApiError::Retryable { .. })
    ));
    assert!(runtime.catalog.is_none());
}

#[test]
fn efforts_without_a_local_level_are_refused() {
    assert_eq!(local_effort(None), Ok(ReasoningEffort::Low));
    assert_eq!(local_effort(Some(ReasoningEffort::Medium)), Ok(ReasoningEffort::Medium));
    assert_eq!(
        local_effort(Some(ReasoningEffort::Minimal)),
        Err(ApiError::InvalidRequest {
            message: "llama.cpp reasoning effort `minimal` is unsupported".to_string(),
        })
    );
    assert_eq!(
        local_effort(Some(ReasoningEffort::Custom("own".to_string()))),
        Err(ApiError::InvalidRequest { message: "llama.cpp reasoning effort `own` is unsupported".to_string() })
    );
}

#[test]
fn readiness_is_bounded_and_catalog_is_cached_until_invalidation() {
    let mut runtime = LlamaCppRuntime::for_endpoint("http://127.0.0.1:8080//");
    assert_eq!(runtime.api_provider.base_url, "http://127.0.0.1:8080/v1");
    assert_eq!(runtime.health_provider.base_url, "http://127.0.0.1:8080");
    assert_eq!(runtime.readiness, ReadinessPolicy::default());
    runtime.readiness =
        ReadinessPolicy { attempts: 3, initial_delay: Delay { seconds: 0, nanos: 600_000_000 } };
    let DiscoveryAction::Probe(mut state) = runtime.catalog() else {
        panic!("probe");
    };
    let unavailable = || hear_health(Err(TransportError::Http { status: 503, url: None, headers: None, body: None }));
    let mut delays = Vec::new();
    for _ in 0..2 {
        let DiscoveryAction::Wait { delay, next } = after_health(runtime.readiness, state, unavailable()) else {
            panic!("wait");
        };
        delays.push(delay);
        state = next;
    }
    assert_eq!(
        delays,
        vec![Delay { seconds: 0, nanos: 600_000_000 }, Delay { seconds: 1, nanos: 200_000_000 }]
    );
    assert!(matches!(
        after_health(runtime.readiness, state, unavailable()),
        DiscoveryAction::Fail(ApiError::Retryable { .. })
    ));
    let ready = hear_health(Ok(br#"{"status":"ok"}"#.to_vec()));
    assert_eq!(after_health(runtime.readiness, state, ready), DiscoveryAction::List);
    let loading = hear_health(Ok(br#"{"status":"loading"}"#.to_vec()));
    assert_eq!(
        after_health(runtime.readiness, state, loading),
        DiscoveryAction::Fail(ApiError::InvalidRequest {
            message: "llama.cpp health response did not report ready".to_string(),
        })
    );

    let catalog = hear_models(Ok(format!(r#"{{"data":{}}}"#, one_model_data()).into_bytes()));
    let DiscoveryAction::Found(found) = runtime.listed(catalog) else {
        panic!("catalog");
    };
    assert_eq!(runtime.catalog(), DiscoveryAction::Found(found));
    runtime.invalidate_discovery();
    assert!(matches!(runtime.catalog(), DiscoveryAction::Probe(ReadinessState { attempt: 0, .. })));
    runtime.readiness.attempts = 0;
    assert_eq!(
        runtime.catalog(),
        DiscoveryAction::Fail(ApiError::Retryable {
            message: "llama.cpp did not become ready within the bounded health retry window".to_string(),
            delay: None,
        })
    );
    assert_eq!(
        LlamaCppRuntime::new().health_provider.base_url,
        "http://desktop-uae.netbird.selfhosted:8080"
    );
}

#[test]
fn transport_invalidation_rediscovers_and_reports_disappeared_selection() {
    let mut runtime = runtime();
    let kept = runtime.stream(Err(http(400, "no")));
    assert!(!kept.ended);
    let going = runtime.stream(Ok(ResponseEvent::OutputTextDelta { item_id: None, delta: "a".to_string() }));
    assert!(!going.ended);
    let complete = runtime.stream(Ok(ResponseEvent::Completed {
        response_id: "resp-1".to_string(),
        token_usage: None,
        usage_metadata: None,
        end_turn: None,
    }));
    assert!(complete.ended);
    assert!(runtime.catalog.is_some());
    let failed = runtime.stream(Err(http(503, r#"{"error":{"message":"slot unavailable"}}"#)));
    assert!(failed.ended);
    assert!(matches!(failed.item, LlamaCppStreamItem::Failure(ApiError::Retryable { .. })));
    assert!(runtime.catalog.is_none());

    let replacement = LlamaCppCatalog::from_discovery(&discovery(
        r#"[{"id": "replacement.gguf", "meta": {"n_ctx": 32768}}]"#,
    ));
    let error = LlamaCppRuntime::resolve_model(&replacement, "local/old.gguf").unwrap_err();
    assert_eq!(
        error.message(),
        "invalid request: llama.cpp model `local/old.gguf` is unavailable; currently discovered choices: local/replacement.gguf"
    );
}

#[test]
fn waiting_doubles_up_to_the_longest_span() {
    let policy = ReadinessPolicy { attempts: 2, initial_delay: Delay { seconds: u64::MAX, nanos: 0 } };
    let state = ReadinessState { attempt: 0, delay: policy.initial_delay };
    let unavailable = hear_health(Err(TransportError::Http { status: 503, url: None, headers: None, body: None }));
    assert_eq!(
        after_health(policy, state, unavailable),
        DiscoveryAction::Wait {
            delay: policy.initial_delay,
            next: ReadinessState { attempt: 1, delay: Delay { seconds: u64::MAX, nanos: 999_999_999 } },
        }
    );
}
