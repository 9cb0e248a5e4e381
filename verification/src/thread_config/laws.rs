//! What is read of a remote configuration.
use crate::chat_completions::stream::Session;
use crate::fields::{law_put_then_lookup, lookup, put};
use crate::protocol::{InferenceDialect, WireApi};
use crate::thread_config::{
    ModelProviderInfoModel, ModelProviderWireRouteModel, ThreadConfigLoadErrorModel, ThreadConfigSourceModel,
};
use crate::thread_config::remote::{
    failure_kind, providers_from, read_auth, read_provider, read_route, read_source, routes_from, sources_from,
    written_provider, InferenceDialectTag, ProtoModelProviderAuthInfoModel, ProtoModelProviderModel,
    ProtoNamedWireRouteModel, ProtoThreadConfigSourceModel, Providers, Routes, RpcCode, WireApiTag,
};
use vstd::prelude::*;

verus! {

/// Whether a tag names an interface.
pub open spec fn names_api(tag: WireApiTag, api: WireApi) -> bool {
    match api {
        WireApi::Responses => tag is Responses,
        WireApi::AnthropicMessages => tag is AnthropicMessages,
        WireApi::ChatCompletions => tag is ChatCompletions,
    }
}

/// Whether a tag names a dialect.
pub open spec fn names_dialect(tag: InferenceDialectTag, dialect: InferenceDialect) -> bool {
    match dialect {
        InferenceDialect::OpenAi => tag is OpenAi,
        InferenceDialect::ClaudeCode => tag is ClaudeCode,
        InferenceDialect::Kimi => tag is Kimi,
        InferenceDialect::Grok => tag is Grok,
    }
}

/// A route is read under its name and with every setting it has. It is refused where
/// it has no name, or where its interface or its dialect is missing or not known.
pub proof fn law_a_route_is_read_as_it_is(route: ProtoNamedWireRouteModel)
    ensures
        read_route(route) is Ok <==> route.name.len() > 0 && !(route.wire_api is Unspecified) && !(
        route.wire_api is Unknown) && !(route.dialect is Unspecified) && !(route.dialect is Unknown),
        read_route(route) matches Ok((name, read)) ==> {
            &&& name == route.name
            &&& names_api(route.wire_api, read.wire_api)
            &&& names_dialect(route.dialect, read.dialect)
            &&& read.base_url == route.base_url
            &&& read.request_path == route.request_path
            &&& read.request_max_retries == route.request_max_retries
            &&& read.stream_max_retries == route.stream_max_retries
            &&& read.stream_idle_timeout_ms == route.stream_idle_timeout_ms
            &&& read.query_params == if route.query_params.len() > 0 {
                Some(route.query_params)
            } else {
                None
            }
        },
        read_route(route) matches Err(error) ==> error.code is Parse && error.status_code is None,
{
}

/// A command that authenticates is read as it is. It is refused where it would have
/// no time, or where it would run in no absolute directory.
pub proof fn law_an_auth_command_is_read_as_it_is(auth: ProtoModelProviderAuthInfoModel)
    ensures
        read_auth(auth) is Ok <==> auth.timeout_ms > 0 && auth.cwd.check is Absolute,
        read_auth(auth) matches Ok(read) ==> {
            &&& read.command == auth.command
            &&& read.args == auth.args
            &&& read.timeout_ms == auth.timeout_ms
            &&& read.refresh_interval_ms == auth.refresh_interval_ms
            &&& read.cwd == auth.cwd.check->Absolute_0
        },
        read_auth(auth) matches Err(error) ==> error.code is Parse && error.status_code is None,
{
}

proof fn lemma_routes(items: Seq<ProtoNamedWireRouteModel>, more: ProtoNamedWireRouteModel, at: int, done: Routes)
    requires
        0 <= at <= items.len(),
    ensures
        routes_from(items.push(more), at, done) == match routes_from(items, at, done) {
            Err(error) => Err(error),
            Ok(there) => match read_route(more) {
                Err(error) => Err(error),
                Ok((name, read)) => Ok(put(there, name, read)),
            },
        },
    decreases items.len() - at,
{
    let all = items.push(more);
    if at < items.len() {
        assert(all[at] == items[at]);
        if let Ok((name, read)) = read_route(items[at]) {
            lemma_routes(items, more, at + 1, put(done, name, read));
        }
    } else {
        reveal_with_fuel(routes_from, 2);
        assert(all[at] == more);
    }
}

/// Every route is found under its name, a later one in place of an earlier one of
/// the same name; one that cannot be read has all of them refused.
pub proof fn law_every_route_is_read(items: Seq<ProtoNamedWireRouteModel>, more: ProtoNamedWireRouteModel, other: Seq<char>)
    ensures
        ({
            let before = routes_from(items, 0, Seq::empty());
            let after = routes_from(items.push(more), 0, Seq::empty());
            let read = read_route(more);
            &&& after is Ok <==> before is Ok && read is Ok
            &&& after matches Ok(all) ==> {
                &&& lookup(all, (read->Ok_0).0) == Some((read->Ok_0).1)
                &&& other != (read->Ok_0).0 ==> lookup(all, other) == lookup(before->Ok_0, other)
            }
            &&& before is Err ==> after == before
        }),
        routes_from(Seq::empty(), 0, Seq::empty()) matches Ok(none) && none.len() == 0,
{
    lemma_routes(items, more, 0, Seq::empty());
    if let Ok(there) = routes_from(items, 0, Seq::empty()) {
        if let Ok((name, read)) = read_route(more) {
            law_put_then_lookup(there, name, read, other);
        }
    }
}

/// A provider is read under its id and with every setting it has. It is refused
/// where it has no id, where its interface is missing or not known, or where a route
/// or the command that authenticates cannot be read.
pub proof fn law_a_provider_is_read_as_it_is(provider: ProtoModelProviderModel)
    ensures
        read_provider(provider) is Ok <==> provider.id.len() > 0 && !(provider.wire_api is Unspecified) && !(
        provider.wire_api is Unknown) && routes_from(provider.wire_routes, 0, Seq::empty()) is Ok && (provider.auth
            is Some ==> read_auth(provider.auth->0) is Ok),
        read_provider(provider) matches Ok((id, read)) ==> {
            &&& id == provider.id
            &&& names_api(provider.wire_api, read.wire_api)
            &&& read.name == provider.name
            &&& read.base_url == provider.base_url
            &&& read.env_key == provider.env_key
            &&& read.env_key_instructions == provider.env_key_instructions
            &&& read.experimental_bearer_token == provider.experimental_bearer_token
            &&& read.query_params == provider.query_params
            &&& read.http_headers == provider.http_headers
            &&& read.env_http_headers == provider.env_http_headers
            &&& read.request_max_retries == provider.request_max_retries
            &&& read.stream_max_retries == provider.stream_max_retries
            &&& read.stream_idle_timeout_ms == provider.stream_idle_timeout_ms
            &&& read.websocket_connect_timeout_ms == provider.websocket_connect_timeout_ms
            &&& read.requires_openai_auth == provider.requires_openai_auth
            &&& read.supports_websockets == provider.supports_websockets
            &&& read.supports_standalone_web_search == provider.supports_standalone_web_search
            &&& routes_from(provider.wire_routes, 0, Seq::empty()) == Ok::<Routes, ThreadConfigLoadErrorModel>(
                read.wire_routes,
            )
            &&& match provider.auth {
                None => read.auth is None,
                Some(auth) => read.auth is Some && Ok::<_, ThreadConfigLoadErrorModel>(read.auth->0) == read_auth(auth),
            }
        },
{
}

proof fn lemma_providers(items: Seq<ProtoModelProviderModel>, more: ProtoModelProviderModel, at: int, done: Providers)
    requires
        0 <= at <= items.len(),
    ensures
        providers_from(items.push(more), at, done) == match providers_from(items, at, done) {
            Err(error) => Err(error),
            Ok(there) => match read_provider(more) {
                Err(error) => Err(error),
                Ok((name, read)) => Ok(put(there, name, read)),
            },
        },
    decreases items.len() - at,
{
    let all = items.push(more);
    if at < items.len() {
        assert(all[at] == items[at]);
        if let Ok((name, read)) = read_provider(items[at]) {
            lemma_providers(items, more, at + 1, put(done, name, read));
        }
    } else {
        reveal_with_fuel(providers_from, 2);
        assert(all[at] == more);
    }
}

/// Every provider is found under its id, a later one in place of an earlier one of
/// the same id; one that cannot be read has all of them refused.
pub proof fn law_every_provider_is_read(items: Seq<ProtoModelProviderModel>, more: ProtoModelProviderModel, other: Seq<char>)
    ensures
        ({
            let before = providers_from(items, 0, Seq::empty());
            let after = providers_from(items.push(more), 0, Seq::empty());
            let read = read_provider(more);
            &&& after is Ok <==> before is Ok && read is Ok
            &&& after matches Ok(all) ==> {
                &&& lookup(all, (read->Ok_0).0) == Some((read->Ok_0).1)
                &&& other != (read->Ok_0).0 ==> lookup(all, other) == lookup(before->Ok_0, other)
            }
            &&& before is Err ==> after == before
        }),
        providers_from(Seq::empty(), 0, Seq::empty()) matches Ok(none) && none.len() == 0,
{
    lemma_providers(items, more, 0, Seq::empty());
    if let Ok(there) = providers_from(items, 0, Seq::empty()) {
        if let Ok((name, read)) = read_provider(more) {
            law_put_then_lookup(there, name, read, other);
        }
    }
}

/// Whether a source is the one that was sent: that of a session with the provider it
/// chooses, its providers and its features, or that of a user.
pub open spec fn same_source(given: ProtoThreadConfigSourceModel, read: ThreadConfigSourceModel) -> bool {
    match given {
        ProtoThreadConfigSourceModel::Session(config) => {
            &&& read is Session
            &&& read->Session_0.model_provider == config.model_provider
            &&& read->Session_0.features == config.features
            &&& providers_from(config.model_providers, 0, Seq::empty()) == Ok::<Providers, ThreadConfigLoadErrorModel>(
                read->Session_0.model_providers,
            )
        },
        ProtoThreadConfigSourceModel::User => read is User,
        ProtoThreadConfigSourceModel::Omitted => false,
    }
}

proof fn lemma_sources(
    sources: Seq<ProtoThreadConfigSourceModel>,
    at: int,
    done: Seq<ThreadConfigSourceModel>,
)
    requires
        0 <= at <= sources.len(),
        done.len() == at,
        forall|i: int| 0 <= i < at ==> same_source(#[trigger] sources[i], done[i]),
    ensures
        sources_from(sources, at, done) is Ok <==> forall|i: int|
            at <= i < sources.len() ==> read_source(#[trigger] sources[i]) is Ok,
        sources_from(sources, at, done) matches Ok(read) ==> read.len() == sources.len() && forall|i: int|
            0 <= i < sources.len() ==> same_source(#[trigger] sources[i], read[i]),
    decreases sources.len() - at,
{
    if at < sources.len() {
        if let Ok(source) = read_source(sources[at]) {
            let more = done.push(source);
            assert forall|i: int| 0 <= i < at + 1 implies same_source(#[trigger] sources[i], more[i]) by {
                if i < at {
                    assert(same_source(sources[i], done[i]));
                }
            }
            lemma_sources(sources, at + 1, more);
        }
    }
}

/// Every source is read in order and as it is; one that was left out, or that cannot
/// be read, has all of them refused.
pub proof fn law_every_source_is_read(sources: Seq<ProtoThreadConfigSourceModel>)
    ensures
        sources_from(sources, 0, Seq::empty()) is Ok <==> forall|i: int|
            0 <= i < sources.len() ==> read_source(#[trigger] sources[i]) is Ok,
        sources_from(sources, 0, Seq::empty()) matches Ok(read) ==> read.len() == sources.len() && forall|i: int|
            0 <= i < sources.len() ==> same_source(#[trigger] sources[i], read[i]),
        read_source(ProtoThreadConfigSourceModel::Omitted) is Err,
{
    lemma_sources(sources, 0, Seq::empty());
}

/// A call that was not permitted fails for want of authority, one that took too long
/// for want of time, and every other as a request.
pub proof fn law_failures_are_told_apart(code: RpcCode)
    ensures
        failure_kind(code) is Auth <==> code is Unauthenticated || code is PermissionDenied,
        failure_kind(code) is Timeout <==> code is DeadlineExceeded,
        failure_kind(code) is RequestFailed <==> !(code is Unauthenticated) && !(code is PermissionDenied) && !(
        code is DeadlineExceeded),
{
}

/// What is written of a provider is every setting it has.
pub proof fn law_a_provider_is_written_as_it_is(id: Seq<char>, provider: ModelProviderInfoModel)
    ensures
        ({
            let written = written_provider(id, provider);
            &&& written.id == id
            &&& names_api(written.wire_api, provider.wire_api)
            &&& written.name == provider.name
            &&& written.base_url == provider.base_url
            &&& written.env_key == provider.env_key
            &&& written.env_key_instructions == provider.env_key_instructions
            &&& written.experimental_bearer_token == provider.experimental_bearer_token
            &&& written.query_params == provider.query_params
            &&& written.http_headers == provider.http_headers
            &&& written.env_http_headers == provider.env_http_headers
            &&& written.request_max_retries == provider.request_max_retries
            &&& written.stream_max_retries == provider.stream_max_retries
            &&& written.stream_idle_timeout_ms == provider.stream_idle_timeout_ms
            &&& written.websocket_connect_timeout_ms == provider.websocket_connect_timeout_ms
            &&& written.requires_openai_auth == provider.requires_openai_auth
            &&& written.supports_websockets == provider.supports_websockets
            &&& written.supports_standalone_web_search == provider.supports_standalone_web_search
            &&& written.wire_routes.len() == provider.wire_routes.len()
            &&& forall|i: int|
                0 <= i < provider.wire_routes.len() ==> same_route(
                    #[trigger] provider.wire_routes[i],
                    written.wire_routes[i],
                )
            &&& match provider.auth {
                None => written.auth is None,
                Some(auth) => written.auth is Some && written.auth->0.command == auth.command
                    && written.auth->0.args == auth.args && written.auth->0.timeout_ms == auth.timeout_ms
                    && written.auth->0.refresh_interval_ms == auth.refresh_interval_ms
                    && written.auth->0.cwd.given == auth.cwd,
            }
        }),
{
}

/// Whether what is written of a route is every setting it has.
pub open spec fn same_route(named: (Seq<char>, ModelProviderWireRouteModel), written: ProtoNamedWireRouteModel) -> bool {
    &&& written.name == named.0
    &&& names_api(written.wire_api, named.1.wire_api)
    &&& names_dialect(written.dialect, named.1.dialect)
    &&& written.base_url == named.1.base_url
    &&& written.request_path == named.1.request_path
    &&& written.request_max_retries == named.1.request_max_retries
    &&& written.stream_max_retries == named.1.stream_max_retries
    &&& written.stream_idle_timeout_ms == named.1.stream_idle_timeout_ms
    &&& named.1.query_params is Some ==> written.query_params == named.1.query_params->0
    &&& named.1.query_params is None ==> written.query_params.len() == 0
}

} // verus!
