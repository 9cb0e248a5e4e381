# codex-dialects

The wire dialects that a coding agent speaks to model providers, as a verified
Verus library. The functions of `src/` have contracts that Verus proves, but for
the wrappers of outside functions (see Trust); what holds of several of them
together stands as proof functions named `law_...`.

## Modules

- `text`, `fields`, `json`, `read`, `ids`, `model`: texts, ordered maps, JSON
  values, typed reading with the messages of `serde_json`, identifiers, and the
  mathematical models that contracts speak of.
- `protocol`, `api`: conversations, tools, model profiles; what a client says and
  hears.
- `chat_completions`: a provider-neutral Chat Completions codec. Dialects add
  their own fields through `DialectHooks`.
- `claude_code`: native Messages requests (history, thinking replay, cache
  breakpoints, compatibility profiles) and the strict decoder of their streams.
- `kimi_chat`: Kimi requests, tool schemas, replay markers, streams, and what
  errors mean.
- `llama_cpp`: the model catalog of an endpoint, its requests, and how it is found
  ready.
- `thread_config`: configurations that another process hands out.

## Trust

The library calls `serde_json`, `uuid`, `base64`, `http`, `chrono` and `tonic`, and a
few functions of the standard library, behind small wrappers. A doc comment on
each wrapper says what its contract claims of the outside function.

## Around the library

`app/` holds what does I/O: HTTP streams, channels, timeouts and remote calls. It
turns what happens into values, asks the library what follows, and does it.
`tests/` runs the library.
