//! What an assembled native request keeps of what it is made from.
use crate::claude_code::encoder::{encoded, EncodeErrorModel};
use crate::claude_code::history::native_history;
use crate::claude_code::identity::{stable_id, ClaudeCodeIdentityModel};
use crate::claude_code::names::{family_name, in_small};
use crate::claude_code::opus_compatibility::{
    arch_header, default_breakpoint, models_note, opus_model, os_header, profile_betas, profile_metadata,
    profile_system, root_environment, subagent_environment, subagent_head, ClaudeCodeEnvironmentModel,
    ClaudeCodePromptModel, OpusCompatibilityContextModel, CLAUDE_CODE_VERSION, ROOT_PROMPT_HEAD, ROOT_PROMPT_TAIL,
    SUBAGENT_PROMPT_TAIL,
};
use crate::claude_code::policy::{
    all_cleared, allowed, assembled, cacheable, cached_messages, claude_tools_from, cleared, foreign_block_from,
    last_cacheable, last_user, messages_error_from, native_betas, native_transport, one_hour, profile_of,
    with_breakpoint, CLAUDE_SESSION_NAMESPACE,
};
use crate::claude_code::sonnet_compatibility::{sonnet_model, SonnetCompatibilityContextModel};
use crate::claude_code::transport::{
    header_name_of, header_value_refusal, headers_from, path_with_query, query_from, NativeStreamErrorModel,
};
use crate::claude_code::types::{
    AssembledRequestModel, CacheControl, CacheTtl, ClaudeRequestProfileModel, ContentBlockModel, ContextEdit,
    ContextKeep, MessageModel, MessagesRequestModel, OutputConfig, OutputEffort, RequestTransportModel, Role,
    SystemBlockModel, Thinking, ToolModel,
};
use crate::fields::{law_put_then_lookup, lemma_lookup_at, lemma_lookup_none, lookup, put};
use crate::ids::{big_endian, hex_text, hyphenated, uuid_derived, uuid_read};
use crate::json::{json_print, member, JsonModel};
use crate::protocol::{
    AnthropicThinkingPolicy, InferenceDialect, ModelInferenceConfigModel, ReasoningEffortModel, ResponseItemModel,
    ToolSpecModel, WireApi,
};
use crate::text::{lemma_occurs_itself, lemma_occurs_longer, occurs};
use vstd::prelude::*;

verus! {

// ---- messages ----

/// The breakpoint of a block.
pub open spec fn breakpoint(block: ContentBlockModel) -> Option<CacheControl> {
    match block {
        ContentBlockModel::Text { cache_control, .. } => cache_control,
        ContentBlockModel::Image { cache_control, .. } => cache_control,
        ContentBlockModel::ToolResult { cache_control, .. } => cache_control,
        _ => None,
    }
}

/// Whether two blocks say the same, whatever breakpoints they have.
pub open spec fn says_the_same(one: ContentBlockModel, other: ContentBlockModel) -> bool {
    match one {
        ContentBlockModel::Text { text, .. } => other is Text && other->Text_text == text,
        ContentBlockModel::Image { source, .. } => other is Image && other->Image_source == source,
        ContentBlockModel::ToolResult { tool_use_id, content, is_error, .. } => other is ToolResult
            && other->tool_use_id == tool_use_id && other->ToolResult_content == content && other->is_error == is_error,
        _ => other == one,
    }
}

/// Whether messages say what others do, block for block.
pub open spec fn all_say_the_same(given: Seq<MessageModel>, sent: Seq<MessageModel>) -> bool {
    &&& sent.len() == given.len()
    &&& forall|i: int| 0 <= i < given.len() ==> same_message(#[trigger] given[i], sent[i])
}

/// Whether a message says what another does, block for block.
pub open spec fn same_message(given: MessageModel, sent: MessageModel) -> bool {
    &&& sent.role == given.role
    &&& sent.content.len() == given.content.len()
    &&& forall|j: int| 0 <= j < given.content.len() ==> says_the_same(#[trigger] given.content[j], sent.content[j])
}

/// Whether no user speaks behind a place.
pub open spec fn last_to_speak(messages: Seq<MessageModel>, place: int) -> bool {
    &&& messages[place].role == Role::User
    &&& forall|i: int| place < i < messages.len() ==> (#[trigger] messages[i]).role != Role::User
}

/// Whether a block can have a breakpoint and none behind it can.
pub open spec fn last_to_cache(content: Seq<ContentBlockModel>, place: int) -> bool {
    &&& content[place] is Text || content[place] is Image || content[place] is ToolResult
    &&& forall|j: int|
        place < j < content.len() ==> !((#[trigger] content[j]) is Text) && !(content[j] is Image) && !(
        content[j] is ToolResult)
}

proof fn lemma_last_user(messages: Seq<MessageModel>, below: int)
    requires
        0 <= below <= messages.len(),
    ensures
        match last_user(messages, below) {
            None => forall|i: int| 0 <= i < below ==> (#[trigger] messages[i]).role != Role::User,
            Some(place) => 0 <= place < below && messages[place].role == Role::User && forall|i: int|
                place < i < below ==> (#[trigger] messages[i]).role != Role::User,
        },
    decreases below,
{
    if below > 0 && messages[below - 1].role != Role::User {
        lemma_last_user(messages, below - 1);
    }
}

proof fn lemma_last_cacheable(content: Seq<ContentBlockModel>, below: int)
    requires
        0 <= below <= content.len(),
    ensures
        match last_cacheable(content, below) {
            None => forall|j: int| 0 <= j < below ==> !cacheable(#[trigger] content[j]),
            Some(place) => 0 <= place < below && cacheable(content[place]) && forall|j: int|
                place < j < below ==> !cacheable(#[trigger] content[j]),
        },
    decreases below,
{
    if below > 0 && !cacheable(content[below - 1]) {
        lemma_last_cacheable(content, below - 1);
    }
}

/// A breakpoint changes nothing that messages say. There is one where the user last
/// spoke, at the last block there that can have one, and no other.
pub proof fn law_breakpoints_change_nothing_else(messages: Seq<MessageModel>, control: CacheControl)
    ensures
        ({
            let sent = cached_messages(messages, control);
            &&& all_say_the_same(messages, sent)
            &&& forall|i: int, j: int|
                0 <= i < sent.len() && 0 <= j < sent[i].content.len() ==> (breakpoint(#[trigger] sent[i].content[j])
                    == if last_to_speak(messages, i) && last_to_cache(messages[i].content, j) {
                    Some(control)
                } else {
                    None
                })
        }),
{
    let sent = cached_messages(messages, control);
    let clear = all_cleared(messages);
    lemma_last_user(clear, clear.len() as int);
    assert forall|i: int| 0 <= i < messages.len() implies same_message(#[trigger] messages[i], sent[i]) by {
        assert(clear[i] == cleared(messages[i]));
        lemma_last_cacheable(clear[i].content, clear[i].content.len() as int);
        assert forall|j: int| 0 <= j < messages[i].content.len() implies says_the_same(
            #[trigger] messages[i].content[j],
            sent[i].content[j],
        ) by {
            assert(clear[i].content[j] == with_breakpoint(messages[i].content[j], None));
        }
    }
    assert forall|i: int, j: int|
        0 <= i < sent.len() && 0 <= j < sent[i].content.len() implies (breakpoint(#[trigger] sent[i].content[j])
        == if last_to_speak(messages, i) && last_to_cache(messages[i].content, j) {
        Some(control)
    } else {
        None
    }) by {
        assert(same_message(messages[i], sent[i]));
        assert(clear[i] == cleared(messages[i]));
        assert(clear[i].content[j] == with_breakpoint(messages[i].content[j], None));
        let content = clear[i].content;
        lemma_last_cacheable(content, content.len() as int);
        assert forall|k: int| 0 <= k < content.len() implies cacheable(#[trigger] messages[i].content[k]) == cacheable(
            content[k],
        ) by {
            assert(content[k] == with_breakpoint(messages[i].content[k], None));
        }
        assert forall|k: int| 0 <= k < clear.len() implies (#[trigger] messages[k]).role == clear[k].role by {}
        if last_to_speak(messages, i) {
            assert(last_user(clear, clear.len() as int) == Some(i)) by {
                let found = last_user(clear, clear.len() as int);
                assert(clear[i].role == Role::User);
                if found is Some && found->0 != i {
                    assert(messages[found->0].role == clear[found->0].role);
                }
            }
            let found = last_cacheable(content, content.len() as int);
            if last_to_cache(messages[i].content, j) {
                assert(cacheable(content[j]));
                if found is Some && found->0 != j {
                    assert(cacheable(messages[i].content[found->0]));
                }
            } else if found == Some(j) {
                assert forall|k: int| j < k < content.len() implies !((#[trigger] messages[i].content[k]) is Text) && !(
                messages[i].content[k] is Image) && !(messages[i].content[k] is ToolResult) by {
                    assert(!cacheable(content[k]));
                    assert(cacheable(messages[i].content[k]) == cacheable(content[k]));
                }
                assert(cacheable(messages[i].content[j]));
            }
        } else if last_user(clear, clear.len() as int) == Some(i) {
            assert forall|k: int| i < k < messages.len() implies (#[trigger] messages[k]).role != Role::User by {
                assert(clear[k].role != Role::User);
            }
        }
    }
}

// ---- tools ----

/// Whether a declared tool is one that was given.
pub open spec fn same_tool(given: ToolSpecModel, sent: ToolModel) -> bool {
    &&& given is Function
    &&& sent.name == given->Function_0.name
    &&& sent.description == given->Function_0.description
    &&& sent.input_schema == given->Function_0.parameters
    &&& sent.cache_control is None
}

proof fn lemma_tools(tools: Seq<ToolSpecModel>, at: int, done: Seq<ToolModel>)
    requires
        0 <= at <= tools.len() <= usize::MAX,
        done.len() == at,
        forall|i: int| 0 <= i < at ==> same_tool(#[trigger] tools[i], done[i]),
    ensures
        claude_tools_from(tools, at, done) is Ok <==> forall|i: int|
            at <= i < tools.len() ==> (#[trigger] tools[i]) is Function,
        claude_tools_from(tools, at, done) matches Ok(sent) ==> sent.len() == tools.len() && forall|i: int|
            0 <= i < tools.len() ==> same_tool(#[trigger] tools[i], sent[i]),
        claude_tools_from(tools, at, done) matches Err(error) ==> error is UnsupportedTool && at
            <= error->UnsupportedTool_index < tools.len() && !(tools[error->UnsupportedTool_index as int] is Function)
            && forall|i: int| at <= i < error->UnsupportedTool_index ==> (#[trigger] tools[i]) is Function,
    decreases tools.len() - at,
{
    if at < tools.len() {
        if let ToolSpecModel::Function(function) = tools[at] {
            let tool = ToolModel {
                name: function.name,
                description: function.description,
                input_schema: function.parameters,
                cache_control: None,
            };
            let more = done.push(tool);
            assert forall|i: int| 0 <= i < at + 1 implies same_tool(#[trigger] tools[i], more[i]) by {
                if i < at {
                    assert(same_tool(tools[i], done[i]));
                }
            }
            lemma_tools(tools, at + 1, more);
        }
    }
}

// ---- the whole ----

/// The effort that a level asks for, where it is one that an effort stands for.
pub open spec fn effort_for(effort: ReasoningEffortModel, sent: OutputEffort) -> bool {
    match sent {
        OutputEffort::Low => effort is Minimal || effort is Low,
        OutputEffort::Medium => effort is Medium,
        OutputEffort::High => effort is High,
        OutputEffort::Xhigh => effort is XHigh,
        OutputEffort::Max => effort is Max,
    }
}

/// Whether a model thinks as its profile and the effort ask: not at all where the
/// effort is off, within its budget where it has one, and else as much as the
/// effort says.
pub open spec fn thinks_as_asked(
    policy: AnthropicThinkingPolicy,
    effort: ReasoningEffortModel,
    thinking: Thinking,
    output: Option<OutputConfig>,
) -> bool {
    if effort is Off {
        thinking is Disabled && output is None
    } else {
        match policy {
            AnthropicThinkingPolicy::Budgeted { budget_tokens } => thinking is Enabled && thinking->budget_tokens
                == budget_tokens && output is None,
            AnthropicThinkingPolicy::Adaptive => thinking is Adaptive && thinking->Adaptive_display is Some
                && output is Some && effort_for(effort, output->0.effort),
        }
    }
}

/// Whether a request that thinks asks, once, to clear thinking from its context, and one
/// that does not asks for nothing.
pub open spec fn clears_thinking(body: MessagesRequestModel) -> bool {
    if body.thinking is Disabled {
        body.context_management is None
    } else {
        body.context_management is Some && body.context_management->0.edits.len() == 1
            && body.context_management->0.edits[0] == (ContextEdit::ClearThinking20251015 { keep: ContextKeep::All })
    }
}

/// Whether instructions are others with the last one marked for the cache.
pub open spec fn same_instructions(given: Seq<SystemBlockModel>, sent: Seq<SystemBlockModel>) -> bool {
    &&& sent.len() == given.len()
    &&& forall|i: int|
        0 <= i < given.len() ==> sent[i]->text == (#[trigger] given[i])->text && sent[i]->cache_control == if i
            == given.len() - 1 {
            Some(CacheControl::Ephemeral { ttl: Some(CacheTtl::OneHour) })
        } else {
            None
        }
}

/// Whether no profile replaces the instructions of a model.
pub open spec fn is_plain(profile: ClaudeRequestProfileModel, sonnet_context: Option<SonnetCompatibilityContextModel>) -> bool {
    profile.wire_model != opus_model() && (profile.wire_model != sonnet_model() || sonnet_context is None)
}

/// A plain request names the model of its profile and gives it the tokens of its
/// profile, streams, has the instructions, the messages and the tools it was given
/// in order and as they are, but for breakpoints that last an hour, and thinks as
/// asked. It is for nobody in particular.
pub proof fn law_plain_requests_keep_what_they_are_given(
    config: ModelInferenceConfigModel,
    profile: ClaudeRequestProfileModel,
    effort: ReasoningEffortModel,
    messages: Seq<MessageModel>,
    system: Seq<SystemBlockModel>,
    tools: Seq<ToolSpecModel>,
    resumable_session_id: Seq<char>,
    codex_version: Seq<char>,
    opus_context: Option<OpusCompatibilityContextModel>,
    sonnet_context: Option<SonnetCompatibilityContextModel>,
)
    requires
        profile_of(config) == Some(profile),
        is_plain(profile, sonnet_context),
        tools.len() <= usize::MAX,
    ensures
        assembled(
            config,
            effort,
            messages,
            system,
            tools,
            resumable_session_id,
            codex_version,
            opus_context,
            sonnet_context,
        ) matches Ok(request) ==> {
            &&& profile.wire_api == WireApi::AnthropicMessages
            &&& profile.dialect == InferenceDialect::ClaudeCode
            &&& request.body.model == profile.wire_model
            &&& request.body.max_tokens == profile.max_output_tokens
            &&& request.body.stream
            &&& same_instructions(system, request.body.system)
            &&& all_say_the_same(messages, request.body.messages)
            &&& request.body.messages == cached_messages(
                messages,
                CacheControl::Ephemeral { ttl: Some(CacheTtl::OneHour) },
            )
            &&& request.body.tools.len() == tools.len()
            &&& forall|i: int| 0 <= i < tools.len() ==> same_tool(#[trigger] tools[i], request.body.tools[i])
            &&& thinks_as_asked(profile.thinking, effort, request.body.thinking, request.body.output_config)
            &&& effort is Off ==> profile.supports_disabled_thinking
            &&& request.body.metadata is None
            &&& clears_thinking(request.body)
            &&& uuid_read(resumable_session_id) is Some
            &&& request.transport == native_transport(
                codex_version,
                hyphenated(
                    uuid_derived(CLAUDE_SESSION_NAMESPACE, big_endian(uuid_read(resumable_session_id)->0)),
                ),
            )
        },
{
    lemma_tools(tools, 0, Seq::empty());
    law_breakpoints_change_nothing_else(messages, CacheControl::Ephemeral { ttl: Some(CacheTtl::OneHour) });
}

/// When a plain request can be assembled: for a profile of this protocol, with an
/// effort that the model takes, under the id of a session, with messages that each
/// role may say, and with functions for tools.
pub proof fn law_when_a_plain_request_is_assembled(
    config: ModelInferenceConfigModel,
    profile: ClaudeRequestProfileModel,
    effort: ReasoningEffortModel,
    messages: Seq<MessageModel>,
    system: Seq<SystemBlockModel>,
    tools: Seq<ToolSpecModel>,
    resumable_session_id: Seq<char>,
    codex_version: Seq<char>,
    opus_context: Option<OpusCompatibilityContextModel>,
    sonnet_context: Option<SonnetCompatibilityContextModel>,
)
    requires
        profile_of(config) == Some(profile),
        is_plain(profile, sonnet_context),
        tools.len() <= usize::MAX,
    ensures
        ({
            let takes = if effort is Off {
                profile.supports_disabled_thinking
            } else {
                profile.thinking is Adaptive ==> effort is Minimal || effort is Low || effort is Medium || effort is High
                    || effort is XHigh || effort is Max
            };
            assembled(
                config,
                effort,
                messages,
                system,
                tools,
                resumable_session_id,
                codex_version,
                opus_context,
                sonnet_context,
            ) is Ok <==> profile.wire_api == WireApi::AnthropicMessages && profile.dialect
                == InferenceDialect::ClaudeCode && takes && uuid_read(resumable_session_id) is Some && (forall|i: int|
                0 <= i < messages.len() ==> may_be_said(#[trigger] messages[i])) && (forall|i: int|
                0 <= i < tools.len() ==> (#[trigger] tools[i]) is Function)
        }),
{
    lemma_tools(tools, 0, Seq::empty());
    lemma_messages_error(messages, 0);
}

/// Whether a role may say every block of a message: the user texts, images and
/// results, the model texts, thinking and calls.
pub open spec fn may_be_said(message: MessageModel) -> bool {
    forall|j: int|
        0 <= j < message.content.len() ==> match message.role {
            Role::User => (#[trigger] message.content[j]) is Text || message.content[j] is Image || message.content[j]
                is ToolResult,
            Role::Assistant => message.content[j] is Text || message.content[j] is Thinking || message.content[j]
                is RedactedThinking || message.content[j] is ToolUse,
        }
}

proof fn lemma_foreign(role: Role, content: Seq<ContentBlockModel>, at: int)
    requires
        0 <= at <= content.len(),
    ensures
        foreign_block_from(role, content, at) is None <==> forall|j: int|
            at <= j < content.len() ==> allowed(role, #[trigger] content[j]),
    decreases content.len() - at,
{
    if at < content.len() {
        lemma_foreign(role, content, at + 1);
    }
}

proof fn lemma_messages_error(messages: Seq<MessageModel>, at: int)
    requires
        0 <= at <= messages.len(),
    ensures
        messages_error_from(messages, at) is None <==> forall|i: int|
            at <= i < messages.len() ==> may_be_said(#[trigger] messages[i]),
    decreases messages.len() - at,
{
    if at < messages.len() {
        let message = messages[at];
        lemma_foreign(message.role, message.content, 0);
        assert(may_be_said(message) <==> foreign_block_from(message.role, message.content, 0) is None) by {
            if may_be_said(message) {
                assert forall|j: int| 0 <= j < message.content.len() implies allowed(
                    message.role,
                    #[trigger] message.content[j],
                ) by {}
            }
            if foreign_block_from(message.role, message.content, 0) is None {
                assert forall|j: int| 0 <= j < message.content.len() implies match message.role {
                    Role::User => (#[trigger] message.content[j]) is Text || message.content[j] is Image
                        || message.content[j] is ToolResult,
                    Role::Assistant => message.content[j] is Text || message.content[j] is Thinking
                        || message.content[j] is RedactedThinking || message.content[j] is ToolUse,
                } by {
                    assert(allowed(message.role, message.content[j]));
                }
            }
        }
        lemma_messages_error(messages, at + 1);
    }
}

/// A request under the profile of a model that must have one names the model,
/// streams, and keeps the messages and the tools it was given in order and as they
/// are, but for breakpoints. The profile has the instructions, how many tokens the
/// model gives and for whom; the model thinks as much as the effort says, and a
/// middling much where it does not say.
pub proof fn law_profile_requests_keep_what_they_are_given(
    config: ModelInferenceConfigModel,
    profile: ClaudeRequestProfileModel,
    effort: ReasoningEffortModel,
    messages: Seq<MessageModel>,
    system: Seq<SystemBlockModel>,
    tools: Seq<ToolSpecModel>,
    resumable_session_id: Seq<char>,
    codex_version: Seq<char>,
    opus_context: Option<OpusCompatibilityContextModel>,
    sonnet_context: Option<SonnetCompatibilityContextModel>,
)
    requires
        profile_of(config) == Some(profile),
        profile.wire_model == opus_model(),
        tools.len() <= usize::MAX,
    ensures
        ({
            let built = assembled(
                config,
                effort,
                messages,
                system,
                tools,
                resumable_session_id,
                codex_version,
                opus_context,
                sonnet_context,
            );
            &&& built is Ok ==> opus_context is Some
            &&& built matches Ok(request) ==> {
                let context = opus_context->0;
                &&& request.body.model == profile.wire_model
                &&& request.body.max_tokens == 64_000
                &&& request.body.stream
                &&& request.body.system == context.prompt()
                &&& all_say_the_same(messages, request.body.messages)
                &&& request.body.tools.len() == tools.len()
                &&& forall|i: int| 0 <= i < tools.len() ==> same_tool(#[trigger] tools[i], request.body.tools[i])
                &&& request.body.thinking is Adaptive
                &&& request.body.thinking->Adaptive_display is None
                &&& request.body.output_config is Some
                &&& effort_for(effort, request.body.output_config->0.effort) || (
                request.body.output_config->0.effort is Medium && (effort is Off || effort is Ultra || effort
                    is Persistent || effort is Custom))
                &&& request.body.metadata == Some(profile_metadata(context.installation_id, context.session_id))
                &&& request.transport == context.request_transport()
                &&& clears_thinking(request.body)
            }
        }),
{
    lemma_tools(tools, 0, Seq::empty());
    law_breakpoints_change_nothing_else(messages, default_breakpoint());
}

/// A request that is encoded says what the conversation it stands for does, turn
/// for turn, and then that results which were never recorded are missing. Output
/// of a given structure cannot be asked for.
pub proof fn law_encoded_requests_say_the_conversation(
    structured: bool,
    config: ModelInferenceConfigModel,
    effort: ReasoningEffortModel,
    history: Seq<ResponseItemModel>,
    system: Seq<SystemBlockModel>,
    tools: Seq<ToolSpecModel>,
    resumable_session_id: Seq<char>,
    codex_version: Seq<char>,
    opus_context: Option<OpusCompatibilityContextModel>,
    sonnet_context: Option<SonnetCompatibilityContextModel>,
)
    ensures
        ({
            let request = encoded(
                structured,
                config,
                effort,
                history,
                system,
                tools,
                resumable_session_id,
                codex_version,
                opus_context,
                sonnet_context,
            );
            let said = native_history(history, config);
            &&& request matches Ok(request) ==> !structured && said is Ok && all_say_the_same(
                said->Ok_0,
                request.body.messages,
            )
            &&& !structured && said is Err ==> request == Err::<AssembledRequestModel, _>(said->Err_0)
            &&& structured ==> request == Err::<AssembledRequestModel, _>(
                EncodeErrorModel::UnsupportedStructuredOutput,
            )
            &&& !structured && said is Ok ==> (request is Ok <==> assembled(
                config,
                effort,
                said->Ok_0,
                system,
                tools,
                resumable_session_id,
                codex_version,
                opus_context,
                sonnet_context,
            ) is Ok)
        }),
{
    if let Ok(messages) = native_history(history, config) {
        law_breakpoints_change_nothing_else(messages, default_breakpoint());
        law_breakpoints_change_nothing_else(messages, one_hour());
    }
}

// ---- headers ----

proof fn lemma_header_names()
    ensures
        "User-Agent"@ != "accept"@,
        "User-Agent"@ != "anthropic-beta"@,
        "User-Agent"@ != "anthropic-dangerous-direct-browser-access"@,
        "User-Agent"@ != "anthropic-version"@,
        "User-Agent"@ != "x-app"@,
        "User-Agent"@ != "x-stainless-arch"@,
        "User-Agent"@ != "x-stainless-lang"@,
        "User-Agent"@ != "x-stainless-os"@,
        "User-Agent"@ != "x-stainless-package-version"@,
        "User-Agent"@ != "x-stainless-retry-count"@,
        "User-Agent"@ != "x-stainless-runtime"@,
        "User-Agent"@ != "x-stainless-runtime-version"@,
        "User-Agent"@ != "x-stainless-timeout"@,
        "accept"@ != "anthropic-beta"@,
        "accept"@ != "anthropic-dangerous-direct-browser-access"@,
        "accept"@ != "anthropic-version"@,
        "accept"@ != "x-app"@,
        "accept"@ != "x-stainless-arch"@,
        "accept"@ != "x-stainless-lang"@,
        "accept"@ != "x-stainless-os"@,
        "accept"@ != "x-stainless-package-version"@,
        "accept"@ != "x-stainless-retry-count"@,
        "accept"@ != "x-stainless-runtime"@,
        "accept"@ != "x-stainless-runtime-version"@,
        "accept"@ != "x-stainless-timeout"@,
        "anthropic-beta"@ != "anthropic-dangerous-direct-browser-access"@,
        "anthropic-beta"@ != "anthropic-version"@,
        "anthropic-beta"@ != "x-app"@,
        "anthropic-beta"@ != "x-stainless-arch"@,
        "anthropic-beta"@ != "x-stainless-lang"@,
        "anthropic-beta"@ != "x-stainless-os"@,
        "anthropic-beta"@ != "x-stainless-package-version"@,
        "anthropic-beta"@ != "x-stainless-retry-count"@,
        "anthropic-beta"@ != "x-stainless-runtime"@,
        "anthropic-beta"@ != "x-stainless-runtime-version"@,
        "anthropic-beta"@ != "x-stainless-timeout"@,
        "anthropic-dangerous-direct-browser-access"@ != "anthropic-version"@,
        "anthropic-dangerous-direct-browser-access"@ != "x-app"@,
        "anthropic-dangerous-direct-browser-access"@ != "x-stainless-arch"@,
        "anthropic-dangerous-direct-browser-access"@ != "x-stainless-lang"@,
        "anthropic-dangerous-direct-browser-access"@ != "x-stainless-os"@,
        "anthropic-dangerous-direct-browser-access"@ != "x-stainless-package-version"@,
        "anthropic-dangerous-direct-browser-access"@ != "x-stainless-retry-count"@,
        "anthropic-dangerous-direct-browser-access"@ != "x-stainless-runtime"@,
        "anthropic-dangerous-direct-browser-access"@ != "x-stainless-runtime-version"@,
        "anthropic-dangerous-direct-browser-access"@ != "x-stainless-timeout"@,
        "anthropic-version"@ != "x-app"@,
        "anthropic-version"@ != "x-stainless-arch"@,
        "anthropic-version"@ != "x-stainless-lang"@,
        "anthropic-version"@ != "x-stainless-os"@,
        "anthropic-version"@ != "x-stainless-package-version"@,
        "anthropic-version"@ != "x-stainless-retry-count"@,
        "anthropic-version"@ != "x-stainless-runtime"@,
        "anthropic-version"@ != "x-stainless-runtime-version"@,
        "anthropic-version"@ != "x-stainless-timeout"@,
        "x-app"@ != "x-stainless-arch"@,
        "x-app"@ != "x-stainless-lang"@,
        "x-app"@ != "x-stainless-os"@,
        "x-app"@ != "x-stainless-package-version"@,
        "x-app"@ != "x-stainless-retry-count"@,
        "x-app"@ != "x-stainless-runtime"@,
        "x-app"@ != "x-stainless-runtime-version"@,
        "x-app"@ != "x-stainless-timeout"@,
        "x-stainless-arch"@ != "x-stainless-lang"@,
        "x-stainless-arch"@ != "x-stainless-os"@,
        "x-stainless-arch"@ != "x-stainless-package-version"@,
        "x-stainless-arch"@ != "x-stainless-retry-count"@,
        "x-stainless-arch"@ != "x-stainless-runtime"@,
        "x-stainless-arch"@ != "x-stainless-runtime-version"@,
        "x-stainless-arch"@ != "x-stainless-timeout"@,
        "x-stainless-lang"@ != "x-stainless-os"@,
        "x-stainless-lang"@ != "x-stainless-package-version"@,
        "x-stainless-lang"@ != "x-stainless-retry-count"@,
        "x-stainless-lang"@ != "x-stainless-runtime"@,
        "x-stainless-lang"@ != "x-stainless-runtime-version"@,
        "x-stainless-lang"@ != "x-stainless-timeout"@,
        "x-stainless-os"@ != "x-stainless-package-version"@,
        "x-stainless-os"@ != "x-stainless-retry-count"@,
        "x-stainless-os"@ != "x-stainless-runtime"@,
        "x-stainless-os"@ != "x-stainless-runtime-version"@,
        "x-stainless-os"@ != "x-stainless-timeout"@,
        "x-stainless-package-version"@ != "x-stainless-retry-count"@,
        "x-stainless-package-version"@ != "x-stainless-runtime"@,
        "x-stainless-package-version"@ != "x-stainless-runtime-version"@,
        "x-stainless-package-version"@ != "x-stainless-timeout"@,
        "x-stainless-retry-count"@ != "x-stainless-runtime"@,
        "x-stainless-retry-count"@ != "x-stainless-runtime-version"@,
        "x-stainless-retry-count"@ != "x-stainless-timeout"@,
        "x-stainless-runtime"@ != "x-stainless-runtime-version"@,
        "x-stainless-runtime"@ != "x-stainless-timeout"@,
        "x-stainless-runtime-version"@ != "x-stainless-timeout"@,
{
    reveal_strlit("User-Agent");
    reveal_strlit("accept");
    reveal_strlit("anthropic-beta");
    reveal_strlit("anthropic-dangerous-direct-browser-access");
    reveal_strlit("anthropic-version");
    reveal_strlit("x-app");
    reveal_strlit("x-stainless-arch");
    reveal_strlit("x-stainless-lang");
    reveal_strlit("x-stainless-os");
    reveal_strlit("x-stainless-package-version");
    reveal_strlit("x-stainless-retry-count");
    reveal_strlit("x-stainless-runtime");
    reveal_strlit("x-stainless-runtime-version");
    reveal_strlit("x-stainless-timeout");
    assert("User-Agent"@.len() != "accept"@.len());
    assert("User-Agent"@.len() != "anthropic-beta"@.len());
    assert("User-Agent"@.len() != "anthropic-dangerous-direct-browser-access"@.len());
    assert("User-Agent"@.len() != "anthropic-version"@.len());
    assert("User-Agent"@.len() != "x-app"@.len());
    assert("User-Agent"@.len() != "x-stainless-arch"@.len());
    assert("User-Agent"@.len() != "x-stainless-lang"@.len());
    assert("User-Agent"@.len() != "x-stainless-os"@.len());
    assert("User-Agent"@.len() != "x-stainless-package-version"@.len());
    assert("User-Agent"@.len() != "x-stainless-retry-count"@.len());
    assert("User-Agent"@.len() != "x-stainless-runtime"@.len());
    assert("User-Agent"@.len() != "x-stainless-runtime-version"@.len());
    assert("User-Agent"@.len() != "x-stainless-timeout"@.len());
    assert("accept"@.len() != "anthropic-beta"@.len());
    assert("accept"@.len() != "anthropic-dangerous-direct-browser-access"@.len());
    assert("accept"@.len() != "anthropic-version"@.len());
    assert("accept"@.len() != "x-app"@.len());
    assert("accept"@.len() != "x-stainless-arch"@.len());
    assert("accept"@.len() != "x-stainless-lang"@.len());
    assert("accept"@.len() != "x-stainless-os"@.len());
    assert("accept"@.len() != "x-stainless-package-version"@.len());
    assert("accept"@.len() != "x-stainless-retry-count"@.len());
    assert("accept"@.len() != "x-stainless-runtime"@.len());
    assert("accept"@.len() != "x-stainless-runtime-version"@.len());
    assert("accept"@.len() != "x-stainless-timeout"@.len());
    assert("anthropic-beta"@.len() != "anthropic-dangerous-direct-browser-access"@.len());
    assert("anthropic-beta"@.len() != "anthropic-version"@.len());
    assert("anthropic-beta"@.len() != "x-app"@.len());
    assert("anthropic-beta"@.len() != "x-stainless-arch"@.len());
    assert("anthropic-beta"@.len() != "x-stainless-lang"@.len());
    assert("anthropic-beta"@[0] != "x-stainless-os"@[0]);
    assert("anthropic-beta"@.len() != "x-stainless-package-version"@.len());
    assert("anthropic-beta"@.len() != "x-stainless-retry-count"@.len());
    assert("anthropic-beta"@.len() != "x-stainless-runtime"@.len());
    assert("anthropic-beta"@.len() != "x-stainless-runtime-version"@.len());
    assert("anthropic-beta"@.len() != "x-stainless-timeout"@.len());
    assert("anthropic-dangerous-direct-browser-access"@.len() != "anthropic-version"@.len());
    assert("anthropic-dangerous-direct-browser-access"@.len() != "x-app"@.len());
    assert("anthropic-dangerous-direct-browser-access"@.len() != "x-stainless-arch"@.len());
    assert("anthropic-dangerous-direct-browser-access"@.len() != "x-stainless-lang"@.len());
    assert("anthropic-dangerous-direct-browser-access"@.len() != "x-stainless-os"@.len());
    assert("anthropic-dangerous-direct-browser-access"@.len() != "x-stainless-package-version"@.len());
    assert("anthropic-dangerous-direct-browser-access"@.len() != "x-stainless-retry-count"@.len());
    assert("anthropic-dangerous-direct-browser-access"@.len() != "x-stainless-runtime"@.len());
    assert("anthropic-dangerous-direct-browser-access"@.len() != "x-stainless-runtime-version"@.len());
    assert("anthropic-dangerous-direct-browser-access"@.len() != "x-stainless-timeout"@.len());
    assert("anthropic-version"@.len() != "x-app"@.len());
    assert("anthropic-version"@.len() != "x-stainless-arch"@.len());
    assert("anthropic-version"@.len() != "x-stainless-lang"@.len());
    assert("anthropic-version"@.len() != "x-stainless-os"@.len());
    assert("anthropic-version"@.len() != "x-stainless-package-version"@.len());
    assert("anthropic-version"@.len() != "x-stainless-retry-count"@.len());
    assert("anthropic-version"@.len() != "x-stainless-runtime"@.len());
    assert("anthropic-version"@.len() != "x-stainless-runtime-version"@.len());
    assert("anthropic-version"@.len() != "x-stainless-timeout"@.len());
    assert("x-app"@.len() != "x-stainless-arch"@.len());
    assert("x-app"@.len() != "x-stainless-lang"@.len());
    assert("x-app"@.len() != "x-stainless-os"@.len());
    assert("x-app"@.len() != "x-stainless-package-version"@.len());
    assert("x-app"@.len() != "x-stainless-retry-count"@.len());
    assert("x-app"@.len() != "x-stainless-runtime"@.len());
    assert("x-app"@.len() != "x-stainless-runtime-version"@.len());
    assert("x-app"@.len() != "x-stainless-timeout"@.len());
    assert("x-stainless-arch"@[12] != "x-stainless-lang"@[12]);
    assert("x-stainless-arch"@.len() != "x-stainless-os"@.len());
    assert("x-stainless-arch"@.len() != "x-stainless-package-version"@.len());
    assert("x-stainless-arch"@.len() != "x-stainless-retry-count"@.len());
    assert("x-stainless-arch"@.len() != "x-stainless-runtime"@.len());
    assert("x-stainless-arch"@.len() != "x-stainless-runtime-version"@.len());
    assert("x-stainless-arch"@.len() != "x-stainless-timeout"@.len());
    assert("x-stainless-lang"@.len() != "x-stainless-os"@.len());
    assert("x-stainless-lang"@.len() != "x-stainless-package-version"@.len());
    assert("x-stainless-lang"@.len() != "x-stainless-retry-count"@.len());
    assert("x-stainless-lang"@.len() != "x-stainless-runtime"@.len());
    assert("x-stainless-lang"@.len() != "x-stainless-runtime-version"@.len());
    assert("x-stainless-lang"@.len() != "x-stainless-timeout"@.len());
    assert("x-stainless-os"@.len() != "x-stainless-package-version"@.len());
    assert("x-stainless-os"@.len() != "x-stainless-retry-count"@.len());
    assert("x-stainless-os"@.len() != "x-stainless-runtime"@.len());
    assert("x-stainless-os"@.len() != "x-stainless-runtime-version"@.len());
    assert("x-stainless-os"@.len() != "x-stainless-timeout"@.len());
    assert("x-stainless-package-version"@.len() != "x-stainless-retry-count"@.len());
    assert("x-stainless-package-version"@.len() != "x-stainless-runtime"@.len());
    assert("x-stainless-package-version"@[12] != "x-stainless-runtime-version"@[12]);
    assert("x-stainless-package-version"@.len() != "x-stainless-timeout"@.len());
    assert("x-stainless-retry-count"@.len() != "x-stainless-runtime"@.len());
    assert("x-stainless-retry-count"@.len() != "x-stainless-runtime-version"@.len());
    assert("x-stainless-retry-count"@.len() != "x-stainless-timeout"@.len());
    assert("x-stainless-runtime"@.len() != "x-stainless-runtime-version"@.len());
    assert("x-stainless-runtime"@[12] != "x-stainless-timeout"@[12]);
    assert("x-stainless-runtime-version"@.len() != "x-stainless-timeout"@.len());
}

proof fn lemma_own_names()
    ensures
        in_small("x-"@, "-code-session-id"@).len() == 24,
        in_small("x-"@, "-code-agent-id"@).len() == 22,
        "User-Agent"@.len() == 10,
        "accept"@.len() == 6,
        "anthropic-beta"@.len() == 14,
        "anthropic-dangerous-direct-browser-access"@.len() == 41,
        "anthropic-version"@.len() == 17,
        "x-app"@.len() == 5,
        "x-stainless-arch"@.len() == 16,
        "x-stainless-lang"@.len() == 16,
        "x-stainless-os"@.len() == 14,
        "x-stainless-package-version"@.len() == 27,
        "x-stainless-retry-count"@.len() == 23,
        "x-stainless-runtime"@.len() == 19,
        "x-stainless-runtime-version"@.len() == 27,
        "x-stainless-timeout"@.len() == 19,
{
    reveal_strlit("x-");
    reveal_strlit("-code-session-id");
    reveal_strlit("-code-agent-id");
    lemma_family();
    reveal_strlit("User-Agent");
    reveal_strlit("accept");
    reveal_strlit("anthropic-beta");
    reveal_strlit("anthropic-dangerous-direct-browser-access");
    reveal_strlit("anthropic-version");
    reveal_strlit("x-app");
    reveal_strlit("x-stainless-arch");
    reveal_strlit("x-stainless-lang");
    reveal_strlit("x-stainless-os");
    reveal_strlit("x-stainless-package-version");
    reveal_strlit("x-stainless-retry-count");
    reveal_strlit("x-stainless-runtime");
    reveal_strlit("x-stainless-runtime-version");
    reveal_strlit("x-stainless-timeout");
}

proof fn lemma_family()
    ensures
        family_name().len() == 6,
{
    reveal_strlit("claude_code");
}

/// A request of a client says who sends it, in which session, for which agent where
/// it is for one, on which system, and what it may use.
pub proof fn law_client_headers(
    who: ClaudeCodeIdentityModel,
    version: Seq<char>,
    betas: Seq<char>,
    stainless_os: Seq<char>,
    stainless_arch: Seq<char>,
)
    ensures
        ({
            let headers = who.headers(version, betas, stainless_os, stainless_arch);
            &&& lookup(headers, "User-Agent"@) == Some(in_small(""@, "-cli/"@) + version + " (external, cli)"@)
            &&& lookup(headers, "accept"@) == Some("application/json"@)
            &&& lookup(headers, "anthropic-beta"@) == Some(betas)
            &&& lookup(headers, "anthropic-dangerous-direct-browser-access"@) == Some("true"@)
            &&& lookup(headers, "anthropic-version"@) == Some("2023-06-01"@)
            &&& lookup(headers, "x-app"@) == Some("cli"@)
            &&& lookup(headers, in_small("x-"@, "-code-session-id"@)) == Some(who.session_id)
            &&& lookup(headers, "x-stainless-arch"@) == Some(stainless_arch)
            &&& lookup(headers, "x-stainless-lang"@) == Some("js"@)
            &&& lookup(headers, "x-stainless-os"@) == Some(stainless_os)
            &&& lookup(headers, "x-stainless-package-version"@) == Some("0.94.0"@)
            &&& lookup(headers, "x-stainless-retry-count"@) == Some("0"@)
            &&& lookup(headers, "x-stainless-runtime"@) == Some("node"@)
            &&& lookup(headers, "x-stainless-runtime-version"@) == Some("v26.3.0"@)
            &&& lookup(headers, "x-stainless-timeout"@) == Some("600"@)
            &&& lookup(headers, in_small("x-"@, "-code-agent-id"@)) == who.agent()
            &&& who.agent() is Some <==> who.kind is Subagent
        }),
{
    lemma_header_names();
    lemma_own_names();
    let headers = who.headers(version, betas, stainless_os, stainless_arch);
    let h0 = put(Seq::<(Seq<char>, Seq<char>)>::empty(), "User-Agent"@, in_small(""@, "-cli/"@) + version + " (external, cli)"@);
    let h1 = put(h0, "accept"@, "application/json"@);
    let h2 = put(h1, "anthropic-beta"@, betas);
    let h3 = put(h2, "anthropic-dangerous-direct-browser-access"@, "true"@);
    let h4 = put(h3, "anthropic-version"@, "2023-06-01"@);
    let h5 = put(h4, "x-app"@, "cli"@);
    let h6 = put(h5, in_small("x-"@, "-code-session-id"@), who.session_id);
    let h7 = put(h6, "x-stainless-arch"@, stainless_arch);
    let h8 = put(h7, "x-stainless-lang"@, "js"@);
    let h9 = put(h8, "x-stainless-os"@, stainless_os);
    let h10 = put(h9, "x-stainless-package-version"@, "0.94.0"@);
    let h11 = put(h10, "x-stainless-retry-count"@, "0"@);
    let h12 = put(h11, "x-stainless-runtime"@, "node"@);
    let h13 = put(h12, "x-stainless-runtime-version"@, "v26.3.0"@);
    let h14 = put(h13, "x-stainless-timeout"@, "600"@);
    let last = match who.agent() {
        Some(agent) => put(h14, in_small("x-"@, "-code-agent-id"@), agent),
        None => h14,
    };
    assert(headers == last);
    assert(lookup(last, "User-Agent"@) == Some(in_small(""@, "-cli/"@) + version + " (external, cli)"@)) by {
        law_put_then_lookup(Seq::<(Seq<char>, Seq<char>)>::empty(), "User-Agent"@, in_small(""@, "-cli/"@) + version + " (external, cli)"@, "User-Agent"@);
        law_put_then_lookup(h0, "accept"@, "application/json"@, "User-Agent"@);
        law_put_then_lookup(h1, "anthropic-beta"@, betas, "User-Agent"@);
        law_put_then_lookup(h2, "anthropic-dangerous-direct-browser-access"@, "true"@, "User-Agent"@);
        law_put_then_lookup(h3, "anthropic-version"@, "2023-06-01"@, "User-Agent"@);
        law_put_then_lookup(h4, "x-app"@, "cli"@, "User-Agent"@);
        law_put_then_lookup(h5, in_small("x-"@, "-code-session-id"@), who.session_id, "User-Agent"@);
        law_put_then_lookup(h6, "x-stainless-arch"@, stainless_arch, "User-Agent"@);
        law_put_then_lookup(h7, "x-stainless-lang"@, "js"@, "User-Agent"@);
        law_put_then_lookup(h8, "x-stainless-os"@, stainless_os, "User-Agent"@);
        law_put_then_lookup(h9, "x-stainless-package-version"@, "0.94.0"@, "User-Agent"@);
        law_put_then_lookup(h10, "x-stainless-retry-count"@, "0"@, "User-Agent"@);
        law_put_then_lookup(h11, "x-stainless-runtime"@, "node"@, "User-Agent"@);
        law_put_then_lookup(h12, "x-stainless-runtime-version"@, "v26.3.0"@, "User-Agent"@);
        law_put_then_lookup(h13, "x-stainless-timeout"@, "600"@, "User-Agent"@);
        if let Some(agent) = who.agent() {
            law_put_then_lookup(h14, in_small("x-"@, "-code-agent-id"@), agent, "User-Agent"@);
        }
    }
    assert(lookup(last, "accept"@) == Some("application/json"@)) by {
        law_put_then_lookup(h0, "accept"@, "application/json"@, "accept"@);
        law_put_then_lookup(h1, "anthropic-beta"@, betas, "accept"@);
        law_put_then_lookup(h2, "anthropic-dangerous-direct-browser-access"@, "true"@, "accept"@);
        law_put_then_lookup(h3, "anthropic-version"@, "2023-06-01"@, "accept"@);
        law_put_then_lookup(h4, "x-app"@, "cli"@, "accept"@);
        law_put_then_lookup(h5, in_small("x-"@, "-code-session-id"@), who.session_id, "accept"@);
        law_put_then_lookup(h6, "x-stainless-arch"@, stainless_arch, "accept"@);
        law_put_then_lookup(h7, "x-stainless-lang"@, "js"@, "accept"@);
        law_put_then_lookup(h8, "x-stainless-os"@, stainless_os, "accept"@);
        law_put_then_lookup(h9, "x-stainless-package-version"@, "0.94.0"@, "accept"@);
        law_put_then_lookup(h10, "x-stainless-retry-count"@, "0"@, "accept"@);
        law_put_then_lookup(h11, "x-stainless-runtime"@, "node"@, "accept"@);
        law_put_then_lookup(h12, "x-stainless-runtime-version"@, "v26.3.0"@, "accept"@);
        law_put_then_lookup(h13, "x-stainless-timeout"@, "600"@, "accept"@);
        if let Some(agent) = who.agent() {
            law_put_then_lookup(h14, in_small("x-"@, "-code-agent-id"@), agent, "accept"@);
        }
    }
    assert(lookup(last, "anthropic-beta"@) == Some(betas)) by {
        law_put_then_lookup(h1, "anthropic-beta"@, betas, "anthropic-beta"@);
        law_put_then_lookup(h2, "anthropic-dangerous-direct-browser-access"@, "true"@, "anthropic-beta"@);
        law_put_then_lookup(h3, "anthropic-version"@, "2023-06-01"@, "anthropic-beta"@);
        law_put_then_lookup(h4, "x-app"@, "cli"@, "anthropic-beta"@);
        law_put_then_lookup(h5, in_small("x-"@, "-code-session-id"@), who.session_id, "anthropic-beta"@);
        law_put_then_lookup(h6, "x-stainless-arch"@, stainless_arch, "anthropic-beta"@);
        law_put_then_lookup(h7, "x-stainless-lang"@, "js"@, "anthropic-beta"@);
        law_put_then_lookup(h8, "x-stainless-os"@, stainless_os, "anthropic-beta"@);
        law_put_then_lookup(h9, "x-stainless-package-version"@, "0.94.0"@, "anthropic-beta"@);
        law_put_then_lookup(h10, "x-stainless-retry-count"@, "0"@, "anthropic-beta"@);
        law_put_then_lookup(h11, "x-stainless-runtime"@, "node"@, "anthropic-beta"@);
        law_put_then_lookup(h12, "x-stainless-runtime-version"@, "v26.3.0"@, "anthropic-beta"@);
        law_put_then_lookup(h13, "x-stainless-timeout"@, "600"@, "anthropic-beta"@);
        if let Some(agent) = who.agent() {
            law_put_then_lookup(h14, in_small("x-"@, "-code-agent-id"@), agent, "anthropic-beta"@);
        }
    }
    assert(lookup(last, "anthropic-dangerous-direct-browser-access"@) == Some("true"@)) by {
        law_put_then_lookup(h2, "anthropic-dangerous-direct-browser-access"@, "true"@, "anthropic-dangerous-direct-browser-access"@);
        law_put_then_lookup(h3, "anthropic-version"@, "2023-06-01"@, "anthropic-dangerous-direct-browser-access"@);
        law_put_then_lookup(h4, "x-app"@, "cli"@, "anthropic-dangerous-direct-browser-access"@);
        law_put_then_lookup(h5, in_small("x-"@, "-code-session-id"@), who.session_id, "anthropic-dangerous-direct-browser-access"@);
        law_put_then_lookup(h6, "x-stainless-arch"@, stainless_arch, "anthropic-dangerous-direct-browser-access"@);
        law_put_then_lookup(h7, "x-stainless-lang"@, "js"@, "anthropic-dangerous-direct-browser-access"@);
        law_put_then_lookup(h8, "x-stainless-os"@, stainless_os, "anthropic-dangerous-direct-browser-access"@);
        law_put_then_lookup(h9, "x-stainless-package-version"@, "0.94.0"@, "anthropic-dangerous-direct-browser-access"@);
        law_put_then_lookup(h10, "x-stainless-retry-count"@, "0"@, "anthropic-dangerous-direct-browser-access"@);
        law_put_then_lookup(h11, "x-stainless-runtime"@, "node"@, "anthropic-dangerous-direct-browser-access"@);
        law_put_then_lookup(h12, "x-stainless-runtime-version"@, "v26.3.0"@, "anthropic-dangerous-direct-browser-access"@);
        law_put_then_lookup(h13, "x-stainless-timeout"@, "600"@, "anthropic-dangerous-direct-browser-access"@);
        if let Some(agent) = who.agent() {
            law_put_then_lookup(h14, in_small("x-"@, "-code-agent-id"@), agent, "anthropic-dangerous-direct-browser-access"@);
        }
    }
    assert(lookup(last, "anthropic-version"@) == Some("2023-06-01"@)) by {
        law_put_then_lookup(h3, "anthropic-version"@, "2023-06-01"@, "anthropic-version"@);
        law_put_then_lookup(h4, "x-app"@, "cli"@, "anthropic-version"@);
        law_put_then_lookup(h5, in_small("x-"@, "-code-session-id"@), who.session_id, "anthropic-version"@);
        law_put_then_lookup(h6, "x-stainless-arch"@, stainless_arch, "anthropic-version"@);
        law_put_then_lookup(h7, "x-stainless-lang"@, "js"@, "anthropic-version"@);
        law_put_then_lookup(h8, "x-stainless-os"@, stainless_os, "anthropic-version"@);
        law_put_then_lookup(h9, "x-stainless-package-version"@, "0.94.0"@, "anthropic-version"@);
        law_put_then_lookup(h10, "x-stainless-retry-count"@, "0"@, "anthropic-version"@);
        law_put_then_lookup(h11, "x-stainless-runtime"@, "node"@, "anthropic-version"@);
        law_put_then_lookup(h12, "x-stainless-runtime-version"@, "v26.3.0"@, "anthropic-version"@);
        law_put_then_lookup(h13, "x-stainless-timeout"@, "600"@, "anthropic-version"@);
        if let Some(agent) = who.agent() {
            law_put_then_lookup(h14, in_small("x-"@, "-code-agent-id"@), agent, "anthropic-version"@);
        }
    }
    assert(lookup(last, "x-app"@) == Some("cli"@)) by {
        law_put_then_lookup(h4, "x-app"@, "cli"@, "x-app"@);
        law_put_then_lookup(h5, in_small("x-"@, "-code-session-id"@), who.session_id, "x-app"@);
        law_put_then_lookup(h6, "x-stainless-arch"@, stainless_arch, "x-app"@);
        law_put_then_lookup(h7, "x-stainless-lang"@, "js"@, "x-app"@);
        law_put_then_lookup(h8, "x-stainless-os"@, stainless_os, "x-app"@);
        law_put_then_lookup(h9, "x-stainless-package-version"@, "0.94.0"@, "x-app"@);
        law_put_then_lookup(h10, "x-stainless-retry-count"@, "0"@, "x-app"@);
        law_put_then_lookup(h11, "x-stainless-runtime"@, "node"@, "x-app"@);
        law_put_then_lookup(h12, "x-stainless-runtime-version"@, "v26.3.0"@, "x-app"@);
        law_put_then_lookup(h13, "x-stainless-timeout"@, "600"@, "x-app"@);
        if let Some(agent) = who.agent() {
            law_put_then_lookup(h14, in_small("x-"@, "-code-agent-id"@), agent, "x-app"@);
        }
    }
    assert(lookup(last, in_small("x-"@, "-code-session-id"@)) == Some(who.session_id)) by {
        law_put_then_lookup(h5, in_small("x-"@, "-code-session-id"@), who.session_id, in_small("x-"@, "-code-session-id"@));
        law_put_then_lookup(h6, "x-stainless-arch"@, stainless_arch, in_small("x-"@, "-code-session-id"@));
        law_put_then_lookup(h7, "x-stainless-lang"@, "js"@, in_small("x-"@, "-code-session-id"@));
        law_put_then_lookup(h8, "x-stainless-os"@, stainless_os, in_small("x-"@, "-code-session-id"@));
        law_put_then_lookup(h9, "x-stainless-package-version"@, "0.94.0"@, in_small("x-"@, "-code-session-id"@));
        law_put_then_lookup(h10, "x-stainless-retry-count"@, "0"@, in_small("x-"@, "-code-session-id"@));
        law_put_then_lookup(h11, "x-stainless-runtime"@, "node"@, in_small("x-"@, "-code-session-id"@));
        law_put_then_lookup(h12, "x-stainless-runtime-version"@, "v26.3.0"@, in_small("x-"@, "-code-session-id"@));
        law_put_then_lookup(h13, "x-stainless-timeout"@, "600"@, in_small("x-"@, "-code-session-id"@));
        if let Some(agent) = who.agent() {
            law_put_then_lookup(h14, in_small("x-"@, "-code-agent-id"@), agent, in_small("x-"@, "-code-session-id"@));
        }
    }
    assert(lookup(last, "x-stainless-arch"@) == Some(stainless_arch)) by {
        law_put_then_lookup(h6, "x-stainless-arch"@, stainless_arch, "x-stainless-arch"@);
        law_put_then_lookup(h7, "x-stainless-lang"@, "js"@, "x-stainless-arch"@);
        law_put_then_lookup(h8, "x-stainless-os"@, stainless_os, "x-stainless-arch"@);
        law_put_then_lookup(h9, "x-stainless-package-version"@, "0.94.0"@, "x-stainless-arch"@);
        law_put_then_lookup(h10, "x-stainless-retry-count"@, "0"@, "x-stainless-arch"@);
        law_put_then_lookup(h11, "x-stainless-runtime"@, "node"@, "x-stainless-arch"@);
        law_put_then_lookup(h12, "x-stainless-runtime-version"@, "v26.3.0"@, "x-stainless-arch"@);
        law_put_then_lookup(h13, "x-stainless-timeout"@, "600"@, "x-stainless-arch"@);
        if let Some(agent) = who.agent() {
            law_put_then_lookup(h14, in_small("x-"@, "-code-agent-id"@), agent, "x-stainless-arch"@);
        }
    }
    assert(lookup(last, "x-stainless-lang"@) == Some("js"@)) by {
        law_put_then_lookup(h7, "x-stainless-lang"@, "js"@, "x-stainless-lang"@);
        law_put_then_lookup(h8, "x-stainless-os"@, stainless_os, "x-stainless-lang"@);
        law_put_then_lookup(h9, "x-stainless-package-version"@, "0.94.0"@, "x-stainless-lang"@);
        law_put_then_lookup(h10, "x-stainless-retry-count"@, "0"@, "x-stainless-lang"@);
        law_put_then_lookup(h11, "x-stainless-runtime"@, "node"@, "x-stainless-lang"@);
        law_put_then_lookup(h12, "x-stainless-runtime-version"@, "v26.3.0"@, "x-stainless-lang"@);
        law_put_then_lookup(h13, "x-stainless-timeout"@, "600"@, "x-stainless-lang"@);
        if let Some(agent) = who.agent() {
            law_put_then_lookup(h14, in_small("x-"@, "-code-agent-id"@), agent, "x-stainless-lang"@);
        }
    }
    assert(lookup(last, "x-stainless-os"@) == Some(stainless_os)) by {
        law_put_then_lookup(h8, "x-stainless-os"@, stainless_os, "x-stainless-os"@);
        law_put_then_lookup(h9, "x-stainless-package-version"@, "0.94.0"@, "x-stainless-os"@);
        law_put_then_lookup(h10, "x-stainless-retry-count"@, "0"@, "x-stainless-os"@);
        law_put_then_lookup(h11, "x-stainless-runtime"@, "node"@, "x-stainless-os"@);
        law_put_then_lookup(h12, "x-stainless-runtime-version"@, "v26.3.0"@, "x-stainless-os"@);
        law_put_then_lookup(h13, "x-stainless-timeout"@, "600"@, "x-stainless-os"@);
        if let Some(agent) = who.agent() {
            law_put_then_lookup(h14, in_small("x-"@, "-code-agent-id"@), agent, "x-stainless-os"@);
        }
    }
    assert(lookup(last, "x-stainless-package-version"@) == Some("0.94.0"@)) by {
        law_put_then_lookup(h9, "x-stainless-package-version"@, "0.94.0"@, "x-stainless-package-version"@);
        law_put_then_lookup(h10, "x-stainless-retry-count"@, "0"@, "x-stainless-package-version"@);
        law_put_then_lookup(h11, "x-stainless-runtime"@, "node"@, "x-stainless-package-version"@);
        law_put_then_lookup(h12, "x-stainless-runtime-version"@, "v26.3.0"@, "x-stainless-package-version"@);
        law_put_then_lookup(h13, "x-stainless-timeout"@, "600"@, "x-stainless-package-version"@);
        if let Some(agent) = who.agent() {
            law_put_then_lookup(h14, in_small("x-"@, "-code-agent-id"@), agent, "x-stainless-package-version"@);
        }
    }
    assert(lookup(last, "x-stainless-retry-count"@) == Some("0"@)) by {
        law_put_then_lookup(h10, "x-stainless-retry-count"@, "0"@, "x-stainless-retry-count"@);
        law_put_then_lookup(h11, "x-stainless-runtime"@, "node"@, "x-stainless-retry-count"@);
        law_put_then_lookup(h12, "x-stainless-runtime-version"@, "v26.3.0"@, "x-stainless-retry-count"@);
        law_put_then_lookup(h13, "x-stainless-timeout"@, "600"@, "x-stainless-retry-count"@);
        if let Some(agent) = who.agent() {
            law_put_then_lookup(h14, in_small("x-"@, "-code-agent-id"@), agent, "x-stainless-retry-count"@);
        }
    }
    assert(lookup(last, "x-stainless-runtime"@) == Some("node"@)) by {
        law_put_then_lookup(h11, "x-stainless-runtime"@, "node"@, "x-stainless-runtime"@);
        law_put_then_lookup(h12, "x-stainless-runtime-version"@, "v26.3.0"@, "x-stainless-runtime"@);
        law_put_then_lookup(h13, "x-stainless-timeout"@, "600"@, "x-stainless-runtime"@);
        if let Some(agent) = who.agent() {
            law_put_then_lookup(h14, in_small("x-"@, "-code-agent-id"@), agent, "x-stainless-runtime"@);
        }
    }
    assert(lookup(last, "x-stainless-runtime-version"@) == Some("v26.3.0"@)) by {
        law_put_then_lookup(h12, "x-stainless-runtime-version"@, "v26.3.0"@, "x-stainless-runtime-version"@);
        law_put_then_lookup(h13, "x-stainless-timeout"@, "600"@, "x-stainless-runtime-version"@);
        if let Some(agent) = who.agent() {
            law_put_then_lookup(h14, in_small("x-"@, "-code-agent-id"@), agent, "x-stainless-runtime-version"@);
        }
    }
    assert(lookup(last, "x-stainless-timeout"@) == Some("600"@)) by {
        law_put_then_lookup(h13, "x-stainless-timeout"@, "600"@, "x-stainless-timeout"@);
        if let Some(agent) = who.agent() {
            law_put_then_lookup(h14, in_small("x-"@, "-code-agent-id"@), agent, "x-stainless-timeout"@);
        }
    }
    assert(lookup(last, in_small("x-"@, "-code-agent-id"@)) == who.agent()) by {
        let own = in_small("x-"@, "-code-agent-id"@);
        lemma_lookup_none(Seq::<(Seq<char>, Seq<char>)>::empty(), own);
        law_put_then_lookup(Seq::<(Seq<char>, Seq<char>)>::empty(), "User-Agent"@, in_small(""@, "-cli/"@) + version + " (external, cli)"@, own);
        law_put_then_lookup(h0, "accept"@, "application/json"@, own);
        law_put_then_lookup(h1, "anthropic-beta"@, betas, own);
        law_put_then_lookup(h2, "anthropic-dangerous-direct-browser-access"@, "true"@, own);
        law_put_then_lookup(h3, "anthropic-version"@, "2023-06-01"@, own);
        law_put_then_lookup(h4, "x-app"@, "cli"@, own);
        law_put_then_lookup(h5, in_small("x-"@, "-code-session-id"@), who.session_id, own);
        law_put_then_lookup(h6, "x-stainless-arch"@, stainless_arch, own);
        law_put_then_lookup(h7, "x-stainless-lang"@, "js"@, own);
        law_put_then_lookup(h8, "x-stainless-os"@, stainless_os, own);
        law_put_then_lookup(h9, "x-stainless-package-version"@, "0.94.0"@, own);
        law_put_then_lookup(h10, "x-stainless-retry-count"@, "0"@, own);
        law_put_then_lookup(h11, "x-stainless-runtime"@, "node"@, own);
        law_put_then_lookup(h12, "x-stainless-runtime-version"@, "v26.3.0"@, own);
        law_put_then_lookup(h13, "x-stainless-timeout"@, "600"@, own);
        if let Some(agent) = who.agent() {
            law_put_then_lookup(h14, own, agent, own);
        }
    }
}

/// A plain request is posted to the messages of the provider and says which version
/// sends it, in which session, and what it may use.
pub proof fn law_plain_headers(codex_version: Seq<char>, session_id: Seq<char>)
    ensures
        ({
            let transport = native_transport(codex_version, session_id);
            &&& transport.method == "POST"@
            &&& transport.path == "/v1/messages"@
            &&& transport.query.len() == 1
            &&& transport.query[0] == ("beta"@, "true"@)
            &&& lookup(transport.headers, "User-Agent"@) == Some("codex-cli/"@ + codex_version)
            &&& lookup(transport.headers, "anthropic-beta"@) == Some(native_betas())
            &&& lookup(transport.headers, "anthropic-version"@) == Some("2023-06-01"@)
            &&& lookup(transport.headers, "x-app"@) == Some("codex"@)
            &&& lookup(transport.headers, in_small("x-"@, "-code-session-id"@)) == Some(session_id)
        }),
{
    lemma_header_names();
    lemma_own_names();
    let h0 = put(Seq::<(Seq<char>, Seq<char>)>::empty(), "User-Agent"@, "codex-cli/"@ + codex_version);
    let h1 = put(h0, "anthropic-beta"@, native_betas());
    let h2 = put(h1, "anthropic-version"@, "2023-06-01"@);
    let h3 = put(h2, "x-app"@, "codex"@);
    let h4 = put(h3, in_small("x-"@, "-code-session-id"@), session_id);
    law_put_then_lookup(Seq::<(Seq<char>, Seq<char>)>::empty(), "User-Agent"@, "codex-cli/"@ + codex_version, "User-Agent"@);
    law_put_then_lookup(h0, "anthropic-beta"@, native_betas(), "User-Agent"@);
    law_put_then_lookup(h1, "anthropic-version"@, "2023-06-01"@, "User-Agent"@);
    law_put_then_lookup(h2, "x-app"@, "codex"@, "User-Agent"@);
    law_put_then_lookup(h3, in_small("x-"@, "-code-session-id"@), session_id, "User-Agent"@);
    law_put_then_lookup(h0, "anthropic-beta"@, native_betas(), "anthropic-beta"@);
    law_put_then_lookup(h1, "anthropic-version"@, "2023-06-01"@, "anthropic-beta"@);
    law_put_then_lookup(h2, "x-app"@, "codex"@, "anthropic-beta"@);
    law_put_then_lookup(h3, in_small("x-"@, "-code-session-id"@), session_id, "anthropic-beta"@);
    law_put_then_lookup(h1, "anthropic-version"@, "2023-06-01"@, "anthropic-version"@);
    law_put_then_lookup(h2, "x-app"@, "codex"@, "anthropic-version"@);
    law_put_then_lookup(h3, in_small("x-"@, "-code-session-id"@), session_id, "anthropic-version"@);
    law_put_then_lookup(h2, "x-app"@, "codex"@, "x-app"@);
    law_put_then_lookup(h3, in_small("x-"@, "-code-session-id"@), session_id, "x-app"@);
    law_put_then_lookup(h3, in_small("x-"@, "-code-session-id"@), session_id, in_small("x-"@, "-code-session-id"@));
}

proof fn lemma_query(query: Seq<(Seq<char>, Seq<char>)>, more: (Seq<char>, Seq<char>), at: int, done: Seq<char>)
    requires
        0 <= at <= query.len(),
    ensures
        query_from(query.push(more), at, done) == query_from(query, at, done) + if query.len() == 0 {
            "?"@
        } else {
            "&"@
        } + more.0 + "="@ + more.1,
    decreases query.len() - at,
{
    let all = query.push(more);
    if at < query.len() {
        assert(all[at] == query[at]);
        lemma_query(
            query,
            more,
            at + 1,
            done + if at == 0 {
                "?"@
            } else {
                "&"@
            } + query[at].0 + "="@ + query[at].1,
        );
    } else {
        reveal_with_fuel(query_from, 2);
        assert(all[at] == more);
    }
}

/// A request goes to its path, with every parameter behind it as a name and a value.
pub proof fn law_the_path_has_every_parameter(request: AssembledRequestModel, more: (Seq<char>, Seq<char>))
    ensures
        ({
            let with = AssembledRequestModel {
                transport: RequestTransportModel { query: request.transport.query.push(more), ..request.transport },
                ..request
            };
            path_with_query(with) == path_with_query(request) + if request.transport.query.len() == 0 {
                "?"@
            } else {
                "&"@
            } + more.0 + "="@ + more.1
        }),
        request.transport.query.len() == 0 ==> path_with_query(request) == request.transport.path,
{
    lemma_query(request.transport.query, more, 0, request.transport.path);
}

proof fn lemma_headers(
    headers: Seq<(Seq<char>, Seq<char>)>,
    more: (Seq<char>, Seq<char>),
    at: int,
    done: Seq<(Seq<char>, Seq<char>)>,
)
    requires
        0 <= at <= headers.len(),
    ensures
        headers_from(headers.push(more), at, done) == match headers_from(headers, at, done) {
            Err(error) => Err(error),
            Ok(there) => match header_name_of(more.0) {
                Err(message) => Err(NativeStreamErrorModel::InvalidRequest(message)),
                Ok(name) => match header_value_refusal(more.1) {
                    Some(message) => Err(NativeStreamErrorModel::InvalidRequest(message)),
                    None => Ok(put(there, name, more.1)),
                },
            },
        },
    decreases headers.len() - at,
{
    let all = headers.push(more);
    if at < headers.len() {
        assert(all[at] == headers[at]);
        if let Ok(name) = header_name_of(headers[at].0) {
            if header_value_refusal(headers[at].1) is None {
                lemma_headers(headers, more, at + 1, put(done, name, headers[at].1));
            }
        }
    } else {
        reveal_with_fuel(headers_from, 2);
        assert(all[at] == more);
    }
}

/// Every header is sent with its value, under the name it has on the wire; a later
/// one stands in for an earlier one of the same name. One that cannot be sent has
/// the request refused.
pub proof fn law_every_header_is_sent(
    headers: Seq<(Seq<char>, Seq<char>)>,
    more: (Seq<char>, Seq<char>),
    other: Seq<char>,
)
    ensures
        ({
            let before = headers_from(headers, 0, Seq::empty());
            let after = headers_from(headers.push(more), 0, Seq::empty());
            let name = header_name_of(more.0);
            &&& after is Ok <==> before is Ok && name is Ok && header_value_refusal(more.1) is None
            &&& after matches Ok(sent) ==> {
                &&& lookup(sent, name->Ok_0) == Some(more.1)
                &&& other != name->Ok_0 ==> lookup(sent, other) == lookup(before->Ok_0, other)
            }
            &&& after matches Err(error) ==> error is InvalidRequest
        }),
    decreases headers.len(),
{
    lemma_headers(headers, more, 0, Seq::empty());
    if let Ok(there) = headers_from(headers, 0, Seq::empty()) {
        if let Ok(name) = header_name_of(more.0) {
            law_put_then_lookup(there, name, more.1, other);
        }
    } else if headers.len() > 0 {
        assert(headers.drop_last().push(headers.last()) =~= headers);
        law_every_header_is_sent(headers.drop_last(), headers.last(), other);
    }
}

// ---- what a profile tells the model ----

/// Whether a text tells where the model runs and what it is.
pub open spec fn tells_of(text: Seq<char>, environment: ClaudeCodeEnvironmentModel, model: ClaudeCodePromptModel) -> bool {
    &&& occurs(text, environment.cwd)
    &&& occurs(text, environment.platform)
    &&& occurs(text, environment.shell)
    &&& occurs(text, environment.os_version)
    &&& occurs(text, model.name())
    &&& occurs(text, model.id())
    &&& occurs(text, model.cutoff())
}

proof fn lemma_root_tells(environment: ClaudeCodeEnvironmentModel, model: ClaudeCodePromptModel)
    ensures
        tells_of(root_environment(environment, model), environment, model),
{
    let git = if environment.is_git_repository {
        "true"@
    } else {
        "false"@
    };
    let t0 = "# Environment\nYou have been invoked in the following environment: \n - Primary working directory: "@;
    let t1 = t0 + environment.cwd;
    let t2 = t1 + "\n - Is a git repository: "@;
    let t3 = t2 + git;
    let t4 = t3 + "\n - Platform: "@;
    let t5 = t4 + environment.platform;
    let t6 = t5 + "\n - Shell: "@;
    let t7 = t6 + environment.shell;
    let t8 = t7 + "\n - OS Version: "@;
    let t9 = t8 + environment.os_version;
    let t10 = t9 + "\n - You are powered by the model named "@;
    let t11 = t10 + model.name();
    let t12 = t11 + ". The exact model ID is "@;
    let t13 = t12 + model.id();
    let t14 = t13 + ".\n - Assistant knowledge cutoff is "@;
    let t15 = t14 + model.cutoff();
    let t16 = t15 + models_note();
    lemma_occurs_itself(environment.cwd);
    lemma_occurs_longer(t0, environment.cwd, Seq::empty());
    lemma_occurs_longer(Seq::empty(), t0, environment.cwd);
    lemma_occurs_itself("\n - Is a git repository: "@);
    lemma_occurs_longer(t1, "\n - Is a git repository: "@, Seq::empty());
    lemma_occurs_longer(Seq::empty(), t1, "\n - Is a git repository: "@);
    lemma_occurs_itself(git);
    lemma_occurs_longer(t2, git, Seq::empty());
    lemma_occurs_longer(Seq::empty(), t2, git);
    lemma_occurs_itself("\n - Platform: "@);
    lemma_occurs_longer(t3, "\n - Platform: "@, Seq::empty());
    lemma_occurs_longer(Seq::empty(), t3, "\n - Platform: "@);
    lemma_occurs_itself(environment.platform);
    lemma_occurs_longer(t4, environment.platform, Seq::empty());
    lemma_occurs_longer(Seq::empty(), t4, environment.platform);
    lemma_occurs_itself("\n - Shell: "@);
    lemma_occurs_longer(t5, "\n - Shell: "@, Seq::empty());
    lemma_occurs_longer(Seq::empty(), t5, "\n - Shell: "@);
    lemma_occurs_itself(environment.shell);
    lemma_occurs_longer(t6, environment.shell, Seq::empty());
    lemma_occurs_longer(Seq::empty(), t6, environment.shell);
    lemma_occurs_itself("\n - OS Version: "@);
    lemma_occurs_longer(t7, "\n - OS Version: "@, Seq::empty());
    lemma_occurs_longer(Seq::empty(), t7, "\n - OS Version: "@);
    lemma_occurs_itself(environment.os_version);
    lemma_occurs_longer(t8, environment.os_version, Seq::empty());
    lemma_occurs_longer(Seq::empty(), t8, environment.os_version);
    lemma_occurs_itself("\n - You are powered by the model named "@);
    lemma_occurs_longer(t9, "\n - You are powered by the model named "@, Seq::empty());
    lemma_occurs_longer(Seq::empty(), t9, "\n - You are powered by the model named "@);
    lemma_occurs_itself(model.name());
    lemma_occurs_longer(t10, model.name(), Seq::empty());
    lemma_occurs_longer(Seq::empty(), t10, model.name());
    lemma_occurs_itself(". The exact model ID is "@);
    lemma_occurs_longer(t11, ". The exact model ID is "@, Seq::empty());
    lemma_occurs_longer(Seq::empty(), t11, ". The exact model ID is "@);
    lemma_occurs_itself(model.id());
    lemma_occurs_longer(t12, model.id(), Seq::empty());
    lemma_occurs_longer(Seq::empty(), t12, model.id());
    lemma_occurs_itself(".\n - Assistant knowledge cutoff is "@);
    lemma_occurs_longer(t13, ".\n - Assistant knowledge cutoff is "@, Seq::empty());
    lemma_occurs_longer(Seq::empty(), t13, ".\n - Assistant knowledge cutoff is "@);
    lemma_occurs_itself(model.cutoff());
    lemma_occurs_longer(t14, model.cutoff(), Seq::empty());
    lemma_occurs_longer(Seq::empty(), t14, model.cutoff());
    lemma_occurs_itself(models_note());
    lemma_occurs_longer(t15, models_note(), Seq::empty());
    lemma_occurs_longer(Seq::empty(), t15, models_note());
    assert(t16 == root_environment(environment, model));
}

proof fn lemma_subagent_tells(environment: ClaudeCodeEnvironmentModel, model: ClaudeCodePromptModel)
    ensures
        tells_of(subagent_environment(environment, model), environment, model),
{
    let git = if environment.is_git_repository {
        "Yes"@
    } else {
        "No"@
    };
    let t0 = "Here is useful information about the environment you are running in:\n<env>\nWorking directory: "@;
    let t1 = t0 + environment.cwd;
    let t2 = t1 + "\nIs directory a git repo: "@;
    let t3 = t2 + git;
    let t4 = t3 + "\nPlatform: "@;
    let t5 = t4 + environment.platform;
    let t6 = t5 + "\nShell: "@;
    let t7 = t6 + environment.shell;
    let t8 = t7 + "\nOS Version: "@;
    let t9 = t8 + environment.os_version;
    let t10 = t9 + "\n</env>\nYou are powered by the model named "@;
    let t11 = t10 + model.name();
    let t12 = t11 + ". The exact model ID is "@;
    let t13 = t12 + model.id();
    let t14 = t13 + ".\n\nAssistant knowledge cutoff is "@;
    let t15 = t14 + model.cutoff();
    let t16 = t15 + "."@;
    lemma_occurs_itself(environment.cwd);
    lemma_occurs_longer(t0, environment.cwd, Seq::empty());
    lemma_occurs_longer(Seq::empty(), t0, environment.cwd);
    lemma_occurs_itself("\nIs directory a git repo: "@);
    lemma_occurs_longer(t1, "\nIs directory a git repo: "@, Seq::empty());
    lemma_occurs_longer(Seq::empty(), t1, "\nIs directory a git repo: "@);
    lemma_occurs_itself(git);
    lemma_occurs_longer(t2, git, Seq::empty());
    lemma_occurs_longer(Seq::empty(), t2, git);
    lemma_occurs_itself("\nPlatform: "@);
    lemma_occurs_longer(t3, "\nPlatform: "@, Seq::empty());
    lemma_occurs_longer(Seq::empty(), t3, "\nPlatform: "@);
    lemma_occurs_itself(environment.platform);
    lemma_occurs_longer(t4, environment.platform, Seq::empty());
    lemma_occurs_longer(Seq::empty(), t4, environment.platform);
    lemma_occurs_itself("\nShell: "@);
    lemma_occurs_longer(t5, "\nShell: "@, Seq::empty());
    lemma_occurs_longer(Seq::empty(), t5, "\nShell: "@);
    lemma_occurs_itself(environment.shell);
    lemma_occurs_longer(t6, environment.shell, Seq::empty());
    lemma_occurs_longer(Seq::empty(), t6, environment.shell);
    lemma_occurs_itself("\nOS Version: "@);
    lemma_occurs_longer(t7, "\nOS Version: "@, Seq::empty());
    lemma_occurs_longer(Seq::empty(), t7, "\nOS Version: "@);
    lemma_occurs_itself(environment.os_version);
    lemma_occurs_longer(t8, environment.os_version, Seq::empty());
    lemma_occurs_longer(Seq::empty(), t8, environment.os_version);
    lemma_occurs_itself("\n</env>\nYou are powered by the model named "@);
    lemma_occurs_longer(t9, "\n</env>\nYou are powered by the model named "@, Seq::empty());
    lemma_occurs_longer(Seq::empty(), t9, "\n</env>\nYou are powered by the model named "@);
    lemma_occurs_itself(model.name());
    lemma_occurs_longer(t10, model.name(), Seq::empty());
    lemma_occurs_longer(Seq::empty(), t10, model.name());
    lemma_occurs_itself(". The exact model ID is "@);
    lemma_occurs_longer(t11, ". The exact model ID is "@, Seq::empty());
    lemma_occurs_longer(Seq::empty(), t11, ". The exact model ID is "@);
    lemma_occurs_itself(model.id());
    lemma_occurs_longer(t12, model.id(), Seq::empty());
    lemma_occurs_longer(Seq::empty(), t12, model.id());
    lemma_occurs_itself(".\n\nAssistant knowledge cutoff is "@);
    lemma_occurs_longer(t13, ".\n\nAssistant knowledge cutoff is "@, Seq::empty());
    lemma_occurs_longer(Seq::empty(), t13, ".\n\nAssistant knowledge cutoff is "@);
    lemma_occurs_itself(model.cutoff());
    lemma_occurs_longer(t14, model.cutoff(), Seq::empty());
    lemma_occurs_longer(Seq::empty(), t14, model.cutoff());
    lemma_occurs_itself("."@);
    lemma_occurs_longer(t15, "."@, Seq::empty());
    lemma_occurs_longer(Seq::empty(), t15, "."@);
    assert(t16 == subagent_environment(environment, model));
}

/// The instructions of a profile are three texts: who pays, who the model is, and what
/// it is to do, which tells where it runs and what it is. The last two are marked for
/// the cache.
pub proof fn law_profiles_tell_of_the_environment(
    subagent: bool,
    environment: ClaudeCodeEnvironmentModel,
    model: ClaudeCodePromptModel,
)
    ensures
        ({
            let system = profile_system(subagent, environment, model);
            let marked = Some(CacheControl::Ephemeral { ttl: None });
            &&& system.len() == 3
            &&& system[0]->cache_control is None
            &&& system[1]->cache_control == marked
            &&& system[2]->cache_control == marked
            &&& tells_of(system[2]->text, environment, model)
        }),
{
    lemma_root_tells(environment, model);
    lemma_subagent_tells(environment, model);
    let root = root_environment(environment, model);
    let sub = subagent_environment(environment, model);
    lemma_occurs_longer(ROOT_PROMPT_HEAD@, root, ROOT_PROMPT_TAIL@);
    lemma_occurs_longer(subagent_head(), sub, SUBAGENT_PROMPT_TAIL@);
}

/// A request under a profile is sent as a client of the profile's kind and session, on
/// the system and with the processor that it runs on, by the names that clients have
/// for these.
pub proof fn law_profile_headers(context: OpusCompatibilityContextModel)
    ensures
        ({
            let transport = context.request_transport();
            let platform = context.environment.platform;
            let architecture = context.environment.architecture;
            &&& transport.method == "POST"@
            &&& transport.path == "/v1/messages"@
            &&& lookup(transport.headers, in_small("x-"@, "-code-session-id"@)) == Some(context.session_id)
            &&& lookup(transport.headers, in_small("x-"@, "-code-agent-id"@)) is Some <==> context.kind is Subagent
            &&& lookup(transport.headers, "x-stainless-os"@) == Some(
                if platform == "linux"@ {
                    "Linux"@
                } else if platform == "macos"@ {
                    "MacOS"@
                } else if platform == "windows"@ {
                    "Windows"@
                } else {
                    platform
                },
            )
            &&& lookup(transport.headers, "x-stainless-arch"@) == Some(
                if architecture == "x86_64"@ {
                    "x64"@
                } else if architecture == "aarch64"@ {
                    "arm64"@
                } else {
                    architecture
                },
            )
        }),
{
    law_client_headers(
        context.who(),
        CLAUDE_CODE_VERSION@,
        profile_betas(),
        os_header(context.environment.platform),
        arch_header(context.environment.architecture),
    );
}

/// A model whose profile is not required is asked under it where one is given, and
/// keeps its own instructions where that has no prompt.
pub proof fn law_given_profiles_are_used(
    config: ModelInferenceConfigModel,
    profile: ClaudeRequestProfileModel,
    effort: ReasoningEffortModel,
    messages: Seq<MessageModel>,
    system: Seq<SystemBlockModel>,
    tools: Seq<ToolSpecModel>,
    resumable_session_id: Seq<char>,
    codex_version: Seq<char>,
    opus_context: Option<OpusCompatibilityContextModel>,
    context: SonnetCompatibilityContextModel,
)
    requires
        profile_of(config) == Some(profile),
        profile.wire_model == sonnet_model(),
        profile.wire_model != opus_model(),
        tools.len() <= usize::MAX,
    ensures
        assembled(
            config,
            effort,
            messages,
            system,
            tools,
            resumable_session_id,
            codex_version,
            opus_context,
            Some(context),
        ) matches Ok(request) ==> {
            &&& request.transport == context.request_transport()
            &&& request.body.model == profile.wire_model
            &&& request.body.stream
            &&& all_say_the_same(messages, request.body.messages)
            &&& request.body.tools.len() == tools.len()
            &&& forall|i: int| 0 <= i < tools.len() ==> same_tool(#[trigger] tools[i], request.body.tools[i])
            &&& context.prompt is None ==> same_instructions(system, request.body.system)
                && request.body.max_tokens == profile.max_output_tokens && request.body.metadata is None
                && thinks_as_asked(profile.thinking, effort, request.body.thinking, request.body.output_config)
            &&& context.prompt is Some ==> request.body.system == profile_system(
                context.identity.kind is Subagent,
                context.prompt->0.environment,
                ClaudeCodePromptModel::Sonnet5,
            ) && request.body.max_tokens == 64_000 && request.body.thinking is Adaptive && request.body.metadata
                == Some(profile_metadata(context.prompt->0.installation_id, context.identity.session_id))
        },
{
    lemma_tools(tools, 0, Seq::empty());
    law_breakpoints_change_nothing_else(messages, default_breakpoint());
    law_breakpoints_change_nothing_else(messages, one_hour());
}

/// What a request is for is told as JSON: the session, the device, which follows from
/// the installation, and no account.
pub proof fn law_metadata_names_the_session(installation_id: Seq<char>, session_id: Seq<char>)
    ensures
        ({
            let device = hex_text(stable_id("device-1"@, installation_id)) + hex_text(
                stable_id("device-2"@, installation_id),
            );
            exists|json: JsonModel|
                {
                    &&& profile_metadata(installation_id, session_id).user_id == Some(#[trigger] json_print(json))
                    &&& member(json, "session_id"@) == Some(JsonModel::Text(session_id))
                    &&& member(json, "device_id"@) == Some(JsonModel::Text(device))
                    &&& member(json, "account_uuid"@) == Some(JsonModel::Text(""@))
                }
        }),
{
    lemma_metadata_names();
    let device = hex_text(stable_id("device-1"@, installation_id)) + hex_text(
        stable_id("device-2"@, installation_id),
    );
    let entries = seq![
        ("account_uuid"@, JsonModel::Text(""@)),
        ("device_id"@, JsonModel::Text(device)),
        ("session_id"@, JsonModel::Text(session_id)),
    ];
    lemma_lookup_at(entries, 0);
    lemma_lookup_at(entries, 1);
    lemma_lookup_at(entries, 2);
    let json = JsonModel::Object(entries);
    assert(profile_metadata(installation_id, session_id).user_id == Some(json_print(json)));
}

proof fn lemma_metadata_names()
    ensures
        "account_uuid"@ != "device_id"@,
        "account_uuid"@ != "session_id"@,
        "device_id"@ != "session_id"@,
{
    reveal_strlit("account_uuid");
    reveal_strlit("device_id");
    reveal_strlit("session_id");
    assert("account_uuid"@.len() != "device_id"@.len());
    assert("account_uuid"@.len() != "session_id"@.len());
    assert("device_id"@.len() != "session_id"@.len());
}

} // verus!
