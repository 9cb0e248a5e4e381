//! What a dialect adds to requests and reads from responses.
use crate::chat_completions::types::{ChunkUsage, ChunkUsageModel, FinishReason, UsageDetails};
use crate::fields::StringMap;
use crate::json::{Json, JsonModel};
use crate::model::{outcome, Duplicate};
use crate::protocol::{InferenceDialect, TerminalOutcome};
use crate::text::concat;
use vstd::prelude::*;

verus! {

/// Exact resolved dialect and native model supplied to every dialect hook.
#[derive(Debug, Clone, Copy, PartialEq, Eq)]
pub struct DialectContext<'a> {
    pub dialect: InferenceDialect,
    pub model: &'a str,
}

/// The model of [`DialectContext`].
pub struct DialectContextModel {
    pub dialect: InferenceDialect,
    pub model: Seq<char>,
}

impl<'a> DeepView for DialectContext<'a> {
    type V = DialectContextModel;

    open spec fn deep_view(&self) -> DialectContextModel {
        DialectContextModel { dialect: self.dialect, model: self.model@ }
    }
}

/// Provider provenance for opaque canonical reasoning material.
#[derive(Debug, Clone, Copy, PartialEq, Eq)]
pub enum OpaqueReasoning<'a> {
    /// There is none.
    Absent,
    /// Material of some provider.
    Other(&'a str),
}

/// The model of [`OpaqueReasoning`].
pub enum OpaqueReasoningModel {
    /// There is none.
    Absent,
    /// Material of some provider.
    Other(Seq<char>),
}

impl<'a> DeepView for OpaqueReasoning<'a> {
    type V = OpaqueReasoningModel;

    open spec fn deep_view(&self) -> OpaqueReasoningModel {
        match self {
            OpaqueReasoning::Absent => OpaqueReasoningModel::Absent,
            OpaqueReasoning::Other(text) => OpaqueReasoningModel::Other(text@),
        }
    }
}

/// Canonical reasoning material offered for replay in one assistant message.
#[derive(Debug, Clone, Copy)]
pub struct AssistantReasoningReplay<'a> {
    pub visible: &'a [String],
    pub opaque: OpaqueReasoning<'a>,
}

/// The model of [`AssistantReasoningReplay`].
pub struct AssistantReasoningReplayModel {
    pub visible: Seq<Seq<char>>,
    pub opaque: OpaqueReasoningModel,
}

impl<'a> DeepView for AssistantReasoningReplay<'a> {
    type V = AssistantReasoningReplayModel;

    open spec fn deep_view(&self) -> AssistantReasoningReplayModel {
        AssistantReasoningReplayModel { visible: self.visible.deep_view(), opaque: self.opaque.deep_view() }
    }
}

/// Reasoning in a streamed delta, and the field it came from.
#[derive(Debug, Clone, PartialEq, Eq)]
pub struct ReasoningDelta {
    pub text: String,
    pub provenance: String,
}

/// The model of [`ReasoningDelta`].
#[verifier::ext_equal]
pub struct ReasoningDeltaModel {
    pub text: Seq<char>,
    pub provenance: Seq<char>,
}

impl DeepView for ReasoningDelta {
    type V = ReasoningDeltaModel;

    open spec fn deep_view(&self) -> ReasoningDeltaModel {
        ReasoningDeltaModel {
            text: self.text.deep_view(),
            provenance: self.provenance.deep_view(),
        }
    }
}

impl Duplicate for ReasoningDelta {
    fn duplicate(&self) -> (copy: Self) {
        ReasoningDelta {
            text: self.text.duplicate(),
            provenance: self.provenance.duplicate(),
        }
    }
}

/// Controls how streamed usage reports are combined by the generic decoder.
///
/// The policy applies both to choice-level versus top-level usage within one
/// chunk and to usage reported by successive chunks. Providers should select
/// `PreferLatest` only when their protocol defines later reports as authoritative.
#[derive(Debug, Clone, Copy, PartialEq, Eq, Structural)]
pub enum UsageMergePolicy {
    /// Repeated decoded usage must be identical.
    RequireIdentical,
    /// Replace prior usage with the most recently decoded report.
    PreferLatest,
}

impl DeepView for UsageMergePolicy {
    type V = UsageMergePolicy;

    open spec fn deep_view(&self) -> UsageMergePolicy {
        *self
    }
}

impl Duplicate for UsageMergePolicy {
    fn duplicate(&self) -> (copy: Self) {
        *self
    }
}

/// What a dialect refuses.
#[derive(Debug, Clone, PartialEq, Eq)]
pub enum DialectError {
    /// Reasoning that cannot be replayed.
    MalformedReplay(String),
    /// A field that cannot be added to a request.
    InvalidRequestExtension(String),
    /// A field of a response that cannot be read.
    InvalidResponseExtension(String),
}

/// The model of [`DialectError`].
#[verifier::ext_equal]
pub enum DialectErrorModel {
    MalformedReplay(Seq<char>),
    InvalidRequestExtension(Seq<char>),
    InvalidResponseExtension(Seq<char>),
}

impl DeepView for DialectError {
    type V = DialectErrorModel;

    open spec fn deep_view(&self) -> DialectErrorModel {
        match self {
            DialectError::MalformedReplay(inner) => DialectErrorModel::MalformedReplay(inner.deep_view()),
            DialectError::InvalidRequestExtension(inner) => {
                DialectErrorModel::InvalidRequestExtension(inner.deep_view())
            },
            DialectError::InvalidResponseExtension(inner) => {
                DialectErrorModel::InvalidResponseExtension(inner.deep_view())
            },
        }
    }
}

impl Duplicate for DialectError {
    fn duplicate(&self) -> (copy: Self) {
        match self {
            DialectError::MalformedReplay(inner) => DialectError::MalformedReplay(inner.duplicate()),
            DialectError::InvalidRequestExtension(inner) => DialectError::InvalidRequestExtension(inner.duplicate()),
            DialectError::InvalidResponseExtension(inner) => DialectError::InvalidResponseExtension(inner.duplicate()),
        }
    }
}

impl Default for UsageMergePolicy {
    /// Strict conflict rejection.
    fn default() -> (policy: Self)
        ensures
            policy == UsageMergePolicy::RequireIdentical,
    {
        UsageMergePolicy::RequireIdentical
    }
}

impl DialectErrorModel {
    /// The message of the error.
    pub open spec fn text(self) -> Seq<char> {
        match self {
            DialectErrorModel::MalformedReplay(message) => "malformed assistant reasoning replay: "@ + message,
            DialectErrorModel::InvalidRequestExtension(message) => "invalid request extension: "@ + message,
            DialectErrorModel::InvalidResponseExtension(message) => "invalid streamed response extension: "@
                + message,
        }
    }
}

impl DialectError {
    /// The message of the error.
    pub fn message(&self) -> (message: String)
        ensures
            message@ == self.deep_view().text(),
    {
        match self {
            DialectError::MalformedReplay(message) => concat("malformed assistant reasoning replay: ", message),
            DialectError::InvalidRequestExtension(message) => concat("invalid request extension: ", message),
            DialectError::InvalidResponseExtension(message) => concat(
                "invalid streamed response extension: ",
                message,
            ),
        }
    }
}

/// The dialect's own fields of a message, a request or a usage report.
pub type Extensions = Seq<(Seq<char>, JsonModel)>;

/// Adds dialect-owned request fields and replays dialect-owned assistant reasoning.
///
/// Implementations must decide behavior exclusively from the supplied resolved
/// context and replay data: what each hook answers is a function of the dialect
/// and of what the hook is given, and that function is named beside it.
/// Model-name inference is deliberately outside this contract.
pub trait DialectHooks {
    /// What [`DialectHooks::request_extensions`] answers; like all answers, not
    /// known where a dialect does not say.
    open spec fn extensions_for(&self, context: DialectContextModel) -> Result<Extensions, DialectErrorModel> {
        arbitrary()
    }

    /// What [`DialectHooks::assistant_reasoning`] answers.
    open spec fn reasoning_for(
        &self,
        context: DialectContextModel,
        replay: AssistantReasoningReplayModel,
    ) -> Result<Extensions, DialectErrorModel> {
        arbitrary()
    }

    /// What [`DialectHooks::reasoning_delta`] answers.
    open spec fn delta_for(
        &self,
        context: DialectContextModel,
        extensions: Extensions,
    ) -> Result<Option<ReasoningDeltaModel>, DialectErrorModel> {
        arbitrary()
    }

    /// What [`DialectHooks::finish_reason`] answers.
    open spec fn outcome_for(
        &self,
        context: DialectContextModel,
        reason: FinishReason,
    ) -> Result<TerminalOutcome, DialectErrorModel> {
        arbitrary()
    }

    /// What [`DialectHooks::usage_details`] answers.
    open spec fn details_for(
        &self,
        context: DialectContextModel,
        usage: ChunkUsageModel,
    ) -> Result<UsageDetails, DialectErrorModel> {
        arbitrary()
    }

    /// What [`DialectHooks::usage_merge_policy`] answers.
    open spec fn policy_for(&self, context: DialectContextModel) -> Result<UsageMergePolicy, DialectErrorModel> {
        arbitrary()
    }

    /// The fields that the dialect adds to a request.
    fn request_extensions(&self, context: DialectContext<'_>) -> (fields: Result<StringMap<Json>, DialectError>)
        ensures
            outcome(fields) == self.extensions_for(context.deep_view()),
    ;

    /// The fields that replay reasoning in an assistant message.
    fn assistant_reasoning(&self, context: DialectContext<'_>, replay: AssistantReasoningReplay<'_>) -> (fields: Result<
        StringMap<Json>,
        DialectError,
    >)
        ensures
            outcome(fields) == self.reasoning_for(context.deep_view(), replay.deep_view()),
    ;

    /// The reasoning that a streamed delta holds in the dialect's own fields.
    fn reasoning_delta(&self, context: DialectContext<'_>, extensions: &StringMap<Json>) -> (delta: Result<
        Option<ReasoningDelta>,
        DialectError,
    >)
        ensures
            outcome(delta) == self.delta_for(context.deep_view(), extensions.deep_view()),
    ;

    /// How a response ended that gave this finish reason.
    fn finish_reason(&self, context: DialectContext<'_>, reason: FinishReason) -> (end: Result<
        TerminalOutcome,
        DialectError,
    >)
        ensures
            outcome(end) == self.outcome_for(context.deep_view(), reason),
    ;

    /// The token counts that the dialect reads from reported usage.
    fn usage_details(&self, context: DialectContext<'_>, usage: &ChunkUsage) -> (details: Result<
        UsageDetails,
        DialectError,
    >)
        ensures
            outcome(details) == self.details_for(context.deep_view(), usage.deep_view()),
    ;

    /// Selects usage precedence for the exact resolved dialect and model.
    fn usage_merge_policy(&self, context: DialectContext<'_>) -> (policy: Result<UsageMergePolicy, DialectError>)
        ensures
            outcome(policy) == self.policy_for(context.deep_view()),
    ;
}

/// The answer of a response hook that a dialect does not have.
pub open spec fn hook_unavailable() -> DialectErrorModel {
    DialectErrorModel::InvalidResponseExtension("response hook is not implemented"@)
}

/// The answer of a response hook that a dialect does not have.
pub fn response_hook_unavailable() -> (error: DialectError)
    ensures
        error.deep_view() == hook_unavailable(),
{
    DialectError::InvalidResponseExtension("response hook is not implemented".to_owned())
}

/// A dialect that adds nothing to requests and has no response hooks. Usage
/// conflicts are rejected strictly.
#[derive(Debug, Clone, Copy)]
pub struct PlainDialect;

impl DialectHooks for PlainDialect {
    open spec fn extensions_for(&self, context: DialectContextModel) -> Result<Extensions, DialectErrorModel> {
        Ok(Seq::empty())
    }

    open spec fn reasoning_for(
        &self,
        context: DialectContextModel,
        replay: AssistantReasoningReplayModel,
    ) -> Result<Extensions, DialectErrorModel> {
        Ok(Seq::empty())
    }

    open spec fn delta_for(
        &self,
        context: DialectContextModel,
        extensions: Extensions,
    ) -> Result<Option<ReasoningDeltaModel>, DialectErrorModel> {
        Err(hook_unavailable())
    }

    open spec fn outcome_for(
        &self,
        context: DialectContextModel,
        reason: FinishReason,
    ) -> Result<TerminalOutcome, DialectErrorModel> {
        Err(hook_unavailable())
    }

    open spec fn details_for(
        &self,
        context: DialectContextModel,
        usage: ChunkUsageModel,
    ) -> Result<UsageDetails, DialectErrorModel> {
        Err(hook_unavailable())
    }

    open spec fn policy_for(&self, context: DialectContextModel) -> Result<UsageMergePolicy, DialectErrorModel> {
        Ok(UsageMergePolicy::RequireIdentical)
    }

    fn request_extensions(&self, context: DialectContext<'_>) -> (fields: Result<StringMap<Json>, DialectError>) {
        Ok(StringMap::new())
    }

    fn assistant_reasoning(&self, context: DialectContext<'_>, replay: AssistantReasoningReplay<'_>) -> (fields: Result<
        StringMap<Json>,
        DialectError,
    >) {
        Ok(StringMap::new())
    }

    fn reasoning_delta(&self, context: DialectContext<'_>, extensions: &StringMap<Json>) -> (delta: Result<
        Option<ReasoningDelta>,
        DialectError,
    >) {
        Err(response_hook_unavailable())
    }

    fn finish_reason(&self, context: DialectContext<'_>, reason: FinishReason) -> (end: Result<
        TerminalOutcome,
        DialectError,
    >) {
        Err(response_hook_unavailable())
    }

    fn usage_details(&self, context: DialectContext<'_>, usage: &ChunkUsage) -> (details: Result<
        UsageDetails,
        DialectError,
    >) {
        Err(response_hook_unavailable())
    }

    fn usage_merge_policy(&self, context: DialectContext<'_>) -> (policy: Result<UsageMergePolicy, DialectError>) {
        Ok(UsageMergePolicy::RequireIdentical)
    }
}

} // verus!
