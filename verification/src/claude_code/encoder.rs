//! The encoder of a conversation into a complete native request.
use crate::claude_code::history::{encode_history, native_history};
use crate::claude_code::names::{in_title, spell_title};
use crate::claude_code::opus_compatibility::{OpusCompatibilityContext, OpusCompatibilityContextModel};
use crate::claude_code::policy::{assemble_request, assembled, AssembleError, AssembleErrorModel, AssembleRequest};
use crate::claude_code::replay::{ReplayError, ReplayErrorModel};
use crate::claude_code::sonnet_compatibility::{SonnetCompatibilityContext, SonnetCompatibilityContextModel};
use crate::claude_code::types::{AssembledRequest, AssembledRequestModel, SystemBlock, SystemBlockModel};
use crate::json::Json;
use crate::model::{outcome, Duplicate};
use crate::protocol::{
    ModelInferenceConfig, ModelInferenceConfigModel, ReasoningEffort, ReasoningEffortModel, ResponseItem,
    ResponseItemModel, ToolSpec, ToolSpecModel,
};
use crate::text::{concat3, decimal, decimal_text};
use vstd::prelude::*;
use vstd::string::*;

verus! {

/// Canonical structured-output state for a Codex prompt.
#[derive(Debug, Clone, Copy)]
pub enum CanonicalOutputSchema<'a> {
    /// Plain output.
    Disabled,
    /// Output that follows a schema.
    JsonSchema { schema: &'a Json },
}

/// Canonical Codex inputs for one complete native request.
pub struct EncodeRequest<'a> {
    pub profile: &'a ModelInferenceConfig,
    pub effort: &'a ReasoningEffort,
    pub system: &'a [SystemBlock],
    pub history: &'a [ResponseItem],
    pub tools: &'a [ToolSpec],
    pub output_schema: CanonicalOutputSchema<'a>,
    pub resumable_session_id: &'a str,
    pub codex_version: &'a str,
    pub opus_compatibility: Option<&'a OpusCompatibilityContext>,
    pub sonnet_compatibility: Option<&'a SonnetCompatibilityContext>,
}

/// Why a conversation cannot be encoded.
#[derive(Debug, Clone, PartialEq, Eq)]
pub enum EncodeError {
    /// The request cannot be assembled.
    Assembly(AssembleError),
    /// An item that the protocol has no form for.
    UnsupportedHistoryItem {
        index: usize,
        kind: &'static str,
    },
    /// A part of a message that the protocol has no form for.
    UnsupportedContent {
        item_index: usize,
        block_index: usize,
        kind: &'static str,
    },
    /// Arguments of a tool call that are no JSON object.
    InvalidToolArguments {
        call_id: String,
        message: String,
    },
    /// An image that is no base64 data URL.
    InvalidImage {
        item_index: usize,
        block_index: usize,
        message: String,
    },
    /// A tool result without an open call.
    UnmatchedToolResult {
        call_id: String,
    },
    /// A second call under the name of an open one.
    DuplicateToolUse {
        call_id: String,
    },
    /// Output that follows a schema.
    UnsupportedStructuredOutput,
    /// Thinking that cannot be replayed.
    Replay(ReplayError),
}

/// The model of [`EncodeError`].
#[verifier::ext_equal]
pub enum EncodeErrorModel {
    Assembly(AssembleErrorModel),
    UnsupportedHistoryItem {
        index: usize,
        kind: Seq<char>,
    },
    UnsupportedContent {
        item_index: usize,
        block_index: usize,
        kind: Seq<char>,
    },
    InvalidToolArguments {
        call_id: Seq<char>,
        message: Seq<char>,
    },
    InvalidImage {
        item_index: usize,
        block_index: usize,
        message: Seq<char>,
    },
    UnmatchedToolResult {
        call_id: Seq<char>,
    },
    DuplicateToolUse {
        call_id: Seq<char>,
    },
    UnsupportedStructuredOutput,
    Replay(ReplayErrorModel),
}

impl DeepView for EncodeError {
    type V = EncodeErrorModel;

    open spec fn deep_view(&self) -> EncodeErrorModel {
        match self {
            EncodeError::Assembly(inner) => EncodeErrorModel::Assembly(inner.deep_view()),
            EncodeError::UnsupportedHistoryItem { index, kind } => EncodeErrorModel::UnsupportedHistoryItem {
                index: index.deep_view(),
                kind: kind.deep_view(),
            },
            EncodeError::UnsupportedContent { item_index, block_index, kind } => EncodeErrorModel::UnsupportedContent {
                item_index: item_index.deep_view(),
                block_index: block_index.deep_view(),
                kind: kind.deep_view(),
            },
            EncodeError::InvalidToolArguments { call_id, message } => EncodeErrorModel::InvalidToolArguments {
                call_id: call_id.deep_view(),
                message: message.deep_view(),
            },
            EncodeError::InvalidImage { item_index, block_index, message } => EncodeErrorModel::InvalidImage {
                item_index: item_index.deep_view(),
                block_index: block_index.deep_view(),
                message: message.deep_view(),
            },
            EncodeError::UnmatchedToolResult { call_id } => EncodeErrorModel::UnmatchedToolResult {
                call_id: call_id.deep_view(),
            },
            EncodeError::DuplicateToolUse { call_id } => EncodeErrorModel::DuplicateToolUse {
                call_id: call_id.deep_view(),
            },
            EncodeError::UnsupportedStructuredOutput => EncodeErrorModel::UnsupportedStructuredOutput,
            EncodeError::Replay(inner) => EncodeErrorModel::Replay(inner.deep_view()),
        }
    }
}

impl Duplicate for EncodeError {
    fn duplicate(&self) -> (copy: Self) {
        match self {
            EncodeError::Assembly(inner) => EncodeError::Assembly(inner.duplicate()),
            EncodeError::UnsupportedHistoryItem { index, kind } => EncodeError::UnsupportedHistoryItem {
                index: index.duplicate(),
                kind: kind.duplicate(),
            },
            EncodeError::UnsupportedContent { item_index, block_index, kind } => EncodeError::UnsupportedContent {
                item_index: item_index.duplicate(),
                block_index: block_index.duplicate(),
                kind: kind.duplicate(),
            },
            EncodeError::InvalidToolArguments { call_id, message } => EncodeError::InvalidToolArguments {
                call_id: call_id.duplicate(),
                message: message.duplicate(),
            },
            EncodeError::InvalidImage { item_index, block_index, message } => EncodeError::InvalidImage {
                item_index: item_index.duplicate(),
                block_index: block_index.duplicate(),
                message: message.duplicate(),
            },
            EncodeError::UnmatchedToolResult { call_id } => EncodeError::UnmatchedToolResult {
                call_id: call_id.duplicate(),
            },
            EncodeError::DuplicateToolUse { call_id } => EncodeError::DuplicateToolUse { call_id: call_id.duplicate() },
            EncodeError::UnsupportedStructuredOutput => EncodeError::UnsupportedStructuredOutput,
            EncodeError::Replay(inner) => EncodeError::Replay(inner.duplicate()),
        }
    }
}

impl EncodeErrorModel {
    /// The message of the error.
    pub open spec fn text(self) -> Seq<char> {
        match self {
            EncodeErrorModel::Assembly(error) => error.text(),
            EncodeErrorModel::UnsupportedHistoryItem { index, kind } => "unsupported history item at index "@
                + decimal(index as nat) + ": "@ + kind,
            EncodeErrorModel::UnsupportedContent { item_index, block_index, kind } =>
                "unsupported content at history item "@ + decimal(item_index as nat) + ", block "@ + decimal(
                block_index as nat,
            ) + ": "@ + kind,
            EncodeErrorModel::InvalidToolArguments { call_id, message } => "tool call `"@ + call_id
                + "` contains invalid JSON arguments: "@ + message,
            EncodeErrorModel::InvalidImage { item_index, block_index, message } =>
                "invalid base64 image at history item "@ + decimal(item_index as nat) + ", block "@ + decimal(
                block_index as nat,
            ) + ": "@ + message,
            EncodeErrorModel::UnmatchedToolResult { call_id } => "tool result `"@ + call_id
                + "` has no matching unresolved tool use"@,
            EncodeErrorModel::DuplicateToolUse { call_id } => "duplicate unresolved tool use ID `"@ + call_id
                + "`"@,
            EncodeErrorModel::UnsupportedStructuredOutput =>
                in_title("structured-output schemas are unsupported by native "@, " Messages encoding"@),
            EncodeErrorModel::Replay(error) => error.text(),
        }
    }
}

impl EncodeError {
    /// The message of the error.
    pub fn message(&self) -> (message: String)
        ensures
            message@ == self.deep_view().text(),
    {
        match self {
            EncodeError::Assembly(error) => error.message(),
            EncodeError::UnsupportedHistoryItem { index, kind } => {
                let mut text = concat3("unsupported history item at index ", &decimal_text(*index as u64), ": ");
                text.append(kind);
                text
            },
            EncodeError::UnsupportedContent { item_index, block_index, kind } => {
                let mut text = concat3(
                    "unsupported content at history item ",
                    &decimal_text(*item_index as u64),
                    ", block ",
                );
                text.append(&decimal_text(*block_index as u64));
                text.append(": ");
                text.append(kind);
                text
            },
            EncodeError::InvalidToolArguments { call_id, message } => {
                let mut text = concat3("tool call `", call_id, "` contains invalid JSON arguments: ");
                text.append(message);
                text
            },
            EncodeError::InvalidImage { item_index, block_index, message } => {
                let mut text = concat3(
                    "invalid base64 image at history item ",
                    &decimal_text(*item_index as u64),
                    ", block ",
                );
                text.append(&decimal_text(*block_index as u64));
                text.append(": ");
                text.append(message);
                text
            },
            EncodeError::UnmatchedToolResult { call_id } => concat3(
                "tool result `",
                call_id,
                "` has no matching unresolved tool use",
            ),
            EncodeError::DuplicateToolUse { call_id } => concat3("duplicate unresolved tool use ID `", call_id, "`"),
            EncodeError::UnsupportedStructuredOutput =>
                spell_title("structured-output schemas are unsupported by native ", " Messages encoding"),
            EncodeError::Replay(error) => error.message(),
        }
    }
}

/// The request for a conversation: its messages are encoded first, then the
/// request is assembled from them. A schema for the output is refused before
/// either.
pub open spec fn encoded(
    structured: bool,
    config: ModelInferenceConfigModel,
    effort: ReasoningEffortModel,
    history: Seq<ResponseItemModel>,
    system: Seq<SystemBlockModel>,
    tools: Seq<ToolSpecModel>,
    resumable_session_id: Seq<char>,
    codex_version: Seq<char>,
    opus_context: Option<OpusCompatibilityContextModel>,
    sonnet_context: Option<SonnetCompatibilityContextModel>,
) -> Result<AssembledRequestModel, EncodeErrorModel> {
    if structured {
        Err(EncodeErrorModel::UnsupportedStructuredOutput)
    } else {
        match native_history(history, config) {
            Err(error) => Err(error),
            Ok(messages) => match assembled(
                config,
                effort,
                messages,
                system,
                tools,
                resumable_session_id,
                codex_version,
                opus_context,
                sonnet_context,
            ) {
                Ok(request) => Ok(request),
                Err(error) => Err(EncodeErrorModel::Assembly(error)),
            },
        }
    }
}

/// Converts canonical history and assembles one complete native request.
pub fn encode_request(params: EncodeRequest<'_>) -> (request: Result<AssembledRequest, EncodeError>)
    ensures
        outcome(request) == encoded(
            params.output_schema is JsonSchema,
            params.profile.deep_view(),
            params.effort.deep_view(),
            params.history.deep_view(),
            params.system.deep_view(),
            params.tools.deep_view(),
            params.resumable_session_id@,
            params.codex_version@,
            params.opus_compatibility.deep_view(),
            params.sonnet_compatibility.deep_view(),
        ),
{
    if let CanonicalOutputSchema::JsonSchema { .. } = params.output_schema {
        return Err(EncodeError::UnsupportedStructuredOutput);
    }
    let messages = match encode_history(params.history, params.profile) {
        Err(error) => {
            return Err(error);
        },
        Ok(messages) => messages,
    };
    let native = messages.as_slice();
    assert(native.deep_view() =~= messages.deep_view());
    match assemble_request(
        AssembleRequest {
            profile: params.profile,
            effort: params.effort,
            messages: native,
            system: params.system,
            tools: params.tools,
            resumable_session_id: params.resumable_session_id,
            codex_version: params.codex_version,
            opus_compatibility: params.opus_compatibility,
            sonnet_compatibility: params.sonnet_compatibility,
        },
    ) {
        Ok(request) => Ok(request),
        Err(error) => Err(EncodeError::Assembly(error)),
    }
}

} // verus!
