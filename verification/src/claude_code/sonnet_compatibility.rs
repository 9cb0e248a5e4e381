//! The wire profile of Sonnet 5 turns.
use crate::claude_code::identity::{ClaudeCodeIdentity, ClaudeCodeIdentityModel, ClaudeCodeRequestKind};
use crate::claude_code::names::{in_small, spell_small};
use crate::claude_code::opus_compatibility::{
    profile_metadata, profile_system, request_metadata, system_blocks, ClaudeCodeEnvironment,
    ClaudeCodeEnvironmentModel, ClaudeCodePromptModel,
};
use crate::claude_code::types::{
    RequestMetadata, RequestMetadataModel, RequestTransport, RequestTransportModel, SystemBlock, SystemBlockModel,
};
use crate::model::Duplicate;
use vstd::prelude::*;

verus! {

/// The model that the profile is for.
pub open spec fn sonnet_model() -> Seq<char> {
    in_small(""@, "-sonnet-5"@)
}

/// The model that the profile is for.
pub fn sonnet_wire_model() -> (model: String)
    ensures
        model@ == sonnet_model(),
{
    spell_small("", "-sonnet-5")
}

/// The version that the profile goes by.
pub const CLAUDE_CODE_VERSION: &'static str = "2.1.223";

/// The betas that the profile asks for.
pub open spec fn profile_betas() -> Seq<char> {
    in_small(
        ""@,
        "-code-20250219,interleaved-thinking-2025-05-14,redact-thinking-2026-02-12,thinking-token-count-2026-05-13,context-management-2025-06-27,prompt-caching-scope-2026-01-05,mid-conversation-system-2026-04-07,advisor-tool-2026-03-01,effort-2025-11-24"@,
    )
}

/// The betas that the profile asks for.
pub fn anthropic_betas() -> (betas: String)
    ensures
        betas@ == profile_betas(),
{
    spell_small(
        "",
        "-code-20250219,interleaved-thinking-2025-05-14,redact-thinking-2026-02-12,thinking-token-count-2026-05-13,context-management-2025-06-27,prompt-caching-scope-2026-01-05,mid-conversation-system-2026-04-07,advisor-tool-2026-03-01,effort-2025-11-24",
    )
}

/// What a Sonnet 5 prompt is written from.
#[derive(Debug, Clone, PartialEq, Eq)]
pub struct SonnetPrompt {
    pub installation_id: String,
    pub environment: ClaudeCodeEnvironment,
}

/// The model of [`SonnetPrompt`].
#[verifier::ext_equal]
pub struct SonnetPromptModel {
    pub installation_id: Seq<char>,
    pub environment: ClaudeCodeEnvironmentModel,
}

impl DeepView for SonnetPrompt {
    type V = SonnetPromptModel;

    open spec fn deep_view(&self) -> SonnetPromptModel {
        SonnetPromptModel {
            installation_id: self.installation_id.deep_view(),
            environment: self.environment.deep_view(),
        }
    }
}

impl Duplicate for SonnetPrompt {
    fn duplicate(&self) -> (copy: Self) {
        SonnetPrompt {
            installation_id: self.installation_id.duplicate(),
            environment: self.environment.duplicate(),
        }
    }
}

/// The identity for a Sonnet 5 request. Without a prompt it is
/// header-only: the body of the request stays native.
#[derive(Debug, Clone, PartialEq, Eq)]
pub struct SonnetCompatibilityContext {
    pub identity: ClaudeCodeIdentity,
    pub prompt: Option<SonnetPrompt>,
}

/// The model of [`SonnetCompatibilityContext`].
#[verifier::ext_equal]
pub struct SonnetCompatibilityContextModel {
    pub identity: ClaudeCodeIdentityModel,
    pub prompt: Option<SonnetPromptModel>,
}

impl DeepView for SonnetCompatibilityContext {
    type V = SonnetCompatibilityContextModel;

    open spec fn deep_view(&self) -> SonnetCompatibilityContextModel {
        SonnetCompatibilityContextModel {
            identity: self.identity.deep_view(),
            prompt: self.prompt.deep_view(),
        }
    }
}

impl Duplicate for SonnetCompatibilityContext {
    fn duplicate(&self) -> (copy: Self) {
        SonnetCompatibilityContext {
            identity: self.identity.duplicate(),
            prompt: self.prompt.duplicate(),
        }
    }
}

impl SonnetCompatibilityContextModel {
    /// The transport facts of the turn.
    pub open spec fn request_transport(self) -> RequestTransportModel {
        self.identity.request_transport(CLAUDE_CODE_VERSION@, profile_betas(), "Linux"@, "x64"@)
    }

    /// The system prompt and the metadata of the turn, where it has a prompt.
    pub open spec fn replaced(self) -> Option<(Seq<SystemBlockModel>, RequestMetadataModel)> {
        match self.prompt {
            None => None,
            Some(prompt) => Some(
                (
                    profile_system(
                        self.identity.kind == ClaudeCodeRequestKind::Subagent,
                        prompt.environment,
                        ClaudeCodePromptModel::Sonnet5,
                    ),
                    profile_metadata(prompt.installation_id, self.identity.session_id),
                ),
            ),
        }
    }
}

impl SonnetCompatibilityContext {
    /// The transport facts of the turn.
    pub fn transport(&self) -> (transport: RequestTransport)
        ensures
            transport.deep_view() == self.deep_view().request_transport(),
            transport.headers.in_order(),
            transport.query.in_order(),
    {
        self.identity.transport(CLAUDE_CODE_VERSION, &anthropic_betas(), "Linux", "x64")
    }

    /// The system prompt and the metadata of the turn, where it has a prompt.
    pub fn replacement(&self) -> (replaced: Option<(Vec<SystemBlock>, RequestMetadata)>)
        ensures
            replaced.deep_view() == self.deep_view().replaced(),
    {
        match &self.prompt {
            None => None,
            Some(prompt) => {
                let subagent = match self.identity.kind {
                    ClaudeCodeRequestKind::Root => false,
                    ClaudeCodeRequestKind::Subagent => true,
                };
                Some(
                    (
                        system_blocks(subagent, &prompt.environment, ClaudeCodePromptModel::Sonnet5),
                        request_metadata(&prompt.installation_id, &self.identity.session_id),
                    ),
                )
            },
        }
    }
}

} // verus!
