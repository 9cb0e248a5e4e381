//! The identity that a compatible request is made under.
use crate::claude_code::names::{in_small, spell_small};
use crate::claude_code::types::{RequestTransport, RequestTransportModel};
use crate::fields::{put, StringMap};
use crate::ids::{derive_uuid, hex, hex_text, uuid_derived};
use crate::model::Duplicate;
use crate::text::{chars_of, concat, concat3, text_range};
use vstd::prelude::*;
use vstd::string::*;
use vstd::utf8::encode_utf8;

verus! {

/// The namespace of derived identities.
pub const ID_NAMESPACE: u128 = 0xd73e_49ad_9688_54f9_a068_fbc7_66b5_821a;

/// Identifies whether a compatible request belongs to the root or a subagent.
#[derive(Debug, Clone, Copy, PartialEq, Eq, Structural)]
pub enum ClaudeCodeRequestKind {
    /// The root.
    Root,
    /// A subagent.
    Subagent,
}

impl DeepView for ClaudeCodeRequestKind {
    type V = ClaudeCodeRequestKind;

    open spec fn deep_view(&self) -> ClaudeCodeRequestKind {
        *self
    }
}

impl Duplicate for ClaudeCodeRequestKind {
    fn duplicate(&self) -> (copy: Self) {
        *self
    }
}

/// Stable session and subagent identities shared by compatible profiles.
#[derive(Debug, Clone, PartialEq, Eq)]
pub struct ClaudeCodeIdentity {
    pub kind: ClaudeCodeRequestKind,
    pub session_id: String,
    pub thread_id: String,
}

/// The model of [`ClaudeCodeIdentity`].
#[verifier::ext_equal]
pub struct ClaudeCodeIdentityModel {
    pub kind: ClaudeCodeRequestKind,
    pub session_id: Seq<char>,
    pub thread_id: Seq<char>,
}

impl DeepView for ClaudeCodeIdentity {
    type V = ClaudeCodeIdentityModel;

    open spec fn deep_view(&self) -> ClaudeCodeIdentityModel {
        ClaudeCodeIdentityModel {
            kind: self.kind.deep_view(),
            session_id: self.session_id.deep_view(),
            thread_id: self.thread_id.deep_view(),
        }
    }
}

impl Duplicate for ClaudeCodeIdentity {
    fn duplicate(&self) -> (copy: Self) {
        ClaudeCodeIdentity {
            kind: self.kind.duplicate(),
            session_id: self.session_id.duplicate(),
            thread_id: self.thread_id.duplicate(),
        }
    }
}

/// The number that is derived from an identity in a domain.
pub open spec fn stable_id(domain: Seq<char>, identity: Seq<char>) -> u128 {
    uuid_derived(ID_NAMESPACE, encode_utf8(domain + ":"@ + identity))
}

/// The number that is derived from an identity in a domain.
pub fn stable_uuid(domain: &str, identity: &str) -> (value: u128)
    ensures
        value == stable_id(domain@, identity@),
{
    let name = concat3(domain, ":", identity);
    derive_uuid(ID_NAMESPACE, name.as_str().as_bytes())
}

/// The query of every request.
pub open spec fn beta_query() -> Seq<(Seq<char>, Seq<char>)> {
    put(Seq::empty(), "beta"@, "true"@)
}

/// The query of every request.
pub fn query_parameters() -> (query: StringMap<String>)
    ensures
        query.deep_view() == beta_query(),
        query.in_order(),
{
    let mut query: StringMap<String> = StringMap::new();
    query.insert("beta".to_owned(), "true".to_owned());
    query
}

impl ClaudeCodeIdentityModel {
    /// The name of a subagent: a letter and sixteen hexadecimal digits that are
    /// derived from its thread.
    pub open spec fn agent(self) -> Option<Seq<char>> {
        match self.kind {
            ClaudeCodeRequestKind::Root => None,
            ClaudeCodeRequestKind::Subagent => Some(
                "a"@ + hex_text(stable_id("agent"@, self.thread_id)).take(16),
            ),
        }
    }

    /// The headers of a request.
    pub open spec fn headers(
        self,
        version: Seq<char>,
        betas: Seq<char>,
        stainless_os: Seq<char>,
        stainless_arch: Seq<char>,
    ) -> Seq<(Seq<char>, Seq<char>)> {
        let headers = Seq::empty();
        let headers = put(headers, "User-Agent"@, in_small(""@, "-cli/"@) + version + " (external, cli)"@);
        let headers = put(headers, "accept"@, "application/json"@);
        let headers = put(headers, "anthropic-beta"@, betas);
        let headers = put(headers, "anthropic-dangerous-direct-browser-access"@, "true"@);
        let headers = put(headers, "anthropic-version"@, "2023-06-01"@);
        let headers = put(headers, "x-app"@, "cli"@);
        let headers = put(headers, in_small("x-"@, "-code-session-id"@), self.session_id);
        let headers = put(headers, "x-stainless-arch"@, stainless_arch);
        let headers = put(headers, "x-stainless-lang"@, "js"@);
        let headers = put(headers, "x-stainless-os"@, stainless_os);
        let headers = put(headers, "x-stainless-package-version"@, "0.94.0"@);
        let headers = put(headers, "x-stainless-retry-count"@, "0"@);
        let headers = put(headers, "x-stainless-runtime"@, "node"@);
        let headers = put(headers, "x-stainless-runtime-version"@, "v26.3.0"@);
        let headers = put(headers, "x-stainless-timeout"@, "600"@);
        match self.agent() {
            Some(agent) => put(headers, in_small("x-"@, "-code-agent-id"@), agent),
            None => headers,
        }
    }

    /// The transport facts of a request.
    pub open spec fn request_transport(
        self,
        version: Seq<char>,
        betas: Seq<char>,
        stainless_os: Seq<char>,
        stainless_arch: Seq<char>,
    ) -> RequestTransportModel {
        RequestTransportModel {
            method: "POST"@,
            path: "/v1/messages"@,
            query: beta_query(),
            headers: self.headers(version, betas, stainless_os, stainless_arch),
        }
    }
}

impl ClaudeCodeIdentity {
    /// The name of a subagent.
    pub fn agent_id(&self) -> (agent: Option<String>)
        ensures
            agent.deep_view() == self.deep_view().agent(),
    {
        match self.kind {
            ClaudeCodeRequestKind::Root => None,
            ClaudeCodeRequestKind::Subagent => {
                let id = chars_of(&hex(stable_uuid("agent", &self.thread_id)));
                assert(id@.subrange(0, 16) =~= id@.take(16));
                Some(concat("a", &text_range(&id, 0, 16)))
            },
        }
    }

    /// The transport facts of a request.
    pub fn transport(&self, version: &str, betas: &str, stainless_os: &str, stainless_arch: &str) -> (transport:
        RequestTransport)
        ensures
            transport.deep_view() == self.deep_view().request_transport(
                version@,
                betas@,
                stainless_os@,
                stainless_arch@,
            ),
            transport.headers.in_order(),
            transport.query.in_order(),
    {
        let mut headers: StringMap<String> = StringMap::new();
        headers.insert("User-Agent".to_owned(), concat3(&spell_small("", "-cli/"), version, " (external, cli)"));
        headers.insert("accept".to_owned(), "application/json".to_owned());
        headers.insert("anthropic-beta".to_owned(), betas.to_owned());
        headers.insert("anthropic-dangerous-direct-browser-access".to_owned(), "true".to_owned());
        headers.insert("anthropic-version".to_owned(), "2023-06-01".to_owned());
        headers.insert("x-app".to_owned(), "cli".to_owned());
        headers.insert(spell_small("x-", "-code-session-id"), self.session_id.duplicate());
        headers.insert("x-stainless-arch".to_owned(), stainless_arch.to_owned());
        headers.insert("x-stainless-lang".to_owned(), "js".to_owned());
        headers.insert("x-stainless-os".to_owned(), stainless_os.to_owned());
        headers.insert("x-stainless-package-version".to_owned(), "0.94.0".to_owned());
        headers.insert("x-stainless-retry-count".to_owned(), "0".to_owned());
        headers.insert("x-stainless-runtime".to_owned(), "node".to_owned());
        headers.insert("x-stainless-runtime-version".to_owned(), "v26.3.0".to_owned());
        headers.insert("x-stainless-timeout".to_owned(), "600".to_owned());
        if let Some(agent) = self.agent_id() {
            headers.insert(spell_small("x-", "-code-agent-id"), agent);
        }
        RequestTransport { method: "POST", path: "/v1/messages", query: query_parameters(), headers }
    }
}

/// The same identity always goes by the same subagent name, a root by none.
pub proof fn law_agent_follows_thread(one: ClaudeCodeIdentityModel, other: ClaudeCodeIdentityModel)
    requires
        one.kind == other.kind,
        one.thread_id == other.thread_id,
    ensures
        one.agent() == other.agent(),
        one.agent() is Some <==> one.kind == ClaudeCodeRequestKind::Subagent,
        one.agent() matches Some(name) ==> name.len() == 17,
{
    reveal_strlit("a");
    crate::ids::lemma_digits(stable_id("agent"@, one.thread_id) as nat, 16, 32);
}

} // verus!
