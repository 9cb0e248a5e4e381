//! Thinking that is carried in the conversation and replayed to the model that
//! thought it.
use crate::json::{
    canonical, distinct, holds, json_parse, json_print, lemma_array_canonical, lemma_array_model,
    lemma_object_canonical, lemma_object_model, lemma_sorted_member, member, nesting, parse_json, print_json,
    sorted, Json, JsonModel, JsonNumber, JsonNumberModel,
};
use crate::model::{no_items, outcome, push_item, Duplicate};
use crate::protocol::InferenceDialect;
use crate::read::{
    both_texts, fill, filled, given_text, length_error, missing, missing_field, one_text, read_both_texts,
    read_given_text, read_one_text, read_tag, seat, tag_of, take_seat, type_error, unknown_variant, variant_error,
    wrong_length, wrong_type, Source,
};
use crate::text::{concat, decimal, decimal_text, strip_prefix, stripped};
use vstd::prelude::*;
use vstd::string::*;

verus! {

/// What stands before the envelope.
pub const PREFIX: &'static str = "codex:anthropic-thinking:";

/// The version of the envelope.
pub const VERSION: u64 = 1;

/// One block of thinking.
#[derive(Debug, Clone, PartialEq, Eq)]
pub enum ThinkingReplayBlock {
    /// Thinking with the signature of its provider.
    Signed {
        thinking: String,
        signature: String,
    },
    /// Thinking that only its provider can read.
    Redacted {
        data: String,
    },
}

/// The model of [`ThinkingReplayBlock`].
#[verifier::ext_equal]
pub enum ThinkingReplayBlockModel {
    Signed {
        thinking: Seq<char>,
        signature: Seq<char>,
    },
    Redacted {
        data: Seq<char>,
    },
}

impl DeepView for ThinkingReplayBlock {
    type V = ThinkingReplayBlockModel;

    open spec fn deep_view(&self) -> ThinkingReplayBlockModel {
        match self {
            ThinkingReplayBlock::Signed { thinking, signature } => ThinkingReplayBlockModel::Signed {
                thinking: thinking.deep_view(),
                signature: signature.deep_view(),
            },
            ThinkingReplayBlock::Redacted { data } => ThinkingReplayBlockModel::Redacted { data: data.deep_view() },
        }
    }
}

impl Duplicate for ThinkingReplayBlock {
    fn duplicate(&self) -> (copy: Self) {
        match self {
            ThinkingReplayBlock::Signed { thinking, signature } => ThinkingReplayBlock::Signed {
                thinking: thinking.duplicate(),
                signature: signature.duplicate(),
            },
            ThinkingReplayBlock::Redacted { data } => ThinkingReplayBlock::Redacted { data: data.duplicate() },
        }
    }
}

/// What becomes of carried thinking.
#[derive(Debug, Clone, PartialEq, Eq)]
pub enum ReplayDecision {
    /// It is replayed as it was.
    Native(Vec<ThinkingReplayBlock>),
    /// It was not carried by this envelope; what is visible stays.
    UnrelatedOpaqueContent {
        visible: Vec<String>,
    },
    /// It was thought by another model or in another dialect; what is visible
    /// stays.
    ModelOrDialectChanged {
        visible: Vec<String>,
    },
}

/// The model of [`ReplayDecision`].
#[verifier::ext_equal]
pub enum ReplayDecisionModel {
    Native(Seq<ThinkingReplayBlockModel>),
    UnrelatedOpaqueContent {
        visible: Seq<Seq<char>>,
    },
    ModelOrDialectChanged {
        visible: Seq<Seq<char>>,
    },
}

impl DeepView for ReplayDecision {
    type V = ReplayDecisionModel;

    open spec fn deep_view(&self) -> ReplayDecisionModel {
        match self {
            ReplayDecision::Native(inner) => ReplayDecisionModel::Native(inner.deep_view()),
            ReplayDecision::UnrelatedOpaqueContent { visible } => ReplayDecisionModel::UnrelatedOpaqueContent {
                visible: visible.deep_view(),
            },
            ReplayDecision::ModelOrDialectChanged { visible } => ReplayDecisionModel::ModelOrDialectChanged {
                visible: visible.deep_view(),
            },
        }
    }
}

impl Duplicate for ReplayDecision {
    fn duplicate(&self) -> (copy: Self) {
        match self {
            ReplayDecision::Native(inner) => ReplayDecision::Native(inner.duplicate()),
            ReplayDecision::UnrelatedOpaqueContent { visible } => ReplayDecision::UnrelatedOpaqueContent {
                visible: visible.duplicate(),
            },
            ReplayDecision::ModelOrDialectChanged { visible } => ReplayDecision::ModelOrDialectChanged {
                visible: visible.duplicate(),
            },
        }
    }
}

/// Why thinking cannot be carried or replayed.
#[derive(Debug, Clone, PartialEq, Eq)]
pub enum ReplayError {
    /// No model was named.
    EmptyModel,
    /// The envelope cannot be read.
    Malformed(String),
    /// The envelope is of another version.
    UnknownVersion(u64),
}

/// The model of [`ReplayError`].
#[verifier::ext_equal]
pub enum ReplayErrorModel {
    EmptyModel,
    Malformed(Seq<char>),
    UnknownVersion(u64),
}

impl DeepView for ReplayError {
    type V = ReplayErrorModel;

    open spec fn deep_view(&self) -> ReplayErrorModel {
        match self {
            ReplayError::EmptyModel => ReplayErrorModel::EmptyModel,
            ReplayError::Malformed(inner) => ReplayErrorModel::Malformed(inner.deep_view()),
            ReplayError::UnknownVersion(inner) => ReplayErrorModel::UnknownVersion(inner.deep_view()),
        }
    }
}

impl Duplicate for ReplayError {
    fn duplicate(&self) -> (copy: Self) {
        match self {
            ReplayError::EmptyModel => ReplayError::EmptyModel,
            ReplayError::Malformed(inner) => ReplayError::Malformed(inner.duplicate()),
            ReplayError::UnknownVersion(inner) => ReplayError::UnknownVersion(inner.duplicate()),
        }
    }
}

/// Thinking with the dialect and the model that it belongs to.
#[derive(Debug, Clone, PartialEq, Eq)]
pub struct ReplayEnvelope {
    pub dialect: InferenceDialect,
    pub model: String,
    pub blocks: Vec<ThinkingReplayBlock>,
}

/// The model of [`ReplayEnvelope`].
#[verifier::ext_equal]
pub struct ReplayEnvelopeModel {
    pub dialect: InferenceDialect,
    pub model: Seq<char>,
    pub blocks: Seq<ThinkingReplayBlockModel>,
}

impl DeepView for ReplayEnvelope {
    type V = ReplayEnvelopeModel;

    open spec fn deep_view(&self) -> ReplayEnvelopeModel {
        ReplayEnvelopeModel {
            dialect: self.dialect.deep_view(),
            model: self.model.deep_view(),
            blocks: self.blocks.deep_view(),
        }
    }
}

impl Duplicate for ReplayEnvelope {
    fn duplicate(&self) -> (copy: Self) {
        ReplayEnvelope {
            dialect: self.dialect.duplicate(),
            model: self.model.duplicate(),
            blocks: self.blocks.duplicate(),
        }
    }
}

impl ReplayErrorModel {
    /// The message of the error.
    pub open spec fn text(self) -> Seq<char> {
        match self {
            ReplayErrorModel::EmptyModel => "native model for Anthropic thinking replay is empty"@,
            ReplayErrorModel::Malformed(message) => "malformed Anthropic thinking replay envelope: "@ + message,
            ReplayErrorModel::UnknownVersion(version) =>
                "unsupported Anthropic thinking replay envelope version "@ + decimal(version as nat),
        }
    }
}

impl ReplayError {
    /// The message of the error.
    pub fn message(&self) -> (message: String)
        ensures
            message@ == self.deep_view().text(),
    {
        match self {
            ReplayError::EmptyModel => "native model for Anthropic thinking replay is empty".to_owned(),
            ReplayError::Malformed(message) => concat("malformed Anthropic thinking replay envelope: ", message),
            ReplayError::UnknownVersion(version) => concat(
                "unsupported Anthropic thinking replay envelope version ",
                &decimal_text(*version),
            ),
        }
    }
}

// ---- writing ----

/// A block as JSON.
pub open spec fn block_json(block: ThinkingReplayBlockModel) -> JsonModel {
    match block {
        ThinkingReplayBlockModel::Signed { thinking, signature } => JsonModel::Object(
            seq![
                ("type"@, JsonModel::Text("signed"@)),
                ("thinking"@, JsonModel::Text(thinking)),
                ("signature"@, JsonModel::Text(signature)),
            ],
        ),
        ThinkingReplayBlockModel::Redacted { data } => JsonModel::Object(
            seq![("type"@, JsonModel::Text("redacted"@)), ("data"@, JsonModel::Text(data))],
        ),
    }
}

/// An envelope as JSON.
pub open spec fn envelope_json(
    dialect: InferenceDialect,
    model: Seq<char>,
    blocks: Seq<ThinkingReplayBlockModel>,
) -> JsonModel {
    JsonModel::Object(
        seq![
            ("version"@, JsonModel::Number(JsonNumberModel::Unsigned(VERSION))),
            ("dialect"@, JsonModel::Text(dialect.label())),
            ("model"@, JsonModel::Text(model)),
            ("blocks"@, JsonModel::Array(Seq::new(blocks.len(), |i: int| block_json(blocks[i])))),
        ],
    )
}

fn write_block(block: &ThinkingReplayBlock) -> (json: Json)
    ensures
        json.deep_view() == block_json(block.deep_view()),
{
    broadcast use lemma_object_model;
    match block {
        ThinkingReplayBlock::Signed { thinking, signature } => {
            let mut entries: Vec<(String, Json)> = no_items();
            push_item(&mut entries, ("type".to_owned(), Json::Text("signed".to_owned())));
            push_item(&mut entries, ("thinking".to_owned(), Json::Text(thinking.duplicate())));
            push_item(&mut entries, ("signature".to_owned(), Json::Text(signature.duplicate())));
            assert(JsonModel::Object(entries.deep_view())->Object_0 =~= block_json(block.deep_view())->Object_0);
            Json::Object(entries)
        },
        ThinkingReplayBlock::Redacted { data } => {
            let mut entries: Vec<(String, Json)> = no_items();
            push_item(&mut entries, ("type".to_owned(), Json::Text("redacted".to_owned())));
            push_item(&mut entries, ("data".to_owned(), Json::Text(data.duplicate())));
            assert(JsonModel::Object(entries.deep_view())->Object_0 =~= block_json(block.deep_view())->Object_0);
            Json::Object(entries)
        },
    }
}

fn write_envelope(dialect: InferenceDialect, model: &str, blocks: &Vec<ThinkingReplayBlock>) -> (json: Json)
    ensures
        json.deep_view() == envelope_json(dialect, model@, blocks.deep_view()),
{
    broadcast use {lemma_object_model, lemma_array_model};
    let mut items: Vec<Json> = no_items();
    let mut i: usize = 0;
    while i < blocks.len()
        invariant
            i <= blocks.len(),
            items.deep_view() == Seq::new(i as nat, |j: int| block_json(blocks.deep_view()[j])),
        decreases blocks.len() - i,
    {
        push_item(&mut items, write_block(&blocks[i]));
        i += 1;
        assert(items.deep_view() =~= Seq::new(i as nat, |j: int| block_json(blocks.deep_view()[j])));
    }
    let mut entries: Vec<(String, Json)> = no_items();
    push_item(&mut entries, ("version".to_owned(), Json::Number(JsonNumber::Unsigned(VERSION))));
    push_item(&mut entries, ("dialect".to_owned(), Json::Text(dialect.name().to_owned())));
    push_item(&mut entries, ("model".to_owned(), Json::Text(model.to_owned())));
    push_item(&mut entries, ("blocks".to_owned(), Json::Array(items)));
    assert(JsonModel::Object(entries.deep_view())->Object_0 =~= envelope_json(
        dialect,
        model@,
        blocks.deep_view(),
    )->Object_0);
    Json::Object(entries)
}

// ---- reading ----

/// The dialects by their names, for a message.
pub open spec fn dialect_names() -> Seq<char> {
    "one of `open_ai`, `claude_code`, `kimi`, `grok`"@
}

/// The dialect of a name.
pub open spec fn dialect_named(name: Seq<char>) -> Result<InferenceDialect, Seq<char>> {
    if name == "open_ai"@ {
        Ok(InferenceDialect::OpenAi)
    } else if name == "claude_code"@ {
        Ok(InferenceDialect::ClaudeCode)
    } else if name == "kimi"@ {
        Ok(InferenceDialect::Kimi)
    } else if name == "grok"@ {
        Ok(InferenceDialect::Grok)
    } else {
        Err(unknown_variant(name, dialect_names()))
    }
}

/// The dialect that a value names: by a text, or by the only name of an object
/// that holds nothing.
pub open spec fn dialect_of(json: JsonModel) -> Result<InferenceDialect, Seq<char>> {
    match json {
        JsonModel::Text(name) => dialect_named(name),
        JsonModel::Object(entries) => if entries.len() != 1 {
            Err("invalid value: map, expected map with a single key"@)
        } else {
            match dialect_named(entries[0].0) {
                Err(message) => Err(message),
                Ok(dialect) => match entries[0].1 {
                    JsonModel::Null => Ok(dialect),
                    value => Err(wrong_type(value, "unit"@)),
                },
            }
        },
        _ => Err(wrong_type(json, "string or map"@)),
    }
}

/// The dialect of a name.
pub fn parse_dialect(name: &str) -> (dialect: Result<InferenceDialect, String>)
    ensures
        outcome(dialect) == dialect_named(name@),
{
    if *name == *"open_ai" {
        Ok(InferenceDialect::OpenAi)
    } else if *name == *"claude_code" {
        Ok(InferenceDialect::ClaudeCode)
    } else if *name == *"kimi" {
        Ok(InferenceDialect::Kimi)
    } else if *name == *"grok" {
        Ok(InferenceDialect::Grok)
    } else {
        Err(variant_error(name, "one of `open_ai`, `claude_code`, `kimi`, `grok`"))
    }
}

fn read_dialect(json: &Json) -> (dialect: Result<InferenceDialect, String>)
    ensures
        outcome(dialect) == dialect_of(json.deep_view()),
{
    broadcast use lemma_object_model;
    match json {
        Json::Text(name) => parse_dialect(name),
        Json::Object(entries) => {
            if entries.len() != 1 {
                return Err("invalid value: map, expected map with a single key".to_owned());
            }
            assert(entries.deep_view()[0] == entries@[0].deep_view());
            match parse_dialect(&entries[0].0) {
                Err(message) => Err(message),
                Ok(dialect) => match &entries[0].1 {
                    Json::Null => Ok(dialect),
                    value => Err(type_error(value, "unit")),
                },
            }
        },
        _ => Err(type_error(json, "string or map")),
    }
}

/// The block that an array holds by position.
pub open spec fn seated_signed(items: Seq<JsonModel>) -> Result<ThinkingReplayBlockModel, Seq<char>> {
    match given_text(seat(items, 1, "thinking"@), "thinking"@) {
        Err(message) => Err(message),
        Ok(None) => Err(wrong_length(0, "struct variant ThinkingReplayBlock::Signed with 2 elements"@)),
        Ok(Some(thinking)) => match given_text(seat(items, 2, "signature"@), "signature"@) {
            Err(message) => Err(message),
            Ok(None) => Err(wrong_length(1, "struct variant ThinkingReplayBlock::Signed with 2 elements"@)),
            Ok(Some(signature)) => filled(
                ThinkingReplayBlockModel::Signed { thinking, signature },
                (items.len() - 1) as nat,
                2,
                Source::Buffer,
            ),
        },
    }
}

fn read_seated_signed(items: &Vec<Json>) -> (read: Result<ThinkingReplayBlock, String>)
    requires
        items.len() > 0,
    ensures
        outcome(read) == seated_signed(items.deep_view()),
{
    let json = take_seat(items, 1, "thinking");
    let thinking = match read_given_text(&json, "thinking") {
        Err(message) => {
            return Err(message);
        },
        Ok(None) => {
            return Err(length_error(0, "struct variant ThinkingReplayBlock::Signed with 2 elements"));
        },
        Ok(Some(value)) => value,
    };
    let json = take_seat(items, 2, "signature");
    let signature = match read_given_text(&json, "signature") {
        Err(message) => {
            return Err(message);
        },
        Ok(None) => {
            return Err(length_error(1, "struct variant ThinkingReplayBlock::Signed with 2 elements"));
        },
        Ok(Some(value)) => value,
    };
    fill(ThinkingReplayBlock::Signed { thinking, signature }, items.len() - 1, 2, Source::Buffer)
}

/// The block that an array holds by position.
pub open spec fn seated_redacted(items: Seq<JsonModel>) -> Result<ThinkingReplayBlockModel, Seq<char>> {
    match given_text(seat(items, 1, "data"@), "data"@) {
        Err(message) => Err(message),
        Ok(None) => Err(wrong_length(0, "struct variant ThinkingReplayBlock::Redacted with 1 element"@)),
        Ok(Some(data)) => filled(
            ThinkingReplayBlockModel::Redacted { data },
            (items.len() - 1) as nat,
            1,
            Source::Buffer,
        ),
    }
}

fn read_seated_redacted(items: &Vec<Json>) -> (read: Result<ThinkingReplayBlock, String>)
    requires
        items.len() > 0,
    ensures
        outcome(read) == seated_redacted(items.deep_view()),
{
    let json = take_seat(items, 1, "data");
    let data = match read_given_text(&json, "data") {
        Err(message) => {
            return Err(message);
        },
        Ok(None) => {
            return Err(length_error(0, "struct variant ThinkingReplayBlock::Redacted with 1 element"));
        },
        Ok(Some(value)) => value,
    };
    fill(ThinkingReplayBlock::Redacted { data }, items.len() - 1, 1, Source::Buffer)
}

/// The block that a value holds.
pub open spec fn block_of(json: JsonModel) -> Result<ThinkingReplayBlockModel, Seq<char>> {
    match tag_of(json, "internally tagged enum ThinkingReplayBlock"@) {
        Err(message) => Err(message),
        Ok(tag) => if tag == "signed"@ {
            match json {
                JsonModel::Array(items) => seated_signed(items),
                _ => match both_texts(json, "thinking"@, "signature"@, true) {
                    Err(message) => Err(message),
                    Ok((thinking, signature)) => Ok(ThinkingReplayBlockModel::Signed { thinking, signature }),
                },
            }
        } else if tag == "redacted"@ {
            match json {
                JsonModel::Array(items) => seated_redacted(items),
                _ => match one_text(json, "data"@) {
                    Err(message) => Err(message),
                    Ok(data) => Ok(ThinkingReplayBlockModel::Redacted { data }),
                },
            }
        } else {
            Err(unknown_variant(tag, "`signed` or `redacted`"@))
        },
    }
}

fn read_block(json: &Json) -> (block: Result<ThinkingReplayBlock, String>)
    ensures
        outcome(block) == block_of(json.deep_view()),
{
    broadcast use lemma_array_model;
    match read_tag(json, "internally tagged enum ThinkingReplayBlock") {
        Err(message) => Err(message),
        Ok(tag) => {
            if *tag.as_str() == *"signed" {
                if let Json::Array(items) = json {
                    return read_seated_signed(items);
                }
                match read_both_texts(json, "thinking", "signature", true) {
                    Err(message) => Err(message),
                    Ok(texts) => Ok(ThinkingReplayBlock::Signed { thinking: texts.0, signature: texts.1 }),
                }
            } else if *tag.as_str() == *"redacted" {
                if let Json::Array(items) = json {
                    return read_seated_redacted(items);
                }
                match read_one_text(json, "data") {
                    Err(message) => Err(message),
                    Ok(data) => Ok(ThinkingReplayBlock::Redacted { data }),
                }
            } else {
                Err(variant_error(&tag, "`signed` or `redacted`"))
            }
        },
    }
}

/// The blocks from `at` on behind those that are done.
pub open spec fn blocks_from(items: Seq<JsonModel>, at: int, done: Seq<ThinkingReplayBlockModel>) -> Result<
    Seq<ThinkingReplayBlockModel>,
    Seq<char>,
>
    decreases items.len() - at,
{
    if at < 0 || at >= items.len() {
        Ok(done)
    } else {
        match block_of(items[at]) {
            Ok(block) => blocks_from(items, at + 1, done.push(block)),
            Err(message) => Err(message),
        }
    }
}

/// The blocks under `blocks`, where there is a value.
pub open spec fn given_blocks(json: JsonModel) -> Result<Option<Seq<ThinkingReplayBlockModel>>, Seq<char>> {
    match member(json, "blocks"@) {
        None => Ok(None),
        Some(JsonModel::Array(items)) => match blocks_from(items, 0, Seq::empty()) {
            Ok(blocks) => Ok(Some(blocks)),
            Err(message) => Err(message),
        },
        Some(value) => Err(wrong_type(value, "a sequence"@)),
    }
}

fn read_blocks(json: &Json) -> (blocks: Result<Option<Vec<ThinkingReplayBlock>>, String>)
    ensures
        outcome(blocks) == given_blocks(json.deep_view()),
{
    broadcast use lemma_array_model;
    match json.get("blocks") {
        None => Ok(None),
        Some(Json::Array(items)) => {
            let mut done: Vec<ThinkingReplayBlock> = no_items();
            let mut i: usize = 0;
            while i < items.len()
                invariant
                    i <= items.len(),
                    member(json.deep_view(), "blocks"@) == Some(JsonModel::Array(items.deep_view())),
                    blocks_from(items.deep_view(), 0, Seq::empty()) == blocks_from(
                        items.deep_view(),
                        i as int,
                        done.deep_view(),
                    ),
                decreases items.len() - i,
            {
                assert(items.deep_view()[i as int] == items@[i as int].deep_view());
                match read_block(&items[i]) {
                    Ok(block) => {
                        push_item(&mut done, block);
                    },
                    Err(message) => {
                        return Err(message);
                    },
                }
                i += 1;
            }
            Ok(Some(done))
        },
        Some(value) => Err(type_error(value, "a sequence")),
    }
}

/// The dialect under `dialect`, where there is a value.
pub open spec fn given_dialect(json: JsonModel) -> Result<Option<InferenceDialect>, Seq<char>> {
    match member(json, "dialect"@) {
        None => Ok(None),
        Some(value) => match dialect_of(value) {
            Ok(dialect) => Ok(Some(dialect)),
            Err(message) => Err(message),
        },
    }
}

/// The envelope that a value of the current version holds.
pub open spec fn envelope_of(json: JsonModel) -> Result<ReplayEnvelopeModel, Seq<char>> {
    match given_blocks(json) {
        Err(message) => Err(message),
        Ok(blocks) => match given_dialect(json) {
            Err(message) => Err(message),
            Ok(dialect) => match given_text(json, "model"@) {
                Err(message) => Err(message),
                Ok(model) => match (dialect, model, blocks) {
                    (None, _, _) => Err(missing("dialect"@)),
                    (_, None, _) => Err(missing("model"@)),
                    (_, _, None) => Err(missing("blocks"@)),
                    (Some(dialect), Some(model), Some(blocks)) => Ok(ReplayEnvelopeModel { dialect, model, blocks }),
                },
            },
        },
    }
}

fn read_envelope(json: &Json) -> (envelope: Result<ReplayEnvelope, String>)
    ensures
        outcome(envelope) == envelope_of(json.deep_view()),
{
    let blocks = match read_blocks(json) {
        Ok(blocks) => blocks,
        Err(message) => {
            return Err(message);
        },
    };
    let dialect = match json.get("dialect") {
        None => None,
        Some(value) => match read_dialect(value) {
            Ok(dialect) => Some(dialect),
            Err(message) => {
                return Err(message);
            },
        },
    };
    match read_given_text(json, "model") {
        Err(message) => Err(message),
        Ok(model) => match (dialect, model, blocks) {
            (None, _, _) => Err(missing_field("dialect")),
            (_, None, _) => Err(missing_field("model")),
            (_, _, None) => Err(missing_field("blocks")),
            (Some(dialect), Some(model), Some(blocks)) => Ok(ReplayEnvelope { dialect, model, blocks }),
        },
    }
}

/// What becomes of an envelope that was read as JSON.
pub open spec fn decision_for(
    parsed: Result<JsonModel, Seq<char>>,
    visible: Seq<Seq<char>>,
    dialect: InferenceDialect,
    model: Seq<char>,
) -> Result<ReplayDecisionModel, ReplayErrorModel> {
    match parsed {
        Err(message) => Err(ReplayErrorModel::Malformed(message)),
        Ok(json) => match member(json, "version"@) {
            Some(JsonModel::Number(JsonNumberModel::Unsigned(version))) => if version != VERSION {
                Err(ReplayErrorModel::UnknownVersion(version))
            } else {
                match envelope_of(json) {
                    Err(message) => Err(ReplayErrorModel::Malformed(message)),
                    Ok(envelope) => if envelope.dialect == dialect && envelope.model == model {
                        Ok(ReplayDecisionModel::Native(envelope.blocks))
                    } else {
                        Ok(ReplayDecisionModel::ModelOrDialectChanged { visible })
                    },
                }
            },
            _ => Err(ReplayErrorModel::Malformed("missing numeric version"@)),
        },
    }
}

/// What becomes of carried content.
pub open spec fn decision(
    opaque: Seq<char>,
    visible: Seq<Seq<char>>,
    dialect: InferenceDialect,
    model: Seq<char>,
) -> Result<ReplayDecisionModel, ReplayErrorModel> {
    match stripped(opaque, PREFIX@) {
        None => Ok(ReplayDecisionModel::UnrelatedOpaqueContent { visible }),
        Some(json) => decision_for(json_parse(json), visible, dialect, model),
    }
}

/// What becomes of an envelope that was read as JSON.
pub fn decide_replay(
    parsed: Result<Json, String>,
    visible: Vec<String>,
    target_dialect: InferenceDialect,
    target_model: &str,
) -> (decided: Result<ReplayDecision, ReplayError>)
    ensures
        outcome(decided) == decision_for(outcome(parsed), visible.deep_view(), target_dialect, target_model@),
{
    let json = match parsed {
        Err(message) => {
            return Err(ReplayError::Malformed(message));
        },
        Ok(json) => json,
    };
    match json.get("version") {
        Some(Json::Number(JsonNumber::Unsigned(version))) => {
            if *version != VERSION {
                return Err(ReplayError::UnknownVersion(*version));
            }
        },
        _ => {
            return Err(ReplayError::Malformed("missing numeric version".to_owned()));
        },
    }
    match read_envelope(&json) {
        Err(message) => Err(ReplayError::Malformed(message)),
        Ok(envelope) => {
            if envelope.dialect == target_dialect && *envelope.model.as_str() == *target_model {
                Ok(ReplayDecision::Native(envelope.blocks))
            } else {
                Ok(ReplayDecision::ModelOrDialectChanged { visible })
            }
        },
    }
}

/// Decides what becomes of carried content: it is replayed natively only where
/// dialect and model are exactly those that thought it.
pub fn decode_thinking_replay(
    opaque: &str,
    visible: Vec<String>,
    target_dialect: InferenceDialect,
    target_model: &str,
) -> (decided: Result<ReplayDecision, ReplayError>)
    ensures
        outcome(decided) == decision(opaque@, visible.deep_view(), target_dialect, target_model@),
{
    match strip_prefix(opaque, PREFIX) {
        None => Ok(ReplayDecision::UnrelatedOpaqueContent { visible }),
        Some(json) => decide_replay(parse_json(&json), visible, target_dialect, target_model),
    }
}

// ---- what is written is read back ----

/// What becomes of thinking that was carried from one model to another.
pub open spec fn carried_over(
    dialect: InferenceDialect,
    model: Seq<char>,
    blocks: Seq<ThinkingReplayBlockModel>,
    visible: Seq<Seq<char>>,
    target_dialect: InferenceDialect,
    target_model: Seq<char>,
) -> ReplayDecisionModel {
    if dialect == target_dialect && model == target_model {
        ReplayDecisionModel::Native(blocks)
    } else {
        ReplayDecisionModel::ModelOrDialectChanged { visible }
    }
}

proof fn lemma_names_distinct()
    ensures
        "version"@ != "dialect"@,
        "version"@ != "model"@,
        "version"@ != "blocks"@,
        "dialect"@ != "model"@,
        "dialect"@ != "blocks"@,
        "model"@ != "blocks"@,
        "type"@ != "thinking"@,
        "type"@ != "signature"@,
        "thinking"@ != "signature"@,
        "type"@ != "data"@,
        "signed"@ != "redacted"@,
{
    reveal_strlit("version");
    reveal_strlit("dialect");
    reveal_strlit("model");
    reveal_strlit("blocks");
    reveal_strlit("type");
    reveal_strlit("thinking");
    reveal_strlit("signature");
    reveal_strlit("data");
    reveal_strlit("signed");
    reveal_strlit("redacted");
    assert("version"@.len() == 7 && "dialect"@.len() == 7 && "model"@.len() == 5 && "blocks"@.len() == 6);
    assert("type"@.len() == 4 && "thinking"@.len() == 8 && "signature"@.len() == 9 && "data"@.len() == 4);
    assert("signed"@.len() == 6 && "redacted"@.len() == 8);
    assert("version"@[0] != "dialect"@[0]);
    assert("type"@[0] != "data"@[0]);
}

proof fn lemma_dialect_label(dialect: InferenceDialect)
    ensures
        dialect_named(dialect.label()) == Ok::<InferenceDialect, Seq<char>>(dialect),
{
    reveal_strlit("open_ai");
    reveal_strlit("claude_code");
    reveal_strlit("kimi");
    reveal_strlit("grok");
    reveal_strlit("other");
    assert("open_ai"@.len() == 7 && "claude_code"@.len() == 11 && "kimi"@.len() == 4);
    assert("grok"@.len() == 4 && "other"@.len() == 5);
    assert("kimi"@[0] != "grok"@[0]);
}

proof fn lemma_block_read(block: ThinkingReplayBlockModel, bound: nat)
    requires
        bound > 0,
    ensures
        block_of(sorted(block_json(block))) == Ok::<ThinkingReplayBlockModel, Seq<char>>(block),
        canonical(block_json(block)),
        nesting(block_json(block), bound),
{
    lemma_names_distinct();
    let json = block_json(block);
    let entries = json->Object_0;
    reveal_with_fuel(crate::fields::lookup, 4);
    assert(distinct(entries));
    lemma_object_canonical(entries, 0, (bound - 1) as nat);
    match block {
        ThinkingReplayBlockModel::Signed { thinking, signature } => {
            assert(entries.drop_first() =~= seq![
                ("thinking"@, JsonModel::Text(thinking)),
                ("signature"@, JsonModel::Text(signature)),
            ]);
            assert(entries.drop_first().drop_first() =~= seq![("signature"@, JsonModel::Text(signature))]);
            lemma_sorted_member(json, "type"@);
            lemma_sorted_member(json, "thinking"@);
            lemma_sorted_member(json, "signature"@);
        },
        ThinkingReplayBlockModel::Redacted { data } => {
            assert(entries.drop_first() =~= seq![("data"@, JsonModel::Text(data))]);
            lemma_sorted_member(json, "type"@);
            lemma_sorted_member(json, "data"@);
        },
    }
}

proof fn lemma_blocks_read(blocks: Seq<ThinkingReplayBlockModel>, items: Seq<JsonModel>, at: int)
    requires
        0 <= at <= blocks.len(),
        items.len() == blocks.len(),
        forall|i: int| 0 <= i < blocks.len() ==> #[trigger] items[i] == sorted(block_json(blocks[i])),
    ensures
        blocks_from(items, at, blocks.take(at)) == Ok::<Seq<ThinkingReplayBlockModel>, Seq<char>>(blocks),
    decreases blocks.len() - at,
{
    if at < blocks.len() {
        lemma_block_read(blocks[at], 1);
        assert(items[at] == sorted(block_json(blocks[at])));
        assert(blocks.take(at).push(blocks[at]) =~= blocks.take(at + 1));
        lemma_blocks_read(blocks, items, at + 1);
    } else {
        assert(blocks.take(at) =~= blocks);
    }
}

proof fn lemma_envelope_read(dialect: InferenceDialect, model: Seq<char>, blocks: Seq<ThinkingReplayBlockModel>)
    ensures
        member(sorted(envelope_json(dialect, model, blocks)), "version"@) == Some(
            JsonModel::Number(JsonNumberModel::Unsigned(VERSION)),
        ),
        envelope_of(sorted(envelope_json(dialect, model, blocks))) == Ok::<ReplayEnvelopeModel, Seq<char>>(
            ReplayEnvelopeModel { dialect, model, blocks },
        ),
        canonical(envelope_json(dialect, model, blocks)),
        nesting(envelope_json(dialect, model, blocks), 127),
{
    lemma_names_distinct();
    lemma_dialect_label(dialect);
    let json = envelope_json(dialect, model, blocks);
    let entries = json->Object_0;
    let items = Seq::new(blocks.len(), |i: int| block_json(blocks[i]));
    reveal_with_fuel(crate::fields::lookup, 5);
    assert(entries.drop_first().drop_first().drop_first() =~= seq![entries[3]]);
    assert(entries.drop_first().drop_first() =~= seq![entries[2], entries[3]]);
    assert(entries.drop_first() =~= seq![entries[1], entries[2], entries[3]]);
    assert(distinct(entries));
    lemma_sorted_member(json, "version"@);
    lemma_sorted_member(json, "dialect"@);
    lemma_sorted_member(json, "model"@);
    lemma_sorted_member(json, "blocks"@);
    assert(member(json, "blocks"@) == Some(JsonModel::Array(items)));
    let read = sorted(JsonModel::Array(items))->Array_0;
    lemma_blocks_read(blocks, read, 0);
    assert(blocks.take(0) =~= Seq::empty());
    assert forall|i: int| 0 <= i < items.len() implies canonical(#[trigger] items[i]) && nesting(items[i], 125) by {
        lemma_block_read(blocks[i], 125);
    }
    lemma_array_canonical(items, 0, 125);
    lemma_object_canonical(entries, 0, 126);
}

/// Writes thinking with the dialect and the model that it belongs to. Reading
/// it back gives the thinking to exactly that dialect and model, and what is
/// visible to any other.
pub fn encode_thinking_replay(dialect: InferenceDialect, model: &str, blocks: Vec<ThinkingReplayBlock>) -> (carried:
    Result<String, ReplayError>)
    ensures
        outcome(carried) == if model@.len() == 0 {
            Err(ReplayErrorModel::EmptyModel)
        } else {
            Ok(PREFIX@ + json_print(envelope_json(dialect, model@, blocks.deep_view())))
        },
        carried matches Ok(text) ==> forall|
            visible: Seq<Seq<char>>,
            target_dialect: InferenceDialect,
            target_model: Seq<char>,
        | #[trigger]
            decision(text@, visible, target_dialect, target_model) == Ok::<ReplayDecisionModel, ReplayErrorModel>(
                carried_over(dialect, model@, blocks.deep_view(), visible, target_dialect, target_model),
            ),
{
    if model.is_empty() {
        return Err(ReplayError::EmptyModel);
    }
    let envelope = write_envelope(dialect, model, &blocks);
    let json = print_json(&envelope);
    let text = concat(PREFIX, &json);
    proof {
        lemma_envelope_read(dialect, model@, blocks.deep_view());
        assert(text@.take(PREFIX@.len() as int) =~= PREFIX@);
        assert(text@.skip(PREFIX@.len() as int) =~= json@);
    }
    Ok(text)
}

} // verus!
