//! The models of a llama.cpp endpoint.
use crate::json::{lemma_array_model, member, Json, JsonModel, JsonNumber, JsonNumberModel};
use crate::model::{no_items, outcome, push_item, Duplicate};
use crate::read::{
    describe, described, fill, filled, given_text, length_error, missing, missing_field, not_object, object_error,
    read_given_text, seat, take_seat, type_error, wrong_length, wrong_type, Source,
};
use crate::text::{chars_of, concat, concat3, lowercase, strip_suffix, text_range, to_lowercase, without_suffix};
use vstd::prelude::*;
use vstd::string::*;

verus! {

/// The context window of a model that does not tell its own.
pub const FALLBACK_CONTEXT_WINDOW: u64 = 32_768;

/// How many tokens a response may have.
pub const MAX_OUTPUT_TOKENS: u64 = 8_192;

/// How many tokens are kept free.
pub const SAFETY_MARGIN_TOKENS: u64 = 1_024;

/// The name that stands for the only model.
pub const CONVENIENCE_ALIAS: &'static str = "llama-cpp-local";

/// One model exposed by the managed llama.cpp endpoint.
#[derive(Debug, Clone, PartialEq, Eq)]
pub struct LlamaCppCatalogEntry {
    pub canonical_id: String,
    pub wire_model: String,
    pub display_name: String,
    pub aliases: Vec<String>,
    pub context_window: u64,
    pub max_input_tokens: u64,
    pub max_output_tokens: u64,
    pub safety_margin_tokens: u64,
}

/// The model of [`LlamaCppCatalogEntry`].
#[verifier::ext_equal]
pub struct LlamaCppCatalogEntryModel {
    pub canonical_id: Seq<char>,
    pub wire_model: Seq<char>,
    pub display_name: Seq<char>,
    pub aliases: Seq<Seq<char>>,
    pub context_window: u64,
    pub max_input_tokens: u64,
    pub max_output_tokens: u64,
    pub safety_margin_tokens: u64,
}

impl DeepView for LlamaCppCatalogEntry {
    type V = LlamaCppCatalogEntryModel;

    open spec fn deep_view(&self) -> LlamaCppCatalogEntryModel {
        LlamaCppCatalogEntryModel {
            canonical_id: self.canonical_id.deep_view(),
            wire_model: self.wire_model.deep_view(),
            display_name: self.display_name.deep_view(),
            aliases: self.aliases.deep_view(),
            context_window: self.context_window.deep_view(),
            max_input_tokens: self.max_input_tokens.deep_view(),
            max_output_tokens: self.max_output_tokens.deep_view(),
            safety_margin_tokens: self.safety_margin_tokens.deep_view(),
        }
    }
}

impl Duplicate for LlamaCppCatalogEntry {
    fn duplicate(&self) -> (copy: Self) {
        LlamaCppCatalogEntry {
            canonical_id: self.canonical_id.duplicate(),
            wire_model: self.wire_model.duplicate(),
            display_name: self.display_name.duplicate(),
            aliases: self.aliases.duplicate(),
            context_window: self.context_window.duplicate(),
            max_input_tokens: self.max_input_tokens.duplicate(),
            max_output_tokens: self.max_output_tokens.duplicate(),
            safety_margin_tokens: self.safety_margin_tokens.duplicate(),
        }
    }
}

/// Runtime model catalog derived directly from llama.cpp's `/v1/models` response.
#[derive(Debug, Clone, PartialEq, Eq)]
pub struct LlamaCppCatalog {
    pub models: Vec<LlamaCppCatalogEntry>,
}

/// The model of [`LlamaCppCatalog`].
#[verifier::ext_equal]
pub struct LlamaCppCatalogModel {
    pub models: Seq<LlamaCppCatalogEntryModel>,
}

impl DeepView for LlamaCppCatalog {
    type V = LlamaCppCatalogModel;

    open spec fn deep_view(&self) -> LlamaCppCatalogModel {
        LlamaCppCatalogModel {
            models: self.models.deep_view(),
        }
    }
}

impl Duplicate for LlamaCppCatalog {
    fn duplicate(&self) -> (copy: Self) {
        LlamaCppCatalog {
            models: self.models.duplicate(),
        }
    }
}

/// A selected local model is not present in the latest endpoint catalog.
#[derive(Debug, Clone, PartialEq, Eq)]
pub struct LlamaCppModelSelectionError {
    pub requested: String,
    pub currently_discovered: Vec<String>,
}

/// The model of [`LlamaCppModelSelectionError`].
#[verifier::ext_equal]
pub struct LlamaCppModelSelectionErrorModel {
    pub requested: Seq<char>,
    pub currently_discovered: Seq<Seq<char>>,
}

impl DeepView for LlamaCppModelSelectionError {
    type V = LlamaCppModelSelectionErrorModel;

    open spec fn deep_view(&self) -> LlamaCppModelSelectionErrorModel {
        LlamaCppModelSelectionErrorModel {
            requested: self.requested.deep_view(),
            currently_discovered: self.currently_discovered.deep_view(),
        }
    }
}

impl Duplicate for LlamaCppModelSelectionError {
    fn duplicate(&self) -> (copy: Self) {
        LlamaCppModelSelectionError {
            requested: self.requested.duplicate(),
            currently_discovered: self.currently_discovered.duplicate(),
        }
    }
}

/// What an endpoint tells of a model.
#[derive(Debug, Clone, Copy, PartialEq, Eq, Structural)]
pub struct DiscoveredModelMeta {
    pub n_ctx: Option<i64>,
}

impl DeepView for DiscoveredModelMeta {
    type V = DiscoveredModelMeta;

    open spec fn deep_view(&self) -> DiscoveredModelMeta {
        *self
    }
}

impl Duplicate for DiscoveredModelMeta {
    fn duplicate(&self) -> (copy: Self) {
        *self
    }
}

/// A model that an endpoint lists.
#[derive(Debug, Clone, PartialEq, Eq)]
pub struct DiscoveredModel {
    pub id: String,
    pub meta: Option<DiscoveredModelMeta>,
}

/// The model of [`DiscoveredModel`].
#[verifier::ext_equal]
pub struct DiscoveredModelModel {
    pub id: Seq<char>,
    pub meta: Option<DiscoveredModelMeta>,
}

impl DeepView for DiscoveredModel {
    type V = DiscoveredModelModel;

    open spec fn deep_view(&self) -> DiscoveredModelModel {
        DiscoveredModelModel {
            id: self.id.deep_view(),
            meta: self.meta.deep_view(),
        }
    }
}

impl Duplicate for DiscoveredModel {
    fn duplicate(&self) -> (copy: Self) {
        DiscoveredModel {
            id: self.id.duplicate(),
            meta: self.meta.duplicate(),
        }
    }
}

/// The models that an endpoint lists.
#[derive(Debug, Clone, PartialEq, Eq)]
pub struct ModelsResponse {
    pub data: Vec<DiscoveredModel>,
}

/// The model of [`ModelsResponse`].
#[verifier::ext_equal]
pub struct ModelsResponseModel {
    pub data: Seq<DiscoveredModelModel>,
}

impl DeepView for ModelsResponse {
    type V = ModelsResponseModel;

    open spec fn deep_view(&self) -> ModelsResponseModel {
        ModelsResponseModel {
            data: self.data.deep_view(),
        }
    }
}

impl Duplicate for ModelsResponse {
    fn duplicate(&self) -> (copy: Self) {
        ModelsResponse {
            data: self.data.duplicate(),
        }
    }
}

// ---- names ----

/// The place behind the last slash or backslash below `end`.
pub open spec fn after_separator(id: Seq<char>, end: int) -> int
    decreases end,
{
    if end <= 0 || end > id.len() {
        0
    } else if id[end - 1] == '/' || id[end - 1] == '\\' {
        end
    } else {
        after_separator(id, end - 1)
    }
}

/// The name of a model without the directories before it.
pub open spec fn basename(id: Seq<char>) -> Seq<char> {
    id.skip(after_separator(id, id.len() as int))
}

/// A name without the ending of model files.
pub open spec fn without_ending(name: Seq<char>) -> Seq<char> {
    match without_suffix(name, ".gguf"@) {
        Some(rest) => rest,
        None => name,
    }
}

/// The short name of a model.
pub open spec fn short_name(id: Seq<char>) -> Seq<char> {
    without_ending(basename(id))
}

fn model_basename(id: &str) -> (name: String)
    ensures
        name@ == basename(id@),
{
    let chars = chars_of(id);
    let mut end: usize = chars.len();
    while end > 0 && chars[end - 1] != '/' && chars[end - 1] != '\\'
        invariant
            end <= chars.len(),
            chars@ == id@,
            after_separator(id@, id@.len() as int) == after_separator(id@, end as int),
        decreases end,
    {
        end -= 1;
    }
    assert(after_separator(id@, end as int) == end);
    assert(chars@.subrange(end as int, chars@.len() as int) =~= id@.skip(end as int));
    text_range(&chars, end, chars.len())
}

fn without_gguf_suffix(name: &str) -> (rest: String)
    ensures
        rest@ == without_ending(name@),
{
    match strip_suffix(name, ".gguf") {
        Some(rest) => rest,
        None => name.to_owned(),
    }
}

// ---- discovery ----

/// How many of the models from `at` on have this short name, whatever its case.
pub open spec fn namesakes(data: Seq<DiscoveredModelModel>, name: Seq<char>, at: int) -> nat
    decreases data.len() - at,
{
    if at < 0 || at >= data.len() {
        0
    } else {
        namesakes(data, name, at + 1) + if lowercase(short_name(data[at].id)) == lowercase(name) {
            1nat
        } else {
            0nat
        }
    }
}

/// The other names of a model: its short name where no other model has it, and
/// one for the only model.
pub open spec fn aliases_of(data: Seq<DiscoveredModelModel>, id: Seq<char>) -> Seq<Seq<char>> {
    let own = if namesakes(data, short_name(id), 0) == 1 {
        seq![short_name(id)]
    } else {
        Seq::empty()
    };
    if data.len() == 1 && own != seq![CONVENIENCE_ALIAS@] {
        own.push(CONVENIENCE_ALIAS@)
    } else {
        own
    }
}

/// The context window that a model tells, or else the usual one.
pub open spec fn window_of(meta: Option<DiscoveredModelMeta>) -> u64 {
    match meta {
        Some(meta) => match meta.n_ctx {
            Some(count) => if count > 0 {
                count as u64
            } else {
                FALLBACK_CONTEXT_WINDOW
            },
            None => FALLBACK_CONTEXT_WINDOW,
        },
        None => FALLBACK_CONTEXT_WINDOW,
    }
}

/// How many tokens of a context window the input may take.
pub open spec fn input_room(context_window: u64) -> u64 {
    if context_window > MAX_OUTPUT_TOKENS + SAFETY_MARGIN_TOKENS {
        (context_window - MAX_OUTPUT_TOKENS - SAFETY_MARGIN_TOKENS) as u64
    } else {
        0
    }
}

/// The entry of a model.
pub open spec fn entry_of(data: Seq<DiscoveredModelModel>, model: DiscoveredModelModel) -> LlamaCppCatalogEntryModel {
    LlamaCppCatalogEntryModel {
        canonical_id: "local/"@ + model.id,
        wire_model: model.id,
        display_name: basename(model.id),
        aliases: aliases_of(data, model.id),
        context_window: window_of(model.meta),
        max_input_tokens: input_room(window_of(model.meta)),
        max_output_tokens: MAX_OUTPUT_TOKENS,
        safety_margin_tokens: SAFETY_MARGIN_TOKENS,
    }
}

/// The catalog of the models that an endpoint lists, in their order.
pub open spec fn catalog_of(data: Seq<DiscoveredModelModel>) -> LlamaCppCatalogModel {
    LlamaCppCatalogModel {
        models: Seq::new(data.len(), |i: int| entry_of(data, data[i])),
    }
}

fn is_only_namesake(data: &Vec<DiscoveredModel>, name: &str) -> (only: bool)
    ensures
        only == (namesakes(data.deep_view(), name@, 0) == 1),
{
    let lower = to_lowercase(name);
    let mut found: usize = 0;
    let mut i: usize = data.len();
    while i > 0
        invariant
            i <= data.len(),
            lower@ == lowercase(name@),
            found <= data.len() - i,
            found == namesakes(data.deep_view(), name@, i as int),
        decreases i,
    {
        i -= 1;
        assert(data.deep_view()[i as int] == data@[i as int].deep_view());
        let other = to_lowercase(&without_gguf_suffix(&model_basename(&data[i].id)));
        if *other.as_str() == *lower.as_str() {
            found += 1;
        }
    }
    found == 1
}

fn list_aliases(data: &Vec<DiscoveredModel>, id: &str) -> (aliases: Vec<String>)
    ensures
        aliases.deep_view() == aliases_of(data.deep_view(), id@),
{
    let name = without_gguf_suffix(&model_basename(id));
    let mut aliases: Vec<String> = no_items();
    let mut convenient = false;
    if is_only_namesake(data, &name) {
        convenient = *name.as_str() == *CONVENIENCE_ALIAS;
        push_item(&mut aliases, name);
        assert(aliases.deep_view() =~= seq![name@]);
        assert(seq![name@][0] == name@);
        assert(convenient == (seq![name@] == seq![CONVENIENCE_ALIAS@])) by {
            assert(seq![CONVENIENCE_ALIAS@][0] == CONVENIENCE_ALIAS@);
        }
    } else {
        assert(aliases.deep_view() =~= Seq::empty());
        assert(aliases.deep_view().len() != seq![CONVENIENCE_ALIAS@].len());
    }
    if data.len() == 1 && !convenient {
        push_item(&mut aliases, CONVENIENCE_ALIAS.to_owned());
    }
    aliases
}

fn make_entry(data: &Vec<DiscoveredModel>, model: &DiscoveredModel) -> (entry: LlamaCppCatalogEntry)
    ensures
        entry.deep_view() == entry_of(data.deep_view(), model.deep_view()),
{
    let context_window = match model.meta {
        Some(meta) => match meta.n_ctx {
            Some(count) => if count > 0 {
                count as u64
            } else {
                FALLBACK_CONTEXT_WINDOW
            },
            None => FALLBACK_CONTEXT_WINDOW,
        },
        None => FALLBACK_CONTEXT_WINDOW,
    };
    let max_input_tokens = if context_window > MAX_OUTPUT_TOKENS + SAFETY_MARGIN_TOKENS {
        context_window - (MAX_OUTPUT_TOKENS + SAFETY_MARGIN_TOKENS)
    } else {
        0
    };
    LlamaCppCatalogEntry {
        canonical_id: concat("local/", &model.id),
        wire_model: model.id.duplicate(),
        display_name: model_basename(&model.id),
        aliases: list_aliases(data, &model.id),
        context_window,
        max_input_tokens,
        max_output_tokens: MAX_OUTPUT_TOKENS,
        safety_margin_tokens: SAFETY_MARGIN_TOKENS,
    }
}

// ---- selection ----

/// Whether a model goes by this name.
pub open spec fn goes_by(entry: LlamaCppCatalogEntryModel, requested: Seq<char>) -> bool {
    entry.canonical_id == requested || entry.aliases.contains(requested)
}

/// The first model from `at` on that goes by this name.
pub open spec fn selected_from(models: Seq<LlamaCppCatalogEntryModel>, requested: Seq<char>, at: int) -> Option<
    LlamaCppCatalogEntryModel,
>
    decreases models.len() - at,
{
    if at < 0 || at >= models.len() {
        None
    } else if goes_by(models[at], requested) {
        Some(models[at])
    } else {
        selected_from(models, requested, at + 1)
    }
}

/// The first model that goes by this name, or the names of those that there are.
pub open spec fn resolved(catalog: LlamaCppCatalogModel, requested: Seq<char>) -> Result<
    LlamaCppCatalogEntryModel,
    LlamaCppModelSelectionErrorModel,
> {
    match selected_from(catalog.models, requested, 0) {
        Some(entry) => Ok(entry),
        None => Err(
            LlamaCppModelSelectionErrorModel {
                requested,
                currently_discovered: Seq::new(catalog.models.len(), |i: int| catalog.models[i].canonical_id),
            },
        ),
    }
}

fn answers_to(entry: &LlamaCppCatalogEntry, requested: &str) -> (so: bool)
    ensures
        so == goes_by(entry.deep_view(), requested@),
{
    if *entry.canonical_id.as_str() == *requested {
        return true;
    }
    let mut i: usize = 0;
    while i < entry.aliases.len()
        invariant
            i <= entry.aliases.len(),
            forall|j: int| 0 <= j < i ==> entry.aliases.deep_view()[j] != requested@,
        decreases entry.aliases.len() - i,
    {
        assert(entry.aliases.deep_view()[i as int] == entry.aliases@[i as int]@);
        if *entry.aliases[i].as_str() == *requested {
            assert(entry.aliases.deep_view().contains(requested@));
            return true;
        }
        i += 1;
    }
    false
}

impl Default for LlamaCppCatalog {
    /// A catalog without models.
    fn default() -> (catalog: Self)
        ensures
            catalog.deep_view().models == Seq::<LlamaCppCatalogEntryModel>::empty(),
    {
        LlamaCppCatalog { models: no_items() }
    }
}

impl LlamaCppCatalog {
    /// The catalog of the models that an endpoint lists.
    pub fn from_discovery(response: &ModelsResponse) -> (catalog: Self)
        ensures
            catalog.deep_view() == catalog_of(response.deep_view().data),
    {
        let data = &response.data;
        let mut models: Vec<LlamaCppCatalogEntry> = no_items();
        let mut i: usize = 0;
        while i < data.len()
            invariant
                i <= data.len(),
                models.deep_view() == Seq::new(i as nat, |j: int| entry_of(data.deep_view(), data.deep_view()[j])),
            decreases data.len() - i,
        {
            push_item(&mut models, make_entry(data, &data[i]));
            i += 1;
            assert(models.deep_view() =~= Seq::new(
                i as nat,
                |j: int| entry_of(data.deep_view(), data.deep_view()[j]),
            ));
        }
        LlamaCppCatalog { models }
    }

    /// The first model that goes by this name, by its canonical name or by
    /// another.
    pub fn resolve(&self, requested: &str) -> (entry: Result<LlamaCppCatalogEntry, LlamaCppModelSelectionError>)
        ensures
            outcome(entry) == resolved(self.deep_view(), requested@),
    {
        let mut names: Vec<String> = no_items();
        let mut i: usize = 0;
        while i < self.models.len()
            invariant
                i <= self.models.len(),
                names.deep_view() == Seq::new(i as nat, |j: int| self.models.deep_view()[j].canonical_id),
                selected_from(self.models.deep_view(), requested@, 0) == selected_from(
                    self.models.deep_view(),
                    requested@,
                    i as int,
                ),
            decreases self.models.len() - i,
        {
            assert(self.models.deep_view()[i as int] == self.models@[i as int].deep_view());
            if answers_to(&self.models[i], requested) {
                return Ok(self.models[i].duplicate());
            }
            push_item(&mut names, self.models[i].canonical_id.duplicate());
            i += 1;
            assert(names.deep_view() =~= Seq::new(i as nat, |j: int| self.models.deep_view()[j].canonical_id));
        }
        Err(LlamaCppModelSelectionError { requested: requested.to_owned(), currently_discovered: names })
    }
}

/// Names from `at` on behind what is done, with a comma between each two.
pub open spec fn listed_from(names: Seq<Seq<char>>, at: int, done: Seq<char>) -> Seq<char>
    decreases names.len() - at,
{
    if at < 0 || at >= names.len() {
        done
    } else if at == 0 {
        listed_from(names, at + 1, done + names[at])
    } else {
        listed_from(names, at + 1, done + ", "@ + names[at])
    }
}

impl LlamaCppModelSelectionErrorModel {
    /// The message of the error.
    pub open spec fn text(self) -> Seq<char> {
        if self.currently_discovered.len() == 0 {
            "llama.cpp model `"@ + self.requested
                + "` is unavailable; the endpoint currently advertises no models"@
        } else {
            listed_from(
                self.currently_discovered,
                0,
                "llama.cpp model `"@ + self.requested + "` is unavailable; currently discovered choices: "@,
            )
        }
    }
}

impl LlamaCppModelSelectionError {
    /// The message of the error.
    pub fn message(&self) -> (message: String)
        ensures
            message@ == self.deep_view().text(),
    {
        let names = &self.currently_discovered;
        if names.len() == 0 {
            return concat3(
                "llama.cpp model `",
                &self.requested,
                "` is unavailable; the endpoint currently advertises no models",
            );
        }
        let mut text = concat3(
            "llama.cpp model `",
            &self.requested,
            "` is unavailable; currently discovered choices: ",
        );
        let mut i: usize = 0;
        while i < names.len()
            invariant
                i <= names.len(),
                *names == self.currently_discovered,
                names.len() > 0,
                self.deep_view().text() == listed_from(names.deep_view(), i as int, text@),
            decreases names.len() - i,
        {
            assert(names.deep_view()[i as int] == names@[i as int]@);
            if i > 0 {
                text.append(", ");
            }
            text.append(&names[i]);
            i += 1;
        }
        text
    }
}

// ---- reading ----

/// The signed number of a value, where it is one that fits.
pub open spec fn as_signed(json: JsonModel) -> Result<i64, Seq<char>> {
    match json {
        JsonModel::Number(JsonNumberModel::Unsigned(value)) => if value <= i64::MAX {
            Ok(value as i64)
        } else {
            Err("invalid value: "@ + described(json) + ", expected i64"@)
        },
        JsonModel::Number(JsonNumberModel::Negative(value)) => Ok(value),
        _ => Err(wrong_type(json, "i64"@)),
    }
}

fn read_signed(json: &Json) -> (value: Result<i64, String>)
    ensures
        outcome(value) == as_signed(json.deep_view()),
{
    match json {
        Json::Number(JsonNumber::Unsigned(value)) => {
            if *value <= i64::MAX as u64 {
                Ok(*value as i64)
            } else {
                Err(concat3("invalid value: ", &describe(json), ", expected i64"))
            }
        },
        Json::Number(JsonNumber::Negative(value)) => Ok(*value),
        _ => Err(type_error(json, "i64")),
    }
}

/// The number under `name`, where there is a value that is not null.
pub open spec fn optional_signed(json: JsonModel, name: Seq<char>) -> Result<Option<i64>, Seq<char>> {
    match member(json, name) {
        None => Ok(None),
        Some(JsonModel::Null) => Ok(None),
        Some(value) => match as_signed(value) {
            Ok(value) => Ok(Some(value)),
            Err(message) => Err(message),
        },
    }
}

fn read_optional_signed(json: &Json, name: &str) -> (value: Result<Option<i64>, String>)
    ensures
        outcome(value) == optional_signed(json.deep_view(), name@),
{
    match json.get(name) {
        None => Ok(None),
        Some(Json::Null) => Ok(None),
        Some(value) => match read_signed(value) {
            Ok(value) => Ok(Some(value)),
            Err(message) => Err(message),
        },
    }
}

/// What an array tells of a model by position.
pub open spec fn seated_meta(items: Seq<JsonModel>) -> Result<DiscoveredModelMeta, Seq<char>> {
    if items.len() <= 0 {
        Err(wrong_length(0, "struct DiscoveredModelMeta with 1 element"@))
    } else {
        match optional_signed(seat(items, 0, "n_ctx"@), "n_ctx"@) {
            Err(message) => Err(message),
            Ok(n_ctx) => filled(DiscoveredModelMeta { n_ctx }, items.len(), 1, Source::Text),
        }
    }
}

fn read_seated_meta(items: &Vec<Json>) -> (read: Result<DiscoveredModelMeta, String>)
    ensures
        outcome(read) == seated_meta(items.deep_view()),
{
    if items.len() <= 0 {
        return Err(length_error(0, "struct DiscoveredModelMeta with 1 element"));
    }
    let json = take_seat(items, 0, "n_ctx");
    let n_ctx = match read_optional_signed(&json, "n_ctx") {
        Err(message) => {
            return Err(message);
        },
        Ok(value) => value,
    };
    fill(DiscoveredModelMeta { n_ctx }, items.len(), 1, Source::Text)
}

/// What a value tells of a model.
pub open spec fn meta_of(json: JsonModel) -> Result<DiscoveredModelMeta, Seq<char>> {
    match json {
        JsonModel::Array(items) => seated_meta(items),
        _ => match not_object(json, "struct DiscoveredModelMeta"@) {
            Some(message) => Err(message),
            None => match optional_signed(json, "n_ctx"@) {
                Ok(n_ctx) => Ok(DiscoveredModelMeta { n_ctx }),
                Err(message) => Err(message),
            },
        },
    }
}

fn read_meta(json: &Json) -> (meta: Result<DiscoveredModelMeta, String>)
    ensures
        outcome(meta) == meta_of(json.deep_view()),
{
    broadcast use lemma_array_model;
    if let Json::Array(items) = json {
        return read_seated_meta(items);
    }
    if let Some(message) = object_error(json, "struct DiscoveredModelMeta") {
        return Err(message);
    }
    match read_optional_signed(json, "n_ctx") {
        Ok(n_ctx) => Ok(DiscoveredModelMeta { n_ctx }),
        Err(message) => Err(message),
    }
}

/// What is told of a model under `meta`, where there is a value that is not
/// null.
pub open spec fn optional_meta(json: JsonModel) -> Result<Option<DiscoveredModelMeta>, Seq<char>> {
    match member(json, "meta"@) {
        None => Ok(None),
        Some(JsonModel::Null) => Ok(None),
        Some(value) => match meta_of(value) {
            Ok(meta) => Ok(Some(meta)),
            Err(message) => Err(message),
        },
    }
}

fn read_optional_meta(json: &Json) -> (meta: Result<Option<DiscoveredModelMeta>, String>)
    ensures
        outcome(meta) == optional_meta(json.deep_view()),
{
    match json.get("meta") {
        None => Ok(None),
        Some(Json::Null) => Ok(None),
        Some(value) => match read_meta(value) {
            Ok(meta) => Ok(Some(meta)),
            Err(message) => Err(message),
        },
    }
}

/// The model that an array holds by position.
pub open spec fn seated_model(items: Seq<JsonModel>) -> Result<DiscoveredModelModel, Seq<char>> {
    match given_text(seat(items, 0, "id"@), "id"@) {
        Err(message) => Err(message),
        Ok(None) => Err(wrong_length(0, "struct DiscoveredModel with 2 elements"@)),
        Ok(Some(id)) => if items.len() <= 1 {
            Err(wrong_length(1, "struct DiscoveredModel with 2 elements"@))
        } else {
            match optional_meta(seat(items, 1, "meta"@)) {
                Err(message) => Err(message),
                Ok(meta) => filled(DiscoveredModelModel { id, meta }, items.len(), 2, Source::Text),
            }
        },
    }
}

fn read_seated_model(items: &Vec<Json>) -> (read: Result<DiscoveredModel, String>)
    ensures
        outcome(read) == seated_model(items.deep_view()),
{
    let json = take_seat(items, 0, "id");
    let id = match read_given_text(&json, "id") {
        Err(message) => {
            return Err(message);
        },
        Ok(None) => {
            return Err(length_error(0, "struct DiscoveredModel with 2 elements"));
        },
        Ok(Some(value)) => value,
    };
    if items.len() <= 1 {
        return Err(length_error(1, "struct DiscoveredModel with 2 elements"));
    }
    let json = take_seat(items, 1, "meta");
    let meta = match read_optional_meta(&json) {
        Err(message) => {
            return Err(message);
        },
        Ok(value) => value,
    };
    fill(DiscoveredModel { id, meta }, items.len(), 2, Source::Text)
}

/// The model that a value lists.
pub open spec fn model_of(json: JsonModel) -> Result<DiscoveredModelModel, Seq<char>> {
    match json {
        JsonModel::Array(items) => seated_model(items),
        _ => match not_object(json, "struct DiscoveredModel"@) {
            Some(message) => Err(message),
            None => match given_text(json, "id"@) {
                Err(message) => Err(message),
                Ok(id) => match optional_meta(json) {
                    Err(message) => Err(message),
                    Ok(meta) => match id {
                        None => Err(missing("id"@)),
                        Some(id) => Ok(DiscoveredModelModel { id, meta }),
                    },
                },
            },
        },
    }
}

fn read_model(json: &Json) -> (model: Result<DiscoveredModel, String>)
    ensures
        outcome(model) == model_of(json.deep_view()),
{
    broadcast use lemma_array_model;
    if let Json::Array(items) = json {
        return read_seated_model(items);
    }
    if let Some(message) = object_error(json, "struct DiscoveredModel") {
        return Err(message);
    }
    let id = match read_given_text(json, "id") {
        Ok(id) => id,
        Err(message) => {
            return Err(message);
        },
    };
    let meta = match read_optional_meta(json) {
        Ok(meta) => meta,
        Err(message) => {
            return Err(message);
        },
    };
    match id {
        None => Err(missing_field("id")),
        Some(id) => Ok(DiscoveredModel { id, meta }),
    }
}

/// The models from `at` on behind those that are done.
pub open spec fn models_from(items: Seq<JsonModel>, at: int, done: Seq<DiscoveredModelModel>) -> Result<
    Seq<DiscoveredModelModel>,
    Seq<char>,
>
    decreases items.len() - at,
{
    if at < 0 || at >= items.len() {
        Ok(done)
    } else {
        match model_of(items[at]) {
            Ok(model) => models_from(items, at + 1, done.push(model)),
            Err(message) => Err(message),
        }
    }
}

/// The models under `data`, where there is a value.
pub open spec fn given_models(json: JsonModel) -> Result<Option<Seq<DiscoveredModelModel>>, Seq<char>> {
    match member(json, "data"@) {
        None => Ok(None),
        Some(JsonModel::Array(items)) => match models_from(items, 0, Seq::empty()) {
            Ok(data) => Ok(Some(data)),
            Err(message) => Err(message),
        },
        Some(value) => Err(wrong_type(value, "a sequence"@)),
    }
}

fn read_given_models(json: &Json) -> (data: Result<Option<Vec<DiscoveredModel>>, String>)
    ensures
        outcome(data) == given_models(json.deep_view()),
{
    broadcast use lemma_array_model;
    match json.get("data") {
        None => Ok(None),
        Some(Json::Array(items)) => {
            let mut data: Vec<DiscoveredModel> = no_items();
            let mut i: usize = 0;
            while i < items.len()
                invariant
                    i <= items.len(),
                    member(json.deep_view(), "data"@) == Some(JsonModel::Array(items.deep_view())),
                    models_from(items.deep_view(), 0, Seq::empty()) == models_from(
                        items.deep_view(),
                        i as int,
                        data.deep_view(),
                    ),
                decreases items.len() - i,
            {
                assert(items.deep_view()[i as int] == items@[i as int].deep_view());
                match read_model(&items[i]) {
                    Ok(model) => {
                        push_item(&mut data, model);
                    },
                    Err(message) => {
                        return Err(message);
                    },
                }
                i += 1;
            }
            Ok(Some(data))
        },
        Some(value) => Err(type_error(value, "a sequence")),
    }
}

/// The models that an array holds by position.
pub open spec fn seated_models(items: Seq<JsonModel>) -> Result<ModelsResponseModel, Seq<char>> {
    match given_models(seat(items, 0, "data"@)) {
        Err(message) => Err(message),
        Ok(None) => Err(wrong_length(0, "struct ModelsResponse with 1 element"@)),
        Ok(Some(data)) => filled(ModelsResponseModel { data }, items.len(), 1, Source::Text),
    }
}

fn read_seated_models(items: &Vec<Json>) -> (read: Result<ModelsResponse, String>)
    ensures
        outcome(read) == seated_models(items.deep_view()),
{
    let json = take_seat(items, 0, "data");
    let data = match read_given_models(&json) {
        Err(message) => {
            return Err(message);
        },
        Ok(None) => {
            return Err(length_error(0, "struct ModelsResponse with 1 element"));
        },
        Ok(Some(value)) => value,
    };
    fill(ModelsResponse { data }, items.len(), 1, Source::Text)
}

/// The models that a value lists.
pub open spec fn models_of(json: JsonModel) -> Result<ModelsResponseModel, Seq<char>> {
    match json {
        JsonModel::Array(items) => seated_models(items),
        _ => match not_object(json, "struct ModelsResponse"@) {
            Some(message) => Err(message),
            None => match given_models(json) {
                Err(message) => Err(message),
                Ok(None) => Err(missing("data"@)),
                Ok(Some(data)) => Ok(ModelsResponseModel { data }),
            },
        },
    }
}

impl ModelsResponse {
    /// The models that a value lists.
    pub fn from_json(json: &Json) -> (response: Result<ModelsResponse, String>)
        ensures
            outcome(response) == models_of(json.deep_view()),
    {
        broadcast use lemma_array_model;
        if let Json::Array(items) = json {
            return read_seated_models(items);
        }
        if let Some(message) = object_error(json, "struct ModelsResponse") {
            return Err(message);
        }
        match read_given_models(json) {
            Err(message) => Err(message),
            Ok(None) => Err(missing_field("data")),
            Ok(Some(data)) => Ok(ModelsResponse { data }),
        }
    }
}

// ---- laws ----

proof fn lemma_selected(models: Seq<LlamaCppCatalogEntryModel>, requested: Seq<char>, at: int)
    requires
        0 <= at <= models.len(),
    ensures
        match selected_from(models, requested, at) {
            Some(entry) => exists|i: int|
                at <= i < models.len() && models[i] == entry && goes_by(models[i], requested),
            None => forall|i: int| at <= i < models.len() ==> !goes_by(#[trigger] models[i], requested),
        },
    decreases models.len() - at,
{
    if at < models.len() {
        if goes_by(models[at], requested) {
            assert(models[at] == models[at]);
        } else {
            lemma_selected(models, requested, at + 1);
        }
    }
}

/// Only a listed model is selected, and by one of its own names; nothing is
/// selected where no listed model goes by the name.
pub proof fn law_resolve_is_exact(catalog: LlamaCppCatalogModel, requested: Seq<char>)
    ensures
        match resolved(catalog, requested) {
            Ok(entry) => exists|i: int|
                0 <= i < catalog.models.len() && catalog.models[i] == entry && goes_by(catalog.models[i], requested),
            Err(_) => forall|i: int|
                0 <= i < catalog.models.len() ==> !goes_by(#[trigger] catalog.models[i], requested),
        },
{
    lemma_selected(catalog.models, requested, 0);
}

proof fn lemma_no_separator(id: Seq<char>, end: int, i: int)
    requires
        0 <= end <= id.len(),
        after_separator(id, end) <= i < end,
    ensures
        id[i] != '/',
        id[i] != '\\',
    decreases end,
{
    if end > 0 && !(id[end - 1] == '/' || id[end - 1] == '\\') && i < end - 1 {
        lemma_no_separator(id, end - 1, i);
    }
}

proof fn lemma_separator_bounds(id: Seq<char>, end: int)
    requires
        0 <= end <= id.len(),
    ensures
        0 <= after_separator(id, end) <= end,
    decreases end,
{
    if end > 0 && !(id[end - 1] == '/' || id[end - 1] == '\\') {
        lemma_separator_bounds(id, end - 1);
    }
}

proof fn lemma_short_name_plain(id: Seq<char>, i: int)
    requires
        0 <= i < short_name(id).len(),
    ensures
        short_name(id)[i] != '/',
{
    let start = after_separator(id, id.len() as int);
    lemma_separator_bounds(id, id.len() as int);
    lemma_no_separator(id, id.len() as int, start + i);
    assert(basename(id)[i] == id[start + i]);
}

proof fn lemma_alias_plain(data: Seq<DiscoveredModelModel>, id: Seq<char>, alias: Seq<char>, i: int)
    requires
        aliases_of(data, id).contains(alias),
        0 <= i < alias.len(),
    ensures
        alias[i] != '/',
{
    reveal_strlit("llama-cpp-local");
    let at = choose|k: int| 0 <= k < aliases_of(data, id).len() && aliases_of(data, id)[k] == alias;
    if alias == short_name(id) {
        lemma_short_name_plain(id, i);
    } else {
        assert(alias == CONVENIENCE_ALIAS@);
        assert(CONVENIENCE_ALIAS@.len() == 15);
        assert(CONVENIENCE_ALIAS@[0] == 'l' && CONVENIENCE_ALIAS@[1] == 'l' && CONVENIENCE_ALIAS@[2] == 'a'
            && CONVENIENCE_ALIAS@[3] == 'm' && CONVENIENCE_ALIAS@[4] == 'a' && CONVENIENCE_ALIAS@[5] == '-'
            && CONVENIENCE_ALIAS@[6] == 'c' && CONVENIENCE_ALIAS@[7] == 'p' && CONVENIENCE_ALIAS@[8] == 'p'
            && CONVENIENCE_ALIAS@[9] == '-' && CONVENIENCE_ALIAS@[10] == 'l' && CONVENIENCE_ALIAS@[11] == 'o'
            && CONVENIENCE_ALIAS@[12] == 'c' && CONVENIENCE_ALIAS@[13] == 'a' && CONVENIENCE_ALIAS@[14] == 'l');
    }
}

/// Every listed model can be selected by its canonical name, and what is
/// selected then is the same model on the wire.
pub proof fn law_canonical_name_selects_its_model(data: Seq<DiscoveredModelModel>, index: int)
    requires
        0 <= index < data.len(),
    ensures
        resolved(catalog_of(data), "local/"@ + data[index].id) matches Ok(entry) && entry.wire_model
            == data[index].id,
{
    let requested = "local/"@ + data[index].id;
    let models = catalog_of(data).models;
    reveal_strlit("local/");
    assert("local/"@.len() == 6 && "local/"@[5] == '/');
    assert(models[index].canonical_id == requested);
    assert(goes_by(models[index], requested));
    lemma_selected(models, requested, 0);
    let entry = resolved(catalog_of(data), requested)->Ok_0;
    let found = choose|i: int| 0 <= i < models.len() && models[i] == entry && goes_by(models[i], requested);
    if models[found].canonical_id != requested {
        assert(requested[5] == '/');
        lemma_alias_plain(data, data[found].id, requested, 5);
    } else {
        assert(("local/"@ + data[found].id).skip(6) =~= data[found].id);
        assert(("local/"@ + data[index].id).skip(6) =~= data[index].id);
    }
}

proof fn lemma_namesakes_bound(data: Seq<DiscoveredModelModel>, name: Seq<char>, at: int, i: int)
    requires
        0 <= at <= i < data.len(),
        lowercase(short_name(data[i].id)) == lowercase(name),
    ensures
        namesakes(data, name, at) >= 1,
    decreases data.len() - at,
{
    if at < i {
        lemma_namesakes_bound(data, name, at + 1, i);
    }
}

proof fn lemma_namesakes_two(data: Seq<DiscoveredModelModel>, name: Seq<char>, at: int, i: int, j: int)
    requires
        0 <= at <= i < j < data.len(),
        lowercase(short_name(data[i].id)) == lowercase(name),
        lowercase(short_name(data[j].id)) == lowercase(name),
    ensures
        namesakes(data, name, at) >= 2,
    decreases data.len() - at,
{
    if at < i {
        lemma_namesakes_two(data, name, at + 1, i, j);
    } else {
        lemma_namesakes_bound(data, name, at + 1, j);
    }
}

/// No two listed models share an alias, not even one that differs only in case.
pub proof fn law_aliases_are_unique(data: Seq<DiscoveredModelModel>, i: int, j: int, left: Seq<char>, right: Seq<char>)
    requires
        0 <= i < data.len(),
        0 <= j < data.len(),
        i != j,
        catalog_of(data).models[i].aliases.contains(left),
        catalog_of(data).models[j].aliases.contains(right),
    ensures
        lowercase(left) != lowercase(right),
{
    let first = data[i].id;
    let second = data[j].id;
    let at = choose|k: int| 0 <= k < aliases_of(data, first).len() && aliases_of(data, first)[k] == left;
    let to = choose|k: int| 0 <= k < aliases_of(data, second).len() && aliases_of(data, second)[k] == right;
    assert(left == short_name(first) && right == short_name(second));
    if lowercase(left) == lowercase(right) {
        if i < j {
            lemma_namesakes_two(data, left, 0, i, j);
        } else {
            lemma_namesakes_two(data, left, 0, j, i);
        }
    }
}

} // verus!
