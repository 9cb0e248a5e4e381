//! JSON values, read and written by `serde_json`.
use crate::fields::{find_field, law_put_then_lookup, lookup, put, put_field, StringMap};
use crate::model::{no_items, outcome, push_item, Duplicate};
use serde_json::{Number, Value};
use vstd::prelude::*;

verus! {

/// A JSON number: a whole number as it stands, any other by its shortest text.
#[derive(Debug, Clone, PartialEq, Eq)]
pub enum JsonNumber {
    /// A whole number that is not negative.
    Unsigned(u64),
    /// A negative whole number.
    Negative(i64),
    /// Any other number, by its text.
    Float(String),
}

/// A JSON value. The names of an object stand as they were given.
#[derive(Debug, PartialEq, Eq)]
pub enum Json {
    /// `null`.
    Null,
    /// `true` or `false`.
    Bool(bool),
    /// A number.
    Number(JsonNumber),
    /// A string.
    Text(String),
    /// An array.
    Array(Vec<Json>),
    /// An object.
    Object(Vec<(String, Json)>),
}

/// The model of a [`JsonNumber`].
pub enum JsonNumberModel {
    /// A whole number that is not negative.
    Unsigned(u64),
    /// A negative whole number.
    Negative(i64),
    /// Any other number, by its text.
    Float(Seq<char>),
}

/// The model of a [`Json`] value.
pub enum JsonModel {
    /// `null`.
    Null,
    /// `true` or `false`.
    Bool(bool),
    /// A number.
    Number(JsonNumberModel),
    /// A string.
    Text(Seq<char>),
    /// An array.
    Array(Seq<JsonModel>),
    /// An object.
    Object(Seq<(Seq<char>, JsonModel)>),
}

impl DeepView for JsonNumber {
    type V = JsonNumberModel;

    open spec fn deep_view(&self) -> JsonNumberModel {
        match self {
            JsonNumber::Unsigned(value) => JsonNumberModel::Unsigned(*value),
            JsonNumber::Negative(value) => JsonNumberModel::Negative(*value),
            JsonNumber::Float(text) => JsonNumberModel::Float(text@),
        }
    }
}

/// The model of a JSON value.
pub open spec fn json_model(json: Json) -> JsonModel
    decreases json,
{
    match json {
        Json::Null => JsonModel::Null,
        Json::Bool(value) => JsonModel::Bool(value),
        Json::Number(value) => JsonModel::Number(value.deep_view()),
        Json::Text(text) => JsonModel::Text(text@),
        Json::Array(items) => JsonModel::Array(
            Seq::new(items@.len(), |i: int| if 0 <= i < items@.len() { json_model(items@[i]) } else { arbitrary() }),
        ),
        Json::Object(entries) => JsonModel::Object(
            Seq::new(
                entries@.len(),
                |i: int| if 0 <= i < entries@.len() { (entries@[i].0@, json_model(entries@[i].1)) } else { arbitrary() },
            ),
        ),
    }
}

impl DeepView for Json {
    type V = JsonModel;

    open spec fn deep_view(&self) -> JsonModel {
        json_model(*self)
    }
}

/// The model of an array holds the models of its items.
pub broadcast proof fn lemma_array_model(items: Vec<Json>)
    ensures
        #[trigger] json_model(Json::Array(items)) == JsonModel::Array(items.deep_view()),
{
    assert(json_model(Json::Array(items))->Array_0 =~= items.deep_view());
}

/// The model of an object holds the models of its entries.
pub broadcast proof fn lemma_object_model(entries: Vec<(String, Json)>)
    ensures
        #[trigger] json_model(Json::Object(entries)) == JsonModel::Object(entries.deep_view()),
{
    assert(json_model(Json::Object(entries))->Object_0 =~= entries.deep_view());
}

fn copy_items(items: &Vec<Json>) -> (copy: Vec<Json>)
    ensures
        copy.deep_view() == items.deep_view(),
    decreases items,
{
    let mut copy: Vec<Json> = Vec::new();
    let mut i: usize = 0;
    while i < items.len()
        invariant
            i <= items.len(),
            copy.len() == i,
            forall|j: int| 0 <= j < i ==> json_model(#[trigger] copy@[j]) == json_model(items@[j]),
        decreases items.len() - i,
    {
        assert(decreases_to!(items@ => items@[i as int]));
        let item = copy_json(&items[i]);
        copy.push(item);
        i += 1;
    }
    assert(copy.deep_view() =~= items.deep_view());
    copy
}

fn copy_entries(entries: &Vec<(String, Json)>) -> (copy: Vec<(String, Json)>)
    ensures
        copy.deep_view() == entries.deep_view(),
    decreases entries,
{
    let mut copy: Vec<(String, Json)> = Vec::new();
    let mut i: usize = 0;
    while i < entries.len()
        invariant
            i <= entries.len(),
            copy.len() == i,
            forall|j: int| 0 <= j < i ==> (#[trigger] copy@[j]).deep_view() == entries@[j].deep_view(),
        decreases entries.len() - i,
    {
        assert(decreases_to!(entries@ => entries@[i as int]));
        assert(decreases_to!(entries@[i as int] => entries@[i as int].1));
        let value = copy_json(&entries[i].1);
        copy.push((entries[i].0.clone(), value));
        i += 1;
    }
    assert(copy.deep_view() =~= entries.deep_view());
    copy
}

fn copy_json(json: &Json) -> (copy: Json)
    ensures
        copy.deep_view() == json.deep_view(),
    decreases json,
{
    broadcast use {lemma_array_model, lemma_object_model};
    match json {
        Json::Null => Json::Null,
        Json::Bool(value) => Json::Bool(*value),
        Json::Number(JsonNumber::Unsigned(value)) => Json::Number(JsonNumber::Unsigned(*value)),
        Json::Number(JsonNumber::Negative(value)) => Json::Number(JsonNumber::Negative(*value)),
        Json::Number(JsonNumber::Float(text)) => Json::Number(JsonNumber::Float(text.clone())),
        Json::Text(text) => Json::Text(text.clone()),
        Json::Array(items) => Json::Array(copy_items(items)),
        Json::Object(entries) => Json::Object(copy_entries(entries)),
    }
}

impl Clone for Json {
    fn clone(&self) -> (copy: Self)
        ensures
            copy.deep_view() == self.deep_view(),
    {
        copy_json(self)
    }
}

impl Duplicate for Json {
    fn duplicate(&self) -> (copy: Self) {
        copy_json(self)
    }
}

fn same_items(items: &Vec<Json>, others: &Vec<Json>) -> (same: bool)
    ensures
        same == (items.deep_view() == others.deep_view()),
    decreases items,
{
    if items.len() != others.len() {
        assert(items.deep_view().len() != others.deep_view().len());
        return false;
    }
    let mut i: usize = 0;
    while i < items.len()
        invariant
            i <= items.len(),
            items.len() == others.len(),
            forall|j: int| 0 <= j < i ==> items.deep_view()[j] == others.deep_view()[j],
        decreases items.len() - i,
    {
        assert(decreases_to!(items@ => items@[i as int]));
        if !same_json(&items[i], &others[i]) {
            assert(items.deep_view()[i as int] != others.deep_view()[i as int]);
            return false;
        }
        i += 1;
    }
    assert(items.deep_view() =~= others.deep_view());
    true
}

fn same_entries(entries: &Vec<(String, Json)>, others: &Vec<(String, Json)>) -> (same: bool)
    ensures
        same == (entries.deep_view() == others.deep_view()),
    decreases entries,
{
    if entries.len() != others.len() {
        assert(entries.deep_view().len() != others.deep_view().len());
        return false;
    }
    let mut i: usize = 0;
    while i < entries.len()
        invariant
            i <= entries.len(),
            entries.len() == others.len(),
            forall|j: int| 0 <= j < i ==> entries.deep_view()[j] == others.deep_view()[j],
        decreases entries.len() - i,
    {
        assert(decreases_to!(entries@ => entries@[i as int]));
        assert(decreases_to!(entries@[i as int] => entries@[i as int].1));
        if entries[i].0 != others[i].0 || !same_json(&entries[i].1, &others[i].1) {
            assert(entries.deep_view()[i as int] != others.deep_view()[i as int]);
            return false;
        }
        i += 1;
    }
    assert(entries.deep_view() =~= others.deep_view());
    true
}

/// Whether two values are the same.
pub fn same_json(json: &Json, other: &Json) -> (same: bool)
    ensures
        same == (json.deep_view() == other.deep_view()),
    decreases json,
{
    broadcast use {lemma_array_model, lemma_object_model};
    match (json, other) {
        (Json::Null, Json::Null) => true,
        (Json::Bool(value), Json::Bool(other)) => *value == *other,
        (Json::Number(JsonNumber::Unsigned(value)), Json::Number(JsonNumber::Unsigned(other))) => *value == *other,
        (Json::Number(JsonNumber::Negative(value)), Json::Number(JsonNumber::Negative(other))) => *value == *other,
        (Json::Number(JsonNumber::Float(text)), Json::Number(JsonNumber::Float(other))) => *text == *other,
        (Json::Text(text), Json::Text(other)) => *text == *other,
        (Json::Array(items), Json::Array(others)) => same_items(items, others),
        (Json::Object(entries), Json::Object(others)) => same_entries(entries, others),
        _ => false,
    }
}

/// Whether two maps hold the same values under the same names.
pub fn same_fields(fields: &StringMap<Json>, others: &StringMap<Json>) -> (same: bool)
    ensures
        same == (fields.deep_view() == others.deep_view()),
{
    if fields.len() != others.len() {
        return false;
    }
    let mut i: usize = 0;
    while i < fields.len()
        invariant
            i <= fields.deep_view().len(),
            fields.deep_view().len() == others.deep_view().len(),
            forall|j: int| 0 <= j < i ==> fields.deep_view()[j] == others.deep_view()[j],
        decreases fields.deep_view().len() - i,
    {
        let entry = fields.entry(i);
        let other = others.entry(i);
        if entry.0 != other.0 || !same_json(&entry.1, &other.1) {
            return false;
        }
        i += 1;
    }
    assert(fields.deep_view() =~= others.deep_view());
    true
}

/// The value under `name`, where `json` is an object that has one.
pub open spec fn member(json: JsonModel, name: Seq<char>) -> Option<JsonModel> {
    match json {
        JsonModel::Object(entries) => lookup(entries, name),
        _ => None,
    }
}

/// The text of a string value.
pub open spec fn text_value(json: JsonModel) -> Option<Seq<char>> {
    match json {
        JsonModel::Text(text) => Some(text),
        _ => None,
    }
}

impl Json {
    /// The value under `name`, where this is an object that has one.
    pub fn get(&self, name: &str) -> (value: Option<&Json>)
        ensures
            value.deep_view() == member(self.deep_view(), name@),
    {
        broadcast use lemma_object_model;
        match self {
            Json::Object(entries) => find_field(entries, name),
            _ => None,
        }
    }

    /// The text of a string value.
    pub fn as_str(&self) -> (text: Option<&str>)
        ensures
            text.deep_view() == text_value(self.deep_view()),
    {
        match self {
            Json::Text(text) => Some(text.as_str()),
            _ => None,
        }
    }
}

/// Whether arrays and objects nest at most so deep in a value.
pub open spec fn nesting(json: JsonModel, bound: nat) -> bool
    decreases json, 0int,
{
    match json {
        JsonModel::Array(items) => bound > 0 && items_nest(items, 0, (bound - 1) as nat),
        JsonModel::Object(entries) => bound > 0 && entries_nest(entries, 0, (bound - 1) as nat),
        _ => true,
    }
}

/// Whether the items from `at` on nest at most so deep.
pub open spec fn items_nest(items: Seq<JsonModel>, at: int, bound: nat) -> bool
    decreases items, items.len() - at,
{
    at < 0 || at >= items.len() || (nesting(items[at], bound) && items_nest(items, at + 1, bound))
}

/// Whether the entries from `at` on nest at most so deep.
pub open spec fn entries_nest(entries: Seq<(Seq<char>, JsonModel)>, at: int, bound: nat) -> bool
    decreases entries, entries.len() - at,
{
    at < 0 || at >= entries.len() || (nesting(entries[at].1, bound) && entries_nest(entries, at + 1, bound))
}

/// No name occurs twice.
pub open spec fn distinct<V>(entries: Seq<(Seq<char>, V)>) -> bool {
    forall|i: int, j: int| 0 <= i < j < entries.len() ==> (#[trigger] entries[i]).0 != (#[trigger] entries[j]).0
}

/// The numbers are whole and in their own variant, and in no object does a
/// name occur twice.
pub open spec fn canonical(json: JsonModel) -> bool
    decreases json, 0int,
{
    match json {
        JsonModel::Number(JsonNumberModel::Negative(value)) => value < 0,
        JsonModel::Number(JsonNumberModel::Float(_)) => false,
        JsonModel::Array(items) => items_canonical(items, 0),
        JsonModel::Object(entries) => distinct(entries) && entries_canonical(entries, 0),
        _ => true,
    }
}

/// Whether the items from `at` on are canonical.
pub open spec fn items_canonical(items: Seq<JsonModel>, at: int) -> bool
    decreases items, items.len() - at,
{
    at < 0 || at >= items.len() || (canonical(items[at]) && items_canonical(items, at + 1))
}

/// Whether the values of the entries from `at` on are canonical.
pub open spec fn entries_canonical(entries: Seq<(Seq<char>, JsonModel)>, at: int) -> bool
    decreases entries, entries.len() - at,
{
    at < 0 || at >= entries.len() || (canonical(entries[at].1) && entries_canonical(entries, at + 1))
}

/// An array of canonical items that nest no deeper than a bound is canonical
/// and nests one deeper.
pub proof fn lemma_array_canonical(items: Seq<JsonModel>, at: int, bound: nat)
    requires
        0 <= at <= items.len(),
        forall|i: int| 0 <= i < items.len() ==> canonical(#[trigger] items[i]) && nesting(items[i], bound),
    ensures
        items_canonical(items, at),
        items_nest(items, at, bound),
        at == 0 ==> canonical(JsonModel::Array(items)) && nesting(JsonModel::Array(items), bound + 1),
    decreases items.len() - at,
{
    if at < items.len() {
        lemma_array_canonical(items, at + 1, bound);
        assert(canonical(items[at]));
    }
}

/// An object of distinct names and canonical values that nest no deeper than a
/// bound is canonical and nests one deeper.
pub proof fn lemma_object_canonical(entries: Seq<(Seq<char>, JsonModel)>, at: int, bound: nat)
    requires
        0 <= at <= entries.len(),
        distinct(entries),
        forall|i: int| 0 <= i < entries.len() ==> canonical((#[trigger] entries[i]).1) && nesting(entries[i].1, bound),
    ensures
        entries_canonical(entries, at),
        entries_nest(entries, at, bound),
        at == 0 ==> canonical(JsonModel::Object(entries)) && nesting(JsonModel::Object(entries), bound + 1),
    decreases entries.len() - at,
{
    if at < entries.len() {
        lemma_object_canonical(entries, at + 1, bound);
        assert(canonical(entries[at].1));
    }
}

/// The entries from `at` on, each with its value in order, put beside those
/// that are there.
pub open spec fn sorted_from(entries: Seq<(Seq<char>, JsonModel)>, at: int, there: Seq<(Seq<char>, JsonModel)>) -> Seq<
    (Seq<char>, JsonModel),
>
    decreases entries, entries.len() - at,
{
    if at < 0 || at >= entries.len() {
        there
    } else {
        sorted_from(entries, at + 1, put(there, entries[at].0, sorted(entries[at].1)))
    }
}

/// A value with the names of all its objects in order.
pub open spec fn sorted(json: JsonModel) -> JsonModel
    decreases json, 0int,
{
    match json {
        JsonModel::Array(items) => JsonModel::Array(
            Seq::new(items.len(), |i: int| if 0 <= i < items.len() { sorted(items[i]) } else { arbitrary() }),
        ),
        JsonModel::Object(entries) => JsonModel::Object(sorted_from(entries, 0, Seq::empty())),
        _ => json,
    }
}

fn sort_items(items: &Vec<Json>) -> (done: Vec<Json>)
    ensures
        JsonModel::Array(done.deep_view()) == sorted(JsonModel::Array(items.deep_view())),
    decreases items, 0int,
{
    let mut done: Vec<Json> = Vec::new();
    let mut i: usize = 0;
    while i < items.len()
        invariant
            i <= items.len(),
            done.len() == i,
            forall|j: int| 0 <= j < i ==> (#[trigger] done@[j]).deep_view() == sorted(items@[j].deep_view()),
        decreases items.len() - i,
    {
        assert(decreases_to!(items@ => items@[i as int]));
        let item = sort_json(&items[i]);
        done.push(item);
        i += 1;
    }
    assert(done.deep_view() =~= sorted(JsonModel::Array(items.deep_view()))->Array_0);
    done
}

fn sort_entries(entries: &Vec<(String, Json)>) -> (done: Vec<(String, Json)>)
    ensures
        done.deep_view() == sorted_from(entries.deep_view(), 0, Seq::empty()),
    decreases entries, 0int,
{
    let mut done: Vec<(String, Json)> = no_items();
    let mut i: usize = 0;
    while i < entries.len()
        invariant
            i <= entries.len(),
            sorted_from(entries.deep_view(), 0, Seq::empty()) == sorted_from(
                entries.deep_view(),
                i as int,
                done.deep_view(),
            ),
        decreases entries.len() - i,
    {
        assert(decreases_to!(entries@ => entries@[i as int]));
        assert(decreases_to!(entries@[i as int] => entries@[i as int].1));
        assert(entries.deep_view()[i as int] == entries@[i as int].deep_view());
        let value = sort_json(&entries[i].1);
        put_field(&mut done, entries[i].0.clone(), value);
        i += 1;
    }
    done
}

/// A value with the names of all its objects in order.
pub fn sort_json(json: &Json) -> (done: Json)
    ensures
        done.deep_view() == sorted(json.deep_view()),
    decreases json, 1int,
{
    broadcast use {lemma_array_model, lemma_object_model};
    match json {
        Json::Array(items) => Json::Array(sort_items(items)),
        Json::Object(entries) => Json::Object(sort_entries(entries)),
        _ => copy_json(json),
    }
}

proof fn lemma_sorted_lookup_from(
    entries: Seq<(Seq<char>, JsonModel)>,
    at: int,
    there: Seq<(Seq<char>, JsonModel)>,
    name: Seq<char>,
)
    requires
        0 <= at <= entries.len(),
        distinct(entries),
        forall|i: int| at <= i < entries.len() ==> lookup(there, (#[trigger] entries[i]).0) is None,
    ensures
        lookup(sorted_from(entries, at, there), name) == match lookup(entries.skip(at), name) {
            Some(value) => Some(sorted(value)),
            None => lookup(there, name),
        },
    decreases entries.len() - at,
{
    let rest = entries.skip(at);
    if at < entries.len() {
        let next = put(there, entries[at].0, sorted(entries[at].1));
        assert forall|i: int| at + 1 <= i < entries.len() implies lookup(next, (#[trigger] entries[i]).0) is None by {
            law_put_then_lookup(there, entries[at].0, sorted(entries[at].1), entries[i].0);
            assert(entries[at].0 != entries[i].0);
        }
        lemma_sorted_lookup_from(entries, at + 1, next, name);
        law_put_then_lookup(there, entries[at].0, sorted(entries[at].1), name);
        assert(rest[0] == entries[at]);
        assert(rest.drop_first() =~= entries.skip(at + 1));
        if entries[at].0 == name {
            lemma_lookup_absent(entries.skip(at + 1), name);
        }
    }
}

proof fn lemma_lookup_absent(entries: Seq<(Seq<char>, JsonModel)>, name: Seq<char>)
    requires
        forall|i: int| 0 <= i < entries.len() ==> (#[trigger] entries[i]).0 != name,
    ensures
        lookup(entries, name) is None,
    decreases entries.len(),
{
    if entries.len() > 0 {
        assert forall|i: int| 0 <= i < entries.drop_first().len() implies (#[trigger] entries.drop_first()[i]).0
            != name by {
            assert(entries.drop_first()[i] == entries[i + 1]);
        }
        lemma_lookup_absent(entries.drop_first(), name);
    }
}

/// Putting names in order keeps the value under each name.
pub proof fn lemma_sorted_member(json: JsonModel, name: Seq<char>)
    requires
        json matches JsonModel::Object(entries) ==> distinct(entries),
    ensures
        member(sorted(json), name) == match member(json, name) {
            Some(value) => Some(sorted(value)),
            None => None,
        },
{
    if let JsonModel::Object(entries) = json {
        lemma_sorted_lookup_from(entries, 0, Seq::empty(), name);
        assert(entries.skip(0) =~= entries);
    }
}

/// Adds a value under a name.
pub fn add_field(entries: &mut Vec<(String, Json)>, name: &str, value: Json)
    ensures
        final(entries).deep_view() == old(entries).deep_view().push((name@, value.deep_view())),
{
    push_item(entries, (name.to_owned(), value));
}

/// Adds a text under a name.
pub fn add_text(entries: &mut Vec<(String, Json)>, name: &str, text: &str)
    ensures
        final(entries).deep_view() == old(entries).deep_view().push((name@, JsonModel::Text(text@))),
{
    push_item(entries, (name.to_owned(), Json::Text(text.to_owned())));
}

/// What `serde_json::from_str` makes of a text: the value, with the names of
/// objects as they stand in the text, or the text of the error.
pub uninterp spec fn json_read(text: Seq<char>) -> Result<JsonModel, Seq<char>>;

/// What `serde_json` writes for a value.
pub uninterp spec fn json_print(json: JsonModel) -> Seq<char>;

/// What `serde_json::from_slice` makes of bytes: the value, with the names of
/// objects as they stand in the bytes, or the text of the error.
pub uninterp spec fn json_read_bytes(bytes: Seq<u8>) -> Result<JsonModel, Seq<char>>;

/// Whether a text is read as this value.
pub open spec fn holds(text: Seq<char>, json: JsonModel) -> bool {
    json_read(text) == Ok::<JsonModel, Seq<char>>(json)
}

/// The value that a text holds, with names in order, or why it holds none.
pub open spec fn json_parse(text: Seq<char>) -> Result<JsonModel, Seq<char>> {
    match json_read(text) {
        Ok(json) => Ok(sorted(json)),
        Err(message) => Err(message),
    }
}

/// The value that bytes hold, with names in order, or why they hold none.
pub open spec fn json_parse_bytes(bytes: Seq<u8>) -> Result<JsonModel, Seq<char>> {
    match json_read_bytes(bytes) {
        Ok(json) => Ok(sorted(json)),
        Err(message) => Err(message),
    }
}

/// `serde_json::Value`.
#[verifier::external_type_specification]
#[verifier::external_body]
pub struct ExValue(serde_json::Value);

/// The same value in this library's type, part for part.
#[verifier::external_body]
fn from_value(value: Value) -> Json {
    match value {
        Value::Null => Json::Null,
        Value::Bool(value) => Json::Bool(value),
        Value::Number(value) => Json::Number(match (value.as_u64(), value.as_i64()) {
            (Some(value), _) => JsonNumber::Unsigned(value),
            (None, Some(value)) => JsonNumber::Negative(value),
            (None, None) => JsonNumber::Float(value.to_string()),
        }),
        Value::String(text) => Json::Text(text),
        Value::Array(items) => Json::Array(items.into_iter().map(from_value).collect()),
        Value::Object(entries) => Json::Object(
            entries.into_iter().map(|entry| (entry.0, from_value(entry.1))).collect(),
        ),
    }
}

/// The same value in `serde_json`'s type, part for part.
#[verifier::external_body]
fn to_value(json: &Json) -> Value {
    match json {
        Json::Null => Value::Null,
        Json::Bool(value) => Value::Bool(*value),
        Json::Number(JsonNumber::Unsigned(value)) => Value::from(*value),
        Json::Number(JsonNumber::Negative(value)) => Value::from(*value),
        Json::Number(JsonNumber::Float(text)) => Number::from_f64(
            text.parse().unwrap_or_default(),
        ).map_or(Value::Null, Value::Number),
        Json::Text(text) => Value::String(text.clone()),
        Json::Array(items) => Value::Array(items.iter().map(to_value).collect()),
        Json::Object(entries) => Value::Object(
            entries.iter().map(|entry| (entry.0.clone(), to_value(&entry.1))).collect(),
        ),
    }
}

/// `serde_json::from_str::<serde_json::Value>`: the value that a text holds,
/// or the message of the error, both a function of the text alone.
#[verifier::external_body]
fn read_json(text: &str) -> (parsed: Result<Json, String>)
    ensures
        outcome(parsed) == json_read(text@),
{
    match serde_json::from_str::<serde_json::Value>(text) {
        Ok(value) => Ok(from_value(value)),
        Err(error) => Err(error.to_string()),
    }
}

/// `serde_json::from_slice::<serde_json::Value>`: the value that bytes hold, or
/// the message of the error, both a function of the bytes alone.
#[verifier::external_body]
fn read_json_bytes(bytes: &[u8]) -> (parsed: Result<Json, String>)
    ensures
        outcome(parsed) == json_read_bytes(bytes@),
{
    match serde_json::from_slice::<serde_json::Value>(bytes) {
        Ok(value) => Ok(from_value(value)),
        Err(error) => Err(error.to_string()),
    }
}

/// `Display` of `serde_json::Value`: the compact text of a value, with the
/// names of objects as they stand in it, a function of the value alone.
/// Reading that text gives the value back where its numbers are whole, no name
/// occurs twice, and it nests no deeper than the reader goes.
#[verifier::external_body]
pub(crate) fn print_json(json: &Json) -> (text: String)
    ensures
        text@ == json_print(json.deep_view()),
        canonical(json.deep_view()) && nesting(json.deep_view(), 127) ==> holds(text@, json.deep_view()),
{
    to_value(json).to_string()
}

/// The value that a text holds, with names in order, or why it holds none.
pub fn parse_json(text: &str) -> (parsed: Result<Json, String>)
    ensures
        outcome(parsed) == json_parse(text@),
{
    match read_json(text) {
        Ok(json) => Ok(sort_json(&json)),
        Err(message) => Err(message),
    }
}

/// The value that bytes hold, with names in order, or why they hold none.
pub fn parse_json_bytes(bytes: &[u8]) -> (parsed: Result<Json, String>)
    ensures
        outcome(parsed) == json_parse_bytes(bytes@),
{
    match read_json_bytes(bytes) {
        Ok(json) => Ok(sort_json(&json)),
        Err(message) => Err(message),
    }
}

impl Json {
    /// The compact text of the value.
    pub fn print(&self) -> (text: String)
        ensures
            text@ == json_print(self.deep_view()),
            canonical(self.deep_view()) && nesting(self.deep_view(), 127) ==> holds(text@, self.deep_view()),
    {
        print_json(self)
    }
}

} // verus!
