//! Reading typed values from parsed JSON, with the messages of `serde_json` for
//! what does not fit.
//!
//! A structure is read from an object, or from an array with its fields in order.
//! The text was parsed before, so a name that was given twice counts with its last
//! value, a message names no line and column, and of several faults in an object
//! the first in the order of the names is told.
use crate::json::{lemma_array_model, lemma_object_model, member, Json, JsonModel, JsonNumber, JsonNumberModel};
use crate::model::{outcome, Duplicate};
use crate::text::{concat, concat3, decimal, decimal_text, quote, quoted, signed_decimal, signed_text};
use vstd::prelude::*;
use vstd::string::*;

verus! {

/// What a value is called in a message.
pub open spec fn described(json: JsonModel) -> Seq<char> {
    match json {
        JsonModel::Null => "null"@,
        JsonModel::Bool(value) => if value {
            "boolean `true`"@
        } else {
            "boolean `false`"@
        },
        JsonModel::Number(JsonNumberModel::Unsigned(value)) => "integer `"@ + decimal(value as nat) + "`"@,
        JsonModel::Number(JsonNumberModel::Negative(value)) => "integer `"@ + signed_decimal(value as int) + "`"@,
        JsonModel::Number(JsonNumberModel::Float(text)) => "floating point `"@ + text + "`"@,
        JsonModel::Text(text) => "string "@ + quoted(text),
        JsonModel::Array(_) => "sequence"@,
        JsonModel::Object(_) => "map"@,
    }
}

/// The message for a value of the wrong type.
pub open spec fn wrong_type(json: JsonModel, expected: Seq<char>) -> Seq<char> {
    "invalid type: "@ + described(json) + ", expected "@ + expected
}

/// The message for a field that is not there.
pub open spec fn missing(name: Seq<char>) -> Seq<char> {
    "missing field `"@ + name + "`"@
}

/// What a value is called in a message.
pub fn describe(json: &Json) -> (text: String)
    ensures
        text@ == described(json.deep_view()),
{
    match json {
        Json::Null => "null".to_owned(),
        Json::Bool(value) => if *value {
            "boolean `true`".to_owned()
        } else {
            "boolean `false`".to_owned()
        },
        Json::Number(JsonNumber::Unsigned(value)) => concat3("integer `", &decimal_text(*value), "`"),
        Json::Number(JsonNumber::Negative(value)) => concat3("integer `", &signed_text(*value), "`"),
        Json::Number(JsonNumber::Float(text)) => concat3("floating point `", text, "`"),
        Json::Text(text) => concat("string ", &quote(text)),
        Json::Array(_) => "sequence".to_owned(),
        Json::Object(_) => "map".to_owned(),
    }
}

/// The message for a value of the wrong type.
pub fn type_error(json: &Json, expected: &str) -> (text: String)
    ensures
        text@ == wrong_type(json.deep_view(), expected@),
{
    let mut text = concat3("invalid type: ", &describe(json), ", expected ");
    text.append(expected);
    text
}

/// The message for a field that is not there.
pub fn missing_field(name: &str) -> (text: String)
    ensures
        text@ == missing(name@),
{
    concat3("missing field `", name, "`")
}

/// The text of a value, where it is a string.
pub open spec fn as_text(json: JsonModel) -> Result<Seq<char>, Seq<char>> {
    match json {
        JsonModel::Text(text) => Ok(text),
        _ => Err(wrong_type(json, "a string"@)),
    }
}

/// The whole number of a value, where it is one that fits.
pub open spec fn as_whole(json: JsonModel, limit: u64, expected: Seq<char>) -> Result<u64, Seq<char>> {
    match json {
        JsonModel::Number(JsonNumberModel::Unsigned(value)) if value <= limit => Ok(value),
        JsonModel::Number(JsonNumberModel::Float(_)) => Err(wrong_type(json, expected)),
        JsonModel::Number(_) => Err("invalid value: "@ + described(json) + ", expected "@ + expected),
        _ => Err(wrong_type(json, expected)),
    }
}

/// The text of a value, where it is a string.
pub fn read_text(json: &Json) -> (text: Result<String, String>)
    ensures
        outcome(text) == as_text(json.deep_view()),
{
    match json {
        Json::Text(text) => Ok(text.duplicate()),
        _ => Err(type_error(json, "a string")),
    }
}

/// The whole number of a value, where it is one that fits.
pub fn read_whole(json: &Json, limit: u64, expected: &str) -> (value: Result<u64, String>)
    ensures
        outcome(value) == as_whole(json.deep_view(), limit, expected@),
{
    match json {
        Json::Number(JsonNumber::Unsigned(value)) if *value <= limit => Ok(*value),
        Json::Number(JsonNumber::Float(_)) => Err(type_error(json, expected)),
        Json::Number(_) => {
            let mut text = concat3("invalid value: ", &describe(json), ", expected ");
            text.append(expected);
            Err(text)
        },
        _ => Err(type_error(json, expected)),
    }
}

/// The message for a value that is no object where a structure is wanted.
pub open spec fn not_object(json: JsonModel, name: Seq<char>) -> Option<Seq<char>> {
    match json {
        JsonModel::Object(_) => None,
        _ => Some(wrong_type(json, name)),
    }
}

/// The message for a value that is no object where a structure is wanted.
pub fn object_error(json: &Json, name: &str) -> (error: Option<String>)
    ensures
        error.deep_view() == not_object(json.deep_view(), name@),
{
    match json {
        Json::Object(_) => None,
        _ => Some(type_error(json, name)),
    }
}

/// The text under `name`, where there is a value.
pub open spec fn given_text(json: JsonModel, name: Seq<char>) -> Result<Option<Seq<char>>, Seq<char>> {
    match member(json, name) {
        None => Ok(None),
        Some(value) => match as_text(value) {
            Ok(text) => Ok(Some(text)),
            Err(message) => Err(message),
        },
    }
}

/// The text under `name`, where there is a value that is not null.
pub open spec fn optional_text(json: JsonModel, name: Seq<char>) -> Result<Option<Seq<char>>, Seq<char>> {
    match member(json, name) {
        Some(JsonModel::Null) => Ok(None),
        _ => given_text(json, name),
    }
}

/// The whole number under `name`, where there is a value.
pub open spec fn given_whole(json: JsonModel, name: Seq<char>, limit: u64, expected: Seq<char>) -> Result<
    Option<u64>,
    Seq<char>,
> {
    match member(json, name) {
        None => Ok(None),
        Some(value) => match as_whole(value, limit, expected) {
            Ok(value) => Ok(Some(value)),
            Err(message) => Err(message),
        },
    }
}

/// What stands for the tag in a tagged value: the value under `type`, or the
/// first item of an array.
pub open spec fn tag_value(json: JsonModel, expected: Seq<char>) -> Result<JsonModel, Seq<char>> {
    match json {
        JsonModel::Object(_) => match member(json, "type"@) {
            None => Err(missing("type"@)),
            Some(value) => Ok(value),
        },
        JsonModel::Array(items) => if items.len() == 0 {
            Err(missing("type"@))
        } else {
            Ok(items[0])
        },
        _ => Err(wrong_type(json, expected)),
    }
}

/// The tag of a tagged value.
pub open spec fn tag_of(json: JsonModel, expected: Seq<char>) -> Result<Seq<char>, Seq<char>> {
    match tag_value(json, expected) {
        Err(message) => Err(message),
        Ok(JsonModel::Text(tag)) => Ok(tag),
        Ok(value) => Err(wrong_type(value, "variant identifier"@)),
    }
}

/// The message for a tag or a name without a meaning.
pub open spec fn unknown_variant(name: Seq<char>, expected: Seq<char>) -> Seq<char> {
    "unknown variant `"@ + name + "`, expected "@ + expected
}

/// What stands for the tag in a tagged value.
pub fn read_tag_value(json: &Json, expected: &str) -> (value: Result<Json, String>)
    ensures
        outcome(value) == tag_value(json.deep_view(), expected@),
{
    broadcast use lemma_array_model;
    match json {
        Json::Object(_) => match json.get("type") {
            None => Err(missing_field("type")),
            Some(value) => Ok(value.duplicate()),
        },
        Json::Array(items) => {
            if items.len() == 0 {
                return Err(missing_field("type"));
            }
            assert(items.deep_view()[0] == items@[0].deep_view());
            Ok(items[0].duplicate())
        },
        _ => Err(type_error(json, expected)),
    }
}

/// The tag of a tagged value.
pub fn read_tag(json: &Json, expected: &str) -> (tag: Result<String, String>)
    ensures
        outcome(tag) == tag_of(json.deep_view(), expected@),
{
    match read_tag_value(json, expected) {
        Err(message) => Err(message),
        Ok(Json::Text(tag)) => Ok(tag),
        Ok(value) => Err(type_error(&value, "variant identifier")),
    }
}

/// The message for the number of a variant that there is not.
pub open spec fn unknown_number(number: u64, expected: Seq<char>) -> Seq<char> {
    "invalid value: integer `"@ + decimal(number as nat) + "`, expected variant index "@ + expected
}

/// The message for the number of a variant that there is not.
pub fn number_error(number: u64, expected: &str) -> (text: String)
    ensures
        text@ == unknown_number(number, expected@),
{
    let mut text = concat3("invalid value: integer `", &decimal_text(number), "`, expected variant index ");
    text.append(expected);
    text
}

/// The message for a tag or a name without a meaning.
pub fn variant_error(name: &str, expected: &str) -> (text: String)
    ensures
        text@ == unknown_variant(name@, expected@),
{
    let mut text = concat3("unknown variant `", name, "`, expected ");
    text.append(expected);
    text
}

/// Two texts under two names, both there: those that are there are read in the
/// order of their names, then the first name is missed before the second.
pub open spec fn both_texts(json: JsonModel, first: Seq<char>, second: Seq<char>, second_read_first: bool) -> Result<
    (Seq<char>, Seq<char>),
    Seq<char>,
> {
    let (early, late) = if second_read_first {
        (given_text(json, second), given_text(json, first))
    } else {
        (given_text(json, first), given_text(json, second))
    };
    match (early, late) {
        (Err(message), _) => Err(message),
        (_, Err(message)) => Err(message),
        (Ok(early), Ok(late)) => {
            let (one, two) = if second_read_first {
                (late, early)
            } else {
                (early, late)
            };
            match (one, two) {
                (None, _) => Err(missing(first)),
                (_, None) => Err(missing(second)),
                (Some(one), Some(two)) => Ok((one, two)),
            }
        },
    }
}

/// Two texts under two names, both there.
pub fn read_both_texts(json: &Json, first: &str, second: &str, second_read_first: bool) -> (texts: Result<
    (String, String),
    String,
>)
    ensures
        outcome(texts) == both_texts(json.deep_view(), first@, second@, second_read_first),
{
    let (early_name, late_name) = if second_read_first {
        (second, first)
    } else {
        (first, second)
    };
    let early = match read_given_text(json, early_name) {
        Ok(text) => text,
        Err(message) => {
            return Err(message);
        },
    };
    let late = match read_given_text(json, late_name) {
        Ok(text) => text,
        Err(message) => {
            return Err(message);
        },
    };
    let (one, two) = if second_read_first {
        (late, early)
    } else {
        (early, late)
    };
    match (one, two) {
        (None, _) => Err(missing_field(first)),
        (_, None) => Err(missing_field(second)),
        (Some(one), Some(two)) => Ok((one, two)),
    }
}

/// A text under a name, where it is there.
pub open spec fn one_text(json: JsonModel, name: Seq<char>) -> Result<Seq<char>, Seq<char>> {
    match given_text(json, name) {
        Err(message) => Err(message),
        Ok(None) => Err(missing(name)),
        Ok(Some(text)) => Ok(text),
    }
}

/// A text under a name, where it is there.
pub fn read_one_text(json: &Json, name: &str) -> (text: Result<String, String>)
    ensures
        outcome(text) == one_text(json.deep_view(), name@),
{
    match read_given_text(json, name) {
        Err(message) => Err(message),
        Ok(None) => Err(missing_field(name)),
        Ok(Some(text)) => Ok(text),
    }
}

/// The whole number under `name`, where there is a value that is not null.
pub open spec fn optional_whole(json: JsonModel, name: Seq<char>) -> Result<Option<u64>, Seq<char>> {
    match member(json, name) {
        Some(JsonModel::Null) => Ok(None),
        _ => given_whole(json, name, u64::MAX, "u64"@),
    }
}

/// The whole number under `name`, where there is a value that is not null.
pub fn read_optional_whole(json: &Json, name: &str) -> (value: Result<Option<u64>, String>)
    ensures
        outcome(value) == optional_whole(json.deep_view(), name@),
{
    match json.get(name) {
        Some(Json::Null) => Ok(None),
        _ => read_given_whole(json, name, u64::MAX, "u64"),
    }
}

/// The text under `name`, where there is a value.
pub fn read_given_text(json: &Json, name: &str) -> (text: Result<Option<String>, String>)
    ensures
        outcome(text) == given_text(json.deep_view(), name@),
{
    match json.get(name) {
        None => Ok(None),
        Some(value) => match read_text(value) {
            Ok(text) => Ok(Some(text)),
            Err(message) => Err(message),
        },
    }
}

/// The text under `name`, where there is a value that is not null.
pub fn read_optional_text(json: &Json, name: &str) -> (text: Result<Option<String>, String>)
    ensures
        outcome(text) == optional_text(json.deep_view(), name@),
{
    match json.get(name) {
        Some(Json::Null) => Ok(None),
        _ => read_given_text(json, name),
    }
}

/// The whole number under `name`, where there is a value.
pub fn read_given_whole(json: &Json, name: &str, limit: u64, expected: &str) -> (value: Result<Option<u64>, String>)
    ensures
        outcome(value) == given_whole(json.deep_view(), name@, limit, expected@),
{
    match json.get(name) {
        None => Ok(None),
        Some(value) => match read_whole(value, limit, expected) {
            Ok(value) => Ok(Some(value)),
            Err(message) => Err(message),
        },
    }
}

// ---- structures that are given by position ----

/// What a value is read from, which shows in the message for an array that is
/// too long.
#[derive(Debug, Clone, Copy, PartialEq, Eq, Structural)]
pub enum Source {
    /// The text itself.
    Text,
    /// A parsed value.
    Value,
    /// What is kept of a tagged value until its tag is known.
    Buffer,
}

/// An object with the item at a place under a name, or with nothing where there
/// is no such item.
pub open spec fn seat(items: Seq<JsonModel>, place: int, name: Seq<char>) -> JsonModel {
    if 0 <= place < items.len() {
        JsonModel::Object(seq![(name, items[place])])
    } else {
        JsonModel::Object(Seq::empty())
    }
}

/// The message for a length that does not fit.
pub open spec fn wrong_length(length: nat, expected: Seq<char>) -> Seq<char> {
    "invalid length "@ + decimal(length) + ", expected "@ + expected
}

/// The message for items behind those that a structure takes.
pub open spec fn surplus(length: nat, taken: nat, source: Source) -> Option<Seq<char>> {
    if length <= taken {
        None
    } else {
        Some(
            match source {
                Source::Text => "trailing characters"@,
                Source::Value => wrong_length(length, "fewer elements in array"@),
                Source::Buffer => wrong_length(
                    length,
                    if taken == 1 {
                        "1 element in sequence"@
                    } else {
                        decimal(taken) + " elements in sequence"@
                    },
                ),
            },
        )
    }
}

/// A structure that was read from all but the surplus of an array.
pub open spec fn filled<T>(structure: T, length: nat, taken: nat, source: Source) -> Result<T, Seq<char>> {
    match surplus(length, taken, source) {
        Some(message) => Err(message),
        None => Ok(structure),
    }
}

/// An object with the item at a place under a name.
pub fn take_seat(items: &Vec<Json>, place: usize, name: &str) -> (json: Json)
    ensures
        json.deep_view() == seat(items.deep_view(), place as int, name@),
{
    broadcast use lemma_object_model;
    let mut entries: Vec<(String, Json)> = Vec::new();
    if place < items.len() {
        assert(items.deep_view()[place as int] == items@[place as int].deep_view());
        entries.push((name.to_owned(), items[place].duplicate()));
        assert(entries.deep_view() =~= seq![(name@, items.deep_view()[place as int])]);
    } else {
        assert(entries.deep_view() =~= Seq::<(Seq<char>, JsonModel)>::empty());
    }
    Json::Object(entries)
}

/// The message for a length that does not fit.
pub fn length_error(length: usize, expected: &str) -> (text: String)
    ensures
        text@ == wrong_length(length as nat, expected@),
{
    let mut text = concat3("invalid length ", &decimal_text(length as u64), ", expected ");
    text.append(expected);
    text
}

/// The message for items behind those that a structure takes.
pub fn surplus_error(length: usize, taken: usize, source: Source) -> (error: Option<String>)
    ensures
        error.deep_view() == surplus(length as nat, taken as nat, source),
{
    if length <= taken {
        return None;
    }
    Some(
        match source {
            Source::Text => "trailing characters".to_owned(),
            Source::Value => length_error(length, "fewer elements in array"),
            Source::Buffer => if taken == 1 {
                length_error(length, "1 element in sequence")
            } else {
                length_error(length, &concat(&decimal_text(taken as u64), " elements in sequence"))
            },
        },
    )
}

/// Gives a structure that was read from an array, unless items are left.
pub fn fill<T: DeepView>(structure: T, length: usize, taken: usize, source: Source) -> (read: Result<T, String>)
    ensures
        outcome(read) == filled(structure.deep_view(), length as nat, taken as nat, source),
{
    match surplus_error(length, taken, source) {
        Some(message) => Err(message),
        None => Ok(structure),
    }
}

/// Whether JSON has a text under a name, or none there.
pub open spec fn text_at(json: JsonModel, name: Seq<char>, text: Option<Seq<char>>) -> bool {
    match text {
        Some(text) => member(json, name) == Some(JsonModel::Text(text)),
        None => member(json, name) is None || member(json, name) == Some(JsonModel::Null),
    }
}

/// Whether JSON has a whole number under a name.
pub open spec fn number_at(json: JsonModel, name: Seq<char>, number: u64) -> bool {
    member(json, name) == Some(JsonModel::Number(JsonNumberModel::Unsigned(number)))
}

/// Whether JSON has a whole number under a name, or none there.
pub open spec fn count_at(json: JsonModel, name: Seq<char>, count: Option<u64>) -> bool {
    match count {
        Some(count) => number_at(json, name, count),
        None => member(json, name) is None || member(json, name) == Some(JsonModel::Null),
    }
}

} // verus!
