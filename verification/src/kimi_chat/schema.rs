//! Tool schemas in the form that Kimi takes: without references, and with a
//! type on the schemas of properties and items. Those of further properties and
//! of alternatives keep the type they have.
use crate::fields::{lookup, put, put_field};
use crate::json::{lemma_array_model, lemma_object_model, member, Json, JsonModel, JsonNumber, JsonNumberModel};
use crate::model::{no_items, outcome, push_item, Duplicate};
use crate::text::{concat, strip_prefix, stripped};
use vstd::prelude::*;
use vstd::string::*;

verus! {

/// How many references may lead on to another.
pub const REFERENCE_DEPTH: usize = 64;

/// Why a schema cannot be used.
#[derive(Debug, Clone, PartialEq, Eq)]
pub enum KimiSchemaError {
    /// A reference that leads out of the schema, nowhere, or in a circle.
    UnsupportedReference(String),
}

/// The model of [`KimiSchemaError`].
#[verifier::ext_equal]
pub enum KimiSchemaErrorModel {
    UnsupportedReference(Seq<char>),
}

impl DeepView for KimiSchemaError {
    type V = KimiSchemaErrorModel;

    open spec fn deep_view(&self) -> KimiSchemaErrorModel {
        match self {
            KimiSchemaError::UnsupportedReference(inner) => {
                KimiSchemaErrorModel::UnsupportedReference(inner.deep_view())
            },
        }
    }
}

impl Duplicate for KimiSchemaError {
    fn duplicate(&self) -> (copy: Self) {
        match self {
            KimiSchemaError::UnsupportedReference(inner) => KimiSchemaError::UnsupportedReference(inner.duplicate()),
        }
    }
}

impl KimiSchemaErrorModel {
    /// The message of the error.
    pub open spec fn text(self) -> Seq<char> {
        match self {
            KimiSchemaErrorModel::UnsupportedReference(reference) => "unsupported schema reference `"@ + reference
                + "`"@,
        }
    }
}

impl KimiSchemaError {
    /// The message of the error.
    pub fn message(&self) -> (message: String)
        ensures
            message@ == self.deep_view().text(),
    {
        match self {
            KimiSchemaError::UnsupportedReference(reference) => {
                let mut text = concat("unsupported schema reference `", reference);
                text.append("`");
                text
            },
        }
    }
}

/// The type of a value in a schema.
pub open spec fn kind_of_value(json: JsonModel) -> Seq<char> {
    match json {
        JsonModel::Null => "null"@,
        JsonModel::Bool(_) => "boolean"@,
        JsonModel::Number(JsonNumberModel::Float(_)) => "number"@,
        JsonModel::Number(_) => "integer"@,
        JsonModel::Text(_) => "string"@,
        JsonModel::Array(_) => "array"@,
        JsonModel::Object(_) => "object"@,
    }
}

/// The type that a schema without one has: that of the values it allows, that
/// of the parts it describes, and text where nothing tells.
pub open spec fn implied_type(schema: JsonModel) -> Seq<char> {
    match member(schema, "const"@) {
        Some(value) => kind_of_value(value),
        None => match member(schema, "enum"@) {
            Some(JsonModel::Array(values)) if values.len() > 0 => kind_of_value(values[0]),
            _ => if member(schema, "properties"@) is Some {
                "object"@
            } else if member(schema, "items"@) is Some {
                "array"@
            } else if member(schema, "minimum"@) is Some || member(schema, "maximum"@) is Some {
                "number"@
            } else {
                "string"@
            },
        },
    }
}

/// A schema with a type: its own, or the one it implies. One that is made of
/// alternatives stays as it is.
pub open spec fn typed(schema: JsonModel) -> JsonModel {
    match schema {
        JsonModel::Object(entries) => if lookup(entries, "type"@) is Some || lookup(entries, "anyOf"@) is Some
            || lookup(entries, "oneOf"@) is Some || lookup(entries, "allOf"@) is Some {
            schema
        } else {
            JsonModel::Object(put(entries, "type"@, JsonModel::Text(implied_type(schema))))
        },
        _ => schema,
    }
}

/// The definition that a reference names, where the schema has it.
pub open spec fn definition(root: JsonModel, reference: Seq<char>) -> Option<Seq<(Seq<char>, JsonModel)>> {
    match stripped(reference, "#/$defs/"@) {
        None => None,
        Some(name) => match member(root, "$defs"@) {
            None => None,
            Some(definitions) => match member(definitions, name) {
                Some(JsonModel::Object(entries)) => Some(entries),
                _ => None,
            },
        },
    }
}

/// The entries from `at` on but the reference, put over those that are there.
pub open spec fn overlaid(
    entries: Seq<(Seq<char>, JsonModel)>,
    at: int,
    there: Seq<(Seq<char>, JsonModel)>,
) -> Seq<(Seq<char>, JsonModel)>
    decreases entries.len() - at,
{
    if at < 0 || at >= entries.len() {
        there
    } else if entries[at].0 == "$ref"@ {
        overlaid(entries, at + 1, there)
    } else {
        overlaid(entries, at + 1, put(there, entries[at].0, entries[at].1))
    }
}

/// A normal schema, or the first reference that cannot be followed. A
/// reference is replaced by its definition, under what stands beside it.
pub open spec fn normalized(schema: JsonModel, root: JsonModel, depth: nat) -> Result<JsonModel, KimiSchemaErrorModel>
    decreases depth, schema, 0int,
{
    match schema {
        JsonModel::Object(entries) => match lookup(entries, "$ref"@) {
            Some(JsonModel::Text(reference)) => match definition(root, reference) {
                None => Err(KimiSchemaErrorModel::UnsupportedReference(reference)),
                Some(target) => if depth == 0 {
                    Err(KimiSchemaErrorModel::UnsupportedReference(reference))
                } else {
                    normalized(JsonModel::Object(overlaid(entries, 0, target)), root, (depth - 1) as nat)
                },
            },
            _ => match entries_normalized(entries, root, depth, 0, Seq::empty()) {
                Ok(entries) => Ok(JsonModel::Object(entries)),
                Err(error) => Err(error),
            },
        },
        _ => Ok(schema),
    }
}

/// The entries of a schema from `at` on behind those that are done; the
/// definitions are left out.
pub open spec fn entries_normalized(
    entries: Seq<(Seq<char>, JsonModel)>,
    root: JsonModel,
    depth: nat,
    at: int,
    done: Seq<(Seq<char>, JsonModel)>,
) -> Result<Seq<(Seq<char>, JsonModel)>, KimiSchemaErrorModel>
    decreases depth, entries, entries.len() - at,
{
    if at < 0 || at >= entries.len() {
        Ok(done)
    } else if entries[at].0 == "$defs"@ {
        entries_normalized(entries, root, depth, at + 1, done)
    } else {
        match value_normalized(entries[at].0, entries[at].1, root, depth) {
            Err(error) => Err(error),
            Ok(value) => entries_normalized(entries, root, depth, at + 1, put(done, entries[at].0, value)),
        }
    }
}

/// The value of an entry of a schema: what holds schemas is normal in turn.
pub open spec fn value_normalized(name: Seq<char>, value: JsonModel, root: JsonModel, depth: nat) -> Result<
    JsonModel,
    KimiSchemaErrorModel,
>
    decreases depth, value, 1int,
{
    if name == "properties"@ {
        match value {
            JsonModel::Object(properties) => match properties_normalized(properties, root, depth, 0, Seq::empty()) {
                Ok(properties) => Ok(JsonModel::Object(properties)),
                Err(error) => Err(error),
            },
            _ => Ok(value),
        }
    } else if name == "items"@ {
        match normalized(value, root, depth) {
            Ok(schema) => Ok(typed(schema)),
            Err(error) => Err(error),
        }
    } else if name == "additionalProperties"@ {
        normalized(value, root, depth)
    } else if name == "anyOf"@ || name == "oneOf"@ || name == "allOf"@ {
        match value {
            JsonModel::Array(schemas) => match schemas_normalized(schemas, root, depth, 0, Seq::empty()) {
                Ok(schemas) => Ok(JsonModel::Array(schemas)),
                Err(error) => Err(error),
            },
            _ => Ok(value),
        }
    } else {
        Ok(value)
    }
}

/// The properties from `at` on behind those that are done, each with a type.
pub open spec fn properties_normalized(
    properties: Seq<(Seq<char>, JsonModel)>,
    root: JsonModel,
    depth: nat,
    at: int,
    done: Seq<(Seq<char>, JsonModel)>,
) -> Result<Seq<(Seq<char>, JsonModel)>, KimiSchemaErrorModel>
    decreases depth, properties, properties.len() - at,
{
    if at < 0 || at >= properties.len() {
        Ok(done)
    } else {
        match normalized(properties[at].1, root, depth) {
            Err(error) => Err(error),
            Ok(schema) => properties_normalized(
                properties,
                root,
                depth,
                at + 1,
                put(done, properties[at].0, typed(schema)),
            ),
        }
    }
}

/// The alternatives from `at` on behind those that are done.
pub open spec fn schemas_normalized(
    schemas: Seq<JsonModel>,
    root: JsonModel,
    depth: nat,
    at: int,
    done: Seq<JsonModel>,
) -> Result<Seq<JsonModel>, KimiSchemaErrorModel>
    decreases depth, schemas, schemas.len() - at,
{
    if at < 0 || at >= schemas.len() {
        Ok(done)
    } else {
        match normalized(schemas[at], root, depth) {
            Err(error) => Err(error),
            Ok(schema) => schemas_normalized(schemas, root, depth, at + 1, done.push(schema)),
        }
    }
}

fn type_of(json: &Json) -> (name: &'static str)
    ensures
        name@ == kind_of_value(json.deep_view()),
{
    match json {
        Json::Null => "null",
        Json::Bool(_) => "boolean",
        Json::Number(JsonNumber::Float(_)) => "number",
        Json::Number(_) => "integer",
        Json::Text(_) => "string",
        Json::Array(_) => "array",
        Json::Object(_) => "object",
    }
}

fn infer_type(schema: &Json) -> (name: &'static str)
    ensures
        name@ == implied_type(schema.deep_view()),
{
    broadcast use lemma_array_model;
    if let Some(value) = schema.get("const") {
        return type_of(value);
    }
    if let Some(Json::Array(values)) = schema.get("enum") {
        if values.len() > 0 {
            assert(values.deep_view()[0] == values@[0].deep_view());
            return type_of(&values[0]);
        }
    }
    if schema.get("properties").is_some() {
        "object"
    } else if schema.get("items").is_some() {
        "array"
    } else if schema.get("minimum").is_some() || schema.get("maximum").is_some() {
        "number"
    } else {
        "string"
    }
}

fn complete_type(schema: Json) -> (complete: Json)
    ensures
        complete.deep_view() == typed(schema.deep_view()),
{
    broadcast use lemma_object_model;
    let known = schema.get("type").is_some() || schema.get("anyOf").is_some() || schema.get("oneOf").is_some()
        || schema.get("allOf").is_some();
    let name = infer_type(&schema);
    match schema {
        Json::Object(entries) => {
            if known {
                return Json::Object(entries);
            }
            let mut entries = entries;
            put_field(&mut entries, "type".to_owned(), Json::Text(name.to_owned()));
            Json::Object(entries)
        },
        other => other,
    }
}

fn find_definition<'a>(root: &'a Json, reference: &str) -> (found: Option<&'a Vec<(String, Json)>>)
    ensures
        match found {
            Some(entries) => definition(root.deep_view(), reference@) == Some(entries.deep_view()),
            None => definition(root.deep_view(), reference@) is None,
        },
{
    broadcast use lemma_object_model;
    let name = match strip_prefix(reference, "#/$defs/") {
        None => {
            return None;
        },
        Some(name) => name,
    };
    match root.get("$defs") {
        None => None,
        Some(definitions) => match definitions.get(&name) {
            Some(Json::Object(entries)) => Some(entries),
            _ => None,
        },
    }
}

fn overlay(entries: &Vec<(String, Json)>, target: &Vec<(String, Json)>) -> (merged: Vec<(String, Json)>)
    ensures
        merged.deep_view() == overlaid(entries.deep_view(), 0, target.deep_view()),
{
    let mut merged = target.duplicate();
    let mut i: usize = 0;
    while i < entries.len()
        invariant
            i <= entries.len(),
            overlaid(entries.deep_view(), 0, target.deep_view()) == overlaid(
                entries.deep_view(),
                i as int,
                merged.deep_view(),
            ),
        decreases entries.len() - i,
    {
        assert(entries.deep_view()[i as int] == entries@[i as int].deep_view());
        if !(*entries[i].0.as_str() == *"$ref") {
            put_field(&mut merged, entries[i].0.duplicate(), entries[i].1.duplicate());
        }
        i += 1;
    }
    merged
}

fn normalize(schema: &Json, root: &Json, depth: usize) -> (done: Result<Json, KimiSchemaError>)
    ensures
        outcome(done) == normalized(schema.deep_view(), root.deep_view(), depth as nat),
    decreases depth, schema, 0int,
{
    broadcast use lemma_object_model;
    match schema {
        Json::Object(entries) => {
            if let Some(Json::Text(reference)) = schema.get("$ref") {
                return match find_definition(root, reference) {
                    None => Err(KimiSchemaError::UnsupportedReference(reference.duplicate())),
                    Some(target) => {
                        if depth == 0 {
                            return Err(KimiSchemaError::UnsupportedReference(reference.duplicate()));
                        }
                        let merged = Json::Object(overlay(entries, target));
                        normalize(&merged, root, depth - 1)
                    },
                };
            }
            match normalize_entries(entries, root, depth) {
                Ok(entries) => Ok(Json::Object(entries)),
                Err(error) => Err(error),
            }
        },
        _ => Ok(schema.duplicate()),
    }
}

fn normalize_entries(entries: &Vec<(String, Json)>, root: &Json, depth: usize) -> (done: Result<
    Vec<(String, Json)>,
    KimiSchemaError,
>)
    ensures
        outcome(done) == entries_normalized(entries.deep_view(), root.deep_view(), depth as nat, 0, Seq::empty()),
    decreases depth, entries, 0int,
{
    let mut done: Vec<(String, Json)> = no_items();
    let mut i: usize = 0;
    while i < entries.len()
        invariant
            i <= entries.len(),
            entries_normalized(entries.deep_view(), root.deep_view(), depth as nat, 0, Seq::empty())
                == entries_normalized(
                entries.deep_view(),
                root.deep_view(),
                depth as nat,
                i as int,
                done.deep_view(),
            ),
        decreases entries.len() - i,
    {
        assert(entries.deep_view()[i as int] == entries@[i as int].deep_view());
        assert(decreases_to!(entries@ => entries@[i as int]));
        assert(decreases_to!(entries@[i as int] => entries@[i as int].1));
        if !(*entries[i].0.as_str() == *"$defs") {
            match normalize_value(&entries[i].0, &entries[i].1, root, depth) {
                Err(error) => {
                    return Err(error);
                },
                Ok(value) => {
                    put_field(&mut done, entries[i].0.duplicate(), value);
                },
            }
        }
        i += 1;
    }
    Ok(done)
}

fn normalize_value(name: &str, value: &Json, root: &Json, depth: usize) -> (done: Result<Json, KimiSchemaError>)
    ensures
        outcome(done) == value_normalized(name@, value.deep_view(), root.deep_view(), depth as nat),
    decreases depth, value, 1int,
{
    broadcast use {lemma_object_model, lemma_array_model};
    if *name == *"properties" {
        match value {
            Json::Object(properties) => match normalize_properties(properties, root, depth) {
                Ok(properties) => Ok(Json::Object(properties)),
                Err(error) => Err(error),
            },
            _ => Ok(value.duplicate()),
        }
    } else if *name == *"items" {
        match normalize(value, root, depth) {
            Ok(schema) => Ok(complete_type(schema)),
            Err(error) => Err(error),
        }
    } else if *name == *"additionalProperties" {
        normalize(value, root, depth)
    } else if *name == *"anyOf" || *name == *"oneOf" || *name == *"allOf" {
        match value {
            Json::Array(schemas) => match normalize_schemas(schemas, root, depth) {
                Ok(schemas) => Ok(Json::Array(schemas)),
                Err(error) => Err(error),
            },
            _ => Ok(value.duplicate()),
        }
    } else {
        Ok(value.duplicate())
    }
}

fn normalize_properties(properties: &Vec<(String, Json)>, root: &Json, depth: usize) -> (done: Result<
    Vec<(String, Json)>,
    KimiSchemaError,
>)
    ensures
        outcome(done) == properties_normalized(
            properties.deep_view(),
            root.deep_view(),
            depth as nat,
            0,
            Seq::empty(),
        ),
    decreases depth, properties, 0int,
{
    let mut done: Vec<(String, Json)> = no_items();
    let mut i: usize = 0;
    while i < properties.len()
        invariant
            i <= properties.len(),
            properties_normalized(properties.deep_view(), root.deep_view(), depth as nat, 0, Seq::empty())
                == properties_normalized(
                properties.deep_view(),
                root.deep_view(),
                depth as nat,
                i as int,
                done.deep_view(),
            ),
        decreases properties.len() - i,
    {
        assert(properties.deep_view()[i as int] == properties@[i as int].deep_view());
        assert(decreases_to!(properties@ => properties@[i as int]));
        assert(decreases_to!(properties@[i as int] => properties@[i as int].1));
        match normalize(&properties[i].1, root, depth) {
            Err(error) => {
                return Err(error);
            },
            Ok(schema) => {
                put_field(&mut done, properties[i].0.duplicate(), complete_type(schema));
            },
        }
        i += 1;
    }
    Ok(done)
}

fn normalize_schemas(schemas: &Vec<Json>, root: &Json, depth: usize) -> (done: Result<Vec<Json>, KimiSchemaError>)
    ensures
        outcome(done) == schemas_normalized(schemas.deep_view(), root.deep_view(), depth as nat, 0, Seq::empty()),
    decreases depth, schemas, 0int,
{
    let mut done: Vec<Json> = no_items();
    let mut i: usize = 0;
    while i < schemas.len()
        invariant
            i <= schemas.len(),
            schemas_normalized(schemas.deep_view(), root.deep_view(), depth as nat, 0, Seq::empty())
                == schemas_normalized(
                schemas.deep_view(),
                root.deep_view(),
                depth as nat,
                i as int,
                done.deep_view(),
            ),
        decreases schemas.len() - i,
    {
        assert(schemas.deep_view()[i as int] == schemas@[i as int].deep_view());
        assert(decreases_to!(schemas@ => schemas@[i as int]));
        match normalize(&schemas[i], root, depth) {
            Err(error) => {
                return Err(error);
            },
            Ok(schema) => {
                push_item(&mut done, schema);
            },
        }
        i += 1;
    }
    Ok(done)
}

/// The normal form of a schema.
pub open spec fn normal_schema(schema: JsonModel) -> Result<JsonModel, KimiSchemaErrorModel> {
    normalized(schema, schema, REFERENCE_DEPTH as nat)
}

/// The normal form of a tool schema: local references are resolved, and nested
/// schemas have a type.
pub fn normalize_kimi_schema(schema: &Json) -> (done: Result<Json, KimiSchemaError>)
    ensures
        outcome(done) == normal_schema(schema.deep_view()),
{
    normalize(schema, schema, REFERENCE_DEPTH)
}

} // verus!
