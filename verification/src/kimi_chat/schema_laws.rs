//! What bringing a schema into form keeps of it, and what it adds.
use crate::fields::{law_put_then_lookup, lemma_lookup_none, lookup, put};
use crate::json::{distinct, member, JsonModel, JsonNumberModel};
use crate::kimi_chat::schema::{
    entries_normalized, implied_type, normalized, overlaid, properties_normalized, schemas_normalized, typed,
    value_normalized, KimiSchemaErrorModel,
};
use crate::text::begins_with;
use vstd::prelude::*;

verus! {

proof fn lemma_names()
    ensures
        "properties"@ != "items"@,
        "properties"@ != "additionalProperties"@,
        "properties"@ != "anyOf"@,
        "properties"@ != "oneOf"@,
        "properties"@ != "allOf"@,
        "properties"@ != "$defs"@,
        "properties"@ != "$ref"@,
        "items"@ != "additionalProperties"@,
        "items"@ != "anyOf"@,
        "items"@ != "oneOf"@,
        "items"@ != "allOf"@,
        "items"@ != "$defs"@,
        "items"@ != "$ref"@,
        "additionalProperties"@ != "anyOf"@,
        "additionalProperties"@ != "oneOf"@,
        "additionalProperties"@ != "allOf"@,
        "additionalProperties"@ != "$defs"@,
        "additionalProperties"@ != "$ref"@,
        "anyOf"@ != "oneOf"@,
        "anyOf"@ != "allOf"@,
        "anyOf"@ != "$defs"@,
        "anyOf"@ != "$ref"@,
        "oneOf"@ != "allOf"@,
        "oneOf"@ != "$defs"@,
        "oneOf"@ != "$ref"@,
        "allOf"@ != "$defs"@,
        "allOf"@ != "$ref"@,
        "$defs"@ != "$ref"@,
{
    reveal_strlit("properties");
    reveal_strlit("items");
    reveal_strlit("additionalProperties");
    reveal_strlit("anyOf");
    reveal_strlit("oneOf");
    reveal_strlit("allOf");
    reveal_strlit("$defs");
    reveal_strlit("$ref");
    assert("properties"@.len() != "items"@.len());
    assert("properties"@.len() != "additionalProperties"@.len());
    assert("properties"@.len() != "anyOf"@.len());
    assert("properties"@.len() != "oneOf"@.len());
    assert("properties"@.len() != "allOf"@.len());
    assert("properties"@.len() != "$defs"@.len());
    assert("properties"@.len() != "$ref"@.len());
    assert("items"@.len() != "additionalProperties"@.len());
    assert("items"@[0] != "anyOf"@[0]);
    assert("items"@[0] != "oneOf"@[0]);
    assert("items"@[0] != "allOf"@[0]);
    assert("items"@[0] != "$defs"@[0]);
    assert("items"@.len() != "$ref"@.len());
    assert("additionalProperties"@.len() != "anyOf"@.len());
    assert("additionalProperties"@.len() != "oneOf"@.len());
    assert("additionalProperties"@.len() != "allOf"@.len());
    assert("additionalProperties"@.len() != "$defs"@.len());
    assert("additionalProperties"@.len() != "$ref"@.len());
    assert("anyOf"@[0] != "oneOf"@[0]);
    assert("anyOf"@[1] != "allOf"@[1]);
    assert("anyOf"@[0] != "$defs"@[0]);
    assert("anyOf"@.len() != "$ref"@.len());
    assert("oneOf"@[0] != "allOf"@[0]);
    assert("oneOf"@[0] != "$defs"@[0]);
    assert("oneOf"@.len() != "$ref"@.len());
    assert("allOf"@[0] != "$defs"@[0]);
    assert("allOf"@.len() != "$ref"@.len());
    assert("$defs"@.len() != "$ref"@.len());
}

/// What is no object stays as it is.
pub proof fn law_other_values_stay(schema: JsonModel, root: JsonModel, depth: nat)
    requires
        !(schema is Object),
    ensures
        normalized(schema, root, depth) == Ok::<JsonModel, KimiSchemaErrorModel>(schema),
{
}

proof fn lemma_entries(
    entries: Seq<(Seq<char>, JsonModel)>,
    root: JsonModel,
    depth: nat,
    at: int,
    done: Seq<(Seq<char>, JsonModel)>,
    name: Seq<char>,
)
    requires
        0 <= at <= entries.len(),
        distinct(entries),
        lookup(done, "$defs"@) is None,
    ensures
        entries_normalized(entries, root, depth, at, done) matches Ok(all) ==> {
            &&& lookup(all, "$defs"@) is None
            &&& name != "$defs"@ ==> match lookup(entries.skip(at), name) {
                None => lookup(all, name) == lookup(done, name),
                Some(value) => value_normalized(name, value, root, depth) matches Ok(new) && lookup(all, name) == Some(
                    new,
                ),
            }
        },
        entries_normalized(entries, root, depth, at, done) is Ok <==> forall|i: int|
            at <= i < entries.len() && entries[i].0 != "$defs"@ ==> value_normalized(
                (#[trigger] entries[i]).0,
                entries[i].1,
                root,
                depth,
            ) is Ok,
    decreases entries.len() - at,
{
    if at < entries.len() {
        let rest = entries.skip(at);
        let after = entries.skip(at + 1);
        assert(rest[0] == entries[at]);
        assert(rest.drop_first() =~= after);
        if entries[at].0 == "$defs"@ {
            lemma_entries(entries, root, depth, at + 1, done, name);
        } else if let Ok(value) = value_normalized(entries[at].0, entries[at].1, root, depth) {
            let more = put(done, entries[at].0, value);
            law_put_then_lookup(done, entries[at].0, value, name);
            law_put_then_lookup(done, entries[at].0, value, "$defs"@);
            lemma_entries(entries, root, depth, at + 1, more, name);
            if name == entries[at].0 {
                assert forall|i: int| 0 <= i < after.len() implies (#[trigger] after[i]).0 != name by {
                    assert(after[i] == entries[at + 1 + i]);
                }
                lemma_lookup_none(after, name);
            }
        }
    }
}

/// A schema that is no reference keeps every field of its own but its definitions,
/// which no reference is left to name: one that holds schemas holds them brought
/// into form, and every other has the value it had. It cannot be brought into form
/// if and only if one of its fields cannot.
pub proof fn law_fields_are_kept(
    entries: Seq<(Seq<char>, JsonModel)>,
    root: JsonModel,
    depth: nat,
    name: Seq<char>,
)
    requires
        distinct(entries),
        !(lookup(entries, "$ref"@) matches Some(JsonModel::Text(_))),
    ensures
        ({
            let formed = normalized(JsonModel::Object(entries), root, depth);
            &&& formed is Ok <==> forall|i: int|
                0 <= i < entries.len() && entries[i].0 != "$defs"@ ==> value_normalized(
                    (#[trigger] entries[i]).0,
                    entries[i].1,
                    root,
                    depth,
                ) is Ok
            &&& formed matches Ok(json) ==> {
                &&& json is Object
                &&& member(json, "$defs"@) is None
                &&& name != "$defs"@ ==> match lookup(entries, name) {
                    None => member(json, name) is None,
                    Some(value) => value_normalized(name, value, root, depth) matches Ok(new) && member(json, name)
                        == Some(new),
                }
                &&& !holds_schemas(name) && name != "$defs"@ ==> member(json, name) == lookup(entries, name)
            }
        }),
{
    lemma_names();
    lemma_entries(entries, root, depth, 0, Seq::empty(), name);
    assert(entries.skip(0) =~= entries);
}

/// Whether a field of a schema holds schemas.
pub open spec fn holds_schemas(name: Seq<char>) -> bool {
    name == "properties"@ || name == "items"@ || name == "additionalProperties"@ || name == "anyOf"@ || name
        == "oneOf"@ || name == "allOf"@
}

proof fn lemma_properties(
    properties: Seq<(Seq<char>, JsonModel)>,
    root: JsonModel,
    depth: nat,
    at: int,
    done: Seq<(Seq<char>, JsonModel)>,
    name: Seq<char>,
)
    requires
        0 <= at <= properties.len(),
        distinct(properties),
    ensures
        properties_normalized(properties, root, depth, at, done) matches Ok(all) ==> match lookup(
            properties.skip(at),
            name,
        ) {
            None => lookup(all, name) == lookup(done, name),
            Some(value) => normalized(value, root, depth) matches Ok(new) && lookup(all, name) == Some(typed(new)),
        },
        properties_normalized(properties, root, depth, at, done) is Ok <==> forall|i: int|
            at <= i < properties.len() ==> normalized((#[trigger] properties[i]).1, root, depth) is Ok,
    decreases properties.len() - at,
{
    if at < properties.len() {
        let rest = properties.skip(at);
        let after = properties.skip(at + 1);
        assert(rest[0] == properties[at]);
        assert(rest.drop_first() =~= after);
        if let Ok(schema) = normalized(properties[at].1, root, depth) {
            let more = put(done, properties[at].0, typed(schema));
            law_put_then_lookup(done, properties[at].0, typed(schema), name);
            lemma_properties(properties, root, depth, at + 1, more, name);
            if name == properties[at].0 {
                assert forall|i: int| 0 <= i < after.len() implies (#[trigger] after[i]).0 != name by {
                    assert(after[i] == properties[at + 1 + i]);
                }
                lemma_lookup_none(after, name);
            }
        }
    }
}

/// Every property is kept under its name, brought into form and with a type; none
/// is added.
pub proof fn law_properties_are_kept(
    properties: Seq<(Seq<char>, JsonModel)>,
    root: JsonModel,
    depth: nat,
    name: Seq<char>,
)
    requires
        distinct(properties),
    ensures
        ({
            let formed = value_normalized("properties"@, JsonModel::Object(properties), root, depth);
            &&& formed is Ok <==> forall|i: int|
                0 <= i < properties.len() ==> normalized((#[trigger] properties[i]).1, root, depth) is Ok
            &&& formed matches Ok(json) ==> {
                &&& json is Object
                &&& match lookup(properties, name) {
                    None => member(json, name) is None,
                    Some(value) => normalized(value, root, depth) matches Ok(new) && member(json, name) == Some(
                        typed(new),
                    ),
                }
            }
        }),
{
    lemma_properties(properties, root, depth, 0, Seq::empty(), name);
    assert(properties.skip(0) =~= properties);
}

/// What the items of an array are is kept, brought into form and with a type, and
/// what further properties are is kept, brought into form.
pub proof fn law_items_are_kept(value: JsonModel, root: JsonModel, depth: nat)
    ensures
        ({
            let inner = normalized(value, root, depth);
            let items = value_normalized("items"@, value, root, depth);
            let others = value_normalized("additionalProperties"@, value, root, depth);
            &&& items is Ok <==> inner is Ok
            &&& inner matches Ok(schema) ==> items == Ok::<JsonModel, KimiSchemaErrorModel>(typed(schema))
            &&& others == inner
        }),
{
    lemma_names();
}

proof fn lemma_schemas(schemas: Seq<JsonModel>, root: JsonModel, depth: nat, at: int, done: Seq<JsonModel>)
    requires
        0 <= at <= schemas.len(),
        done.len() == at,
        forall|i: int|
            0 <= i < at ==> normalized(#[trigger] schemas[i], root, depth) == Ok::<JsonModel, KimiSchemaErrorModel>(
                done[i],
            ),
    ensures
        schemas_normalized(schemas, root, depth, at, done) is Ok <==> forall|i: int|
            at <= i < schemas.len() ==> normalized(#[trigger] schemas[i], root, depth) is Ok,
        schemas_normalized(schemas, root, depth, at, done) matches Ok(all) ==> all.len() == schemas.len() && forall|
            i: int,
        |
            0 <= i < schemas.len() ==> normalized(#[trigger] schemas[i], root, depth) == Ok::<
                JsonModel,
                KimiSchemaErrorModel,
            >(all[i]),
    decreases schemas.len() - at,
{
    if at < schemas.len() {
        if let Ok(schema) = normalized(schemas[at], root, depth) {
            lemma_schemas(schemas, root, depth, at + 1, done.push(schema));
        }
    }
}

/// Every alternative is kept in order, brought into form.
pub proof fn law_alternatives_are_kept(name: Seq<char>, schemas: Seq<JsonModel>, root: JsonModel, depth: nat)
    requires
        name == "anyOf"@ || name == "oneOf"@ || name == "allOf"@,
    ensures
        ({
            let formed = value_normalized(name, JsonModel::Array(schemas), root, depth);
            &&& formed is Ok <==> forall|i: int|
                0 <= i < schemas.len() ==> normalized(#[trigger] schemas[i], root, depth) is Ok
            &&& formed matches Ok(json) ==> json is Array && json->Array_0.len() == schemas.len() && forall|i: int|
                0 <= i < schemas.len() ==> normalized(#[trigger] schemas[i], root, depth) == Ok::<
                    JsonModel,
                    KimiSchemaErrorModel,
                >(json->Array_0[i])
        }),
{
    lemma_names();
    lemma_schemas(schemas, root, depth, 0, Seq::empty());
}

proof fn lemma_overlaid(
    entries: Seq<(Seq<char>, JsonModel)>,
    at: int,
    there: Seq<(Seq<char>, JsonModel)>,
    name: Seq<char>,
)
    requires
        0 <= at <= entries.len(),
        distinct(entries),
    ensures
        lookup(overlaid(entries, at, there), name) == match lookup(entries.skip(at), name) {
            Some(value) => if name == "$ref"@ {
                lookup(there, name)
            } else {
                Some(value)
            },
            None => lookup(there, name),
        },
    decreases entries.len() - at,
{
    if at < entries.len() {
        let rest = entries.skip(at);
        let after = entries.skip(at + 1);
        assert(rest[0] == entries[at]);
        assert(rest.drop_first() =~= after);
        if name == entries[at].0 {
            assert forall|i: int| 0 <= i < after.len() implies (#[trigger] after[i]).0 != name by {
                assert(after[i] == entries[at + 1 + i]);
            }
            lemma_lookup_none(after, name);
        }
        if entries[at].0 == "$ref"@ {
            lemma_overlaid(entries, at + 1, there, name);
        } else {
            law_put_then_lookup(there, entries[at].0, entries[at].1, name);
            lemma_overlaid(entries, at + 1, put(there, entries[at].0, entries[at].1), name);
        }
    }
}

/// A reference stands for the definition it names, with the fields beside it in
/// place of those of the definition. One that names no definition of the schema is
/// refused under its own text.
pub proof fn law_references_are_resolved(
    entries: Seq<(Seq<char>, JsonModel)>,
    reference: Seq<char>,
    name: Seq<char>,
    target: Seq<(Seq<char>, JsonModel)>,
    root: JsonModel,
    depth: nat,
    other: Seq<char>,
)
    requires
        distinct(entries),
        lookup(entries, "$ref"@) == Some(JsonModel::Text(reference)),
        depth > 0,
    ensures
        ({
            let formed = normalized(JsonModel::Object(entries), root, depth);
            let whole = overlaid(entries, 0, target);
            let defined = reference == "#/$defs/"@ + name && (member(root, "$defs"@) matches Some(defs) && member(
                defs,
                name,
            ) == Some(JsonModel::Object(target)));
            &&& defined ==> formed == normalized(JsonModel::Object(whole), root, (depth - 1) as nat)
            &&& lookup(whole, other) == if other != "$ref"@ && lookup(entries, other) is Some {
                lookup(entries, other)
            } else {
                lookup(target, other)
            }
            &&& !begins_with(reference, "#/$defs/"@) || member(root, "$defs"@) is None ==> formed == Err::<JsonModel, _>(
                KimiSchemaErrorModel::UnsupportedReference(reference),
            )
        }),
{
    lemma_overlaid(entries, 0, target, other);
    assert(entries.skip(0) =~= entries);
    if reference == "#/$defs/"@ + name {
        let count = "#/$defs/"@.len() as int;
        assert(reference.take(count) =~= "#/$defs/"@);
        assert(reference.skip(count) =~= name);
    }
}

/// Whether a schema says what type it has, by itself or by its alternatives.
pub open spec fn says_its_type(schema: JsonModel) -> bool {
    member(schema, "type"@) is Some || member(schema, "anyOf"@) is Some || member(schema, "oneOf"@) is Some || member(
        schema,
        "allOf"@,
    ) is Some
}

/// The type that a value has.
pub open spec fn type_of(value: JsonModel) -> Seq<char> {
    match value {
        JsonModel::Null => "null"@,
        JsonModel::Bool(_) => "boolean"@,
        JsonModel::Number(JsonNumberModel::Float(_)) => "number"@,
        JsonModel::Number(_) => "integer"@,
        JsonModel::Text(_) => "string"@,
        JsonModel::Array(_) => "array"@,
        JsonModel::Object(_) => "object"@,
    }
}

/// A schema that says its type stays as it is. One that does not is given the type
/// that it implies, and nothing else: that of its constant, or else of the first
/// value it lists, or else an object where it has properties, an array where it has
/// items, a number where it has bounds, and failing all that a string.
pub proof fn law_types_are_added_where_missing(schema: JsonModel, other: Seq<char>)
    requires
        schema is Object,
    ensures
        ({
            let formed = typed(schema);
            let values = member(schema, "enum"@);
            let listed = values is Some && values->0 is Array && values->0->Array_0.len() > 0;
            &&& formed is Object
            &&& says_its_type(formed)
            &&& says_its_type(schema) ==> formed == schema
            &&& other != "type"@ ==> member(formed, other) == member(schema, other)
            &&& !says_its_type(schema) ==> member(formed, "type"@) == Some(
                JsonModel::Text(
                    if member(schema, "const"@) is Some {
                        type_of(member(schema, "const"@)->0)
                    } else if listed {
                        type_of(values->0->Array_0[0])
                    } else if member(schema, "properties"@) is Some {
                        "object"@
                    } else if member(schema, "items"@) is Some {
                        "array"@
                    } else if member(schema, "minimum"@) is Some || member(schema, "maximum"@) is Some {
                        "number"@
                    } else {
                        "string"@
                    },
                ),
            )
        }),
{
    let entries = schema->Object_0;
    law_put_then_lookup(entries, "type"@, JsonModel::Text(implied_type(schema)), other);
}

} // verus!
