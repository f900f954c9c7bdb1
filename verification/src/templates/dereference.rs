//! Replacing references to schemas by the schemas themselves.
//!
//! A schema may refer to itself, directly or through others. Following such
//! references would never end, so the number of references followed one
//! inside the other is limited; a document that needs more is refused.

use crate::error::{Error, ErrorView};
use crate::json::{
    entries_view, items_view, Json, JsonValue, lemma_array_view, lemma_object_view, lookup, Member,
};
use crate::openapi::context::OpenApiContext;
use crate::openapi::properties::{referenced_name, schema_prefix};
use crate::text::{chars_skip, chars_start_with, from_chars, to_chars};
use vstd::prelude::*;

verus! {

/// How many references may be followed one inside the other.
pub const MAX_REFERENCE_DEPTH: usize = 64;

/// The schema that an object refers to: the one that its `$ref` names under
/// `#/components/schemas/`, where the document holds it.
pub open spec fn reference_target(doc: Json, members: Seq<Member>) -> Option<Json> {
    match lookup(members, "$ref"@) {
        Some(Json::String(r)) => if schema_prefix().is_prefix_of(r) {
            match doc.get("components"@) {
                Some(components) => match components.get("schemas"@) {
                    Some(schemas) => schemas.get(referenced_name(r)),
                    None => None,
                },
                None => None,
            }
        } else {
            None
        },
        _ => None,
    }
}

/// The values of a list of outcomes; `None` where one of them is `None`.
pub open spec fn all_some(outcomes: Seq<Option<Json>>) -> Option<Seq<Json>>
    decreases outcomes.len(),
{
    if outcomes.len() == 0 {
        Some(Seq::empty())
    } else {
        match (all_some(outcomes.drop_last()), outcomes.last()) {
            (Some(head), Some(x)) => Some(head.push(x)),
            _ => None,
        }
    }
}

/// The members with their values replaced by the given ones.
pub open spec fn with_values(members: Seq<Member>, values: Seq<Json>) -> Seq<Member> {
    Seq::new(members.len(), |i: int| Member { key: members[i].key, value: values[i] })
}

/// `v` with every object that refers to a schema of the document replaced by
/// that schema, the references in the schema replaced in turn. `None` where
/// more than `fuel` references would have to be followed one inside the
/// other.
pub open spec fn dereferenced(doc: Json, v: Json, fuel: nat) -> Option<Json>
    decreases fuel, v, 1nat,
{
    match v {
        Json::Object(members) => match reference_target(doc, members) {
            Some(def) => if fuel == 0 {
                None
            } else {
                dereferenced(doc, def, (fuel - 1) as nat)
            },
            None => match all_some(dereferenced_members(doc, v, fuel)) {
                Some(values) => Some(Json::Object(with_values(members, values))),
                None => None,
            },
        },
        Json::Array(items) => match all_some(dereferenced_items(doc, v, fuel)) {
            Some(values) => Some(Json::Array(values)),
            None => None,
        },
        _ => Some(v),
    }
}

/// The outcomes for the values of the members of the object `v`.
pub open spec fn dereferenced_members(doc: Json, v: Json, fuel: nat) -> Seq<Option<Json>>
    decreases fuel, v, 0nat,
{
    match v {
        Json::Object(members) => Seq::new(
            members.len(),
            |i: int|
                if 0 <= i < members.len() {
                    dereferenced(doc, members[i].value, fuel)
                } else {
                    None
                },
        ),
        _ => Seq::empty(),
    }
}

/// The outcomes for the items of the array `v`.
pub open spec fn dereferenced_items(doc: Json, v: Json, fuel: nat) -> Seq<Option<Json>>
    decreases fuel, v, 0nat,
{
    match v {
        Json::Array(items) => Seq::new(
            items.len(),
            |i: int|
                if 0 <= i < items.len() {
                    dereferenced(doc, items[i], fuel)
                } else {
                    None
                },
        ),
        _ => Seq::empty(),
    }
}

/// No object in `v` refers to a schema that the document holds.
pub open spec fn fully_dereferenced(doc: Json, v: Json) -> bool
    decreases v,
{
    match v {
        Json::Object(members) => reference_target(doc, members) is None && forall|i: int|
            0 <= i < members.len() ==> fully_dereferenced(doc, (#[trigger] members[i]).value),
        Json::Array(items) => forall|i: int|
            0 <= i < items.len() ==> fully_dereferenced(doc, #[trigger] items[i]),
        _ => true,
    }
}

/// No schema that an object can refer to is a mere text.
pub open spec fn schemas_are_no_texts(doc: Json) -> bool {
    forall|members: Seq<Member>|
        (#[trigger] reference_target(doc, members)) is Some ==> !(reference_target(
            doc,
            members,
        )->0 is String)
}

proof fn lemma_all_some_values(outcomes: Seq<Option<Json>>)
    ensures
        match all_some(outcomes) {
            Some(values) => values.len() == outcomes.len() && forall|i: int|
                0 <= i < outcomes.len() ==> #[trigger] outcomes[i] == Some(values[i]),
            None => true,
        },
    decreases outcomes.len(),
{
    if outcomes.len() > 0 {
        lemma_all_some_values(outcomes.drop_last());
        match all_some(outcomes) {
            Some(values) => {
                let head = all_some(outcomes.drop_last())->0;
                assert forall|i: int| 0 <= i < outcomes.len() implies #[trigger] outcomes[i]
                    == Some(values[i]) by {
                    if i < outcomes.len() - 1 {
                        assert(outcomes.drop_last()[i] == outcomes[i]);
                        assert(values[i] == head[i]);
                    }
                }
            },
            None => {},
        }
    }
}

/// What was dereferenced is a text exactly where it was one before, and
/// then the same one, as long as no schema is a mere text.
proof fn lemma_dereferenced_texts(doc: Json, v: Json, fuel: nat)
    requires
        schemas_are_no_texts(doc),
        dereferenced(doc, v, fuel) is Some,
    ensures
        dereferenced(doc, v, fuel)->0 is String <==> v is String,
        v is String ==> dereferenced(doc, v, fuel)->0 == v,
    decreases fuel, v,
{
    match v {
        Json::Object(members) => {
            match reference_target(doc, members) {
                Some(def) => {
                    lemma_dereferenced_texts(doc, def, (fuel - 1) as nat);
                },
                None => {},
            }
        },
        _ => {},
    }
}

/// After dereferencing, no object refers to a schema of the document any
/// more: every reference that could be followed was replaced. This holds of
/// every document whose schemas are no mere texts.
pub proof fn lemma_dereferenced_is_complete(doc: Json, v: Json, fuel: nat)
    requires
        schemas_are_no_texts(doc),
        dereferenced(doc, v, fuel) is Some,
    ensures
        fully_dereferenced(doc, dereferenced(doc, v, fuel)->0),
    decreases fuel, v,
{
    match v {
        Json::Object(members) => {
            match reference_target(doc, members) {
                Some(def) => {
                    lemma_dereferenced_is_complete(doc, def, (fuel - 1) as nat);
                },
                None => {
                    let outcomes = dereferenced_members(doc, v, fuel);
                    lemma_all_some_values(outcomes);
                    let values = all_some(outcomes)->0;
                    let after = with_values(members, values);
                    assert forall|i: int| 0 <= i < after.len() implies fully_dereferenced(
                        doc,
                        (#[trigger] after[i]).value,
                    ) by {
                        assert(outcomes[i] == Some(values[i]));
                        lemma_dereferenced_is_complete(doc, members[i].value, fuel);
                    }
                    // The member `$ref` is a text after exactly where it was one before.
                    crate::json::lemma_key_index_spec(members, "$ref"@);
                    match crate::json::key_index(members, "$ref"@) {
                        Some(k) => {
                            assert(outcomes[k] == Some(values[k]));
                            lemma_dereferenced_texts(doc, members[k].value, fuel);
                            assert forall|j: int| 0 <= j < k implies (#[trigger] after[j]).key
                                != "$ref"@ by {
                                assert(after[j].key == members[j].key);
                            }
                            assert(after[k].key == "$ref"@);
                            crate::json::lemma_key_index_found(after, "$ref"@, k);
                        },
                        None => {
                            assert forall|j: int| 0 <= j < after.len() implies (
                            #[trigger] after[j]).key != "$ref"@ by {
                                assert(after[j].key == members[j].key);
                            }
                            crate::json::lemma_key_index_absent(after, "$ref"@);
                        },
                    }
                },
            }
        },
        Json::Array(items) => {
            let outcomes = dereferenced_items(doc, v, fuel);
            lemma_all_some_values(outcomes);
            let values = all_some(outcomes)->0;
            assert forall|i: int| 0 <= i < values.len() implies fully_dereferenced(
                doc,
                #[trigger] values[i],
            ) by {
                assert(outcomes[i] == Some(values[i]));
                lemma_dereferenced_is_complete(doc, items[i], fuel);
            }
        },
        _ => {},
    }
}

/// Without its empty members, an object has no member that is `null`.
pub proof fn lemma_without_nulls(v: Json)
    ensures
        match without_nulls(v) {
            Json::Object(members) => forall|i: int|
                0 <= i < members.len() ==> !((#[trigger] members[i]).value is Null),
            other => other == v,
        },
{
    match v {
        Json::Object(members) => {
            lemma_members_not_null(members);
        },
        _ => {},
    }
}

proof fn lemma_members_not_null(members: Seq<Member>)
    ensures
        forall|i: int|
            0 <= i < members_not_null(members).len() ==> !((#[trigger] members_not_null(
                members,
            )[i]).value is Null),
    decreases members.len(),
{
    if members.len() > 0 {
        lemma_members_not_null(members.drop_last());
        let head = members_not_null(members.drop_last());
        let all = members_not_null(members);
        assert forall|i: int| 0 <= i < all.len() implies !((#[trigger] all[i]).value is Null) by {
            if i < head.len() {
                assert(all[i] == head[i]);
            }
        }
    }
}

proof fn lemma_all_some_fails(outcomes: Seq<Option<Json>>, i: int)
    requires
        0 <= i < outcomes.len(),
        outcomes[i] is None,
    ensures
        all_some(outcomes) is None,
    decreases outcomes.len(),
{
    if i < outcomes.len() - 1 {
        assert(outcomes.drop_last()[i] == outcomes[i]);
        lemma_all_some_fails(outcomes.drop_last(), i);
    }
}

proof fn lemma_all_some_holds(outcomes: Seq<Option<Json>>, values: Seq<Json>)
    requires
        values.len() == outcomes.len(),
        forall|i: int| 0 <= i < outcomes.len() ==> outcomes[i] == Some(values[i]),
    ensures
        all_some(outcomes) == Some(values),
    decreases outcomes.len(),
{
    if outcomes.len() > 0 {
        let head = outcomes.drop_last();
        let head_values = values.drop_last();
        assert forall|i: int| 0 <= i < head.len() implies head[i] == Some(head_values[i]) by {
            assert(head[i] == outcomes[i]);
        }
        lemma_all_some_holds(head, head_values);
        assert(head_values.push(values.last()) =~= values);
    } else {
        assert(values =~= Seq::<Json>::empty());
    }
}

/// The members of an object that are not `null`, in their order.
pub open spec fn members_not_null(members: Seq<Member>) -> Seq<Member>
    decreases members.len(),
{
    if members.len() == 0 {
        Seq::empty()
    } else {
        let head = members_not_null(members.drop_last());
        if members.last().value is Null {
            head
        } else {
            head.push(members.last())
        }
    }
}

/// An object without its members that are `null`; any other value as it is.
pub open spec fn without_nulls(v: Json) -> Json {
    match v {
        Json::Object(members) => Json::Object(members_not_null(members)),
        _ => v,
    }
}

fn too_deep() -> (r: Error)
    ensures
        r@ == too_deep_error(),
{
    Error::openapi("Schema references are nested too deeply")
}

/// The error for a document whose references nest too deeply.
pub open spec fn too_deep_error() -> ErrorView {
    ErrorView::OpenApi("Schema references are nested too deeply"@)
}

fn find_target<'a>(spec: &'a OpenApiContext, entries: &Vec<(String, JsonValue)>) -> (r: Option<
    &'a JsonValue,
>)
    ensures
        match r {
            Some(def) => reference_target(spec@, entries_view(entries@)) == Some(def@),
            None => reference_target(spec@, entries_view(entries@)) is None,
        },
{
    let reference = match crate::json::entries_get(entries, "$ref") {
        Some(v) => match v.as_str() {
            Some(s) => s,
            None => return None,
        },
        None => return None,
    };
    let v = to_chars(reference);
    let prefix = to_chars("#/components/schemas/");
    if !chars_start_with(&v, &prefix) {
        return None;
    }
    let name = from_chars(&chars_skip(&v, prefix.len()));
    match spec.json.get("components") {
        Some(components) => match components.get("schemas") {
            Some(schemas) => schemas.get(name.as_str()),
            None => None,
        },
        None => None,
    }
}

/// Replaces every reference in `value` by the schema it names, as long as no
/// more than `depth` references have to be followed one inside the other.
pub fn dereference(value: &JsonValue, spec: &OpenApiContext, depth: usize) -> (r: Result<
    JsonValue,
    Error,
>)
    ensures
        match r {
            Ok(v) => dereferenced(spec@, value@, depth as nat) == Some(v@),
            Err(e) => dereferenced(spec@, value@, depth as nat) is None && e@
                == too_deep_error(),
        },
    decreases depth, value,
{
    match value {
        JsonValue::Object(entries) => {
            proof {
                lemma_object_view(*entries);
            }
            match find_target(spec, entries) {
                Some(def) => {
                    if depth == 0 {
                        return Err(too_deep());
                    }
                    return dereference(def, spec, depth - 1);
                },
                None => {},
            }
            let ghost members = entries_view(entries@);
            let mut out: Vec<(String, JsonValue)> = Vec::new();
            let mut i: usize = 0;
            while i < entries.len()
                invariant
                    i <= entries.len(),
                    *value == JsonValue::Object(*entries),
                    value@ == Json::Object(members),
                    reference_target(spec@, members) is None,
                    members == entries_view(entries@),
                    out@.len() == i,
                    forall|k: int| 0 <= k < i ==> (#[trigger] out@[k]).0@ == members[k].key,
                    forall|k: int|
                        0 <= k < i ==> #[trigger] dereferenced_members(
                            spec@,
                            value@,
                            depth as nat,
                        )[k] == Some(out@[k].1@),
                decreases entries.len() - i,
            {
                proof {
                    assert(decreases_to!(*value => value->Object_0));
                    assert(decreases_to!(*entries => entries@));
                    assert(decreases_to!(entries@ => entries@[i as int]));
                    assert(decreases_to!(entries@[i as int] => entries@[i as int].1));
                }
                match dereference(&entries[i].1, spec, depth) {
                    Ok(v) => {
                        proof {
                            assert(members[i as int].value == entries@[i as int].1@);
                            assert(members[i as int].key == entries@[i as int].0@);
                            assert(dereferenced_members(spec@, value@, depth as nat)[i as int]
                                == Some(v@));
                        }
                        let key = entries[i].0.clone();
                        out.push((key, v));
                    },
                    Err(e) => {
                        proof {
                            assert(members[i as int].value == entries@[i as int].1@);
                            lemma_all_some_fails(
                                dereferenced_members(spec@, value@, depth as nat),
                                i as int,
                            );
                        }
                        return Err(e);
                    },
                }
                i += 1;
            }
            let ghost values = Seq::new(out@.len(), |k: int| out@[k].1@);
            let ghost pairs = out@;
            let r = JsonValue::object(out);
            assert(r@->Object_0 == entries_view(pairs));
            proof {
                lemma_all_some_holds(dereferenced_members(spec@, value@, depth as nat), values);
                let got = r@->Object_0;
                let want = with_values(members, values);
                assert(got.len() == want.len());
                assert forall|k: int| 0 <= k < got.len() implies got[k] == want[k] by {
                    assert(got[k].key == members[k].key);
                    assert(got[k].value == values[k]);
                }
                assert(got =~= want);
            }
            Ok(r)
        },
        JsonValue::Array(items) => {
            proof {
                lemma_array_view(*items);
            }
            let ghost models = items_view(items@);
            let mut out: Vec<JsonValue> = Vec::new();
            let mut i: usize = 0;
            while i < items.len()
                invariant
                    i <= items.len(),
                    *value == JsonValue::Array(*items),
                    value@ == Json::Array(models),
                    models == items_view(items@),
                    out@.len() == i,
                    forall|k: int|
                        0 <= k < i ==> #[trigger] dereferenced_items(
                            spec@,
                            value@,
                            depth as nat,
                        )[k] == Some(out@[k]@),
                decreases items.len() - i,
            {
                proof {
                    assert(decreases_to!(*value => value->Array_0));
                    assert(decreases_to!(*items => items@));
                    assert(decreases_to!(items@ => items@[i as int]));
                }
                match dereference(&items[i], spec, depth) {
                    Ok(v) => {
                        proof {
                            assert(models[i as int] == items@[i as int]@);
                            assert(dereferenced_items(spec@, value@, depth as nat)[i as int]
                                == Some(v@));
                        }
                        out.push(v);
                    },
                    Err(e) => {
                        proof {
                            assert(models[i as int] == items@[i as int]@);
                            lemma_all_some_fails(
                                dereferenced_items(spec@, value@, depth as nat),
                                i as int,
                            );
                        }
                        return Err(e);
                    },
                }
                i += 1;
            }
            let ghost values = items_view(out@);
            let r = JsonValue::array(out);
            proof {
                lemma_all_some_holds(dereferenced_items(spec@, value@, depth as nat), values);
            }
            Ok(r)
        },
        _ => Ok(value.clone()),
    }
}

/// An object without its members that are `null`; any other value as it is.
pub fn strip_nulls(value: JsonValue) -> (r: JsonValue)
    ensures
        r@ == without_nulls(value@),
{
    match value {
        JsonValue::Object(entries) => {
            proof {
                lemma_object_view(entries);
            }
            let ghost members = entries_view(entries@);
            let mut out: Vec<(String, JsonValue)> = Vec::new();
            let mut i: usize = 0;
            assert(entries_view(out@) =~= Seq::<Member>::empty());
            while i < entries.len()
                invariant
                    i <= entries.len(),
                    members == entries_view(entries@),
                    entries_view(out@) == members_not_null(members.take(i as int)),
                decreases entries.len() - i,
            {
                proof {
                    assert(members.take(i as int + 1).drop_last() =~= members.take(i as int));
                    assert(members.take(i as int + 1).last() == members[i as int]);
                }
                let ghost before = entries_view(out@);
                if !entries[i].1.is_null() {
                    out.push((entries[i].0.clone(), entries[i].1.clone()));
                    assert(entries_view(out@) =~= before.push(members[i as int]));
                }
                i += 1;
            }
            assert(members.take(entries@.len() as int) =~= members);
            JsonValue::object(out)
        },
        other => other,
    }
}

} // verus!
