//! Parameters of a path with their Rust types.

use crate::json::{entries_view, items_view, Json, JsonValue, lookup, Member};
use crate::openapi::context::{resolve_pointer, resolve_reference};
use crate::openapi::sanitize::{
    handler_order, is_path_parameter, lemma_handler_order_path_first, parameters_where,
};
use crate::openapi::parser::property::{
    flag_field, get_bool_field, get_opt_str_field, get_str_field, mapping_of,
    openapi_type_to_rust_type, optional_text_field, rust_type_name, text_field,
};
use crate::openapi::schema::value::SchemaValue;
use crate::openapi::types::{ParameterDetailView, ParameterInfo};
use crate::text::{owned, str_eq};
use vstd::prelude::*;

verus! {

/// The schema of a parameter: its member `schema`, or `null`.
pub open spec fn parameter_schema(map: Seq<Member>) -> Json {
    match lookup(map, "schema"@) {
        Some(s) => s,
        None => Json::Null,
    }
}

/// The parameter that a definition describes: an object with a name that is
/// not empty.
pub open spec fn parameter_detail_of(param: Json) -> Option<ParameterDetailView> {
    match param {
        Json::Object(map) => if text_field(map, "name"@).len() == 0 {
            None
        } else {
            let schema = parameter_schema(map);
            let schema_map = mapping_of(schema);
            Some(
                ParameterDetailView {
                    name: text_field(map, "name"@),
                    rust_type: rust_type_name(
                        text_field(schema_map, "type"@),
                        optional_text_field(schema_map, "format"@),
                    ),
                    openapi_type: text_field(schema_map, "type"@),
                    format: optional_text_field(schema_map, "format"@),
                    description: text_field(map, "description"@),
                    description_raw: text_field(map, "description"@),
                    example: text_field(map, "example"@),
                    example_raw: text_field(map, "example"@),
                    required: flag_field(map, "required"@),
                    schema,
                },
            )
        },
        _ => None,
    }
}

/// The definition that one entry of a `parameters` list stands for: the
/// target of its `$ref` where it has one, else the entry itself. An entry
/// whose reference leads nowhere, or whose definition describes no
/// parameter, stands for none.
pub open spec fn definition_of_entry(doc: Json, entry: Json) -> Option<Json> {
    let target = match entry.get_str("$ref"@) {
        Some(reference) => resolve_pointer(doc, reference),
        None => Some(entry),
    };
    match target {
        Some(definition) => if parameter_detail_of(definition) is Some {
            Some(definition)
        } else {
            None
        },
        None => None,
    }
}

/// The definitions that the entries stand for, in order; an entry that
/// stands for none is left out.
pub open spec fn parameter_definitions(doc: Json, entries: Seq<Json>) -> Seq<Json>
    decreases entries.len(),
{
    if entries.len() == 0 {
        Seq::empty()
    } else {
        let head = parameter_definitions(doc, entries.drop_last());
        match definition_of_entry(doc, entries.last()) {
            Some(definition) => head.push(definition),
            None => head,
        }
    }
}

/// The parameters that the definitions describe, in order.
pub open spec fn details_of(definitions: Seq<Json>) -> Seq<ParameterDetailView>
    decreases definitions.len(),
{
    if definitions.len() == 0 {
        Seq::empty()
    } else {
        let head = details_of(definitions.drop_last());
        match parameter_detail_of(definitions.last()) {
            Some(p) => head.push(p),
            None => head,
        }
    }
}

/// The entries of the list `parameters` of a path object.
pub open spec fn parameter_entries(path_obj: Seq<Member>) -> Seq<Json> {
    match Json::Object(path_obj).get_array("parameters"@) {
        Some(entries) => entries,
        None => Seq::empty(),
    }
}

/// The parameters of a path object in the order in which a handler takes
/// them: those in the path first, then all others, each group in the order
/// of the document.
pub open spec fn handler_parameters(doc: Json, path_obj: Seq<Member>) -> Seq<ParameterDetailView> {
    let definitions = parameter_definitions(doc, parameter_entries(path_obj));
    details_of(parameters_where(definitions, true)) + details_of(
        parameters_where(definitions, false),
    )
}

/// The models of a list of parameters.
pub open spec fn parameter_list_view(v: Seq<ParameterInfo>) -> Seq<ParameterDetailView> {
    Seq::new(v.len(), |i: int| v[i]@)
}

/// The parameter that a definition describes; nothing where the definition
/// is no object or gives no name.
pub fn extract_parameter_info(param: &JsonValue) -> (r: Option<ParameterInfo>)
    ensures
        match r {
            Some(p) => parameter_detail_of(param@) == Some(p@),
            None => parameter_detail_of(param@) is None,
        },
{
    let map = match param.as_object() {
        Some(m) => m,
        None => return None,
    };
    let name = get_str_field(map, "name");
    if name.as_str().is_empty() {
        return None;
    }
    let schema = match crate::json::entries_get(map, "schema") {
        Some(s) => s.clone(),
        None => JsonValue::Null,
    };
    let empty: Vec<(String, JsonValue)> = Vec::new();
    assert(entries_view(empty@) =~= Seq::<Member>::empty());
    let schema_map: &Vec<(String, JsonValue)> = match schema.as_object() {
        Some(m) => m,
        None => &empty,
    };
    let openapi_type = get_str_field(schema_map, "type");
    let format = get_opt_str_field(schema_map, "format");
    let rust_type = openapi_type_to_rust_type(
        openapi_type.as_str(),
        match &format {
            Some(f) => Some(f.as_str()),
            None => None,
        },
    );
    Some(
        ParameterInfo {
            name,
            rust_type: owned(rust_type),
            description: get_str_field(map, "description"),
            description_raw: get_str_field(map, "description"),
            example: get_str_field(map, "example"),
            example_raw: get_str_field(map, "example"),
            required: get_bool_field(map, "required"),
            openapi_type,
            format,
            schema: SchemaValue::new(schema),
        },
    )
}

/// One entry of a `parameters` list, read: whether its definition declares
/// the location `path`, and the parameter that the definition describes.
fn read_entry(doc: &JsonValue, entry: &JsonValue) -> (r: Option<(bool, ParameterInfo)>)
    ensures
        match r {
            Some(found) => definition_of_entry(doc@, entry@) matches Some(definition)
                && is_path_parameter(definition) == found.0 && parameter_detail_of(definition)
                == Some(found.1@),
            None => definition_of_entry(doc@, entry@) is None,
        },
{
    let target = match entry.get_str("$ref") {
        Some(reference) => match resolve_reference(doc, reference) {
            Some(target) => target,
            None => return None,
        },
        None => entry,
    };
    let in_path = match target.get_str("in") {
        Some(location) => str_eq(location, "path"),
        None => false,
    };
    match extract_parameter_info(target) {
        Some(p) => Some((in_path, p)),
        None => None,
    }
}

/// Adds to `out` the parameters of the entries that are in the path, or
/// those that are not, in the order of the entries.
fn collect_where(
    doc: &JsonValue,
    entries: &Vec<JsonValue>,
    in_path: bool,
    out: &mut Vec<ParameterInfo>,
)
    ensures
        parameter_list_view(final(out)@) == parameter_list_view(old(out)@) + details_of(
            parameters_where(parameter_definitions(doc@, items_view(entries@)), in_path),
        ),
{
    let ghost all = items_view(entries@);
    let ghost start = parameter_list_view(out@);
    assert(start + Seq::<ParameterDetailView>::empty() =~= start);
    let mut i: usize = 0;
    while i < entries.len()
        invariant
            i <= entries.len(),
            all == items_view(entries@),
            parameter_list_view(out@) == start + details_of(
                parameters_where(parameter_definitions(doc@, all.take(i as int)), in_path),
            ),
        decreases entries.len() - i,
    {
        let ghost before = parameter_definitions(doc@, all.take(i as int));
        let ghost kept = parameters_where(before, in_path);
        proof {
            assert(all.take(i as int + 1).drop_last() =~= all.take(i as int));
            assert(all.take(i as int + 1).last() == entries@[i as int]@);
        }
        match read_entry(doc, &entries[i]) {
            Some(found) => {
                let ghost definition = definition_of_entry(doc@, entries@[i as int]@)->Some_0;
                proof {
                    assert(before.push(definition).drop_last() =~= before);
                    assert(before.push(definition).last() == definition);
                }
                if found.0 == in_path {
                    let ghost pv = found.1@;
                    let ghost shown = parameter_list_view(out@);
                    proof {
                        assert(kept.push(definition).drop_last() =~= kept);
                        assert(kept.push(definition).last() == definition);
                        assert((start + details_of(kept)).push(pv) =~= start + details_of(
                            kept,
                        ).push(pv));
                    }
                    out.push(found.1);
                    assert(parameter_list_view(out@) =~= shown.push(pv));
                }
            },
            None => {},
        }
        i += 1;
    }
    assert(all.take(entries@.len() as int) =~= all);
}

/// The parameters of a path object of the document `swagger_doc`, each entry
/// either a definition or a `$ref` to one, in the order in which a handler
/// takes them: the path parameters first, then all others.
pub fn extract_parameters_for_handler(swagger_doc: &JsonValue, path_obj: &Vec<(String, JsonValue)>)
    -> (r: Vec<ParameterInfo>)
    ensures
        parameter_list_view(r@) == handler_parameters(swagger_doc@, entries_view(path_obj@)),
{
    let mut out: Vec<ParameterInfo> = Vec::new();
    assert(parameter_list_view(out@) =~= Seq::<ParameterDetailView>::empty());
    let empty: Vec<JsonValue> = Vec::new();
    assert(items_view(empty@) =~= Seq::<Json>::empty());
    let entries = match crate::json::entries_get(path_obj, "parameters") {
        Some(v) => match v.as_array() {
            Some(e) => e,
            None => &empty,
        },
        None => &empty,
    };
    assert(items_view(entries@) == parameter_entries(entries_view(path_obj@)));
    let ghost definitions = parameter_definitions(swagger_doc@, items_view(entries@));
    collect_where(swagger_doc, entries, true, &mut out);
    assert(parameter_list_view(out@) =~= details_of(parameters_where(definitions, true)));
    collect_where(swagger_doc, entries, false, &mut out);
    out
}

proof fn lemma_definitions_describe(doc: Json, entries: Seq<Json>)
    ensures
        forall|i: int|
            0 <= i < parameter_definitions(doc, entries).len() ==> parameter_detail_of(
                #[trigger] parameter_definitions(doc, entries)[i],
            ) is Some,
    decreases entries.len(),
{
    if entries.len() > 0 {
        lemma_definitions_describe(doc, entries.drop_last());
    }
}

proof fn lemma_details_pointwise(definitions: Seq<Json>)
    requires
        forall|i: int|
            0 <= i < definitions.len() ==> parameter_detail_of(#[trigger] definitions[i]) is Some,
    ensures
        details_of(definitions).len() == definitions.len(),
        forall|i: int|
            0 <= i < definitions.len() ==> parameter_detail_of(definitions[i]) == Some(
                #[trigger] details_of(definitions)[i],
            ),
    decreases definitions.len(),
{
    if definitions.len() > 0 {
        let head = definitions.drop_last();
        assert forall|i: int| 0 <= i < head.len() implies parameter_detail_of(
            #[trigger] head[i],
        ) is Some by {
            assert(head[i] == definitions[i]);
        }
        lemma_details_pointwise(head);
        assert(parameter_detail_of(definitions[definitions.len() - 1]) is Some);
        assert forall|i: int| 0 <= i < definitions.len() implies parameter_detail_of(
            definitions[i],
        ) == Some(#[trigger] details_of(definitions)[i]) by {
            if i < head.len() {
                assert(head[i] == definitions[i]);
                assert(details_of(definitions)[i] == details_of(head)[i]);
            }
        }
    }
}

proof fn lemma_details_concat(first: Seq<Json>, second: Seq<Json>)
    ensures
        details_of(first + second) == details_of(first) + details_of(second),
    decreases second.len(),
{
    if second.len() == 0 {
        assert(first + second =~= first);
        assert(details_of(first) + details_of(second) =~= details_of(first));
    } else {
        lemma_details_concat(first, second.drop_last());
        assert((first + second).drop_last() =~= first + second.drop_last());
        assert((first + second).last() == second.last());
        match parameter_detail_of(second.last()) {
            Some(p) => {
                assert((details_of(first) + details_of(second.drop_last())).push(p) =~= details_of(
                    first,
                ) + details_of(second.drop_last()).push(p));
            },
            None => {},
        }
    }
}

/// A handler takes the parameters of the document, each as often as there,
/// and no other parameter before one of the path: its parameters are those
/// that the definitions describe, one for one, the definitions standing in
/// the handler order.
pub proof fn lemma_handler_parameters_path_first(doc: Json, path_obj: Seq<Member>)
    ensures
        ({
            let declared = parameter_definitions(doc, parameter_entries(path_obj));
            let ordered = handler_order(declared);
            let taken = handler_parameters(doc, path_obj);
            &&& taken.len() == ordered.len()
            &&& forall|i: int|
                0 <= i < ordered.len() ==> parameter_detail_of(ordered[i]) == Some(
                    #[trigger] taken[i],
                )
            &&& forall|i: int, j: int|
                0 <= i < j < ordered.len() && is_path_parameter(#[trigger] ordered[j])
                    ==> is_path_parameter(#[trigger] ordered[i])
            &&& ordered.to_multiset() =~= declared.to_multiset()
        }),
{
    let declared = parameter_definitions(doc, parameter_entries(path_obj));
    let ordered = handler_order(declared);
    lemma_definitions_describe(doc, parameter_entries(path_obj));
    lemma_handler_order_path_first(declared);
    lemma_details_concat(parameters_where(declared, true), parameters_where(declared, false));
    assert forall|i: int| 0 <= i < ordered.len() implies parameter_detail_of(
        #[trigger] ordered[i],
    ) is Some by {
        assert(ordered.to_multiset().count(ordered[i]) > 0) by {
            broadcast use vstd::seq_lib::group_to_multiset_ensures;

            assert(ordered.contains(ordered[i]));
        }
        assert(declared.contains(ordered[i])) by {
            broadcast use vstd::seq_lib::group_to_multiset_ensures;

        }
    }
    lemma_details_pointwise(ordered);
}

} // verus!
