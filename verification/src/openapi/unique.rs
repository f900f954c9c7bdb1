//! Keys that occur once.
//!
//! The model keeps each map of a document as a list of pairs in the order of
//! the document. This file states what makes such a list a map: where the
//! document holds no key twice, no list of the model does.

use crate::json::{
    keys_unique, lemma_well_keyed_item, lemma_well_keyed_member, Json, Member, well_keyed,
};
use crate::openapi::context::{
    document_operations, http_methods, operation_of, operation_responses, operations_of_item,
    operations_of_paths, parameters_of_entries, path_parameters, pointer_segments,
    resolve_pointer, responses_of_members, vendor_extensions_of, walk,
};
use crate::openapi::fields::{members_besides, object_field};
use crate::openapi::model::{
    NamedResponse, OperationView, parameter_from_json, ParameterView, response_from_json,
    ResponseView,
};
use vstd::prelude::*;

verus! {

/// No key occurs twice among the members, where there are any.
pub open spec fn opt_keys_unique(o: Option<Seq<Member>>) -> bool {
    match o {
        Some(members) => keys_unique(members),
        None => true,
    }
}

/// No status code occurs twice among the responses.
pub open spec fn statuses_unique(responses: Seq<NamedResponse>) -> bool {
    forall|i: int, j: int|
        0 <= i < j < responses.len() ==> (#[trigger] responses[i]).status != (
        #[trigger] responses[j]).status
}

/// Each map of the parameter holds each of its keys once.
pub open spec fn parameter_well_keyed(p: ParameterView) -> bool {
    &&& opt_keys_unique(p.examples)
    &&& opt_keys_unique(p.content)
    &&& keys_unique(p.vendor_extensions)
}

/// Each map of the response holds each of its keys once.
pub open spec fn response_well_keyed(r: ResponseView) -> bool {
    &&& opt_keys_unique(r.headers)
    &&& opt_keys_unique(r.content)
    &&& opt_keys_unique(r.links)
    &&& keys_unique(r.vendor_extensions)
}

/// Each map of each parameter holds each of its keys once.
pub open spec fn parameters_well_keyed(params: Seq<ParameterView>) -> bool {
    forall|i: int| 0 <= i < params.len() ==> parameter_well_keyed(#[trigger] params[i])
}

/// No status code occurs twice, and each map of each response holds each of
/// its keys once.
pub open spec fn responses_well_keyed(responses: Seq<NamedResponse>) -> bool {
    &&& statuses_unique(responses)
    &&& forall|i: int|
        0 <= i < responses.len() ==> response_well_keyed((#[trigger] responses[i]).response)
}

/// Each map of the operation holds each of its keys once: its responses by
/// status code, its extensions, and the maps of its parameters and
/// responses.
pub open spec fn operation_well_keyed(op: OperationView) -> bool {
    &&& responses_well_keyed(op.responses)
    &&& keys_unique(op.vendor_extensions)
    &&& match op.parameters {
        Some(params) => parameters_well_keyed(params),
        None => true,
    }
}

/// Each map of each operation holds each of its keys once.
pub open spec fn operations_well_keyed(ops: Seq<OperationView>) -> bool {
    forall|i: int| 0 <= i < ops.len() ==> operation_well_keyed(#[trigger] ops[i])
}

/// Whether one of the members has the key.
pub open spec fn holds_key(members: Seq<Member>, key: Seq<char>) -> bool {
    exists|i: int| 0 <= i < members.len() && (#[trigger] members[i]).key == key
}

proof fn lemma_holds_key_grows(members: Seq<Member>, key: Seq<char>)
    requires
        members.len() > 0,
        holds_key(members.drop_last(), key),
    ensures
        holds_key(members, key),
{
    let i = choose|i: int|
        0 <= i < members.drop_last().len() && (#[trigger] members.drop_last()[i]).key == key;
    assert(members[i].key == key);
}

proof fn lemma_last_key_is_new(members: Seq<Member>, key: Seq<char>)
    requires
        members.len() > 0,
        keys_unique(members),
        holds_key(members.drop_last(), key),
    ensures
        members.last().key != key,
{
    let i = choose|i: int|
        0 <= i < members.drop_last().len() && (#[trigger] members.drop_last()[i]).key == key;
    assert(members[i].key == key);
    assert(members[i].key != members[members.len() - 1].key);
}

proof fn lemma_drop_last_unique(members: Seq<Member>)
    requires
        members.len() > 0,
        keys_unique(members),
    ensures
        keys_unique(members.drop_last()),
{
    let head = members.drop_last();
    assert forall|i: int, j: int| 0 <= i < j < head.len() implies (#[trigger] head[i]).key != (
    #[trigger] head[j]).key by {
        assert(head[i] == members[i] && head[j] == members[j]);
    }
}

/// The members that are left of an object without a key twice, when those
/// of some names are taken out, hold no key twice, and each of their keys
/// is one of the object.
pub proof fn lemma_members_besides_unique(obj: Seq<Member>, names: Seq<Seq<char>>)
    requires
        keys_unique(obj),
    ensures
        keys_unique(members_besides(obj, names)),
        forall|j: int|
            0 <= j < members_besides(obj, names).len() ==> holds_key(
                obj,
                (#[trigger] members_besides(obj, names)[j]).key,
            ),
    decreases obj.len(),
{
    if obj.len() > 0 {
        let head = members_besides(obj.drop_last(), names);
        let all = members_besides(obj, names);
        lemma_drop_last_unique(obj);
        lemma_members_besides_unique(obj.drop_last(), names);
        assert forall|j: int| 0 <= j < all.len() implies holds_key(obj, (#[trigger] all[j]).key) by {
            if j < head.len() {
                assert(all[j] == head[j]);
                lemma_holds_key_grows(obj, head[j].key);
            } else {
                assert(obj[obj.len() - 1].key == all[j].key);
            }
        }
        assert forall|i: int, j: int| 0 <= i < j < all.len() implies (#[trigger] all[i]).key != (
        #[trigger] all[j]).key by {
            assert(all[i] == head[i]);
            if j < head.len() {
                assert(all[j] == head[j]);
            } else {
                lemma_last_key_is_new(obj, head[i].key);
            }
        }
    }
}

/// The extensions of an object without a key twice hold no key twice, and
/// each of their keys is one of the object.
pub proof fn lemma_vendor_extensions_unique(item: Seq<Member>)
    requires
        keys_unique(item),
    ensures
        keys_unique(vendor_extensions_of(item)),
        forall|j: int|
            0 <= j < vendor_extensions_of(item).len() ==> holds_key(
                item,
                (#[trigger] vendor_extensions_of(item)[j]).key,
            ),
    decreases item.len(),
{
    if item.len() > 0 {
        let head = vendor_extensions_of(item.drop_last());
        let all = vendor_extensions_of(item);
        lemma_drop_last_unique(item);
        lemma_vendor_extensions_unique(item.drop_last());
        assert forall|j: int| 0 <= j < all.len() implies holds_key(item, (#[trigger] all[j]).key) by {
            if j < head.len() {
                assert(all[j] == head[j]);
                lemma_holds_key_grows(item, head[j].key);
            } else {
                assert(item[item.len() - 1].key == all[j].key);
            }
        }
        assert forall|i: int, j: int| 0 <= i < j < all.len() implies (#[trigger] all[i]).key != (
        #[trigger] all[j]).key by {
            assert(all[i] == head[i]);
            if j < head.len() {
                assert(all[j] == head[j]);
            } else {
                lemma_last_key_is_new(item, head[i].key);
            }
        }
    }
}

proof fn lemma_object_field_unique(obj: Seq<Member>, key: Seq<char>)
    requires
        well_keyed(Json::Object(obj)),
    ensures
        match object_field(obj, key) {
            Some(found) => opt_keys_unique(found),
            None => true,
        },
{
    lemma_well_keyed_member(obj, key);
}

/// The parameter that is read from a definition without a key twice holds
/// each key of each of its maps once.
pub proof fn lemma_parameter_well_keyed(v: Json)
    requires
        well_keyed(v),
    ensures
        match parameter_from_json(v) {
            Some(p) => parameter_well_keyed(p),
            None => true,
        },
{
    match v {
        Json::Object(obj) => {
            lemma_object_field_unique(obj, "examples"@);
            lemma_object_field_unique(obj, "content"@);
            lemma_members_besides_unique(obj, crate::openapi::model::parameter_keys());
        },
        _ => {},
    }
}

/// The response that is read from a definition without a key twice holds
/// each key of each of its maps once.
pub proof fn lemma_response_well_keyed(v: Json)
    requires
        well_keyed(v),
    ensures
        match response_from_json(v) {
            Some(r) => response_well_keyed(r),
            None => true,
        },
{
    match v {
        Json::Object(obj) => {
            lemma_object_field_unique(obj, "headers"@);
            lemma_object_field_unique(obj, "content"@);
            lemma_object_field_unique(obj, "links"@);
            lemma_members_besides_unique(obj, crate::openapi::model::response_keys());
        },
        _ => {},
    }
}

proof fn lemma_walk_well_keyed(node: Json, segments: Seq<Seq<char>>)
    requires
        well_keyed(node),
    ensures
        match walk(node, segments) {
            Some(found) => well_keyed(found),
            None => true,
        },
    decreases segments.len(),
{
    if segments.len() > 0 {
        lemma_walk_well_keyed(node, segments.drop_last());
        match walk(node, segments.drop_last()) {
            Some(Json::Object(members)) => {
                lemma_well_keyed_member(members, segments.last());
            },
            _ => {},
        }
    }
}

/// The parameters of a list of entries hold each key of each of their maps
/// once, where neither the entries nor the document that their references
/// point into hold a key twice.
pub proof fn lemma_parameters_well_keyed(doc: Json, entries: Seq<Json>)
    requires
        well_keyed(doc),
        well_keyed(Json::Array(entries)),
    ensures
        parameters_well_keyed(parameters_of_entries(doc, entries)),
    decreases entries.len(),
{
    if entries.len() > 0 {
        let head = parameters_of_entries(doc, entries.drop_last());
        let all = parameters_of_entries(doc, entries);
        let entry = entries.last();
        lemma_well_keyed_item(entries, entries.len() - 1);
        assert forall|i: int| 0 <= i < entries.drop_last().len() implies well_keyed(
            #[trigger] entries.drop_last()[i],
        ) by {
            lemma_well_keyed_item(entries, i);
        }
        lemma_parameters_well_keyed(doc, entries.drop_last());
        match entry.get_str("$ref"@) {
            Some(reference) => {
                lemma_walk_well_keyed(doc, pointer_segments(reference));
                match resolve_pointer(doc, reference) {
                    Some(target) => lemma_parameter_well_keyed(target),
                    None => {},
                }
            },
            None => lemma_parameter_well_keyed(entry),
        }
        assert forall|i: int| 0 <= i < all.len() implies parameter_well_keyed(
            #[trigger] all[i],
        ) by {
            if i < head.len() {
                assert(all[i] == head[i]);
            }
        }
    }
}

/// The responses that are read from an object without a key twice stand
/// each under a status code of its own, and each holds each key of each of
/// its maps once.
pub proof fn lemma_responses_well_keyed(members: Seq<Member>)
    requires
        well_keyed(Json::Object(members)),
    ensures
        responses_well_keyed(responses_of_members(members)),
        forall|j: int|
            0 <= j < responses_of_members(members).len() ==> holds_key(
                members,
                (#[trigger] responses_of_members(members)[j]).status,
            ),
    decreases members.len(),
{
    if members.len() > 0 {
        let head = responses_of_members(members.drop_last());
        let all = responses_of_members(members);
        lemma_drop_last_unique(members);
        assert forall|i: int| 0 <= i < members.drop_last().len() implies well_keyed(
            (#[trigger] members.drop_last()[i]).value,
        ) by {
            assert(members.drop_last()[i] == members[i]);
        }
        lemma_responses_well_keyed(members.drop_last());
        assert(members.last() == members[members.len() - 1]);
        lemma_response_well_keyed(members.last().value);
        assert forall|j: int| 0 <= j < all.len() implies holds_key(
            members,
            (#[trigger] all[j]).status,
        ) by {
            if j < head.len() {
                assert(all[j] == head[j]);
                lemma_holds_key_grows(members, head[j].status);
            } else {
                assert(members[members.len() - 1].key == all[j].status);
            }
        }
        assert forall|i: int, j: int| 0 <= i < j < all.len() implies (#[trigger] all[i]).status
            != (#[trigger] all[j]).status by {
            assert(all[i] == head[i]);
            if j < head.len() {
                assert(all[j] == head[j]);
            } else {
                lemma_last_key_is_new(members, head[i].status);
            }
        }
        assert forall|i: int| 0 <= i < all.len() implies response_well_keyed(
            (#[trigger] all[i]).response,
        ) by {
            if i < head.len() {
                assert(all[i] == head[i]);
            }
        }
    }
}

/// The responses of an operation that holds no key twice stand each under
/// a status code of its own, and each holds each key of each of its maps
/// once.
pub proof fn lemma_operation_responses_well_keyed(body: Seq<Member>)
    requires
        well_keyed(Json::Object(body)),
    ensures
        responses_well_keyed(operation_responses(body)),
{
    lemma_well_keyed_member(body, "responses"@);
    match Json::Object(body).get_object("responses"@) {
        Some(members) => lemma_responses_well_keyed(members),
        None => {},
    }
}

/// The parameters of a path item hold each key of each of their maps once,
/// where neither the path item nor the document holds a key twice.
pub proof fn lemma_path_parameters_well_keyed(doc: Json, item: Json)
    requires
        well_keyed(doc),
        well_keyed(item),
    ensures
        match path_parameters(doc, item) {
            Some(params) => parameters_well_keyed(params),
            None => true,
        },
{
    match item {
        Json::Object(members) => {
            lemma_well_keyed_member(members, "parameters"@);
        },
        _ => {},
    }
    match item.get_array("parameters"@) {
        Some(entries) => lemma_parameters_well_keyed(doc, entries),
        None => {},
    }
}

/// An operation that is read from a document without a key twice holds each
/// key of each of its maps once.
pub proof fn lemma_operation_well_keyed(
    doc: Json,
    path: Seq<char>,
    item: Json,
    method: Seq<char>,
    body: Seq<Member>,
)
    requires
        well_keyed(doc),
        well_keyed(item),
        well_keyed(Json::Object(body)),
    ensures
        operation_well_keyed(operation_of(doc, path, item, method, body)),
{
    lemma_vendor_extensions_unique(body);
    lemma_operation_responses_well_keyed(body);
    lemma_path_parameters_well_keyed(doc, item);
}

proof fn lemma_operations_of_item_well_keyed(
    doc: Json,
    path: Seq<char>,
    item: Json,
    methods: Seq<Seq<char>>,
)
    requires
        well_keyed(doc),
        well_keyed(item),
    ensures
        operations_well_keyed(operations_of_item(doc, path, item, methods)),
    decreases methods.len(),
{
    if methods.len() > 0 {
        let head = operations_of_item(doc, path, item, methods.drop_last());
        let all = operations_of_item(doc, path, item, methods);
        lemma_operations_of_item_well_keyed(doc, path, item, methods.drop_last());
        match item {
            Json::Object(members) => {
                lemma_well_keyed_member(members, methods.last());
            },
            _ => {},
        }
        match item.get_object(methods.last()) {
            Some(body) => lemma_operation_well_keyed(doc, path, item, methods.last(), body),
            None => {},
        }
        assert forall|i: int| 0 <= i < all.len() implies operation_well_keyed(
            #[trigger] all[i],
        ) by {
            if i < head.len() {
                assert(all[i] == head[i]);
            }
        }
    }
}

proof fn lemma_operations_of_paths_well_keyed(doc: Json, paths: Seq<Member>)
    requires
        well_keyed(doc),
        well_keyed(Json::Object(paths)),
    ensures
        operations_well_keyed(operations_of_paths(doc, paths)),
    decreases paths.len(),
{
    if paths.len() > 0 {
        let head = operations_of_paths(doc, paths.drop_last());
        let own = operations_of_item(doc, paths.last().key, paths.last().value, http_methods());
        let all = operations_of_paths(doc, paths);
        lemma_drop_last_unique(paths);
        assert forall|i: int| 0 <= i < paths.drop_last().len() implies well_keyed(
            (#[trigger] paths.drop_last()[i]).value,
        ) by {
            assert(paths.drop_last()[i] == paths[i]);
        }
        lemma_operations_of_paths_well_keyed(doc, paths.drop_last());
        assert(paths.last() == paths[paths.len() - 1]);
        lemma_operations_of_item_well_keyed(
            doc,
            paths.last().key,
            paths.last().value,
            http_methods(),
        );
        assert forall|i: int| 0 <= i < all.len() implies operation_well_keyed(
            #[trigger] all[i],
        ) by {
            if i < head.len() {
                assert(all[i] == head[i]);
            } else {
                assert(all[i] == own[i - head.len()]);
            }
        }
    }
}

/// The operations of a document that holds no key twice are maps all
/// through: each has its responses under status codes of their own, and
/// each map of its parameters and responses holds each of its keys once.
pub proof fn lemma_document_operations_well_keyed(doc: Json)
    requires
        well_keyed(doc),
    ensures
        match document_operations(doc) {
            Some(ops) => operations_well_keyed(ops),
            None => true,
        },
{
    match doc {
        Json::Object(members) => {
            lemma_well_keyed_member(members, "paths"@);
        },
        _ => {},
    }
    match doc.get_object("paths"@) {
        Some(paths) => lemma_operations_of_paths_well_keyed(doc, paths),
        None => {},
    }
}

} // verus!
