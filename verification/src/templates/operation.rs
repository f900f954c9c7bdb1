//! What is generated for one operation: its context, the dump of its
//! schema, and where its file goes.

use crate::builders::{EndpointContext, EndpointContextBuilder, has_builder};
use crate::builders::rust::{rust_endpoint_of, rust_endpoint_to_json, rust_endpoint_with};
use crate::chars::{char_is_whitespace, is_ascii_alnum, is_white};
use crate::error::{Error, ErrorView};
use crate::json::{
    entries_insert, entries_view, Json, json_from_opt, json_from_opt_bool, json_from_opt_text,
    json_of_opt, json_of_opt_bool, json_of_opt_text, JsonValue, lemma_upsert_lookup, lookup,
    Member, member, opt_json, upsert,
};
use crate::manifest::{TemplateFile, TemplateFileView};
use crate::openapi::context::{OpenApiContext, vendor_extensions_of};
use crate::openapi::model::{
    OpenApiOperation, OpenApiParameter, OpenApiPropertyInfo, operation_to_json, OperationView,
    parameters_json, parameters_to_json, ParameterView, PropertyInfoView, responses_json,
    responses_to_json,
};
use crate::openapi::properties::{property_infos_of, property_infos_view, request_body_properties};
use crate::templates::dereference::{
    dereference, dereferenced, MAX_REFERENCE_DEPTH, strip_nulls, too_deep_error, without_nulls,
};
use crate::templates::kind::TemplateKind;
use crate::templates::plan::{GenerationStep, steps_view, StepView};
use crate::text::{
    chars_replace_char, chars_replace_text, chars_trim, concat3, from_chars, replace_char,
    replace_text, to_chars, trim_white,
};
use crate::utils::{snake_case, to_snake_case};
use vstd::prelude::*;

verus! {

/// The characters of `s` that are ASCII letters or digits, white space where
/// `white` says so, or among `extra`.
pub open spec fn kept_chars(s: Seq<char>, white: bool, extra: Seq<char>) -> Seq<char>
    decreases s.len(),
{
    if s.len() == 0 {
        Seq::empty()
    } else {
        let head = kept_chars(s.drop_last(), white, extra);
        let c = s.last();
        if is_ascii_alnum(c) || (white && is_white(c)) || extra.contains(c) {
            head.push(c)
        } else {
            head
        }
    }
}

/// A summary for generated code: its letters, digits and white space, none
/// of the latter at either end.
pub open spec fn sanitized_summary(s: Seq<char>) -> Seq<char> {
    trim_white(kept_chars(s, true, Seq::empty()))
}

/// A description for generated code: its letters, digits, white space, full
/// stops and commas, no white space at either end.
pub open spec fn sanitized_description(s: Seq<char>) -> Seq<char> {
    trim_white(kept_chars(s, true, seq!['.', ',']))
}

/// A tag for generated code: no white space at either end, spaces for line
/// breaks.
pub open spec fn sanitized_tag(s: Seq<char>) -> Seq<char> {
    replace_char(replace_char(trim_white(s), '\n', " "@), '\r', " "@)
}

/// The name of an operation for generated code: its letters, digits and
/// underscores.
pub open spec fn sanitized_operation_name(id: Seq<char>) -> Seq<char> {
    kept_chars(id, false, seq!['_'])
}

/// The sanitized summary, where there is a summary.
pub open spec fn opt_sanitized_summary(o: Option<Seq<char>>) -> Option<Seq<char>> {
    match o {
        Some(s) => Some(sanitized_summary(s)),
        None => None,
    }
}

/// The sanitized description, where there is a description.
pub open spec fn opt_sanitized_description(o: Option<Seq<char>>) -> Option<Seq<char>> {
    match o {
        Some(s) => Some(sanitized_description(s)),
        None => None,
    }
}

/// The sanitized tags of an operation, as a document.
pub open spec fn sanitized_tags_json(tags: Option<Seq<Seq<char>>>) -> Json {
    match tags {
        Some(t) => Json::Array(Seq::new(t.len(), |i: int| Json::String(sanitized_tag(t[i])))),
        None => Json::Array(Seq::empty()),
    }
}

/// A member, where the value is given.
pub open spec fn optional_member(key: Seq<char>, value: Option<Json>) -> Seq<Member> {
    match value {
        Some(v) => seq![Member { key, value: v }],
        None => Seq::empty(),
    }
}

/// A text as a document, where there is one.
pub open spec fn opt_text_json(o: Option<Seq<char>>) -> Option<Json> {
    match o {
        Some(s) => Some(Json::String(s)),
        None => None,
    }
}

/// A truth value as a document, where there is one.
pub open spec fn opt_bool_json(o: Option<bool>) -> Option<Json> {
    match o {
        Some(b) => Some(Json::Bool(b)),
        None => None,
    }
}

/// A list of members as an object, where there is one.
pub open spec fn opt_members_json(o: Option<Seq<Member>>) -> Option<Json> {
    match o {
        Some(m) => Some(Json::Object(m)),
        None => None,
    }
}

/// Everything that the document says of a parameter, under the names of the
/// OpenAPI format: what is given, `required` in any case, and the
/// extensions whose name begins with `x-`.
pub open spec fn parameter_details(p: ParameterView) -> Json {
    Json::Object(
        seq![
            Member { key: "name"@, value: Json::String(p.name) },
            Member { key: "in"@, value: Json::String(p.in_) },
        ] + optional_member("description"@, opt_text_json(p.description)) + seq![
            Member { key: "required"@, value: Json::Bool(p.is_required()) },
        ] + optional_member("schema"@, p.schema) + optional_member(
            "content"@,
            opt_members_json(p.content),
        ) + optional_member("examples"@, opt_members_json(p.examples)) + optional_member(
            "deprecated"@,
            opt_bool_json(p.deprecated),
        ) + optional_member("style"@, opt_text_json(p.style)) + optional_member(
            "explode"@,
            opt_bool_json(p.explode),
        ) + optional_member("allowEmptyValue"@, opt_bool_json(p.allow_empty_value))
            + optional_member("allowReserved"@, opt_bool_json(p.allow_reserved))
            + vendor_extensions_of(p.vendor_extensions),
    )
}

/// The details of the parameters of an operation, as a document.
pub open spec fn parameter_details_json(params: Option<Seq<ParameterView>>) -> Json {
    match params {
        Some(v) => Json::Array(Seq::new(v.len(), |i: int| parameter_details(v[i]))),
        None => Json::Array(Seq::empty()),
    }
}

/// The parameters of an operation, as a document.
pub open spec fn parameters_list_json(params: Option<Seq<ParameterView>>) -> Json {
    match params {
        Some(v) => Json::Array(parameters_to_json(v)),
        None => Json::Array(Seq::empty()),
    }
}

/// The schema of the first media type, in the order of the document, that
/// has one.
pub open spec fn first_schema(content: Seq<Member>) -> Option<Json>
    decreases content.len(),
{
    if content.len() == 0 {
        None
    } else {
        match content[0].value.get("schema"@) {
            Some(s) => Some(s),
            None => first_schema(content.skip(1)),
        }
    }
}

/// The properties of the request body for the template: those of its JSON
/// schema where there are any; else those of the schema of its first media
/// type that has one.
pub open spec fn request_properties_of(doc: Json, op: OperationView) -> Option<
    Seq<PropertyInfoView>,
> {
    match op.request_body {
        None => None,
        Some(body) => {
            let primary = request_body_properties(doc, op);
            if primary is Ok && !(primary->Ok_0.properties is Null) {
                Some(property_infos_of(primary->Ok_0.properties))
            } else {
                match body.get_object("content"@) {
                    Some(content) => match first_schema(content) {
                        Some(schema) => Some(property_infos_of(schema)),
                        None => None,
                    },
                    None => None,
                }
            }
        },
    }
}

/// What a template needs of a property, as a document.
pub open spec fn property_info_to_json(p: PropertyInfoView) -> Json {
    Json::Object(
        seq![
            Member { key: "name"@, value: Json::String(p.name) },
            Member { key: "title"@, value: json_of_opt_text(p.title) },
            Member { key: "description"@, value: json_of_opt_text(p.description) },
            Member { key: "example"@, value: json_of_opt(p.example) },
        ],
    )
}

/// What a template needs of each property, as a document.
pub open spec fn property_infos_json(v: Seq<PropertyInfoView>) -> Json {
    Json::Array(Seq::new(v.len(), |i: int| property_info_to_json(v[i])))
}

/// `acc` with each of `members` set in turn.
pub open spec fn upsert_all(acc: Seq<Member>, members: Seq<Member>) -> Seq<Member>
    decreases members.len(),
{
    if members.len() == 0 {
        acc
    } else {
        upsert(
            upsert_all(acc, members.drop_last()),
            members.last().key,
            members.last().value,
        )
    }
}

/// The text of member `key` of the endpoint context, or else the identifier
/// of the operation.
pub open spec fn endpoint_text(endpoint: Json, key: Seq<char>, id: Seq<char>) -> Seq<char> {
    match endpoint.get_str(key) {
        Some(s) => s,
        None => id,
    }
}

/// What the request body of an operation adds to its context.
pub open spec fn request_body_members(doc: Json, op: OperationView) -> Seq<Member> {
    match op.request_body {
        Some(body) => seq![
            Member { key: "has_request_body"@, value: Json::Bool(true) },
            Member { key: "request_body"@, value: body },
        ] + optional_member(
            "request_properties"@,
            match request_properties_of(doc, op) {
                Some(infos) => Some(property_infos_json(infos)),
                None => None,
            },
        ),
        None => seq![Member { key: "has_request_body"@, value: Json::Bool(false) }],
    }
}

/// What the document says of the operation itself: its identifier and its
/// method, its texts made safe for generated code, its parameters and its
/// responses.
pub open spec fn described_members(op: OperationView) -> Seq<Member> {
    seq![
        Member { key: "operation_id"@, value: Json::String(op.id) },
        Member { key: "method"@, value: Json::String(op.method) },
        Member {
            key: "summary"@,
            value: json_of_opt_text(opt_sanitized_summary(op.summary)),
        },
        Member {
            key: "description"@,
            value: json_of_opt_text(opt_sanitized_description(op.description)),
        },
        Member { key: "deprecated"@, value: json_of_opt_bool(op.deprecated) },
        Member { key: "tags"@, value: sanitized_tags_json(op.tags) },
        Member { key: "parameters"@, value: parameters_list_json(op.parameters) },
        Member { key: "parameter_info"@, value: parameter_details_json(op.parameters) },
        Member { key: "responses"@, value: Json::Object(responses_to_json(op.responses)) },
    ]
}

/// The security requirements of the operation, where it states any.
pub open spec fn security_members(op: OperationView) -> Seq<Member> {
    optional_member(
        "security"@,
        match op.security {
            Some(s) => Some(Json::Array(s)),
            None => None,
        },
    )
}

/// The names under which the operation is generated.
pub open spec fn name_members(op: OperationView, endpoint: Json) -> Seq<Member> {
    seq![
        Member {
            key: "sanitized_operation_name"@,
            value: Json::String(sanitized_operation_name(op.id)),
        },
        Member {
            key: "sanitized_filename"@,
            value: Json::String(snake_case(endpoint_text(endpoint, "endpoint_fs"@, op.id))),
        },
    ]
}

/// What an operation itself adds to its context, in the order in which it
/// is set.
pub open spec fn operation_members(doc: Json, op: OperationView, endpoint: Json) -> Seq<Member> {
    described_members(op) + request_body_members(doc, op) + security_members(op) + name_members(
        op,
        endpoint,
    )
}

/// The context of one operation: the base context, then the endpoint
/// context over it, then what the operation itself adds over both.
pub open spec fn operation_context(base: Seq<Member>, doc: Json, op: OperationView, endpoint: Json)
    -> Json {
    Json::Object(
        upsert_all(
            upsert_all(base, crate::templates::context::members_of(endpoint)),
            operation_members(doc, op, endpoint),
        ),
    )
}

/// Whether none of `members` has the key `key`.
pub open spec fn lacks_key(members: Seq<Member>, key: Seq<char>) -> bool {
    forall|j: int| 0 <= j < members.len() ==> (#[trigger] members[j]).key != key
}

/// Setting members leaves the value of every key that is not among them.
pub proof fn lemma_upsert_all_keeps(acc: Seq<Member>, members: Seq<Member>, key: Seq<char>)
    requires
        lacks_key(members, key),
    ensures
        lookup(upsert_all(acc, members), key) == lookup(acc, key),
    decreases members.len(),
{
    if members.len() > 0 {
        let head = members.drop_last();
        assert forall|j: int| 0 <= j < head.len() implies (#[trigger] head[j]).key != key by {
            assert(head[j] == members[j]);
        }
        lemma_upsert_all_keeps(acc, head, key);
        assert(members.last() == members[members.len() - 1]);
        lemma_upsert_lookup(upsert_all(acc, head), members.last().key, members.last().value, key);
    }
}

/// After members are set, a key gives the value of the last member that has
/// it.
pub proof fn lemma_upsert_all_sets(acc: Seq<Member>, members: Seq<Member>, key: Seq<char>, i: int)
    requires
        0 <= i < members.len(),
        members[i].key == key,
        forall|j: int| i < j < members.len() ==> (#[trigger] members[j]).key != key,
    ensures
        lookup(upsert_all(acc, members), key) == Some(members[i].value),
    decreases members.len(),
{
    let head = members.drop_last();
    assert(members.last() == members[members.len() - 1]);
    lemma_upsert_lookup(upsert_all(acc, head), members.last().key, members.last().value, key);
    if i < members.len() - 1 {
        assert(head[i] == members[i]);
        assert forall|j: int| i < j < head.len() implies (#[trigger] head[j]).key != key by {
            assert(head[j] == members[j]);
        }
        lemma_upsert_all_sets(acc, head, key, i);
    }
}

proof fn lemma_lacks_key_concat(first: Seq<Member>, second: Seq<Member>, key: Seq<char>)
    requires
        lacks_key(first, key),
        lacks_key(second, key),
    ensures
        lacks_key(first + second, key),
{
    assert forall|j: int| 0 <= j < (first + second).len() implies (#[trigger] (first
        + second)[j]).key != key by {
        if j < first.len() {
            assert((first + second)[j] == first[j]);
        } else {
            assert((first + second)[j] == second[j - first.len()]);
        }
    }
}

proof fn lemma_operation_keys()
    ensures
        "operation_id"@.len() == 12 && "operation_id"@[0] == 'o',
        "method"@.len() == 6,
        "summary"@.len() == 7,
        "description"@.len() == 11,
        "deprecated"@.len() == 10,
        "tags"@.len() == 4 && "tags"@[0] == 't',
        "parameters"@.len() == 10,
        "parameter_info"@.len() == 14,
        "responses"@.len() == 9,
        "has_request_body"@.len() == 16,
        "request_body"@.len() == 12 && "request_body"@[0] == 'r',
        "request_properties"@.len() == 18,
        "security"@.len() == 8,
        "sanitized_operation_name"@.len() == 24,
        "sanitized_filename"@.len() == 18,
        "path"@.len() == 4 && "path"@[0] == 'p',
{
    reveal_strlit("operation_id");
    reveal_strlit("method");
    reveal_strlit("summary");
    reveal_strlit("description");
    reveal_strlit("deprecated");
    reveal_strlit("tags");
    reveal_strlit("parameters");
    reveal_strlit("parameter_info");
    reveal_strlit("responses");
    reveal_strlit("has_request_body");
    reveal_strlit("request_body");
    reveal_strlit("request_properties");
    reveal_strlit("security");
    reveal_strlit("sanitized_operation_name");
    reveal_strlit("sanitized_filename");
    reveal_strlit("path");
}

proof fn lemma_endpoint_keys()
    ensures
        "fn_name"@.len() == 7,
        "parameters_type"@.len() == 15,
        "properties_type"@.len() == 15,
        "response_type"@.len() == 13,
        "envelope_properties"@.len() == 19,
        "properties"@.len() == 10,
        "properties_for_handler"@.len() == 22,
        "properties_schema"@.len() == 17,
        "response_schema"@.len() == 15,
        "spec_file_name"@.len() == 14,
        "valid_fields"@.len() == 12,
{
    reveal_strlit("fn_name");
    reveal_strlit("parameters_type");
    reveal_strlit("properties_type");
    reveal_strlit("response_type");
    reveal_strlit("envelope_properties");
    reveal_strlit("properties");
    reveal_strlit("properties_for_handler");
    reveal_strlit("properties_schema");
    reveal_strlit("response_schema");
    reveal_strlit("spec_file_name");
    reveal_strlit("valid_fields");
}

/// Whether `key` is one of the keys that an operation sets after its
/// identifier and its method.
pub open spec fn is_later_key(key: Seq<char>) -> bool {
    ||| key == "summary"@
    ||| key == "description"@
    ||| key == "deprecated"@
    ||| key == "tags"@
    ||| key == "parameters"@
    ||| key == "parameter_info"@
    ||| key == "responses"@
    ||| key == "has_request_body"@
    ||| key == "request_body"@
    ||| key == "request_properties"@
    ||| key == "security"@
    ||| key == "sanitized_operation_name"@
    ||| key == "sanitized_filename"@
}

proof fn lemma_later_members(doc: Json, op: OperationView, endpoint: Json, key: Seq<char>)
    requires
        !is_later_key(key),
    ensures
        operation_members(doc, op, endpoint).len() > 1,
        operation_members(doc, op, endpoint)[0] == (Member {
            key: "operation_id"@,
            value: Json::String(op.id),
        }),
        operation_members(doc, op, endpoint)[1] == (Member {
            key: "method"@,
            value: Json::String(op.method),
        }),
        lacks_key(operation_members(doc, op, endpoint).skip(2), key),
{
    let first = described_members(op).skip(2);
    let body = request_body_members(doc, op);
    let security = security_members(op);
    let names = name_members(op, endpoint);
    assert forall|j: int| 0 <= j < first.len() implies (#[trigger] first[j]).key != key by {
        assert(first[j] == described_members(op)[j + 2]);
    }
    assert(lacks_key(first, key));
    assert(lacks_key(body, key)) by {
        match op.request_body {
            Some(b) => {
                let head = seq![
                    Member { key: "has_request_body"@, value: Json::Bool(true) },
                    Member { key: "request_body"@, value: b },
                ];
                let tail = optional_member(
                    "request_properties"@,
                    match request_properties_of(doc, op) {
                        Some(infos) => Some(property_infos_json(infos)),
                        None => None,
                    },
                );
                assert(lacks_key(head, key));
                assert(lacks_key(tail, key));
                lemma_lacks_key_concat(head, tail, key);
            },
            None => {},
        }
    }
    assert(lacks_key(security, key));
    assert(lacks_key(names, key));
    lemma_lacks_key_concat(first, body, key);
    lemma_lacks_key_concat(first + body, security, key);
    lemma_lacks_key_concat(first + body + security, names, key);
    assert(operation_members(doc, op, endpoint).skip(2) =~= first + body + security + names);
}

/// An operation sets no path of its own.
pub proof fn lemma_operation_sets_no_path(doc: Json, op: OperationView, endpoint: Json)
    ensures
        lacks_key(operation_members(doc, op, endpoint), "path"@),
{
    lemma_operation_keys();
    lemma_later_members(doc, op, endpoint, "path"@);
    let own = operation_members(doc, op, endpoint);
    assert forall|j: int| 0 <= j < own.len() implies (#[trigger] own[j]).key != "path"@ by {
        if j > 1 {
            assert(own[j] == own.skip(2)[j - 2]);
        }
    }
}

/// The context of an operation holds the path of its endpoint context, the
/// path of the operation in the document, and the identifier and the method
/// of the operation.
pub proof fn lemma_operation_context_keeps_path(
    base: Seq<Member>,
    doc: Json,
    op: OperationView,
    properties: Json,
)
    ensures
        ({
            let endpoint = rust_endpoint_to_json(rust_endpoint_with(op, properties));
            let context = operation_context(base, doc, op, endpoint);
            &&& context.get("path"@) == Some(Json::String(op.path))
            &&& context.get("operation_id"@) == Some(Json::String(op.id))
            &&& context.get("method"@) == Some(Json::String(op.method))
        }),
{
    lemma_operation_keys();
    lemma_endpoint_keys();
    let endpoint = rust_endpoint_to_json(rust_endpoint_with(op, properties));
    let under = upsert_all(base, crate::templates::context::members_of(endpoint));
    let own = operation_members(doc, op, endpoint);
    lemma_upsert_all_sets(base, crate::templates::context::members_of(endpoint), "path"@, 3);
    lemma_operation_sets_no_path(doc, op, endpoint);
    lemma_upsert_all_keeps(under, own, "path"@);
    lemma_later_members(doc, op, endpoint, "operation_id"@);
    assert forall|j: int| 0 < j < own.len() implies (#[trigger] own[j]).key
        != "operation_id"@ by {
        if j > 1 {
            assert(own[j] == own.skip(2)[j - 2]);
        }
    }
    lemma_upsert_all_sets(under, own, "operation_id"@, 0);
    lemma_later_members(doc, op, endpoint, "method"@);
    assert forall|j: int| 1 < j < own.len() implies (#[trigger] own[j]).key != "method"@ by {
        assert(own[j] == own.skip(2)[j - 2]);
    }
    lemma_upsert_all_sets(under, own, "method"@, 1);
}

/// The destination of the file of one operation: the destination of the
/// manifest entry with the name of the endpoint, in the form that is safe in
/// a file name, for each placeholder in either spelling.
pub open spec fn destination_for(template: Seq<char>, endpoint_fs: Seq<char>) -> Seq<char> {
    replace_text(
        replace_text(
            replace_text(
                replace_text(template, "{{operation_id}}"@, endpoint_fs),
                "{operation_id}"@,
                endpoint_fs,
            ),
            "{{endpoint}}"@,
            endpoint_fs,
        ),
        "{endpoint}"@,
        endpoint_fs,
    )
}

/// Where the dump of the schema of an operation goes.
pub open spec fn schema_destination(id: Seq<char>) -> Seq<char> {
    "schemas/"@ + snake_case(id) + ".json"@
}

/// The steps for one operation under one manifest entry: the dump of its
/// schema, then the rendering of its file.
pub open spec fn operation_steps(
    base: Seq<Member>,
    doc: Json,
    file: TemplateFileView,
    op: OperationView,
) -> Result<Seq<StepView>, ErrorView> {
    match rust_endpoint_of(doc, op) {
        Err(e) => Err(e),
        Ok(c) => {
            let endpoint = rust_endpoint_to_json(c);
            match dereferenced(doc, operation_to_json(op), MAX_REFERENCE_DEPTH as nat) {
                None => Err(too_deep_error()),
                Some(schema) => Ok(
                    seq![
                        StepView::WriteSchema {
                            destination: schema_destination(op.id),
                            schema: without_nulls(schema),
                        },
                        StepView::Render {
                            template: file.source,
                            destination: destination_for(
                                file.destination,
                                endpoint_text(endpoint, "endpoint_fs"@, op.id),
                            ),
                            context: operation_context(base, doc, op, endpoint),
                        },
                    ],
                ),
            }
        },
    }
}

/// The steps of an operation carry its names: the dump goes to the file
/// named by the snake-case form of its identifier, the rendering to the
/// destination of the entry with that form for each placeholder, and the
/// context of the rendering holds the path and the identifier of the
/// operation.
pub proof fn lemma_operation_steps_carry_names(
    base: Seq<Member>,
    doc: Json,
    file: TemplateFileView,
    op: OperationView,
)
    requires
        operation_steps(base, doc, file, op) is Ok,
    ensures
        ({
            let steps = operation_steps(base, doc, file, op)->Ok_0;
            let name = snake_case(op.id);
            &&& steps.len() == 2
            &&& steps[0] is WriteSchema
            &&& steps[0]->WriteSchema_destination == "schemas/"@ + name + ".json"@
            &&& steps[1] is Render
            &&& steps[1]->Render_template == file.source
            &&& steps[1]->Render_destination == destination_for(file.destination, name)
            &&& steps[1]->Render_context.get("path"@) == Some(Json::String(op.path))
            &&& steps[1]->Render_context.get("operation_id"@) == Some(Json::String(op.id))
            &&& steps[1]->Render_context.get("method"@) == Some(Json::String(op.method))
        }),
{
    let c = rust_endpoint_of(doc, op)->Ok_0;
    let endpoint = rust_endpoint_to_json(c);
    let members = crate::templates::context::members_of(endpoint);
    reveal_strlit("endpoint");
    reveal_strlit("endpoint_cap");
    reveal_strlit("endpoint_fs");
    assert("endpoint"@.len() == 8);
    assert("endpoint_cap"@.len() == 12);
    assert("endpoint_fs"@.len() == 11);
    crate::json::lemma_key_index_found(members, "endpoint_fs"@, 2);
    assert(endpoint_text(endpoint, "endpoint_fs"@, op.id) == snake_case(op.id));
    let found = crate::openapi::properties::schema_properties(
        doc,
        crate::builders::rust::response_schema_of(op),
    )->Ok_0;
    assert(c == rust_endpoint_with(op, found.properties));
    lemma_operation_context_keeps_path(base, doc, op, found.properties);
}

fn keep_chars(s: &str, white: bool, extra: &Vec<char>) -> (r: Vec<char>)
    ensures
        r@ == kept_chars(s@, white, extra@),
{
    let v = to_chars(s);
    let mut out: Vec<char> = Vec::new();
    let mut i: usize = 0;
    while i < v.len()
        invariant
            i <= v.len(),
            out@ == kept_chars(v@.take(i as int), white, extra@),
        decreases v.len() - i,
    {
        proof {
            assert(v@.take(i as int + 1).drop_last() =~= v@.take(i as int));
            assert(v@.take(i as int + 1).last() == v@[i as int]);
        }
        let c = v[i];
        let plain = ('a' <= c && c <= 'z') || ('A' <= c && c <= 'Z') || ('0' <= c && c <= '9');
        if plain || (white && char_is_whitespace(c)) || holds_char(extra, c) {
            out.push(c);
        }
        i += 1;
    }
    assert(v@.take(v@.len() as int) =~= v@);
    out
}

fn holds_char(list: &Vec<char>, c: char) -> (r: bool)
    ensures
        r == list@.contains(c),
{
    let mut i: usize = 0;
    while i < list.len()
        invariant
            i <= list.len(),
            forall|k: int| 0 <= k < i ==> list@[k] != c,
        decreases list.len() - i,
    {
        if list[i] == c {
            return true;
        }
        i += 1;
    }
    false
}

/// A summary for generated code.
pub fn sanitize_summary(s: &str) -> (r: String)
    ensures
        r@ == sanitized_summary(s@),
{
    let kept = keep_chars(s, true, &Vec::new());
    from_chars(&chars_trim(&kept))
}

/// A description for generated code.
pub fn sanitize_description(s: &str) -> (r: String)
    ensures
        r@ == sanitized_description(s@),
{
    let extra = vec!['.', ','];
    assert(extra@ =~= seq!['.', ',']);
    let kept = keep_chars(s, true, &extra);
    from_chars(&chars_trim(&kept))
}

/// A tag for generated code.
pub fn sanitize_tag(s: &str) -> (r: String)
    ensures
        r@ == sanitized_tag(s@),
{
    let trimmed = chars_trim(&to_chars(s));
    let space = to_chars(" ");
    let a = chars_replace_char(&trimmed, '\n', &space);
    let b = chars_replace_char(&a, '\r', &space);
    from_chars(&b)
}

/// The name of an operation for generated code.
pub fn sanitize_operation_name(id: &str) -> (r: String)
    ensures
        r@ == sanitized_operation_name(id@),
{
    let extra = vec!['_'];
    assert(extra@ =~= seq!['_']);
    let kept = keep_chars(id, false, &extra);
    from_chars(&kept)
}

fn push_optional(entries: &mut Vec<(String, JsonValue)>, key: &str, value: Option<JsonValue>)
    ensures
        entries_view(final(entries)@) == entries_view(old(entries)@) + optional_member(
            key@,
            opt_json(value),
        ),
{
    let ghost before = entries_view(entries@);
    match value {
        Some(v) => {
            let ghost vv = v@;
            entries.push(member(key, v));
            assert(entries_view(entries@) =~= before + seq![Member { key: key@, value: vv }]);
        },
        None => {
            assert(entries_view(entries@) =~= before + Seq::<Member>::empty());
        },
    }
}

fn push_member(entries: &mut Vec<(String, JsonValue)>, key: &str, value: JsonValue)
    ensures
        entries_view(final(entries)@) == entries_view(old(entries)@) + seq![
            Member { key: key@, value: value@ },
        ],
{
    let ghost before = entries_view(entries@);
    let ghost vv = value@;
    entries.push(member(key, value));
    assert(entries_view(entries@) =~= before + seq![Member { key: key@, value: vv }]);
}

fn parameter_details_of(ctx: &OpenApiContext, p: &OpenApiParameter) -> (r: JsonValue)
    ensures
        r@ == parameter_details(p@),
{
    let mut entries: Vec<(String, JsonValue)> = Vec::new();
    entries.push(member("name", JsonValue::String(p.name.clone())));
    entries.push(member("in", JsonValue::String(p.in_.clone())));
    assert(entries_view(entries@) =~= seq![
        Member { key: "name"@, value: Json::String(p@.name) },
        Member { key: "in"@, value: Json::String(p@.in_) },
    ]);
    push_optional(
        &mut entries,
        "description",
        match &p.description {
            Some(s) => Some(JsonValue::String(s.clone())),
            None => None,
        },
    );
    push_member(&mut entries, "required", JsonValue::Bool(p.is_required()));
    push_optional(&mut entries, "schema", crate::json::clone_opt_json(&p.schema));
    push_optional(
        &mut entries,
        "content",
        match &p.content {
            Some(m) => Some(JsonValue::object(crate::json::clone_entries(m))),
            None => None,
        },
    );
    push_optional(
        &mut entries,
        "examples",
        match &p.examples {
            Some(m) => Some(JsonValue::object(crate::json::clone_entries(m))),
            None => None,
        },
    );
    push_optional(
        &mut entries,
        "deprecated",
        match p.deprecated {
            Some(b) => Some(JsonValue::Bool(b)),
            None => None,
        },
    );
    push_optional(
        &mut entries,
        "style",
        match &p.style {
            Some(s) => Some(JsonValue::String(s.clone())),
            None => None,
        },
    );
    push_optional(
        &mut entries,
        "explode",
        match p.explode {
            Some(b) => Some(JsonValue::Bool(b)),
            None => None,
        },
    );
    push_optional(
        &mut entries,
        "allowEmptyValue",
        match p.allow_empty_value {
            Some(b) => Some(JsonValue::Bool(b)),
            None => None,
        },
    );
    push_optional(
        &mut entries,
        "allowReserved",
        match p.allow_reserved {
            Some(b) => Some(JsonValue::Bool(b)),
            None => None,
        },
    );
    let extensions = ctx.extract_vendor_extensions(&p.vendor_extensions);
    crate::openapi::model::append_entries(&mut entries, &extensions);
    JsonValue::object(entries)
}

fn parameter_details_list(ctx: &OpenApiContext, params: &Option<Vec<OpenApiParameter>>) -> (r:
    JsonValue)
    ensures
        r@ == parameter_details_json(crate::openapi::model::opt_parameters(*params)),
{
    let mut out: Vec<JsonValue> = Vec::new();
    match params {
        Some(v) => {
            let mut i: usize = 0;
            while i < v.len()
                invariant
                    i <= v.len(),
                    out@.len() == i,
                    forall|k: int| 0 <= k < i ==> out@[k]@ == parameter_details(v@[k]@),
                decreases v.len() - i,
            {
                out.push(parameter_details_of(ctx, &v[i]));
                i += 1;
            }
        },
        None => {},
    }
    let r = JsonValue::array(out);
    assert(r@->Array_0 =~= parameter_details_json(
        crate::openapi::model::opt_parameters(*params),
    )->Array_0);
    r
}

fn sanitized_tags(tags: &Option<Vec<String>>) -> (r: JsonValue)
    ensures
        r@ == sanitized_tags_json(crate::json::opt_texts(*tags)),
{
    let mut out: Vec<JsonValue> = Vec::new();
    match tags {
        Some(v) => {
            let mut i: usize = 0;
            while i < v.len()
                invariant
                    i <= v.len(),
                    out@.len() == i,
                    forall|k: int| 0 <= k < i ==> out@[k]@ == Json::String(sanitized_tag(v@[k]@)),
                decreases v.len() - i,
            {
                out.push(JsonValue::String(sanitize_tag(v[i].as_str())));
                i += 1;
            }
        },
        None => {},
    }
    let r = JsonValue::array(out);
    assert(r@->Array_0 =~= sanitized_tags_json(crate::json::opt_texts(*tags))->Array_0);
    r
}

fn property_infos_to_json(infos: &Vec<OpenApiPropertyInfo>) -> (r: JsonValue)
    ensures
        r@ == property_infos_json(property_infos_view(infos@)),
{
    let mut out: Vec<JsonValue> = Vec::new();
    let mut i: usize = 0;
    while i < infos.len()
        invariant
            i <= infos.len(),
            out@.len() == i,
            forall|k: int| 0 <= k < i ==> out@[k]@ == property_info_to_json(infos@[k]@),
        decreases infos.len() - i,
    {
        let p = &infos[i];
        let mut entries: Vec<(String, JsonValue)> = Vec::new();
        entries.push(member("name", JsonValue::String(p.name.clone())));
        entries.push(member("title", json_from_opt_text(&p.title)));
        entries.push(member("description", json_from_opt_text(&p.description)));
        entries.push(member("example", json_from_opt(&p.example)));
        let value = JsonValue::object(entries);
        assert(value@->Object_0 =~= property_info_to_json(p@)->Object_0);
        out.push(value);
        i += 1;
    }
    let r = JsonValue::array(out);
    assert(r@->Array_0 =~= property_infos_json(property_infos_view(infos@))->Array_0);
    r
}

fn find_first_schema<'a>(content: &'a Vec<(String, JsonValue)>) -> (r: Option<&'a JsonValue>)
    ensures
        match r {
            Some(s) => first_schema(entries_view(content@)) == Some(s@),
            None => first_schema(entries_view(content@)) is None,
        },
{
    let ghost all = entries_view(content@);
    let mut i: usize = 0;
    assert(all.skip(0) =~= all);
    while i < content.len()
        invariant
            i <= content.len(),
            all == entries_view(content@),
            first_schema(all) == first_schema(all.skip(i as int)),
        decreases content.len() - i,
    {
        proof {
            assert(all.skip(i as int)[0] == all[i as int]);
            assert(all.skip(i as int).skip(1) =~= all.skip(i as int + 1));
        }
        match content[i].1.get("schema") {
            Some(s) => {
                return Some(s);
            },
            None => {},
        }
        i += 1;
    }
    None
}

fn request_properties(spec: &OpenApiContext, op: &OpenApiOperation) -> (r: Option<JsonValue>)
    ensures
        opt_json(r) == match request_properties_of(spec@, op@) {
            Some(infos) => Some(property_infos_json(infos)),
            None => None,
        },
{
    let body = match &op.request_body {
        Some(b) => b,
        None => return None,
    };
    match spec.extract_request_body_properties(op) {
        Ok(found) => {
            if !found.0.is_null() {
                let infos = OpenApiContext::extract_property_info(&found.0);
                return Some(property_infos_to_json(&infos));
            }
        },
        Err(_) => {},
    }
    match body.get_object("content") {
        Some(content) => match find_first_schema(content) {
            Some(schema) => {
                let infos = OpenApiContext::extract_property_info(schema);
                Some(property_infos_to_json(&infos))
            },
            None => None,
        },
        None => None,
    }
}

fn upsert_members(acc: &mut Vec<(String, JsonValue)>, members: &Vec<(String, JsonValue)>)
    ensures
        entries_view(final(acc)@) == upsert_all(entries_view(old(acc)@), entries_view(members@)),
{
    let ghost all = entries_view(members@);
    let mut i: usize = 0;
    while i < members.len()
        invariant
            i <= members.len(),
            all == entries_view(members@),
            entries_view(acc@) == upsert_all(entries_view(old(acc)@), all.take(i as int)),
        decreases members.len() - i,
    {
        proof {
            assert(all.take(i as int + 1).drop_last() =~= all.take(i as int));
            assert(all.take(i as int + 1).last() == all[i as int]);
        }
        entries_insert(acc, members[i].0.clone(), members[i].1.clone());
        i += 1;
    }
    assert(all.take(members@.len() as int) =~= all);
}

fn text_of<'a>(endpoint: &'a JsonValue, key: &str, id: &'a str) -> (r: &'a str)
    ensures
        r@ == endpoint_text(endpoint@, key@, id@),
{
    match endpoint.get_str(key) {
        Some(s) => s,
        None => id,
    }
}

fn described(spec: &OpenApiContext, op: &OpenApiOperation) -> (r: Vec<(String, JsonValue)>)
    ensures
        entries_view(r@) == described_members(op@),
{
    let mut entries: Vec<(String, JsonValue)> = Vec::new();
    assert(entries_view(entries@) =~= Seq::<Member>::empty());
    push_member(&mut entries, "operation_id", JsonValue::String(op.id.clone()));
    push_member(&mut entries, "method", JsonValue::String(op.method.clone()));
    let summary = match &op.summary {
        Some(s) => Some(sanitize_summary(s.as_str())),
        None => None,
    };
    push_member(&mut entries, "summary", json_from_opt_text(&summary));
    let description = match &op.description {
        Some(s) => Some(sanitize_description(s.as_str())),
        None => None,
    };
    push_member(&mut entries, "description", json_from_opt_text(&description));
    push_member(&mut entries, "deprecated", json_from_opt_bool(&op.deprecated));
    push_member(&mut entries, "tags", sanitized_tags(&op.tags));
    let parameters = match &op.parameters {
        Some(p) => parameters_json(p),
        None => {
            let empty = JsonValue::array(Vec::new());
            assert(empty@->Array_0 =~= Seq::<Json>::empty());
            empty
        },
    };
    push_member(&mut entries, "parameters", parameters);
    push_member(&mut entries, "parameter_info", parameter_details_list(spec, &op.parameters));
    push_member(&mut entries, "responses", responses_json(&op.responses));
    assert(entries_view(entries@) =~= described_members(op@));
    entries
}

fn push_request_body(
    entries: &mut Vec<(String, JsonValue)>,
    spec: &OpenApiContext,
    op: &OpenApiOperation,
)
    ensures
        entries_view(final(entries)@) == entries_view(old(entries)@) + request_body_members(
            spec@,
            op@,
        ),
{
    let ghost before = entries_view(entries@);
    match &op.request_body {
        Some(body) => {
            push_member(entries, "has_request_body", JsonValue::Bool(true));
            push_member(entries, "request_body", body.clone());
            push_optional(entries, "request_properties", request_properties(spec, op));
        },
        None => {
            push_member(entries, "has_request_body", JsonValue::Bool(false));
        },
    }
    assert(entries_view(entries@) =~= before + request_body_members(spec@, op@));
}

fn push_names(entries: &mut Vec<(String, JsonValue)>, op: &OpenApiOperation, endpoint: &JsonValue)
    ensures
        entries_view(final(entries)@) == entries_view(old(entries)@) + name_members(
            op@,
            endpoint@,
        ),
{
    let ghost before = entries_view(entries@);
    push_member(
        entries,
        "sanitized_operation_name",
        JsonValue::String(sanitize_operation_name(op.id.as_str())),
    );
    push_member(
        entries,
        "sanitized_filename",
        JsonValue::String(to_snake_case(text_of(endpoint, "endpoint_fs", op.id.as_str()))),
    );
    assert(entries_view(entries@) =~= before + name_members(op@, endpoint@));
}

/// What an operation itself adds to its context.
fn own_members(spec: &OpenApiContext, op: &OpenApiOperation, endpoint: &JsonValue) -> (r: Vec<
    (String, JsonValue),
>)
    ensures
        entries_view(r@) == operation_members(spec@, op@, endpoint@),
{
    let mut entries = described(spec, op);
    push_request_body(&mut entries, spec, op);
    push_optional(
        &mut entries,
        "security",
        match &op.security {
            Some(s) => Some(JsonValue::array(crate::json::clone_items(s))),
            None => None,
        },
    );
    push_names(&mut entries, op, endpoint);
    entries
}

/// The destination of the file of one operation: `template` with the name
/// `endpoint_fs` for each placeholder.
pub fn destination_path(template: &str, endpoint_fs: &str) -> (r: String)
    ensures
        r@ == destination_for(template@, endpoint_fs@),
{
    proof {
        reveal_strlit("{{operation_id}}");
        reveal_strlit("{operation_id}");
        reveal_strlit("{{endpoint}}");
        reveal_strlit("{endpoint}");
    }
    let v = to_chars(template);
    let fs = to_chars(endpoint_fs);
    let a = chars_replace_text(&v, &to_chars("{{operation_id}}"), &fs);
    let b = chars_replace_text(&a, &to_chars("{operation_id}"), &fs);
    let c = chars_replace_text(&b, &to_chars("{{endpoint}}"), &fs);
    let d = chars_replace_text(&c, &to_chars("{endpoint}"), &fs);
    from_chars(&d)
}

/// Plans what is generated for one operation under one manifest entry: the
/// dump of its schema with every reference replaced and without its empty
/// members, then the rendering of its file.
pub fn plan_operation(
    kind: TemplateKind,
    base: &Vec<(String, JsonValue)>,
    spec: &OpenApiContext,
    file: &TemplateFile,
    op: &OpenApiOperation,
) -> (r: Result<Vec<GenerationStep>, Error>)
    requires
        has_builder(kind),
    ensures
        match r {
            Ok(steps) => operation_steps(entries_view(base@), spec@, file@, op@) == Ok::<
                Seq<StepView>,
                ErrorView,
            >(steps_view(steps@)),
            Err(e) => operation_steps(entries_view(base@), spec@, file@, op@) == Err::<
                Seq<StepView>,
                ErrorView,
            >(e@),
        },
{
    let builder = EndpointContext::get_builder(kind);
    let endpoint = match builder.build(spec, op) {
        Ok(c) => c,
        Err(e) => return Err(e),
    };
    let dumped = match dereference(&op.to_json(), spec, MAX_REFERENCE_DEPTH) {
        Ok(v) => strip_nulls(v),
        Err(e) => return Err(e),
    };
    let mut context = crate::json::clone_entries(base);
    match endpoint.as_object() {
        Some(members) => {
            upsert_members(&mut context, members);
        },
        None => {},
    }
    let own = own_members(spec, op, &endpoint);
    upsert_members(&mut context, &own);
    let id = op.id.as_str();
    let destination = destination_path(
        file.destination.as_str(),
        text_of(&endpoint, "endpoint_fs", id),
    );
    let schema_path = concat3("schemas/", to_snake_case(id).as_str(), ".json");
    let mut steps: Vec<GenerationStep> = Vec::new();
    steps.push(GenerationStep::WriteSchema { destination: schema_path, schema: dumped });
    steps.push(
        GenerationStep::Render {
            template: file.source.clone(),
            destination,
            context: JsonValue::object(context),
        },
    );
    proof {
        let want = operation_steps(entries_view(base@), spec@, file@, op@);
        assert(want is Ok);
        assert(steps_view(steps@) =~= want->Ok_0);
    }
    Ok(steps)
}

} // verus!
