//! Schemas and documents built from what was read.

use crate::chars::{str_to_lowercase, lowercase_of};
use crate::json::{
    entries_insert, entries_view, items_view, Json, JsonValue, Member, member, upsert,
};
use crate::openapi::parser::property::property_list_view;
use crate::openapi::types::{PropertyInfo, PropertyView};
use crate::templates::plan::{GenerationStep, steps_view, StepView};
use crate::text::{
    chars_replace_char, chars_trim_start_char, concat, concat3, from_chars, replace_char, to_chars,
    trim_start_char,
};
use vstd::prelude::*;

verus! {

/// A member with a text for value.
pub open spec fn text_member(key: Seq<char>, value: Seq<char>) -> Member {
    Member { key, value: Json::String(value) }
}

/// A member with a text for value, where the text is not empty.
pub open spec fn filled_member(key: Seq<char>, value: Seq<char>) -> Seq<Member> {
    if value.len() == 0 {
        Seq::empty()
    } else {
        seq![text_member(key, value)]
    }
}

/// The schema of one property: its type, and what else is said of it.
pub open spec fn property_schema(p: PropertyView) -> Json {
    Json::Object(
        seq![text_member("type"@, p.openapi_type)] + match p.format {
            Some(f) => seq![text_member("format"@, f)],
            None => Seq::empty(),
        } + filled_member("title"@, p.title) + filled_member("description"@, p.description)
            + filled_member("example"@, p.example),
    )
}

/// The schemas of the properties by name; of two properties of one name the
/// later one counts.
pub open spec fn properties_schema(properties: Seq<PropertyView>) -> Seq<Member>
    decreases properties.len(),
{
    if properties.len() == 0 {
        Seq::empty()
    } else {
        upsert(
            properties_schema(properties.drop_last()),
            properties.last().name,
            property_schema(properties.last()),
        )
    }
}

/// An object with one member `type`.
pub open spec fn typed(name: Seq<char>) -> Json {
    Json::Object(seq![text_member("type"@, name)])
}

/// The schema of the counts that go with a list of rows.
pub open spec fn meta_schema() -> Json {
    Json::Object(
        seq![
            text_member("type"@, "object"@),
            Member {
                key: "properties"@,
                value: Json::Object(
                    seq![
                        Member { key: "total"@, value: typed("integer"@) },
                        Member { key: "count"@, value: typed("integer"@) },
                        Member { key: "limit"@, value: typed("integer"@) },
                        Member { key: "offset"@, value: typed("integer"@) },
                    ],
                ),
            },
        ],
    )
}

/// The schema of a response: counts, a list of rows of the named schema, and
/// totals.
pub open spec fn response_envelope(properties_struct_name: Seq<char>) -> Json {
    Json::Object(
        seq![
            text_member("type"@, "object"@),
            Member {
                key: "properties"@,
                value: Json::Object(
                    seq![
                        Member { key: "meta"@, value: meta_schema() },
                        Member {
                            key: "data"@,
                            value: Json::Object(
                                seq![
                                    text_member("type"@, "array"@),
                                    Member {
                                        key: "items"@,
                                        value: Json::Object(
                                            seq![
                                                text_member(
                                                    "$ref"@,
                                                    "#/components/schemas/"@
                                                        + properties_struct_name,
                                                ),
                                            ],
                                        ),
                                    },
                                ],
                            ),
                        },
                        Member {
                            key: "totals"@,
                            value: Json::Object(
                                seq![
                                    text_member("type"@, "object"@),
                                    text_member("description"@, "Optional aggregate totals"@),
                                ],
                            ),
                        },
                    ],
                ),
            },
        ],
    )
}

/// The text of member `key` of an endpoint, empty where it is no string.
pub open spec fn endpoint_field(endpoint: Json, key: Seq<char>) -> Seq<char> {
    match endpoint.get_str(key) {
        Some(s) => s,
        None => Seq::empty(),
    }
}

/// The name of the schema file of a path: the path without its leading
/// slashes and its braces, with `_` for each `/`.
pub open spec fn schema_file_stem(path: Seq<char>) -> Seq<char> {
    replace_char(
        replace_char(replace_char(trim_start_char(path, '/'), '/', "_"@), '{', Seq::empty()),
        '}',
        Seq::empty(),
    )
}

/// The schema files of the endpoints that have a path, in order.
pub open spec fn endpoint_schema_steps(endpoints: Seq<Json>) -> Seq<StepView>
    decreases endpoints.len(),
{
    if endpoints.len() == 0 {
        Seq::empty()
    } else {
        let head = endpoint_schema_steps(endpoints.drop_last());
        let e = endpoints.last();
        let path = endpoint_field(e, "path"@);
        if path.len() == 0 {
            head
        } else {
            head.push(
                StepView::WriteSchema {
                    destination: "schemas/"@ + schema_file_stem(path) + ".json"@,
                    schema: response_envelope(endpoint_field(e, "struct_name"@)),
                },
            )
        }
    }
}

/// A member copied from an endpoint, where the endpoint has it.
pub open spec fn copied_member(endpoint: Json, key: Seq<char>) -> Seq<Member> {
    match endpoint.get(key) {
        Some(v) => seq![Member { key, value: v }],
        None => Seq::empty(),
    }
}

/// The response that every operation of the document declares.
pub open spec fn ok_response(struct_name: Seq<char>) -> Json {
    Json::Object(
        seq![
            text_member("description"@, "Successful response"@),
            Member {
                key: "content"@,
                value: Json::Object(
                    seq![
                        Member {
                            key: "application/json"@,
                            value: Json::Object(
                                seq![
                                    Member {
                                        key: "schema"@,
                                        value: Json::Object(
                                            seq![
                                                text_member(
                                                    "$ref"@,
                                                    "#/components/schemas/"@ + struct_name
                                                        + "_response"@,
                                                ),
                                            ],
                                        ),
                                    },
                                ],
                            ),
                        },
                    ],
                ),
            },
        ],
    )
}

/// The operation that the document declares for an endpoint.
pub open spec fn endpoint_operation(endpoint: Json) -> Json {
    Json::Object(
        copied_member(endpoint, "summary"@) + copied_member(endpoint, "description"@)
            + copied_member(endpoint, "tags"@) + copied_member(endpoint, "parameters"@) + seq![
            Member {
                key: "responses"@,
                value: Json::Object(
                    seq![
                        Member {
                            key: "200"@,
                            value: ok_response(endpoint_field(endpoint, "struct_name"@)),
                        },
                    ],
                ),
            },
        ],
    )
}

/// `paths` with an operation under its path and method: the path is set to
/// an object that holds the operation under the method alone. Without a path
/// or without a method nothing changes.
pub open spec fn with_endpoint(
    paths: Seq<Member>,
    path: Seq<char>,
    method: Seq<char>,
    operation: Json,
) -> Seq<Member> {
    if path.len() == 0 || method.len() == 0 {
        paths
    } else {
        upsert(paths, path, Json::Object(seq![Member { key: method, value: operation }]))
    }
}

/// The paths of the document: for each endpoint with a path and a method,
/// the path with the operation under the method in lowercase. Of two
/// endpoints of one path the later one counts.
pub open spec fn endpoint_paths(endpoints: Seq<Json>) -> Seq<Member>
    decreases endpoints.len(),
{
    if endpoints.len() == 0 {
        Seq::empty()
    } else {
        let e = endpoints.last();
        with_endpoint(
            endpoint_paths(endpoints.drop_last()),
            endpoint_field(e, "path"@),
            lowercase_of(endpoint_field(e, "method"@)),
            endpoint_operation(e),
        )
    }
}

/// The OpenAPI document of the generated server.
pub open spec fn openapi_document(endpoints: Seq<Json>, schemas: Seq<Member>) -> Json {
    Json::Object(
        seq![
            text_member("openapi"@, "3.0.0"@),
            Member {
                key: "info"@,
                value: Json::Object(
                    seq![
                        text_member("title"@, "MCP Server API"@),
                        text_member("version"@, "1.0.0"@),
                    ],
                ),
            },
            Member { key: "paths"@, value: Json::Object(endpoint_paths(endpoints)) },
            Member {
                key: "components"@,
                value: Json::Object(seq![Member { key: "schemas"@, value: Json::Object(schemas) }]),
            },
        ],
    )
}

fn text_entry(key: &str, value: &str) -> (r: (String, JsonValue))
    ensures
        r.0@ == key@,
        r.1@ == Json::String(value@),
{
    member(key, JsonValue::string(value))
}

fn push_filled(entries: &mut Vec<(String, JsonValue)>, key: &str, value: &str)
    ensures
        entries_view(final(entries)@) == entries_view(old(entries)@) + filled_member(
            key@,
            value@,
        ),
{
    let ghost before = entries_view(entries@);
    if value.is_empty() {
        assert(entries_view(entries@) =~= before + Seq::<Member>::empty());
    } else {
        entries.push(text_entry(key, value));
        assert(entries_view(entries@) =~= before + seq![text_member(key@, value@)]);
    }
}

fn schema_of_property(p: &PropertyInfo) -> (r: JsonValue)
    ensures
        r@ == property_schema(p@),
{
    let mut entries: Vec<(String, JsonValue)> = Vec::new();
    entries.push(text_entry("type", p.openapi_type.as_str()));
    assert(entries_view(entries@) =~= seq![text_member("type"@, p@.openapi_type)]);
    let ghost before = entries_view(entries@);
    match &p.format {
        Some(f) => {
            entries.push(text_entry("format", f.as_str()));
            assert(entries_view(entries@) =~= before + seq![text_member("format"@, f@)]);
        },
        None => {
            assert(entries_view(entries@) =~= before + Seq::<Member>::empty());
        },
    }
    push_filled(&mut entries, "title", p.title.as_str());
    push_filled(&mut entries, "description", p.description.as_str());
    push_filled(&mut entries, "example", p.example.as_str());
    JsonValue::object(entries)
}

/// The schemas of the properties by name.
pub fn build_properties_schema(properties: &Vec<PropertyInfo>) -> (r: Vec<(String, JsonValue)>)
    ensures
        entries_view(r@) == properties_schema(property_list_view(properties@)),
{
    let ghost all = property_list_view(properties@);
    let mut out: Vec<(String, JsonValue)> = Vec::new();
    let mut i: usize = 0;
    assert(entries_view(out@) =~= Seq::<Member>::empty());
    while i < properties.len()
        invariant
            i <= properties.len(),
            all == property_list_view(properties@),
            entries_view(out@) == properties_schema(all.take(i as int)),
        decreases properties.len() - i,
    {
        proof {
            assert(all.take(i as int + 1).drop_last() =~= all.take(i as int));
            assert(all.take(i as int + 1).last() == properties@[i as int]@);
        }
        entries_insert(&mut out, properties[i].name.clone(), schema_of_property(&properties[i]));
        i += 1;
    }
    assert(all.take(properties@.len() as int) =~= all);
    out
}

fn typed_schema(name: &str) -> (r: JsonValue)
    ensures
        r@ == typed(name@),
{
    let mut entries: Vec<(String, JsonValue)> = Vec::new();
    entries.push(text_entry("type", name));
    let r = JsonValue::object(entries);
    assert(r@->Object_0 =~= typed(name@)->Object_0);
    r
}

fn build_meta_schema() -> (r: JsonValue)
    ensures
        r@ == meta_schema(),
{
    let mut counts: Vec<(String, JsonValue)> = Vec::new();
    counts.push(member("total", typed_schema("integer")));
    counts.push(member("count", typed_schema("integer")));
    counts.push(member("limit", typed_schema("integer")));
    counts.push(member("offset", typed_schema("integer")));
    let counts_json = JsonValue::object(counts);
    assert(counts_json@->Object_0 =~= seq![
        Member { key: "total"@, value: typed("integer"@) },
        Member { key: "count"@, value: typed("integer"@) },
        Member { key: "limit"@, value: typed("integer"@) },
        Member { key: "offset"@, value: typed("integer"@) },
    ]);
    let mut entries: Vec<(String, JsonValue)> = Vec::new();
    entries.push(text_entry("type", "object"));
    entries.push(member("properties", counts_json));
    let r = JsonValue::object(entries);
    assert(r@->Object_0 =~= meta_schema()->Object_0);
    r
}

fn reference_to(target: &str) -> (r: JsonValue)
    ensures
        r@ == Json::Object(seq![text_member("$ref"@, target@)]),
{
    let mut entries: Vec<(String, JsonValue)> = Vec::new();
    entries.push(text_entry("$ref", target));
    let r = JsonValue::object(entries);
    assert(r@->Object_0 =~= seq![text_member("$ref"@, target@)]);
    r
}

/// The schema of a response: counts, a list of rows of the named schema, and
/// totals.
pub fn build_response_schema(properties_struct_name: &str) -> (r: JsonValue)
    ensures
        r@ == response_envelope(properties_struct_name@),
{
    let target = concat("#/components/schemas/", properties_struct_name);
    let mut data: Vec<(String, JsonValue)> = Vec::new();
    data.push(text_entry("type", "array"));
    data.push(member("items", reference_to(target.as_str())));
    let data_json = JsonValue::object(data);
    assert(data_json@->Object_0 =~= seq![
        text_member("type"@, "array"@),
        Member {
            key: "items"@,
            value: Json::Object(
                seq![text_member("$ref"@, "#/components/schemas/"@ + properties_struct_name@)],
            ),
        },
    ]);
    let mut totals: Vec<(String, JsonValue)> = Vec::new();
    totals.push(text_entry("type", "object"));
    totals.push(text_entry("description", "Optional aggregate totals"));
    let totals_json = JsonValue::object(totals);
    assert(totals_json@->Object_0 =~= seq![
        text_member("type"@, "object"@),
        text_member("description"@, "Optional aggregate totals"@),
    ]);
    let mut props: Vec<(String, JsonValue)> = Vec::new();
    props.push(member("meta", build_meta_schema()));
    props.push(member("data", data_json));
    props.push(member("totals", totals_json));
    let props_json = JsonValue::object(props);
    assert(props_json@->Object_0 =~= response_envelope(
        properties_struct_name@,
    )->Object_0[1].value->Object_0);
    let mut entries: Vec<(String, JsonValue)> = Vec::new();
    entries.push(text_entry("type", "object"));
    entries.push(member("properties", props_json));
    let r = JsonValue::object(entries);
    assert(r@->Object_0 =~= response_envelope(properties_struct_name@)->Object_0);
    r
}

fn field_of<'a>(endpoint: &'a JsonValue, key: &str) -> (r: &'a str)
    ensures
        r@ == endpoint_field(endpoint@, key@),
{
    match endpoint.get_str(key) {
        Some(s) => s,
        None => {
            proof {
                reveal_strlit("");
                assert(""@ =~= Seq::<char>::empty());
            }
            ""
        },
    }
}

fn file_stem(path: &str) -> (r: String)
    ensures
        r@ == schema_file_stem(path@),
{
    let v = chars_trim_start_char(&to_chars(path), '/');
    let a = chars_replace_char(&v, '/', &to_chars("_"));
    let nothing: Vec<char> = Vec::new();
    let b = chars_replace_char(&a, '{', &nothing);
    let c = chars_replace_char(&b, '}', &nothing);
    from_chars(&c)
}

/// The schema files for agents to read: one for each endpoint that has a
/// path, under `schemas/`.
pub fn generate_endpoint_schema_files(endpoints: &Vec<JsonValue>) -> (r: Vec<GenerationStep>)
    ensures
        steps_view(r@) == endpoint_schema_steps(items_view(endpoints@)),
{
    let ghost all = items_view(endpoints@);
    let mut out: Vec<GenerationStep> = Vec::new();
    let mut i: usize = 0;
    assert(steps_view(out@) =~= Seq::<StepView>::empty());
    while i < endpoints.len()
        invariant
            i <= endpoints.len(),
            all == items_view(endpoints@),
            steps_view(out@) == endpoint_schema_steps(all.take(i as int)),
        decreases endpoints.len() - i,
    {
        proof {
            assert(all.take(i as int + 1).drop_last() =~= all.take(i as int));
            assert(all.take(i as int + 1).last() == endpoints@[i as int]@);
        }
        let ghost before = steps_view(out@);
        let e = &endpoints[i];
        let path = field_of(e, "path");
        if !path.is_empty() {
            let step = GenerationStep::WriteSchema {
                destination: concat3("schemas/", file_stem(path).as_str(), ".json"),
                schema: build_response_schema(field_of(e, "struct_name")),
            };
            let ghost sv = step@;
            out.push(step);
            assert(steps_view(out@) =~= before.push(sv));
        }
        i += 1;
    }
    assert(all.take(endpoints@.len() as int) =~= all);
    out
}

fn push_copied(entries: &mut Vec<(String, JsonValue)>, endpoint: &JsonValue, key: &str)
    ensures
        entries_view(final(entries)@) == entries_view(old(entries)@) + copied_member(
            endpoint@,
            key@,
        ),
{
    let ghost before = entries_view(entries@);
    match endpoint.get(key) {
        Some(v) => {
            entries.push(member(key, v.clone()));
            assert(entries_view(entries@) =~= before + seq![Member { key: key@, value: v@ }]);
        },
        None => {
            assert(entries_view(entries@) =~= before + Seq::<Member>::empty());
        },
    }
}

fn build_ok_response(struct_name: &str) -> (r: JsonValue)
    ensures
        r@ == ok_response(struct_name@),
{
    let target = concat3("#/components/schemas/", struct_name, "_response");
    let mut payload: Vec<(String, JsonValue)> = Vec::new();
    payload.push(member("schema", reference_to(target.as_str())));
    let payload_json = JsonValue::object(payload);
    assert(payload_json@->Object_0 =~= seq![
        Member {
            key: "schema"@,
            value: Json::Object(
                seq![
                    text_member(
                        "$ref"@,
                        "#/components/schemas/"@ + struct_name@ + "_response"@,
                    ),
                ],
            ),
        },
    ]);
    let mut content: Vec<(String, JsonValue)> = Vec::new();
    content.push(member("application/json", payload_json));
    let content_json = JsonValue::object(content);
    assert(content_json@->Object_0 =~= ok_response(struct_name@)->Object_0[1].value->Object_0);
    let mut entries: Vec<(String, JsonValue)> = Vec::new();
    entries.push(text_entry("description", "Successful response"));
    entries.push(member("content", content_json));
    let r = JsonValue::object(entries);
    assert(r@->Object_0 =~= ok_response(struct_name@)->Object_0);
    r
}

fn build_endpoint_operation(endpoint: &JsonValue) -> (r: JsonValue)
    ensures
        r@ == endpoint_operation(endpoint@),
{
    let mut entries: Vec<(String, JsonValue)> = Vec::new();
    assert(entries_view(entries@) =~= Seq::<Member>::empty());
    push_copied(&mut entries, endpoint, "summary");
    assert(entries_view(entries@) =~= copied_member(endpoint@, "summary"@));
    push_copied(&mut entries, endpoint, "description");
    push_copied(&mut entries, endpoint, "tags");
    push_copied(&mut entries, endpoint, "parameters");
    let mut responses: Vec<(String, JsonValue)> = Vec::new();
    responses.push(member("200", build_ok_response(field_of(endpoint, "struct_name"))));
    let responses_json = JsonValue::object(responses);
    assert(responses_json@->Object_0 =~= seq![
        Member { key: "200"@, value: ok_response(endpoint_field(endpoint@, "struct_name"@)) },
    ]);
    let ghost before = entries_view(entries@);
    entries.push(member("responses", responses_json));
    assert(entries_view(entries@) =~= before + seq![
        Member { key: "responses"@, value: responses_json@ },
    ]);
    JsonValue::object(entries)
}

/// Puts an operation under its path and method, the method given in
/// lowercase; without a path or without a method nothing changes.
pub fn add_endpoint(
    paths: &mut Vec<(String, JsonValue)>,
    path: &str,
    method: String,
    operation: JsonValue,
)
    ensures
        entries_view(final(paths)@) == with_endpoint(
            entries_view(old(paths)@),
            path@,
            method@,
            operation@,
        ),
{
    if !path.is_empty() && !method.as_str().is_empty() {
        let mut item: Vec<(String, JsonValue)> = Vec::new();
        let ghost key = method@;
        let ghost value = operation@;
        item.push((method, operation));
        let item_json = JsonValue::object(item);
        assert(item_json@->Object_0 =~= seq![Member { key, value }]);
        entries_insert(paths, crate::text::owned(path), item_json);
    }
}

/// The OpenAPI document of the generated server: its paths from the
/// endpoints, its schemas as given.
pub fn generate_openapi_json(endpoints: &Vec<JsonValue>, schemas: &Vec<(String, JsonValue)>) -> (r:
    JsonValue)
    ensures
        r@ == openapi_document(items_view(endpoints@), entries_view(schemas@)),
{
    let ghost all = items_view(endpoints@);
    let mut paths: Vec<(String, JsonValue)> = Vec::new();
    let mut i: usize = 0;
    assert(entries_view(paths@) =~= Seq::<Member>::empty());
    while i < endpoints.len()
        invariant
            i <= endpoints.len(),
            all == items_view(endpoints@),
            entries_view(paths@) == endpoint_paths(all.take(i as int)),
        decreases endpoints.len() - i,
    {
        proof {
            assert(all.take(i as int + 1).drop_last() =~= all.take(i as int));
            assert(all.take(i as int + 1).last() == endpoints@[i as int]@);
        }
        let e = &endpoints[i];
        let path = field_of(e, "path");
        let method = str_to_lowercase(field_of(e, "method"));
        add_endpoint(&mut paths, path, method, build_endpoint_operation(e));
        i += 1;
    }
    assert(all.take(endpoints@.len() as int) =~= all);
    let mut info: Vec<(String, JsonValue)> = Vec::new();
    info.push(text_entry("title", "MCP Server API"));
    info.push(text_entry("version", "1.0.0"));
    let info_json = JsonValue::object(info);
    assert(info_json@->Object_0 =~= seq![
        text_member("title"@, "MCP Server API"@),
        text_member("version"@, "1.0.0"@),
    ]);
    let mut components: Vec<(String, JsonValue)> = Vec::new();
    components.push(member("schemas", JsonValue::object(crate::json::clone_entries(schemas))));
    let components_json = JsonValue::object(components);
    assert(components_json@->Object_0 =~= seq![
        Member { key: "schemas"@, value: Json::Object(entries_view(schemas@)) },
    ]);
    let mut entries: Vec<(String, JsonValue)> = Vec::new();
    entries.push(text_entry("openapi", "3.0.0"));
    entries.push(member("info", info_json));
    entries.push(member("paths", JsonValue::object(paths)));
    entries.push(member("components", components_json));
    let r = JsonValue::object(entries);
    assert(r@->Object_0 =~= openapi_document(
        items_view(endpoints@),
        entries_view(schemas@),
    )->Object_0);
    r
}

} // verus!
