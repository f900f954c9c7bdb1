//! The endpoint context for Rust templates.

use crate::builders::EndpointContextBuilder;
use crate::error::{Error, ErrorView};
use crate::json::{
    clone_entries, entries_view, Json, json_from_opt, json_from_opt_text, json_from_texts,
    json_of_opt, json_of_opt_text, json_of_texts, JsonValue, lookup, Member, member, opt_json,
    opt_text, texts,
};
use crate::openapi::context::OpenApiContext;
use crate::openapi::model::{
    NamedResponse, OpenApiOperation, OpenApiParameter, OpenApiResponse, OperationView,
    ParameterView, ResponseView,
};
use crate::openapi::properties::schema_properties;
use crate::templates::types::{
    parameter_kind_of, ParameterKind, template_parameter_to_json, TemplateParameterInfo,
    TemplateParameterView,
};
use crate::text::{concat, owned};
use crate::utils::{snake_case, to_snake_case, to_upper_camel_case, upper_camel_case};
use vstd::prelude::*;

verus! {

/// One property of a response body with its Rust type.
#[derive(Debug, PartialEq)]
pub struct RustPropertyInfo {
    pub name: String,
    pub rust_type: String,
    pub title: Option<String>,
    pub description: Option<String>,
    pub example: Option<JsonValue>,
}

/// The model of a [`RustPropertyInfo`].
pub struct RustPropertyView {
    pub name: Seq<char>,
    pub rust_type: Seq<char>,
    pub title: Option<Seq<char>>,
    pub description: Option<Seq<char>>,
    pub example: Option<Json>,
}

impl View for RustPropertyInfo {
    type V = RustPropertyView;

    open spec fn view(&self) -> RustPropertyView {
        RustPropertyView {
            name: self.name@,
            rust_type: self.rust_type@,
            title: opt_text(self.title),
            description: opt_text(self.description),
            example: opt_json(self.example),
        }
    }
}

/// What a Rust template is told of one operation.
#[derive(Debug, PartialEq)]
pub struct RustEndpointContext {
    /// The identifier of the endpoint.
    pub endpoint: String,
    /// The endpoint in the form of a type name.
    pub endpoint_cap: String,
    /// The endpoint in a form that is safe in file names.
    pub endpoint_fs: String,
    /// The path as the document writes it, such as `/pet/{petId}`.
    pub path: String,
    /// The name of the generated function.
    pub fn_name: String,
    /// The name of the generated parameters struct.
    pub parameters_type: String,
    /// The name of the generated properties struct.
    pub properties_type: String,
    /// The name of the generated response struct.
    pub response_type: String,
    /// The properties of the response body as the document gives them.
    pub envelope_properties: JsonValue,
    /// The properties of the response body with their Rust types.
    pub properties: Vec<RustPropertyInfo>,
    /// The names of the properties, in the order of `properties`.
    pub properties_for_handler: Vec<String>,
    /// The parameters with their Rust types.
    pub parameters: Vec<TemplateParameterInfo>,
    pub summary: String,
    pub description: String,
    pub tags: Vec<String>,
    /// The properties of the response body by name.
    pub properties_schema: Vec<(String, JsonValue)>,
    /// The schema of the response body.
    pub response_schema: JsonValue,
    /// The name of the file that the document was loaded from, where known.
    pub spec_file_name: Option<String>,
    /// The names of the properties, in the order of `properties`.
    pub valid_fields: Vec<String>,
}

/// The model of a [`RustEndpointContext`].
pub struct RustEndpointView {
    pub endpoint: Seq<char>,
    pub endpoint_cap: Seq<char>,
    pub endpoint_fs: Seq<char>,
    pub path: Seq<char>,
    pub fn_name: Seq<char>,
    pub parameters_type: Seq<char>,
    pub properties_type: Seq<char>,
    pub response_type: Seq<char>,
    pub envelope_properties: Json,
    pub properties: Seq<RustPropertyView>,
    pub properties_for_handler: Seq<Seq<char>>,
    pub parameters: Seq<TemplateParameterView>,
    pub summary: Seq<char>,
    pub description: Seq<char>,
    pub tags: Seq<Seq<char>>,
    pub properties_schema: Seq<Member>,
    pub response_schema: Json,
    pub spec_file_name: Option<Seq<char>>,
    pub valid_fields: Seq<Seq<char>>,
}

/// The models of a list of typed properties.
pub open spec fn rust_properties_view(v: Seq<RustPropertyInfo>) -> Seq<RustPropertyView> {
    Seq::new(v.len(), |i: int| v[i]@)
}

/// The models of a list of typed parameters.
pub open spec fn template_parameters_view(v: Seq<TemplateParameterInfo>) -> Seq<
    TemplateParameterView,
> {
    Seq::new(v.len(), |i: int| v[i]@)
}

impl View for RustEndpointContext {
    type V = RustEndpointView;

    open spec fn view(&self) -> RustEndpointView {
        RustEndpointView {
            endpoint: self.endpoint@,
            endpoint_cap: self.endpoint_cap@,
            endpoint_fs: self.endpoint_fs@,
            path: self.path@,
            fn_name: self.fn_name@,
            parameters_type: self.parameters_type@,
            properties_type: self.properties_type@,
            response_type: self.response_type@,
            envelope_properties: self.envelope_properties@,
            properties: rust_properties_view(self.properties@),
            properties_for_handler: texts(self.properties_for_handler@),
            parameters: template_parameters_view(self.parameters@),
            summary: self.summary@,
            description: self.description@,
            tags: texts(self.tags@),
            properties_schema: entries_view(self.properties_schema@),
            response_schema: self.response_schema@,
            spec_file_name: opt_text(self.spec_file_name),
            valid_fields: texts(self.valid_fields@),
        }
    }
}

/// The Rust type for a schema: by its `type`, `String` for `string`, `i32`
/// for `integer`, `bool` for `boolean`, `f64` for `number`, and the name of
/// any other type as it is; `String` where no schema or no type is given.
pub open spec fn rust_type_of(schema: Option<Json>) -> Seq<char> {
    match schema {
        Some(s) => match s.get_str("type"@) {
            Some(t) => if t == "string"@ {
                "String"@
            } else if t == "integer"@ {
                "i32"@
            } else if t == "boolean"@ {
                "bool"@
            } else if t == "number"@ {
                "f64"@
            } else {
                t
            },
            None => "String"@,
        },
        None => "String"@,
    }
}

/// The response that stands under `status`.
pub open spec fn response_for(responses: Seq<NamedResponse>, status: Seq<char>) -> Option<
    ResponseView,
>
    decreases responses.len(),
{
    if responses.len() == 0 {
        None
    } else if responses[0].status == status {
        Some(responses[0].response)
    } else {
        response_for(responses.skip(1), status)
    }
}

/// The schema of the JSON body of the `200` response of an operation; `null`
/// where any piece on the way to it is missing.
pub open spec fn response_schema_of(op: OperationView) -> Json {
    match response_for(op.responses, "200"@) {
        Some(response) => match response.content {
            Some(content) => match lookup(content, "application/json"@) {
                Some(payload) => match payload.get("schema"@) {
                    Some(schema) => schema,
                    None => Json::Null,
                },
                None => Json::Null,
            },
            None => Json::Null,
        },
        None => Json::Null,
    }
}

/// The property that a member of a properties object describes.
pub open spec fn rust_property_of(m: Member) -> RustPropertyView {
    RustPropertyView {
        name: m.key,
        rust_type: rust_type_of(Some(m.value)),
        title: m.value.get_str("title"@),
        description: m.value.get_str("description"@),
        example: m.value.get("example"@),
    }
}

/// The members of a properties object; none where the properties are no
/// object.
pub open spec fn property_members(properties: Json) -> Seq<Member> {
    match properties.as_object() {
        Some(m) => m,
        None => Seq::empty(),
    }
}

/// The typed properties of a properties object, in its order.
pub open spec fn rust_properties_of(properties: Json) -> Seq<RustPropertyView> {
    Seq::new(
        property_members(properties).len(),
        |i: int| rust_property_of(property_members(properties)[i]),
    )
}

/// The names of the properties of a properties object, in its order.
pub open spec fn property_names_of(properties: Json) -> Seq<Seq<char>> {
    Seq::new(property_members(properties).len(), |i: int| property_members(properties)[i].key)
}

/// The parameter with its Rust type and its location; a location that is
/// none of the four known ones counts as `query`.
pub open spec fn rust_parameter_of(p: ParameterView) -> TemplateParameterView {
    TemplateParameterView {
        name: p.name,
        target_type: rust_type_of(p.schema),
        description: p.description,
        example: p.example,
        kind: parameter_kind_of(p.in_),
    }
}

/// The parameters of an operation with their Rust types; none where the
/// operation has no parameters.
pub open spec fn rust_parameters_of(params: Option<Seq<ParameterView>>) -> Seq<
    TemplateParameterView,
> {
    match params {
        Some(v) => Seq::new(v.len(), |i: int| rust_parameter_of(v[i])),
        None => Seq::empty(),
    }
}

/// The text, or the empty text where there is none.
pub open spec fn text_or_empty(o: Option<Seq<char>>) -> Seq<char> {
    match o {
        Some(s) => s,
        None => Seq::empty(),
    }
}

/// The texts, or none where there is no list.
pub open spec fn texts_or_empty(o: Option<Seq<Seq<char>>>) -> Seq<Seq<char>> {
    match o {
        Some(s) => s,
        None => Seq::empty(),
    }
}

/// The context of an operation whose response body has the given
/// properties.
pub open spec fn rust_endpoint_with(op: OperationView, properties: Json) -> RustEndpointView {
    RustEndpointView {
        endpoint: snake_case(op.id),
        endpoint_cap: upper_camel_case(op.id),
        endpoint_fs: snake_case(op.id),
        path: op.path,
        fn_name: snake_case(op.id),
        parameters_type: upper_camel_case(op.id + "_params"@),
        properties_type: upper_camel_case(op.id + "_properties"@),
        response_type: upper_camel_case(op.id + "_response"@),
        envelope_properties: properties,
        properties: rust_properties_of(properties),
        properties_for_handler: property_names_of(properties),
        parameters: rust_parameters_of(op.parameters),
        summary: text_or_empty(op.summary),
        description: text_or_empty(op.description),
        tags: texts_or_empty(op.tags),
        properties_schema: property_members(properties),
        response_schema: response_schema_of(op),
        spec_file_name: None,
        valid_fields: property_names_of(properties),
    }
}

/// The context of an operation of the document `doc`. The properties of the
/// response body are those of its schema, a reference followed; a reference
/// that cannot be followed is the only error.
pub open spec fn rust_endpoint_of(doc: Json, op: OperationView) -> Result<
    RustEndpointView,
    ErrorView,
> {
    match schema_properties(doc, response_schema_of(op)) {
        Ok(found) => Ok(rust_endpoint_with(op, found.properties)),
        Err(e) => Err(e),
    }
}

/// The property as a document for the template.
pub open spec fn rust_property_to_json(p: RustPropertyView) -> Json {
    Json::Object(
        seq![
            Member { key: "name"@, value: Json::String(p.name) },
            Member { key: "rust_type"@, value: Json::String(p.rust_type) },
            Member { key: "title"@, value: json_of_opt_text(p.title) },
            Member { key: "description"@, value: json_of_opt_text(p.description) },
            Member { key: "example"@, value: json_of_opt(p.example) },
        ],
    )
}

/// The list of properties as a document for the template.
pub open spec fn rust_properties_to_json(v: Seq<RustPropertyView>) -> Json {
    Json::Array(Seq::new(v.len(), |i: int| rust_property_to_json(v[i])))
}

/// The list of parameters as a document for the template.
pub open spec fn template_parameters_to_json(v: Seq<TemplateParameterView>) -> Json {
    Json::Array(Seq::new(v.len(), |i: int| template_parameter_to_json(v[i])))
}

/// The context as the document that the template is rendered with.
pub open spec fn rust_endpoint_to_json(c: RustEndpointView) -> Json {
    Json::Object(
        seq![
            Member { key: "endpoint"@, value: Json::String(c.endpoint) },
            Member { key: "endpoint_cap"@, value: Json::String(c.endpoint_cap) },
            Member { key: "endpoint_fs"@, value: Json::String(c.endpoint_fs) },
            Member { key: "path"@, value: Json::String(c.path) },
            Member { key: "fn_name"@, value: Json::String(c.fn_name) },
            Member { key: "parameters_type"@, value: Json::String(c.parameters_type) },
            Member { key: "properties_type"@, value: Json::String(c.properties_type) },
            Member { key: "response_type"@, value: Json::String(c.response_type) },
            Member { key: "envelope_properties"@, value: c.envelope_properties },
            Member { key: "properties"@, value: rust_properties_to_json(c.properties) },
            Member {
                key: "properties_for_handler"@,
                value: json_of_texts(c.properties_for_handler),
            },
            Member { key: "parameters"@, value: template_parameters_to_json(c.parameters) },
            Member { key: "summary"@, value: Json::String(c.summary) },
            Member { key: "description"@, value: Json::String(c.description) },
            Member { key: "tags"@, value: json_of_texts(c.tags) },
            Member { key: "properties_schema"@, value: Json::Object(c.properties_schema) },
            Member { key: "response_schema"@, value: c.response_schema },
            Member { key: "spec_file_name"@, value: json_of_opt_text(c.spec_file_name) },
            Member { key: "valid_fields"@, value: json_of_texts(c.valid_fields) },
        ],
    )
}

/// The list of property names matches the list of typed properties: as
/// many entries, the same names, in the same order.
pub proof fn lemma_property_lists_agree(op: OperationView, properties: Json)
    ensures
        ({
            let c = rust_endpoint_with(op, properties);
            &&& c.properties_for_handler.len() == c.properties.len()
            &&& c.valid_fields == c.properties_for_handler
            &&& forall|i: int|
                0 <= i < c.properties.len() ==> c.properties_for_handler[i] == (
                #[trigger] c.properties[i]).name
        }),
{
}

/// The Rust type for a schema.
pub fn map_openapi_schema_to_rust_type(schema: Option<&JsonValue>) -> (r: String)
    ensures
        r@ == rust_type_of(
            match schema {
                Some(s) => Some(s@),
                None => None,
            },
        ),
{
    match schema {
        Some(s) => match s.get_str("type") {
            Some(t) => {
                if crate::text::str_eq(t, "string") {
                    owned("String")
                } else if crate::text::str_eq(t, "integer") {
                    owned("i32")
                } else if crate::text::str_eq(t, "boolean") {
                    owned("bool")
                } else if crate::text::str_eq(t, "number") {
                    owned("f64")
                } else {
                    owned(t)
                }
            },
            None => owned("String"),
        },
        None => owned("String"),
    }
}

fn find_response<'a>(responses: &'a Vec<(String, OpenApiResponse)>, status: &str) -> (r: Option<
    &'a OpenApiResponse,
>)
    ensures
        match r {
            Some(resp) => response_for(
                crate::openapi::model::responses_view(responses@),
                status@,
            ) == Some(resp@),
            None => response_for(crate::openapi::model::responses_view(responses@), status@)
                is None,
        },
{
    let ghost all = crate::openapi::model::responses_view(responses@);
    let mut i: usize = 0;
    assert(all.skip(0) =~= all);
    while i < responses.len()
        invariant
            i <= responses.len(),
            all == crate::openapi::model::responses_view(responses@),
            response_for(all, status@) == response_for(all.skip(i as int), status@),
        decreases responses.len() - i,
    {
        proof {
            assert(all.skip(i as int)[0] == all[i as int]);
            assert(all.skip(i as int).skip(1) =~= all.skip(i as int + 1));
        }
        if crate::text::str_eq(responses[i].0.as_str(), status) {
            return Some(&responses[i].1);
        }
        i += 1;
    }
    None
}

/// The schema of the JSON body of the `200` response of an operation.
pub fn extract_response_schema(op: &OpenApiOperation) -> (r: JsonValue)
    ensures
        r@ == response_schema_of(op@),
{
    match find_response(&op.responses, "200") {
        Some(response) => match &response.content {
            Some(content) => match crate::json::entries_get(content, "application/json") {
                Some(payload) => match payload.get("schema") {
                    Some(schema) => schema.clone(),
                    None => JsonValue::Null,
                },
                None => JsonValue::Null,
            },
            None => JsonValue::Null,
        },
        None => JsonValue::Null,
    }
}

/// The typed properties of a properties object.
pub fn build_property_info(properties: &JsonValue) -> (r: Vec<RustPropertyInfo>)
    ensures
        rust_properties_view(r@) == rust_properties_of(properties@),
{
    let mut out: Vec<RustPropertyInfo> = Vec::new();
    match properties.as_object() {
        Some(members) => {
            let mut i: usize = 0;
            while i < members.len()
                invariant
                    i <= members.len(),
                    out@.len() == i,
                    forall|k: int|
                        0 <= k < i ==> out@[k]@ == rust_property_of(entries_view(members@)[k]),
                decreases members.len() - i,
            {
                let schema = &members[i].1;
                let title = match schema.get_str("title") {
                    Some(s) => Some(owned(s)),
                    None => None,
                };
                let description = match schema.get_str("description") {
                    Some(s) => Some(owned(s)),
                    None => None,
                };
                let example = match schema.get("example") {
                    Some(v) => Some(v.clone()),
                    None => None,
                };
                out.push(
                    RustPropertyInfo {
                        name: members[i].0.clone(),
                        rust_type: map_openapi_schema_to_rust_type(Some(schema)),
                        title,
                        description,
                        example,
                    },
                );
                i += 1;
            }
            assert(rust_properties_view(out@) =~= rust_properties_of(properties@));
        },
        None => {
            assert(rust_properties_view(out@) =~= rust_properties_of(properties@));
        },
    }
    out
}

/// The names of the properties of a properties object.
pub fn collect_property_names(properties: &JsonValue) -> (r: Vec<String>)
    ensures
        texts(r@) == property_names_of(properties@),
{
    let mut out: Vec<String> = Vec::new();
    match properties.as_object() {
        Some(members) => {
            let mut i: usize = 0;
            while i < members.len()
                invariant
                    i <= members.len(),
                    out@.len() == i,
                    forall|k: int| 0 <= k < i ==> out@[k]@ == entries_view(members@)[k].key,
                decreases members.len() - i,
            {
                out.push(members[i].0.clone());
                i += 1;
            }
            assert(texts(out@) =~= property_names_of(properties@));
        },
        None => {
            assert(texts(out@) =~= property_names_of(properties@));
        },
    }
    out
}

fn build_parameters(params: &Option<Vec<OpenApiParameter>>) -> (r: Vec<TemplateParameterInfo>)
    ensures
        template_parameters_view(r@) == rust_parameters_of(
            crate::openapi::model::opt_parameters(*params),
        ),
{
    let mut out: Vec<TemplateParameterInfo> = Vec::new();
    match params {
        Some(v) => {
            let mut i: usize = 0;
            while i < v.len()
                invariant
                    i <= v.len(),
                    out@.len() == i,
                    forall|k: int| 0 <= k < i ==> out@[k]@ == rust_parameter_of(v@[k]@),
                decreases v.len() - i,
            {
                let p = &v[i];
                let target_type = match &p.schema {
                    Some(s) => map_openapi_schema_to_rust_type(Some(s)),
                    None => map_openapi_schema_to_rust_type(None),
                };
                out.push(
                    TemplateParameterInfo {
                        name: p.name.clone(),
                        target_type,
                        description: crate::json::clone_opt_text(&p.description),
                        example: crate::json::clone_opt_json(&p.example),
                        kind: ParameterKind::from_location(p.in_.as_str()),
                    },
                );
                i += 1;
            }
            assert(template_parameters_view(out@) =~= rust_parameters_of(
                crate::openapi::model::opt_parameters(*params),
            ));
        },
        None => {
            assert(template_parameters_view(out@) =~= rust_parameters_of(
                crate::openapi::model::opt_parameters(*params),
            ));
        },
    }
    out
}

fn or_empty(o: &Option<String>) -> (r: String)
    ensures
        r@ == text_or_empty(opt_text(*o)),
{
    match o {
        Some(s) => s.clone(),
        None => String::new(),
    }
}

impl RustPropertyInfo {
    /// The property as a document for the template.
    pub fn to_json(&self) -> (r: JsonValue)
        ensures
            r@ == rust_property_to_json(self@),
    {
        let mut entries: Vec<(String, JsonValue)> = Vec::new();
        entries.push(member("name", JsonValue::String(self.name.clone())));
        entries.push(member("rust_type", JsonValue::String(self.rust_type.clone())));
        entries.push(member("title", json_from_opt_text(&self.title)));
        entries.push(member("description", json_from_opt_text(&self.description)));
        entries.push(member("example", json_from_opt(&self.example)));
        let r = JsonValue::object(entries);
        assert(r@->Object_0 =~= rust_property_to_json(self@)->Object_0);
        r
    }
}

fn properties_json(v: &Vec<RustPropertyInfo>) -> (r: JsonValue)
    ensures
        r@ == rust_properties_to_json(rust_properties_view(v@)),
{
    let mut out: Vec<JsonValue> = Vec::new();
    let mut i: usize = 0;
    while i < v.len()
        invariant
            i <= v.len(),
            out@.len() == i,
            forall|k: int| 0 <= k < i ==> out@[k]@ == rust_property_to_json(v@[k]@),
        decreases v.len() - i,
    {
        out.push(v[i].to_json());
        i += 1;
    }
    let r = JsonValue::array(out);
    assert(r@->Array_0 =~= rust_properties_to_json(rust_properties_view(v@))->Array_0);
    r
}

fn template_parameters_json(v: &Vec<TemplateParameterInfo>) -> (r: JsonValue)
    ensures
        r@ == template_parameters_to_json(template_parameters_view(v@)),
{
    let mut out: Vec<JsonValue> = Vec::new();
    let mut i: usize = 0;
    while i < v.len()
        invariant
            i <= v.len(),
            out@.len() == i,
            forall|k: int| 0 <= k < i ==> out@[k]@ == template_parameter_to_json(v@[k]@),
        decreases v.len() - i,
    {
        out.push(v[i].to_json());
        i += 1;
    }
    let r = JsonValue::array(out);
    assert(r@->Array_0 =~= template_parameters_to_json(template_parameters_view(v@))->Array_0);
    r
}

impl RustEndpointContext {
    /// The context of an operation of the document `spec`.
    pub fn from_operation(spec: &OpenApiContext, op: &OpenApiOperation) -> (r: Result<
        RustEndpointContext,
        Error,
    >)
        ensures
            match r {
                Ok(c) => rust_endpoint_of(spec@, op@) == Ok::<RustEndpointView, ErrorView>(c@),
                Err(e) => rust_endpoint_of(spec@, op@) == Err::<RustEndpointView, ErrorView>(e@),
            },
    {
        let response_schema = extract_response_schema(op);
        let properties = match spec.extract_schema_properties(&response_schema) {
            Ok(found) => found.0,
            Err(e) => return Err(e),
        };
        let id = op.id.as_str();
        let properties_schema = match properties.as_object() {
            Some(m) => clone_entries(m),
            None => {
                let empty: Vec<(String, JsonValue)> = Vec::new();
                assert(entries_view(empty@) =~= Seq::<Member>::empty());
                empty
            },
        };
        let tags = match &op.tags {
            Some(t) => crate::json::clone_texts(t),
            None => {
                let empty: Vec<String> = Vec::new();
                assert(texts(empty@) =~= Seq::<Seq<char>>::empty());
                empty
            },
        };
        Ok(
            RustEndpointContext {
                endpoint: to_snake_case(id),
                endpoint_cap: to_upper_camel_case(id),
                endpoint_fs: to_snake_case(id),
                path: op.path.clone(),
                fn_name: to_snake_case(id),
                parameters_type: to_upper_camel_case(concat(id, "_params").as_str()),
                properties_type: to_upper_camel_case(concat(id, "_properties").as_str()),
                response_type: to_upper_camel_case(concat(id, "_response").as_str()),
                properties: build_property_info(&properties),
                properties_for_handler: collect_property_names(&properties),
                parameters: build_parameters(&op.parameters),
                summary: or_empty(&op.summary),
                description: or_empty(&op.description),
                tags,
                properties_schema,
                response_schema,
                spec_file_name: None,
                valid_fields: collect_property_names(&properties),
                envelope_properties: properties,
            },
        )
    }

    /// The context as the document that the template is rendered with.
    pub fn to_json(&self) -> (r: JsonValue)
        ensures
            r@ == rust_endpoint_to_json(self@),
    {
        let mut entries: Vec<(String, JsonValue)> = Vec::new();
        entries.push(member("endpoint", JsonValue::String(self.endpoint.clone())));
        entries.push(member("endpoint_cap", JsonValue::String(self.endpoint_cap.clone())));
        entries.push(member("endpoint_fs", JsonValue::String(self.endpoint_fs.clone())));
        entries.push(member("path", JsonValue::String(self.path.clone())));
        entries.push(member("fn_name", JsonValue::String(self.fn_name.clone())));
        entries.push(member("parameters_type", JsonValue::String(self.parameters_type.clone())));
        entries.push(member("properties_type", JsonValue::String(self.properties_type.clone())));
        entries.push(member("response_type", JsonValue::String(self.response_type.clone())));
        entries.push(member("envelope_properties", self.envelope_properties.clone()));
        entries.push(member("properties", properties_json(&self.properties)));
        entries.push(
            member("properties_for_handler", json_from_texts(&self.properties_for_handler)),
        );
        entries.push(member("parameters", template_parameters_json(&self.parameters)));
        entries.push(member("summary", JsonValue::String(self.summary.clone())));
        entries.push(member("description", JsonValue::String(self.description.clone())));
        entries.push(member("tags", json_from_texts(&self.tags)));
        entries.push(
            member("properties_schema", JsonValue::object(clone_entries(&self.properties_schema))),
        );
        entries.push(member("response_schema", self.response_schema.clone()));
        entries.push(member("spec_file_name", json_from_opt_text(&self.spec_file_name)));
        entries.push(member("valid_fields", json_from_texts(&self.valid_fields)));
        let r = JsonValue::object(entries);
        assert(r@->Object_0 =~= rust_endpoint_to_json(self@)->Object_0);
        r
    }
}

/// The builder of endpoint contexts for Rust templates.
#[derive(Debug, Clone, Copy)]
pub struct RustEndpointContextBuilder;

impl EndpointContextBuilder for RustEndpointContextBuilder {
    open spec fn context_of(&self, doc: Json, op: OperationView) -> Result<Json, ErrorView> {
        match rust_endpoint_of(doc, op) {
            Ok(c) => Ok(rust_endpoint_to_json(c)),
            Err(e) => Err(e),
        }
    }

    fn build(&self, spec: &OpenApiContext, op: &OpenApiOperation) -> (r: Result<JsonValue, Error>) {
        match RustEndpointContext::from_operation(spec, op) {
            Ok(c) => Ok(c.to_json()),
            Err(e) => Err(e),
        }
    }
}

} // verus!
