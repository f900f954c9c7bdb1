//! The normalized entities of an OpenAPI document: parameters, responses and
//! operations, each with the document it is read from and written back to.

use crate::json::{
    clone_entries, clone_opt_entries, clone_opt_items, clone_opt_json, clone_opt_text,
    clone_opt_texts, entries_view, Json, json_from_opt, json_from_opt_bool, json_from_opt_entries,
    json_from_opt_items, json_from_opt_text, json_from_texts, json_of_opt, json_of_opt_bool,
    json_of_opt_entries, json_of_opt_items, json_of_opt_text, json_of_texts, JsonValue, Member,
    member, opt_entries, opt_items, opt_json, opt_text, opt_texts, well_keyed,
};
use crate::openapi::fields::{
    bool_field, members_besides, names_view, object_field, read_bool_field, read_members_besides,
    read_object_field, read_required_string, read_string_field, read_value_field,
    required_string_field, string_field, value_field,
};
use crate::openapi::unique::{
    lemma_parameter_well_keyed, lemma_response_well_keyed, parameter_well_keyed,
    response_well_keyed,
};
use vstd::prelude::*;

verus! {

/// One parameter of an operation.
#[derive(Debug, PartialEq)]
pub struct OpenApiParameter {
    /// The name of the parameter; names are case sensitive.
    pub name: String,
    /// Where the parameter is sent: `query`, `header`, `path` or `cookie`.
    pub in_: String,
    pub description: Option<String>,
    /// Whether the parameter must be sent; see [`OpenApiParameter::is_required`].
    pub required: Option<bool>,
    pub deprecated: Option<bool>,
    pub allow_empty_value: Option<bool>,
    pub style: Option<String>,
    pub explode: Option<bool>,
    pub allow_reserved: Option<bool>,
    /// The schema that types the parameter.
    pub schema: Option<JsonValue>,
    pub example: Option<JsonValue>,
    pub examples: Option<Vec<(String, JsonValue)>>,
    /// The representations of the parameter by media type, where it has no
    /// schema.
    pub content: Option<Vec<(String, JsonValue)>>,
    /// Every other member of the parameter's definition.
    pub vendor_extensions: Vec<(String, JsonValue)>,
}

/// The model of an [`OpenApiParameter`].
pub struct ParameterView {
    pub name: Seq<char>,
    pub in_: Seq<char>,
    pub description: Option<Seq<char>>,
    pub required: Option<bool>,
    pub deprecated: Option<bool>,
    pub allow_empty_value: Option<bool>,
    pub style: Option<Seq<char>>,
    pub explode: Option<bool>,
    pub allow_reserved: Option<bool>,
    pub schema: Option<Json>,
    pub example: Option<Json>,
    pub examples: Option<Seq<Member>>,
    pub content: Option<Seq<Member>>,
    pub vendor_extensions: Seq<Member>,
}

impl View for OpenApiParameter {
    type V = ParameterView;

    open spec fn view(&self) -> ParameterView {
        ParameterView {
            name: self.name@,
            in_: self.in_@,
            description: opt_text(self.description),
            required: self.required,
            deprecated: self.deprecated,
            allow_empty_value: self.allow_empty_value,
            style: opt_text(self.style),
            explode: self.explode,
            allow_reserved: self.allow_reserved,
            schema: opt_json(self.schema),
            example: opt_json(self.example),
            examples: opt_entries(self.examples),
            content: opt_entries(self.content),
            vendor_extensions: entries_view(self.vendor_extensions@),
        }
    }
}

/// The member names that a parameter's definition gives a meaning to.
pub open spec fn parameter_keys() -> Seq<Seq<char>> {
    seq![
        "name"@,
        "in"@,
        "description"@,
        "required"@,
        "deprecated"@,
        "allowEmptyValue"@,
        "style"@,
        "explode"@,
        "allowReserved"@,
        "schema"@,
        "example"@,
        "examples"@,
        "content"@,
    ]
}

/// The parameter that a definition describes.
///
/// The definition must be an object with a string `name` and a string `in`.
/// Each other known member must have its type where it is given. All
/// remaining members are kept as extensions.
pub open spec fn parameter_from_json(v: Json) -> Option<ParameterView> {
    match v {
        Json::Object(obj) => {
            let name = required_string_field(obj, "name"@);
            let in_ = required_string_field(obj, "in"@);
            let description = string_field(obj, "description"@);
            let required = bool_field(obj, "required"@);
            let deprecated = bool_field(obj, "deprecated"@);
            let allow_empty_value = bool_field(obj, "allowEmptyValue"@);
            let style = string_field(obj, "style"@);
            let explode = bool_field(obj, "explode"@);
            let allow_reserved = bool_field(obj, "allowReserved"@);
            let examples = object_field(obj, "examples"@);
            let content = object_field(obj, "content"@);
            if name is Some && in_ is Some && description is Some && required is Some
                && deprecated is Some && allow_empty_value is Some && style is Some
                && explode is Some && allow_reserved is Some && examples is Some
                && content is Some {
                Some(
                    ParameterView {
                        name: name->0,
                        in_: in_->0,
                        description: description->0,
                        required: required->0,
                        deprecated: deprecated->0,
                        allow_empty_value: allow_empty_value->0,
                        style: style->0,
                        explode: explode->0,
                        allow_reserved: allow_reserved->0,
                        schema: value_field(obj, "schema"@),
                        example: value_field(obj, "example"@),
                        examples: examples->0,
                        content: content->0,
                        vendor_extensions: members_besides(obj, parameter_keys()),
                    },
                )
            } else {
                None
            }
        },
        _ => None,
    }
}

/// The definition that describes a parameter: its known members in a fixed
/// order, `null` for what is not given, then its extensions.
pub open spec fn parameter_to_json(p: ParameterView) -> Json {
    Json::Object(
        seq![
            Member { key: "name"@, value: Json::String(p.name) },
            Member { key: "in"@, value: Json::String(p.in_) },
            Member { key: "description"@, value: json_of_opt_text(p.description) },
            Member { key: "required"@, value: json_of_opt_bool(p.required) },
            Member { key: "deprecated"@, value: json_of_opt_bool(p.deprecated) },
            Member { key: "allowEmptyValue"@, value: json_of_opt_bool(p.allow_empty_value) },
            Member { key: "style"@, value: json_of_opt_text(p.style) },
            Member { key: "explode"@, value: json_of_opt_bool(p.explode) },
            Member { key: "allowReserved"@, value: json_of_opt_bool(p.allow_reserved) },
            Member { key: "schema"@, value: json_of_opt(p.schema) },
            Member { key: "example"@, value: json_of_opt(p.example) },
            Member { key: "examples"@, value: json_of_opt_entries(p.examples) },
            Member { key: "content"@, value: json_of_opt_entries(p.content) },
        ] + p.vendor_extensions,
    )
}

impl ParameterView {
    /// Whether the parameter must be sent: as declared, and where nothing is
    /// declared, exactly when it is a path parameter.
    pub open spec fn is_required(self) -> bool {
        match self.required {
            Some(b) => b,
            None => self.in_ == "path"@,
        }
    }
}

fn parameter_key_names() -> (r: Vec<&'static str>)
    ensures
        names_view(r@) == parameter_keys(),
{
    let names = vec![
        "name",
        "in",
        "description",
        "required",
        "deprecated",
        "allowEmptyValue",
        "style",
        "explode",
        "allowReserved",
        "schema",
        "example",
        "examples",
        "content",
    ];
    assert(names_view(names@) =~= parameter_keys());
    names
}

impl OpenApiParameter {
    /// Reads a parameter from its definition; `None` where the definition
    /// does not describe one. Each map of the parameter holds each of its
    /// keys once where the definition holds no key twice.
    pub fn from_json(v: &JsonValue) -> (r: Option<OpenApiParameter>)
        ensures
            match r {
                Some(p) => parameter_from_json(v@) == Some(p@) && (well_keyed(v@)
                    ==> parameter_well_keyed(p@)),
                None => parameter_from_json(v@) is None,
            },
    {
        proof {
            if well_keyed(v@) {
                lemma_parameter_well_keyed(v@);
            }
        }
        let obj = match v.as_object() {
            Some(obj) => obj,
            None => return None,
        };
        let name = match read_required_string(obj, "name") {
            Some(s) => s,
            None => return None,
        };
        let in_ = match read_required_string(obj, "in") {
            Some(s) => s,
            None => return None,
        };
        let description = match read_string_field(obj, "description") {
            Some(x) => x,
            None => return None,
        };
        let required = match read_bool_field(obj, "required") {
            Some(x) => x,
            None => return None,
        };
        let deprecated = match read_bool_field(obj, "deprecated") {
            Some(x) => x,
            None => return None,
        };
        let allow_empty_value = match read_bool_field(obj, "allowEmptyValue") {
            Some(x) => x,
            None => return None,
        };
        let style = match read_string_field(obj, "style") {
            Some(x) => x,
            None => return None,
        };
        let explode = match read_bool_field(obj, "explode") {
            Some(x) => x,
            None => return None,
        };
        let allow_reserved = match read_bool_field(obj, "allowReserved") {
            Some(x) => x,
            None => return None,
        };
        let examples = match read_object_field(obj, "examples") {
            Some(x) => x,
            None => return None,
        };
        let content = match read_object_field(obj, "content") {
            Some(x) => x,
            None => return None,
        };
        let schema = read_value_field(obj, "schema");
        let example = read_value_field(obj, "example");
        let names = parameter_key_names();
        let vendor_extensions = read_members_besides(obj, &names);
        Some(
            OpenApiParameter {
                name,
                in_,
                description,
                required,
                deprecated,
                allow_empty_value,
                style,
                explode,
                allow_reserved,
                schema,
                example,
                examples,
                content,
                vendor_extensions,
            },
        )
    }

    /// Writes the parameter as a definition.
    pub fn to_json(&self) -> (r: JsonValue)
        ensures
            r@ == parameter_to_json(self@),
    {
        let mut entries: Vec<(String, JsonValue)> = Vec::new();
        entries.push(member("name", JsonValue::String(self.name.clone())));
        entries.push(member("in", JsonValue::String(self.in_.clone())));
        entries.push(member("description", json_from_opt_text(&self.description)));
        entries.push(member("required", json_from_opt_bool(&self.required)));
        entries.push(member("deprecated", json_from_opt_bool(&self.deprecated)));
        entries.push(member("allowEmptyValue", json_from_opt_bool(&self.allow_empty_value)));
        entries.push(member("style", json_from_opt_text(&self.style)));
        entries.push(member("explode", json_from_opt_bool(&self.explode)));
        entries.push(member("allowReserved", json_from_opt_bool(&self.allow_reserved)));
        entries.push(member("schema", json_from_opt(&self.schema)));
        entries.push(member("example", json_from_opt(&self.example)));
        entries.push(member("examples", json_from_opt_entries(&self.examples)));
        entries.push(member("content", json_from_opt_entries(&self.content)));
        append_entries(&mut entries, &self.vendor_extensions);
        let r = JsonValue::object(entries);
        assert(r@->Object_0 =~= parameter_to_json(self@)->Object_0);
        r
    }

    /// Whether the parameter must be sent: as declared, and where nothing is
    /// declared, exactly when it is a path parameter.
    pub fn is_required(&self) -> (r: bool)
        ensures
            r == self@.is_required(),
    {
        match self.required {
            Some(b) => b,
            None => crate::text::str_eq(self.in_.as_str(), "path"),
        }
    }

    /// A copy of the parameter.
    pub fn duplicate(&self) -> (r: OpenApiParameter)
        ensures
            r@ == self@,
    {
        OpenApiParameter {
            name: self.name.clone(),
            in_: self.in_.clone(),
            description: clone_opt_text(&self.description),
            required: self.required,
            deprecated: self.deprecated,
            allow_empty_value: self.allow_empty_value,
            style: clone_opt_text(&self.style),
            explode: self.explode,
            allow_reserved: self.allow_reserved,
            schema: clone_opt_json(&self.schema),
            example: clone_opt_json(&self.example),
            examples: clone_opt_entries(&self.examples),
            content: clone_opt_entries(&self.content),
            vendor_extensions: clone_entries(&self.vendor_extensions),
        }
    }
}

/// Appends copies of the members `src` to `dst`.
pub fn append_entries(dst: &mut Vec<(String, JsonValue)>, src: &Vec<(String, JsonValue)>)
    ensures
        entries_view(final(dst)@) == entries_view(old(dst)@) + entries_view(src@),
{
    let mut i: usize = 0;
    while i < src.len()
        invariant
            i <= src.len(),
            entries_view(dst@) == entries_view(old(dst)@) + entries_view(src@).take(i as int),
        decreases src.len() - i,
    {
        let ghost before = entries_view(dst@);
        dst.push((src[i].0.clone(), src[i].1.clone()));
        assert(entries_view(dst@) =~= before.push(entries_view(src@)[i as int]));
        assert(entries_view(src@).take(i as int + 1) =~= entries_view(src@).take(i as int).push(
            entries_view(src@)[i as int],
        ));
        assert(entries_view(dst@) =~= entries_view(old(dst)@) + entries_view(src@).take(
            i as int + 1,
        ));
        i += 1;
    }
    assert(entries_view(src@).take(src@.len() as int) =~= entries_view(src@));
}

/// One response of an operation.
#[derive(Debug, PartialEq)]
pub struct OpenApiResponse {
    pub description: Option<String>,
    /// The headers of the response by name.
    pub headers: Option<Vec<(String, JsonValue)>>,
    /// The payloads of the response by media type; each usually holds a
    /// `schema`.
    pub content: Option<Vec<(String, JsonValue)>>,
    /// The links that can be followed from the response, by name.
    pub links: Option<Vec<(String, JsonValue)>>,
    /// Every other member of the response's definition.
    pub vendor_extensions: Vec<(String, JsonValue)>,
}

/// The model of an [`OpenApiResponse`].
pub struct ResponseView {
    pub description: Option<Seq<char>>,
    pub headers: Option<Seq<Member>>,
    pub content: Option<Seq<Member>>,
    pub links: Option<Seq<Member>>,
    pub vendor_extensions: Seq<Member>,
}

impl View for OpenApiResponse {
    type V = ResponseView;

    open spec fn view(&self) -> ResponseView {
        ResponseView {
            description: opt_text(self.description),
            headers: opt_entries(self.headers),
            content: opt_entries(self.content),
            links: opt_entries(self.links),
            vendor_extensions: entries_view(self.vendor_extensions@),
        }
    }
}

/// The member names that a response's definition gives a meaning to.
pub open spec fn response_keys() -> Seq<Seq<char>> {
    seq!["description"@, "headers"@, "content"@, "links"@]
}

/// The response that a definition describes: an object whose known members
/// have their types where they are given.
pub open spec fn response_from_json(v: Json) -> Option<ResponseView> {
    match v {
        Json::Object(obj) => {
            let description = string_field(obj, "description"@);
            let headers = object_field(obj, "headers"@);
            let content = object_field(obj, "content"@);
            let links = object_field(obj, "links"@);
            if description is Some && headers is Some && content is Some && links is Some {
                Some(
                    ResponseView {
                        description: description->0,
                        headers: headers->0,
                        content: content->0,
                        links: links->0,
                        vendor_extensions: members_besides(obj, response_keys()),
                    },
                )
            } else {
                None
            }
        },
        _ => None,
    }
}

/// The definition that describes a response.
pub open spec fn response_to_json(r: ResponseView) -> Json {
    Json::Object(
        seq![
            Member { key: "description"@, value: json_of_opt_text(r.description) },
            Member { key: "headers"@, value: json_of_opt_entries(r.headers) },
            Member { key: "content"@, value: json_of_opt_entries(r.content) },
            Member { key: "links"@, value: json_of_opt_entries(r.links) },
        ] + r.vendor_extensions,
    )
}

fn response_key_names() -> (r: Vec<&'static str>)
    ensures
        names_view(r@) == response_keys(),
{
    let names = vec!["description", "headers", "content", "links"];
    assert(names_view(names@) =~= response_keys());
    names
}

impl OpenApiResponse {
    /// Reads a response from its definition; `None` where the definition
    /// does not describe one. Each map of the response holds each of its
    /// keys once where the definition holds no key twice.
    pub fn from_json(v: &JsonValue) -> (r: Option<OpenApiResponse>)
        ensures
            match r {
                Some(p) => response_from_json(v@) == Some(p@) && (well_keyed(v@)
                    ==> response_well_keyed(p@)),
                None => response_from_json(v@) is None,
            },
    {
        proof {
            if well_keyed(v@) {
                lemma_response_well_keyed(v@);
            }
        }
        let obj = match v.as_object() {
            Some(obj) => obj,
            None => return None,
        };
        let description = match read_string_field(obj, "description") {
            Some(x) => x,
            None => return None,
        };
        let headers = match read_object_field(obj, "headers") {
            Some(x) => x,
            None => return None,
        };
        let content = match read_object_field(obj, "content") {
            Some(x) => x,
            None => return None,
        };
        let links = match read_object_field(obj, "links") {
            Some(x) => x,
            None => return None,
        };
        let names = response_key_names();
        let vendor_extensions = read_members_besides(obj, &names);
        Some(OpenApiResponse { description, headers, content, links, vendor_extensions })
    }

    /// Writes the response as a definition.
    pub fn to_json(&self) -> (r: JsonValue)
        ensures
            r@ == response_to_json(self@),
    {
        let mut entries: Vec<(String, JsonValue)> = Vec::new();
        entries.push(member("description", json_from_opt_text(&self.description)));
        entries.push(member("headers", json_from_opt_entries(&self.headers)));
        entries.push(member("content", json_from_opt_entries(&self.content)));
        entries.push(member("links", json_from_opt_entries(&self.links)));
        append_entries(&mut entries, &self.vendor_extensions);
        let r = JsonValue::object(entries);
        assert(r@->Object_0 =~= response_to_json(self@)->Object_0);
        r
    }

    /// A copy of the response.
    pub fn duplicate(&self) -> (r: OpenApiResponse)
        ensures
            r@ == self@,
    {
        OpenApiResponse {
            description: clone_opt_text(&self.description),
            headers: clone_opt_entries(&self.headers),
            content: clone_opt_entries(&self.content),
            links: clone_opt_entries(&self.links),
            vendor_extensions: clone_entries(&self.vendor_extensions),
        }
    }
}

/// The model of one response under its status code.
pub struct NamedResponse {
    pub status: Seq<char>,
    pub response: ResponseView,
}

/// The models of a list of parameters.
pub open spec fn parameters_view(v: Seq<OpenApiParameter>) -> Seq<ParameterView> {
    Seq::new(v.len(), |i: int| v[i]@)
}

/// The models of an optional list of parameters.
pub open spec fn opt_parameters(o: Option<Vec<OpenApiParameter>>) -> Option<Seq<ParameterView>> {
    match o {
        Some(v) => Some(parameters_view(v@)),
        None => None,
    }
}

/// The models of the responses of an operation.
pub open spec fn responses_view(v: Seq<(String, OpenApiResponse)>) -> Seq<NamedResponse> {
    Seq::new(v.len(), |i: int| NamedResponse { status: v[i].0@, response: v[i].1@ })
}

/// One operation: a path of the document under one HTTP method.
#[derive(Debug, PartialEq)]
pub struct OpenApiOperation {
    /// The identifier of the operation, unique in the document.
    pub id: String,
    /// The path as the document writes it, such as `/pet/{petId}`.
    pub path: String,
    /// The HTTP method, in lowercase as the path item names it.
    pub method: String,
    pub tags: Option<Vec<String>>,
    pub summary: Option<String>,
    pub description: Option<String>,
    pub external_docs: Option<JsonValue>,
    pub parameters: Option<Vec<OpenApiParameter>>,
    pub request_body: Option<JsonValue>,
    /// The responses by status code.
    pub responses: Vec<(String, OpenApiResponse)>,
    pub callbacks: Option<JsonValue>,
    pub deprecated: Option<bool>,
    pub security: Option<Vec<JsonValue>>,
    pub servers: Option<Vec<JsonValue>>,
    /// The members of the operation whose name begins with `x-`.
    pub vendor_extensions: Vec<(String, JsonValue)>,
}

/// The model of an [`OpenApiOperation`].
pub struct OperationView {
    pub id: Seq<char>,
    pub path: Seq<char>,
    pub method: Seq<char>,
    pub tags: Option<Seq<Seq<char>>>,
    pub summary: Option<Seq<char>>,
    pub description: Option<Seq<char>>,
    pub external_docs: Option<Json>,
    pub parameters: Option<Seq<ParameterView>>,
    pub request_body: Option<Json>,
    pub responses: Seq<NamedResponse>,
    pub callbacks: Option<Json>,
    pub deprecated: Option<bool>,
    pub security: Option<Seq<Json>>,
    pub servers: Option<Seq<Json>>,
    pub vendor_extensions: Seq<Member>,
}

impl View for OpenApiOperation {
    type V = OperationView;

    open spec fn view(&self) -> OperationView {
        OperationView {
            id: self.id@,
            path: self.path@,
            method: self.method@,
            tags: opt_texts(self.tags),
            summary: opt_text(self.summary),
            description: opt_text(self.description),
            external_docs: opt_json(self.external_docs),
            parameters: opt_parameters(self.parameters),
            request_body: opt_json(self.request_body),
            responses: responses_view(self.responses@),
            callbacks: opt_json(self.callbacks),
            deprecated: self.deprecated,
            security: opt_items(self.security),
            servers: opt_items(self.servers),
            vendor_extensions: entries_view(self.vendor_extensions@),
        }
    }
}

/// The models of a list of operations.
pub open spec fn operations_view(v: Seq<OpenApiOperation>) -> Seq<OperationView> {
    Seq::new(v.len(), |i: int| v[i]@)
}

/// The definitions of a list of parameters.
pub open spec fn parameters_to_json(v: Seq<ParameterView>) -> Seq<Json> {
    Seq::new(v.len(), |i: int| parameter_to_json(v[i]))
}

/// The definitions of the responses of an operation, as the members of an
/// object keyed by status code.
pub open spec fn responses_to_json(v: Seq<NamedResponse>) -> Seq<Member> {
    Seq::new(v.len(), |i: int| Member { key: v[i].status, value: response_to_json(v[i].response) })
}

/// The list of parameters as a document: an array of definitions, or `null`.
pub open spec fn json_of_opt_parameters(o: Option<Seq<ParameterView>>) -> Json {
    match o {
        Some(v) => Json::Array(parameters_to_json(v)),
        None => Json::Null,
    }
}

/// The list of tags as a document: an array of strings, or `null`.
pub open spec fn json_of_opt_texts(o: Option<Seq<Seq<char>>>) -> Json {
    match o {
        Some(v) => json_of_texts(v),
        None => Json::Null,
    }
}

/// The operation as a document: its members under the names of the OpenAPI
/// format, `null` for what is not given, then its extensions. The method is
/// no member of it: in a document it is the key under which the operation
/// stands.
pub open spec fn operation_to_json(op: OperationView) -> Json {
    Json::Object(
        seq![
            Member { key: "operationId"@, value: Json::String(op.id) },
            Member { key: "path"@, value: Json::String(op.path) },
            Member { key: "tags"@, value: json_of_opt_texts(op.tags) },
            Member { key: "summary"@, value: json_of_opt_text(op.summary) },
            Member { key: "description"@, value: json_of_opt_text(op.description) },
            Member { key: "externalDocs"@, value: json_of_opt(op.external_docs) },
            Member { key: "parameters"@, value: json_of_opt_parameters(op.parameters) },
            Member { key: "requestBody"@, value: json_of_opt(op.request_body) },
            Member { key: "responses"@, value: Json::Object(responses_to_json(op.responses)) },
            Member { key: "callbacks"@, value: json_of_opt(op.callbacks) },
            Member { key: "deprecated"@, value: json_of_opt_bool(op.deprecated) },
            Member { key: "security"@, value: json_of_opt_items(op.security) },
            Member { key: "servers"@, value: json_of_opt_items(op.servers) },
        ] + op.vendor_extensions,
    )
}

/// The definitions of a list of parameters, as an array.
pub fn parameters_json(params: &Vec<OpenApiParameter>) -> (r: JsonValue)
    ensures
        r@ == Json::Array(parameters_to_json(parameters_view(params@))),
{
    let mut out: Vec<JsonValue> = Vec::new();
    let mut i: usize = 0;
    while i < params.len()
        invariant
            i <= params.len(),
            out@.len() == i,
            forall|k: int| 0 <= k < i ==> out@[k]@ == parameter_to_json(params@[k]@),
        decreases params.len() - i,
    {
        out.push(params[i].to_json());
        i += 1;
    }
    let r = JsonValue::array(out);
    assert(r@->Array_0 =~= parameters_to_json(parameters_view(params@)));
    r
}

/// The definitions of the responses of an operation, as an object keyed by
/// status code.
pub fn responses_json(responses: &Vec<(String, OpenApiResponse)>) -> (r: JsonValue)
    ensures
        r@ == Json::Object(responses_to_json(responses_view(responses@))),
{
    let mut out: Vec<(String, JsonValue)> = Vec::new();
    let mut i: usize = 0;
    while i < responses.len()
        invariant
            i <= responses.len(),
            out@.len() == i,
            forall|k: int|
                0 <= k < i ==> out@[k].0@ == responses@[k].0@ && out@[k].1@ == response_to_json(
                    responses@[k].1@,
                ),
        decreases responses.len() - i,
    {
        out.push((responses[i].0.clone(), responses[i].1.to_json()));
        i += 1;
    }
    let r = JsonValue::object(out);
    assert(r@->Object_0 =~= responses_to_json(responses_view(responses@)));
    r
}

/// A copy of a list of parameters.
pub fn clone_parameters(params: &Vec<OpenApiParameter>) -> (r: Vec<OpenApiParameter>)
    ensures
        parameters_view(r@) == parameters_view(params@),
{
    let mut out: Vec<OpenApiParameter> = Vec::new();
    let mut i: usize = 0;
    while i < params.len()
        invariant
            i <= params.len(),
            out@.len() == i,
            forall|k: int| 0 <= k < i ==> out@[k]@ == params@[k]@,
        decreases params.len() - i,
    {
        out.push(params[i].duplicate());
        i += 1;
    }
    assert(parameters_view(out@) =~= parameters_view(params@));
    out
}

/// A copy of the responses of an operation.
pub fn clone_responses(responses: &Vec<(String, OpenApiResponse)>) -> (r: Vec<
    (String, OpenApiResponse),
>)
    ensures
        responses_view(r@) == responses_view(responses@),
{
    let mut out: Vec<(String, OpenApiResponse)> = Vec::new();
    let mut i: usize = 0;
    while i < responses.len()
        invariant
            i <= responses.len(),
            out@.len() == i,
            forall|k: int|
                0 <= k < i ==> out@[k].0@ == responses@[k].0@ && out@[k].1@ == responses@[k].1@,
        decreases responses.len() - i,
    {
        out.push((responses[i].0.clone(), responses[i].1.duplicate()));
        i += 1;
    }
    assert(responses_view(out@) =~= responses_view(responses@));
    out
}

impl OpenApiOperation {
    /// Writes the operation as a document.
    pub fn to_json(&self) -> (r: JsonValue)
        ensures
            r@ == operation_to_json(self@),
    {
        let mut entries: Vec<(String, JsonValue)> = Vec::new();
        entries.push(member("operationId", JsonValue::String(self.id.clone())));
        entries.push(member("path", JsonValue::String(self.path.clone())));
        let tags = match &self.tags {
            Some(t) => json_from_texts(t),
            None => JsonValue::Null,
        };
        entries.push(member("tags", tags));
        entries.push(member("summary", json_from_opt_text(&self.summary)));
        entries.push(member("description", json_from_opt_text(&self.description)));
        entries.push(member("externalDocs", json_from_opt(&self.external_docs)));
        let parameters = match &self.parameters {
            Some(p) => parameters_json(p),
            None => JsonValue::Null,
        };
        entries.push(member("parameters", parameters));
        entries.push(member("requestBody", json_from_opt(&self.request_body)));
        entries.push(member("responses", responses_json(&self.responses)));
        entries.push(member("callbacks", json_from_opt(&self.callbacks)));
        entries.push(member("deprecated", json_from_opt_bool(&self.deprecated)));
        entries.push(member("security", json_from_opt_items(&self.security)));
        entries.push(member("servers", json_from_opt_items(&self.servers)));
        append_entries(&mut entries, &self.vendor_extensions);
        let r = JsonValue::object(entries);
        assert(r@->Object_0 =~= operation_to_json(self@)->Object_0);
        r
    }

    /// A copy of the operation.
    pub fn duplicate(&self) -> (r: OpenApiOperation)
        ensures
            r@ == self@,
    {
        OpenApiOperation {
            id: self.id.clone(),
            path: self.path.clone(),
            method: self.method.clone(),
            tags: clone_opt_texts(&self.tags),
            summary: clone_opt_text(&self.summary),
            description: clone_opt_text(&self.description),
            external_docs: clone_opt_json(&self.external_docs),
            parameters: match &self.parameters {
                Some(p) => Some(clone_parameters(p)),
                None => None,
            },
            request_body: clone_opt_json(&self.request_body),
            responses: clone_responses(&self.responses),
            callbacks: clone_opt_json(&self.callbacks),
            deprecated: self.deprecated,
            security: clone_opt_items(&self.security),
            servers: clone_opt_items(&self.servers),
            vendor_extensions: clone_entries(&self.vendor_extensions),
        }
    }
}

/// What a template needs of one parameter, before a target type is chosen.
#[derive(Debug, PartialEq)]
pub struct OpenApiParameterInfo {
    pub name: String,
    pub description: Option<String>,
    pub example: Option<JsonValue>,
}

/// The model of an [`OpenApiParameterInfo`].
pub struct ParameterInfoView {
    pub name: Seq<char>,
    pub description: Option<Seq<char>>,
    pub example: Option<Json>,
}

impl View for OpenApiParameterInfo {
    type V = ParameterInfoView;

    open spec fn view(&self) -> ParameterInfoView {
        ParameterInfoView {
            name: self.name@,
            description: opt_text(self.description),
            example: opt_json(self.example),
        }
    }
}

/// What a template needs of one property of a schema.
#[derive(Debug, PartialEq)]
pub struct OpenApiPropertyInfo {
    pub name: String,
    pub title: Option<String>,
    pub description: Option<String>,
    pub example: Option<JsonValue>,
}

/// The model of an [`OpenApiPropertyInfo`].
pub struct PropertyInfoView {
    pub name: Seq<char>,
    pub title: Option<Seq<char>>,
    pub description: Option<Seq<char>>,
    pub example: Option<Json>,
}

impl View for OpenApiPropertyInfo {
    type V = PropertyInfoView;

    open spec fn view(&self) -> PropertyInfoView {
        PropertyInfoView {
            name: self.name@,
            title: opt_text(self.title),
            description: opt_text(self.description),
            example: opt_json(self.example),
        }
    }
}

} // verus!
