//! Reading the properties of response and request bodies.
//!
//! A schema gives its properties directly, or names a schema under
//! `#/components/schemas/` that gives them. Missing pieces on the way to the
//! schema give no properties; a reference that cannot be followed is an
//! error, because the output would misrepresent it.

use crate::error::{Error, ErrorView};
use crate::json::{entries_view, items_view, Json, JsonValue, lookup, Member, opt_text};
use crate::openapi::context::{OpenApiContext, path_parameters};
use crate::openapi::model::{
    OpenApiOperation, OpenApiParameterInfo, OpenApiPropertyInfo, OperationView, ParameterInfoView,
    ParameterView, PropertyInfoView,
};
use crate::text::{chars_skip, chars_start_with, concat, concat3, from_chars, to_chars};
use vstd::prelude::*;

verus! {

/// Where the schemas that a reference may name are kept.
pub open spec fn schema_prefix() -> Seq<char> {
    "#/components/schemas/"@
}

/// What a schema says of its properties without a reference being followed.
pub enum SchemaShape {
    /// The schema carries `properties` or `additionalProperties`; these are
    /// its properties, `null` where only the latter is given.
    Inline(Json),
    /// The schema is of a primitive type and has no properties.
    Primitive,
    /// The schema refers to another one, itself or through its `items`.
    Reference(Seq<char>),
    /// The schema says nothing of properties.
    Silent,
}

/// The reference of a schema: its `$ref`, or else the `$ref` of its `items`.
pub open spec fn schema_reference(schema: Seq<Member>) -> Option<Seq<char>> {
    match Json::Object(schema).get_str("$ref"@) {
        Some(r) => Some(r),
        None => match Json::Object(schema).get_object("items"@) {
            Some(items) => Json::Object(items).get_str("$ref"@),
            None => None,
        },
    }
}

/// The shape of a schema.
pub open spec fn schema_shape(schema: Seq<Member>) -> SchemaShape {
    if lookup(schema, "properties"@) is Some || lookup(schema, "additionalProperties"@) is Some {
        SchemaShape::Inline(
            match lookup(schema, "properties"@) {
                Some(p) => p,
                None => Json::Null,
            },
        )
    } else if Json::Object(schema).get_str("type"@) is Some && Json::Object(schema).get_str(
        "type"@,
    ) != Some("object"@) && Json::Object(schema).get_str("type"@) != Some("array"@) {
        SchemaShape::Primitive
    } else {
        match schema_reference(schema) {
            Some(r) => SchemaShape::Reference(r),
            None => SchemaShape::Silent,
        }
    }
}

/// The schemas that the document keeps under `components.schemas`.
pub open spec fn component_schemas(doc: Json) -> Option<Seq<Member>> {
    match doc.get_object("components"@) {
        Some(components) => Json::Object(components).get_object("schemas"@),
        None => None,
    }
}

/// The properties of a schema definition: its `properties`, or `null`.
pub open spec fn properties_of_definition(def: Json) -> Json {
    match def.get("properties"@) {
        Some(p) => p,
        None => Json::Null,
    }
}

/// The name that a reference into `#/components/schemas/` gives.
pub open spec fn referenced_name(reference: Seq<char>) -> Seq<char> {
    reference.skip(schema_prefix().len() as int)
}

/// What following a reference gives: the properties of the named schema, or
/// the reason why it cannot be followed.
pub open spec fn follow_reference(doc: Json, reference: Seq<char>) -> Result<Json, ErrorView> {
    if !schema_prefix().is_prefix_of(reference) {
        Err(ErrorView::OpenApi("Unexpected schema ref '"@ + reference + "'"@))
    } else {
        match component_schemas(doc) {
            None => Err(ErrorView::OpenApi("No components.schemas section"@)),
            Some(schemas) => match lookup(schemas, referenced_name(reference)) {
                None => Err(
                    ErrorView::OpenApi(
                        "Schema '"@ + referenced_name(reference) + "' not found"@,
                    ),
                ),
                Some(def) => Ok(properties_of_definition(def)),
            },
        }
    }
}

/// The properties found for a body, and the name of the schema that gave
/// them where a reference was followed.
pub struct FoundProperties {
    pub properties: Json,
    pub schema_name: Option<Seq<char>>,
}

/// The properties of a schema of any kind. Only a reference that cannot be
/// followed is an error.
pub open spec fn schema_properties(doc: Json, schema: Json) -> Result<FoundProperties, ErrorView> {
    match schema {
        Json::Object(members) => match schema_shape(members) {
            SchemaShape::Inline(p) => Ok(FoundProperties { properties: p, schema_name: None }),
            SchemaShape::Primitive => Ok(
                FoundProperties { properties: Json::Null, schema_name: None },
            ),
            SchemaShape::Silent => Ok(
                FoundProperties { properties: Json::Null, schema_name: None },
            ),
            SchemaShape::Reference(r) => match follow_reference(doc, r) {
                Ok(p) => Ok(
                    FoundProperties { properties: p, schema_name: Some(referenced_name(r)) },
                ),
                Err(e) => Err(e),
            },
        },
        _ => Ok(FoundProperties { properties: Json::Null, schema_name: None }),
    }
}

/// The JSON payload of the `200` response of the `get` operation of a path
/// item: the outer `Err` where the operation or the response is missing, the
/// inner `None` where the response has no JSON payload.
pub open spec fn ok_json_payload(path_item: Json, endpoint: Seq<char>) -> Result<
    Option<Seq<Member>>,
    ErrorView,
> {
    match path_item.get_object("get"@) {
        None => Err(
            ErrorView::OpenApi("No GET operation for endpoint '"@ + endpoint + "'"@),
        ),
        Some(get) => match Json::Object(get).get_object("responses"@) {
            None => Err(
                ErrorView::OpenApi("No 200 response for endpoint '"@ + endpoint + "'"@),
            ),
            Some(responses) => match Json::Object(responses).get_object("200"@) {
                None => Err(
                    ErrorView::OpenApi("No 200 response for endpoint '"@ + endpoint + "'"@),
                ),
                Some(response) => match Json::Object(response).get_object("content"@) {
                    None => Ok(None),
                    Some(content) => Ok(Json::Object(content).get_object("application/json"@)),
                },
            },
        },
    }
}

/// The properties of the `200` JSON response of the `get` operation of a
/// path item.
pub open spec fn response_properties(doc: Json, path_item: Json, endpoint: Seq<char>) -> Result<
    Json,
    ErrorView,
> {
    match ok_json_payload(path_item, endpoint) {
        Err(e) => Err(e),
        Ok(None) => Ok(Json::Null),
        Ok(Some(payload)) => match Json::Object(payload).get_object("schema"@) {
            None => Err(
                ErrorView::OpenApi("No schema in content for '"@ + endpoint + "'"@),
            ),
            Some(schema) => match schema_shape(schema) {
                SchemaShape::Inline(p) => Ok(p),
                SchemaShape::Primitive => Ok(Json::Null),
                SchemaShape::Silent => Err(
                    ErrorView::OpenApi("No $ref in schema for '"@ + endpoint + "'"@),
                ),
                SchemaShape::Reference(r) => follow_reference(doc, r),
            },
        },
    }
}

/// The properties of the JSON request body of an operation. An operation
/// without a request body has the empty object for properties.
pub open spec fn request_body_properties(doc: Json, op: OperationView) -> Result<
    FoundProperties,
    ErrorView,
> {
    match op.request_body {
        None => Ok(
            FoundProperties { properties: Json::Object(Seq::empty()), schema_name: None },
        ),
        Some(body) => match body.get_object("content"@) {
            None => Err(ErrorView::OpenApi("Request body has no content"@)),
            Some(content) => match Json::Object(content).get_object("application/json"@) {
                None => Err(
                    ErrorView::OpenApi("Request body has no application/json content"@),
                ),
                Some(payload) => match lookup(payload, "schema"@) {
                    None => Err(ErrorView::OpenApi("Request body content has no schema"@)),
                    Some(schema) => schema_properties(doc, schema),
                },
            },
        },
    }
}

/// The members that stand for the rows of a properties object: those under
/// `data.properties` where that is an object, else those of the object
/// itself.
pub open spec fn row_members(properties: Json) -> Seq<Member> {
    match properties.get_object("data"@) {
        Some(data) => match Json::Object(data).get_object("properties"@) {
            Some(rows) => rows,
            None => match properties.as_object() {
                Some(members) => members,
                None => Seq::empty(),
            },
        },
        None => match properties.as_object() {
            Some(members) => members,
            None => Seq::empty(),
        },
    }
}

/// One row: the name of a property and its schema.
pub open spec fn row_of(m: Member) -> Json {
    Json::Object(
        seq![
            Member { key: "name"@, value: Json::String(m.key) },
            Member { key: "schema"@, value: m.value },
        ],
    )
}

/// The rows of a properties object, in its order.
pub open spec fn rows_of(properties: Json) -> Seq<Json> {
    Seq::new(row_members(properties).len(), |i: int| row_of(row_members(properties)[i]))
}

/// What a template needs of the property that a member describes.
pub open spec fn property_info_of(m: Member) -> PropertyInfoView {
    PropertyInfoView {
        name: m.key,
        title: m.value.get_str("title"@),
        description: m.value.get_str("description"@),
        example: m.value.get("example"@),
    }
}

/// What a template needs of each property of a properties object.
pub open spec fn property_infos_of(properties: Json) -> Seq<PropertyInfoView> {
    Seq::new(
        row_members(properties).len(),
        |i: int| property_info_of(row_members(properties)[i]),
    )
}

/// What a template needs of a parameter.
pub open spec fn parameter_info_of(p: ParameterView) -> ParameterInfoView {
    ParameterInfoView { name: p.name, description: p.description, example: p.example }
}

/// What a template needs of each parameter of a path item.
pub open spec fn parameter_infos_of(doc: Json, path_item: Json) -> Seq<ParameterInfoView> {
    match path_parameters(doc, path_item) {
        Some(params) => Seq::new(params.len(), |i: int| parameter_info_of(params[i])),
        None => Seq::empty(),
    }
}

/// The models of a list of properties.
pub open spec fn property_infos_view(v: Seq<OpenApiPropertyInfo>) -> Seq<PropertyInfoView> {
    Seq::new(v.len(), |i: int| v[i]@)
}

/// The models of a list of parameters.
pub open spec fn parameter_infos_view(v: Seq<OpenApiParameterInfo>) -> Seq<ParameterInfoView> {
    Seq::new(v.len(), |i: int| v[i]@)
}

/// The model of a pair of properties and schema name.
pub open spec fn found_view(found: (JsonValue, Option<String>)) -> FoundProperties {
    FoundProperties { properties: found.0@, schema_name: opt_text(found.1) }
}

fn openapi_error(before: &str, middle: &str, after: &str) -> (r: Error)
    ensures
        r@ == ErrorView::OpenApi(before@ + middle@ + after@),
{
    Error::OpenApi(concat3(before, middle, after))
}

fn reference_of(schema: &Vec<(String, JsonValue)>) -> (r: Option<&str>)
    ensures
        match r {
            Some(s) => schema_reference(entries_view(schema@)) == Some(s@),
            None => schema_reference(entries_view(schema@)) is None,
        },
{
    match crate::json::entries_get(schema, "$ref") {
        Some(v) => match v.as_str() {
            Some(s) => {
                return Some(s);
            },
            None => {},
        },
        None => {},
    }
    match crate::json::entries_get(schema, "items") {
        Some(v) => match v.as_object() {
            Some(items) => match crate::json::entries_get(items, "$ref") {
                Some(r) => r.as_str(),
                None => None,
            },
            None => None,
        },
        None => None,
    }
}

/// The shape of a schema, as executable data.
enum Shape<'a> {
    Inline(JsonValue),
    Primitive,
    Reference(&'a str),
    Silent,
}

impl<'a> Shape<'a> {
    spec fn model(self) -> SchemaShape {
        match self {
            Shape::Inline(p) => SchemaShape::Inline(p@),
            Shape::Primitive => SchemaShape::Primitive,
            Shape::Reference(r) => SchemaShape::Reference(r@),
            Shape::Silent => SchemaShape::Silent,
        }
    }
}

fn shape_of<'a>(schema: &'a Vec<(String, JsonValue)>) -> (r: Shape<'a>)
    ensures
        r.model() == schema_shape(entries_view(schema@)),
{
    let props = crate::json::entries_get(schema, "properties");
    let additional = crate::json::entries_get(schema, "additionalProperties");
    if props.is_some() || additional.is_some() {
        return Shape::Inline(
            match props {
                Some(p) => p.clone(),
                None => JsonValue::Null,
            },
        );
    }
    match crate::json::entries_get(schema, "type") {
        Some(v) => match v.as_str() {
            Some(t) => {
                if !crate::text::str_eq(t, "object") && !crate::text::str_eq(t, "array") {
                    return Shape::Primitive;
                }
            },
            None => {},
        },
        None => {},
    }
    match reference_of(schema) {
        Some(r) => Shape::Reference(r),
        None => Shape::Silent,
    }
}

impl OpenApiContext {
    /// Follows a reference into `#/components/schemas/` and gives the
    /// properties of the schema it names, together with that name.
    pub fn resolve_schema_reference(&self, reference: &str) -> (r: Result<
        (JsonValue, String),
        Error,
    >)
        ensures
            match r {
                Ok(found) => follow_reference(self@, reference@) == Ok::<Json, ErrorView>(
                    found.0@,
                ) && found.1@ == referenced_name(reference@),
                Err(e) => follow_reference(self@, reference@) == Err::<Json, ErrorView>(e@),
            },
    {
        let v = to_chars(reference);
        let prefix = to_chars("#/components/schemas/");
        if !chars_start_with(&v, &prefix) {
            return Err(openapi_error("Unexpected schema ref '", reference, "'"));
        }
        let name_chars = chars_skip(&v, prefix.len());
        let name = from_chars(&name_chars);
        let schemas = match self.json.get_object("components") {
            Some(components) => match crate::json::entries_get(components, "schemas") {
                Some(s) => match s.as_object() {
                    Some(schemas) => schemas,
                    None => return Err(Error::openapi("No components.schemas section")),
                },
                None => return Err(Error::openapi("No components.schemas section")),
            },
            None => return Err(Error::openapi("No components.schemas section")),
        };
        match crate::json::entries_get(schemas, name.as_str()) {
            None => Err(openapi_error("Schema '", name.as_str(), "' not found")),
            Some(def) => {
                let props = match def.get("properties") {
                    Some(p) => p.clone(),
                    None => JsonValue::Null,
                };
                Ok((props, name))
            },
        }
    }

    /// The properties of the `200` JSON response of the `get` operation of a
    /// path item, for use in messages called `endpoint`.
    ///
    /// A response without JSON content has no properties. A missing
    /// operation, response or schema, and a reference that cannot be
    /// followed, are errors.
    pub fn extract_properties_json_value(&self, path_item: &JsonValue, endpoint: &str) -> (r:
        Result<(JsonValue, Option<String>), Error>)
        ensures
            match r {
                Ok(found) => response_properties(self@, path_item@, endpoint@) == Ok::<
                    Json,
                    ErrorView,
                >(found.0@) && found.1 is None,
                Err(e) => response_properties(self@, path_item@, endpoint@) == Err::<
                    Json,
                    ErrorView,
                >(e@),
            },
    {
        let get = match path_item.get_object("get") {
            Some(g) => g,
            None => return Err(openapi_error("No GET operation for endpoint '", endpoint, "'")),
        };
        let response = match crate::json::entries_get(get, "responses") {
            Some(v) => match v.as_object() {
                Some(responses) => match crate::json::entries_get(responses, "200") {
                    Some(ok) => match ok.as_object() {
                        Some(response) => response,
                        None => return Err(
                            openapi_error("No 200 response for endpoint '", endpoint, "'"),
                        ),
                    },
                    None => return Err(
                        openapi_error("No 200 response for endpoint '", endpoint, "'"),
                    ),
                },
                None => return Err(
                    openapi_error("No 200 response for endpoint '", endpoint, "'"),
                ),
            },
            None => return Err(openapi_error("No 200 response for endpoint '", endpoint, "'")),
        };
        let content = match crate::json::entries_get(response, "content") {
            Some(v) => match v.as_object() {
                Some(c) => c,
                None => return Ok((JsonValue::Null, None)),
            },
            None => return Ok((JsonValue::Null, None)),
        };
        let payload = match crate::json::entries_get(content, "application/json") {
            Some(v) => match v.as_object() {
                Some(p) => p,
                None => return Ok((JsonValue::Null, None)),
            },
            None => return Ok((JsonValue::Null, None)),
        };
        let schema = match crate::json::entries_get(payload, "schema") {
            Some(v) => match v.as_object() {
                Some(s) => s,
                None => return Err(openapi_error("No schema in content for '", endpoint, "'")),
            },
            None => return Err(openapi_error("No schema in content for '", endpoint, "'")),
        };
        match shape_of(schema) {
            Shape::Inline(p) => Ok((p, None)),
            Shape::Primitive => Ok((JsonValue::Null, None)),
            Shape::Silent => Err(openapi_error("No $ref in schema for '", endpoint, "'")),
            Shape::Reference(r) => match self.resolve_schema_reference(r) {
                Ok(found) => Ok((found.0, None)),
                Err(e) => Err(e),
            },
        }
    }

    /// The properties of a schema, and the name of the schema that gave them
    /// where a reference was followed. Only a reference that cannot be
    /// followed is an error.
    pub fn extract_schema_properties(&self, schema: &JsonValue) -> (r: Result<
        (JsonValue, Option<String>),
        Error,
    >)
        ensures
            match r {
                Ok(found) => schema_properties(self@, schema@) == Ok::<
                    FoundProperties,
                    ErrorView,
                >(found_view(found)),
                Err(e) => schema_properties(self@, schema@) == Err::<
                    FoundProperties,
                    ErrorView,
                >(e@),
            },
    {
        let members = match schema.as_object() {
            Some(m) => m,
            None => return Ok((JsonValue::Null, None)),
        };
        match shape_of(members) {
            Shape::Inline(p) => Ok((p, None)),
            Shape::Primitive => Ok((JsonValue::Null, None)),
            Shape::Silent => Ok((JsonValue::Null, None)),
            Shape::Reference(r) => match self.resolve_schema_reference(r) {
                Ok(found) => Ok((found.0, Some(found.1))),
                Err(e) => Err(e),
            },
        }
    }

    /// The properties of the JSON request body of an operation. An operation
    /// without a request body has the empty object for properties; a
    /// request body without JSON content or schema is an error.
    pub fn extract_request_body_properties(&self, operation: &OpenApiOperation) -> (r: Result<
        (JsonValue, Option<String>),
        Error,
    >)
        ensures
            match r {
                Ok(found) => request_body_properties(self@, operation@) == Ok::<
                    FoundProperties,
                    ErrorView,
                >(found_view(found)),
                Err(e) => request_body_properties(self@, operation@) == Err::<
                    FoundProperties,
                    ErrorView,
                >(e@),
            },
    {
        let body = match &operation.request_body {
            Some(b) => b,
            None => {
                let empty = JsonValue::object(Vec::new());
                assert(empty@->Object_0 =~= Seq::<Member>::empty());
                return Ok((empty, None));
            },
        };
        let content = match body.get_object("content") {
            Some(c) => c,
            None => return Err(Error::openapi("Request body has no content")),
        };
        let payload = match crate::json::entries_get(content, "application/json") {
            Some(v) => match v.as_object() {
                Some(p) => p,
                None => return Err(
                    Error::openapi("Request body has no application/json content"),
                ),
            },
            None => return Err(Error::openapi("Request body has no application/json content")),
        };
        let schema = match crate::json::entries_get(payload, "schema") {
            Some(s) => s,
            None => return Err(Error::openapi("Request body content has no schema")),
        };
        self.extract_schema_properties(schema)
    }

    fn rows<'a>(properties: &'a JsonValue) -> (r: Option<&'a Vec<(String, JsonValue)>>)
        ensures
            match r {
                Some(m) => row_members(properties@) == entries_view(m@),
                None => row_members(properties@) == Seq::<Member>::empty(),
            },
    {
        match properties.get_object("data") {
            Some(data) => match crate::json::entries_get(data, "properties") {
                Some(v) => match v.as_object() {
                    Some(rows) => {
                        return Some(rows);
                    },
                    None => {},
                },
                None => {},
            },
            None => {},
        }
        properties.as_object()
    }

    /// The rows of a properties object: for each property an object with its
    /// `name` and its `schema`.
    pub fn extract_row_properties(properties_json: &JsonValue) -> (r: Vec<JsonValue>)
        ensures
            items_view(r@) == rows_of(properties_json@),
    {
        let mut out: Vec<JsonValue> = Vec::new();
        match Self::rows(properties_json) {
            Some(members) => {
                let mut i: usize = 0;
                while i < members.len()
                    invariant
                        i <= members.len(),
                        out@.len() == i,
                        forall|k: int|
                            0 <= k < i ==> out@[k]@ == row_of(entries_view(members@)[k]),
                    decreases members.len() - i,
                {
                    let mut row: Vec<(String, JsonValue)> = Vec::new();
                    row.push(
                        crate::json::member("name", JsonValue::String(members[i].0.clone())),
                    );
                    row.push(crate::json::member("schema", members[i].1.clone()));
                    let value = JsonValue::object(row);
                    assert(value@->Object_0 =~= row_of(entries_view(members@)[i as int])->Object_0);
                    out.push(value);
                    i += 1;
                }
                assert(items_view(out@) =~= rows_of(properties_json@));
            },
            None => {
                assert(items_view(out@) =~= rows_of(properties_json@));
            },
        }
        out
    }

    /// What a template needs of each parameter of a path item.
    pub fn extract_parameter_info(&self, path_item: &JsonValue) -> (r: Vec<OpenApiParameterInfo>)
        ensures
            parameter_infos_view(r@) == parameter_infos_of(self@, path_item@),
    {
        let mut out: Vec<OpenApiParameterInfo> = Vec::new();
        match self.extract_parameters(path_item) {
            Some(params) => {
                let mut i: usize = 0;
                while i < params.len()
                    invariant
                        i <= params.len(),
                        out@.len() == i,
                        forall|k: int| 0 <= k < i ==> out@[k]@ == parameter_info_of(params@[k]@),
                    decreases params.len() - i,
                {
                    out.push(
                        OpenApiParameterInfo {
                            name: params[i].name.clone(),
                            description: crate::json::clone_opt_text(&params[i].description),
                            example: crate::json::clone_opt_json(&params[i].example),
                        },
                    );
                    i += 1;
                }
                assert(parameter_infos_view(out@) =~= parameter_infos_of(self@, path_item@));
            },
            None => {
                assert(parameter_infos_view(out@) =~= parameter_infos_of(self@, path_item@));
            },
        }
        out
    }

    /// What a template needs of each property of a properties object.
    pub fn extract_property_info(properties_json: &JsonValue) -> (r: Vec<OpenApiPropertyInfo>)
        ensures
            property_infos_view(r@) == property_infos_of(properties_json@),
    {
        let mut out: Vec<OpenApiPropertyInfo> = Vec::new();
        match Self::rows(properties_json) {
            Some(members) => {
                let mut i: usize = 0;
                while i < members.len()
                    invariant
                        i <= members.len(),
                        out@.len() == i,
                        forall|k: int|
                            0 <= k < i ==> out@[k]@ == property_info_of(
                                entries_view(members@)[k],
                            ),
                    decreases members.len() - i,
                {
                    let schema = &members[i].1;
                    let title = match schema.get_str("title") {
                        Some(s) => Some(crate::text::owned(s)),
                        None => None,
                    };
                    let description = match schema.get_str("description") {
                        Some(s) => Some(crate::text::owned(s)),
                        None => None,
                    };
                    let example = match schema.get("example") {
                        Some(v) => Some(v.clone()),
                        None => None,
                    };
                    out.push(
                        OpenApiPropertyInfo {
                            name: members[i].0.clone(),
                            title,
                            description,
                            example,
                        },
                    );
                    i += 1;
                }
                assert(property_infos_view(out@) =~= property_infos_of(properties_json@));
            },
            None => {
                assert(property_infos_view(out@) =~= property_infos_of(properties_json@));
            },
        }
        out
    }

    /// A schema that refers to the named schema of the document.
    pub fn build_response_schema(schema_name: &str) -> (r: JsonValue)
        ensures
            r@ == Json::Object(
                seq![Member { key: "$ref"@, value: Json::String(schema_prefix() + schema_name@) }],
            ),
    {
        let mut entries: Vec<(String, JsonValue)> = Vec::new();
        entries.push(
            crate::json::member(
                "$ref",
                JsonValue::String(concat("#/components/schemas/", schema_name)),
            ),
        );
        let r = JsonValue::object(entries);
        assert(r@->Object_0 =~= seq![
            Member { key: "$ref"@, value: Json::String(schema_prefix() + schema_name@) },
        ]);
        r
    }
}

} // verus!
