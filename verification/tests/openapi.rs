use agenterra_core::error::Error;
use agenterra_core::json::{JsonNumber, JsonValue};
use agenterra_core::openapi::context::OpenApiContext;
use agenterra_core::openapi::model::{OpenApiOperation, OpenApiParameter, OpenApiResponse};

fn from_serde(v: &serde_json::Value) -> JsonValue {
    match v {
        serde_json::Value::Null => JsonValue::Null,
        serde_json::Value::Bool(b) => JsonValue::Bool(*b),
        serde_json::Value::Number(n) => {
            if let Some(u) = n.as_u64() {
                JsonValue::Number(JsonNumber::PosInt(u))
            } else if let Some(i) = n.as_i64() {
                JsonValue::Number(JsonNumber::NegInt(i))
            } else {
                JsonValue::Number(JsonNumber::Float(n.to_string()))
            }
        }
        serde_json::Value::String(s) => JsonValue::String(s.clone()),
        serde_json::Value::Array(items) => JsonValue::Array(items.iter().map(from_serde).collect()),
        serde_json::Value::Object(map) => {
            JsonValue::Object(map.iter().map(|(k, v)| (k.clone(), from_serde(v))).collect())
        }
    }
}

fn to_serde(v: &JsonValue) -> serde_json::Value {
    match v {
        JsonValue::Null => serde_json::Value::Null,
        JsonValue::Bool(b) => serde_json::Value::Bool(*b),
        JsonValue::Number(JsonNumber::PosInt(u)) => serde_json::Value::from(*u),
        JsonValue::Number(JsonNumber::NegInt(i)) => serde_json::Value::from(*i),
        JsonValue::Number(JsonNumber::Float(text)) => {
            serde_json::Value::from(text.parse::<f64>().unwrap())
        }
        JsonValue::String(s) => serde_json::Value::String(s.clone()),
        JsonValue::Array(items) => serde_json::Value::Array(items.iter().map(to_serde).collect()),
        JsonValue::Object(entries) => serde_json::Value::Object(
            entries
                .iter()
                .map(|(k, v)| (k.clone(), to_serde(v)))
                .collect(),
        ),
    }
}

fn json(text: &str) -> JsonValue {
    from_serde(&serde_json::from_str(text).unwrap())
}

fn value(text: &str) -> serde_json::Value {
    serde_json::from_str(text).unwrap()
}

fn spec(text: &str) -> OpenApiContext {
    OpenApiContext::new(json(text))
}

fn names(rows: &[JsonValue]) -> Vec<String> {
    rows.iter()
        .filter_map(|r| r.get_str("name").map(String::from))
        .collect()
}

#[test]
fn test_extract_operation_metadata() {
    let path_item =
        json(r#"{"get": {"summary": "sum", "description": "desc", "tags": ["a","b"]}}"#);
    let (sum, desc, tags) = OpenApiContext::extract_operation_metadata(&path_item);
    assert_eq!(sum, "sum");
    assert_eq!(desc, "desc");
    assert_eq!(tags, vec!["a".to_string(), "b".to_string()]);
}

#[test]
fn test_extract_parameters_for_handler() {
    let spec = spec("{}");
    let path_item = json(r#"{"get": {"parameters": [{"name": "p", "in": "query"}]}}"#);
    let params = spec.extract_parameters_for_handler(&path_item);
    assert_eq!(params, vec![json(r#"{"name": "p", "in": "query"}"#)]);
}

#[test]
fn test_build_response_schema() {
    let schema = OpenApiContext::build_response_schema("X");
    assert_eq!(schema, json(r##"{"$ref": "#/components/schemas/X"}"##));
}

#[test]
fn test_extract_properties_json_value() {
    let spec = spec(
        r#"{
            "components": { "schemas": { "T": { "properties": { "a": {"type":"string"} } } } },
            "paths": {}
        }"#,
    );
    let path_item = json(
        r##"{"get": {"responses": {"200": {"content": {"application/json": {"schema": {"$ref": "#/components/schemas/T"}}}}}}}"##,
    );
    let (props, file) = spec
        .extract_properties_json_value(&path_item, "/x")
        .unwrap();
    assert_eq!(file, None);
    assert_eq!(props, json(r#"{"a": {"type":"string"}}"#));
}

#[test]
fn test_extract_row_properties() {
    let props = json(r#"{"data": {"properties": {"k": 1, "m": 2}}}"#);
    let rows = OpenApiContext::extract_row_properties(&props);
    assert_eq!(names(&rows), vec!["k", "m"]);
}

#[test]
fn test_extract_row_properties_direct() {
    let props = json(r#"{"x": {"type": "string"}, "y": {"type": "integer"}}"#);
    let rows = OpenApiContext::extract_row_properties(&props);
    let mut names = names(&rows);
    names.sort();
    assert_eq!(names, vec!["x", "y"]);
}

#[test]
fn test_sanitize_markdown_basic() {
    let raw = "Line one\n\nLine two";
    assert_eq!(OpenApiContext::sanitize_markdown(raw), "Line one Line two");
}

#[test]
fn test_sanitize_markdown_escape_and_unicode() {
    let raw = "\"hi\" {x} \u{201C}quote\u{201D} \u{2014} dash";
    let out = OpenApiContext::sanitize_markdown(raw);
    // Check escapes
    assert!(out.contains("\\\"hi\\\""));
    assert!(out.contains("&#123;x&#125;"));
    // Unicode replaced
    assert!(!out.contains("\u{201C}"));
    assert!(!out.contains("\u{2014}"));
}

#[test]
fn test_extract_operation_metadata_trims_and_sanitizes() {
    let path_item = json(
        r#"{"get": {"summary": " sum \n next", "description": " desc-\tline", "tags": ["t"]}}"#,
    );
    let (s, d, tags) = OpenApiContext::extract_operation_metadata(&path_item);
    assert_eq!(s, "sum next");
    assert_eq!(d, "desc- line");
    assert_eq!(tags, vec!["t".to_string()]);
}

#[test]
fn test_extract_parameters_ordering() {
    let spec = spec("{}");
    let path_item = json(
        r#"{"get": {"parameters": [
            {"name": "q", "in": "query"},
            {"name": "p", "in": "path"}
        ]}}"#,
    );
    let names: Vec<String> = spec
        .extract_parameters_for_handler(&path_item)
        .into_iter()
        .filter_map(|p| p.get_str("name").map(String::from))
        .collect();
    assert_eq!(names, vec!["p".to_string(), "q".to_string()]);
}

#[test]
fn test_handler_order_keeps_each_group_in_document_order() {
    let spec = spec("{}");
    let path_item = json(
        r#"{"get": {"parameters": [
            {"name": "a", "in": "query"},
            {"name": "b", "in": "path"},
            {"name": "c", "in": "header"},
            {"name": "d", "in": "path"},
            {"name": "e"}
        ]}}"#,
    );
    let got = names(&spec.extract_parameters_for_handler(&path_item));
    assert_eq!(got, vec!["b", "d", "a", "c", "e"]);
}

#[test]
fn test_title_version_and_server_url() {
    let spec = spec(
        r#"{
            "openapi": "3.0.0",
            "info": { "title": "Test API Async", "version": "2.0.0" },
            "servers": [ { "url": "https://api.example.com/v2" } ]
        }"#,
    );
    assert_eq!(spec.title(), Some("Test API Async"));
    assert_eq!(spec.version(), Some("2.0.0"));
    assert_eq!(
        spec.base_path(),
        Some("https://api.example.com/v2".to_string())
    );
}

#[test]
fn test_base_path_of_swagger_documents() {
    let with_https = spec(
        r#"{"host": "h.example", "basePath": "/v1", "schemes": ["http", "https"]}"#,
    );
    assert_eq!(
        with_https.base_path(),
        Some("https://h.example/v1".to_string())
    );
    let first_scheme = spec(r#"{"host": "h.example", "schemes": ["ws", "http"]}"#);
    assert_eq!(first_scheme.base_path(), Some("ws://h.example".to_string()));
    let no_schemes = spec(r#"{"host": "h.example", "basePath": "/x"}"#);
    assert_eq!(no_schemes.base_path(), Some("https://h.example/x".to_string()));
    let odd_schemes = spec(r#"{"host": "h.example", "schemes": [7]}"#);
    assert_eq!(odd_schemes.base_path(), Some("https://h.example".to_string()));
    let empty_servers = spec(r#"{"servers": [], "host": "h.example"}"#);
    assert_eq!(empty_servers.base_path(), Some("https://h.example".to_string()));
    let no_host = spec(r#"{"swagger": "2.0", "basePath": "/v1", "schemes": ["http"]}"#);
    assert_eq!(no_host.base_path(), Some("/v1".to_string()));
    let servers_first = spec(r#"{"servers": [{"url": "/s"}], "host": "h", "basePath": "/v1"}"#);
    assert_eq!(servers_first.base_path(), Some("/s".to_string()));
    let nothing = spec(r#"{"swagger": "2.0", "schemes": ["https"]}"#);
    assert_eq!(nothing.base_path(), None);
}

#[test]
fn test_parse_operations_single_get() {
    let spec = spec(r#"{"paths": { "/pets": { "get": { "operationId": "listPets" } } }}"#);
    let ops = spec.parse_operations().unwrap();
    assert_eq!(ops.len(), 1);
    assert_eq!(ops[0].id, "listPets");
    assert_eq!(ops[0].path, "/pets");
    assert_eq!(ops[0].method, "get");
    assert_eq!(ops[0].summary, None);
    assert_eq!(ops[0].parameters, None);
    assert!(ops[0].responses.is_empty());
}

#[test]
fn test_parse_operations_without_paths_is_an_error() {
    let spec = spec(r#"{"info": {"title": "x"}}"#);
    assert_eq!(
        spec.parse_operations(),
        Err(Error::OpenApi("Missing 'paths' object".to_string()))
    );
    let odd = OpenApiContext::new(json(r#"{"paths": []}"#));
    assert!(odd.parse_operations().is_err());
}

#[test]
fn test_parse_operations_defaults_and_fields() {
    let spec = spec(
        r##"{
            "components": {"parameters": {"Limit": {"name": "limit", "in": "query"}}},
            "paths": {
                "/pet/{petId}/photo": {
                    "parameters": [
                        {"name": "petId", "in": "path", "schema": {"type": "integer"}},
                        {"$ref": "#/components/parameters/Limit"},
                        {"$ref": "#/components/parameters/Missing"},
                        {"in": "query"}
                    ],
                    "post": {
                        "summary": "Upload",
                        "tags": ["pet", 3, "photo"],
                        "deprecated": true,
                        "x-internal": {"a": 1},
                        "requestBody": {"content": {}},
                        "security": [{"key": []}],
                        "responses": {
                            "200": {"description": "ok", "x-note": "n"},
                            "404": "not an object",
                            "500": {"description": 5}
                        }
                    },
                    "get": {},
                    "delete": {"operationId": "removePhoto"},
                    "summary": "not a method"
                }
            }
        }"##,
    );
    let ops = spec.parse_operations().unwrap();
    let ids: Vec<&str> = ops.iter().map(|o| o.id.as_str()).collect();
    assert_eq!(
        ids,
        vec!["get_pet_{petId}_photo", "post_pet_{petId}_photo", "removePhoto"]
    );
    let methods: Vec<&str> = ops.iter().map(|o| o.method.as_str()).collect();
    assert_eq!(methods, vec!["get", "post", "delete"]);
    let post = &ops[1];
    assert_eq!(post.path, "/pet/{petId}/photo");
    assert_eq!(post.summary, Some("Upload".to_string()));
    assert_eq!(
        post.tags,
        Some(vec!["pet".to_string(), "photo".to_string()])
    );
    assert_eq!(post.deprecated, Some(true));
    assert_eq!(post.request_body, Some(json(r#"{"content": {}}"#)));
    assert_eq!(post.security, Some(vec![json(r#"{"key": []}"#)]));
    assert_eq!(
        post.vendor_extensions,
        vec![("x-internal".to_string(), json(r#"{"a": 1}"#))]
    );
    let params = post.parameters.as_ref().unwrap();
    let param_names: Vec<&str> = params.iter().map(|p| p.name.as_str()).collect();
    assert_eq!(param_names, vec!["petId", "limit"]);
    assert_eq!(params[0].schema, Some(json(r#"{"type": "integer"}"#)));
    assert!(params[0].is_required());
    assert!(!params[1].is_required());
    let statuses: Vec<&str> = post.responses.iter().map(|r| r.0.as_str()).collect();
    assert_eq!(statuses, vec!["200"]);
    assert_eq!(post.responses[0].1.description, Some("ok".to_string()));
    assert_eq!(
        post.responses[0].1.vendor_extensions,
        vec![("x-note".to_string(), JsonValue::String("n".to_string()))]
    );
}

#[test]
fn test_parameter_from_json_and_back() {
    let definition = json(
        r#"{"name": "q", "in": "query", "required": true, "style": "form",
            "schema": {"type": "string"}, "x-a": 1, "other": null}"#,
    );
    let p = OpenApiParameter::from_json(&definition).unwrap();
    assert_eq!(p.name, "q");
    assert_eq!(p.in_, "query");
    assert_eq!(p.required, Some(true));
    assert_eq!(p.style, Some("form".to_string()));
    assert_eq!(p.description, None);
    assert_eq!(p.vendor_extensions.len(), 2);
    assert_eq!(
        to_serde(&p.to_json()),
        value(
            r#"{"name": "q", "in": "query", "description": null, "required": true,
                "deprecated": null, "allowEmptyValue": null, "style": "form",
                "explode": null, "allowReserved": null, "schema": {"type": "string"},
                "example": null, "examples": null, "content": null, "x-a": 1, "other": null}"#
        )
    );
    assert_eq!(p.duplicate(), p);
}

#[test]
fn test_parameter_from_json_refuses_wrong_shapes() {
    assert_eq!(OpenApiParameter::from_json(&json(r#"["name"]"#)), None);
    assert_eq!(OpenApiParameter::from_json(&json(r#"{"name": "a"}"#)), None);
    assert_eq!(
        OpenApiParameter::from_json(&json(r#"{"name": 1, "in": "path"}"#)),
        None
    );
    assert_eq!(
        OpenApiParameter::from_json(&json(r#"{"name": "a", "in": "path", "required": "yes"}"#)),
        None
    );
    assert_eq!(
        OpenApiParameter::from_json(&json(r#"{"name": "a", "in": "path", "content": []}"#)),
        None
    );
    assert!(OpenApiParameter::from_json(&json(
        r#"{"name": "a", "in": "path", "required": null, "content": null}"#
    ))
    .is_some());
}

#[test]
fn test_response_from_json_and_back() {
    let r = OpenApiResponse::from_json(&json(
        r#"{"description": "ok", "content": {"application/json": {}}, "x-k": true}"#,
    ))
    .unwrap();
    assert_eq!(r.description, Some("ok".to_string()));
    assert_eq!(r.headers, None);
    assert_eq!(
        to_serde(&r.to_json()),
        value(
            r#"{"description": "ok", "headers": null, "content": {"application/json": {}},
                "links": null, "x-k": true}"#
        )
    );
    assert_eq!(OpenApiResponse::from_json(&json(r#"{"headers": 1}"#)), None);
    assert_eq!(OpenApiResponse::from_json(&json(r#""text""#)), None);
}

#[test]
fn test_operation_to_json_uses_openapi_names() {
    let spec = spec(
        r#"{"paths": {"/a": {"get": {"operationId": "getA", "x-v": 2,
            "externalDocs": {"url": "u"}, "responses": {"200": {}}}}}}"#,
    );
    let ops: Vec<OpenApiOperation> = spec.parse_operations().unwrap();
    assert_eq!(
        to_serde(&ops[0].to_json()),
        value(
            r#"{"operationId": "getA", "path": "/a", "tags": null, "summary": null,
                "description": null, "externalDocs": {"url": "u"}, "parameters": null,
                "requestBody": null,
                "responses": {"200": {"description": null, "headers": null, "content": null,
                                      "links": null}},
                "callbacks": null, "deprecated": null, "security": null, "servers": null,
                "x-v": 2}"#
        )
    );
    assert_eq!(ops[0].duplicate(), ops[0]);
}

#[test]
fn test_extract_properties_json_value_outcomes() {
    let doc = spec(
        r#"{"components": {"schemas": {"T": {"properties": {"a": {"type": "string"}}},
                                        "Bare": {"type": "object"}}}}"#,
    );
    let item = |schema: &str| {
        json(&format!(
            r#"{{"get": {{"responses": {{"200": {{"content": {{"application/json": {{"schema": {}}}}}}}}}}}}}"#,
            schema
        ))
    };
    let ok = |schema: &str| doc.extract_properties_json_value(&item(schema), "/x").unwrap().0;
    let err = |schema: &str| doc.extract_properties_json_value(&item(schema), "/x").unwrap_err();

    assert_eq!(ok(r#"{"properties": {"p": 1}}"#), json(r#"{"p": 1}"#));
    assert_eq!(ok(r#"{"additionalProperties": true}"#), JsonValue::Null);
    assert_eq!(ok(r#"{"type": "string"}"#), JsonValue::Null);
    assert_eq!(
        ok(r##"{"type": "array", "items": {"$ref": "#/components/schemas/T"}}"##),
        json(r#"{"a": {"type": "string"}}"#)
    );
    assert_eq!(ok(r##"{"$ref": "#/components/schemas/Bare"}"##), JsonValue::Null);
    assert_eq!(
        err(r#"{"type": "object"}"#),
        Error::OpenApi("No $ref in schema for '/x'".to_string())
    );
    assert_eq!(
        err(r##"{"$ref": "#/definitions/T"}"##),
        Error::OpenApi("Unexpected schema ref '#/definitions/T'".to_string())
    );
    assert_eq!(
        err(r##"{"$ref": "#/components/schemas/U"}"##),
        Error::OpenApi("Schema 'U' not found".to_string())
    );
    assert_eq!(
        spec("{}")
            .extract_properties_json_value(
                &item(r##"{"$ref": "#/components/schemas/T"}"##),
                "/x"
            )
            .unwrap_err(),
        Error::OpenApi("No components.schemas section".to_string())
    );
    assert_eq!(
        doc.extract_properties_json_value(&json(r#"{"post": {}}"#), "/x")
            .unwrap_err(),
        Error::OpenApi("No GET operation for endpoint '/x'".to_string())
    );
    assert_eq!(
        doc.extract_properties_json_value(&json(r#"{"get": {"responses": {"201": {}}}}"#), "/x")
            .unwrap_err(),
        Error::OpenApi("No 200 response for endpoint '/x'".to_string())
    );
    assert_eq!(
        doc.extract_properties_json_value(&json(r#"{"get": {"responses": {"200": {}}}}"#), "/x")
            .unwrap(),
        (JsonValue::Null, None)
    );
    assert_eq!(
        doc.extract_properties_json_value(
            &json(r#"{"get": {"responses": {"200": {"content": {"text/plain": {}}}}}}"#),
            "/x"
        )
        .unwrap(),
        (JsonValue::Null, None)
    );
    assert_eq!(
        doc.extract_properties_json_value(
            &json(r#"{"get": {"responses": {"200": {"content": {"application/json": {}}}}}}"#),
            "/x"
        )
        .unwrap_err(),
        Error::OpenApi("No schema in content for '/x'".to_string())
    );
}

#[test]
fn test_extract_schema_properties_names_the_schema() {
    let doc = spec(r#"{"components": {"schemas": {"T": {"properties": {"a": {}}}}}}"#);
    assert_eq!(
        doc.extract_schema_properties(&json(r##"{"$ref": "#/components/schemas/T"}"##))
            .unwrap(),
        (json(r#"{"a": {}}"#), Some("T".to_string()))
    );
    assert_eq!(
        doc.extract_schema_properties(&json(r#"{"type": "object"}"#)).unwrap(),
        (JsonValue::Null, None)
    );
    assert_eq!(
        doc.extract_schema_properties(&json("12")).unwrap(),
        (JsonValue::Null, None)
    );
    assert_eq!(
        doc.extract_schema_properties(&json(r##"{"$ref": "elsewhere"}"##))
            .unwrap_err(),
        Error::OpenApi("Unexpected schema ref 'elsewhere'".to_string())
    );
}

#[test]
fn test_extract_request_body_properties() {
    let doc = spec(
        r##"{
            "components": {"schemas": {"NewPet": {"properties": {"name": {"type": "string"}}}}},
            "paths": {
                "/a": {"post": {"operationId": "a", "requestBody": {"content": {
                    "application/json": {"schema": {"$ref": "#/components/schemas/NewPet"}}}}}},
                "/b": {"post": {"operationId": "b"}},
                "/c": {"post": {"operationId": "c", "requestBody": {}}},
                "/d": {"post": {"operationId": "d", "requestBody": {"content": {"text/plain": {}}}}},
                "/e": {"post": {"operationId": "e", "requestBody": {"content": {"application/json": {}}}}}
            }
        }"##,
    );
    let ops = doc.parse_operations().unwrap();
    assert_eq!(
        doc.extract_request_body_properties(&ops[0]).unwrap(),
        (json(r#"{"name": {"type": "string"}}"#), Some("NewPet".to_string()))
    );
    assert_eq!(
        doc.extract_request_body_properties(&ops[1]).unwrap(),
        (json("{}"), None)
    );
    assert_eq!(
        doc.extract_request_body_properties(&ops[2]).unwrap_err(),
        Error::OpenApi("Request body has no content".to_string())
    );
    assert_eq!(
        doc.extract_request_body_properties(&ops[3]).unwrap_err(),
        Error::OpenApi("Request body has no application/json content".to_string())
    );
    assert_eq!(
        doc.extract_request_body_properties(&ops[4]).unwrap_err(),
        Error::OpenApi("Request body content has no schema".to_string())
    );
}

#[test]
fn test_extract_parameter_and_property_info() {
    let doc = spec("{}");
    let infos = doc.extract_parameter_info(&json(
        r#"{"parameters": [{"name": "p", "in": "path", "description": "d", "example": 3},
                           {"name": "bad"}]}"#,
    ));
    assert_eq!(infos.len(), 1);
    assert_eq!(infos[0].name, "p");
    assert_eq!(infos[0].description, Some("d".to_string()));
    assert_eq!(infos[0].example, Some(json("3")));
    assert!(doc.extract_parameter_info(&json("{}")).is_empty());

    let props = OpenApiContext::extract_property_info(&json(
        r#"{"a": {"title": "A", "example": null}, "b": 5}"#,
    ));
    assert_eq!(props.len(), 2);
    assert_eq!(props[0].name, "a");
    assert_eq!(props[0].title, Some("A".to_string()));
    assert_eq!(props[0].description, None);
    assert_eq!(props[0].example, Some(JsonValue::Null));
    assert_eq!(props[1].name, "b");
    assert_eq!(props[1].example, None);
    assert!(OpenApiContext::extract_property_info(&json("[1]")).is_empty());
}

#[test]
fn test_sanitize_filename_and_endpoint_name() {
    assert_eq!(OpenApiContext::sanitize_filename("a-b/c.d_e9"), "a_b_c_d_e9");
    assert_eq!(OpenApiContext::sanitize_filename("\u{e9}t\u{e9}"), "_t_");
    assert_eq!(OpenApiContext::sanitize_filename(""), "");
    assert_eq!(
        OpenApiContext::sanitize_endpoint_name("/pet/{petId}/photo-url"),
        "_pet_petId_photo_url"
    );
    assert_eq!(OpenApiContext::sanitize_endpoint_name("1abc"), "m_1abc");
    assert_eq!(OpenApiContext::sanitize_endpoint_name("{}"), "root");
    assert_eq!(OpenApiContext::sanitize_endpoint_name(""), "root");
    assert_eq!(OpenApiContext::sanitize_endpoint_name("\u{e9}.x"), "\u{e9}_x");
}

#[test]
fn test_sanitize_markdown_collapses_and_escapes() {
    assert_eq!(
        OpenApiContext::sanitize_markdown("  a \t  b  \r\n\r\n c - d  \n"),
        "a b c-d"
    );
    assert_eq!(OpenApiContext::sanitize_markdown("x- y -z"), "x-y-z");
    assert_eq!(OpenApiContext::sanitize_markdown("a\\b [c]"), "a\\\\b &#91;c&#93;");
    assert_eq!(
        OpenApiContext::sanitize_markdown("\u{2018}q\u{2019} \u{2014}"),
        "'q'-"
    );
    assert_eq!(OpenApiContext::sanitize_markdown(""), "");
    assert_eq!(OpenApiContext::sanitize_markdown("\n \n"), "");
}

#[test]
fn test_parse_content_prefers_json() {
    let a = json(r#"{"a": 1}"#);
    let b = json(r#"{"b": 2}"#);
    assert_eq!(
        OpenApiContext::parse_content(Some(json(r#"{"a": 1}"#)), Some(json(r#"{"b": 2}"#)))
            .unwrap()
            .json,
        a
    );
    assert_eq!(
        OpenApiContext::parse_content(None, Some(json(r#"{"b": 2}"#)))
            .unwrap()
            .json,
        b
    );
    assert_eq!(
        OpenApiContext::parse_content(None, None),
        Err("content is neither valid JSON nor YAML".to_string())
    );
    assert!(OpenApiContext::is_url("https://example.com/openapi.json"));
    assert!(OpenApiContext::is_url("http://example.com"));
    assert!(!OpenApiContext::is_url("ftp://example.com"));
    assert!(!OpenApiContext::is_url("specs/https://x"));
}

#[test]
fn test_from_file() {
    let json_content = r#"
        {
            "openapi": "3.0.0",
            "info": {
                "title": "Test API Async",
                "version": "2.0.0"
            },
            "servers": [
                {
                    "url": "https://api.example.com/v2"
                }
            ]
        }
        "#;
    let parsed = OpenApiContext::parse_content(Some(json(json_content)), None).unwrap();
    assert_eq!(parsed.title(), Some("Test API Async"));
    assert_eq!(parsed.version(), Some("2.0.0"));
    assert_eq!(
        parsed.base_path(),
        Some("https://api.example.com/v2".to_string())
    );
}

#[test]
fn test_maps_of_operations_hold_each_key_once() {
    let spec = spec(
        r##"{
            "components": {"parameters": {"Limit": {
                "name": "limit", "in": "query", "x-a": 1, "x-b": 2,
                "examples": {"one": {}, "two": {}}}}},
            "paths": {"/pets": {
                "parameters": [{"$ref": "#/components/parameters/Limit"}],
                "get": {
                    "x-one": 1, "x-two": 2,
                    "responses": {
                        "200": {"headers": {"A": {}, "B": {}}, "x-r": true},
                        "404": {"description": "none"},
                        "500": "not a response"
                    }
                }
            }}
        }"##,
    );
    let ops = spec.parse_operations().unwrap();
    assert_eq!(ops.len(), 1);
    let distinct = |keys: Vec<&str>| {
        let set: std::collections::HashSet<&str> = keys.iter().copied().collect();
        set.len() == keys.len()
    };
    let statuses: Vec<&str> = ops[0].responses.iter().map(|r| r.0.as_str()).collect();
    assert_eq!(statuses, vec!["200", "404"]);
    assert!(distinct(statuses));
    assert!(distinct(
        ops[0].vendor_extensions.iter().map(|e| e.0.as_str()).collect()
    ));
    assert_eq!(ops[0].vendor_extensions.len(), 2);
    let headers = ops[0].responses[0].1.headers.as_ref().unwrap();
    assert!(distinct(headers.iter().map(|e| e.0.as_str()).collect()));
    let limit = &ops[0].parameters.as_ref().unwrap()[0];
    assert!(distinct(
        limit.vendor_extensions.iter().map(|e| e.0.as_str()).collect()
    ));
    assert!(distinct(
        limit.examples.as_ref().unwrap().iter().map(|e| e.0.as_str()).collect()
    ));
}
