use agenterra_core::builders::rust::{
    map_openapi_schema_to_rust_type, RustEndpointContext, RustEndpointContextBuilder,
};
use agenterra_core::builders::{EndpointContext, EndpointContextBuilder};
use agenterra_core::config::Config;
use agenterra_core::error::Error;
use agenterra_core::json::{JsonNumber, JsonValue};
use agenterra_core::manifest::{TemplateFile, TemplateHooks, TemplateManifest};
use agenterra_core::openapi::context::OpenApiContext;
use agenterra_core::templates::context::{merge_contexts, resolve_base_url};
use agenterra_core::templates::dereference::{dereference, strip_nulls, MAX_REFERENCE_DEPTH};
use agenterra_core::templates::dir::TemplateDir;
use agenterra_core::templates::kind::TemplateKind;
use agenterra_core::templates::manager::{ManifestSource, TemplateManager};
use agenterra_core::templates::operation::{
    destination_path, sanitize_description, sanitize_operation_name, sanitize_summary,
    sanitize_tag,
};
use agenterra_core::templates::options::TemplateOptions;
use agenterra_core::templates::plan::GenerationStep;
use agenterra_core::templates::types::ParameterKind;

fn from_serde(v: &serde_json::Value) -> JsonValue {
    match v {
        serde_json::Value::Null => JsonValue::Null,
        serde_json::Value::Bool(b) => JsonValue::Bool(*b),
        serde_json::Value::Number(n) => {
            if let Some(u) = n.as_u64() {
                JsonValue::Number(JsonNumber::PosInt(u))
            } else if let Some(i) = n.as_i64() {
                JsonValue::Number(JsonNumber::NegInt(i))
            } else {
                JsonValue::Number(JsonNumber::Float(n.to_string()))
            }
        }
        serde_json::Value::String(s) => JsonValue::String(s.clone()),
        serde_json::Value::Array(items) => JsonValue::Array(items.iter().map(from_serde).collect()),
        serde_json::Value::Object(map) => {
            JsonValue::Object(map.iter().map(|(k, v)| (k.clone(), from_serde(v))).collect())
        }
    }
}

fn to_serde(v: &JsonValue) -> serde_json::Value {
    match v {
        JsonValue::Null => serde_json::Value::Null,
        JsonValue::Bool(b) => serde_json::Value::Bool(*b),
        JsonValue::Number(JsonNumber::PosInt(u)) => serde_json::Value::from(*u),
        JsonValue::Number(JsonNumber::NegInt(i)) => serde_json::Value::from(*i),
        JsonValue::Number(JsonNumber::Float(text)) => {
            serde_json::Value::from(text.parse::<f64>().unwrap())
        }
        JsonValue::String(s) => serde_json::Value::String(s.clone()),
        JsonValue::Array(items) => serde_json::Value::Array(items.iter().map(to_serde).collect()),
        JsonValue::Object(entries) => serde_json::Value::Object(
            entries
                .iter()
                .map(|(k, v)| (k.clone(), to_serde(v)))
                .collect(),
        ),
    }
}

fn json(text: &str) -> JsonValue {
    from_serde(&serde_json::from_str(text).unwrap())
}

fn value(text: &str) -> serde_json::Value {
    serde_json::from_str(text).unwrap()
}

fn spec(text: &str) -> OpenApiContext {
    OpenApiContext::new(json(text))
}

const PETSTORE: &str = r##"{
    "openapi": "3.0.0",
    "info": { "title": "Pet Store", "version": "1.2.3" },
    "servers": [ { "url": "https://api.example.com/v2" } ],
    "components": { "schemas": {
        "Pet": { "properties": { "id": {"type": "integer"}, "tag": {"$ref": "#/components/schemas/Tag"} } },
        "Tag": { "properties": { "label": {"type": "string", "title": "Label"} } },
        "NewPet": { "properties": { "name": {"type": "string", "description": "The name"} } }
    } },
    "paths": {
        "/pets": {
            "parameters": [
                {"name": "limit", "in": "query", "schema": {"type": "integer"}},
                {"name": "X-Trace", "in": "header", "x-secret": true, "style": "simple"}
            ],
            "get": {
                "operationId": "listPets",
                "summary": "List  pets!\n",
                "description": "All pets, sorted. (v2)",
                "tags": [" pets\n"],
                "responses": { "200": { "content": { "application/json": {
                    "schema": { "$ref": "#/components/schemas/Pet" } } } } }
            },
            "post": {
                "operationId": "createPet",
                "requestBody": { "content": { "application/json": {
                    "schema": { "$ref": "#/components/schemas/NewPet" } } } },
                "responses": { "200": { "description": "created" } }
            }
        }
    }
}"##;

fn manager(files: Vec<TemplateFile>, post_generate: Vec<String>) -> TemplateManager {
    let manifest = TemplateManifest {
        name: "test".to_string(),
        description: "Test template".to_string(),
        version: "0.1.0".to_string(),
        language: "rust".to_string(),
        files,
        hooks: TemplateHooks { pre_generate: vec![], post_generate },
    };
    let dir = TemplateDir::new(
        "templates".to_string(),
        "templates/rust_axum".to_string(),
        TemplateKind::RustAxum,
    );
    TemplateManager::new(
        dir,
        manifest,
        vec!["handler.rs.tera".to_string(), "mod.rs.tera".to_string()],
    )
}

fn file(source: &str, destination: &str, for_each: Option<&str>, context: &str) -> TemplateFile {
    TemplateFile {
        source: source.to_string(),
        destination: destination.to_string(),
        for_each: for_each.map(String::from),
        context: json(context),
    }
}

#[test]
fn test_rust_type_mapping() {
    let of = |schema: &str| map_openapi_schema_to_rust_type(Some(&json(schema)));
    assert_eq!(of(r#"{"type": "string"}"#), "String");
    assert_eq!(of(r#"{"type": "integer"}"#), "i32");
    assert_eq!(of(r#"{"type": "boolean"}"#), "bool");
    assert_eq!(of(r#"{"type": "number"}"#), "f64");
    assert_eq!(of(r#"{"type": "array"}"#), "array");
    assert_eq!(of(r#"{"format": "int64"}"#), "String");
    assert_eq!(of(r#"{"type": 3}"#), "String");
    assert_eq!(map_openapi_schema_to_rust_type(None), "String");
}

#[test]
fn test_parameter_kind_defaults_to_query() {
    assert_eq!(ParameterKind::from_location("path"), ParameterKind::Path);
    assert_eq!(ParameterKind::from_location("query"), ParameterKind::Query);
    assert_eq!(ParameterKind::from_location("header"), ParameterKind::Header);
    assert_eq!(ParameterKind::from_location("cookie"), ParameterKind::Cookie);
    assert_eq!(ParameterKind::from_location("body"), ParameterKind::Query);
    assert_eq!(ParameterKind::from_location(""), ParameterKind::Query);
    assert_eq!(ParameterKind::Cookie.as_str(), "cookie");
}

#[test]
fn test_response_properties_follow_the_reference() {
    let doc = spec(
        r##"{
            "components": {"schemas": {"T": {"properties": {"a": {"type": "string"}}}}},
            "paths": {"/x": {"get": {"operationId": "getX", "responses": {"200": {"content": {
                "application/json": {"schema": {"$ref": "#/components/schemas/T"}}}}}}}}
        }"##,
    );
    let ops = doc.parse_operations().unwrap();
    let context = RustEndpointContext::from_operation(&doc, &ops[0]).unwrap();
    assert_eq!(context.properties.len(), 1);
    assert_eq!(context.properties[0].name, "a");
    assert_eq!(context.properties[0].rust_type, "String");
    assert_eq!(context.properties_for_handler, vec!["a".to_string()]);
    assert_eq!(context.valid_fields, vec!["a".to_string()]);
    assert_eq!(context.envelope_properties, json(r#"{"a": {"type": "string"}}"#));
    assert_eq!(
        context.response_schema,
        json(r##"{"$ref": "#/components/schemas/T"}"##)
    );
}

#[test]
fn test_rust_endpoint_context_names_and_lists() {
    let doc = spec(PETSTORE);
    let ops = doc.parse_operations().unwrap();
    let c = RustEndpointContext::from_operation(&doc, &ops[0]).unwrap();
    assert_eq!(c.endpoint, "list_pets");
    assert_eq!(c.endpoint_fs, "list_pets");
    assert_eq!(c.fn_name, "list_pets");
    assert_eq!(c.endpoint_cap, "ListPets");
    assert_eq!(c.parameters_type, "ListPetsParams");
    assert_eq!(c.properties_type, "ListPetsProperties");
    assert_eq!(c.response_type, "ListPetsResponse");
    assert_eq!(c.path, "/pets");
    assert_eq!(c.summary, "List  pets!\n");
    assert_eq!(c.tags, vec![" pets\n".to_string()]);
    assert_eq!(c.spec_file_name, None);
    let property_names: Vec<&str> = c.properties.iter().map(|p| p.name.as_str()).collect();
    assert_eq!(property_names, vec!["id", "tag"]);
    assert_eq!(c.properties_for_handler, vec!["id", "tag"]);
    assert_eq!(c.properties[0].rust_type, "i32");
    assert_eq!(c.properties[1].rust_type, "String");
    let params: Vec<(&str, &str, ParameterKind)> = c
        .parameters
        .iter()
        .map(|p| (p.name.as_str(), p.target_type.as_str(), p.kind))
        .collect();
    assert_eq!(
        params,
        vec![
            ("limit", "i32", ParameterKind::Query),
            ("X-Trace", "String", ParameterKind::Header)
        ]
    );
    let built = RustEndpointContextBuilder.build(&doc, &ops[0]).unwrap();
    assert_eq!(built, c.to_json());
    assert_eq!(built.get_str("endpoint"), Some("list_pets"));
    assert_eq!(
        to_serde(built.get("parameters").unwrap()),
        value(
            r#"[{"name": "limit", "target_type": "i32", "description": null, "example": null,
                 "kind": "query"},
                {"name": "X-Trace", "target_type": "String", "description": null,
                 "example": null, "kind": "header"}]"#
        )
    );
}

#[test]
fn test_builder_fails_on_a_reference_that_cannot_be_followed() {
    let doc = spec(
        r##"{"paths": {"/x": {"get": {"responses": {"200": {"content": {
            "application/json": {"schema": {"$ref": "#/components/schemas/Gone"}}}}}}}}}"##,
    );
    let ops = doc.parse_operations().unwrap();
    assert_eq!(
        RustEndpointContextBuilder.build(&doc, &ops[0]).unwrap_err(),
        Error::OpenApi("No components.schemas section".to_string())
    );
    assert_eq!(
        EndpointContext::transform_endpoints(TemplateKind::RustAxum, &doc, &ops).unwrap_err(),
        Error::OpenApi("No components.schemas section".to_string())
    );
}

#[test]
fn test_transform_endpoints_sorts_by_endpoint_name() {
    let doc = spec(
        r#"{"paths": {
            "/z": {"get": {"operationId": "zebra"}},
            "/a": {"get": {"operationId": "Apple"}, "post": {"operationId": "mango"}},
            "/b": {"get": {"operationId": "apple"}}
        }}"#,
    );
    assert!(EndpointContext::supports(TemplateKind::RustAxum));
    assert!(!EndpointContext::supports(TemplateKind::Custom));
    let ops = doc.parse_operations().unwrap();
    let contexts =
        EndpointContext::transform_endpoints(TemplateKind::RustAxum, &doc, &ops).unwrap();
    let listed: Vec<(&str, &str)> = contexts
        .iter()
        .map(|c| (c.get_str("endpoint").unwrap(), c.get_str("path").unwrap()))
        .collect();
    assert_eq!(
        listed,
        vec![("apple", "/a"), ("apple", "/b"), ("mango", "/a"), ("zebra", "/z")]
    );
}

#[test]
fn test_resolve_base_url() {
    assert_eq!(
        resolve_base_url(Some("https://api.example.com/v2"), None),
        Ok("https://api.example.com/v2".to_string())
    );
    assert_eq!(
        resolve_base_url(Some("http://h/x"), Some("https://other/")),
        Ok("http://h/x".to_string())
    );
    assert_eq!(
        resolve_base_url(Some("/api/v1"), Some("https://api.example.com//")),
        Ok("https://api.example.com/api/v1".to_string())
    );
    assert_eq!(
        resolve_base_url(Some("/api/v1"), None),
        Err(Error::Config(
            "OpenAPI spec contains a relative server URL '/api/v1', but no --base-url was provided. Please provide a base URL (e.g., --base-url https://api.example.com)"
                .to_string()
        ))
    );
    assert_eq!(
        resolve_base_url(Some("api.example.com"), Some("https://b")),
        Err(Error::Config(
            "Invalid server URL format in OpenAPI spec: 'api.example.com'. URL must be either a fully qualified URL (https://api.example.com/v1) or a relative path (/api/v1)"
                .to_string()
        ))
    );
    assert_eq!(
        resolve_base_url(None, Some("https://b")),
        Err(Error::Config(
            "No server URL found in OpenAPI spec. Please define at least one server in the 'servers' section (OpenAPI 3.0+) or 'host' field (Swagger 2.0) of your OpenAPI specification"
                .to_string()
        ))
    );
}

#[test]
fn test_absolute_server_url_needs_no_base_url() {
    let doc = spec(PETSTORE);
    let m = manager(vec![file("mod.rs.tera", "src/mod.rs", None, "null")], vec![]);
    let config = Config::new("p", "openapi.json", "out");
    let steps = m.generate(&doc, &config, None).unwrap();
    match &steps[0] {
        GenerationStep::Render { context, .. } => {
            assert_eq!(context.get_str("base_api_url"), Some("https://api.example.com/v2"));
        }
        other => panic!("unexpected step {:?}", other),
    }
}

#[test]
fn test_swagger_document_without_base_url_is_a_configuration_error() {
    let doc = spec(r#"{"swagger": "2.0", "basePath": "/v1", "servers": [{"url": "/v1"}], "paths": {}}"#);
    let m = manager(vec![], vec![]);
    let config = Config::new("p", "swagger.json", "out");
    let err = m.generate(&doc, &config, None).unwrap_err();
    match &err {
        Error::Config(message) => {
            assert!(message.contains("no --base-url was provided"));
            assert!(message.contains("'/v1'"));
        }
        other => panic!("unexpected error {:?}", other),
    }
    assert!(err.to_string().starts_with("Configuration error: "));

    let no_host = spec(r#"{"swagger": "2.0", "basePath": "/v2", "paths": {}}"#);
    match m.generate(&no_host, &config, None).unwrap_err() {
        Error::Config(message) => assert_eq!(
            message,
            "OpenAPI spec contains a relative server URL '/v2', but no --base-url was provided. \
             Please provide a base URL (e.g., --base-url https://api.example.com)"
        ),
        other => panic!("unexpected error {:?}", other),
    }
    let no_server = spec(r#"{"swagger": "2.0", "paths": {}}"#);
    match m.generate(&no_server, &config, None).unwrap_err() {
        Error::Config(message) => assert!(message.starts_with("No server URL found")),
        other => panic!("unexpected error {:?}", other),
    }
    let odd = spec(r#"{"swagger": "2.0", "basePath": "v2", "paths": {}}"#);
    match m.generate(&odd, &config, None).unwrap_err() {
        Error::Config(message) => assert!(message.starts_with("Invalid server URL format")),
        other => panic!("unexpected error {:?}", other),
    }

    let mut with_base = Config::new("p", "swagger.json", "out");
    assert!(with_base.set_base_url("https://api.example.com"));
    assert_eq!(with_base.base_url, Some("https://api.example.com/".to_string()));
    assert!(!with_base.set_base_url("not a url"));
    assert_eq!(with_base.base_url, Some("https://api.example.com/".to_string()));
    let steps = manager(vec![file("mod.rs.tera", "m.rs", None, "{}")], vec![])
        .generate(&doc, &with_base, None)
        .unwrap();
    match &steps[0] {
        GenerationStep::Render { context, .. } => {
            assert_eq!(
                context.get_str("base_api_url"),
                Some("https://api.example.com/v1")
            );
        }
        other => panic!("unexpected step {:?}", other),
    }
}

#[test]
fn test_generate_plans_files_dumps_and_hooks() {
    let doc = spec(PETSTORE);
    let m = manager(
        vec![
            file(
                "handler.rs.tera",
                "src/handlers/{{endpoint}}.rs",
                Some("endpoint"),
                r#"{"ignored": true}"#,
            ),
            file(
                "mod.rs.tera",
                "src/handlers/mod.rs",
                None,
                r#"{"server_port": 9, "extra": "e"}"#,
            ),
        ],
        vec!["cargo fmt".to_string(), "cargo check".to_string()],
    );
    let config = Config::new("p", "openapi.json", "out");
    let options = TemplateOptions {
        server_port: Some(3000),
        log_file: Some("server".to_string()),
        ..Default::default()
    };
    let steps = m.generate(&doc, &config, Some(options)).unwrap();
    assert_eq!(steps.len(), 7);

    // The two operations, in the order of the document: dump, then file.
    match &steps[0] {
        GenerationStep::WriteSchema { destination, schema } => {
            assert_eq!(destination, "schemas/list_pets.json");
            let dumped = to_serde(schema);
            assert_eq!(dumped["operationId"], "listPets");
            assert_eq!(
                dumped["responses"]["200"]["content"]["application/json"]["schema"],
                value(
                    r#"{"properties": {"id": {"type": "integer"},
                        "tag": {"properties": {"label": {"type": "string", "title": "Label"}}}}}"#
                )
            );
            assert!(!serde_json::to_string(&dumped).unwrap().contains("$ref"));
            assert!(dumped.get("requestBody").is_none());
            assert!(dumped.get("callbacks").is_none());
            assert_eq!(dumped["responses"]["200"]["description"], serde_json::Value::Null);
        }
        other => panic!("unexpected step {:?}", other),
    }
    match &steps[1] {
        GenerationStep::Render { template, destination, context } => {
            assert_eq!(template, "handler.rs.tera");
            assert_eq!(destination, "src/handlers/list_pets.rs");
            let c = to_serde(context);
            assert_eq!(c["operation_id"], "listPets");
            assert_eq!(c["endpoint"], "list_pets");
            assert_eq!(c["fn_name"], "list_pets");
            assert_eq!(c["method"], "get");
            assert_eq!(c["path"], "/pets");
            assert_eq!(c["summary"], "List  pets");
            assert_eq!(c["description"], "All pets, sorted. v2");
            assert_eq!(c["deprecated"], serde_json::Value::Null);
            assert_eq!(c["tags"], value(r#"["pets"]"#));
            assert_eq!(c["has_request_body"], false);
            assert!(c.get("request_body").is_none());
            assert!(c.get("security").is_none());
            assert!(c.get("ignored").is_none());
            assert_eq!(c["sanitized_operation_name"], "listPets");
            assert_eq!(c["sanitized_filename"], "list_pets");
            assert_eq!(c["server_port"], 3000);
            assert_eq!(c["log_file"], "server");
            // The endpoint context goes over the base context, key by key.
            assert_eq!(c["spec_file_name"], serde_json::Value::Null);
            assert_eq!(c["project_name"], "pet_store");
            assert_eq!(c["project_title"], "Pet Store");
            assert_eq!(c["api_version"], "1.2.3");
            assert_eq!(c["agent_instructions"], "");
            assert_eq!(c["base_api_url"], "https://api.example.com/v2");
            assert_eq!(c["spec"]["info"]["title"], "Pet Store");
            assert_eq!(c["parameters"][0]["name"], "limit");
            assert_eq!(c["parameters"][0]["allowEmptyValue"], serde_json::Value::Null);
            assert_eq!(
                c["parameter_info"],
                value(
                    r#"[{"name": "limit", "in": "query", "required": false,
                         "schema": {"type": "integer"}},
                        {"name": "X-Trace", "in": "header", "required": false,
                         "style": "simple", "x-secret": true}]"#
                )
            );
            assert_eq!(c["responses"]["200"]["links"], serde_json::Value::Null);
        }
        other => panic!("unexpected step {:?}", other),
    }
    match &steps[2] {
        GenerationStep::WriteSchema { destination, schema } => {
            assert_eq!(destination, "schemas/create_pet.json");
            assert_eq!(
                to_serde(schema)["requestBody"]["content"]["application/json"]["schema"],
                value(r#"{"properties": {"name": {"type": "string", "description": "The name"}}}"#)
            );
        }
        other => panic!("unexpected step {:?}", other),
    }
    match &steps[3] {
        GenerationStep::Render { destination, context, .. } => {
            assert_eq!(destination, "src/handlers/create_pet.rs");
            let c = to_serde(context);
            assert_eq!(c["has_request_body"], true);
            assert_eq!(
                c["request_properties"],
                value(
                    r#"[{"name": "name", "title": null, "description": "The name",
                         "example": null}]"#
                )
            );
            assert_eq!(c["summary"], serde_json::Value::Null);
        }
        other => panic!("unexpected step {:?}", other),
    }

    // The single file: the full, sorted list of endpoints; entry values win.
    match &steps[4] {
        GenerationStep::Render { template, destination, context } => {
            assert_eq!(template, "mod.rs.tera");
            assert_eq!(destination, "src/handlers/mod.rs");
            let c = to_serde(context);
            assert_eq!(c["server_port"], 9);
            assert_eq!(c["extra"], "e");
            assert_eq!(c["spec_file_name"], "openapi.json");
            assert_eq!(c["log_file"], "server");
            let endpoints: Vec<&str> = c["endpoints"]
                .as_array()
                .unwrap()
                .iter()
                .map(|e| e["endpoint"].as_str().unwrap())
                .collect();
            assert_eq!(endpoints, vec!["create_pet", "list_pets"]);
        }
        other => panic!("unexpected step {:?}", other),
    }
    assert_eq!(
        steps[5],
        GenerationStep::RunHook { command: "cargo fmt".to_string() }
    );
    assert_eq!(
        steps[6],
        GenerationStep::RunHook { command: "cargo check".to_string() }
    );
    assert_eq!(m.execute_post_generation_hooks().len(), 2);
    assert!(m.writes_schemas());
    assert!(!manager(vec![file("mod.rs.tera", "mod.rs", None, "null")], vec![]).writes_schemas());
    assert!(!manager(vec![file("a.tera", "a", Some("schema"), "null")], vec![]).writes_schemas());
}

#[test]
fn test_generate_twice_gives_the_same_plan() {
    let doc = spec(PETSTORE);
    let m = manager(
        vec![
            file("handler.rs.tera", "{operation_id}.rs", Some("operation"), "null"),
            file("mod.rs.tera", "mod.rs", None, "null"),
        ],
        vec!["true".to_string()],
    );
    let config = Config::new("p", "openapi.json", "out");
    let first = m.generate(&doc, &config, None).unwrap();
    let second = m.generate(&doc, &config, None).unwrap();
    assert_eq!(first, second);
    assert_eq!(first.len(), 6);
}

#[test]
fn test_generate_filters_operations() {
    let doc = spec(PETSTORE);
    let m = manager(vec![file("handler.rs.tera", "{{operation_id}}.rs", Some("endpoint"), "null")], vec![]);
    let config = Config::new("p", "openapi.json", "out");
    let destinations = |options: Option<TemplateOptions>| -> Vec<String> {
        m.generate(&doc, &config, options)
            .unwrap()
            .into_iter()
            .filter_map(|s| match s {
                GenerationStep::Render { destination, .. } => Some(destination),
                _ => None,
            })
            .collect()
    };
    assert_eq!(destinations(None), vec!["list_pets.rs", "create_pet.rs"]);
    assert_eq!(
        destinations(Some(TemplateOptions::default())),
        vec!["list_pets.rs", "create_pet.rs"]
    );
    assert_eq!(
        destinations(Some(TemplateOptions {
            include_operations: vec!["createPet".to_string()],
            ..Default::default()
        })),
        vec!["create_pet.rs"]
    );
    assert_eq!(
        destinations(Some(TemplateOptions {
            all_operations: true,
            include_operations: vec!["createPet".to_string()],
            ..Default::default()
        })),
        vec!["list_pets.rs", "create_pet.rs"]
    );
    assert_eq!(
        destinations(Some(TemplateOptions {
            all_operations: true,
            exclude_operations: vec!["listPets".to_string(), "other".to_string()],
            ..Default::default()
        })),
        vec!["create_pet.rs"]
    );
    assert!(TemplateOptions::selects(&None, "x"));
}

#[test]
fn test_generate_errors() {
    let config = Config::new("p", "openapi.json", "out");
    let unknown = manager(vec![file("a.tera", "a", Some("schema"), "null")], vec![]);
    assert_eq!(
        unknown.generate(&spec(PETSTORE), &config, None).unwrap_err(),
        Error::Config("Unknown for_each directive: schema".to_string())
    );
    let none = manager(vec![], vec![]);
    assert_eq!(
        none.generate(&spec(r#"{"servers": [{"url": "http://h"}]}"#), &config, None)
            .unwrap_err(),
        Error::OpenApi("Missing 'paths' object".to_string())
    );
    assert_eq!(
        none.generate(&spec(r#"{"paths": {}}"#), &config, None)
            .unwrap_err()
            .to_string(),
        "Configuration error: No server URL found in OpenAPI spec. Please define at least one server in the 'servers' section (OpenAPI 3.0+) or 'host' field (Swagger 2.0) of your OpenAPI specification"
    );
    assert_eq!(none.generate(&spec(PETSTORE), &config, None).unwrap(), vec![]);
}

#[test]
fn test_request_properties_fall_back_to_the_first_schema() {
    let doc = spec(
        r##"{
            "servers": [{"url": "http://h"}],
            "paths": {"/u": {"post": {"operationId": "up", "requestBody": {"content": {
                "text/plain": {},
                "application/xml": {"schema": {"x": {"title": "X"}}},
                "application/yaml": {"schema": {"y": {}}}
            }}}}}
        }"##,
    );
    let m = manager(vec![file("handler.rs.tera", "{endpoint}.rs", Some("endpoint"), "null")], vec![]);
    let steps = m
        .generate(&doc, &Config::new("p", "s", "o"), None)
        .unwrap();
    match &steps[1] {
        GenerationStep::Render { context, .. } => {
            assert_eq!(
                to_serde(context)["request_properties"],
                value(r#"[{"name": "x", "title": "X", "description": null, "example": null}]"#)
            );
        }
        other => panic!("unexpected step {:?}", other),
    }
}

#[test]
fn test_dereference_replaces_nested_and_chained_references() {
    let doc = spec(
        r##"{"components": {"schemas": {
            "A": {"items": [{"$ref": "#/components/schemas/B"}, 1]},
            "B": {"type": "string"},
            "Loop": {"next": {"$ref": "#/components/schemas/Loop"}}
        }}}"##,
    );
    let input = json(
        r##"{"x": {"$ref": "#/components/schemas/A"}, "y": [{"$ref": "#/components/schemas/B"}],
             "z": {"$ref": "#/components/schemas/Unknown", "kept": {"$ref": "#/elsewhere"}},
             "n": null}"##,
    );
    let out = dereference(&input, &doc, MAX_REFERENCE_DEPTH).unwrap();
    assert_eq!(
        to_serde(&out),
        value(
            r##"{"x": {"items": [{"type": "string"}, 1]}, "y": [{"type": "string"}],
                 "z": {"$ref": "#/components/schemas/Unknown", "kept": {"$ref": "#/elsewhere"}},
                 "n": null}"##
        )
    );
    assert_eq!(
        to_serde(&strip_nulls(out)),
        value(
            r##"{"x": {"items": [{"type": "string"}, 1]}, "y": [{"type": "string"}],
                 "z": {"$ref": "#/components/schemas/Unknown", "kept": {"$ref": "#/elsewhere"}}}"##
        )
    );
    assert_eq!(strip_nulls(json("[null]")), json("[null]"));
    let looping = json(r##"{"$ref": "#/components/schemas/Loop"}"##);
    assert_eq!(
        dereference(&looping, &doc, MAX_REFERENCE_DEPTH).unwrap_err(),
        Error::OpenApi("Schema references are nested too deeply".to_string())
    );
    assert_eq!(
        dereference(&json(r##"{"$ref": "#/components/schemas/B"}"##), &doc, 0).unwrap_err(),
        Error::OpenApi("Schema references are nested too deeply".to_string())
    );
    assert_eq!(
        dereference(&json(r##"{"$ref": "#/components/schemas/A"}"##), &doc, 2).unwrap(),
        json(r#"{"items": [{"type": "string"}, 1]}"#)
    );
    assert!(dereference(&json(r##"{"$ref": "#/components/schemas/A"}"##), &doc, 1).is_err());
}

#[test]
fn test_file_context_entries_win_over_the_base_context() {
    let base = json(r#"{"a": 1, "b": 2}"#);
    assert_eq!(
        to_serde(&merge_contexts(&base, &json(r#"{"b": "file", "c": true}"#))),
        value(r#"{"a": 1, "b": "file", "c": true}"#)
    );
    assert_eq!(to_serde(&merge_contexts(&base, &JsonValue::Null)), to_serde(&base));
    assert_eq!(
        to_serde(&merge_contexts(&json("[1]"), &json(r#"{"c": 3}"#))),
        value(r#"{"c": 3}"#)
    );
    let m = manager(vec![], vec![]);
    let f = file("mod.rs.tera", "mod.rs", None, r#"{"a": "mine"}"#);
    assert_eq!(
        to_serde(&m.create_file_context(&base, &f).unwrap()),
        value(r#"{"a": "mine", "b": 2}"#)
    );
    assert_eq!(
        m.process_single_file(&f, &base),
        GenerationStep::Render {
            template: "mod.rs.tera".to_string(),
            destination: "mod.rs".to_string(),
            context: json(r#"{"a": "mine", "b": 2}"#),
        }
    );
}

#[test]
fn template_manager_test_validate_context() {
    let context = vec![
        ("foo".to_string(), JsonValue::String("bar".to_string())),
        ("baz".to_string(), JsonValue::Number(JsonNumber::PosInt(123))),
    ];

    // Test with no required vars
    assert!(TemplateManager::validate_context("test_template", &context, &vec![]).is_ok());

    // Test with required vars that exist
    assert!(TemplateManager::validate_context("test_template", &context, &vec!["foo"]).is_ok());
    assert!(TemplateManager::validate_context("test_template", &context, &vec!["baz"]).is_ok());
    assert!(
        TemplateManager::validate_context("test_template", &context, &vec!["foo", "baz"]).is_ok()
    );

    // Test with missing required var
    let result = TemplateManager::validate_context("test_template", &context, &vec!["missing"]);
    assert!(result.is_err());
    if let Err(e) = result {
        assert!(e.to_string().contains("Missing required context variables"));
        assert!(e.to_string().contains("missing"));
    }

    // Test with mix of existing and missing vars
    let result =
        TemplateManager::validate_context("test_template", &context, &vec!["foo", "missing"]);
    assert!(result.is_err());
}

#[test]
fn manager_test_validate_context() {
    let context = vec![
        ("foo".to_string(), JsonValue::String("bar".to_string())),
        ("baz".to_string(), JsonValue::Number(JsonNumber::PosInt(123))),
    ];
    assert!(TemplateManager::validate_context("test_template", &context, &vec![]).is_ok());
    assert!(TemplateManager::validate_context("test_template", &context, &vec!["foo"]).is_ok());
    assert!(TemplateManager::validate_context("test_template", &context, &vec!["baz"]).is_ok());
    assert!(
        TemplateManager::validate_context("test_template", &context, &vec!["foo", "baz"]).is_ok()
    );
    let result = TemplateManager::validate_context("test_template", &context, &vec!["missing"]);
    assert!(result.is_err());
    if let Err(e) = result {
        assert!(e.to_string().contains("Missing required context variables"));
        assert!(e.to_string().contains("missing"));
    }
    let result = TemplateManager::validate_context(
        "test_template",
        &context,
        &vec!["x", "foo", "missing"],
    );
    assert_eq!(
        result,
        Err(Error::Template(
            "Missing required context variables for template 'test_template': x, missing"
                .to_string()
        ))
    );
}

#[test]
fn test_manager_accessors_and_decisions() {
    let m = manager(
        vec![
            file("mod.rs.tera", "mod.rs", None, "null"),
            file("absent.tera", "absent.rs", None, "null"),
        ],
        vec![],
    );
    assert_eq!(m.template_kind(), TemplateKind::RustAxum);
    assert_eq!(m.template_dir_path(), "templates/rust_axum");
    assert_eq!(m.template_dir().root_dir(), "templates");
    assert_eq!(m.manifest().name, "test");
    assert!(m.has_template("handler.rs.tera"));
    assert!(!m.has_template("absent.tera"));
    assert_eq!(
        m.list_templates(),
        vec![("mod.rs.tera".to_string(), "mod.rs".to_string())]
    );
    assert!(m.reload_templates().is_ok());

    assert_eq!(TemplateManager::manifest_source(true, true), ManifestSource::Yaml);
    assert_eq!(TemplateManager::manifest_source(false, true), ManifestSource::Toml);
    assert_eq!(TemplateManager::manifest_source(false, false), ManifestSource::Default);
    assert_eq!(TemplateManager::template_glob("t/rust_axum"), "t/rust_axum/**/*");

    let inside = TemplateManager::locate(
        TemplateKind::Custom,
        "base/custom",
        Some("custom"),
        "base",
        "base/custom/custom",
    );
    assert_eq!(inside.root_dir(), "base");
    assert_eq!(inside.template_path(), "base/custom");
    let outside = TemplateManager::locate(
        TemplateKind::Custom,
        "base",
        Some("base"),
        "",
        "base/custom",
    );
    assert_eq!(outside.root_dir(), "base");
    assert_eq!(outside.template_path(), "base/custom");
    assert_eq!(outside.kind(), TemplateKind::Custom);
}

#[test]
fn test_generate_with_context_checks_context_and_template() {
    let m = manager(vec![], vec![]);
    assert_eq!(
        m.generate_with_context("handler.rs.tera", &json(r#"{"a": 1}"#), "out/h.rs"),
        Ok(GenerationStep::Render {
            template: "handler.rs.tera".to_string(),
            destination: "out/h.rs".to_string(),
            context: json(r#"{"a": 1}"#),
        })
    );
    assert_eq!(
        m.generate_handler("handler.rs.tera", &json("[1]"), "out/h.rs"),
        Err(Error::Template("Context must be a JSON object".to_string()))
    );
    assert_eq!(
        m.generate_with_context("nope.tera", &json("{}"), "out/h.rs"),
        Err(Error::Template("Template not found: nope.tera".to_string()))
    );
    assert_eq!(
        TemplateManager::render_failure("t.tera", "boom", &json(r#"{"a": 1, "b": 2}"#)),
        Error::Template(
            "Failed to render template 't.tera': boom\nAvailable context keys: a, b".to_string()
        )
    );
    assert_eq!(
        TemplateManager::hook_failure("make", "exit status: 2", "err\n", "out\n"),
        Error::Io(
            "Post-generation hook 'make' failed with status exit status: 2\nerr\nout\n"
                .to_string()
        )
    );
}

#[test]
fn test_operation_text_sanitizers() {
    assert_eq!(sanitize_summary("  List (all) pets!\t "), "List all pets");
    assert_eq!(sanitize_summary("caf\u{e9} 1"), "caf 1");
    assert_eq!(sanitize_description(" a, b. (c) "), "a, b. c");
    assert_eq!(sanitize_tag("  a\nb\r\n "), "a b");
    assert_eq!(sanitize_tag("a\r\nb"), "a  b");
    assert_eq!(sanitize_operation_name("get-pet_by.id 2"), "getpet_byid2");
    assert_eq!(
        destination_path("h/{{operation_id}}/{endpoint}_{{endpoint}}{operation_id}.rs", "fs"),
        "h/fs/fs_fsfs.rs"
    );
    assert_eq!(destination_path("plain.rs", "fs"), "plain.rs");
    assert_eq!(destination_path("{{{operation_id}}}", "fs"), "{fs}");
    assert_eq!(destination_path("{ endpoint }{operationid}", "fs"), "{ endpoint }{operationid}");
}

#[test]
fn test_handler_steps() {
    let m = manager(vec![], vec![]);
    let steps = m.generate_handlers(
        "handler.rs",
        &vec![json(r#"{"endpoint": "pets"}"#), json(r#"{"endpoint": 3}"#), json("{}")],
    );
    let destinations: Vec<&str> = steps
        .iter()
        .map(|s| match s {
            GenerationStep::Render { destination, .. } => destination.as_str(),
            other => panic!("unexpected step {:?}", other),
        })
        .collect();
    assert_eq!(destinations, vec!["pets.rs", "handler.rs", "handler.rs"]);
    assert_eq!(
        m.generate_handlers_mod(&vec![json(r#"{"endpoint": "pets"}"#)], "src/mod.rs"),
        GenerationStep::Render {
            template: "handlers_mod.rs".to_string(),
            destination: "src/mod.rs".to_string(),
            context: json(r#"{"endpoints": [{"endpoint": "pets"}]}"#),
        }
    );
    let mut value = json(r##"{"a": {"$ref": "#/components/schemas/Tag"}}"##);
    assert!(TemplateManager::dereference_schema_refs(&mut value, &spec(PETSTORE)).is_ok());
    assert_eq!(
        value,
        json(r#"{"a": {"properties": {"label": {"type": "string", "title": "Label"}}}}"#)
    );
    let (base, operations) = manager(vec![], vec![])
        .build_context(&spec(PETSTORE), &None, &Config::new("p", "s", "o"))
        .unwrap();
    assert_eq!(operations.len(), 2);
    assert_eq!(base.get("server_port"), Some(&json("8080")));
    assert_eq!(base.get_str("log_file"), Some("mcpgen"));
}

#[test]
fn test_operation_context_keeps_the_path_of_the_document() {
    let doc = spec(
        r#"{"servers": [{"url": "https://api.example.com"}],
            "paths": {"/pets/{petId}": {
                "get": {"operationId": "listPets"},
                "delete": {"operationId": "dropPet"}}}}"#,
    );
    let m = manager(
        vec![file("handler.rs.tera", "{{endpoint}}.rs", Some("endpoint"), "{}")],
        vec![],
    );
    let config = Config::new("p", "openapi.json", "out");
    let steps = m.generate(&doc, &config, None).unwrap();
    let mut seen = Vec::new();
    for step in &steps {
        if let GenerationStep::Render { context, .. } = step {
            let c = to_serde(context);
            assert_eq!(c["path"], "/pets/{petId}");
            seen.push((
                c["operation_id"].as_str().unwrap().to_string(),
                c["method"].as_str().unwrap().to_string(),
            ));
        }
        if let GenerationStep::WriteSchema { schema, .. } = step {
            assert!(to_serde(schema).get("method").is_none());
        }
    }
    assert_eq!(
        seen,
        vec![
            ("listPets".to_string(), "get".to_string()),
            ("dropPet".to_string(), "delete".to_string()),
        ]
    );
}

#[test]
fn test_two_operations_with_handlers_and_module() {
    let doc = spec(
        r##"{
            "servers": [{"url": "https://api.example.com/v2"}],
            "components": {"schemas": {
                "Pet": {"properties": {"id": {"type": "integer"}}},
                "NewPet": {"properties": {"name": {"type": "string"}}}
            }},
            "paths": {"/pets": {
                "get": {
                    "operationId": "listPets",
                    "responses": {"200": {"content": {"application/json": {
                        "schema": {"$ref": "#/components/schemas/Pet"}}}}}
                },
                "post": {
                    "operationId": "createPet",
                    "requestBody": {"content": {"application/json": {
                        "schema": {"$ref": "#/components/schemas/NewPet"}}}},
                    "responses": {"200": {"content": {"application/json": {
                        "schema": {"$ref": "#/components/schemas/Pet"}}}}}
                }
            }}
        }"##,
    );
    let m = manager(
        vec![
            file("a.tera", "handlers/{{endpoint}}.rs", Some("endpoint"), "{}"),
            file("b.tera", "mod.rs", None, "{}"),
        ],
        vec![],
    );
    let steps = m
        .generate(&doc, &Config::new("p", "openapi.json", "out"), None)
        .unwrap();
    assert_eq!(steps.len(), 5);

    let mut rendered = Vec::new();
    let mut dumped = Vec::new();
    for step in &steps {
        match step {
            GenerationStep::Render { template, destination, context } => {
                rendered.push((template.as_str(), destination.as_str(), to_serde(context)));
            }
            GenerationStep::WriteSchema { destination, schema } => {
                dumped.push((destination.as_str(), to_serde(schema)));
            }
            other => panic!("unexpected step {:?}", other),
        }
    }
    let files: Vec<(&str, &str)> = rendered.iter().map(|r| (r.0, r.1)).collect();
    assert_eq!(
        files,
        vec![
            ("a.tera", "handlers/list_pets.rs"),
            ("a.tera", "handlers/create_pet.rs"),
            ("b.tera", "mod.rs"),
        ]
    );
    assert_eq!(rendered[0].2["operation_id"], "listPets");
    assert_eq!(rendered[0].2["method"], "get");
    assert_eq!(rendered[1].2["operation_id"], "createPet");
    assert_eq!(rendered[1].2["method"], "post");
    for r in &rendered {
        assert_eq!(r.2["base_api_url"], "https://api.example.com/v2");
    }

    let dumps: Vec<&str> = dumped.iter().map(|d| d.0).collect();
    assert_eq!(dumps, vec!["schemas/list_pets.json", "schemas/create_pet.json"]);
    for (_, schema) in &dumped {
        assert!(!serde_json::to_string(schema).unwrap().contains("$ref"));
        assert_eq!(
            schema["responses"]["200"]["content"]["application/json"]["schema"],
            value(r#"{"properties": {"id": {"type": "integer"}}}"#)
        );
    }
    assert_eq!(
        dumped[1].1["requestBody"]["content"]["application/json"]["schema"],
        value(r#"{"properties": {"name": {"type": "string"}}}"#)
    );

    let endpoints = rendered[2].2["endpoints"].as_array().unwrap();
    let names: Vec<&str> = endpoints
        .iter()
        .map(|e| e["endpoint"].as_str().unwrap())
        .collect();
    assert_eq!(names, vec!["create_pet", "list_pets"]);
    assert_eq!(endpoints[1]["path"], "/pets");
    assert_eq!(endpoints[1]["fn_name"], "list_pets");
    assert_eq!(endpoints[1]["properties_for_handler"], value(r#"["id"]"#));
}
