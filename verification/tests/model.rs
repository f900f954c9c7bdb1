use agenterra_core::config::{default_template, Config};
use agenterra_core::error::Error;
use agenterra_core::har::{HarContext, HarEntry, HarOperation};
use agenterra_core::json::{
    clone_entries, entries_get, entries_index, entries_insert, JsonNumber, JsonValue,
};
use agenterra_core::manifest::{TemplateFile, TemplateHooks, TemplateManifest};
use agenterra_core::openapi::context::resolve_reference;
use agenterra_core::openapi::parser::parameter::{
    extract_parameter_info, extract_parameters_for_handler,
};
use agenterra_core::openapi::parser::property::{
    extract_properties, extract_property_info, extract_row_properties, openapi_type_to_rust_type,
};
use agenterra_core::openapi::parser::schema::{
    add_endpoint, build_properties_schema, build_response_schema, generate_endpoint_schema_files,
    generate_openapi_json,
};
use agenterra_core::openapi::schema::types::{SchemaFormat, SchemaType};
use agenterra_core::openapi::schema::value::{SchemaValue, SourceFormat};
use agenterra_core::openapi::types::{ParameterInfo, PropertyInfo};
use agenterra_core::templates::cache::TemplateCache;
use agenterra_core::templates::dir::{
    DirProbe, DiscoveryPlace, TemplateDir, TEMPLATES_MARKER, USER_DIRECTORY,
};
use agenterra_core::templates::manager::ManifestSource;
use agenterra_core::templates::kind::TemplateKind;
use agenterra_core::templates::options::TemplateOptions;
use agenterra_core::templates::plan::GenerationStep;
use agenterra_core::text::{replace, starts_with, trim};

fn from_serde(v: &serde_json::Value) -> JsonValue {
    match v {
        serde_json::Value::Null => JsonValue::Null,
        serde_json::Value::Bool(b) => JsonValue::Bool(*b),
        serde_json::Value::Number(n) => {
            if let Some(u) = n.as_u64() {
                JsonValue::Number(JsonNumber::PosInt(u))
            } else if let Some(i) = n.as_i64() {
                JsonValue::Number(JsonNumber::NegInt(i))
            } else {
                JsonValue::Number(JsonNumber::Float(n.to_string()))
            }
        }
        serde_json::Value::String(s) => JsonValue::String(s.clone()),
        serde_json::Value::Array(items) => JsonValue::Array(items.iter().map(from_serde).collect()),
        serde_json::Value::Object(map) => {
            JsonValue::Object(map.iter().map(|(k, v)| (k.clone(), from_serde(v))).collect())
        }
    }
}

fn to_serde(v: &JsonValue) -> serde_json::Value {
    match v {
        JsonValue::Null => serde_json::Value::Null,
        JsonValue::Bool(b) => serde_json::Value::Bool(*b),
        JsonValue::Number(JsonNumber::PosInt(u)) => serde_json::Value::from(*u),
        JsonValue::Number(JsonNumber::NegInt(i)) => serde_json::Value::from(*i),
        JsonValue::Number(JsonNumber::Float(text)) => {
            serde_json::Value::from(text.parse::<f64>().unwrap())
        }
        JsonValue::String(s) => serde_json::Value::String(s.clone()),
        JsonValue::Array(items) => serde_json::Value::Array(items.iter().map(to_serde).collect()),
        JsonValue::Object(entries) => serde_json::Value::Object(
            entries
                .iter()
                .map(|(k, v)| (k.clone(), to_serde(v)))
                .collect(),
        ),
    }
}

fn json(text: &str) -> JsonValue {
    from_serde(&serde_json::from_str(text).unwrap())
}

fn value(text: &str) -> serde_json::Value {
    serde_json::from_str(text).unwrap()
}

fn members(text: &str) -> Vec<(String, JsonValue)> {
    match json(text) {
        JsonValue::Object(entries) => entries,
        other => panic!("not an object: {:?}", other),
    }
}

#[test]
fn test_schema_type_serde() {
    let json = serde_json::to_string(&to_serde(&SchemaType::String.to_json())).unwrap();
    assert_eq!(json, r#""string""#);

    let schema_type: SchemaType =
        SchemaType::from_json(&from_serde(&serde_json::from_str(r#""integer""#).unwrap())).unwrap();
    assert_eq!(schema_type, SchemaType::Integer);
}

#[test]
fn test_schema_format_serde() {
    let json = serde_json::to_string(&to_serde(&SchemaFormat::DateTime.to_json())).unwrap();
    assert_eq!(json, r#""date-time""#);

    let format: SchemaFormat =
        SchemaFormat::from_json(&from_serde(&serde_json::from_str(r#""uri-ref""#).unwrap()))
            .unwrap();
    assert_eq!(format, SchemaFormat::UriRef);
}

#[test]
fn test_schema_words_round_trip() {
    for t in [
        SchemaType::String,
        SchemaType::Number,
        SchemaType::Integer,
        SchemaType::Boolean,
        SchemaType::Array,
        SchemaType::Object,
    ] {
        assert_eq!(SchemaType::parse(t.as_str()), Some(t));
    }
    for f in [
        SchemaFormat::Date,
        SchemaFormat::DateTime,
        SchemaFormat::Time,
        SchemaFormat::Duration,
        SchemaFormat::Email,
        SchemaFormat::Hostname,
        SchemaFormat::Ipv4,
        SchemaFormat::Ipv6,
        SchemaFormat::Uri,
        SchemaFormat::UriRef,
        SchemaFormat::Uuid,
    ] {
        assert_eq!(SchemaFormat::parse(f.as_str()), Some(f));
    }
    assert_eq!(SchemaType::parse("String"), None);
    assert_eq!(SchemaFormat::parse("datetime"), None);
    assert_eq!(SchemaType::from_json(&json("1")), None);
}

#[test]
fn test_json_roundtrip() {
    let text = r#"{"key": "value"}"#;
    let schema = SchemaValue::new(json(text));
    assert!(schema.as_json().get_str("key") == Some("value"));

    let value = schema.into_json();
    assert_eq!(value.get_str("key"), Some("value"));
}

#[test]
fn test_yaml_conversion() {
    let yaml = "key: value";
    let parsed: serde_json::Value = serde_yaml::from_str(yaml).unwrap();
    let schema = SchemaValue::new(from_serde(&parsed));
    assert!(schema.as_json().get_str("key") == Some("value"));

    let value = schema.into_json();
    assert_eq!(value.get_str("key"), Some("value"));
}

#[test]
fn test_source_format_detection() {
    assert_eq!(SourceFormat::detect("  \n\t{\"a\": 1}"), SourceFormat::Json);
    assert_eq!(SourceFormat::detect("{"), SourceFormat::Json);
    assert_eq!(SourceFormat::detect("openapi: 3.0.0"), SourceFormat::Yaml);
    assert_eq!(SourceFormat::detect("[1]"), SourceFormat::Yaml);
    assert_eq!(SourceFormat::detect("   "), SourceFormat::Yaml);
    assert_eq!(SourceFormat::detect(""), SourceFormat::Yaml);
    assert_eq!(SourceFormat::default(), SourceFormat::Json);
}

#[test]
fn test_property_info_new() {
    let prop = PropertyInfo::new("test", "string", "String");
    assert_eq!(prop.name, "test");
    assert_eq!(prop.openapi_type, "string");
    assert_eq!(prop.rust_type, "String");
    assert!(!prop.required);
}

#[test]
fn test_parameter_info_new() {
    let param = ParameterInfo::new("test", "string", "String");
    assert_eq!(param.name, "test");
    assert_eq!(param.openapi_type, "string");
    assert_eq!(param.rust_type, "String");
    assert!(!param.required);
}

#[test]
fn test_openapi_type_to_rust_type() {
    assert_eq!(openapi_type_to_rust_type("string", None), "String");
    assert_eq!(openapi_type_to_rust_type("string", Some("date")), "String");
    assert_eq!(openapi_type_to_rust_type("integer", Some("int64")), "i64");
    assert_eq!(openapi_type_to_rust_type("integer", Some("int32")), "i32");
    assert_eq!(openapi_type_to_rust_type("integer", None), "i32");
    assert_eq!(openapi_type_to_rust_type("number", Some("double")), "f64");
    assert_eq!(openapi_type_to_rust_type("number", None), "f64");
    assert_eq!(openapi_type_to_rust_type("number", Some("float")), "f32");
    assert_eq!(openapi_type_to_rust_type("number", Some("")), "f32");
    assert_eq!(openapi_type_to_rust_type("boolean", None), "bool");
    assert_eq!(openapi_type_to_rust_type("object", None), "String");
    assert_eq!(openapi_type_to_rust_type("", Some("int64")), "String");
}

#[test]
fn test_flat_property_readers() {
    let info = extract_property_info(
        "age",
        &json(
            r#"{"type": "integer", "format": "int64", "title": "Age", "example": "42",
                "required": true, "x-elastic-type": "long"}"#,
        ),
    );
    assert_eq!(info.name, "age");
    assert_eq!(info.rust_type, "i64");
    assert_eq!(info.openapi_type, "integer");
    assert_eq!(info.format, Some("int64".to_string()));
    assert_eq!(info.title, "Age");
    assert_eq!(info.description, "");
    assert_eq!(info.example, "42");
    assert!(info.required);
    assert_eq!(info.elastic_type, Some("long".to_string()));
    assert_eq!(info.schema.as_json().get_str("title"), Some("Age"));

    let plain = extract_property_info("x", &json(r#""text""#));
    assert_eq!(plain.rust_type, "String");
    assert_eq!(plain.schema.into_json(), json("{}"));

    let listed = extract_properties(&members(r#"{"a": {"type": "number"}, "b": 1}"#));
    let pairs: Vec<(&str, &str)> = listed
        .iter()
        .map(|p| (p.name.as_str(), p.rust_type.as_str()))
        .collect();
    assert_eq!(pairs, vec![("a", "f64"), ("b", "String")]);

    let nested = extract_row_properties(&json(
        r#"{"properties": {"data": {"properties": {"k": {"type": "boolean"}}}, "top": {}}}"#,
    ));
    assert_eq!(nested.len(), 1);
    assert_eq!(nested[0].name, "k");
    assert_eq!(nested[0].rust_type, "bool");
    let top = extract_row_properties(&json(r#"{"properties": {"data": 1, "top": {}}}"#));
    assert_eq!(top.len(), 2);
    assert!(extract_row_properties(&json(r#"{"other": {}}"#)).is_empty());
    assert!(extract_row_properties(&json(r#"{"properties": [1]}"#)).is_empty());
}

#[test]
fn test_flat_parameter_readers() {
    let p = extract_parameter_info(&json(
        r#"{"name": "id", "description": "The id", "example": 7, "required": true,
            "schema": {"type": "integer", "format": "int64"}}"#,
    ))
    .unwrap();
    assert_eq!(p.name, "id");
    assert_eq!(p.rust_type, "i64");
    assert_eq!(p.openapi_type, "integer");
    assert_eq!(p.description, "The id");
    assert_eq!(p.description_raw, "The id");
    assert_eq!(p.example, "");
    assert!(p.required);
    assert_eq!(
        p.schema.as_json(),
        &json(r#"{"type": "integer", "format": "int64"}"#)
    );
    assert_eq!(extract_parameter_info(&json(r#"{"name": ""}"#)), None);
    assert_eq!(extract_parameter_info(&json(r#"{"in": "path"}"#)), None);
    assert_eq!(extract_parameter_info(&json(r#"[]"#)), None);
    let bare = extract_parameter_info(&json(r#"{"name": "n"}"#)).unwrap();
    assert_eq!(bare.rust_type, "String");
    assert_eq!(bare.schema.into_json(), JsonValue::Null);

    let doc = json(r#"{"parameters": {"Limit": {"name": "limit", "schema": {"type": "number"}}}}"#);
    let path = members(
        r##"{"parameters": [{"$ref": "#/parameters/Limit"}, {"$ref": "#/parameters/Gone"},
                             {"name": "q"}, {"name": ""}]}"##,
    );
    let names: Vec<String> = extract_parameters_for_handler(&doc, &path)
        .into_iter()
        .map(|p| p.name)
        .collect();
    assert_eq!(names, vec!["limit", "q"]);
    assert!(extract_parameters_for_handler(&doc, &members("{}")).is_empty());
}

#[test]
fn test_flat_parameters_come_path_first() {
    let doc = json(
        r#"{"parameters": {"Id": {"name": "id", "in": "path"},
                            "Page": {"name": "page", "in": "query"}}}"#,
    );
    let names = |text: &str| -> Vec<String> {
        extract_parameters_for_handler(&doc, &members(text))
            .into_iter()
            .map(|p| p.name)
            .collect()
    };
    assert_eq!(
        names(r#"{"parameters": [{"name": "q", "in": "query"}, {"name": "p", "in": "path"}]}"#),
        vec!["p", "q"]
    );
    assert_eq!(
        names(
            r##"{"parameters": [{"name": "a", "in": "header"}, {"name": "b", "in": "path"},
                                 {"$ref": "#/parameters/Page"}, {"name": "c"},
                                 {"$ref": "#/parameters/Id"}, {"name": "", "in": "path"},
                                 {"name": "d", "in": "path"}]}"##
        ),
        vec!["b", "id", "d", "a", "page", "c"]
    );
    assert_eq!(
        names(r#"{"parameters": [{"name": "x", "in": "Path"}, {"name": "y", "in": 1}]}"#),
        vec!["x", "y"]
    );
}

#[test]
fn test_resolve_reference_walks_objects() {
    let doc = json(r#"{"a": {"b": {"c": 1}, "": {"d": 2}}, "list": [{"x": 1}]}"#);
    assert_eq!(resolve_reference(&doc, "#/a/b/c"), Some(&json("1")));
    assert_eq!(resolve_reference(&doc, "a/b"), Some(&json(r#"{"c": 1}"#)));
    assert_eq!(resolve_reference(&doc, "#/a//d"), Some(&json("2")));
    assert_eq!(resolve_reference(&doc, "#/a/x"), None);
    assert_eq!(resolve_reference(&doc, "#/list/0"), None);
    assert_eq!(resolve_reference(&doc, "#/a/b/c/d"), None);
    assert_eq!(resolve_reference(&doc, ""), None);
}

#[test]
fn test_flat_schema_builders() {
    let mut described = PropertyInfo::new("name", "string", "String");
    described.format = Some("email".to_string());
    described.title = "Name".to_string();
    described.example = "a@b".to_string();
    let plain = PropertyInfo::new("age", "integer", "i32");
    let mut again = PropertyInfo::new("name", "number", "f64");
    again.description = "later".to_string();
    let schema = build_properties_schema(&vec![described, plain, again]);
    assert_eq!(
        to_serde(&JsonValue::Object(schema)),
        value(
            r#"{"name": {"type": "number", "description": "later"},
                "age": {"type": "integer"}}"#
        )
    );

    assert_eq!(
        to_serde(&build_response_schema("Pet")),
        value(
            r##"{
                "type": "object",
                "properties": {
                    "meta": {
                        "type": "object",
                        "properties": {
                            "total": { "type": "integer" },
                            "count": { "type": "integer" },
                            "limit": { "type": "integer" },
                            "offset": { "type": "integer" }
                        }
                    },
                    "data": {
                        "type": "array",
                        "items": { "$ref": "#/components/schemas/Pet" }
                    },
                    "totals": {
                        "type": "object",
                        "description": "Optional aggregate totals"
                    }
                }
            }"##
        )
    );

    let endpoints = vec![
        json(r#"{"path": "//pet/{petId}/x", "struct_name": "Pet", "method": "GET",
                 "summary": "s", "tags": ["t"], "extra": 1}"#),
        json(r#"{"struct_name": "NoPath", "method": "get"}"#),
        json(r#"{"path": "/plain"}"#),
        json(r#"{"path": "//pet/{petId}/x", "method": "Post", "parameters": []}"#),
    ];
    let files = generate_endpoint_schema_files(&endpoints);
    let destinations: Vec<&str> = files
        .iter()
        .map(|s| match s {
            GenerationStep::WriteSchema { destination, .. } => destination.as_str(),
            other => panic!("unexpected step {:?}", other),
        })
        .collect();
    assert_eq!(
        destinations,
        vec!["schemas/pet_petId_x.json", "schemas/plain.json", "schemas/pet_petId_x.json"]
    );
    assert_eq!(
        files[1],
        GenerationStep::WriteSchema {
            destination: "schemas/plain.json".to_string(),
            schema: build_response_schema(""),
        }
    );

    let document = generate_openapi_json(&endpoints, &members(r#"{"Pet": {"type": "object"}}"#));
    assert_eq!(
        to_serde(&document),
        value(
            r##"{
                "openapi": "3.0.0",
                "info": { "title": "MCP Server API", "version": "1.0.0" },
                "paths": {
                    "//pet/{petId}/x": { "post": {
                        "parameters": [],
                        "responses": { "200": {
                            "description": "Successful response",
                            "content": { "application/json": {
                                "schema": { "$ref": "#/components/schemas/_response" } } }
                        } }
                    } }
                },
                "components": { "schemas": { "Pet": { "type": "object" } } }
            }"##
        )
    );
}

#[test]
fn test_manifest_from_json() {
    let yaml = r#"
name: rust
description: Rust templates
version: "1.0"
language: rust
files:
  - source: handler.rs.tera
    destination: "src/{{endpoint}}.rs"
    for_each: endpoint
  - source: main.rs.tera
    destination: src/main.rs
    context:
      port: 1
hooks:
  post_generate:
    - cargo fmt
    - cargo check
  pre_generate: echo hi
"#;
    let parsed: serde_json::Value = serde_yaml::from_str(yaml).unwrap();
    let manifest = TemplateManifest::from_json(&from_serde(&parsed)).unwrap();
    assert_eq!(manifest.name, "rust");
    assert_eq!(manifest.version, "1.0");
    assert_eq!(manifest.files.len(), 2);
    assert_eq!(manifest.files[0].for_each, Some("endpoint".to_string()));
    assert_eq!(manifest.files[0].context, JsonValue::Null);
    assert_eq!(manifest.files[1].for_each, None);
    assert_eq!(manifest.files[1].context, json(r#"{"port": 1}"#));
    assert_eq!(manifest.hooks.pre_generate, vec!["echo hi".to_string()]);
    assert_eq!(
        manifest.hooks.post_generate,
        vec!["cargo fmt".to_string(), "cargo check".to_string()]
    );
    assert_eq!(manifest.files[1].duplicate(), manifest.files[1]);
}

#[test]
fn test_manifest_from_json_refuses_wrong_shapes() {
    let invalid = Err(Error::Template("Invalid template manifest".to_string()));
    let base = r#""name": "n", "description": "d", "version": "v", "language": "l""#;
    let with = |rest: &str| TemplateManifest::from_json(&json(&format!("{{{}, {}}}", base, rest)));
    assert!(with(r#""files": []"#).is_ok());
    assert_eq!(with(r#""files": []"#).unwrap().hooks, TemplateHooks::default());
    assert_eq!(with(r#""other": 1"#), invalid);
    assert_eq!(with(r#""files": {}"#), invalid);
    assert_eq!(with(r#""files": [{"source": "s"}]"#), invalid);
    assert_eq!(with(r#""files": [{"source": "s", "destination": 1}]"#), invalid);
    assert_eq!(
        with(r#""files": [{"source": "s", "destination": "d", "for_each": 2}]"#),
        invalid
    );
    assert!(with(r#""files": [{"source": "s", "destination": "d", "for_each": null}]"#).is_ok());
    assert_eq!(with(r#""files": [], "hooks": null"#), invalid);
    assert_eq!(with(r#""files": [], "hooks": {"post_generate": null}"#), invalid);
    assert_eq!(with(r#""files": [], "hooks": {"post_generate": ["a", 1]}"#), invalid);
    assert!(with(r#""files": [], "hooks": {}"#).is_ok());
    assert_eq!(
        TemplateManifest::from_json(&json(r#"{"name": "n", "files": []}"#)),
        invalid
    );
    assert_eq!(TemplateManifest::from_json(&json("[]")), invalid);
}

#[test]
fn test_manifest_defaults() {
    let manifest = TemplateManifest::default();
    assert_eq!(manifest.name, "default");
    assert_eq!(manifest.description, "Default template");
    assert_eq!(manifest.version, "0.1.0");
    assert_eq!(manifest.language, "rust");
    assert!(manifest.files.is_empty());
    assert!(manifest.hooks.pre_generate.is_empty());
    assert!(manifest.hooks.post_generate.is_empty());
    let file = TemplateFile::default();
    assert_eq!(file.source, "");
    assert_eq!(file.destination, "");
    assert_eq!(file.for_each, None);
    assert_eq!(file.context, JsonValue::Null);
}

#[test]
fn test_config_new_has_the_defaults() {
    let config = Config::new("agenterra-server", "openapi.json", "output");
    assert_eq!(config.project_name, "agenterra-server");
    assert_eq!(config.openapi_schema_path, "openapi.json");
    assert_eq!(config.output_dir, "output");
    assert_eq!(config.template_kind, default_template());
    assert_eq!(config.template_kind, "rust_axum");
    assert_eq!(config.template_dir, None);
    assert!(!config.include_all);
    assert_eq!(config.include_operations, Vec::<String>::new());
    assert_eq!(config.exclude_operations, Vec::<String>::new());
    assert_eq!(config.base_url, None);
    let options = TemplateOptions::default();
    assert!(!options.all_operations && !options.include_tests && !options.overwrite);
    assert_eq!(options.server_port, None);
}

#[test]
fn test_har_unique_operations() {
    let ctx = HarContext::from_json(&json(
        r#"{"log": {"entries": [
            {"request": {"method": "get", "url": "https://example.com/api/items?page=1"}},
            {"request": {"method": "POST", "url": "https://example.com/api/items"}},
            {"request": {"method": "GET", "url": "https://other.example/api/items#top"}},
            {"request": {"method": "GET", "url": "/relative"}},
            {"request": {"method": "GET", "url": "https://example.com"}}
        ]}}"#,
    ))
    .unwrap();
    let ops = ctx.unique_operations();
    assert_eq!(ops.len(), 3);
    assert!(ops.contains(&HarOperation { method: "GET".into(), path: "/api/items".into() }));
    assert!(ops.contains(&HarOperation { method: "POST".into(), path: "/api/items".into() }));
    assert_eq!(ops[2], HarOperation { method: "GET".into(), path: "/".into() });

    let empty = HarContext { entries: vec![] };
    assert!(empty.unique_operations().is_empty());
    let direct = HarContext {
        entries: vec![HarEntry { method: "put".into(), url: "http://h/a%20b".into() }],
    };
    assert_eq!(
        direct.unique_operations(),
        vec![HarOperation { method: "PUT".into(), path: "/a%20b".into() }]
    );
}

#[test]
fn test_har_from_json_refuses_wrong_shapes() {
    let invalid = Err(Error::Config("Failed to parse HAR".to_string()));
    assert_eq!(HarContext::from_json(&json("{}")), invalid);
    assert_eq!(HarContext::from_json(&json(r#"{"log": {"entries": {}}}"#)), invalid);
    assert_eq!(
        HarContext::from_json(&json(r#"{"log": {"entries": [{"request": {"method": "GET"}}]}}"#)),
        invalid
    );
    assert_eq!(
        HarContext::from_json(&json(
            r#"{"log": {"entries": [{"request": {"method": 1, "url": "u"}}]}}"#
        )),
        invalid
    );
    assert_eq!(
        HarContext::from_json(&json(r#"{"log": {"entries": []}}"#)),
        Ok(HarContext { entries: vec![] })
    );
}

#[test]
fn test_template_dir_discovery() {
    let probe = |root: &str, found: bool, template_found: bool| DirProbe {
        root_dir: root.to_string(),
        found,
        template_path: format!("{}/rust_axum", root),
        template_found,
    };
    let custom = probe("/custom", true, true);
    let dir = TemplateDir::discover(TemplateKind::RustAxum, Some(&custom), &vec![]).unwrap();
    assert_eq!(dir.root_dir(), "/custom");
    assert_eq!(dir.template_path(), "/custom/rust_axum");
    assert_eq!(dir.kind(), TemplateKind::RustAxum);
    assert_eq!(dir.to_string_lossy(), "/custom/rust_axum");
    assert_eq!(dir.display(), "/custom/rust_axum");
    assert_eq!(dir.into_path_buf(), "/custom/rust_axum");

    assert_eq!(
        TemplateDir::discover(
            TemplateKind::RustAxum,
            Some(&probe("/nonexistent", false, false)),
            &vec![probe("/a", true, true)]
        ),
        Err(Error::Io("Template directory not found: /nonexistent".to_string()))
    );
    assert_eq!(
        TemplateDir::discover(TemplateKind::RustAxum, Some(&probe("/c", true, false)), &vec![]),
        Err(Error::Io("Template directory not found: /c/rust_axum".to_string()))
    );
    let places = vec![probe("/env", false, true), probe("..", true, true), probe(".", true, true)];
    assert_eq!(
        TemplateDir::discover(TemplateKind::RustAxum, None, &places)
            .unwrap()
            .root_dir(),
        ".."
    );
    assert_eq!(
        TemplateDir::discover(TemplateKind::RustAxum, None, &vec![probe("/x", false, false)]),
        Err(Error::Io(
            "Could not find template directory in any standard location".to_string()
        ))
    );
    assert_eq!(
        TemplateDir::discover(TemplateKind::RustAxum, None, &vec![probe("/x", true, false)]),
        Err(Error::Io("Template directory not found: /x/rust_axum".to_string()))
    );
}

#[test]
fn test_error_texts_and_constructors() {
    assert_eq!(Error::config("c"), Error::Config("c".to_string()));
    assert_eq!(Error::openapi("o"), Error::OpenApi("o".to_string()));
    assert_eq!(Error::template("t"), Error::Template("t".to_string()));
    assert_eq!(Error::Io("x".into()).to_string(), "I/O error: x");
    assert_eq!(Error::Yaml("x".into()).to_string(), "YAML parsing error: x");
    assert_eq!(Error::Json("x".into()).to_string(), "JSON parsing error: x");
    assert_eq!(Error::OpenApi("x".into()).to_string(), "OpenAPI error: x");
    assert_eq!(Error::Template("x".into()).to_string(), "Template error: x");
    assert_eq!(Error::Tera("x".into()).to_string(), "Template engine error: x");
    assert_eq!(Error::Config("x".into()).to_string(), "Configuration error: x");
}

#[test]
fn test_json_objects_keep_order_and_first_key() {
    let mut entries = members(r#"{"a": 1, "b": 2}"#);
    entries.push(("a".to_string(), JsonValue::Bool(true)));
    assert_eq!(entries_index(&entries, "a"), Some(0));
    assert_eq!(entries_index(&entries, "c"), None);
    assert_eq!(entries_get(&entries, "a"), Some(&json("1")));
    entries_insert(&mut entries, "b".to_string(), JsonValue::Null);
    entries_insert(&mut entries, "c".to_string(), json("[1.5, -2]"));
    let keys: Vec<&str> = entries.iter().map(|e| e.0.as_str()).collect();
    assert_eq!(keys, vec!["a", "b", "a", "c"]);
    assert_eq!(entries[1].1, JsonValue::Null);
    assert_eq!(clone_entries(&entries), entries);
    let whole = JsonValue::object(entries);
    assert_eq!(whole.clone(), whole);
    assert_eq!(whole.get("c"), Some(&json("[1.5, -2]")));
    assert_eq!(whole.get_str("a"), None);
    assert_eq!(whole.get_bool("a"), None);
    assert_eq!(json("[1]").get("a"), None);
    assert!(json("null").is_null());
    assert_eq!(json("true").as_bool(), Some(true));
    assert_eq!(JsonValue::unsigned(8080), json("8080"));
    assert_eq!(JsonValue::string("s").as_str(), Some("s"));
    assert_eq!(JsonValue::array(vec![]).as_array(), Some(&vec![]));
}

#[test]
fn test_text_helpers() {
    assert_eq!(replace("aaa", "aa", "b"), "ba");
    assert_eq!(replace("a.b.c", ".", ""), "abc");
    assert_eq!(replace("abc", "abcd", "x"), "abc");
    assert_eq!(replace("", "a", "x"), "");
    assert_eq!(trim(" \u{a0}\ta b\r\n"), "a b");
    assert_eq!(trim(" \n"), "");
    assert!(starts_with("abc", ""));
    assert!(starts_with("abc", "ab"));
    assert!(!starts_with("ab", "abc"));
    assert!(!starts_with("\u{e9}a", "e"));
}

#[test]
fn test_unique_operations() {
    let ctx = HarContext::from_json(&json(
        r#"{"log": {"version": "1.2", "entries": [
            {"request": {"method": "GET", "url": "https://example.com/api/items"}},
            {"request": {"method": "POST", "url": "https://example.com/api/items"}},
            {"request": {"method": "GET", "url": "https://example.com/api/items?again=1"}}
        ]}}"#,
    ))
    .unwrap();
    let ops = ctx.unique_operations();
    assert_eq!(ops.len(), 2);
    assert!(ops.contains(&HarOperation { method: "GET".into(), path: "/api/items".into() }));
    assert!(ops.contains(&HarOperation { method: "POST".into(), path: "/api/items".into() }));
}

#[test]
fn config_test_config_roundtrip() {
    let config = Config::new("agenterra-server", "openapi.json", "output");
    assert_eq!(config.project_name, "agenterra-server");
    assert_eq!(config.openapi_schema_path, "openapi.json");
    assert_eq!(config.output_dir, "output");
    assert_eq!(config.template_kind, default_template());
    assert!(!config.include_all);
    assert_eq!(config.include_operations, Vec::<String>::new());
    assert_eq!(config.exclude_operations, Vec::<String>::new());
    assert_eq!(config.base_url, None);
}

#[test]
fn test_template_dir_validation() {
    let found = DirProbe {
        root_dir: "/tmp/t/templates".to_string(),
        found: true,
        template_path: "/tmp/t/templates/rust_axum".to_string(),
        template_found: true,
    };
    // Test with explicit directory
    let template = TemplateDir::discover(TemplateKind::RustAxum, Some(&found), &vec![]);
    assert!(template.is_ok());
    assert_eq!(template.unwrap().template_path(), "/tmp/t/templates/rust_axum");

    // Test with non-existent directory
    let missing = DirProbe {
        root_dir: "/nonexistent".to_string(),
        found: false,
        template_path: "/nonexistent/rust_axum".to_string(),
        template_found: false,
    };
    let result = TemplateDir::discover(TemplateKind::RustAxum, Some(&missing), &vec![]);
    assert!(result.is_err());
}

#[test]
fn test_discovery_order_and_names() {
    assert_eq!(
        TemplateDir::discovery_order(),
        vec![
            DiscoveryPlace::EnvironmentOverride,
            DiscoveryPlace::DevelopmentCheckout,
            DiscoveryPlace::WorkingDirectory,
            DiscoveryPlace::BuildManifest,
            DiscoveryPlace::UserHome,
        ]
    );
    assert_eq!(
        DiscoveryPlace::EnvironmentOverride.variable(),
        Some("MCPGEN_TEMPLATE_DIR")
    );
    assert_eq!(DiscoveryPlace::BuildManifest.variable(), Some("CARGO_MANIFEST_DIR"));
    assert_eq!(DiscoveryPlace::UserHome.variable(), None);
    assert_eq!(TEMPLATES_MARKER, "templates");
    assert_eq!(USER_DIRECTORY, ".mcpgen");
    assert_eq!(ManifestSource::Yaml.file_name(), Some("manifest.yaml"));
    assert_eq!(ManifestSource::Toml.file_name(), Some("manifest.toml"));
    assert_eq!(ManifestSource::Default.file_name(), None);
    assert_eq!(TemplateKind::from_config("Custom"), TemplateKind::Custom);
    assert_eq!(TemplateKind::from_config("nothing"), TemplateKind::RustAxum);
}

#[test]
fn test_template_cache_writes_once() {
    let cache: TemplateCache<u32> = TemplateCache::new();
    assert_eq!(cache.len(), 0);
    assert_eq!(cache.get("/a"), None);
    let (cache, back) = cache.insert("/a".to_string(), 1);
    assert_eq!(back, None);
    let (cache, back) = cache.insert("/b".to_string(), 2);
    assert_eq!(back, None);
    let (cache, back) = cache.insert("/a".to_string(), 3);
    assert_eq!(back, Some(3));
    assert_eq!(cache.len(), 2);
    assert_eq!(cache.get("/a"), Some(&1));
    assert_eq!(cache.get("/b"), Some(&2));
    assert_eq!(cache.get("/c"), None);
}

#[test]
fn test_record_call_keeps_each_call_once() {
    let call = |method: &str, path: &str| HarOperation {
        method: method.to_string(),
        path: path.to_string(),
    };
    let mut calls = Vec::new();
    HarContext::record_call(&mut calls, "GET".to_string(), "/a".to_string());
    HarContext::record_call(&mut calls, "POST".to_string(), "/a".to_string());
    HarContext::record_call(&mut calls, "GET".to_string(), "/a".to_string());
    HarContext::record_call(&mut calls, "get".to_string(), "/a".to_string());
    HarContext::record_call(&mut calls, "GET".to_string(), "/b".to_string());
    HarContext::record_call(&mut calls, "POST".to_string(), "/a".to_string());
    assert_eq!(
        calls,
        vec![
            call("GET", "/a"),
            call("POST", "/a"),
            call("get", "/a"),
            call("GET", "/b"),
        ]
    );
}

#[test]
fn test_add_endpoint_sets_the_path() {
    let mut paths = members("{}");
    add_endpoint(&mut paths, "/a", "get".to_string(), json(r#"{"n": 1}"#));
    add_endpoint(&mut paths, "/b", "post".to_string(), json(r#"{"n": 2}"#));
    add_endpoint(&mut paths, "", "get".to_string(), json(r#"{"n": 3}"#));
    add_endpoint(&mut paths, "/c", String::new(), json(r#"{"n": 4}"#));
    add_endpoint(&mut paths, "/a", "put".to_string(), json(r#"{"n": 5}"#));
    assert_eq!(
        to_serde(&JsonValue::Object(paths)),
        value(r#"{"/a": {"put": {"n": 5}}, "/b": {"post": {"n": 2}}}"#)
    );
}
