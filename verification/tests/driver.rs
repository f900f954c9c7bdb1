use agenterra_core::config::Config;
use agenterra_core::error::Error;
use agenterra_core::json::{JsonNumber, JsonValue};
use agenterra_core::openapi::context::OpenApiContext;
use agenterra_core::templates::dir::DirProbe;
use agenterra_core::templates::driver::{DriverAction, DriverEvent, DriverState};
use agenterra_core::templates::kind::TemplateKind;
use agenterra_core::templates::plan::GenerationStep;

fn from_serde(v: &serde_json::Value) -> JsonValue {
    match v {
        serde_json::Value::Null => JsonValue::Null,
        serde_json::Value::Bool(b) => JsonValue::Bool(*b),
        serde_json::Value::Number(n) => {
            if let Some(u) = n.as_u64() {
                JsonValue::Number(JsonNumber::PosInt(u))
            } else if let Some(i) = n.as_i64() {
                JsonValue::Number(JsonNumber::NegInt(i))
            } else {
                JsonValue::Number(JsonNumber::Float(n.to_string()))
            }
        }
        serde_json::Value::String(s) => JsonValue::String(s.clone()),
        serde_json::Value::Array(items) => JsonValue::Array(items.iter().map(from_serde).collect()),
        serde_json::Value::Object(map) => {
            JsonValue::Object(map.iter().map(|(k, v)| (k.clone(), from_serde(v))).collect())
        }
    }
}

fn json(text: &str) -> JsonValue {
    from_serde(&serde_json::from_str(text).unwrap())
}

fn manifest() -> JsonValue {
    json(
        r#"{"name": "n", "description": "d", "version": "1", "language": "rust",
            "files": [
                {"source": "handler.rs.tera", "destination": "{endpoint}.rs", "for_each": "endpoint"},
                {"source": "mod.rs.tera", "destination": "mod.rs"}
            ],
            "hooks": {"post_generate": "cargo fmt"}}"#,
    )
}

fn document() -> OpenApiContext {
    OpenApiContext::new(json(
        r#"{"servers": [{"url": "https://h"}],
            "paths": {"/a": {"get": {"operationId": "getA"}}}}"#,
    ))
}

fn loaded(kind: TemplateKind) -> DriverState {
    DriverState::new(kind)
        .advance(DriverEvent::DirectoryGiven {
            dir: "templates".to_string(),
            file_name: Some("templates".to_string()),
            parent: "".to_string(),
            joined: format!("templates/{}", kind.as_str()),
        })
        .advance(DriverEvent::ManifestRead { document: Some(manifest()) })
        .advance(DriverEvent::TemplatesCompiled {
            names: vec!["handler.rs.tera".to_string(), "mod.rs.tera".to_string()],
        })
}

fn request() -> DriverEvent {
    DriverEvent::DocumentLoaded {
        spec: document(),
        config: Config::new("p", "openapi.json", "out"),
        options: None,
    }
}

#[test]
fn test_run_goes_through_every_state() {
    let state = DriverState::new(TemplateKind::RustAxum);
    assert!(!state.is_over());
    assert_eq!(
        state.next_action(),
        DriverAction::ResolveDirectory { kind: TemplateKind::RustAxum }
    );
    let state = state.advance(DriverEvent::PlacesProbed {
        places: vec![
            DirProbe {
                root_dir: "/gone".to_string(),
                found: false,
                template_path: "/gone/rust_axum".to_string(),
                template_found: false,
            },
            DirProbe {
                root_dir: "..".to_string(),
                found: true,
                template_path: "../rust_axum".to_string(),
                template_found: true,
            },
        ],
    });
    assert_eq!(
        state.next_action(),
        DriverAction::LoadManifest { template_path: "../rust_axum".to_string() }
    );
    let state = state.advance(DriverEvent::ManifestRead { document: Some(manifest()) });
    assert_eq!(
        state.next_action(),
        DriverAction::CompileTemplates { pattern: "../rust_axum/**/*".to_string() }
    );
    let state = state.advance(DriverEvent::TemplatesCompiled { names: vec![] });
    assert_eq!(state.next_action(), DriverAction::LoadDocument);
    let state = state.advance(request());
    assert_eq!(state.next_action(), DriverAction::PrepareOutput { schemas: true });
    let mut state = state.advance(DriverEvent::OutputPrepared);

    let mut performed = Vec::new();
    let mut phases = Vec::new();
    loop {
        match state.next_action() {
            DriverAction::Perform { step } => {
                phases.push(match &state {
                    DriverState::Generating { .. } => "generating",
                    DriverState::PostHooksRun { .. } => "hooks",
                    _ => "other",
                });
                performed.push(match step {
                    GenerationStep::Render { destination, .. } => destination,
                    GenerationStep::WriteSchema { destination, .. } => destination,
                    GenerationStep::RunHook { command } => command,
                });
            }
            DriverAction::Finish => break,
            other => panic!("unexpected action {:?}", other),
        }
        state = state.advance(DriverEvent::StepDone);
    }
    assert_eq!(
        performed,
        vec!["schemas/get_a.json", "get_a.rs", "mod.rs", "cargo fmt"]
    );
    assert_eq!(phases, vec!["generating", "generating", "generating", "hooks"]);
    assert_eq!(state, DriverState::Done);
    assert!(state.is_over());
    assert_eq!(state.advance(DriverEvent::StepDone), DriverState::Done);
}

#[test]
fn test_run_without_manifest_and_without_steps() {
    let state = DriverState::new(TemplateKind::RustAxum)
        .advance(DriverEvent::DirectoryGiven {
            dir: "t/rust_axum".to_string(),
            file_name: Some("rust_axum".to_string()),
            parent: "t".to_string(),
            joined: "t/rust_axum/rust_axum".to_string(),
        })
        .advance(DriverEvent::ManifestRead { document: None });
    assert_eq!(
        state.next_action(),
        DriverAction::CompileTemplates { pattern: "t/rust_axum/**/*".to_string() }
    );
    let state = state
        .advance(DriverEvent::TemplatesCompiled { names: vec![] })
        .advance(request());
    assert_eq!(state.next_action(), DriverAction::PrepareOutput { schemas: false });
    let state = state.advance(DriverEvent::OutputPrepared);
    assert_eq!(state, DriverState::Done);
    assert_eq!(state.next_action(), DriverAction::Finish);
}

#[test]
fn test_run_fails_with_the_error_that_was_found_or_reported() {
    let not_found = DriverState::new(TemplateKind::RustAxum)
        .advance(DriverEvent::PlacesProbed { places: vec![] });
    assert_eq!(
        not_found.next_action(),
        DriverAction::Abort {
            error: Error::Io(
                "Could not find template directory in any standard location".to_string()
            )
        }
    );
    assert!(not_found.is_over());

    let bad_manifest = DriverState::new(TemplateKind::RustAxum)
        .advance(DriverEvent::DirectoryGiven {
            dir: "t".to_string(),
            file_name: Some("t".to_string()),
            parent: "".to_string(),
            joined: "t/rust_axum".to_string(),
        })
        .advance(DriverEvent::ManifestRead { document: Some(json("[]")) });
    assert_eq!(
        bad_manifest,
        DriverState::Failed { error: Error::Template("Invalid template manifest".to_string()) }
    );

    let no_paths = loaded(TemplateKind::RustAxum).advance(DriverEvent::DocumentLoaded {
        spec: OpenApiContext::new(json("{}")),
        config: Config::new("p", "s", "o"),
        options: None,
    });
    assert_eq!(
        no_paths,
        DriverState::Failed { error: Error::OpenApi("Missing 'paths' object".to_string()) }
    );

    let during = loaded(TemplateKind::RustAxum)
        .advance(request())
        .advance(DriverEvent::OutputPrepared)
        .advance(DriverEvent::StepDone)
        .advance(DriverEvent::Failure { error: Error::Template("boom".to_string()) });
    assert_eq!(
        during,
        DriverState::Failed { error: Error::Template("boom".to_string()) }
    );
    // Once failed, a run stays failed.
    assert_eq!(
        during.advance(DriverEvent::StepDone),
        DriverState::Failed { error: Error::Template("boom".to_string()) }
    );

    let early = DriverState::new(TemplateKind::Custom)
        .advance(DriverEvent::Failure { error: Error::Io("disk".to_string()) });
    assert_eq!(early, DriverState::Failed { error: Error::Io("disk".to_string()) });
}

#[test]
fn test_run_refuses_a_report_out_of_turn() {
    let out_of_turn = DriverState::Failed {
        error: Error::Config("The run is not in a state for what was reported".to_string()),
    };
    assert_eq!(
        DriverState::new(TemplateKind::RustAxum).advance(DriverEvent::StepDone),
        out_of_turn
    );
    assert_eq!(
        DriverState::new(TemplateKind::RustAxum)
            .advance(DriverEvent::ManifestRead { document: None }),
        out_of_turn
    );
    assert_eq!(
        loaded(TemplateKind::RustAxum).advance(DriverEvent::OutputPrepared),
        out_of_turn
    );
    assert_eq!(
        loaded(TemplateKind::RustAxum)
            .advance(request())
            .advance(DriverEvent::StepDone),
        out_of_turn
    );
    assert_eq!(
        loaded(TemplateKind::RustAxum)
            .advance(request())
            .advance(DriverEvent::OutputPrepared)
            .advance(DriverEvent::TemplatesCompiled { names: vec![] }),
        out_of_turn
    );
}
