use agenterra_core::template::Template;
use agenterra_core::templates::kind::TemplateKind;
use std::collections::HashSet;

#[test]
fn test_template_parsing() {
    assert_eq!("rust-axum".parse::<Template>().unwrap(), Template::RustAxum);
    assert_eq!(
        "python-fastapi".parse::<Template>().unwrap(),
        Template::PythonFastAPI
    );
    assert_eq!(
        "typescript-express".parse::<Template>().unwrap(),
        Template::TypeScriptExpress
    );
    assert!("invalid".parse::<Template>().is_err());
}

#[test]
fn test_template_display() {
    assert_eq!(Template::RustAxum.to_string(), "rust-axum");
    assert_eq!(Template::PythonFastAPI.to_string(), "python-fastapi");
    assert_eq!(
        Template::TypeScriptExpress.to_string(),
        "typescript-express"
    );
}

#[test]
fn test_as_str() {
    assert_eq!(TemplateKind::RustAxum.as_str(), "rust_axum");
    assert_eq!(TemplateKind::PythonFastAPI.as_str(), "python_fastapi");
    assert_eq!(
        TemplateKind::TypeScriptExpress.as_str(),
        "typescript_express"
    );
    assert_eq!(TemplateKind::Custom.as_str(), "custom");
}

#[test]
fn test_display() {
    assert_eq!(format!("{}", TemplateKind::RustAxum.to_string()), "rust_axum");
    assert_eq!(
        format!("{}", TemplateKind::PythonFastAPI.to_string()),
        "python_fastapi"
    );
    assert_eq!(
        format!("{}", TemplateKind::TypeScriptExpress.to_string()),
        "typescript_express"
    );
    assert_eq!(format!("{}", TemplateKind::Custom.to_string()), "custom");
}

#[test]
fn test_from_str() {
    assert_eq!(
        "rust_axum".parse::<TemplateKind>().unwrap(),
        TemplateKind::RustAxum
    );
    assert_eq!(
        "python_fastapi".parse::<TemplateKind>().unwrap(),
        TemplateKind::PythonFastAPI
    );
    assert_eq!(
        "typescript_express".parse::<TemplateKind>().unwrap(),
        TemplateKind::TypeScriptExpress
    );
    assert_eq!(
        "custom".parse::<TemplateKind>().unwrap(),
        TemplateKind::Custom
    );

    // Test case insensitivity
    assert_eq!(
        "RUST_AXUM".parse::<TemplateKind>().unwrap(),
        TemplateKind::RustAxum
    );
    assert_eq!(
        "Python_FastAPI".parse::<TemplateKind>().unwrap(),
        TemplateKind::PythonFastAPI
    );

    // Test invalid variants
    assert!("invalid".parse::<TemplateKind>().is_err());
    assert!("".parse::<TemplateKind>().is_err());
}

#[test]
fn test_default() {
    assert_eq!(TemplateKind::default(), TemplateKind::RustAxum);
}

#[test]
fn test_all() {
    let all_kinds: Vec<_> = TemplateKind::all().into_iter().collect();
    assert_eq!(all_kinds.len(), 4);

    let unique_kinds: HashSet<_> = TemplateKind::all().into_iter().collect();
    assert_eq!(unique_kinds.len(), 4);

    assert!(unique_kinds.contains(&TemplateKind::RustAxum));
    assert!(unique_kinds.contains(&TemplateKind::PythonFastAPI));
    assert!(unique_kinds.contains(&TemplateKind::TypeScriptExpress));
    assert!(unique_kinds.contains(&TemplateKind::Custom));
}

#[test]
fn test_equality() {
    assert_eq!(TemplateKind::RustAxum, TemplateKind::RustAxum);
    assert_ne!(TemplateKind::RustAxum, TemplateKind::PythonFastAPI);
    assert_ne!(TemplateKind::PythonFastAPI, TemplateKind::TypeScriptExpress);
    assert_ne!(TemplateKind::TypeScriptExpress, TemplateKind::Custom);
}

#[test]
fn test_clone() {
    let kind = TemplateKind::RustAxum;
    let cloned = kind;
    assert_eq!(kind, cloned);

    let boxed = Box::new(kind);
    assert_eq!(*boxed, TemplateKind::RustAxum);
}

#[test]
fn test_template_default_is_rust_axum() {
    assert_eq!(Template::default(), Template::RustAxum);
    assert_eq!(Template::Custom.as_str(), "custom");
}

#[test]
fn test_parse_error_quotes_the_input() {
    assert_eq!(
        TemplateKind::parse("nope"),
        Err("Unknown template kind: nope".to_string())
    );
    assert_eq!(
        Template::parse("Rust_Axum"),
        Err("Unknown template: Rust_Axum".to_string())
    );
    assert_eq!(Template::parse("RUST-AXUM"), Ok(Template::RustAxum));
}

#[test]
fn test_identifiers_name_their_kinds_exactly() {
    for kind in TemplateKind::all() {
        assert_eq!(TemplateKind::from_identifier(kind.as_str()), Some(kind));
    }
    assert_eq!(
        TemplateKind::from_identifier("python_fastapi"),
        Some(TemplateKind::PythonFastAPI)
    );
    assert_eq!(TemplateKind::from_identifier("RUST_AXUM"), None);
    assert_eq!(TemplateKind::from_identifier("rust-axum"), None);
    assert_eq!(TemplateKind::from_identifier(""), None);
    for template in [
        Template::RustAxum,
        Template::PythonFastAPI,
        Template::TypeScriptExpress,
        Template::Custom,
    ] {
        assert_eq!(Template::from_identifier(template.as_str()), Some(template));
    }
    assert_eq!(
        Template::from_identifier("typescript-express"),
        Some(Template::TypeScriptExpress)
    );
    assert_eq!(Template::from_identifier("Rust-Axum"), None);
    assert_eq!(Template::from_identifier("rust_axum"), None);
    assert_eq!(Template::from_identifier("custom "), None);
}
