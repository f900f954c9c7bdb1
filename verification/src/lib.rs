//! Scaffolding of server projects from OpenAPI documents: the pure core.
//!
//! The crate turns a parsed OpenAPI document into a normalized operation
//! model, derives the per-endpoint rendering context, and plans which
//! templates are rendered to which destinations. Reading files, fetching
//! documents, rendering templates and running hooks are left to the caller,
//! who is told step by step what to do.
//!
//! * [`json`] holds documents as plain data, with the model that contracts
//!   speak of.
//! * [`utils`] converts identifiers between snake case and camel case.
//! * [`openapi`] reads operations, parameters, responses and properties.
//! * [`builders`] derives the context of an endpoint for a target language.
//! * [`manifest`] describes which template goes to which file.
//! * [`templates`] plans a generation and drives it as a state machine.
//! * [`har`] reads endpoints from recorded traffic.
//! * [`chars`], [`web`] and one function of [`openapi::sanitize`] are the
//!   trusted boundary to `std`, `url` and `regex`.

pub mod builders;
pub mod chars;
pub mod config;
pub mod error;
pub mod har;
pub mod json;
pub mod manifest;
pub mod openapi;
pub mod template;
pub mod templates;
pub mod text;
pub mod utils;
pub mod web;

pub use crate::config::Config;
pub use crate::error::Error;
pub use crate::json::{JsonNumber, JsonValue};
pub use crate::openapi::context::OpenApiContext;
pub use crate::templates::dir::TemplateDir;
pub use crate::templates::kind::TemplateKind;
pub use crate::templates::manager::TemplateManager;
pub use crate::templates::options::TemplateOptions;
