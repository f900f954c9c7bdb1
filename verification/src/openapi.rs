//! The OpenAPI document and the operation model derived from it.

pub mod context;
pub mod fields;
pub mod model;
pub mod parser;
pub mod properties;
pub mod sanitize;
pub mod schema;
pub mod types;
pub mod unique;
