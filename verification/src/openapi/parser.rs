//! Readers of parameters and properties as flat records, and builders of
//! the schemas and documents that go with them.

pub mod parameter;
pub mod property;
pub mod schema;
