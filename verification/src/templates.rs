//! Templates: their kinds, their directory, and the driver that plans what
//! is rendered.

pub mod cache;
pub mod context;
pub mod dereference;
pub mod dir;
pub mod driver;
pub mod kind;
pub mod manager;
pub mod operation;
pub mod options;
pub mod plan;
pub mod types;

pub use crate::templates::dir::TemplateDir;
pub use crate::templates::kind::TemplateKind;
pub use crate::templates::manager::TemplateManager;
pub use crate::templates::options::TemplateOptions;
pub use crate::templates::types::{ParameterKind, TemplateParameterInfo};
