//! The settings of one generation.

use crate::json::{opt_text, texts};
use crate::text::owned;
use crate::web::{serialize_url, url_serialization};
use vstd::prelude::*;

verus! {

/// The settings of one generation.
#[derive(Debug, PartialEq)]
pub struct Config {
    pub project_name: String,
    /// Where the OpenAPI document is: a path or a URL.
    pub openapi_schema_path: String,
    /// The directory that the project is generated into.
    pub output_dir: String,
    /// The identifier of the kind of template.
    pub template_kind: String,
    /// The directory of the templates, where it is not to be discovered.
    pub template_dir: Option<String>,
    /// Whether all operations are included.
    pub include_all: bool,
    /// The operations to include where not all are.
    pub include_operations: Vec<String>,
    /// The operations to leave out.
    pub exclude_operations: Vec<String>,
    /// The base URL of the API, in the form in which URLs are written out,
    /// for a document that declares only a path.
    pub base_url: Option<String>,
}

/// The model of a [`Config`].
pub struct ConfigView {
    pub project_name: Seq<char>,
    pub openapi_schema_path: Seq<char>,
    pub output_dir: Seq<char>,
    pub template_kind: Seq<char>,
    pub template_dir: Option<Seq<char>>,
    pub include_all: bool,
    pub include_operations: Seq<Seq<char>>,
    pub exclude_operations: Seq<Seq<char>>,
    pub base_url: Option<Seq<char>>,
}

impl View for Config {
    type V = ConfigView;

    open spec fn view(&self) -> ConfigView {
        ConfigView {
            project_name: self.project_name@,
            openapi_schema_path: self.openapi_schema_path@,
            output_dir: self.output_dir@,
            template_kind: self.template_kind@,
            template_dir: opt_text(self.template_dir),
            include_all: self.include_all,
            include_operations: texts(self.include_operations@),
            exclude_operations: texts(self.exclude_operations@),
            base_url: opt_text(self.base_url),
        }
    }
}

/// The kind of template that is used where none is chosen.
pub fn default_template() -> (r: String)
    ensures
        r@ == "rust_axum"@,
{
    owned("rust_axum")
}

impl Config {
    /// The settings for a project, with everything else at its default: the
    /// Rust templates, discovered; no operation selected or left out; no
    /// base URL.
    pub fn new(project_name: &str, openapi_schema_path: &str, output_dir: &str) -> (r: Config)
        ensures
            r@ == (ConfigView {
                project_name: project_name@,
                openapi_schema_path: openapi_schema_path@,
                output_dir: output_dir@,
                template_kind: "rust_axum"@,
                template_dir: None,
                include_all: false,
                include_operations: Seq::empty(),
                exclude_operations: Seq::empty(),
                base_url: None,
            }),
    {
        let r = Config {
            project_name: owned(project_name),
            openapi_schema_path: owned(openapi_schema_path),
            output_dir: owned(output_dir),
            template_kind: default_template(),
            template_dir: None,
            include_all: false,
            include_operations: Vec::new(),
            exclude_operations: Vec::new(),
            base_url: None,
        };
        assert(r@.include_operations =~= Seq::<Seq<char>>::empty());
        assert(r@.exclude_operations =~= Seq::<Seq<char>>::empty());
        r
    }

    /// Sets the base URL from its text. The text must be an absolute URL; it
    /// is kept in the form in which URLs are written out. Any other text
    /// leaves the settings as they are and is reported by `false`.
    pub fn set_base_url(&mut self, url: &str) -> (r: bool)
        ensures
            r == url_serialization(url@) is Some,
            r ==> final(self)@ == (ConfigView {
                base_url: url_serialization(url@),
                ..old(self)@
            }),
            !r ==> final(self)@ == old(self)@,
    {
        match serialize_url(url) {
            Some(text) => {
                self.base_url = Some(text);
                true
            },
            None => false,
        }
    }
}

} // verus!
