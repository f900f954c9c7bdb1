//! The template identifiers of the command line, written with hyphens.

use crate::chars::{is_plain, lemma_lowercase_of_plain_text, lowercase_of, str_to_lowercase};
use crate::text::{concat, str_eq};
use std::str::FromStr;
use vstd::prelude::*;

verus! {

/// A supported template.
#[derive(Debug, Clone, Copy, PartialEq, Eq, Structural)]
pub enum Template {
    /// Rust with the Axum web framework.
    RustAxum,
    /// Python with FastAPI.
    PythonFastAPI,
    /// TypeScript with Express.
    TypeScriptExpress,
    /// Templates at a path of the user's.
    Custom,
}

/// The identifier of a template.
pub open spec fn template_name(template: Template) -> Seq<char> {
    match template {
        Template::RustAxum => "rust-axum"@,
        Template::PythonFastAPI => "python-fastapi"@,
        Template::TypeScriptExpress => "typescript-express"@,
        Template::Custom => "custom"@,
    }
}

/// The template that an identifier names, whatever the case of its letters.
pub open spec fn template_named(name: Seq<char>) -> Option<Template> {
    template_with_identifier(lowercase_of(name))
}

/// The template whose identifier is exactly `lower`.
pub open spec fn template_with_identifier(lower: Seq<char>) -> Option<Template> {
    if lower == "rust-axum"@ {
        Some(Template::RustAxum)
    } else if lower == "python-fastapi"@ {
        Some(Template::PythonFastAPI)
    } else if lower == "typescript-express"@ {
        Some(Template::TypeScriptExpress)
    } else if lower == "custom"@ {
        Some(Template::Custom)
    } else {
        None
    }
}

impl Template {
    /// The identifier of the template.
    pub fn as_str(&self) -> (r: &'static str)
        ensures
            r@ == template_name(*self),
    {
        match self {
            Template::RustAxum => "rust-axum",
            Template::PythonFastAPI => "python-fastapi",
            Template::TypeScriptExpress => "typescript-express",
            Template::Custom => "custom",
        }
    }

    /// The identifier of the template, as an owned string.
    pub fn to_string(&self) -> (r: String)
        ensures
            r@ == template_name(*self),
    {
        crate::text::owned(self.as_str())
    }

    /// The template whose identifier is exactly `lower`, a text in
    /// lowercase; none for any other text.
    pub fn from_identifier(lower: &str) -> (r: Option<Template>)
        ensures
            r == template_with_identifier(lower@),
    {
        if str_eq(lower, "rust-axum") {
            Some(Template::RustAxum)
        } else if str_eq(lower, "python-fastapi") {
            Some(Template::PythonFastAPI)
        } else if str_eq(lower, "typescript-express") {
            Some(Template::TypeScriptExpress)
        } else if str_eq(lower, "custom") {
            Some(Template::Custom)
        } else {
            None
        }
    }

    /// The template that an identifier names, whatever the case of its
    /// letters; for any other text an error that quotes it.
    pub fn parse(s: &str) -> (r: Result<Template, String>)
        ensures
            match r {
                Ok(t) => template_named(s@) == Some(t),
                Err(msg) => template_named(s@) is None && msg@ == "Unknown template: "@ + s@,
            },
            forall|template: Template|
                s@ == #[trigger] template_name(template) ==> r == Ok::<Template, String>(template),
    {
        proof {
            assert forall|template: Template|
                s@ == #[trigger] template_name(template) implies template_named(s@) == Some(
                template,
            ) by {
                lemma_template_name_round_trip(template);
            }
        }
        let lower = str_to_lowercase(s);
        match Template::from_identifier(lower.as_str()) {
            Some(template) => Ok(template),
            None => Err(concat("Unknown template: ", s)),
        }
    }
}

/// Each template is the one that its own identifier names, and no other
/// text names it.
pub proof fn lemma_identifier_names_its_template(template: Template, text: Seq<char>)
    ensures
        template_with_identifier(template_name(template)) == Some(template),
        template_with_identifier(text) == Some(template) <==> text == template_name(template),
{
    reveal_strlit("rust-axum");
    reveal_strlit("python-fastapi");
    reveal_strlit("typescript-express");
    reveal_strlit("custom");
    assert("rust-axum"@.len() == 9);
    assert("python-fastapi"@.len() == 14);
    assert("typescript-express"@.len() == 18);
    assert("custom"@.len() == 6);
}

proof fn lemma_template_names_are_plain(template: Template)
    ensures
        is_plain(template_name(template)),
{
    reveal_strlit("rust-axum");
    reveal_strlit("python-fastapi");
    reveal_strlit("typescript-express");
    reveal_strlit("custom");
    match template {
        Template::RustAxum => {
            let t = seq!['r', 'u', 's', 't', '-', 'a', 'x', 'u', 'm'];
            assert("rust-axum"@ =~= t);
            assert(is_plain(t));
        },
        Template::PythonFastAPI => {
            let t = seq!['p', 'y', 't', 'h', 'o', 'n', '-', 'f', 'a', 's', 't', 'a', 'p', 'i'];
            assert("python-fastapi"@ =~= t);
            assert(is_plain(t));
        },
        Template::TypeScriptExpress => {
            let t = seq![
                't',
                'y',
                'p',
                'e',
                's',
                'c',
                'r',
                'i',
                'p',
                't',
                '-',
                'e',
                'x',
                'p',
                'r',
                'e',
                's',
                's',
            ];
            assert("typescript-express"@ =~= t);
            assert(is_plain(t));
        },
        Template::Custom => {
            let t = seq!['c', 'u', 's', 't', 'o', 'm'];
            assert("custom"@ =~= t);
            assert(is_plain(t));
        },
    }
}

/// Every template is named by its own identifier: reading the identifier
/// of a template gives that template back.
pub proof fn lemma_template_name_round_trip(template: Template)
    ensures
        template_named(template_name(template)) == Some(template),
{
    lemma_template_names_are_plain(template);
    lemma_lowercase_of_plain_text(template_name(template));
    lemma_identifier_names_its_template(template, template_name(template));
}

impl Default for Template {
    fn default() -> (r: Template)
        ensures
            r == Template::RustAxum,
    {
        Template::RustAxum
    }
}

impl FromStr for Template {
    type Err = String;

    fn from_str(s: &str) -> (r: Result<Template, String>)
        ensures
            match r {
                Ok(v) => template_named(s@) == Some(v),
                Err(msg) => template_named(s@) is None && msg@ == "Unknown template: "@ + s@,
            },
            forall|template: Template|
                s@ == #[trigger] template_name(template) ==> r == Ok::<Template, String>(template),
    {
        Template::parse(s)
    }
}

} // verus!
