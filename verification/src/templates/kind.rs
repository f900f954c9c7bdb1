//! The kinds of template: one for each target language and framework.

use crate::chars::{is_plain, lemma_lowercase_of_plain_text, lowercase_of, str_to_lowercase};
use crate::text::{concat, str_eq};
use std::str::FromStr;
use vstd::prelude::*;

verus! {

/// A supported target language and framework.
#[derive(Debug, Clone, Copy, PartialEq, Eq, Hash, Structural)]
pub enum TemplateKind {
    /// Rust with the Axum web framework.
    RustAxum,
    /// Python with FastAPI.
    PythonFastAPI,
    /// TypeScript with Express.
    TypeScriptExpress,
    /// Templates at a path of the user's.
    Custom,
}

/// The identifier of a kind.
pub open spec fn kind_name(kind: TemplateKind) -> Seq<char> {
    match kind {
        TemplateKind::RustAxum => "rust_axum"@,
        TemplateKind::PythonFastAPI => "python_fastapi"@,
        TemplateKind::TypeScriptExpress => "typescript_express"@,
        TemplateKind::Custom => "custom"@,
    }
}

/// The kind that an identifier names, whatever the case of its letters.
pub open spec fn kind_named(name: Seq<char>) -> Option<TemplateKind> {
    kind_with_identifier(lowercase_of(name))
}

/// The kind whose identifier is exactly `lower`.
pub open spec fn kind_with_identifier(lower: Seq<char>) -> Option<TemplateKind> {
    if lower == "rust_axum"@ {
        Some(TemplateKind::RustAxum)
    } else if lower == "python_fastapi"@ {
        Some(TemplateKind::PythonFastAPI)
    } else if lower == "typescript_express"@ {
        Some(TemplateKind::TypeScriptExpress)
    } else if lower == "custom"@ {
        Some(TemplateKind::Custom)
    } else {
        None
    }
}

/// All kinds, in the order of their declaration.
pub open spec fn all_kinds() -> Seq<TemplateKind> {
    seq![
        TemplateKind::RustAxum,
        TemplateKind::PythonFastAPI,
        TemplateKind::TypeScriptExpress,
        TemplateKind::Custom,
    ]
}

impl TemplateKind {
    /// The identifier of the kind.
    pub fn as_str(&self) -> (r: &'static str)
        ensures
            r@ == kind_name(*self),
    {
        match self {
            TemplateKind::RustAxum => "rust_axum",
            TemplateKind::PythonFastAPI => "python_fastapi",
            TemplateKind::TypeScriptExpress => "typescript_express",
            TemplateKind::Custom => "custom",
        }
    }

    /// The identifier of the kind, as an owned string.
    pub fn to_string(&self) -> (r: String)
        ensures
            r@ == kind_name(*self),
    {
        crate::text::owned(self.as_str())
    }

    /// All kinds, in the order of their declaration.
    pub fn all() -> (r: Vec<TemplateKind>)
        ensures
            r@ == all_kinds(),
    {
        let kinds = vec![
            TemplateKind::RustAxum,
            TemplateKind::PythonFastAPI,
            TemplateKind::TypeScriptExpress,
            TemplateKind::Custom,
        ];
        assert(kinds@ =~= all_kinds());
        kinds
    }

    /// The kind whose identifier is exactly `lower`, a text in lowercase;
    /// none for any other text.
    pub fn from_identifier(lower: &str) -> (r: Option<TemplateKind>)
        ensures
            r == kind_with_identifier(lower@),
    {
        if str_eq(lower, "rust_axum") {
            Some(TemplateKind::RustAxum)
        } else if str_eq(lower, "python_fastapi") {
            Some(TemplateKind::PythonFastAPI)
        } else if str_eq(lower, "typescript_express") {
            Some(TemplateKind::TypeScriptExpress)
        } else if str_eq(lower, "custom") {
            Some(TemplateKind::Custom)
        } else {
            None
        }
    }

    /// The kind that an identifier names, whatever the case of its letters;
    /// for any other text an error that quotes it. The identifier of a kind
    /// gives that kind.
    pub fn parse(s: &str) -> (r: Result<TemplateKind, String>)
        ensures
            match r {
                Ok(kind) => kind_named(s@) == Some(kind),
                Err(msg) => kind_named(s@) is None && msg@ == "Unknown template kind: "@ + s@,
            },
            forall|kind: TemplateKind|
                s@ == #[trigger] kind_name(kind) ==> r == Ok::<TemplateKind, String>(kind),
    {
        proof {
            assert forall|kind: TemplateKind| s@ == #[trigger] kind_name(kind) implies kind_named(
                s@,
            ) == Some(kind) by {
                lemma_kind_name_round_trip(kind);
            }
        }
        let lower = str_to_lowercase(s);
        match TemplateKind::from_identifier(lower.as_str()) {
            Some(kind) => Ok(kind),
            None => Err(concat("Unknown template kind: ", s)),
        }
    }
}

/// Each kind is the one that its own identifier names, and no other text
/// in lowercase names it.
pub proof fn lemma_identifier_names_its_kind(kind: TemplateKind, text: Seq<char>)
    ensures
        kind_with_identifier(kind_name(kind)) == Some(kind),
        kind_with_identifier(text) == Some(kind) <==> text == kind_name(kind),
{
    reveal_strlit("rust_axum");
    reveal_strlit("python_fastapi");
    reveal_strlit("typescript_express");
    reveal_strlit("custom");
    assert("rust_axum"@.len() == 9);
    assert("python_fastapi"@.len() == 14);
    assert("typescript_express"@.len() == 18);
    assert("custom"@.len() == 6);
}

proof fn lemma_kind_names_are_plain(kind: TemplateKind)
    ensures
        is_plain(kind_name(kind)),
{
    reveal_strlit("rust_axum");
    reveal_strlit("python_fastapi");
    reveal_strlit("typescript_express");
    reveal_strlit("custom");
    match kind {
        TemplateKind::RustAxum => {
            let t = seq!['r', 'u', 's', 't', '_', 'a', 'x', 'u', 'm'];
            assert("rust_axum"@ =~= t);
            assert(is_plain(t));
        },
        TemplateKind::PythonFastAPI => {
            let t = seq!['p', 'y', 't', 'h', 'o', 'n', '_', 'f', 'a', 's', 't', 'a', 'p', 'i'];
            assert("python_fastapi"@ =~= t);
            assert(is_plain(t));
        },
        TemplateKind::TypeScriptExpress => {
            let t = seq![
                't',
                'y',
                'p',
                'e',
                's',
                'c',
                'r',
                'i',
                'p',
                't',
                '_',
                'e',
                'x',
                'p',
                'r',
                'e',
                's',
                's',
            ];
            assert("typescript_express"@ =~= t);
            assert(is_plain(t));
        },
        TemplateKind::Custom => {
            let t = seq!['c', 'u', 's', 't', 'o', 'm'];
            assert("custom"@ =~= t);
            assert(is_plain(t));
        },
    }
}

/// Every kind is named by its own identifier: reading the identifier of a
/// kind gives that kind back.
pub proof fn lemma_kind_name_round_trip(kind: TemplateKind)
    ensures
        kind_named(kind_name(kind)) == Some(kind),
{
    lemma_kind_names_are_plain(kind);
    lemma_lowercase_of_plain_text(kind_name(kind));
    lemma_identifier_names_its_kind(kind, kind_name(kind));
}

impl TemplateKind {
    /// The kind that the settings name; the default kind where they name
    /// none that is known.
    pub fn from_config(name: &str) -> (r: TemplateKind)
        ensures
            r == match kind_named(name@) {
                Some(kind) => kind,
                None => TemplateKind::RustAxum,
            },
            forall|kind: TemplateKind| name@ == #[trigger] kind_name(kind) ==> r == kind,
    {
        match TemplateKind::parse(name) {
            Ok(kind) => kind,
            Err(_) => TemplateKind::RustAxum,
        }
    }
}

impl Default for TemplateKind {
    fn default() -> (r: TemplateKind)
        ensures
            r == TemplateKind::RustAxum,
    {
        TemplateKind::RustAxum
    }
}

impl FromStr for TemplateKind {
    type Err = String;

    fn from_str(s: &str) -> (r: Result<TemplateKind, String>)
        ensures
            match r {
                Ok(v) => kind_named(s@) == Some(v),
                Err(msg) => kind_named(s@) is None && msg@ == "Unknown template kind: "@ + s@,
            },
            forall|kind: TemplateKind|
                s@ == #[trigger] kind_name(kind) ==> r == Ok::<TemplateKind, String>(kind),
    {
        TemplateKind::parse(s)
    }
}

} // verus!
