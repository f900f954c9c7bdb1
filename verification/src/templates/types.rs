//! What a template is told of one parameter, whatever the target language.

use crate::json::{
    Json, json_from_opt, json_from_opt_text, json_of_opt, json_of_opt_text, JsonValue, Member,
    member, opt_json, opt_text,
};
use vstd::prelude::*;

verus! {

/// Where a parameter is sent.
#[derive(Debug, Clone, Copy, PartialEq, Eq, Structural)]
pub enum ParameterKind {
    Path,
    Query,
    Header,
    Cookie,
}

/// The word of the OpenAPI format for a location.
pub open spec fn parameter_kind_name(kind: ParameterKind) -> Seq<char> {
    match kind {
        ParameterKind::Path => "path"@,
        ParameterKind::Query => "query"@,
        ParameterKind::Header => "header"@,
        ParameterKind::Cookie => "cookie"@,
    }
}

/// The location that a word of the OpenAPI format names; `Query` for any
/// other word.
pub open spec fn parameter_kind_of(location: Seq<char>) -> ParameterKind {
    if location == "path"@ {
        ParameterKind::Path
    } else if location == "query"@ {
        ParameterKind::Query
    } else if location == "header"@ {
        ParameterKind::Header
    } else if location == "cookie"@ {
        ParameterKind::Cookie
    } else {
        ParameterKind::Query
    }
}

impl ParameterKind {
    /// The word of the OpenAPI format for the location.
    pub fn as_str(&self) -> (r: &'static str)
        ensures
            r@ == parameter_kind_name(*self),
    {
        match self {
            ParameterKind::Path => "path",
            ParameterKind::Query => "query",
            ParameterKind::Header => "header",
            ParameterKind::Cookie => "cookie",
        }
    }

    /// The location that a word of the OpenAPI format names; `Query` for any
    /// other word.
    pub fn from_location(location: &str) -> (r: ParameterKind)
        ensures
            r == parameter_kind_of(location@),
    {
        if crate::text::str_eq(location, "path") {
            ParameterKind::Path
        } else if crate::text::str_eq(location, "query") {
            ParameterKind::Query
        } else if crate::text::str_eq(location, "header") {
            ParameterKind::Header
        } else if crate::text::str_eq(location, "cookie") {
            ParameterKind::Cookie
        } else {
            ParameterKind::Query
        }
    }
}

/// One parameter with the type it has in the target language.
#[derive(Debug, PartialEq)]
pub struct TemplateParameterInfo {
    pub name: String,
    pub target_type: String,
    pub description: Option<String>,
    pub example: Option<JsonValue>,
    pub kind: ParameterKind,
}

/// The model of a [`TemplateParameterInfo`].
pub struct TemplateParameterView {
    pub name: Seq<char>,
    pub target_type: Seq<char>,
    pub description: Option<Seq<char>>,
    pub example: Option<Json>,
    pub kind: ParameterKind,
}

impl View for TemplateParameterInfo {
    type V = TemplateParameterView;

    open spec fn view(&self) -> TemplateParameterView {
        TemplateParameterView {
            name: self.name@,
            target_type: self.target_type@,
            description: opt_text(self.description),
            example: opt_json(self.example),
            kind: self.kind,
        }
    }
}

/// The parameter as a document for the template.
pub open spec fn template_parameter_to_json(p: TemplateParameterView) -> Json {
    Json::Object(
        seq![
            Member { key: "name"@, value: Json::String(p.name) },
            Member { key: "target_type"@, value: Json::String(p.target_type) },
            Member { key: "description"@, value: json_of_opt_text(p.description) },
            Member { key: "example"@, value: json_of_opt(p.example) },
            Member { key: "kind"@, value: Json::String(parameter_kind_name(p.kind)) },
        ],
    )
}

impl TemplateParameterInfo {
    /// The parameter as a document for the template.
    pub fn to_json(&self) -> (r: JsonValue)
        ensures
            r@ == template_parameter_to_json(self@),
    {
        let mut entries: Vec<(String, JsonValue)> = Vec::new();
        entries.push(member("name", JsonValue::String(self.name.clone())));
        entries.push(member("target_type", JsonValue::String(self.target_type.clone())));
        entries.push(member("description", json_from_opt_text(&self.description)));
        entries.push(member("example", json_from_opt(&self.example)));
        entries.push(member("kind", JsonValue::string(self.kind.as_str())));
        let r = JsonValue::object(entries);
        assert(r@->Object_0 =~= template_parameter_to_json(self@)->Object_0);
        r
    }
}

} // verus!
