//! A schema as it was parsed from JSON or YAML.

use crate::chars::is_white;
use crate::json::{Json, JsonValue};
use crate::text::{lemma_trim_start_white_skip, to_chars, trim_start_white};
use vstd::prelude::*;

verus! {

/// The notation of a text that holds a schema.
#[derive(Debug, Clone, Copy, PartialEq, Eq, Structural)]
pub enum SourceFormat {
    Json,
    Yaml,
}

impl Default for SourceFormat {
    fn default() -> (r: SourceFormat)
        ensures
            r == SourceFormat::Json,
    {
        SourceFormat::Json
    }
}

/// The notation that a text is taken to be in: JSON where its first
/// character after white space is an opening brace, else YAML.
pub open spec fn detected_format(content: Seq<char>) -> SourceFormat {
    let body = trim_start_white(content);
    if body.len() > 0 && body[0] == '{' {
        SourceFormat::Json
    } else {
        SourceFormat::Yaml
    }
}

impl SourceFormat {
    /// The notation that a text is taken to be in.
    pub fn detect(content: &str) -> (r: SourceFormat)
        ensures
            r == detected_format(content@),
    {
        let v = to_chars(content);
        let mut i: usize = 0;
        while i < v.len() && crate::chars::char_is_whitespace(v[i])
            invariant
                i <= v.len(),
                forall|j: int| 0 <= j < i ==> is_white(v@[j]),
            decreases v.len() - i,
        {
            i += 1;
        }
        proof {
            lemma_trim_start_white_skip(v@, i as int);
            let rest = v@.skip(i as int);
            if i < v.len() {
                assert(rest[0] == v@[i as int]);
            }
            assert(trim_start_white(rest) == rest);
        }
        if i < v.len() && v[i] == '{' {
            SourceFormat::Json
        } else {
            SourceFormat::Yaml
        }
    }
}

/// A schema, kept as a JSON document whatever it was parsed from.
#[derive(Debug, PartialEq)]
pub struct SchemaValue {
    pub inner: JsonValue,
}

impl View for SchemaValue {
    type V = Json;

    open spec fn view(&self) -> Json {
        self.inner@
    }
}

impl SchemaValue {
    /// The schema of a parsed document.
    pub fn new(inner: JsonValue) -> (r: SchemaValue)
        ensures
            r@ == inner@,
    {
        SchemaValue { inner }
    }

    /// The document of the schema.
    pub fn as_json(&self) -> (r: &JsonValue)
        ensures
            r@ == self@,
    {
        &self.inner
    }

    /// The document of the schema, given away.
    pub fn into_json(self) -> (r: JsonValue)
        ensures
            r@ == self@,
    {
        self.inner
    }

    /// A copy of the schema.
    pub fn duplicate(&self) -> (r: SchemaValue)
        ensures
            r@ == self@,
    {
        SchemaValue { inner: self.inner.clone() }
    }
}

} // verus!
