//! Properties and parameters with their Rust types, for templates that take
//! them as flat records.

use crate::json::{Json, JsonValue, opt_text};
use crate::openapi::schema::value::SchemaValue;
use crate::text::owned;
use vstd::prelude::*;

verus! {

/// A property of a schema.
#[derive(Debug, PartialEq)]
pub struct PropertyInfo {
    pub name: String,
    pub rust_type: String,
    /// The type as the document names it.
    pub openapi_type: String,
    /// The format as the document names it, such as `date-time`.
    pub format: Option<String>,
    pub title: String,
    pub description: String,
    /// The example, where it is a text.
    pub example: String,
    pub required: bool,
    /// The whole schema of the property.
    pub schema: SchemaValue,
    pub elastic_type: Option<String>,
}

/// The model of a [`PropertyInfo`].
pub struct PropertyView {
    pub name: Seq<char>,
    pub rust_type: Seq<char>,
    pub openapi_type: Seq<char>,
    pub format: Option<Seq<char>>,
    pub title: Seq<char>,
    pub description: Seq<char>,
    pub example: Seq<char>,
    pub required: bool,
    pub schema: Json,
    pub elastic_type: Option<Seq<char>>,
}

impl View for PropertyInfo {
    type V = PropertyView;

    open spec fn view(&self) -> PropertyView {
        PropertyView {
            name: self.name@,
            rust_type: self.rust_type@,
            openapi_type: self.openapi_type@,
            format: opt_text(self.format),
            title: self.title@,
            description: self.description@,
            example: self.example@,
            required: self.required,
            schema: self.schema@,
            elastic_type: opt_text(self.elastic_type),
        }
    }
}

/// A parameter of an operation.
#[derive(Debug, PartialEq)]
pub struct ParameterInfo {
    pub name: String,
    pub rust_type: String,
    /// The type as the document names it.
    pub openapi_type: String,
    pub format: Option<String>,
    pub description: String,
    /// The description as the document gives it.
    pub description_raw: String,
    /// The example, where it is a text.
    pub example: String,
    /// The example as the document gives it.
    pub example_raw: String,
    pub required: bool,
    /// The whole schema of the parameter.
    pub schema: SchemaValue,
}

/// The model of a [`ParameterInfo`].
pub struct ParameterDetailView {
    pub name: Seq<char>,
    pub rust_type: Seq<char>,
    pub openapi_type: Seq<char>,
    pub format: Option<Seq<char>>,
    pub description: Seq<char>,
    pub description_raw: Seq<char>,
    pub example: Seq<char>,
    pub example_raw: Seq<char>,
    pub required: bool,
    pub schema: Json,
}

impl View for ParameterInfo {
    type V = ParameterDetailView;

    open spec fn view(&self) -> ParameterDetailView {
        ParameterDetailView {
            name: self.name@,
            rust_type: self.rust_type@,
            openapi_type: self.openapi_type@,
            format: opt_text(self.format),
            description: self.description@,
            description_raw: self.description_raw@,
            example: self.example@,
            example_raw: self.example_raw@,
            required: self.required,
            schema: self.schema@,
        }
    }
}

impl PropertyInfo {
    /// A property of the given name and types, with nothing else said of it.
    pub fn new(name: &str, openapi_type: &str, rust_type: &str) -> (r: PropertyInfo)
        ensures
            r@ == (PropertyView {
                name: name@,
                rust_type: rust_type@,
                openapi_type: openapi_type@,
                format: None,
                title: Seq::empty(),
                description: Seq::empty(),
                example: Seq::empty(),
                required: false,
                schema: Json::Null,
                elastic_type: None,
            }),
    {
        PropertyInfo {
            name: owned(name),
            openapi_type: owned(openapi_type),
            rust_type: owned(rust_type),
            format: None,
            title: String::new(),
            description: String::new(),
            example: String::new(),
            required: false,
            schema: SchemaValue::new(JsonValue::Null),
            elastic_type: None,
        }
    }
}

impl ParameterInfo {
    /// A parameter of the given name and types, with nothing else said of
    /// it.
    pub fn new(name: &str, openapi_type: &str, rust_type: &str) -> (r: ParameterInfo)
        ensures
            r@ == (ParameterDetailView {
                name: name@,
                rust_type: rust_type@,
                openapi_type: openapi_type@,
                format: None,
                description: Seq::empty(),
                description_raw: Seq::empty(),
                example: Seq::empty(),
                example_raw: Seq::empty(),
                required: false,
                schema: Json::Null,
            }),
    {
        ParameterInfo {
            name: owned(name),
            openapi_type: owned(openapi_type),
            rust_type: owned(rust_type),
            format: None,
            description: String::new(),
            description_raw: String::new(),
            example: String::new(),
            example_raw: String::new(),
            required: false,
            schema: SchemaValue::new(JsonValue::Null),
        }
    }
}

} // verus!
