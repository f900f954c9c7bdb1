//! The types and formats that a schema may name.

use crate::json::{Json, JsonValue, opt_text};
use crate::openapi::schema::value::SchemaValue;
use crate::text::str_eq;
use vstd::prelude::*;

verus! {

/// The type of a schema.
#[derive(Debug, Clone, Copy, PartialEq, Eq, Structural)]
pub enum SchemaType {
    String,
    /// A number with a fraction.
    Number,
    Integer,
    Boolean,
    Array,
    Object,
}

/// The word of the schema language for a type.
pub open spec fn schema_type_name(t: SchemaType) -> Seq<char> {
    match t {
        SchemaType::String => "string"@,
        SchemaType::Number => "number"@,
        SchemaType::Integer => "integer"@,
        SchemaType::Boolean => "boolean"@,
        SchemaType::Array => "array"@,
        SchemaType::Object => "object"@,
    }
}

/// The type that a word of the schema language names.
pub open spec fn schema_type_named(name: Seq<char>) -> Option<SchemaType> {
    if name == "string"@ {
        Some(SchemaType::String)
    } else if name == "number"@ {
        Some(SchemaType::Number)
    } else if name == "integer"@ {
        Some(SchemaType::Integer)
    } else if name == "boolean"@ {
        Some(SchemaType::Boolean)
    } else if name == "array"@ {
        Some(SchemaType::Array)
    } else if name == "object"@ {
        Some(SchemaType::Object)
    } else {
        None
    }
}

impl SchemaType {
    /// The word of the schema language for the type.
    pub fn as_str(&self) -> (r: &'static str)
        ensures
            r@ == schema_type_name(*self),
    {
        match self {
            SchemaType::String => "string",
            SchemaType::Number => "number",
            SchemaType::Integer => "integer",
            SchemaType::Boolean => "boolean",
            SchemaType::Array => "array",
            SchemaType::Object => "object",
        }
    }

    /// The type that a word of the schema language names.
    pub fn parse(name: &str) -> (r: Option<SchemaType>)
        ensures
            r == schema_type_named(name@),
    {
        if str_eq(name, "string") {
            Some(SchemaType::String)
        } else if str_eq(name, "number") {
            Some(SchemaType::Number)
        } else if str_eq(name, "integer") {
            Some(SchemaType::Integer)
        } else if str_eq(name, "boolean") {
            Some(SchemaType::Boolean)
        } else if str_eq(name, "array") {
            Some(SchemaType::Array)
        } else if str_eq(name, "object") {
            Some(SchemaType::Object)
        } else {
            None
        }
    }

    /// The type as a document: its word as a string.
    pub fn to_json(&self) -> (r: JsonValue)
        ensures
            r@ == Json::String(schema_type_name(*self)),
    {
        JsonValue::string(self.as_str())
    }

    /// The type that a document names: a string with the word of a type.
    pub fn from_json(v: &JsonValue) -> (r: Option<SchemaType>)
        ensures
            r == match v@ {
                Json::String(s) => schema_type_named(s),
                _ => None,
            },
    {
        match v.as_str() {
            Some(s) => SchemaType::parse(s),
            None => None,
        }
    }
}

/// A format that a schema may name.
#[derive(Debug, Clone, Copy, PartialEq, Eq, Structural)]
pub enum SchemaFormat {
    /// A date, such as 2025-05-29.
    Date,
    /// A date with a time.
    DateTime,
    /// A time of day.
    Time,
    /// A duration, such as P1DT2H.
    Duration,
    Email,
    Hostname,
    Ipv4,
    Ipv6,
    Uri,
    /// A URI or a relative reference.
    UriRef,
    Uuid,
}

/// The word of the schema language for a format.
pub open spec fn schema_format_name(f: SchemaFormat) -> Seq<char> {
    match f {
        SchemaFormat::Date => "date"@,
        SchemaFormat::DateTime => "date-time"@,
        SchemaFormat::Time => "time"@,
        SchemaFormat::Duration => "duration"@,
        SchemaFormat::Email => "email"@,
        SchemaFormat::Hostname => "hostname"@,
        SchemaFormat::Ipv4 => "ipv4"@,
        SchemaFormat::Ipv6 => "ipv6"@,
        SchemaFormat::Uri => "uri"@,
        SchemaFormat::UriRef => "uri-ref"@,
        SchemaFormat::Uuid => "uuid"@,
    }
}

/// The format that a word of the schema language names.
pub open spec fn schema_format_named(name: Seq<char>) -> Option<SchemaFormat> {
    if name == "date"@ {
        Some(SchemaFormat::Date)
    } else if name == "date-time"@ {
        Some(SchemaFormat::DateTime)
    } else if name == "time"@ {
        Some(SchemaFormat::Time)
    } else if name == "duration"@ {
        Some(SchemaFormat::Duration)
    } else if name == "email"@ {
        Some(SchemaFormat::Email)
    } else if name == "hostname"@ {
        Some(SchemaFormat::Hostname)
    } else if name == "ipv4"@ {
        Some(SchemaFormat::Ipv4)
    } else if name == "ipv6"@ {
        Some(SchemaFormat::Ipv6)
    } else if name == "uri"@ {
        Some(SchemaFormat::Uri)
    } else if name == "uri-ref"@ {
        Some(SchemaFormat::UriRef)
    } else if name == "uuid"@ {
        Some(SchemaFormat::Uuid)
    } else {
        None
    }
}

impl SchemaFormat {
    /// The word of the schema language for the format.
    pub fn as_str(&self) -> (r: &'static str)
        ensures
            r@ == schema_format_name(*self),
    {
        match self {
            SchemaFormat::Date => "date",
            SchemaFormat::DateTime => "date-time",
            SchemaFormat::Time => "time",
            SchemaFormat::Duration => "duration",
            SchemaFormat::Email => "email",
            SchemaFormat::Hostname => "hostname",
            SchemaFormat::Ipv4 => "ipv4",
            SchemaFormat::Ipv6 => "ipv6",
            SchemaFormat::Uri => "uri",
            SchemaFormat::UriRef => "uri-ref",
            SchemaFormat::Uuid => "uuid",
        }
    }

    /// The format that a word of the schema language names.
    pub fn parse(name: &str) -> (r: Option<SchemaFormat>)
        ensures
            r == schema_format_named(name@),
    {
        if str_eq(name, "date") {
            Some(SchemaFormat::Date)
        } else if str_eq(name, "date-time") {
            Some(SchemaFormat::DateTime)
        } else if str_eq(name, "time") {
            Some(SchemaFormat::Time)
        } else if str_eq(name, "duration") {
            Some(SchemaFormat::Duration)
        } else if str_eq(name, "email") {
            Some(SchemaFormat::Email)
        } else if str_eq(name, "hostname") {
            Some(SchemaFormat::Hostname)
        } else if str_eq(name, "ipv4") {
            Some(SchemaFormat::Ipv4)
        } else if str_eq(name, "ipv6") {
            Some(SchemaFormat::Ipv6)
        } else if str_eq(name, "uri") {
            Some(SchemaFormat::Uri)
        } else if str_eq(name, "uri-ref") {
            Some(SchemaFormat::UriRef)
        } else if str_eq(name, "uuid") {
            Some(SchemaFormat::Uuid)
        } else {
            None
        }
    }

    /// The format as a document: its word as a string.
    pub fn to_json(&self) -> (r: JsonValue)
        ensures
            r@ == Json::String(schema_format_name(*self)),
    {
        JsonValue::string(self.as_str())
    }

    /// The format that a document names: a string with the word of a format.
    pub fn from_json(v: &JsonValue) -> (r: Option<SchemaFormat>)
        ensures
            r == match v@ {
                Json::String(s) => schema_format_named(s),
                _ => None,
            },
    {
        match v.as_str() {
            Some(s) => SchemaFormat::parse(s),
            None => None,
        }
    }
}

/// What a schema may say of itself besides its type.
#[derive(Debug, PartialEq)]
pub struct SchemaMetadata {
    pub title: Option<String>,
    pub description: Option<String>,
    /// The value that is taken where none is given.
    pub default: Option<SchemaValue>,
    pub example: Option<SchemaValue>,
    pub deprecated: Option<bool>,
}

/// The model of [`SchemaMetadata`].
pub struct SchemaMetadataView {
    pub title: Option<Seq<char>>,
    pub description: Option<Seq<char>>,
    pub default: Option<Json>,
    pub example: Option<Json>,
    pub deprecated: Option<bool>,
}

/// The model of a schema that may be missing.
pub open spec fn opt_schema(o: Option<SchemaValue>) -> Option<Json> {
    match o {
        Some(v) => Some(v@),
        None => None,
    }
}

impl View for SchemaMetadata {
    type V = SchemaMetadataView;

    open spec fn view(&self) -> SchemaMetadataView {
        SchemaMetadataView {
            title: opt_text(self.title),
            description: opt_text(self.description),
            default: opt_schema(self.default),
            example: opt_schema(self.example),
            deprecated: self.deprecated,
        }
    }
}

} // verus!
