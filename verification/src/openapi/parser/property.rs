//! Properties of a schema with their Rust types.

use crate::json::{entries_view, Json, JsonValue, lookup, Member};
use crate::openapi::schema::value::SchemaValue;
use crate::openapi::types::{PropertyInfo, PropertyView};
use crate::text::{owned, str_eq};
use vstd::prelude::*;

verus! {

/// The Rust type for a type and a format of the schema language: `String`
/// for `string`; `i64` for `integer` of format `int64`, else `i32`; `f64`
/// for `number` without a format or of format `double`, `f32` for `number`
/// of any other format; `bool` for `boolean`; and `String` for anything
/// else.
pub open spec fn rust_type_name(openapi_type: Seq<char>, format: Option<Seq<char>>) -> Seq<char> {
    if openapi_type == "string"@ {
        "String"@
    } else if openapi_type == "integer"@ {
        if format == Some("int64"@) {
            "i64"@
        } else {
            "i32"@
        }
    } else if openapi_type == "number"@ {
        if format is None || format == Some("double"@) {
            "f64"@
        } else {
            "f32"@
        }
    } else if openapi_type == "boolean"@ {
        "bool"@
    } else {
        "String"@
    }
}

/// The text of member `key`, empty where it is no string.
pub open spec fn text_field(map: Seq<Member>, key: Seq<char>) -> Seq<char> {
    match lookup(map, key) {
        Some(Json::String(s)) => s,
        _ => Seq::empty(),
    }
}

/// The truth value of member `key`, false where it is none.
pub open spec fn flag_field(map: Seq<Member>, key: Seq<char>) -> bool {
    match lookup(map, key) {
        Some(Json::Bool(b)) => b,
        _ => false,
    }
}

/// The text of member `key` where it is a string, nothing where it is not.
pub open spec fn optional_text_field(map: Seq<Member>, key: Seq<char>) -> Option<Seq<char>> {
    match lookup(map, key) {
        Some(Json::String(s)) => Some(s),
        _ => None,
    }
}

/// The members of a value that is an object; none for any other value.
pub open spec fn mapping_of(v: Json) -> Seq<Member> {
    match v {
        Json::Object(m) => m,
        _ => Seq::empty(),
    }
}

/// The property of the given name that a schema describes.
pub open spec fn property_of(name: Seq<char>, prop: Json) -> PropertyView {
    let map = mapping_of(prop);
    PropertyView {
        name,
        rust_type: rust_type_name(text_field(map, "type"@), optional_text_field(map, "format"@)),
        openapi_type: text_field(map, "type"@),
        format: optional_text_field(map, "format"@),
        title: text_field(map, "title"@),
        description: text_field(map, "description"@),
        example: text_field(map, "example"@),
        required: flag_field(map, "required"@),
        schema: Json::Object(map),
        elastic_type: optional_text_field(map, "x-elastic-type"@),
    }
}

/// The properties that the members of a mapping describe, in order.
pub open spec fn properties_of(mapping: Seq<Member>) -> Seq<PropertyView> {
    Seq::new(mapping.len(), |i: int| property_of(mapping[i].key, mapping[i].value))
}

/// The mapping that holds the rows of a document: `properties.data.properties`
/// where that is a mapping, else `properties` where that is one.
pub open spec fn row_mapping(doc: Json) -> Seq<Member> {
    match doc.get("properties"@) {
        Some(props) => {
            let nested = match props.get("data"@) {
                Some(data) => data.get_object("properties"@),
                None => None,
            };
            match nested {
                Some(m) => m,
                None => mapping_of(props),
            }
        },
        None => Seq::empty(),
    }
}

/// The models of a list of properties.
pub open spec fn property_list_view(v: Seq<PropertyInfo>) -> Seq<PropertyView> {
    Seq::new(v.len(), |i: int| v[i]@)
}

/// The Rust type for a type and a format of the schema language.
pub fn openapi_type_to_rust_type(openapi_type: &str, format: Option<&str>) -> (r: &'static str)
    ensures
        r@ == rust_type_name(
            openapi_type@,
            match format {
                Some(f) => Some(f@),
                None => None,
            },
        ),
{
    if str_eq(openapi_type, "string") {
        "String"
    } else if str_eq(openapi_type, "integer") {
        match format {
            Some(f) => if str_eq(f, "int64") {
                "i64"
            } else {
                "i32"
            },
            None => "i32",
        }
    } else if str_eq(openapi_type, "number") {
        match format {
            Some(f) => if str_eq(f, "double") {
                "f64"
            } else {
                "f32"
            },
            None => "f64",
        }
    } else if str_eq(openapi_type, "boolean") {
        "bool"
    } else {
        "String"
    }
}

pub(crate) fn get_str_field(map: &Vec<(String, JsonValue)>, key: &str) -> (r: String)
    ensures
        r@ == text_field(entries_view(map@), key@),
{
    match crate::json::entries_get(map, key) {
        Some(v) => match v.as_str() {
            Some(s) => owned(s),
            None => String::new(),
        },
        None => String::new(),
    }
}

pub(crate) fn get_bool_field(map: &Vec<(String, JsonValue)>, key: &str) -> (r: bool)
    ensures
        r == flag_field(entries_view(map@), key@),
{
    match crate::json::entries_get(map, key) {
        Some(v) => match v.as_bool() {
            Some(b) => b,
            None => false,
        },
        None => false,
    }
}

pub(crate) fn get_opt_str_field(map: &Vec<(String, JsonValue)>, key: &str) -> (r: Option<String>)
    ensures
        crate::json::opt_text(r) == optional_text_field(entries_view(map@), key@),
{
    match crate::json::entries_get(map, key) {
        Some(v) => match v.as_str() {
            Some(s) => Some(owned(s)),
            None => None,
        },
        None => None,
    }
}

/// The property of the given name that a schema describes.
pub fn extract_property_info(name: &str, prop: &JsonValue) -> (r: PropertyInfo)
    ensures
        r@ == property_of(name@, prop@),
{
    let empty: Vec<(String, JsonValue)> = Vec::new();
    assert(entries_view(empty@) =~= Seq::<Member>::empty());
    let map: &Vec<(String, JsonValue)> = match prop.as_object() {
        Some(m) => m,
        None => &empty,
    };
    let openapi_type = get_str_field(map, "type");
    let format = get_opt_str_field(map, "format");
    let rust_type = openapi_type_to_rust_type(
        openapi_type.as_str(),
        match &format {
            Some(f) => Some(f.as_str()),
            None => None,
        },
    );
    PropertyInfo {
        name: owned(name),
        rust_type: owned(rust_type),
        title: get_str_field(map, "title"),
        description: get_str_field(map, "description"),
        example: get_str_field(map, "example"),
        required: get_bool_field(map, "required"),
        schema: SchemaValue::new(JsonValue::object(crate::json::clone_entries(map))),
        elastic_type: get_opt_str_field(map, "x-elastic-type"),
        openapi_type,
        format,
    }
}

/// The properties that the members of a mapping describe, in order.
pub fn extract_properties(mapping: &Vec<(String, JsonValue)>) -> (r: Vec<PropertyInfo>)
    ensures
        property_list_view(r@) == properties_of(entries_view(mapping@)),
{
    let mut out: Vec<PropertyInfo> = Vec::new();
    let mut i: usize = 0;
    while i < mapping.len()
        invariant
            i <= mapping.len(),
            out@.len() == i,
            forall|k: int|
                0 <= k < i ==> out@[k]@ == property_of(
                    entries_view(mapping@)[k].key,
                    entries_view(mapping@)[k].value,
                ),
        decreases mapping.len() - i,
    {
        out.push(extract_property_info(mapping[i].0.as_str(), &mapping[i].1));
        i += 1;
    }
    assert(property_list_view(out@) =~= properties_of(entries_view(mapping@)));
    out
}

/// The properties of the rows of a document.
pub fn extract_row_properties(doc: &JsonValue) -> (r: Vec<PropertyInfo>)
    ensures
        property_list_view(r@) == properties_of(row_mapping(doc@)),
{
    let props = match doc.get("properties") {
        Some(p) => p,
        None => {
            let out: Vec<PropertyInfo> = Vec::new();
            assert(property_list_view(out@) =~= properties_of(Seq::<Member>::empty()));
            return out;
        },
    };
    match props.get("data") {
        Some(data) => match data.get_object("properties") {
            Some(m) => {
                return extract_properties(m);
            },
            None => {},
        },
        None => {},
    }
    match props.as_object() {
        Some(m) => extract_properties(m),
        None => {
            let out: Vec<PropertyInfo> = Vec::new();
            assert(property_list_view(out@) =~= properties_of(Seq::<Member>::empty()));
            out
        },
    }
}

} // verus!
