//! Typed reading of the members of a JSON object.
//!
//! A member that is absent or `null` counts as not given. A member of another
//! type than the one asked for is a mismatch, which makes the whole object
//! unusable for its reader.

use crate::json::{clone_entries, entries_get, entries_view, Json, JsonValue, lookup, Member};
use crate::text::str_eq;
use vstd::prelude::*;

verus! {

/// The text of member `key`, which must be a string where it is given.
/// The outer `None` is the mismatch.
pub open spec fn string_field(obj: Seq<Member>, key: Seq<char>) -> Option<Option<Seq<char>>> {
    match lookup(obj, key) {
        None => Some(None),
        Some(Json::Null) => Some(None),
        Some(Json::String(s)) => Some(Some(s)),
        Some(_) => None,
    }
}

/// The truth value of member `key`, which must be one where it is given.
pub open spec fn bool_field(obj: Seq<Member>, key: Seq<char>) -> Option<Option<bool>> {
    match lookup(obj, key) {
        None => Some(None),
        Some(Json::Null) => Some(None),
        Some(Json::Bool(b)) => Some(Some(b)),
        Some(_) => None,
    }
}

/// The members of member `key`, which must be an object where it is given.
pub open spec fn object_field(obj: Seq<Member>, key: Seq<char>) -> Option<Option<Seq<Member>>> {
    match lookup(obj, key) {
        None => Some(None),
        Some(Json::Null) => Some(None),
        Some(Json::Object(m)) => Some(Some(m)),
        Some(_) => None,
    }
}

/// Member `key` as it stands, where it is given.
pub open spec fn value_field(obj: Seq<Member>, key: Seq<char>) -> Option<Json> {
    match lookup(obj, key) {
        None => None,
        Some(Json::Null) => None,
        Some(v) => Some(v),
    }
}

/// The text of member `key`, which must be there and be a string.
pub open spec fn required_string_field(obj: Seq<Member>, key: Seq<char>) -> Option<Seq<char>> {
    match lookup(obj, key) {
        Some(Json::String(s)) => Some(s),
        _ => None,
    }
}

/// Reads the text of member `key`, which must be a string where it is
/// given. The outer `None` is the mismatch.
pub fn read_string_field(obj: &Vec<(String, JsonValue)>, key: &str) -> (r: Option<Option<String>>)
    ensures
        match r {
            Some(Some(s)) => string_field(entries_view(obj@), key@) == Some(Some(s@)),
            Some(None) => string_field(entries_view(obj@), key@) == Some(None::<Seq<char>>),
            None => string_field(entries_view(obj@), key@) is None,
        },
{
    match entries_get(obj, key) {
        None => Some(None),
        Some(v) => match v {
            JsonValue::Null => Some(None),
            JsonValue::String(s) => Some(Some(s.clone())),
            _ => None,
        },
    }
}

/// Reads the truth value of member `key`, which must be one where it is
/// given. The outer `None` is the mismatch.
pub fn read_bool_field(obj: &Vec<(String, JsonValue)>, key: &str) -> (r: Option<Option<bool>>)
    ensures
        r == bool_field(entries_view(obj@), key@),
{
    match entries_get(obj, key) {
        None => Some(None),
        Some(v) => match v {
            JsonValue::Null => Some(None),
            JsonValue::Bool(b) => Some(Some(*b)),
            _ => None,
        },
    }
}

/// Reads the members of member `key`, which must be an object where it is
/// given. The outer `None` is the mismatch.
pub fn read_object_field(obj: &Vec<(String, JsonValue)>, key: &str) -> (r: Option<
    Option<Vec<(String, JsonValue)>>,
>)
    ensures
        match r {
            Some(Some(m)) => object_field(entries_view(obj@), key@) == Some(
                Some(entries_view(m@)),
            ),
            Some(None) => object_field(entries_view(obj@), key@) == Some(None::<Seq<Member>>),
            None => object_field(entries_view(obj@), key@) is None,
        },
{
    match entries_get(obj, key) {
        None => Some(None),
        Some(v) => match v.as_object() {
            Some(m) => Some(Some(clone_entries(m))),
            None => if v.is_null() {
                Some(None)
            } else {
                None
            },
        },
    }
}

/// Reads member `key` as it stands, where it is given.
pub fn read_value_field(obj: &Vec<(String, JsonValue)>, key: &str) -> (r: Option<JsonValue>)
    ensures
        match r {
            Some(v) => value_field(entries_view(obj@), key@) == Some(v@),
            None => value_field(entries_view(obj@), key@) is None,
        },
{
    match entries_get(obj, key) {
        None => None,
        Some(v) => if v.is_null() {
            None
        } else {
            Some(v.clone())
        },
    }
}

/// Reads the text of member `key`, which must be there and be a string.
pub fn read_required_string(obj: &Vec<(String, JsonValue)>, key: &str) -> (r: Option<String>)
    ensures
        match r {
            Some(s) => required_string_field(entries_view(obj@), key@) == Some(s@),
            None => required_string_field(entries_view(obj@), key@) is None,
        },
{
    match entries_get(obj, key) {
        Some(v) => match v {
            JsonValue::String(s) => Some(s.clone()),
            _ => None,
        },
        None => None,
    }
}

/// Whether `key` is one of `names`.
pub open spec fn is_one_of(key: Seq<char>, names: Seq<Seq<char>>) -> bool {
    exists|i: int| 0 <= i < names.len() && names[i] == key
}

/// The members of `obj` whose key is none of `names`, in their order.
pub open spec fn members_besides(obj: Seq<Member>, names: Seq<Seq<char>>) -> Seq<Member>
    decreases obj.len(),
{
    if obj.len() == 0 {
        Seq::empty()
    } else {
        let head = members_besides(obj.drop_last(), names);
        if is_one_of(obj.last().key, names) {
            head
        } else {
            head.push(obj.last())
        }
    }
}

/// The texts of a list of names.
pub open spec fn names_view(names: Seq<&str>) -> Seq<Seq<char>> {
    Seq::new(names.len(), |i: int| names[i]@)
}

/// Whether `key` is one of `names`.
pub fn key_is_one_of(key: &str, names: &Vec<&str>) -> (r: bool)
    ensures
        r == is_one_of(key@, names_view(names@)),
{
    let mut i: usize = 0;
    while i < names.len()
        invariant
            i <= names.len(),
            forall|k: int| 0 <= k < i ==> names_view(names@)[k] != key@,
        decreases names.len() - i,
    {
        if str_eq(names[i], key) {
            assert(names_view(names@)[i as int] == key@);
            return true;
        }
        i += 1;
    }
    false
}

/// The members of `obj` whose key is none of `names`, copied in their order.
pub fn read_members_besides(obj: &Vec<(String, JsonValue)>, names: &Vec<&str>) -> (r: Vec<
    (String, JsonValue),
>)
    ensures
        entries_view(r@) == members_besides(entries_view(obj@), names_view(names@)),
{
    let mut out: Vec<(String, JsonValue)> = Vec::new();
    let mut i: usize = 0;
    while i < obj.len()
        invariant
            i <= obj.len(),
            entries_view(out@) == members_besides(
                entries_view(obj@).take(i as int),
                names_view(names@),
            ),
        decreases obj.len() - i,
    {
        proof {
            let all = entries_view(obj@);
            assert(all.take(i as int + 1).drop_last() =~= all.take(i as int));
            assert(all.take(i as int + 1).last() == all[i as int]);
        }
        let ghost before = entries_view(out@);
        if !key_is_one_of(obj[i].0.as_str(), names) {
            out.push((obj[i].0.clone(), obj[i].1.clone()));
            assert(entries_view(out@) =~= before.push(entries_view(obj@)[i as int]));
        }
        i += 1;
    }
    assert(entries_view(obj@).take(obj@.len() as int) =~= entries_view(obj@));
    out
}

} // verus!
