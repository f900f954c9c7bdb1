//! A JSON document as plain data, and its mathematical model.
//!
//! `JsonValue` is what the executable code holds; `Json` is what contracts
//! speak of. An object keeps its members in the order in which they were
//! written; a key is looked up at its first occurrence.

use crate::text::str_eq;
use vstd::prelude::*;

verus! {

/// A JSON number: a non-negative integer, a negative integer, or any other
/// number in the notation in which it was written.
#[derive(Debug, PartialEq)]
pub enum JsonNumber {
    PosInt(u64),
    NegInt(i64),
    Float(String),
}

/// A JSON document.
#[derive(Debug, PartialEq)]
pub enum JsonValue {
    Null,
    Bool(bool),
    Number(JsonNumber),
    String(String),
    Array(Vec<JsonValue>),
    Object(Vec<(String, JsonValue)>),
}

/// The model of a JSON number.
pub enum Num {
    Int(int),
    Float(Seq<char>),
}

/// The model of one member of a JSON object.
pub struct Member {
    pub key: Seq<char>,
    pub value: Json,
}

/// The model of a JSON document.
pub enum Json {
    Null,
    Bool(bool),
    Number(Num),
    String(Seq<char>),
    Array(Seq<Json>),
    Object(Seq<Member>),
}

impl View for JsonNumber {
    type V = Num;

    open spec fn view(&self) -> Num {
        match self {
            JsonNumber::PosInt(n) => Num::Int(*n as int),
            JsonNumber::NegInt(n) => Num::Int(*n as int),
            JsonNumber::Float(text) => Num::Float(text@),
        }
    }
}

impl View for JsonValue {
    type V = Json;

    open spec fn view(&self) -> Json
        decreases self,
    {
        match self {
            JsonValue::Null => Json::Null,
            JsonValue::Bool(b) => Json::Bool(*b),
            JsonValue::Number(n) => Json::Number(n@),
            JsonValue::String(s) => Json::String(s@),
            JsonValue::Array(items) => Json::Array(
                Seq::new(
                    items@.len(),
                    |i: int|
                        if 0 <= i < items@.len() {
                            items@[i].view()
                        } else {
                            Json::Null
                        },
                ),
            ),
            JsonValue::Object(entries) => Json::Object(
                Seq::new(
                    entries@.len(),
                    |i: int|
                        if 0 <= i < entries@.len() {
                            Member { key: entries@[i].0@, value: entries@[i].1.view() }
                        } else {
                            Member { key: Seq::empty(), value: Json::Null }
                        },
                ),
            ),
        }
    }
}

/// The models of the items of an array.
pub open spec fn items_view(items: Seq<JsonValue>) -> Seq<Json> {
    Seq::new(items.len(), |i: int| items[i]@)
}

/// The models of the members of an object.
pub open spec fn entries_view(entries: Seq<(String, JsonValue)>) -> Seq<Member> {
    Seq::new(entries.len(), |i: int| Member { key: entries[i].0@, value: entries[i].1@ })
}

/// The first position at which `key` occurs among `entries`.
pub open spec fn key_index(entries: Seq<Member>, key: Seq<char>) -> Option<int>
    decreases entries.len(),
{
    if entries.len() == 0 {
        None
    } else if entries[0].key == key {
        Some(0)
    } else {
        match key_index(entries.drop_first(), key) {
            Some(i) => Some(i + 1),
            None => None,
        }
    }
}

/// The value that `entries` gives to `key`.
pub open spec fn lookup(entries: Seq<Member>, key: Seq<char>) -> Option<Json> {
    match key_index(entries, key) {
        Some(i) => Some(entries[i].value),
        None => None,
    }
}

/// `entries` with `key` set to `value`: in place where the key occurs, at the
/// end where it does not.
pub open spec fn upsert(entries: Seq<Member>, key: Seq<char>, value: Json) -> Seq<Member> {
    match key_index(entries, key) {
        Some(i) => entries.update(i, Member { key, value }),
        None => entries.push(Member { key, value }),
    }
}

/// No key occurs twice among `entries`.
pub open spec fn keys_unique(entries: Seq<Member>) -> bool {
    forall|i: int, j: int|
        0 <= i < j < entries.len() ==> (#[trigger] entries[i]).key != (#[trigger] entries[j]).key
}

/// Whether no object in the value, at any depth, holds a key twice, as it
/// is of every document that was read from JSON or YAML text into a map.
pub open spec fn well_keyed(v: Json) -> bool
    decreases v,
{
    match v {
        Json::Object(members) => keys_unique(members) && forall|i: int|
            0 <= i < members.len() ==> well_keyed(#[trigger] members[i].value),
        Json::Array(items) => forall|i: int|
            0 <= i < items.len() ==> well_keyed(#[trigger] items[i]),
        _ => true,
    }
}

/// In a value without a key twice, every member of an object is such a
/// value.
pub proof fn lemma_well_keyed_member(members: Seq<Member>, key: Seq<char>)
    requires
        well_keyed(Json::Object(members)),
    ensures
        match lookup(members, key) {
            Some(v) => well_keyed(v),
            None => true,
        },
{
    lemma_key_index_spec(members, key);
}

/// In a value without a key twice, every item of an array is such a value.
pub proof fn lemma_well_keyed_item(items: Seq<Json>, i: int)
    requires
        well_keyed(Json::Array(items)),
        0 <= i < items.len(),
    ensures
        well_keyed(items[i]),
{
    let v = Json::Array(items);
    assert(v->Array_0 == items);
    assert(v is Array);
    assert(forall|k: int| 0 <= k < items.len() ==> well_keyed(#[trigger] items[k]));
}

impl Json {
    /// Whether the value is `null`.
    pub open spec fn is_null(self) -> bool {
        self is Null
    }

    /// The truth value, where the value is one.
    pub open spec fn as_bool(self) -> Option<bool> {
        match self {
            Json::Bool(b) => Some(b),
            _ => None,
        }
    }

    /// The text, where the value is a string.
    pub open spec fn as_str(self) -> Option<Seq<char>> {
        match self {
            Json::String(s) => Some(s),
            _ => None,
        }
    }

    /// The items, where the value is an array.
    pub open spec fn as_array(self) -> Option<Seq<Json>> {
        match self {
            Json::Array(items) => Some(items),
            _ => None,
        }
    }

    /// The members, where the value is an object.
    pub open spec fn as_object(self) -> Option<Seq<Member>> {
        match self {
            Json::Object(entries) => Some(entries),
            _ => None,
        }
    }

    /// The member `key` of an object; nothing for any other value.
    pub open spec fn get(self, key: Seq<char>) -> Option<Json> {
        match self {
            Json::Object(entries) => lookup(entries, key),
            _ => None,
        }
    }

    /// The text of the member `key`, where that member is a string.
    pub open spec fn get_str(self, key: Seq<char>) -> Option<Seq<char>> {
        match self.get(key) {
            Some(v) => v.as_str(),
            None => None,
        }
    }

    /// The members of the member `key`, where that member is an object.
    pub open spec fn get_object(self, key: Seq<char>) -> Option<Seq<Member>> {
        match self.get(key) {
            Some(v) => v.as_object(),
            None => None,
        }
    }

    /// The items of the member `key`, where that member is an array.
    pub open spec fn get_array(self, key: Seq<char>) -> Option<Seq<Json>> {
        match self.get(key) {
            Some(v) => v.as_array(),
            None => None,
        }
    }

    /// The truth value of the member `key`, where that member is one.
    pub open spec fn get_bool(self, key: Seq<char>) -> Option<bool> {
        match self.get(key) {
            Some(v) => v.as_bool(),
            None => None,
        }
    }
}

/// The model of an array is the array of the models of its items.
pub proof fn lemma_array_view(items: Vec<JsonValue>)
    ensures
        JsonValue::Array(items)@ == Json::Array(items_view(items@)),
{
    assert(JsonValue::Array(items)@->Array_0 =~= items_view(items@));
}

/// The model of an object is the object of the models of its members.
pub proof fn lemma_object_view(entries: Vec<(String, JsonValue)>)
    ensures
        JsonValue::Object(entries)@ == Json::Object(entries_view(entries@)),
{
    assert(JsonValue::Object(entries)@->Object_0 =~= entries_view(entries@));
}

/// A key that the first `i` members do not carry and member `i` does is found
/// at `i`.
pub proof fn lemma_key_index_found(entries: Seq<Member>, key: Seq<char>, i: int)
    requires
        0 <= i < entries.len(),
        entries[i].key == key,
        forall|j: int| 0 <= j < i ==> (#[trigger] entries[j]).key != key,
    ensures
        key_index(entries, key) == Some(i),
    decreases i,
{
    if i > 0 {
        assert(entries[0].key != key);
        let rest = entries.drop_first();
        assert forall|j: int| 0 <= j < i - 1 implies (#[trigger] rest[j]).key != key by {
            assert(rest[j] == entries[j + 1]);
        }
        lemma_key_index_found(rest, key, i - 1);
    }
}

/// A key that no member carries is not found.
pub proof fn lemma_key_index_absent(entries: Seq<Member>, key: Seq<char>)
    requires
        forall|j: int| 0 <= j < entries.len() ==> (#[trigger] entries[j]).key != key,
    ensures
        key_index(entries, key) is None,
    decreases entries.len(),
{
    if entries.len() > 0 {
        assert(entries[0].key != key);
        let rest = entries.drop_first();
        assert forall|j: int| 0 <= j < rest.len() implies (#[trigger] rest[j]).key != key by {
            assert(rest[j] == entries[j + 1]);
        }
        lemma_key_index_absent(rest, key);
    }
}

/// What a found position means: the key stands there, and nowhere before.
pub proof fn lemma_key_index_spec(entries: Seq<Member>, key: Seq<char>)
    ensures
        match key_index(entries, key) {
            Some(i) => 0 <= i < entries.len() && entries[i].key == key && forall|j: int|
                0 <= j < i ==> (#[trigger] entries[j]).key != key,
            None => forall|j: int| 0 <= j < entries.len() ==> (#[trigger] entries[j]).key != key,
        },
    decreases entries.len(),
{
    if entries.len() > 0 && entries[0].key != key {
        let rest = entries.drop_first();
        lemma_key_index_spec(rest, key);
        match key_index(rest, key) {
            Some(i) => {
                assert(rest[i] == entries[i + 1]);
                assert forall|j: int| 0 <= j < i + 1 implies (#[trigger] entries[j]).key != key by {
                    if j > 0 {
                        assert(rest[j - 1] == entries[j]);
                    }
                }
            },
            None => {
                assert forall|j: int| 0 <= j < entries.len() implies (#[trigger] entries[j]).key
                    != key by {
                    if j > 0 {
                        assert(rest[j - 1] == entries[j]);
                    }
                }
            },
        }
    }
}

/// After `upsert`, the key gives the new value and every other key gives
/// what it gave before.
pub proof fn lemma_upsert_lookup(
    entries: Seq<Member>,
    key: Seq<char>,
    value: Json,
    other: Seq<char>,
)
    ensures
        lookup(upsert(entries, key, value), other) == if other == key {
            Some(value)
        } else {
            lookup(entries, other)
        },
{
    let after = upsert(entries, key, value);
    lemma_key_index_spec(entries, key);
    lemma_key_index_spec(entries, other);
    match key_index(entries, key) {
        Some(i) => {
            if other == key {
                assert forall|j: int| 0 <= j < i implies (#[trigger] after[j]).key != key by {
                    assert(after[j] == entries[j]);
                }
                lemma_key_index_found(after, key, i);
            } else {
                match key_index(entries, other) {
                    Some(k) => {
                        assert forall|j: int| 0 <= j < k implies (#[trigger] after[j]).key
                            != other by {
                            if j != i {
                                assert(after[j] == entries[j]);
                            }
                        }
                        lemma_key_index_found(after, other, k);
                    },
                    None => {
                        assert forall|j: int| 0 <= j < after.len() implies (#[trigger] after[j]).key
                            != other by {
                            if j != i {
                                assert(after[j] == entries[j]);
                            }
                        }
                        lemma_key_index_absent(after, other);
                    },
                }
            }
        },
        None => {
            if other == key {
                assert forall|j: int| 0 <= j < entries.len() implies (#[trigger] after[j]).key
                    != key by {
                    assert(after[j] == entries[j]);
                }
                lemma_key_index_found(after, key, entries.len() as int);
            } else {
                match key_index(entries, other) {
                    Some(k) => {
                        assert forall|j: int| 0 <= j < k implies (#[trigger] after[j]).key
                            != other by {
                            assert(after[j] == entries[j]);
                        }
                        assert(after[k] == entries[k]);
                        lemma_key_index_found(after, other, k);
                    },
                    None => {
                        assert forall|j: int| 0 <= j < after.len() implies (#[trigger] after[j]).key
                            != other by {
                            if j < entries.len() {
                                assert(after[j] == entries[j]);
                            }
                        }
                        lemma_key_index_absent(after, other);
                    },
                }
            }
        },
    }
}

/// `upsert` keeps keys unique.
pub proof fn lemma_upsert_keeps_unique(
    entries: Seq<Member>,
    key: Seq<char>,
    value: Json,
)
    requires
        keys_unique(entries),
    ensures
        keys_unique(upsert(entries, key, value)),
{
    let after = upsert(entries, key, value);
    lemma_key_index_spec(entries, key);
    assert forall|i: int, j: int| 0 <= i < j < after.len() implies (#[trigger] after[i]).key != (
    #[trigger] after[j]).key by {
        match key_index(entries, key) {
            Some(k) => {
                assert(after[i].key == entries[i].key);
                assert(after[j].key == entries[j].key);
            },
            None => {
                assert(after[i] == entries[i]);
                if j < entries.len() {
                    assert(after[j] == entries[j]);
                }
            },
        }
    }
}

impl Clone for JsonNumber {
    fn clone(&self) -> (r: Self)
        ensures
            r@ == self@,
    {
        match self {
            JsonNumber::PosInt(n) => JsonNumber::PosInt(*n),
            JsonNumber::NegInt(n) => JsonNumber::NegInt(*n),
            JsonNumber::Float(text) => JsonNumber::Float(text.clone()),
        }
    }
}

impl Clone for JsonValue {
    fn clone(&self) -> (r: Self)
        ensures
            r@ == self@,
        decreases self,
    {
        match self {
            JsonValue::Null => JsonValue::Null,
            JsonValue::Bool(b) => JsonValue::Bool(*b),
            JsonValue::Number(n) => JsonValue::Number(n.clone()),
            JsonValue::String(s) => JsonValue::String(s.clone()),
            JsonValue::Array(items) => {
                let mut out: Vec<JsonValue> = Vec::new();
                let mut i: usize = 0;
                while i < items.len()
                    invariant
                        i <= items.len(),
                        *self == JsonValue::Array(*items),
                        out@.len() == i,
                        forall|k: int| 0 <= k < i ==> out@[k]@ == items@[k]@,
                    decreases items.len() - i,
                {
                    proof {
                        assert(decreases_to!(*self => self->Array_0));
                        assert(decreases_to!(*items => items@));
                        assert(decreases_to!(items@ => items@[i as int]));
                    }
                    let item = items[i].clone();
                    out.push(item);
                    i += 1;
                }
                proof {
                    lemma_array_view(*items);
                    lemma_array_view(out);
                    assert(items_view(out@) =~= items_view(items@));
                }
                JsonValue::Array(out)
            },
            JsonValue::Object(entries) => {
                let mut out: Vec<(String, JsonValue)> = Vec::new();
                let mut i: usize = 0;
                while i < entries.len()
                    invariant
                        i <= entries.len(),
                        *self == JsonValue::Object(*entries),
                        out@.len() == i,
                        forall|k: int|
                            0 <= k < i ==> out@[k].0@ == entries@[k].0@ && out@[k].1@
                                == entries@[k].1@,
                    decreases entries.len() - i,
                {
                    let key = entries[i].0.clone();
                    proof {
                        assert(decreases_to!(*self => self->Object_0));
                        assert(decreases_to!(*entries => entries@));
                        assert(decreases_to!(entries@ => entries@[i as int]));
                        assert(decreases_to!(entries@[i as int] => entries@[i as int].1));
                    }
                    let value = entries[i].1.clone();
                    out.push((key, value));
                    i += 1;
                }
                proof {
                    lemma_object_view(*entries);
                    lemma_object_view(out);
                    assert(entries_view(out@) =~= entries_view(entries@));
                }
                JsonValue::Object(out)
            },
        }
    }
}

/// A copy of a list of documents.
pub fn clone_items(items: &Vec<JsonValue>) -> (r: Vec<JsonValue>)
    ensures
        items_view(r@) == items_view(items@),
{
    let mut out: Vec<JsonValue> = Vec::new();
    let mut i: usize = 0;
    while i < items.len()
        invariant
            i <= items.len(),
            out@.len() == i,
            forall|k: int| 0 <= k < i ==> out@[k]@ == items@[k]@,
        decreases items.len() - i,
    {
        out.push(items[i].clone());
        i += 1;
    }
    assert(items_view(out@) =~= items_view(items@));
    out
}

/// A copy of the members of an object.
pub fn clone_entries(entries: &Vec<(String, JsonValue)>) -> (r: Vec<(String, JsonValue)>)
    ensures
        entries_view(r@) == entries_view(entries@),
{
    let mut out: Vec<(String, JsonValue)> = Vec::new();
    let mut i: usize = 0;
    while i < entries.len()
        invariant
            i <= entries.len(),
            out@.len() == i,
            forall|k: int|
                0 <= k < i ==> out@[k].0@ == entries@[k].0@ && out@[k].1@ == entries@[k].1@,
        decreases entries.len() - i,
    {
        out.push((entries[i].0.clone(), entries[i].1.clone()));
        i += 1;
    }
    assert(entries_view(out@) =~= entries_view(entries@));
    out
}

/// The position of the first member with the given key.
pub fn entries_index(entries: &Vec<(String, JsonValue)>, key: &str) -> (r: Option<usize>)
    ensures
        match r {
            Some(i) => key_index(entries_view(entries@), key@) == Some(i as int) && i
                < entries.len(),
            None => key_index(entries_view(entries@), key@) is None,
        },
{
    let mut i: usize = 0;
    while i < entries.len()
        invariant
            i <= entries.len(),
            forall|j: int| 0 <= j < i ==> (#[trigger] entries_view(entries@)[j]).key != key@,
        decreases entries.len() - i,
    {
        if str_eq(entries[i].0.as_str(), key) {
            proof {
                lemma_key_index_found(entries_view(entries@), key@, i as int);
            }
            return Some(i);
        }
        i += 1;
    }
    proof {
        lemma_key_index_absent(entries_view(entries@), key@);
    }
    None
}

/// The value of the first member with the given key.
pub fn entries_get<'a>(entries: &'a Vec<(String, JsonValue)>, key: &str) -> (r: Option<
    &'a JsonValue,
>)
    ensures
        match r {
            Some(v) => lookup(entries_view(entries@), key@) == Some(v@),
            None => lookup(entries_view(entries@), key@) is None,
        },
{
    match entries_index(entries, key) {
        Some(i) => Some(&entries[i].1),
        None => None,
    }
}

/// Sets `key` to `value`: in place where the key occurs, at the end where it
/// does not.
pub fn entries_insert(entries: &mut Vec<(String, JsonValue)>, key: String, value: JsonValue)
    ensures
        entries_view(final(entries)@) == upsert(entries_view(old(entries)@), key@, value@),
{
    match entries_index(entries, key.as_str()) {
        Some(i) => {
            entries.set(i, (key, value));
            assert(entries_view(entries@) =~= upsert(
                entries_view(old(entries)@),
                key@,
                value@,
            ));
        },
        None => {
            entries.push((key, value));
            assert(entries_view(entries@) =~= upsert(
                entries_view(old(entries)@),
                key@,
                value@,
            ));
        },
    }
}

impl JsonValue {
    /// Whether the value is `null`.
    pub fn is_null(&self) -> (r: bool)
        ensures
            r == self@.is_null(),
    {
        match self {
            JsonValue::Null => true,
            _ => false,
        }
    }

    /// The truth value, where the value is one.
    pub fn as_bool(&self) -> (r: Option<bool>)
        ensures
            r == self@.as_bool(),
    {
        match self {
            JsonValue::Bool(b) => Some(*b),
            _ => None,
        }
    }

    /// The text, where the value is a string.
    pub fn as_str(&self) -> (r: Option<&str>)
        ensures
            match r {
                Some(s) => self@.as_str() == Some(s@),
                None => self@.as_str() is None,
            },
    {
        match self {
            JsonValue::String(s) => Some(s.as_str()),
            _ => None,
        }
    }

    /// The items, where the value is an array.
    pub fn as_array(&self) -> (r: Option<&Vec<JsonValue>>)
        ensures
            match r {
                Some(items) => self@.as_array() == Some(items_view(items@)),
                None => self@.as_array() is None,
            },
    {
        match self {
            JsonValue::Array(items) => {
                proof {
                    lemma_array_view(*items);
                }
                Some(items)
            },
            _ => None,
        }
    }

    /// The members, where the value is an object.
    pub fn as_object(&self) -> (r: Option<&Vec<(String, JsonValue)>>)
        ensures
            match r {
                Some(entries) => self@.as_object() == Some(entries_view(entries@)),
                None => self@.as_object() is None,
            },
    {
        match self {
            JsonValue::Object(entries) => {
                proof {
                    lemma_object_view(*entries);
                }
                Some(entries)
            },
            _ => None,
        }
    }

    /// The member `key` of an object; nothing for any other value.
    pub fn get(&self, key: &str) -> (r: Option<&JsonValue>)
        ensures
            match r {
                Some(v) => self@.get(key@) == Some(v@),
                None => self@.get(key@) is None,
            },
    {
        match self.as_object() {
            Some(entries) => entries_get(entries, key),
            None => None,
        }
    }

    /// The text of the member `key`, where that member is a string.
    pub fn get_str(&self, key: &str) -> (r: Option<&str>)
        ensures
            match r {
                Some(s) => self@.get_str(key@) == Some(s@),
                None => self@.get_str(key@) is None,
            },
    {
        match self.get(key) {
            Some(v) => v.as_str(),
            None => None,
        }
    }

    /// The members of the member `key`, where that member is an object.
    pub fn get_object(&self, key: &str) -> (r: Option<&Vec<(String, JsonValue)>>)
        ensures
            match r {
                Some(entries) => self@.get_object(key@) == Some(entries_view(entries@)),
                None => self@.get_object(key@) is None,
            },
    {
        match self.get(key) {
            Some(v) => v.as_object(),
            None => None,
        }
    }

    /// The items of the member `key`, where that member is an array.
    pub fn get_array(&self, key: &str) -> (r: Option<&Vec<JsonValue>>)
        ensures
            match r {
                Some(items) => self@.get_array(key@) == Some(items_view(items@)),
                None => self@.get_array(key@) is None,
            },
    {
        match self.get(key) {
            Some(v) => v.as_array(),
            None => None,
        }
    }

    /// The truth value of the member `key`, where that member is one.
    pub fn get_bool(&self, key: &str) -> (r: Option<bool>)
        ensures
            r == self@.get_bool(key@),
    {
        match self.get(key) {
            Some(v) => v.as_bool(),
            None => None,
        }
    }

    /// A string value.
    pub fn string(text: &str) -> (r: JsonValue)
        ensures
            r@ == Json::String(text@),
    {
        JsonValue::String(String::from_str(text))
    }

    /// A non-negative integer value.
    pub fn unsigned(n: u64) -> (r: JsonValue)
        ensures
            r@ == Json::Number(Num::Int(n as int)),
    {
        JsonValue::Number(JsonNumber::PosInt(n))
    }

    /// An array of the given items.
    pub fn array(items: Vec<JsonValue>) -> (r: JsonValue)
        ensures
            r@ == Json::Array(items_view(items@)),
    {
        proof {
            lemma_array_view(items);
        }
        JsonValue::Array(items)
    }

    /// An object of the given members.
    pub fn object(entries: Vec<(String, JsonValue)>) -> (r: JsonValue)
        ensures
            r@ == Json::Object(entries_view(entries@)),
    {
        proof {
            lemma_object_view(entries);
        }
        JsonValue::Object(entries)
    }
}

/// The text of an optional string.
pub open spec fn opt_text(o: Option<String>) -> Option<Seq<char>> {
    match o {
        Some(s) => Some(s@),
        None => None,
    }
}

/// The model of an optional document.
pub open spec fn opt_json(o: Option<JsonValue>) -> Option<Json> {
    match o {
        Some(v) => Some(v@),
        None => None,
    }
}

/// The models of an optional list of documents.
pub open spec fn opt_items(o: Option<Vec<JsonValue>>) -> Option<Seq<Json>> {
    match o {
        Some(v) => Some(items_view(v@)),
        None => None,
    }
}

/// The models of an optional list of members.
pub open spec fn opt_entries(o: Option<Vec<(String, JsonValue)>>) -> Option<Seq<Member>> {
    match o {
        Some(v) => Some(entries_view(v@)),
        None => None,
    }
}

/// The texts of a list of strings.
pub open spec fn texts(v: Seq<String>) -> Seq<Seq<char>> {
    Seq::new(v.len(), |i: int| v[i]@)
}

/// The texts of an optional list of strings.
pub open spec fn opt_texts(o: Option<Vec<String>>) -> Option<Seq<Seq<char>>> {
    match o {
        Some(v) => Some(texts(v@)),
        None => None,
    }
}

/// The model of an optional string as a document: the string, or `null`.
pub open spec fn json_of_opt_text(o: Option<Seq<char>>) -> Json {
    match o {
        Some(s) => Json::String(s),
        None => Json::Null,
    }
}

/// The model of an optional truth value as a document.
pub open spec fn json_of_opt_bool(o: Option<bool>) -> Json {
    match o {
        Some(b) => Json::Bool(b),
        None => Json::Null,
    }
}

/// The model of an optional document as a document: itself, or `null`.
pub open spec fn json_of_opt(o: Option<Json>) -> Json {
    match o {
        Some(v) => v,
        None => Json::Null,
    }
}

/// The model of an optional list of members as a document.
pub open spec fn json_of_opt_entries(o: Option<Seq<Member>>) -> Json {
    match o {
        Some(m) => Json::Object(m),
        None => Json::Null,
    }
}

/// The model of an optional list of documents as a document.
pub open spec fn json_of_opt_items(o: Option<Seq<Json>>) -> Json {
    match o {
        Some(items) => Json::Array(items),
        None => Json::Null,
    }
}

/// The model of a list of texts as a document.
pub open spec fn json_of_texts(v: Seq<Seq<char>>) -> Json {
    Json::Array(Seq::new(v.len(), |i: int| Json::String(v[i])))
}

/// A copy of an optional string.
pub fn clone_opt_text(o: &Option<String>) -> (r: Option<String>)
    ensures
        opt_text(r) == opt_text(*o),
{
    match o {
        Some(s) => Some(s.clone()),
        None => None,
    }
}

/// A copy of an optional document.
pub fn clone_opt_json(o: &Option<JsonValue>) -> (r: Option<JsonValue>)
    ensures
        opt_json(r) == opt_json(*o),
{
    match o {
        Some(v) => Some(v.clone()),
        None => None,
    }
}

/// A copy of an optional list of documents.
pub fn clone_opt_items(o: &Option<Vec<JsonValue>>) -> (r: Option<Vec<JsonValue>>)
    ensures
        opt_items(r) == opt_items(*o),
{
    match o {
        Some(v) => Some(clone_items(v)),
        None => None,
    }
}

/// A copy of an optional list of members.
pub fn clone_opt_entries(o: &Option<Vec<(String, JsonValue)>>) -> (r: Option<
    Vec<(String, JsonValue)>,
>)
    ensures
        opt_entries(r) == opt_entries(*o),
{
    match o {
        Some(v) => Some(clone_entries(v)),
        None => None,
    }
}

/// A copy of a list of strings.
pub fn clone_texts(v: &Vec<String>) -> (r: Vec<String>)
    ensures
        texts(r@) == texts(v@),
{
    let mut out: Vec<String> = Vec::new();
    let mut i: usize = 0;
    while i < v.len()
        invariant
            i <= v.len(),
            out@.len() == i,
            forall|k: int| 0 <= k < i ==> out@[k]@ == v@[k]@,
        decreases v.len() - i,
    {
        out.push(v[i].clone());
        i += 1;
    }
    assert(texts(out@) =~= texts(v@));
    out
}

/// A copy of an optional list of strings.
pub fn clone_opt_texts(o: &Option<Vec<String>>) -> (r: Option<Vec<String>>)
    ensures
        opt_texts(r) == opt_texts(*o),
{
    match o {
        Some(v) => Some(clone_texts(v)),
        None => None,
    }
}

/// An optional string as a document: the string, or `null`.
pub fn json_from_opt_text(o: &Option<String>) -> (r: JsonValue)
    ensures
        r@ == json_of_opt_text(opt_text(*o)),
{
    match o {
        Some(s) => JsonValue::String(s.clone()),
        None => JsonValue::Null,
    }
}

/// An optional truth value as a document.
pub fn json_from_opt_bool(o: &Option<bool>) -> (r: JsonValue)
    ensures
        r@ == json_of_opt_bool(*o),
{
    match o {
        Some(b) => JsonValue::Bool(*b),
        None => JsonValue::Null,
    }
}

/// An optional document as a document: itself, or `null`.
pub fn json_from_opt(o: &Option<JsonValue>) -> (r: JsonValue)
    ensures
        r@ == json_of_opt(opt_json(*o)),
{
    match o {
        Some(v) => v.clone(),
        None => JsonValue::Null,
    }
}

/// An optional list of members as a document.
pub fn json_from_opt_entries(o: &Option<Vec<(String, JsonValue)>>) -> (r: JsonValue)
    ensures
        r@ == json_of_opt_entries(opt_entries(*o)),
{
    match o {
        Some(m) => JsonValue::object(clone_entries(m)),
        None => JsonValue::Null,
    }
}

/// An optional list of documents as a document.
pub fn json_from_opt_items(o: &Option<Vec<JsonValue>>) -> (r: JsonValue)
    ensures
        r@ == json_of_opt_items(opt_items(*o)),
{
    match o {
        Some(items) => JsonValue::array(clone_items(items)),
        None => JsonValue::Null,
    }
}

/// A list of strings as a document.
pub fn json_from_texts(v: &Vec<String>) -> (r: JsonValue)
    ensures
        r@ == json_of_texts(texts(v@)),
{
    let mut out: Vec<JsonValue> = Vec::new();
    let mut i: usize = 0;
    while i < v.len()
        invariant
            i <= v.len(),
            out@.len() == i,
            forall|k: int| 0 <= k < i ==> out@[k]@ == Json::String(v@[k]@),
        decreases v.len() - i,
    {
        out.push(JsonValue::String(v[i].clone()));
        i += 1;
    }
    let r = JsonValue::array(out);
    assert(r@->Array_0 =~= json_of_texts(texts(v@))->Array_0);
    r
}

/// One member of an object under construction.
pub fn member(key: &str, value: JsonValue) -> (r: (String, JsonValue))
    ensures
        r.0@ == key@,
        r.1@ == value@,
{
    (String::from_str(key), value)
}

} // verus!
