use vstd::prelude::*;

use crate::text::text_eq;

verus! {

/// A JSON number: a non-negative integer, a negative integer, or any other
/// number kept as its JSON text.
pub enum JsonNumber {
    PosInt(u64),
    NegInt(i64),
    Float(String),
}

/// A JSON document.
pub enum JsonValue {
    Null,
    Bool(bool),
    Number(JsonNumber),
    String(String),
    Array(JsonItems),
    Object(JsonFields),
}

/// The elements of a JSON array, first element first.
pub enum JsonItems {
    Empty,
    Item(Box<JsonValue>, Box<JsonItems>),
}

/// The members of a JSON object. Where a key occurs more than once, its first
/// occurrence is the one that counts (see `fields_map`).
pub enum JsonFields {
    Empty,
    Field(String, Box<JsonValue>, Box<JsonFields>),
}

/// The map that an object's members denote.
pub open spec fn fields_map(f: JsonFields) -> Map<Seq<char>, JsonValue>
    decreases f,
{
    match f {
        JsonFields::Empty => Map::empty(),
        JsonFields::Field(k, v, rest) => fields_map(*rest).insert(k@, *v),
    }
}

/// The elements of an array, in order.
pub open spec fn items_seq(a: JsonItems) -> Seq<JsonValue>
    decreases a,
{
    match a {
        JsonItems::Empty => Seq::empty(),
        JsonItems::Item(v, rest) => seq![*v] + items_seq(*rest),
    }
}

/// The value of a number as a signed 64-bit integer, where it has one.
pub open spec fn number_as_i64(n: JsonNumber) -> Option<i64> {
    match n {
        JsonNumber::PosInt(u) => if u <= i64::MAX {
            Some(u as i64)
        } else {
            None
        },
        JsonNumber::NegInt(i) => Some(i),
        JsonNumber::Float(_) => None,
    }
}

/// The members of a value as a map, if it is an object.
pub open spec fn object_map(v: JsonValue) -> Option<Map<Seq<char>, JsonValue>> {
    match v {
        JsonValue::Object(f) => Some(fields_map(f)),
        _ => None,
    }
}

/// The value under `key`, if `v` is an object that has it.
pub open spec fn member(v: JsonValue, key: Seq<char>) -> Option<JsonValue> {
    match v {
        JsonValue::Object(f) => if fields_map(f).contains_key(key) {
            Some(fields_map(f)[key])
        } else {
            None
        },
        _ => None,
    }
}

impl JsonValue {
    /// An empty object.
    pub fn empty_object() -> (r: JsonValue)
        ensures
            object_map(r) == Some(Map::<Seq<char>, JsonValue>::empty()),
    {
        JsonValue::Object(JsonFields::Empty)
    }

    /// The value under `key` if this is an object that has it.
    pub fn get(&self, key: &str) -> (r: Option<&JsonValue>)
        ensures
            match r {
                Some(v) => member(*self, key@) == Some(*v),
                None => member(*self, key@) is None,
            },
    {
        match self {
            JsonValue::Object(f) => fields_get(f, key),
            _ => None,
        }
    }

    /// The integer value of this JSON value, where it is an integer that fits in `i64`.
    pub fn as_i64(&self) -> (r: Option<i64>)
        ensures
            r == match self {
                JsonValue::Number(n) => number_as_i64(*n),
                _ => None,
            },
    {
        match self {
            JsonValue::Number(JsonNumber::PosInt(u)) => {
                if *u <= 9223372036854775807u64 {
                    Some(*u as i64)
                } else {
                    None
                }
            },
            JsonValue::Number(JsonNumber::NegInt(i)) => Some(*i),
            _ => None,
        }
    }

    /// A copy of this value.
    pub fn copy(&self) -> (r: JsonValue)
        ensures
            r == *self,
    {
        clone_json(self)
    }
}

/// Looks up `key` among the members of an object.
pub fn fields_get<'a>(f: &'a JsonFields, key: &str) -> (r: Option<&'a JsonValue>)
    ensures
        match r {
            Some(v) => fields_map(*f).contains_key(key@) && fields_map(*f)[key@] == *v,
            None => !fields_map(*f).contains_key(key@),
        },
    decreases *f,
{
    match f {
        JsonFields::Empty => None,
        JsonFields::Field(k, v, rest) => {
            if text_eq(k.as_str(), key) {
                Some(&**v)
            } else {
                fields_get(&**rest, key)
            }
        },
    }
}

/// Adds a member in front of the others, so that it overrides any earlier member with the same key.
pub fn fields_insert(f: JsonFields, key: String, value: JsonValue) -> (r: JsonFields)
    ensures
        fields_map(r) == fields_map(f).insert(key@, value),
{
    JsonFields::Field(key, Box::new(value), Box::new(f))
}

/// A copy of a JSON value.
pub fn clone_json(v: &JsonValue) -> (r: JsonValue)
    ensures
        r == *v,
    decreases *v, 0nat,
{
    match v {
        JsonValue::Null => JsonValue::Null,
        JsonValue::Bool(b) => JsonValue::Bool(*b),
        JsonValue::Number(n) => JsonValue::Number(
            match n {
                JsonNumber::PosInt(u) => JsonNumber::PosInt(*u),
                JsonNumber::NegInt(i) => JsonNumber::NegInt(*i),
                JsonNumber::Float(t) => JsonNumber::Float(t.clone()),
            },
        ),
        JsonValue::String(s) => JsonValue::String(s.clone()),
        JsonValue::Array(items) => JsonValue::Array(clone_items(items)),
        JsonValue::Object(fields) => JsonValue::Object(clone_fields(fields)),
    }
}

/// A copy of the elements of an array.
pub fn clone_items(a: &JsonItems) -> (r: JsonItems)
    ensures
        r == *a,
    decreases *a, 1nat,
{
    match a {
        JsonItems::Empty => JsonItems::Empty,
        JsonItems::Item(v, rest) => {
            let c = clone_json(&**v);
            let cr = clone_items(&**rest);
            JsonItems::Item(Box::new(c), Box::new(cr))
        },
    }
}

/// A copy of the members of an object.
pub fn clone_fields(f: &JsonFields) -> (r: JsonFields)
    ensures
        r == *f,
    decreases *f, 1nat,
{
    match f {
        JsonFields::Empty => JsonFields::Empty,
        JsonFields::Field(k, v, rest) => {
            let c = clone_json(&**v);
            let cr = clone_fields(&**rest);
            JsonFields::Field(k.clone(), Box::new(c), Box::new(cr))
        },
    }
}

/// The JSON text that serde_json writes for a list of strings.
pub uninterp spec fn string_list_json(items: Seq<String>) -> Seq<char>;

/// The list of strings that serde_json reads from a text, or `None` where the
/// text is not a JSON array of strings.
pub uninterp spec fn string_list_from_json(text: Seq<char>) -> Option<Seq<String>>;

/// Encodes a list of strings with `serde_json::to_string`. The result is named
/// by `string_list_json`; serialising a list of strings cannot fail, so the
/// `[]` fallback is never taken.
#[verifier::external_body]
fn encode_string_list(items: &Vec<String>) -> (r: String)
    ensures
        r@ == string_list_json(items@),
{
    serde_json::to_string(items).unwrap_or_else(|_| "[]".to_string())
}

/// Decodes a list of strings with `serde_json::from_str::<Vec<String>>`. The
/// result is named by `string_list_from_json`; a text that serde_json wrote
/// for a list reads back as that list.
#[verifier::external_body]
fn decode_string_list(text: &str) -> (r: Option<Vec<String>>)
    ensures
        match r {
            Some(h) => string_list_from_json(text@) == Some(h@),
            None => string_list_from_json(text@) is None,
        },
        forall|h: Seq<String>| text@ == string_list_json(h) ==> r.is_some() && r.unwrap()@ == h,
{
    serde_json::from_str::<Vec<String>>(text).ok()
}

/// The strings stored under a text, or none where it does not parse.
pub open spec fn stored_strings(text: Seq<char>) -> Seq<String> {
    match string_list_from_json(text) {
        Some(h) => h,
        None => Seq::empty(),
    }
}

/// The JSON text under which a list of strings is stored.
pub fn string_list_text(items: &Vec<String>) -> (r: String)
    ensures
        r@ == string_list_json(items@),
{
    encode_string_list(items)
}

/// The strings read back from their stored text: none where it does not
/// parse, and exactly the strings that were written where it is their stored
/// text.
pub fn read_string_list(text: &str) -> (r: Vec<String>)
    ensures
        r@ == stored_strings(text@),
        forall|h: Seq<String>| text@ == string_list_json(h) ==> r@ == h,
{
    match decode_string_list(text) {
        Some(h) => h,
        None => Vec::new(),
    }
}

} // verus!
