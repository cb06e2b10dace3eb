use crate::text::text_eq;
use vstd::prelude::*;

verus! {

/// A JSON number: its value where it is an integer that fits in `i64`, and
/// its text as the reader renders it.
#[derive(Debug, Clone, PartialEq, Eq)]
pub struct JsonNumber {
    pub integer: Option<i64>,
    pub text: String,
}

/// A JSON document. An array or an object keeps, beside its items, its
/// compact rendering as the reader writes it.
#[derive(Debug, PartialEq, Eq)]
pub enum Json {
    Null,
    Bool(bool),
    Number(JsonNumber),
    Str(String),
    Array(Vec<Json>, String),
    Object(Vec<Member>, String),
}

/// One entry of a JSON object.
#[derive(Debug, PartialEq, Eq)]
pub struct Member {
    pub key: String,
    pub value: Json,
}

/// serde_json's document type, which [`parse_json`] turns into a [`Json`].
#[verifier::external_type_specification]
#[verifier::external_body]
pub struct ExJsonValue(serde_json::Value);

/// The document that serde_json reads from a text, or `None` where the text
/// is not one JSON document.
pub uninterp spec fn parsed_json(text: Seq<char>) -> Option<Json>;

/// Relies on serde_json::from_str, read into serde_json::Value: the result
/// depends on the text alone.
#[verifier::external_body]
pub(crate) fn parse_json(text: &str) -> (r: Option<Json>)
    ensures
        r == parsed_json(text@),
{
    serde_json::from_str::<serde_json::Value>(text).ok().map(json_from_value)
}

/// Relies on the variants of serde_json::Value, each moved into the variant
/// of [`Json`] of the same name; a number keeps `as_i64` and its rendering,
/// an array or an object the compact rendering of `Value`'s `Display`.
#[verifier::external_body]
fn json_from_value(v: serde_json::Value) -> Json {
    let text = v.to_string();
    match v {
        serde_json::Value::Null => Json::Null,
        serde_json::Value::Bool(b) => Json::Bool(b),
        serde_json::Value::Number(n) => Json::Number(JsonNumber { integer: n.as_i64(), text: n.to_string() }),
        serde_json::Value::String(s) => Json::Str(s),
        serde_json::Value::Array(a) => Json::Array(a.into_iter().map(json_from_value).collect(), text),
        serde_json::Value::Object(m) => Json::Object(
            m.into_iter().map(|(key, value)| Member { key, value: json_from_value(value) }).collect(),
            text,
        ),
    }
}

/// The value of the first entry from position `i` on whose key is `key`.
pub open spec fn member_from(fields: Seq<Member>, key: Seq<char>, i: int) -> Option<Json>
    decreases fields.len() - i,
{
    if i < 0 || i >= fields.len() {
        None
    } else if fields[i].key@ == key {
        Some(fields[i].value)
    } else {
        member_from(fields, key, i + 1)
    }
}

/// The entry `key` of an object, where `j` is an object that has one.
pub open spec fn entry_of(j: Json, key: Seq<char>) -> Option<Json> {
    match j {
        Json::Object(fields, _) => member_from(fields@, key, 0),
        _ => None,
    }
}

/// The entry `key` of an object; `Null` where `j` is no object or lacks it.
pub open spec fn at(j: Json, key: Seq<char>) -> Json {
    match entry_of(j, key) {
        Some(v) => v,
        None => Json::Null,
    }
}

/// The characters of a JSON string.
pub open spec fn text_of(j: Json) -> Option<Seq<char>> {
    match j {
        Json::Str(s) => Some(s@),
        _ => None,
    }
}

/// An integer that fits in `i32`.
pub open spec fn int_of(j: Json) -> Option<i32> {
    match j {
        Json::Number(n) => match n.integer {
            Some(v) => if i32::MIN <= v <= i32::MAX {
                Some(v as i32)
            } else {
                None
            },
            None => None,
        },
        _ => None,
    }
}

/// A value read as text, whatever its kind: a string stands for itself,
/// any other value for its compact JSON rendering.
pub open spec fn loose_text_of(j: Json) -> Seq<char> {
    match j {
        Json::Str(s) => s@,
        Json::Number(n) => n.text@,
        Json::Bool(b) => if b {
            "true"@
        } else {
            "false"@
        },
        Json::Null => "null"@,
        Json::Array(_, text) => text@,
        Json::Object(_, text) => text@,
    }
}

/// An optional string: `null` (or an absent entry) is no value.
pub open spec fn opt_text_of(j: Json) -> Option<Option<Seq<char>>> {
    match j {
        Json::Null => Some(None),
        Json::Str(s) => Some(Some(s@)),
        _ => None,
    }
}

/// The characters of an optional string.
pub open spec fn opt_view(o: Option<String>) -> Option<Seq<char>> {
    match o {
        Some(s) => Some(s@),
        None => None,
    }
}

/// The entry `key` of `j`, where there is one.
pub(crate) fn entry<'a>(j: &'a Json, key: &str) -> (r: Option<&'a Json>)
    ensures
        match r {
            Some(v) => entry_of(*j, key@) == Some(*v),
            None => entry_of(*j, key@) is None,
        },
{
    match j {
        Json::Object(fields, _) => {
            let mut i: usize = 0;
            while i < fields.len()
                invariant
                    i <= fields@.len(),
                    *j is Object,
                    j->Object_0 == *fields,
                    member_from(fields@, key@, 0) == member_from(fields@, key@, i as int),
                decreases fields@.len() - i,
            {
                if text_eq(fields[i].key.as_str(), key) {
                    assert(fields@[i as int].key@ == key@);
                    assert(member_from(fields@, key@, i as int) == Some(fields@[i as int].value));
                    let r = &fields[i];
                    return Some(&r.value);
                }
                i = i + 1;
            }
            None
        },
        _ => None,
    }
}

/// The string entry `key` of `j`.
pub(crate) fn entry_text(j: &Json, key: &str) -> (r: Option<String>)
    ensures
        opt_view(r) == text_of(at(*j, key@)),
{
    match entry(j, key) {
        Some(Json::Str(s)) => Some(s.clone()),
        _ => None,
    }
}

/// The integer entry `key` of `j`.
pub(crate) fn entry_int(j: &Json, key: &str) -> (r: Option<i32>)
    ensures
        r == int_of(at(*j, key@)),
{
    match entry(j, key) {
        Some(Json::Number(n)) => match n.integer {
            Some(v) => if -2147483648 <= v && v <= 2147483647 {
                Some(v as i32)
            } else {
                None
            },
            None => None,
        },
        _ => None,
    }
}

/// The entry `key` of `j` as text, whatever its kind; `None` where there is
/// no such entry.
pub(crate) fn entry_loose_text(j: &Json, key: &str) -> (r: Option<String>)
    ensures
        match entry_of(*j, key@) {
            Some(v) => opt_view(r) == Some(loose_text_of(v)),
            None => r is None,
        },
{
    match entry(j, key) {
        Some(Json::Str(s)) => Some(s.clone()),
        Some(Json::Number(n)) => Some(n.text.clone()),
        Some(Json::Bool(b)) => if *b {
            Some("true".to_string())
        } else {
            Some("false".to_string())
        },
        Some(Json::Null) => Some("null".to_string()),
        Some(Json::Array(_, text)) => Some(text.clone()),
        Some(Json::Object(_, text)) => Some(text.clone()),
        None => None,
    }
}

/// The optional string entry `key` of `j`: `Some(None)` where it is `null`
/// or absent, `None` where it is of another kind.
pub(crate) fn entry_opt_text(j: &Json, key: &str) -> (r: Option<Option<String>>)
    ensures
        match r {
            Some(o) => opt_text_of(at(*j, key@)) == Some(opt_view(o)),
            None => opt_text_of(at(*j, key@)) is None,
        },
{
    match entry(j, key) {
        None => Some(None),
        Some(Json::Null) => Some(None),
        Some(Json::Str(s)) => Some(Some(s.clone())),
        _ => None,
    }
}

} // verus!
