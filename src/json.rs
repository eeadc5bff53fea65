//! A mathematical model of JSON documents and the few `serde_json` calls
//! that the decoders rely on.
use vstd::prelude::*;
use crate::sign::hex_digit;

verus! {

#[verifier::external_type_specification]
#[verifier::external_body]
pub struct ExValue(serde_json::Value);

#[verifier::external_type_specification]
#[verifier::external_body]
pub struct ExJsonError(serde_json::Error);

/// What a JSON document holds. Integers that `serde_json` stores as integers
/// are `Int`; every other number is `Real`, whose digits no decoder reads.
pub enum Json {
    Null,
    Bool(bool),
    Int(int),
    Real,
    Str(Seq<char>),
    Arr(Seq<Json>),
    Obj(Map<Seq<char>, Json>),
}

/// The document that a `serde_json::Value` holds.
pub uninterp spec fn json_of(v: serde_json::Value) -> Json;

/// The document that `serde_json` reads from a text, if the text is JSON.
pub uninterp spec fn json_parse(s: Seq<char>) -> Option<Json>;

/// How `serde_json` writes one character inside a string literal: quote
/// and backslash escaped, the usual short escapes for backspace, tab, line
/// feed, form feed and carriage return, `\u00XX` with lower-case hex for the
/// other control characters, and every other character as it is.
pub open spec fn escaped_char(c: char) -> Seq<char> {
    if c == '"' {
        seq!['\\', '"']
    } else if c == '\\' {
        seq!['\\', '\\']
    } else if c == '\u{8}' {
        seq!['\\', 'b']
    } else if c == '\t' {
        seq!['\\', 't']
    } else if c == '\n' {
        seq!['\\', 'n']
    } else if c == '\u{c}' {
        seq!['\\', 'f']
    } else if c == '\r' {
        seq!['\\', 'r']
    } else if (c as int) < 0x20 {
        seq!['\\', 'u', '0', '0', hex_digit(c as int / 16), hex_digit(c as int % 16)]
    } else {
        seq![c]
    }
}

/// The characters of a text, each escaped.
pub open spec fn escaped(s: Seq<char>) -> Seq<char>
    decreases s.len(),
{
    if s.len() == 0 {
        Seq::empty()
    } else {
        escaped(s.drop_last()) + escaped_char(s.last())
    }
}

/// The JSON string literal that `serde_json` writes for a text.
pub open spec fn json_quoted(s: Seq<char>) -> Seq<char> {
    seq!['"'] + escaped(s) + seq!['"']
}

/// The member `key` of an object, if the document is an object holding it.
pub open spec fn member(j: Json, key: Seq<char>) -> Option<Json> {
    match j {
        Json::Obj(m) => if m.contains_key(key) { Some(m[key]) } else { None },
        _ => None,
    }
}

/// The text of the member `key`, if it is a string.
pub open spec fn str_member(j: Json, key: Seq<char>) -> Option<Seq<char>> {
    match member(j, key) {
        Some(Json::Str(s)) => Some(s),
        _ => None,
    }
}

/// The integer member `key`, if it fits in `i64`.
pub open spec fn int_member(j: Json, key: Seq<char>) -> Option<i64> {
    match member(j, key) {
        Some(x) => i64_of(x),
        None => None,
    }
}

/// The integer member `key`, if it fits in `u64`.
pub open spec fn nat_member(j: Json, key: Seq<char>) -> Option<u64> {
    match member(j, key) {
        Some(x) => u64_of(x),
        None => None,
    }
}

/// The optional text member `key` is absent, null or a string.
pub open spec fn opt_text_shape(j: Json, key: Seq<char>) -> bool {
    match member(j, key) {
        None => true,
        Some(Json::Null) => true,
        Some(Json::Str(_)) => true,
        _ => false,
    }
}

/// The optional text member `key`: its text when it is a string.
pub open spec fn opt_text_of(j: Json, key: Seq<char>) -> Option<Seq<char>> {
    match member(j, key) {
        Some(Json::Str(s)) => Some(s),
        _ => None,
    }
}

/// The boolean member `key`.
pub open spec fn bool_member(j: Json, key: Seq<char>) -> Option<bool> {
    match member(j, key) {
        Some(Json::Bool(b)) => Some(b),
        _ => None,
    }
}

/// The integer that `as_u64` reads from a document.
pub open spec fn u64_of(j: Json) -> Option<u64> {
    match j {
        Json::Int(i) => if 0 <= i <= u64::MAX { Some(i as u64) } else { None },
        _ => None,
    }
}

/// The integer that `as_i64` reads from a document.
pub open spec fn i64_of(j: Json) -> Option<i64> {
    match j {
        Json::Int(i) => if i64::MIN <= i <= i64::MAX { Some(i as i64) } else { None },
        _ => None,
    }
}

pub assume_specification[ <serde_json::Value as Clone>::clone ](v: &serde_json::Value) -> (r: serde_json::Value)
    ensures
        json_of(r) == json_of(*v),
;

/// Relies on `Value`'s `Display`: the document written as compact JSON.
#[verifier::external_body]
pub fn value_text(v: &serde_json::Value) -> (r: String) {
    v.to_string()
}

/// Relies on `serde_json::from_str::<Value>`: it succeeds exactly on JSON
/// texts and yields the document they hold.
#[verifier::external_body]
pub fn parse_value(s: &str) -> (r: Result<serde_json::Value, serde_json::Error>)
    ensures
        r.is_ok() == json_parse(s@).is_some(),
        r matches Ok(v) ==> json_parse(s@) == Some(json_of(v)),
{
    serde_json::from_str::<serde_json::Value>(s)
}

/// Relies on `serde_json::Error`'s `Display`: a description of the fault.
#[verifier::external_body]
pub fn error_text(e: &serde_json::Error) -> (r: String) {
    e.to_string()
}

/// Relies on `Value::get` with a `&str` index: the member of an object,
/// `None` on a missing key or on anything but an object.
#[verifier::external_body]
pub fn get_member<'a>(v: &'a serde_json::Value, key: &str) -> (r: Option<&'a serde_json::Value>)
    ensures
        r.is_some() == member(json_of(*v), key@).is_some(),
        r.is_some() ==> member(json_of(*v), key@) == Some(json_of(*r.unwrap())),
{
    v.get(key)
}

/// Relies on `Value::as_i64`: an integer that fits in `i64`, else `None`.
#[verifier::external_body]
pub fn as_i64(v: &serde_json::Value) -> (r: Option<i64>)
    ensures
        r == i64_of(json_of(*v)),
{
    v.as_i64()
}

/// Relies on `Value::as_u64`: a non-negative integer that fits in `u64`, else `None`.
#[verifier::external_body]
pub fn as_u64(v: &serde_json::Value) -> (r: Option<u64>)
    ensures
        r == u64_of(json_of(*v)),
{
    v.as_u64()
}

/// Relies on `Value::as_str`: the text of a string, else `None`.
#[verifier::external_body]
pub fn as_str<'a>(v: &'a serde_json::Value) -> (r: Option<&'a str>)
    ensures
        r.is_some() == json_of(*v) is Str,
        r.is_some() ==> json_of(*v) == Json::Str(r.unwrap()@),
{
    v.as_str()
}

/// Relies on `Value::is_null`: whether the document is `null`.
#[verifier::external_body]
pub fn is_null(v: &serde_json::Value) -> (r: bool)
    ensures
        r == json_of(*v) is Null,
{
    v.is_null()
}

/// Relies on `Value::as_bool`: the value of a boolean, else `None`.
#[verifier::external_body]
pub fn as_bool(v: &serde_json::Value) -> (r: Option<bool>)
    ensures
        r.is_some() == json_of(*v) is Bool,
        r.is_some() ==> json_of(*v) == Json::Bool(r.unwrap()),
{
    v.as_bool()
}

/// Relies on `Value::as_array`: the elements of an array, else `None`.
#[verifier::external_body]
pub fn as_array<'a>(v: &'a serde_json::Value) -> (r: Option<&'a Vec<serde_json::Value>>)
    ensures
        r.is_some() == json_of(*v) is Arr,
        r.is_some() ==> json_of(*v) == Json::Arr(r.unwrap()@.map_values(|x: serde_json::Value| json_of(x))),
{
    v.as_array()
}

/// Relies on `serde_json::to_string` on a `&str` (`format_escaped_str`): it
/// writes the string as a JSON literal and, into a `Vec`, never fails.
#[verifier::external_body]
pub fn quote(s: &str) -> (r: Result<String, serde_json::Error>)
    ensures
        r.is_ok(),
        r.is_ok() ==> r.unwrap()@ == json_quoted(s@),
{
    serde_json::to_string(s)
}

/// The text of the string member `key`.
pub fn text_member(v: &serde_json::Value, key: &str) -> (r: Option<String>)
    ensures
        r.is_some() == str_member(json_of(*v), key@).is_some(),
        r.is_some() ==> str_member(json_of(*v), key@) == Some(r.unwrap()@),
{
    match get_member(v, key) {
        Some(m) => match as_str(m) {
            Some(s) => Some(s.to_owned()),
            None => None,
        },
        None => None,
    }
}

/// The integer member `key`, if it fits in `i64`.
pub fn i64_member(v: &serde_json::Value, key: &str) -> (r: Option<i64>)
    ensures
        r == int_member(json_of(*v), key@),
{
    match get_member(v, key) {
        Some(m) => as_i64(m),
        None => None,
    }
}

/// The integer member `key`, if it fits in `u64`.
pub fn u64_member(v: &serde_json::Value, key: &str) -> (r: Option<u64>)
    ensures
        r == nat_member(json_of(*v), key@),
{
    match get_member(v, key) {
        Some(m) => as_u64(m),
        None => None,
    }
}

/// An optional text member: `Some(None)` when absent or null, `Some(Some(t))`
/// for a string, `None` for anything else.
pub fn opt_text_member(v: &serde_json::Value, key: &str) -> (r: Option<Option<String>>)
    ensures
        r is Some == opt_text_shape(json_of(*v), key@),
        r is Some ==> (r->Some_0 is Some) == (opt_text_of(json_of(*v), key@) is Some),
        r is Some && r->Some_0 is Some ==> opt_text_of(json_of(*v), key@) == Some(r->Some_0->Some_0@),
{
    match get_member(v, key) {
        None => Some(None),
        Some(m) => {
            if is_null(m) {
                Some(None)
            } else {
                match as_str(m) {
                    Some(s) => Some(Some(s.to_owned())),
                    None => None,
                }
            }
        },
    }
}

/// The boolean member `key`.
pub fn bool_value_member(v: &serde_json::Value, key: &str) -> (r: Option<bool>)
    ensures
        r == bool_member(json_of(*v), key@),
{
    match get_member(v, key) {
        Some(m) => as_bool(m),
        None => None,
    }
}

/// The texts of an array of strings.
pub open spec fn texts_of(j: Json) -> Option<Seq<Seq<char>>> {
    match j {
        Json::Arr(xs) => if forall|i: int| 0 <= i < xs.len() ==> (#[trigger] xs[i]) is Str {
            Some(xs.map_values(|x: Json| x->Str_0))
        } else {
            None
        },
        _ => None,
    }
}

/// Reads an array of strings, in order.
pub fn decode_texts(v: &serde_json::Value) -> (r: Option<Vec<String>>)
    ensures
        r is Some == texts_of(json_of(*v)) is Some,
        r is Some ==> texts_of(json_of(*v)) == Some(r->Some_0@.map_values(|s: String| s@)),
{
    let items = match as_array(v) {
        Some(a) => a,
        None => return None,
    };
    let ghost xs = items@.map_values(|x: serde_json::Value| json_of(x));
    let mut out: Vec<String> = Vec::new();
    let mut i: usize = 0;
    while i < items.len()
        invariant
            xs == items@.map_values(|x: serde_json::Value| json_of(x)),
            json_of(*v) == Json::Arr(xs),
            i <= items@.len(),
            out@.len() == i,
            forall|k: int| 0 <= k < i ==> (#[trigger] xs[k]) == Json::Str(out@[k]@),
        decreases items@.len() - i,
    {
        match as_str(&items[i]) {
            Some(s) => out.push(s.to_owned()),
            None => {
                assert(!(xs[i as int] is Str));
                return None;
            },
        }
        i = i + 1;
    }
    assert(xs.map_values(|x: Json| x->Str_0) =~= out@.map_values(|s: String| s@));
    Some(out)
}

/// The optional integer member `key` is absent, null or fits in `i32`.
pub open spec fn opt_i32_shape(j: Json, key: Seq<char>) -> bool {
    match member(j, key) {
        None => true,
        Some(Json::Null) => true,
        Some(x) => i64_of(x) is Some && i32::MIN <= i64_of(x)->Some_0 <= i32::MAX,
    }
}

/// The optional integer member `key`, when it is an integer that fits in `i32`.
pub open spec fn opt_i32_of(j: Json, key: Seq<char>) -> Option<i32> {
    match member(j, key) {
        Some(x) => match i64_of(x) {
            Some(i) => if i32::MIN <= i <= i32::MAX { Some(i as i32) } else { None },
            None => None,
        },
        None => None,
    }
}

/// An optional `i32` member: `Some(None)` when absent or null.
pub fn opt_i32_member(v: &serde_json::Value, key: &str) -> (r: Option<Option<i32>>)
    ensures
        r is Some == opt_i32_shape(json_of(*v), key@),
        r is Some ==> r->Some_0 == opt_i32_of(json_of(*v), key@),
{
    match get_member(v, key) {
        None => Some(None),
        Some(m) => {
            if is_null(m) {
                Some(None)
            } else {
                match as_i64(m) {
                    Some(i) => if i32::MIN as i64 <= i && i <= i32::MAX as i64 { Some(Some(i as i32)) } else { None },
                    None => None,
                }
            }
        },
    }
}

/// The optional member `key` is absent, null or an array of strings.
pub open spec fn opt_texts_shape(j: Json, key: Seq<char>) -> bool {
    match member(j, key) {
        None => true,
        Some(Json::Null) => true,
        Some(x) => texts_of(x) is Some,
    }
}

/// The texts of the optional member `key`, when it is an array of strings.
pub open spec fn opt_texts_of(j: Json, key: Seq<char>) -> Option<Seq<Seq<char>>> {
    match member(j, key) {
        Some(x) => texts_of(x),
        None => None,
    }
}

/// An optional array of strings: `Some(None)` when absent or null.
pub fn opt_texts_member(v: &serde_json::Value, key: &str) -> (r: Option<Option<Vec<String>>>)
    ensures
        r is Some == opt_texts_shape(json_of(*v), key@),
        r is Some ==> (r->Some_0 is Some) == (opt_texts_of(json_of(*v), key@) is Some),
        r is Some && r->Some_0 is Some
            ==> opt_texts_of(json_of(*v), key@) == Some(r->Some_0->Some_0@.map_values(|s: String| s@)),
{
    match get_member(v, key) {
        None => Some(None),
        Some(m) => {
            if is_null(m) {
                Some(None)
            } else {
                match decode_texts(m) {
                    Some(t) => Some(Some(t)),
                    None => None,
                }
            }
        },
    }
}

/// An optional member kept as a document: `None` when absent or null.
pub fn opt_value_member(v: &serde_json::Value, key: &str) -> (r: Option<serde_json::Value>)
    ensures
        (r is Some) == (member(json_of(*v), key@) is Some && !(member(json_of(*v), key@)->Some_0 is Null)),
        r is Some ==> member(json_of(*v), key@) == Some(json_of(r->Some_0)),
{
    match get_member(v, key) {
        None => None,
        Some(m) => if is_null(m) { None } else { Some(m.clone()) },
    }
}

} // verus!
