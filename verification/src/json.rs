//! The library's model of a decoded JSON document.
//!
//! Every response body and every request body is a `JsonValue`.  The
//! transport layer outside the library decodes wire text into this type
//! and encodes it back; the library itself only inspects and builds
//! values.  Objects keep their members in wire order as key/value
//! pairs, and a member lookup takes the first pair with the given key.
//! Numbers are integers: the remote API carries ids, sizes and prices,
//! never fractions.

use vstd::prelude::*;

use crate::numstr::spec_parse_u32;
use crate::numstr::parse_u32;

verus! {

#[derive(Debug, PartialEq)]
pub enum JsonValue {
    Null,
    Bool(bool),
    Num(i64),
    Str(String),
    Arr(Vec<JsonValue>),
    Obj(Vec<(String, JsonValue)>),
}

/// The first member of `fields` whose key reads as `key`, if any.
pub open spec fn lookup_field(fields: Seq<(String, JsonValue)>, key: Seq<char>) -> Option<
    JsonValue,
>
    decreases fields.len(),
{
    if fields.len() == 0 {
        None
    } else if fields[0].0@ == key {
        Some(fields[0].1)
    } else {
        lookup_field(fields.drop_first(), key)
    }
}

/// The member named `key` of an object, `None` on any other shape.
pub open spec fn get_field(v: JsonValue, key: Seq<char>) -> Option<JsonValue> {
    match v {
        JsonValue::Obj(fields) => lookup_field(fields@, key),
        _ => None,
    }
}

/// Looks a member up by key; `None` when `v` is not an object or has
/// no such member.
pub fn jv_get<'a>(v: &'a JsonValue, key: &str) -> (r: Option<&'a JsonValue>)
    ensures
        match r {
            Some(x) => get_field(*v, key@) == Some(*x),
            None => get_field(*v, key@) is None,
        },
{
    let key_string = key.to_owned();
    match v {
        JsonValue::Obj(fields) => {
            let n = fields.len();
            let mut i: usize = 0;
            proof {
                assert(fields@.skip(0) =~= fields@);
            }
            while i < n
                invariant
                    0 <= i <= n,
                    n == fields@.len(),
                    key_string@ == key@,
                    lookup_field(fields@.skip(i as int), key@) == get_field(*v, key@),
                decreases n - i,
            {
                if fields[i].0 == key_string {
                    let found = &fields[i].1;
                    proof {
                        assert(fields@.skip(i as int)[0] == fields@[i as int]);
                        assert(fields@[i as int].0@ == key@);
                        assert(lookup_field(fields@.skip(i as int), key@) == Some(
                            fields@[i as int].1,
                        ));
                        assert(*found == fields@[i as int].1);
                    }
                    return Some(found);
                }
                proof {
                    assert(fields@.skip(i as int).drop_first() =~= fields@.skip(i + 1));
                    assert(fields@.skip(i as int)[0] == fields@[i as int]);
                }
                i += 1;
            }
            proof {
                assert(fields@.skip(n as int) =~= Seq::<(String, JsonValue)>::empty());
            }
            None
        },
        _ => None,
    }
}

/// The text of the string member named `key`, if present with that shape.
pub open spec fn spec_field_str(v: JsonValue, key: Seq<char>) -> Option<Seq<char>> {
    match get_field(v, key) {
        Some(JsonValue::Str(s)) => Some(s@),
        _ => None,
    }
}

pub fn jv_field_str(v: &JsonValue, key: &str) -> (r: Option<String>)
    ensures
        match r {
            Some(s) => spec_field_str(*v, key@) == Some(s@),
            None => spec_field_str(*v, key@) is None,
        },
{
    match jv_get(v, key) {
        Some(JsonValue::Str(s)) => Some(s.clone()),
        _ => None,
    }
}

/// An optional string member: an absent member and an explicit `null`
/// both read as `Some(None)`; a present string reads as `Some(Some(text))`;
/// any other shape is a mismatch.
pub open spec fn spec_field_opt_str(v: JsonValue, key: Seq<char>) -> Option<Option<Seq<char>>> {
    match get_field(v, key) {
        Some(JsonValue::Str(s)) => Some(Some(s@)),
        Some(JsonValue::Null) => Some(None),
        Some(_) => None,
        None => Some(None),
    }
}

pub fn jv_field_opt_str(v: &JsonValue, key: &str) -> (r: Option<Option<String>>)
    ensures
        match r {
            Some(Some(s)) => spec_field_opt_str(*v, key@) == Some(Some(s@)),
            Some(None) => spec_field_opt_str(*v, key@) == Some(None::<Seq<char>>),
            None => spec_field_opt_str(*v, key@) is None,
        },
{
    match jv_get(v, key) {
        Some(JsonValue::Str(s)) => Some(Some(s.clone())),
        Some(JsonValue::Null) => Some(None),
        Some(_) => None,
        None => Some(None),
    }
}

/// The boolean member named `key`, if present with that shape.
pub open spec fn spec_field_bool(v: JsonValue, key: Seq<char>) -> Option<bool> {
    match get_field(v, key) {
        Some(JsonValue::Bool(b)) => Some(b),
        _ => None,
    }
}

pub fn jv_field_bool(v: &JsonValue, key: &str) -> (r: Option<bool>)
    ensures
        r == spec_field_bool(*v, key@),
{
    match jv_get(v, key) {
        Some(JsonValue::Bool(b)) => Some(*b),
        _ => None,
    }
}

/// The numeric member named `key` as an `i64`.
pub open spec fn spec_field_i64(v: JsonValue, key: Seq<char>) -> Option<i64> {
    match get_field(v, key) {
        Some(JsonValue::Num(n)) => Some(n),
        _ => None,
    }
}

pub fn jv_field_i64(v: &JsonValue, key: &str) -> (r: Option<i64>)
    ensures
        r == spec_field_i64(*v, key@),
{
    match jv_get(v, key) {
        Some(JsonValue::Num(n)) => Some(*n),
        _ => None,
    }
}

/// The numeric member named `key` as a `u32`, when its value fits.
pub open spec fn spec_field_u32(v: JsonValue, key: Seq<char>) -> Option<u32> {
    match spec_field_i64(v, key) {
        Some(n) => if 0 <= n <= u32::MAX {
            Some(n as u32)
        } else {
            None
        },
        None => None,
    }
}

pub fn jv_field_u32(v: &JsonValue, key: &str) -> (r: Option<u32>)
    ensures
        r == spec_field_u32(*v, key@),
{
    match jv_field_i64(v, key) {
        Some(n) => if 0 <= n && n <= u32::MAX as i64 {
            Some(n as u32)
        } else {
            None
        },
        None => None,
    }
}

/// The numeric member named `key` as an `i32`, when its value fits.
pub open spec fn spec_field_i32(v: JsonValue, key: Seq<char>) -> Option<i32> {
    match spec_field_i64(v, key) {
        Some(n) => if i32::MIN <= n <= i32::MAX {
            Some(n as i32)
        } else {
            None
        },
        None => None,
    }
}

pub fn jv_field_i32(v: &JsonValue, key: &str) -> (r: Option<i32>)
    ensures
        r == spec_field_i32(*v, key@),
{
    match jv_field_i64(v, key) {
        Some(n) => if i32::MIN as i64 <= n && n <= i32::MAX as i64 {
            Some(n as i32)
        } else {
            None
        },
        None => None,
    }
}

/// The numeric member named `key` as a `u64`, when its value is not
/// negative.
pub open spec fn spec_field_u64(v: JsonValue, key: Seq<char>) -> Option<u64> {
    match spec_field_i64(v, key) {
        Some(n) => if 0 <= n {
            Some(n as u64)
        } else {
            None
        },
        None => None,
    }
}

pub fn jv_field_u64(v: &JsonValue, key: &str) -> (r: Option<u64>)
    ensures
        r == spec_field_u64(*v, key@),
{
    match jv_field_i64(v, key) {
        Some(n) => if 0 <= n {
            Some(n as u64)
        } else {
            None
        },
        None => None,
    }
}

/// A `u32` member that the wire may carry either as a number or as a
/// decimal string, the way numeric-looking id fields arrive.
pub open spec fn spec_field_u32_lenient(v: JsonValue, key: Seq<char>) -> Option<u32> {
    match get_field(v, key) {
        Some(JsonValue::Num(n)) => if 0 <= n <= u32::MAX {
            Some(n as u32)
        } else {
            None
        },
        Some(JsonValue::Str(s)) => spec_parse_u32(s@),
        _ => None,
    }
}

pub fn jv_field_u32_lenient(v: &JsonValue, key: &str) -> (r: Option<u32>)
    ensures
        r == spec_field_u32_lenient(*v, key@),
{
    match jv_get(v, key) {
        Some(JsonValue::Num(n)) => if 0 <= *n && *n <= u32::MAX as i64 {
            Some(*n as u32)
        } else {
            None
        },
        Some(JsonValue::Str(s)) => parse_u32(s.as_str()),
        _ => None,
    }
}

/// Whether `v` is the string `t`.
pub open spec fn is_text(v: JsonValue, t: Seq<char>) -> bool {
    match v {
        JsonValue::Str(s) => s@ == t,
        _ => false,
    }
}

/// Whether `v` renders the optional text `t`: its string when present,
/// `null` when absent.
pub open spec fn is_opt_text(v: JsonValue, t: Option<Seq<char>>) -> bool {
    match t {
        Some(x) => is_text(v, x),
        None => v is Null,
    }
}

/// Whether `v` is the number `n`.
pub open spec fn is_num(v: JsonValue, n: i64) -> bool {
    v == JsonValue::Num(n)
}

/// The text of an optional string, when there is one.
pub open spec fn opt_text_view(o: Option<String>) -> Option<Seq<char>> {
    match o {
        Some(s) => Some(s@),
        None => None,
    }
}

/// The exact literal a boolean flag is carried as in request bodies.
pub fn yes_no(b: bool) -> (s: &'static str)
    ensures
        b ==> s@ == "yes"@,
        !b ==> s@ == "no"@,
{
    if b {
        "yes"
    } else {
        "no"
    }
}

/// Renders optional text as a JSON value: its string when present,
/// `null` when absent.
pub fn opt_text(o: &Option<String>) -> (v: JsonValue)
    ensures
        is_opt_text(v, opt_text_view(*o)),
{
    match o {
        Some(s) => JsonValue::Str(s.clone()),
        None => JsonValue::Null,
    }
}

/// The array member named `key`, if present with that shape.
pub open spec fn spec_field_arr(v: JsonValue, key: Seq<char>) -> Option<Seq<JsonValue>> {
    match get_field(v, key) {
        Some(JsonValue::Arr(elems)) => Some(elems@),
        _ => None,
    }
}

pub fn jv_field_arr<'a>(v: &'a JsonValue, key: &str) -> (r: Option<&'a Vec<JsonValue>>)
    ensures
        match r {
            Some(elems) => spec_field_arr(*v, key@) == Some(elems@),
            None => spec_field_arr(*v, key@) is None,
        },
{
    match jv_get(v, key) {
        Some(JsonValue::Arr(elems)) => Some(elems),
        _ => None,
    }
}

} // verus!
