//! Trusted boundary around `serde_json`.
//!
//! The response bodies of the remote API are JSON. Parsing the text and
//! reading a parsed tree are done by `serde_json`; each call the library
//! makes stands behind one wrapper here, whose contract speaks of an
//! unspecified name for the call's result. A parsed tree is opaque: what
//! the decoders in `responses` state of it, they state over these names.

use vstd::prelude::*;

verus! {

#[verifier::external_type_specification]
#[verifier::external_body]
pub struct ExValue(serde_json::Value);

#[verifier::external_type_specification]
#[verifier::external_body]
pub struct ExError(serde_json::Error);

/// What `serde_json::from_str::<Value>` yields on a text: the parsed tree,
/// or nothing where the text is not valid JSON.
pub uninterp spec fn json_of_text(s: Seq<char>) -> Option<serde_json::Value>;

/// What `Value::get` yields on a value and an object key.
pub uninterp spec fn field_of(v: serde_json::Value, key: Seq<char>) -> Option<serde_json::Value>;

/// What `Value::as_str` yields: the characters where the value is a string.
pub uninterp spec fn str_of(v: serde_json::Value) -> Option<Seq<char>>;

/// What `Value::as_i64` yields: the number where it is a signed integer.
pub uninterp spec fn i64_of(v: serde_json::Value) -> Option<i64>;

/// What `Value::as_u64` yields: the number where it is an unsigned integer.
pub uninterp spec fn u64_of(v: serde_json::Value) -> Option<u64>;

/// What `Value::as_bool` yields: the boolean where the value is one.
pub uninterp spec fn bool_of(v: serde_json::Value) -> Option<bool>;

/// What `Value::as_array` yields: the elements where the value is an array.
pub uninterp spec fn array_of(v: serde_json::Value) -> Option<Seq<serde_json::Value>>;

/// What `Value::as_f64` yields, carried as the number's bit pattern: the
/// numeric value where the value is a number representable as a double.
pub uninterp spec fn double_bits_of(v: serde_json::Value) -> Option<u64>;

/// Relies on `serde_json::from_str::<Value>`: the parse outcome is a
/// function of the text alone.
#[verifier::external_body]
pub(crate) fn parse_json(body: &str) -> (r: Result<serde_json::Value, serde_json::Error>)
    ensures
        r is Ok <==> json_of_text(body@) is Some,
        (r matches Ok(v) ==> json_of_text(body@) == Some(v)),
{
    serde_json::from_str(body)
}

/// Relies on `serde_json::Error`'s display impl: the failure's text, for
/// diagnostics only; nothing is promised of it.
#[verifier::external_body]
pub(crate) fn error_text(e: &serde_json::Error) -> String {
    e.to_string()
}

/// Relies on `serde_json::Value::get` with a string key: the field of an
/// object under that key, or nothing where there is none.
#[verifier::external_body]
pub(crate) fn json_field<'a>(v: &'a serde_json::Value, key: &str) -> (r: Option<
    &'a serde_json::Value,
>)
    ensures
        r is Some <==> field_of(*v, key@) is Some,
        (r matches Some(f) ==> field_of(*v, key@) == Some(*f)),
{
    v.get(key)
}

/// Relies on `serde_json::Value::as_str`: the owned text of a JSON string.
#[verifier::external_body]
pub(crate) fn json_str(v: &serde_json::Value) -> (r: Option<String>)
    ensures
        r is Some <==> str_of(*v) is Some,
        (r matches Some(s) ==> str_of(*v) == Some(s@)),
{
    v.as_str().map(|s| s.to_owned())
}

/// Relies on `serde_json::Value::as_i64`.
#[verifier::external_body]
pub(crate) fn json_i64(v: &serde_json::Value) -> (r: Option<i64>)
    ensures
        r == i64_of(*v),
{
    v.as_i64()
}

/// Relies on `serde_json::Value::as_u64`.
#[verifier::external_body]
pub(crate) fn json_u64(v: &serde_json::Value) -> (r: Option<u64>)
    ensures
        r == u64_of(*v),
{
    v.as_u64()
}

/// Relies on `serde_json::Value::as_bool`.
#[verifier::external_body]
pub(crate) fn json_bool(v: &serde_json::Value) -> (r: Option<bool>)
    ensures
        r == bool_of(*v),
{
    v.as_bool()
}

/// Relies on `serde_json::Value::as_array`: the elements of a JSON array.
#[verifier::external_body]
pub(crate) fn json_array<'a>(v: &'a serde_json::Value) -> (r: Option<&'a Vec<serde_json::Value>>)
    ensures
        r is Some <==> array_of(*v) is Some,
        (r matches Some(a) ==> array_of(*v) == Some(a@)),
{
    v.as_array()
}

/// Relies on `serde_json::Value::as_f64` and `f64::to_bits`: the numeric
/// value of a JSON number, carried one-for-one as its bit pattern.
#[verifier::external_body]
pub(crate) fn json_double_bits(v: &serde_json::Value) -> (r: Option<u64>)
    ensures
        r == double_bits_of(*v),
{
    v.as_f64().map(|x| x.to_bits())
}

/// Relies on the `serde_json::Value` and `serde_json::Map` constructors
/// and `Map::insert`: builds the persisted-token object
/// `{"expires_at": ..., "scope": [...], "token": ...}`, whose fields read
/// back under `get` as the values put in.
#[verifier::external_body]
pub(crate) fn persisted_value(expires_at: i64, scope: &Vec<String>, token: &str) -> (r:
    serde_json::Value)
    ensures
        field_of(r, "expires_at"@) is Some,
        i64_of(field_of(r, "expires_at"@)->0) == Some(expires_at),
        field_of(r, "scope"@) is Some,
        array_of(field_of(r, "scope"@)->0) is Some,
        array_of(field_of(r, "scope"@)->0)->0.len() == scope@.len(),
        forall|i: int|
            0 <= i < scope@.len() ==> str_of(#[trigger] array_of(field_of(r, "scope"@)->0)->0[i])
                == Some(scope@[i]@),
        field_of(r, "token"@) is Some,
        str_of(field_of(r, "token"@)->0) == Some(token@),
{
    let entries: Vec<serde_json::Value> =
        scope.iter().map(|s| serde_json::Value::String(s.clone())).collect();
    let mut m = serde_json::Map::new();
    m.insert("expires_at".to_owned(), serde_json::Value::from(expires_at));
    m.insert("scope".to_owned(), serde_json::Value::Array(entries));
    m.insert("token".to_owned(), serde_json::Value::String(token.to_owned()));
    serde_json::Value::Object(m)
}

/// Relies on `serde_json::Value::clone`: an exact copy of the tree.
#[verifier::external_body]
pub(crate) fn json_clone(v: &serde_json::Value) -> (r: serde_json::Value)
    ensures
        r == *v,
{
    v.clone()
}

} // verus!
