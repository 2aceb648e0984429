//! The boundary to the JSON library. Every call into `serde_json` that the
//! protocol client makes goes through one of the wrappers below; what each
//! call returns is named by an uninterpreted spec function of its inputs,
//! and the wrappers' contracts are all that the rest of the crate relies on.

use vstd::prelude::*;

verus! {

#[verifier::external_type_specification]
#[verifier::external_body]
pub struct ExValue(serde_json::Value);

/// The compact JSON text that `serde_json::to_string` writes for `v`.
pub uninterp spec fn json_text(v: serde_json::Value) -> Seq<char>;

/// The compact texts of a sequence of values, one per value.
pub open spec fn texts_of(vs: Seq<serde_json::Value>) -> Seq<Seq<char>> {
    vs.map_values(|v: serde_json::Value| json_text(v))
}

/// Whether `v` is the array variant of `serde_json::Value`.
pub uninterp spec fn json_is_array(v: serde_json::Value) -> bool;

/// The elements of `v` when `v` is the array variant.
pub uninterp spec fn json_elems(v: serde_json::Value) -> Seq<serde_json::Value>;

/// What `serde_json::from_slice::<Value>` parses `data` into, if anything.
pub uninterp spec fn parsed_json(data: Seq<u8>) -> Option<serde_json::Value>;

/// The member of object `v` under `key`, as `Value::get` finds it.
pub uninterp spec fn json_field(v: serde_json::Value, key: Seq<char>) -> Option<serde_json::Value>;

/// The value of `v` as an unsigned integer, as `Value::as_u64` reads it.
pub uninterp spec fn json_as_u64(v: serde_json::Value) -> Option<u64>;

/// The value of `v` as a signed integer, as `Value::as_i64` reads it.
pub uninterp spec fn json_as_i64(v: serde_json::Value) -> Option<i64>;

/// The characters of `v` when `v` is the string variant, as `Value::as_str`
/// hands them out.
pub uninterp spec fn json_as_str(v: serde_json::Value) -> Option<Seq<char>>;

/// Relies on serde_json::to_string: the compact text of the value. Writing
/// a `Value` cannot fail, since its object keys are strings.
#[verifier::external_body]
pub(crate) fn value_to_text(v: &serde_json::Value) -> (r: String)
    ensures
        r@ == json_text(*v),
{
    serde_json::to_string(v).unwrap_or_default()
}

/// Relies on the `serde_json::Value` enum: the array variant holds its
/// elements, and the compact writer puts exactly the elements' texts,
/// separated by commas, between one pair of brackets.
#[verifier::external_body]
pub(crate) fn value_into_array(v: serde_json::Value) -> (r: Result<
    Vec<serde_json::Value>,
    serde_json::Value,
>)
    ensures
        r matches Ok(arr) ==> {
            &&& json_is_array(v)
            &&& arr@ == json_elems(v)
            &&& json_text(v) == "["@ + crate::text::join_texts(texts_of(json_elems(v)), ","@)
                + "]"@
        },
        r matches Err(w) ==> !json_is_array(v) && w == v,
{
    match v {
        serde_json::Value::Array(arr) => Ok(arr),
        other => Err(other),
    }
}

/// Relies on serde_json::from_slice::<Value>: parses the bytes as one JSON
/// document, or fails.
#[verifier::external_body]
pub(crate) fn parse_json(data: &[u8]) -> (r: Option<serde_json::Value>)
    ensures
        r == parsed_json(data@),
{
    serde_json::from_slice(data).ok()
}

/// Relies on serde_json::Value::get: the member of an object under the key,
/// or nothing when there is none or the value is no object.
#[verifier::external_body]
pub(crate) fn value_field<'a>(v: &'a serde_json::Value, key: &str) -> (r: Option<
    &'a serde_json::Value,
>)
    ensures
        r matches Some(f) ==> json_field(*v, key@) == Some(*f),
        r is None ==> json_field(*v, key@) is None,
{
    v.get(key)
}

/// Relies on serde_json::Value's derived Clone: a clone equals the original.
#[verifier::external_body]
pub(crate) fn value_clone(v: &serde_json::Value) -> (r: serde_json::Value)
    ensures
        r == *v,
{
    v.clone()
}

/// Relies on serde_json::Value::as_u64: the number as an unsigned integer,
/// when the value is an integer in range.
#[verifier::external_body]
pub(crate) fn value_as_u64(v: &serde_json::Value) -> (r: Option<u64>)
    ensures
        r == json_as_u64(*v),
{
    v.as_u64()
}

/// Relies on serde_json::Value::as_i64: the number as a signed integer,
/// when the value is an integer in range.
#[verifier::external_body]
pub(crate) fn value_as_i64(v: &serde_json::Value) -> (r: Option<i64>)
    ensures
        r == json_as_i64(*v),
{
    v.as_i64()
}

/// Relies on serde_json::Value::as_str: the characters of the string
/// variant; the owned copy is made by str::to_owned.
#[verifier::external_body]
pub(crate) fn value_as_string(v: &serde_json::Value) -> (r: Option<String>)
    ensures
        r matches Some(s) ==> json_as_str(*v) == Some(s@),
        r is None ==> json_as_str(*v) is None,
{
    v.as_str().map(|s| s.to_owned())
}

} // verus!
