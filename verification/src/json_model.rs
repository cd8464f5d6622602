use vstd::prelude::*;

verus! {

/// Mathematical model of a parsed JSON document, as far as this client
/// inspects one: booleans, unsigned integers, strings, arrays, and
/// objects (modelled as a map from key to value). `Other` stands for
/// every remaining JSON value (null, numbers outside `u64`), none of
/// which this client ever reads a field from.
pub enum Js {
    Bool(bool),
    U(u64),
    Str(Seq<char>),
    Arr(Seq<Js>),
    Obj(Map<Seq<char>, Js>),
    Other,
}

#[verifier::external_type_specification]
#[verifier::external_body]
pub struct ExValue(serde_json::Value);

/// The model of a `serde_json::Value`.
pub uninterp spec fn js_of(v: serde_json::Value) -> Js;

/// What `serde_json::from_str::<serde_json::Value>` yields on a text:
/// `None` when the text is not valid JSON, otherwise the model of the
/// parsed document. Parsing is a function of the text alone.
pub uninterp spec fn js_text(s: Seq<char>) -> Option<Js>;

/// Relies on serde_json::from_str::<Value>: parses a JSON text, or
/// fails on malformed input.
#[verifier::external_body]
pub(crate) fn parse_value(s: &str) -> (r: Option<serde_json::Value>)
    ensures
        r matches Some(v) ==> js_text(s@) == Some(js_of(v)),
        r is None ==> js_text(s@) is None,
{
    serde_json::from_str::<serde_json::Value>(s).ok()
}

/// Relies on serde_json::Value::get with a string index (and
/// Value::clone): on an object, the entry under the key, if any; on
/// every other value, `None`.
#[verifier::external_body]
pub(crate) fn obj_get(v: &serde_json::Value, key: &str) -> (r: Option<serde_json::Value>)
    ensures
        match js_of(*v) {
            Js::Obj(m) => {
                &&& r is Some <==> m.contains_key(key@)
                &&& (r matches Some(w) ==> js_of(w) == m[key@])
            },
            _ => r is None,
        },
{
    v.get(key).cloned()
}

/// Relies on serde_json::Value::as_object and Map::len: the number of
/// keys of an object (an in-memory object always has finitely many),
/// `None` on every other value.
#[verifier::external_body]
pub(crate) fn obj_len(v: &serde_json::Value) -> (r: Option<usize>)
    ensures
        match js_of(*v) {
            Js::Obj(m) => m.dom().finite() && (r matches Some(n) && n == m.dom().len()),
            _ => r is None,
        },
{
    v.as_object().map(|m| m.len())
}

/// Relies on serde_json::Value::as_u64: the value of a number
/// representable as `u64`, `None` on every other value.
#[verifier::external_body]
pub(crate) fn as_u64(v: &serde_json::Value) -> (r: Option<u64>)
    ensures
        match js_of(*v) {
            Js::U(n) => r == Some(n),
            _ => r is None,
        },
{
    v.as_u64()
}

/// Relies on serde_json::Value::as_str (and str::to_owned): the text of
/// a JSON string, `None` on every other value.
#[verifier::external_body]
pub(crate) fn as_string(v: &serde_json::Value) -> (r: Option<String>)
    ensures
        match js_of(*v) {
            Js::Str(s) => r matches Some(t) && t@ == s,
            _ => r is None,
        },
{
    v.as_str().map(|s| s.to_owned())
}

/// Relies on serde_json::Value::as_bool: the value of a JSON boolean,
/// `None` on every other value.
#[verifier::external_body]
pub(crate) fn as_bool(v: &serde_json::Value) -> (r: Option<bool>)
    ensures
        match js_of(*v) {
            Js::Bool(b) => r == Some(b),
            _ => r is None,
        },
{
    v.as_bool()
}

/// Relies on serde_json::Value::as_array and Vec::len: the length of a
/// JSON array, `None` on every other value.
#[verifier::external_body]
pub(crate) fn arr_len(v: &serde_json::Value) -> (r: Option<usize>)
    ensures
        match js_of(*v) {
            Js::Arr(a) => (r matches Some(n) && n == a.len()),
            _ => r is None,
        },
{
    v.as_array().map(|a| a.len())
}

/// Relies on serde_json::Value::get with a usize index (and
/// Value::clone): the element of a JSON array at a position, `None`
/// past the end or on every other value.
#[verifier::external_body]
pub(crate) fn arr_get(v: &serde_json::Value, i: usize) -> (r: Option<serde_json::Value>)
    ensures
        match js_of(*v) {
            Js::Arr(a) => {
                &&& r is Some <==> (i as int) < a.len()
                &&& (r matches Some(w) ==> js_of(w) == a[i as int])
            },
            _ => r is None,
        },
{
    v.get(i).cloned()
}

} // verus!
