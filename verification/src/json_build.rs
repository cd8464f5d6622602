use vstd::prelude::*;

verus! {

#[verifier::external_type_specification]
#[verifier::external_body]
#[verifier::reject_recursive_types(K)]
#[verifier::reject_recursive_types(V)]
pub struct ExJsonMap<K, V>(serde_json::Map<K, V>);

/// A field value this client ever places in an outbound request
/// object: a JSON string or a JSON number from a `u32`.
pub enum WireField {
    S(Seq<char>),
    U(u32),
}

/// The entries of a request object under construction.
pub uninterp spec fn obj_fields(m: serde_json::Map<String, serde_json::Value>) -> Map<
    Seq<char>,
    WireField,
>;

/// The serialized JSON text of an object with the given entries.
/// Serialization is a function of the entries alone: the map keeps its
/// keys sorted, so equal entry maps render to equal texts.
pub uninterp spec fn rendered(fields: Map<Seq<char>, WireField>) -> Seq<char>;

/// Relies on serde_json::Map::new: the new object has no entries.
#[verifier::external_body]
pub(crate) fn obj_new() -> (r: serde_json::Map<String, serde_json::Value>)
    ensures
        obj_fields(r) =~= Map::empty(),
{
    serde_json::Map::new()
}

/// Relies on serde_json::Map::insert and Value::String: afterwards the
/// object holds `v` as a JSON string under `k`; other entries are
/// unchanged.
#[verifier::external_body]
pub(crate) fn obj_insert_str(m: &mut serde_json::Map<String, serde_json::Value>, k: &str, v: &str)
    ensures
        obj_fields(*final(m)) == obj_fields(*old(m)).insert(k@, WireField::S(v@)),
{
    m.insert(k.to_owned(), serde_json::Value::String(v.to_owned()));
}

/// Relies on serde_json::Map::insert, Value::Number and
/// Number::from::<u32>: afterwards the object holds `v` as a JSON
/// number under `k`; other entries are unchanged.
#[verifier::external_body]
pub(crate) fn obj_insert_num(m: &mut serde_json::Map<String, serde_json::Value>, k: &str, v: u32)
    ensures
        obj_fields(*final(m)) == obj_fields(*old(m)).insert(k@, WireField::U(v)),
{
    m.insert(k.to_owned(), serde_json::Value::Number(serde_json::Number::from(v)));
}

/// Relies on serde_json's Display for Value (and Map::clone): the
/// canonical serialized text of the object, named by `rendered`.
#[verifier::external_body]
pub(crate) fn obj_render(m: &serde_json::Map<String, serde_json::Value>) -> (r: String)
    ensures
        r@ == rendered(obj_fields(*m)),
{
    serde_json::Value::Object(m.clone()).to_string()
}

} // verus!
