//! What this library relies on from serde_json.
use vstd::prelude::*;

verus! {

/// Any JSON value; opaque to the proofs, carried through as it is.
#[verifier::external_type_specification]
#[verifier::external_body]
pub struct ExValue(serde_json::Value);

/// A JSON object.
#[verifier::external_type_specification]
#[verifier::external_body]
#[verifier::reject_recursive_types(K)]
#[verifier::reject_recursive_types(V)]
pub struct ExJsonMap<K, V>(serde_json::Map<K, V>);

/// The error of a failed encoding.
#[verifier::external_type_specification]
#[verifier::external_body]
pub struct ExJsonError(serde_json::Error);

/// The keys of a JSON object.
pub uninterp spec fn json_keys(m: serde_json::Map<String, serde_json::Value>) -> Set<Seq<char>>;

/// Relies on serde_json::Map::new: a new object has no key.
pub assume_specification[ serde_json::Map::<String, serde_json::Value>::new ]() -> (r:
    serde_json::Map<String, serde_json::Value>)
    ensures
        json_keys(r) == Set::<Seq<char>>::empty(),
;

/// Relies on serde_json::Map::insert: the key is present afterwards, the
/// other keys stay, and the old value comes back when the key was there.
pub assume_specification[ serde_json::Map::<String, serde_json::Value>::insert ](
    m: &mut serde_json::Map<String, serde_json::Value>,
    k: String,
    v: serde_json::Value,
) -> (r: Option<serde_json::Value>)
    ensures
        json_keys(*final(m)) == json_keys(*old(m)).insert(k@),
        r is Some <==> json_keys(*old(m)).contains(k@),
;

/// Relies on serde_json::Value::String, the JSON string of a text.
#[verifier::external_body]
pub(crate) fn string_value(s: String) -> (r: serde_json::Value) {
    serde_json::Value::String(s)
}

/// Relies on serde_json::Value::Object, the JSON value of an object.
#[verifier::external_body]
pub(crate) fn object_value(m: serde_json::Map<String, serde_json::Value>) -> (r: serde_json::Value) {
    serde_json::Value::Object(m)
}

/// Relies on serde_json::to_string, the JSON text of a value. On a `Value`
/// it cannot fail: it writes into a `Vec`, object keys are strings, and a
/// non-finite number is written as `null`. Every value is written with at
/// least one character.
#[verifier::external_body]
pub(crate) fn encode_value(v: &serde_json::Value) -> (r: Result<String, serde_json::Error>)
    ensures
        r is Ok,
        r is Ok ==> r->Ok_0@.len() > 0,
{
    serde_json::to_string(v)
}

/// Relies on the `Display` of serde_json::Error, the message of an error.
#[verifier::external_body]
pub(crate) fn error_message(e: &serde_json::Error) -> (r: String) {
    e.to_string()
}

} // verus!
