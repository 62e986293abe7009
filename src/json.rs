//! Reading one unsigned integer field out of a JSON document.

use vstd::prelude::*;

verus! {

/// The unsigned integer that the JSON document `text` holds under `key` at its
/// top level, if `text` is a JSON object with such a field.
pub uninterp spec fn json_uint_field(text: Seq<u8>, key: Seq<char>) -> Option<u64>;

/// Relies on `serde_json::from_slice` into a `serde_json::Value`, then
/// `Value::get` and `Value::as_u64`: the field `key` of a top-level object, when
/// it is a non-negative integer that fits in a `u64`. Anything else gives `None`.
#[verifier::external_body]
pub(crate) fn json_uint_field_of(text: &[u8], key: &str) -> (r: Option<u64>)
    ensures
        r == json_uint_field(text@, key@),
{
    match serde_json::from_slice::<serde_json::Value>(text) {
        Ok(v) => v.get(key).and_then(serde_json::Value::as_u64),
        Err(_) => None,
    }
}

} // verus!
