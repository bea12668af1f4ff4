//! What the tracker reads of a JSON value. The value itself is opaque here:
//! nothing below is proved, each contract is taken from `serde_json`.

use vstd::prelude::*;

verus! {

/// `serde_json::Value`, carried through as it is.
#[verifier::external_type_specification]
#[verifier::external_body]
pub struct ExJsonValue(serde_json::Value);

/// The members of a JSON object, by key. A value that is no object has none.
pub uninterp spec fn json_members(value: serde_json::Value) -> Map<Seq<char>, serde_json::Value>;

/// The number that a JSON value holds, where the value is a number that was
/// read or made as a non-negative integer of at most 64 bits.
pub uninterp spec fn json_unsigned(value: serde_json::Value) -> Option<u64>;

/// The text that a JSON value holds, where the value is a string.
pub uninterp spec fn json_text(value: serde_json::Value) -> Option<Seq<char>>;

/// `serde_json::Value::get` with a string key: the member of that key where
/// the value is an object that has one, nothing otherwise.
#[verifier::external_body]
pub(crate) fn member<'a>(value: &'a serde_json::Value, key: &str) -> (found: Option<
    &'a serde_json::Value,
>)
    ensures
        found == (if json_members(*value).contains_key(key@) {
            Some(&json_members(*value)[key@])
        } else {
            None
        }),
{
    value.get(key)
}

/// `serde_json::Value::as_u64`: the number of a value that holds a
/// non-negative integer, nothing for any other value.
pub assume_specification[ serde_json::Value::as_u64 ](value: &serde_json::Value) -> (number:
    Option<u64>)
    ensures
        number == json_unsigned(*value),
;

/// `serde_json::Value::as_str`: the text of a value that is a string, nothing
/// for any other value.
pub assume_specification[ serde_json::Value::as_str ](value: &serde_json::Value) -> (text: Option<
    &str,
>)
    ensures
        match text {
            Some(t) => json_text(*value) == Some(t@),
            None => json_text(*value) is None,
        },
;

} // verus!
