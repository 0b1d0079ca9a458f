//! What the library reads of a JSON value: a member of an object, and the
//! text of a string. The values belong to `serde_json`.

use vstd::prelude::*;

verus! {

/// `serde_json::Value`: any JSON value. Verus sees nothing inside a value of
/// it.
#[verifier::external_type_specification]
#[verifier::external_body]
pub struct ExValue(serde_json::Value);

/// The member that a JSON value has under a key: it has one where it is an
/// object that holds the key.
pub uninterp spec fn json_member(value: serde_json::Value, key: Seq<char>) -> Option<
    serde_json::Value,
>;

/// The text of a JSON value: it has one where it is a string.
pub uninterp spec fn json_text(value: serde_json::Value) -> Option<Seq<char>>;

/// `Value::get` with a string as index: the member under `key` of a value
/// that is an object and holds that key, and nothing of any other value.
#[verifier::external_body]
pub(crate) fn member<'a>(value: &'a serde_json::Value, key: &str) -> (found: Option<
    &'a serde_json::Value,
>)
    ensures
        found is Some <==> json_member(*value, key@) is Some,
        found is Some ==> json_member(*value, key@) == Some(*found->0),
{
    value.get(key)
}

/// `Value::as_str`: the text of a value that is a string, and nothing of any
/// other value.
#[verifier::external_body]
pub(crate) fn text<'a>(value: &'a serde_json::Value) -> (found: Option<&'a str>)
    ensures
        found.deep_view() == json_text(*value),
{
    value.as_str()
}

} // verus!
