use vstd::prelude::*;

verus! {

/// A JSON document, carried through the library without being inspected
/// except through the functions of this module.
#[verifier::external_type_specification]
#[verifier::external_body]
pub struct ExValue(serde_json::Value);

/// What `serde_json::Value::get` finds under `key` in `row`: the member of
/// that name when `row` is an object holding it, and nothing otherwise.
pub uninterp spec fn field_of(row: serde_json::Value, key: Seq<char>) -> Option<serde_json::Value>;

/// Relies on `serde_json::Value::get` with a string index, which looks the
/// key up among an object's members and gives `None` for any other value.
#[verifier::external_body]
pub(crate) fn value_field<'a>(row: &'a serde_json::Value, key: &str) -> (r: Option<&'a serde_json::Value>)
    ensures
        match r {
            Some(v) => field_of(*row, key@) == Some(*v),
            None => field_of(*row, key@) is None,
        },
{
    row.get(key)
}

/// An error of serde_json, carried through without being inspected.
#[verifier::external_type_specification]
#[verifier::external_body]
pub struct ExJsonError(serde_json::Error);

/// The JSON string literal that stands for `s`: `s` between double quotes,
/// with the characters that JSON requires escaped.
pub uninterp spec fn json_string_of(s: Seq<char>) -> Seq<char>;

/// The compact JSON text of `v`.
pub uninterp spec fn json_text_of(v: serde_json::Value) -> Seq<char>;

/// Relies on `serde_json::to_string` on a `str`: it writes the escaped string
/// literal into a `Vec<u8>`, a writer that never fails, so it always succeeds.
#[verifier::external_body]
pub(crate) fn quoted(s: &str) -> (r: Result<String, serde_json::Error>)
    ensures
        r is Ok,
        r->Ok_0@ == json_string_of(s@),
{
    serde_json::to_string(s)
}

/// Relies on the `Display` impl of `serde_json::Value`, which writes the value
/// as compact JSON text.
#[verifier::external_body]
pub(crate) fn value_text(v: &serde_json::Value) -> (r: String)
    ensures
        r@ == json_text_of(*v),
{
    v.to_string()
}

} // verus!
