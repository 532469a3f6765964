//! Trusted boundary to the YAML reader. The metadata block is handed to
//! `serde_yaml` as opaque structured text. Each call's result depends on its
//! arguments alone, so it is given a name; the verified schema logic in
//! `front` is specified exactly over those names.

use vstd::prelude::*;

verus! {

#[verifier::external_type_specification]
#[verifier::external_body]
pub struct ExYamlValue(serde_yaml::Value);

/// What serde_yaml::from_str reads a text as: a structured value, or nothing
/// on a syntax error.
pub uninterp spec fn yaml_of(s: Seq<char>) -> Option<serde_yaml::Value>;

/// What serde_yaml::Value::get finds under a key: the entry of a mapping
/// value, nothing for an absent key or a non-mapping value.
pub uninterp spec fn key_of(v: serde_yaml::Value, key: Seq<char>) -> Option<serde_yaml::Value>;

/// What serde_yaml::Value::as_str yields: the text of a string value,
/// nothing for every other variant.
pub uninterp spec fn text_of(v: serde_yaml::Value) -> Option<Seq<char>>;

/// What serde_yaml::Value::as_sequence yields: the elements of a sequence
/// value, nothing for every other variant.
pub uninterp spec fn items_of(v: serde_yaml::Value) -> Option<Seq<serde_yaml::Value>>;

/// Relies on serde_yaml::from_str: reads the metadata block into a structured
/// value, `None` on a syntax error; a function of the text alone.
#[verifier::external_body]
pub(crate) fn parse_metadata(s: &str) -> (r: Option<serde_yaml::Value>)
    ensures
        r == yaml_of(s@),
{
    match serde_yaml::from_str::<serde_yaml::Value>(s) {
        Ok(v) => Some(v),
        Err(_) => None,
    }
}

/// Relies on serde_yaml::Value::get: looks a key up in a mapping value,
/// `None` when the value is no mapping or the key is absent.
#[verifier::external_body]
pub(crate) fn get_key<'a>(v: &'a serde_yaml::Value, key: &str) -> (r: Option<
    &'a serde_yaml::Value,
>)
    ensures
        match r {
            Some(x) => key_of(*v, key@) == Some(*x),
            None => key_of(*v, key@) is None,
        },
{
    v.get(key)
}

/// Relies on serde_yaml::Value::as_str: the text of a string value, `None`
/// for every other variant; the text is copied out unchanged.
#[verifier::external_body]
pub(crate) fn as_text(v: &serde_yaml::Value) -> (r: Option<String>)
    ensures
        match r {
            Some(s) => text_of(*v) == Some(s@),
            None => text_of(*v) is None,
        },
{
    match v.as_str() {
        Some(s) => Some(s.to_owned()),
        None => None,
    }
}

/// Relies on serde_yaml::Value::as_sequence: the elements of a sequence
/// value, `None` for every other variant.
#[verifier::external_body]
pub(crate) fn as_items<'a>(v: &'a serde_yaml::Value) -> (r: Option<&'a Vec<serde_yaml::Value>>)
    ensures
        match r {
            Some(items) => items_of(*v) == Some(items@),
            None => items_of(*v) is None,
        },
{
    v.as_sequence()
}

} // verus!
