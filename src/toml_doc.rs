//! The TOML documents this library reads, reached through the `toml` crate.
//!
//! A parsed document is a `toml::Value`, opaque to the verifier. What the
//! library reads of it is named by the spec functions below, one for each
//! accessor of `toml::Value` that is called.
use vstd::prelude::*;
use vstd::string::StringSliceAdditionalSpecFns;

use crate::nesting::{nests_too_deep, too_deep};

verus! {

#[verifier::external_type_specification]
#[verifier::external_body]
pub struct ExTomlValue(toml::Value);

#[verifier::external_type_specification]
#[verifier::external_body]
pub struct ExTomlError(toml::de::Error);

/// Why a configuration text could not be read.
#[derive(Debug, Clone, Copy, PartialEq, Eq, Structural)]
pub enum ParseError {
    /// The text is not a TOML document.
    Syntax,
    /// The text is TOML, but a field is missing or of the wrong type.
    Shape,
    /// The text nests arrays or inline tables deeper than the parser is
    /// given (`nesting::MAX_DEPTH`).
    TooDeep,
}

/// The document that `toml::from_str` reads from a text, if the text is TOML.
pub uninterp spec fn parsed_toml(text: Seq<char>) -> Option<toml::Value>;

/// The value under a key of a table (`toml::Value::get`).
pub uninterp spec fn toml_get(v: toml::Value, key: Seq<char>) -> Option<toml::Value>;

/// The text of a string value (`toml::Value::as_str`).
pub uninterp spec fn toml_str(v: toml::Value) -> Option<Seq<char>>;

/// The elements of an array value (`toml::Value::as_array`).
pub uninterp spec fn toml_items(v: toml::Value) -> Option<Seq<toml::Value>>;

/// The keys of a table value, in the table's order (`toml::Value::as_table`).
pub uninterp spec fn toml_keys(v: toml::Value) -> Option<Seq<Seq<char>>>;

/// Relies on `toml::from_str`: reads a text as a TOML document, a result that
/// depends on the text alone. The parser calls itself once for each level of
/// nested arrays and inline tables, each part of a dotted key and each part of
/// a table header, with no limit of its own, so that depth is bounded here
/// (see `nesting`).
#[verifier::external_body]
pub(crate) fn parse_toml(text: &str) -> (r: Result<toml::Value, toml::de::Error>)
    requires
        !too_deep(text.spec_bytes()),
    ensures
        r is Ok <==> parsed_toml(text@) is Some,
        r is Ok ==> parsed_toml(text@) == Some(r->Ok_0),
{
    toml::from_str::<toml::Value>(text)
}

/// Relies on `toml::Value::get` with a string index: the value under `key`
/// when `v` is a table holding that key, else `None`.
#[verifier::external_body]
pub(crate) fn get_field(v: &toml::Value, key: &str) -> (r: Option<toml::Value>)
    ensures
        r == toml_get(*v, key@),
{
    v.get(key).cloned()
}

/// Relies on `toml::Value::as_str`: the text when `v` is a string, else `None`.
#[verifier::external_body]
pub(crate) fn get_str(v: &toml::Value) -> (r: Option<String>)
    ensures
        r is Some <==> toml_str(*v) is Some,
        r is Some ==> toml_str(*v) == Some(r->0@),
{
    v.as_str().map(|s| s.to_string())
}

/// Relies on `toml::Value::as_array`: the elements when `v` is an array, else
/// `None`.
#[verifier::external_body]
pub(crate) fn get_items(v: &toml::Value) -> (r: Option<Vec<toml::Value>>)
    ensures
        r is Some <==> toml_items(*v) is Some,
        r is Some ==> toml_items(*v) == Some(r->0@),
{
    v.as_array().cloned()
}

/// Relies on `toml::Value::as_table` and the table's `keys`: the keys when `v`
/// is a table, else `None`. A table is a map, so no key occurs twice.
#[verifier::external_body]
pub(crate) fn get_keys(v: &toml::Value) -> (r: Option<Vec<String>>)
    ensures
        r is Some <==> toml_keys(*v) is Some,
        r is Some ==> toml_keys(*v) == Some(r->0@.map_values(|k: String| k@)),
        r is Some ==> r->0@.map_values(|k: String| k@).no_duplicates(),
{
    v.as_table().map(|t| t.keys().cloned().collect())
}

/// Reads a text as a TOML document, unless it nests too deeply.
pub(crate) fn read_document(text: &str) -> (r: Result<toml::Value, ParseError>)
    ensures
        too_deep(text.spec_bytes()) ==> r == Err::<toml::Value, ParseError>(ParseError::TooDeep),
        !too_deep(text.spec_bytes()) ==> match parsed_toml(text@) {
            Some(doc) => r == Ok::<toml::Value, ParseError>(doc),
            None => r == Err::<toml::Value, ParseError>(ParseError::Syntax),
        },
{
    if nests_too_deep(text) {
        return Err(ParseError::TooDeep);
    }
    match parse_toml(text) {
        Ok(doc) => Ok(doc),
        Err(_) => Err(ParseError::Syntax),
    }
}

} // verus!
