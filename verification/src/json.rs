//! Reading unsigned numbers out of JSON documents, at JSON Pointer paths.
//!
//! Parsing and pointer lookup are `serde_json`'s. What they return is not
//! proved here: each result has a name, and the functions of this module say
//! exactly what they make of it.

use crate::text::{digits_of, lemma_decimal_round_trip, parse_u64, parse_u64_spec};
use vstd::prelude::*;

verus! {

/// A parsed JSON document, or a value inside one.
#[verifier::external_type_specification]
#[verifier::external_body]
pub struct ExJsonValue(serde_json::Value);

/// Why a text is not a JSON document.
#[verifier::external_type_specification]
#[verifier::external_body]
pub struct ExJsonError(serde_json::Error);

/// What `serde_json::from_slice` makes of `bytes`.
pub uninterp spec fn json_document(bytes: Seq<u8>) -> Result<serde_json::Value, serde_json::Error>;

/// The message that `error` displays.
pub uninterp spec fn json_error_text(error: serde_json::Error) -> Seq<char>;

/// The value inside `value` that `pointer` addresses, if there is one.
pub uninterp spec fn json_target(value: serde_json::Value, pointer: Seq<char>) -> Option<
    serde_json::Value,
>;

/// The number that `value` is, if it is a number that fits an unsigned 64-bit
/// integer.
pub uninterp spec fn json_unsigned(value: serde_json::Value) -> Option<u64>;

/// The text that `value` is, if it is a string.
pub uninterp spec fn json_text(value: serde_json::Value) -> Option<Seq<char>>;

/// Parses `bytes` as a JSON document, by `serde_json::from_slice`. The result
/// is the one named `json_document(bytes)`.
#[verifier::external_body]
pub(crate) fn parse_document(bytes: &[u8]) -> (parsed: Result<
    serde_json::Value,
    serde_json::Error,
>)
    ensures
        parsed == json_document(bytes@),
{
    serde_json::from_slice(bytes)
}

/// The message of a parse error, by the `Display` of `serde_json::Error`. The
/// result is the text named `json_error_text(error)`.
#[verifier::external_body]
pub(crate) fn error_text(error: &serde_json::Error) -> (message: String)
    ensures
        message@ == json_error_text(*error),
{
    error.to_string()
}

/// Looks `pointer` up in `value`, by `serde_json::Value::pointer`. The result
/// is the value named `json_target(value, pointer)`, or `None` where that
/// names none.
#[verifier::external_body]
fn target<'a>(value: &'a serde_json::Value, pointer: &str) -> (node: Option<&'a serde_json::Value>)
    ensures
        match node {
            Some(found) => json_target(*value, pointer@) == Some(*found),
            None => json_target(*value, pointer@) is None,
        },
{
    value.pointer(pointer)
}

/// The unsigned integer that `value` holds, by `serde_json::Value::as_u64`.
/// The result is the number named `json_unsigned(value)`.
#[verifier::external_body]
fn unsigned(value: &serde_json::Value) -> (number: Option<u64>)
    ensures
        number == json_unsigned(*value),
{
    value.as_u64()
}

/// The string that `value` holds, by `serde_json::Value::as_str`. The result
/// is the text named `json_text(value)`.
#[verifier::external_body]
fn text<'a>(value: &'a serde_json::Value) -> (string: Option<&'a str>)
    ensures
        match string {
            Some(s) => json_text(*value) == Some(s@),
            None => json_text(*value) is None,
        },
{
    value.as_str()
}

/// What stands at the end of a pointer, as far as extraction cares.
#[derive(Debug)]
pub enum JsonLeaf {
    /// A number that fits an unsigned 64-bit integer.
    Unsigned(u64),
    /// A string.
    Text(String),
    /// Anything else: another number, a boolean, null, an array, an object.
    Other,
}

/// What a `JsonLeaf` holds, as plain values.
pub enum LeafSpec {
    Unsigned(u64),
    Text(Seq<char>),
    Other,
}

impl DeepView for JsonLeaf {
    type V = LeafSpec;

    open spec fn deep_view(&self) -> LeafSpec {
        match self {
            JsonLeaf::Unsigned(n) => LeafSpec::Unsigned(*n),
            JsonLeaf::Text(s) => LeafSpec::Text(s@),
            JsonLeaf::Other => LeafSpec::Other,
        }
    }
}

/// The leaf that a JSON value is.
pub open spec fn leaf_of(value: serde_json::Value) -> LeafSpec {
    match json_unsigned(value) {
        Some(n) => LeafSpec::Unsigned(n),
        None => match json_text(value) {
            Some(s) => LeafSpec::Text(s),
            None => LeafSpec::Other,
        },
    }
}

/// The leaf that `pointer` addresses in `value`, if it addresses anything.
pub open spec fn leaf_at(value: serde_json::Value, pointer: Seq<char>) -> Option<LeafSpec> {
    match json_target(value, pointer) {
        Some(node) => Some(leaf_of(node)),
        None => None,
    }
}

/// The unsigned integer read off a leaf: the number itself, or the number
/// that a string spells in decimal. A pointer that addresses nothing is
/// reported as missing; every other shape as not a number.
pub open spec fn leaf_value(leaf: Option<LeafSpec>, pointer: Seq<char>) -> Result<u64, Seq<char>> {
    match leaf {
        None => Err("missing "@ + pointer),
        Some(LeafSpec::Unsigned(n)) => Ok(n),
        Some(LeafSpec::Text(s)) => match parse_u64_spec(s) {
            Some(n) => Ok(n),
            None => Err("not u64"@),
        },
        Some(LeafSpec::Other) => Err("not u64"@),
    }
}

/// A number leaf gives its value, and so does the string that spells that
/// value in decimal; a leaf of any other shape, or none at all, gives an
/// error.
pub proof fn lemma_leaf_value_shapes(n: u64, pointer: Seq<char>)
    ensures
        leaf_value(Some(LeafSpec::Unsigned(n)), pointer) == Ok::<u64, Seq<char>>(n),
        leaf_value(Some(LeafSpec::Text(digits_of(n as nat))), pointer) == Ok::<u64, Seq<char>>(n),
        leaf_value(Some(LeafSpec::Other), pointer) is Err,
        leaf_value(None, pointer) is Err,
{
    lemma_decimal_round_trip(n as nat);
}

/// What an extraction result holds, with its message as plain text.
pub open spec fn outcome_view(outcome: Result<u64, String>) -> Result<u64, Seq<char>> {
    match outcome {
        Ok(n) => Ok(n),
        Err(message) => Err(message@),
    }
}

/// Reads an unsigned integer off the leaf that `pointer` led to. A number is
/// taken as it is, a string is read as a decimal number; `None`, for a
/// pointer that led nowhere, is an error that names the pointer, and any
/// other leaf is an error too.
pub fn read_leaf(leaf: Option<JsonLeaf>, pointer: &str) -> (outcome: Result<u64, String>)
    ensures
        outcome_view(outcome) == leaf_value(leaf.deep_view(), pointer@),
{
    match leaf {
        None => {
            let mut message = "missing ".to_owned();
            message.append(pointer);
            Err(message)
        },
        Some(JsonLeaf::Unsigned(n)) => Ok(n),
        Some(JsonLeaf::Text(s)) => match parse_u64(s.as_str()) {
            Some(n) => Ok(n),
            None => Err("not u64".to_owned()),
        },
        Some(JsonLeaf::Other) => Err("not u64".to_owned()),
    }
}

/// The leaf that `pointer` addresses in `value`.
pub fn find_leaf(value: &serde_json::Value, pointer: &str) -> (leaf: Option<JsonLeaf>)
    ensures
        leaf.deep_view() == leaf_at(*value, pointer@),
{
    match target(value, pointer) {
        None => None,
        Some(node) => match unsigned(node) {
            Some(n) => Some(JsonLeaf::Unsigned(n)),
            None => match text(node) {
                Some(s) => Some(JsonLeaf::Text(s.to_owned())),
                None => Some(JsonLeaf::Other),
            },
        },
    }
}

/// Extracts the unsigned integer that `pointer` addresses in `value`. The
/// leaf may be a JSON number or a string that spells a decimal number.
pub fn extract_u64(value: &serde_json::Value, pointer: &str) -> (outcome: Result<u64, String>)
    ensures
        outcome_view(outcome) == leaf_value(leaf_at(*value, pointer@), pointer@),
{
    read_leaf(find_leaf(value, pointer), pointer)
}

} // verus!
