//! Errors of `serde_json`, as the `serde` crate words them.
use crate::json::{Json, JsonTree};
use crate::members::texts;
use vstd::prelude::*;

verus! {

/// Declares `serde_json::Error`.
#[verifier::external_type_specification]
#[verifier::external_body]
pub struct ExError(serde_json::Error);

/// The text that an error shows.
pub uninterp spec fn error_text(error: serde_json::Error) -> Seq<char>;

/// The text of `serde::de::Error::invalid_type` on a value and what was expected.
pub uninterp spec fn wrong_type_text(found: JsonTree, expected: Seq<char>) -> Seq<char>;

/// The text of `serde::de::Error::invalid_value` on a value and what was expected.
pub uninterp spec fn wrong_value_text(found: JsonTree, expected: Seq<char>) -> Seq<char>;

/// Whether a text does not end in a digit. `serde_json` takes the end of a message that
/// ends in digits for a position in the input where it reads like one.
pub open spec fn ends_in_word(text: Seq<char>) -> bool {
    text.len() > 0 && !('0' <= text.last() <= '9')
}

/// The digits of a natural number, the most significant first.
pub open spec fn decimal_digits(number: nat) -> Seq<char>
    decreases number,
{
    let last = seq![('0' as u32 + number % 10) as char];
    if number < 10 {
        last
    } else {
        decimal_digits(number / 10) + last
    }
}

/// A name between back quotes.
pub open spec fn quoted(name: Seq<char>) -> Seq<char> {
    "`"@ + name + "`"@
}

/// Names between back quotes, with commas between them.
pub open spec fn quoted_list(names: Seq<Seq<char>>) -> Seq<char>
    decreases names.len(),
{
    if names.len() == 0 {
        seq![]
    } else if names.len() == 1 {
        quoted(names[0])
    } else {
        quoted_list(names.drop_last()) + ", "@ + quoted(names.last())
    }
}

/// A choice between names.
pub open spec fn choice(names: Seq<Seq<char>>) -> Seq<char> {
    if names.len() == 2 {
        quoted(names[0]) + " or "@ + quoted(names[1])
    } else if names.len() > 2 {
        "one of "@ + quoted_list(names)
    } else {
        quoted_list(names)
    }
}

/// What says that a field is missing.
pub open spec fn missing_field_text(name: Seq<char>) -> Seq<char> {
    "missing field "@ + quoted(name)
}

/// What says that a field stands twice.
pub open spec fn duplicate_field_text(name: Seq<char>) -> Seq<char> {
    "duplicate field "@ + quoted(name)
}

/// What says that a field is none of those that are known.
pub open spec fn unknown_field_text(name: Seq<char>, known: Seq<Seq<char>>) -> Seq<char> {
    "unknown field "@ + quoted(name) + if known.len() == 0 {
        ", there are no fields"@
    } else {
        ", expected "@ + choice(known)
    }
}

/// What says that a variant is none of those that are known.
pub open spec fn unknown_variant_text(name: Seq<char>, known: Seq<Seq<char>>) -> Seq<char> {
    "unknown variant "@ + quoted(name) + ", expected "@ + choice(known)
}

/// What says that an array has a wrong length.
pub open spec fn wrong_length_text(len: nat, expected: Seq<char>) -> Seq<char> {
    "invalid length "@ + decimal_digits(len) + ", expected "@ + expected
}

/// `serde::de::Error::custom`: an error that shows the given text.
#[verifier::external_body]
pub(crate) fn custom_error(message: &str) -> (error: serde_json::Error)
    requires
        ends_in_word(message@),
    ensures
        error_text(error) == message@,
{
    serde::de::Error::custom(message)
}

/// `serde::de::Error::missing_field`: an error that names the field.
#[verifier::external_body]
pub(crate) fn missing_field(name: &'static str) -> (error: serde_json::Error)
    ensures
        error_text(error) == missing_field_text(name@),
{
    serde::de::Error::missing_field(name)
}

/// `serde::de::Error::duplicate_field`: an error that names the field.
#[verifier::external_body]
pub(crate) fn duplicate_field(name: &'static str) -> (error: serde_json::Error)
    ensures
        error_text(error) == duplicate_field_text(name@),
{
    serde::de::Error::duplicate_field(name)
}

/// `serde::de::Error::unknown_field`: an error that names the field and lists those that
/// are known.
#[verifier::external_body]
pub(crate) fn unknown_field(name: &str, known: &'static [&'static str]) -> (error:
    serde_json::Error)
    ensures
        error_text(error) == unknown_field_text(name@, texts(known@)),
{
    serde::de::Error::unknown_field(name, known)
}

/// `serde::de::Error::unknown_variant`: an error that names the variant and lists those
/// that are known.
#[verifier::external_body]
pub(crate) fn unknown_variant(name: &str, known: &'static [&'static str]) -> (error:
    serde_json::Error)
    requires
        known@.len() > 0,
    ensures
        error_text(error) == unknown_variant_text(name@, texts(known@)),
{
    serde::de::Error::unknown_variant(name, known)
}

/// `serde::de::Error::invalid_length`: an error with the length and what was expected.
#[verifier::external_body]
pub(crate) fn wrong_length(len: usize, expected: &str) -> (error: serde_json::Error)
    requires
        ends_in_word(expected@),
    ensures
        error_text(error) == wrong_length_text(len as nat, expected@),
{
    serde::de::Error::invalid_length(len, &expected)
}

/// `serde::de::Error::invalid_type`: an error that depends on the value that was found
/// and on what was expected.
#[verifier::external_body]
pub(crate) fn wrong_type(found: &Json, expected: &str) -> (error: serde_json::Error)
    ensures
        error_text(error) == wrong_type_text(found@, expected@),
{
    let unexpected = match found {
        Json::Null => serde::de::Unexpected::Unit,
        Json::Bool(bit) => serde::de::Unexpected::Bool(*bit),
        Json::Number(number) => serde::de::Unexpected::Unsigned(*number),
        Json::Negative(number) => serde::de::Unexpected::Signed(*number),
        Json::Float(number) => serde::de::Unexpected::Float(number.as_f64().unwrap_or_default()),
        Json::Text(text) => serde::de::Unexpected::Str(text),
        Json::Array(_) => serde::de::Unexpected::Seq,
        Json::Object(_) => serde::de::Unexpected::Map,
    };
    serde::de::Error::invalid_type(unexpected, &expected)
}

/// `serde::de::Error::invalid_value`: an error that depends on the value that was found
/// and on what was expected.
#[verifier::external_body]
pub(crate) fn wrong_value(found: &Json, expected: &str) -> (error: serde_json::Error)
    ensures
        error_text(error) == wrong_value_text(found@, expected@),
{
    let unexpected = match found {
        Json::Null => serde::de::Unexpected::Unit,
        Json::Bool(bit) => serde::de::Unexpected::Bool(*bit),
        Json::Number(number) => serde::de::Unexpected::Unsigned(*number),
        Json::Negative(number) => serde::de::Unexpected::Signed(*number),
        Json::Float(number) => serde::de::Unexpected::Float(number.as_f64().unwrap_or_default()),
        Json::Text(text) => serde::de::Unexpected::Str(text),
        Json::Array(_) => serde::de::Unexpected::Seq,
        Json::Object(_) => serde::de::Unexpected::Map,
    };
    serde::de::Error::invalid_value(unexpected, &expected)
}

} // verus!
