//! Reading the upstream model's answer to a completion request.
//!
//! The answer is a JSON document. Parsing it and looking into it is left to
//! `serde_json`; what is looked for, and what each finding means, is decided
//! here.

use vstd::prelude::*;
use crate::error::MixError;
use crate::text::append_str;

verus! {

#[verifier::external_type_specification]
#[verifier::external_body]
pub struct ExJsonValue(serde_json::Value);

#[verifier::external_type_specification]
#[verifier::external_body]
pub struct ExJsonError(serde_json::Error);

/// A JSON document, as far as a lookup by key, a lookup by index and a
/// reading as text can tell one document from another.
pub enum JsonShape {
    Null,
    Bool,
    Number,
    Text(Seq<char>),
    Array(Seq<JsonShape>),
    Object(Map<Seq<char>, JsonShape>),
}

/// What a parsed document holds.
pub uninterp spec fn json_shape(value: serde_json::Value) -> JsonShape;

/// The message that a parsing error shows.
pub uninterp spec fn json_error_message(error: serde_json::Error) -> Seq<char>;

/// What `serde_json::from_str` makes of a text: the document that the text
/// denotes, or the message of the error if it denotes none.
pub uninterp spec fn parsed_json(text: Seq<char>) -> Result<JsonShape, Seq<char>>;

/// The member of an object under a key.
pub open spec fn member(shape: JsonShape, key: Seq<char>) -> Option<JsonShape> {
    match shape {
        JsonShape::Object(members) => if members.contains_key(key) {
            Some(members[key])
        } else {
            None
        },
        _ => None,
    }
}

/// The element of an array at an index.
pub open spec fn element(shape: JsonShape, index: int) -> Option<JsonShape> {
    match shape {
        JsonShape::Array(elements) => if 0 <= index < elements.len() {
            Some(elements[index])
        } else {
            None
        },
        _ => None,
    }
}

/// The text of a document that is a string.
pub open spec fn text_of(shape: JsonShape) -> Option<Seq<char>> {
    match shape {
        JsonShape::Text(text) => Some(text),
        _ => None,
    }
}

/// `serde_json::from_str`, at type `Value`: parses a text as a JSON
/// document. The result depends on the text alone: the document, or the
/// error that says where the text stops being one.
#[verifier::external_body]
fn parse_json(text: &str) -> (out: Result<serde_json::Value, serde_json::Error>)
    ensures
        match out {
            Ok(value) => parsed_json(text@) == Ok::<JsonShape, Seq<char>>(json_shape(value)),
            Err(error) => parsed_json(text@) == Err::<JsonShape, Seq<char>>(
                json_error_message(error),
            ),
        },
{
    serde_json::from_str::<serde_json::Value>(text)
}

/// `Value::get` with a string: the member under `key` if the document is an
/// object that has one, else nothing.
#[verifier::external_body]
fn json_member<'a>(value: &'a serde_json::Value, key: &str) -> (out: Option<&'a serde_json::Value>)
    ensures
        match out {
            Some(found) => member(json_shape(*value), key@) == Some(json_shape(*found)),
            None => member(json_shape(*value), key@) is None,
        },
{
    value.get(key)
}

/// `Value::get` with a number: the element at `index` if the document is an
/// array that is long enough, else nothing.
#[verifier::external_body]
fn json_element<'a>(value: &'a serde_json::Value, index: usize) -> (out: Option<
    &'a serde_json::Value,
>)
    ensures
        match out {
            Some(found) => element(json_shape(*value), index as int) == Some(json_shape(*found)),
            None => element(json_shape(*value), index as int) is None,
        },
{
    value.get(index)
}

/// `Value::as_str`: the text if the document is a string, else nothing.
#[verifier::external_body]
fn json_text<'a>(value: &'a serde_json::Value) -> (out: Option<&'a str>)
    ensures
        match out {
            Some(text) => text_of(json_shape(*value)) == Some(text@),
            None => text_of(json_shape(*value)) is None,
        },
{
    value.as_str()
}

/// The `Display` text of a `serde_json::Error`: the message that the error
/// shows.
#[verifier::external_body]
fn json_error_text(error: &serde_json::Error) -> (out: String)
    ensures
        out@ == json_error_message(*error),
{
    error.to_string()
}

/// The text that a completion carries: the string at
/// `choices[0].message.content`, if the document has one.
pub open spec fn completion_content(shape: JsonShape) -> Option<Seq<char>> {
    match member(shape, "choices"@) {
        Some(choices) => match element(choices, 0) {
            Some(first) => match member(first, "message"@) {
                Some(message) => match member(message, "content"@) {
                    Some(content) => text_of(content),
                    None => None,
                },
                None => None,
            },
            None => None,
        },
        None => None,
    }
}

/// Whether an HTTP status says that the request went well.
pub open spec fn is_success(status: u16) -> bool {
    200 <= status <= 299
}

/// The text that a parsed completion carries, or `MissingContent` if it
/// carries none.
pub fn completion_of(document: &serde_json::Value) -> (out: Result<String, MixError>)
    ensures
        match completion_content(json_shape(*document)) {
            Some(text) => out matches Ok(content) && content@ == text,
            None => out == Err::<String, MixError>(MixError::MissingContent),
        },
{
    let choices = match json_member(document, "choices") {
        Some(found) => found,
        None => {
            return Err(MixError::MissingContent);
        },
    };
    let first = match json_element(choices, 0) {
        Some(found) => found,
        None => {
            return Err(MixError::MissingContent);
        },
    };
    let message = match json_member(first, "message") {
        Some(found) => found,
        None => {
            return Err(MixError::MissingContent);
        },
    };
    let content = match json_member(message, "content") {
        Some(found) => found,
        None => {
            return Err(MixError::MissingContent);
        },
    };
    match json_text(content) {
        Some(text) => {
            let mut out = String::new();
            append_str(&mut out, text);
            Ok(out)
        },
        None => Err(MixError::MissingContent),
    }
}

/// What the model's answer to a completion request amounts to.
///
/// A status outside 200..=299 is a failure that carries the status and the
/// body. Otherwise the body must be a JSON document, and the document must
/// hold a string at `choices[0].message.content`: that string, as it is, is
/// the completion.
pub open spec fn reply_outcome(status: u16, body: Seq<char>) -> Result<Seq<char>, ReplyFailure> {
    if !is_success(status) {
        Err(ReplyFailure::Status(status, body))
    } else {
        match parsed_json(body) {
            Ok(shape) => match completion_content(shape) {
                Some(text) => Ok(text),
                None => Err(ReplyFailure::MissingContent),
            },
            Err(message) => Err(ReplyFailure::InvalidJson(message)),
        }
    }
}

/// The failures of reading an answer, as plain values.
pub enum ReplyFailure {
    Status(u16, Seq<char>),
    InvalidJson(Seq<char>),
    MissingContent,
}

/// Whether `error` is the given failure.
pub open spec fn is_failure(error: MixError, failure: ReplyFailure) -> bool {
    match failure {
        ReplyFailure::Status(status, text) => error matches MixError::Status { code, body }
            && code == status && body@ == text,
        ReplyFailure::InvalidJson(message) => error matches MixError::InvalidJson(cause)
            && cause@ == message,
        ReplyFailure::MissingContent => error == MixError::MissingContent,
    }
}

/// Reads the model's answer to a completion request. See `reply_outcome`.
pub fn interpret_reply(status: u16, body: &str) -> (out: Result<String, MixError>)
    ensures
        match reply_outcome(status, body@) {
            Ok(text) => out matches Ok(content) && content@ == text,
            Err(failure) => out matches Err(error) && is_failure(error, failure),
        },
{
    if status < 200 || status > 299 {
        let mut text = String::new();
        append_str(&mut text, body);
        return Err(MixError::Status { code: status, body: text });
    }
    match parse_json(body) {
        Ok(document) => completion_of(&document),
        Err(error) => Err(MixError::InvalidJson(json_error_text(&error))),
    }
}

} // verus!
