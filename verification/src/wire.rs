//! The texts that the supervisor and the child exchange: one request on the
//! child's standard input, one result on its standard output, both in JSON.

use serde_json::Value;
use std::borrow::Cow;
use vstd::prelude::*;
use vstd::string::StringExecFns;

verus! {

/// `serde_json::Value`, a JSON value. It is carried, never looked into.
#[verifier::external_type_specification]
#[verifier::external_body]
pub struct ExValue(Value);

/// `serde_json::Error`, why a text was not read as JSON of the wanted shape.
#[verifier::external_type_specification]
#[verifier::external_body]
pub struct ExJsonError(serde_json::Error);

/// A request to evaluate a filter against a payload.
pub struct EvaluationRequest<'a> {
    pub filter: Cow<'a, str>,
    pub payload: Cow<'a, Value>,
}

/// The outcome of an evaluation: the verdict, or why the filter was refused.
pub type EvaluationResult = Result<bool, String>;

/// The JSON string literal that `serde_json::to_string` writes for `text`,
/// quotes and escapes included.
pub uninterp spec fn json_string_text(text: Seq<char>) -> Seq<char>;

/// The compact JSON text that `serde_json::to_string` writes for `value`.
pub uninterp spec fn json_value_text(value: Value) -> Seq<char>;

/// What `serde_json::from_slice` reads from `bytes` as an evaluation result;
/// `None` where it reports an error.
pub uninterp spec fn parsed_result(bytes: Seq<u8>) -> Option<Result<bool, Seq<char>>>;

/// Calls `serde_json::to_string` on a string slice.
///
/// Believed: the text depends on `text` alone. Writing a string into memory
/// does not fail.
#[verifier::external_body]
fn json_string(text: &str) -> (json: String)
    ensures
        json@ == json_string_text(text@),
{
    serde_json::to_string(text).unwrap_or_default()
}

/// Calls `serde_json::to_string` on a JSON value.
///
/// Believed: the text depends on `value` alone. Writing a value into memory
/// does not fail: the keys of its objects are strings.
#[verifier::external_body]
fn json_value(value: &Value) -> (json: String)
    ensures
        json@ == json_value_text(*value),
{
    serde_json::to_string(value).unwrap_or_default()
}

/// Calls `serde_json::from_slice` for a `Result<bool, String>`.
///
/// Believed: whether `bytes` are read, and as what, depends on `bytes` alone.
#[verifier::external_body]
fn parse_result(bytes: &[u8]) -> (parsed: Result<EvaluationResult, serde_json::Error>)
    ensures
        parsed_result(bytes@) == match parsed {
            Ok(Ok(verdict)) => Some(Ok::<bool, Seq<char>>(verdict)),
            Ok(Err(message)) => Some(Err::<bool, Seq<char>>(message@)),
            Err(_) => None::<Result<bool, Seq<char>>>,
        },
{
    serde_json::from_slice(bytes)
}

/// An evaluation result with its message as a sequence of characters.
pub open spec fn spec_result_view(result: EvaluationResult) -> Result<bool, Seq<char>> {
    match result {
        Ok(verdict) => Ok(verdict),
        Err(message) => Err(message@),
    }
}

/// The request as it goes to the child: one JSON object with the fields
/// `filter` and `payload`, in this order and without blanks. The arguments
/// are the two fields, already in JSON.
pub open spec fn spec_request_text(filter: Seq<char>, payload: Seq<char>) -> Seq<char> {
    "{\"filter\":"@ + filter + ",\"payload\":"@ + payload + "}"@
}

/// The result as it comes back from the child: `{"Ok":true}`, `{"Ok":false}`
/// or `{"Err":...}` with the message as a JSON string.
pub open spec fn spec_result_text(result: Result<bool, Seq<char>>) -> Seq<char> {
    match result {
        Ok(true) => "{\"Ok\":true}"@,
        Ok(false) => "{\"Ok\":false}"@,
        Err(message) => "{\"Err\":"@ + json_string_text(message) + "}"@,
    }
}

/// The payload of a request, borrowed or owned.
pub open spec fn spec_payload(payload: Cow<'_, Value>) -> Value {
    match payload {
        Cow::Borrowed(borrowed) => *borrowed,
        Cow::Owned(owned) => owned,
    }
}

/// Writes the request for the child.
pub fn encode_request(request: &EvaluationRequest<'_>) -> (text: String)
    ensures
        text@ == spec_request_text(
            json_string_text(request.filter@),
            json_value_text(spec_payload(request.payload)),
        ),
{
    let filter: &str = match &request.filter {
        Cow::Borrowed(borrowed) => borrowed,
        Cow::Owned(owned) => owned.as_str(),
    };
    let payload: &Value = match &request.payload {
        Cow::Borrowed(borrowed) => borrowed,
        Cow::Owned(owned) => owned,
    };
    let mut text = String::from_str("{\"filter\":");
    text.append(json_string(filter).as_str());
    text.append(",\"payload\":");
    text.append(json_value(payload).as_str());
    text.append("}");
    text
}

/// Writes the result for the supervisor.
pub fn encode_result(result: &EvaluationResult) -> (text: String)
    ensures
        text@ == spec_result_text(spec_result_view(*result)),
{
    match result {
        Ok(true) => String::from_str("{\"Ok\":true}"),
        Ok(false) => String::from_str("{\"Ok\":false}"),
        Err(message) => {
            let mut text = String::from_str("{\"Err\":");
            text.append(json_string(message.as_str()).as_str());
            text.append("}");
            text
        },
    }
}

/// Reads the result that the child wrote. Where the bytes are no result,
/// the error says in words what is wrong with them.
pub fn decode_result(bytes: &[u8]) -> (parsed: Result<EvaluationResult, String>)
    ensures
        parsed is Ok <==> parsed_result(bytes@) is Some,
        parsed matches Ok(result) ==> parsed_result(bytes@) == Some(spec_result_view(result)),
{
    match parse_result(bytes) {
        Ok(result) => Ok(result),
        Err(error) => Err(error.to_string()),
    }
}

} // verus!
