//! The summarization client's request building and response
//! interpretation.
//!
//! The client sends one HTTP POST to a fixed local generative-model
//! endpoint; the transport happens outside this crate. What is computed
//! here is the request body — the model identifier, a templated prompt and
//! a flag that switches streaming off — and the decision taken on the
//! response: extract the generated text, or fail with a message naming
//! the status or the missing field.

use vstd::prelude::*;
use vstd::string::StringExecFns;
use crate::jsonio::{
    encode_json_object3,
    json_object3,
    json_parse_err,
    json_parse_ok,
    json_response_field,
    parse_response_field,
};
use crate::text::{spec_decimal, u16_to_decimal};

verus! {

/// The fixed model identifier sent with every generation request.
pub open spec fn spec_model_id() -> Seq<char> {
    "qwen2.5-coder:7b"@
}

/// The fixed local endpoint the request is posted to.
pub open spec fn spec_generate_endpoint() -> Seq<char> {
    "http://localhost:11434/api/generate"@
}

/// The instruction put in front of the text to summarize.
pub open spec fn spec_prompt_prefix() -> Seq<char> {
    "Summarize the following text concisely:\n\n"@
}

/// The prompt sent for a given input text: the fixed instruction,
/// then the text.
pub open spec fn spec_prompt(text: Seq<char>) -> Seq<char> {
    spec_prompt_prefix() + text
}

/// The JSON body of the generation request for a given input text:
/// `{"model": <model id>, "prompt": <prompt>, "stream": false}`.
pub open spec fn spec_generate_body(text: Seq<char>) -> Seq<char> {
    json_object3("model"@, spec_model_id(), "prompt"@, spec_prompt(text), "stream"@, false)
}

/// The error reported for a response with a non-success HTTP status:
/// the status code in decimal behind a fixed prefix.
pub open spec fn spec_status_error(status: u16) -> Seq<char> {
    "Ollama API error: "@ + spec_decimal(status as nat)
}

/// The error reported when the response document carries no `"response"`
/// string field.
pub open spec fn spec_missing_field_error() -> Seq<char> {
    "Ollama response missing 'response' field"@
}

/// Whether an HTTP status code counts as success.
pub open spec fn spec_status_success(status: u16) -> bool {
    200 <= status < 300
}

/// The model identifier sent with every generation request.
pub fn model_id() -> (r: &'static str)
    ensures
        r@ == spec_model_id(),
{
    "qwen2.5-coder:7b"
}

/// The fixed local endpoint the generation request is posted to.
pub fn generate_endpoint() -> (r: &'static str)
    ensures
        r@ == spec_generate_endpoint(),
{
    "http://localhost:11434/api/generate"
}

/// Builds the prompt for a given input text.
pub fn summarize_prompt(text: &str) -> (r: String)
    ensures
        r@ == spec_prompt(text@),
{
    let mut s = "Summarize the following text concisely:\n\n".to_owned();
    s.append(text);
    s
}

/// Builds the JSON body of the generation request for a given input
/// text.
pub fn build_summarize_request(text: &str) -> (r: String)
    ensures
        r@ == spec_generate_body(text@),
{
    let prompt = summarize_prompt(text);
    encode_json_object3("model", model_id(), "prompt", prompt.as_str(), "stream", false)
}

/// Turns the outcome of extracting the response field into the
/// summarization result: an extracted text is returned as is, an absent
/// field becomes the fixed missing-field error, a parse error is handed
/// through.
pub fn summarize_outcome(field: Result<Option<String>, String>) -> (r: Result<String, String>)
    ensures
        field is Err ==> r is Err && r->Err_0 == field->Err_0,
        field is Ok && field->Ok_0 is Some ==> r is Ok && r->Ok_0 == field->Ok_0->0,
        field is Ok && field->Ok_0 is None ==> r is Err && r->Err_0@
            == spec_missing_field_error(),
{
    match field {
        Ok(Some(text)) => Ok(text),
        Ok(None) => Err("Ollama response missing 'response' field".to_owned()),
        Err(e) => Err(e),
    }
}

/// Decides the result of a summarization call from the response's HTTP
/// status and body: on a non-success status the error names the status
/// code and the body is not inspected; on success the body is parsed and
/// its `"response"` string field is returned, a missing field or a parse
/// failure turning into an error.
pub fn interpret_generate_response(status: u16, body: &str) -> (r: Result<String, String>)
    ensures
        !spec_status_success(status) ==> r is Err && r->Err_0@ == spec_status_error(status),
        spec_status_success(status) && !json_parse_ok(body@) ==> r is Err && r->Err_0@
            == json_parse_err(body@),
        spec_status_success(status) && json_parse_ok(body@) && json_response_field(body@) is Some
            ==> r is Ok && r->Ok_0@ == json_response_field(body@)->Some_0,
        spec_status_success(status) && json_parse_ok(body@) && json_response_field(body@) is None
            ==> r is Err && r->Err_0@ == spec_missing_field_error(),
{
    if 200 <= status && status < 300 {
        let field = parse_response_field(body);
        summarize_outcome(field)
    } else {
        let mut s = "Ollama API error: ".to_owned();
        let digits = u16_to_decimal(status);
        s.append(digits.as_str());
        Err(s)
    }
}

} // verus!
