use recorder_core::summarize::{
    build_summarize_request, generate_endpoint, interpret_generate_response, model_id,
    summarize_prompt,
};

#[test]
fn ok_response_yields_the_field_text() {
    let r = interpret_generate_response(200, "{\"response\": \"hello\"}");
    assert_eq!(r, Ok(String::from("hello")));
}

#[test]
fn missing_field_fails_with_fixed_message() {
    let r = interpret_generate_response(200, "{\"other\": 1}");
    assert_eq!(
        r,
        Err(String::from("Ollama response missing 'response' field"))
    );
}

#[test]
fn non_string_field_counts_as_missing() {
    let r = interpret_generate_response(200, "{\"response\": 42}");
    assert_eq!(
        r,
        Err(String::from("Ollama response missing 'response' field"))
    );
}

#[test]
fn non_success_status_names_the_code() {
    let r = interpret_generate_response(500, "{\"response\": \"hello\"}");
    assert_eq!(r, Err(String::from("Ollama API error: 500")));
    let r = interpret_generate_response(404, "ignored body");
    assert_eq!(r, Err(String::from("Ollama API error: 404")));
}

#[test]
fn status_boundaries() {
    assert_eq!(
        interpret_generate_response(299, "{\"response\": \"x\"}"),
        Ok(String::from("x"))
    );
    assert_eq!(
        interpret_generate_response(300, "{}"),
        Err(String::from("Ollama API error: 300"))
    );
    assert_eq!(
        interpret_generate_response(199, "{}"),
        Err(String::from("Ollama API error: 199"))
    );
    assert_eq!(
        interpret_generate_response(0, "{}"),
        Err(String::from("Ollama API error: 0"))
    );
}

#[test]
fn malformed_body_on_success_status_fails() {
    let r = interpret_generate_response(200, "not json");
    let err = r.unwrap_err();
    assert!(!err.is_empty());
    assert_ne!(err, "Ollama response missing 'response' field");
}

#[test]
fn prompt_is_instruction_then_text() {
    let p = summarize_prompt("meeting notes");
    assert_eq!(p, "Summarize the following text concisely:\n\nmeeting notes");
}

#[test]
fn request_body_encodes_model_prompt_and_stream() {
    let body = build_summarize_request("meeting notes");
    let v: serde_json::Value = serde_json::from_str(&body).unwrap();
    assert_eq!(v["model"], serde_json::Value::String(String::from("qwen2.5-coder:7b")));
    assert_eq!(
        v["prompt"],
        serde_json::Value::String(String::from(
            "Summarize the following text concisely:\n\nmeeting notes"
        ))
    );
    assert_eq!(v["stream"], serde_json::Value::Bool(false));
    assert_eq!(v.as_object().unwrap().len(), 3);
}

#[test]
fn fixed_model_and_endpoint() {
    assert_eq!(model_id(), "qwen2.5-coder:7b");
    assert_eq!(generate_endpoint(), "http://localhost:11434/api/generate");
}

#[test]
fn summarization_interpretation_is_exact_per_response() {
    let one = interpret_generate_response(200, "{\"response\": \"same\"}");
    let two = interpret_generate_response(200, "{\"response\": \"same\"}");
    assert_eq!(one, two);
    assert_eq!(one, Ok(String::from("same")));
}
