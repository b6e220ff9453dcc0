use page_summary::json::JsonValue;
use page_summary::provider::generate_endpoint;
use page_summary::provider::generation_request_body;
use page_summary::provider::models_endpoint;
use page_summary::summary::SummaryError;
use page_summary::summary::extract_summary;
use page_summary::summary::prepare_generation;

fn text(s: &str) -> JsonValue {
    JsonValue::Str(s.to_string())
}

fn obj(fields: Vec<(&str, JsonValue)>) -> JsonValue {
    JsonValue::Object(fields.into_iter().map(|(k, v)| (k.to_string(), v)).collect())
}

fn success_response(answer: &str) -> JsonValue {
    obj(vec![(
        "candidates",
        JsonValue::Array(vec![obj(vec![(
            "content",
            obj(vec![("parts", JsonValue::Array(vec![obj(vec![("text", text(answer))])]))]),
        )])]),
    )])
}

#[test]
fn success_returns_candidate_text_verbatim() {
    let response = success_response("  The summary.\n");
    let out = extract_summary(200, &response, "{}").unwrap();
    assert_eq!(out, "  The summary.\n");
}

#[test]
fn provider_error_carries_status_and_message() {
    let response = obj(vec![("error", obj(vec![("message", text("rate limited"))]))]);
    let err = extract_summary(429, &response, "{}").unwrap_err();
    let line = err.message();
    assert!(line.contains("429"));
    assert!(line.contains("rate limited"));
    assert_eq!(line, "Gemini API error 429: rate limited");
}

#[test]
fn provider_error_without_payload_gets_generic_message() {
    let err = extract_summary(500, &JsonValue::Null, "oops").unwrap_err();
    assert_eq!(err.message(), "Gemini API error 500: Unknown Gemini API error");
}

#[test]
fn missing_candidate_text_is_shape_error() {
    let response = obj(vec![("candidates", JsonValue::Array(vec![]))]);
    let raw = "{\"candidates\":[]}";
    let err = extract_summary(200, &response, raw).unwrap_err();
    match err {
        SummaryError::ResponseShape(body) => assert_eq!(body, raw),
        _ => panic!("expected a response-shape failure"),
    }
    let response2 = obj(vec![("candidates", JsonValue::Array(vec![]))]);
    let err2 = extract_summary(200, &response2, raw).unwrap_err();
    assert_eq!(err2.message(), format!("Unexpected Gemini response: {}", raw));
}

#[test]
fn status_boundaries() {
    assert!(extract_summary(200, &success_response("ok"), "").is_ok());
    assert!(extract_summary(299, &success_response("ok"), "").is_ok());
    assert!(extract_summary(199, &success_response("ok"), "").is_err());
    assert!(extract_summary(300, &success_response("ok"), "").is_err());
}

#[test]
fn endpoints_are_keyed() {
    assert_eq!(
        models_endpoint("KEY"),
        "https://generativelanguage.googleapis.com/v1beta/models?key=KEY"
    );
    assert_eq!(
        generate_endpoint("models/gemini-pro", "KEY"),
        "https://generativelanguage.googleapis.com/v1beta/models/gemini-pro:generateContent?key=KEY"
    );
}

#[test]
fn request_body_frames_prompt() {
    assert_eq!(
        generation_request_body("Say hi"),
        "{\"contents\":[{\"parts\":[{\"text\":\"Say hi\"}]}]}"
    );
}

#[test]
fn request_body_escapes_prompt() {
    assert_eq!(
        generation_request_body("a\"b\\c\nd"),
        "{\"contents\":[{\"parts\":[{\"text\":\"a\\\"b\\\\c\\nd\"}]}]}"
    );
    assert_eq!(
        generation_request_body("\u{1}"),
        "{\"contents\":[{\"parts\":[{\"text\":\"\\u0001\"}]}]}"
    );
}

#[test]
fn preparation_runs_whole_pipeline() {
    let (endpoint, body) = prepare_generation(
        "<p>Hello <b>world</b></p>",
        "Summarize: {content}",
        "models/gemini-pro",
        "KEY",
    );
    assert_eq!(
        endpoint,
        "https://generativelanguage.googleapis.com/v1beta/models/gemini-pro:generateContent?key=KEY"
    );
    assert_eq!(body, "{\"contents\":[{\"parts\":[{\"text\":\"Summarize: Hello world\"}]}]}");
}

#[test]
fn fetch_and_transport_messages_pass_through() {
    assert_eq!(
        SummaryError::Fetch("connection refused".to_string()).message(),
        "connection refused"
    );
    assert_eq!(SummaryError::Transport("timed out".to_string()).message(), "timed out");
}
