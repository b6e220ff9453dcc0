use page_summary::json::JsonValue;
use page_summary::models::DirectoryError;
use page_summary::models::extract_model_names;

fn text(s: &str) -> JsonValue {
    JsonValue::Str(s.to_string())
}

fn model(name: &str, methods: &[&str]) -> JsonValue {
    let caps: Vec<JsonValue> = methods.iter().map(|m| text(m)).collect();
    JsonValue::Object(vec![
        ("name".to_string(), text(name)),
        ("supportedGenerationMethods".to_string(), JsonValue::Array(caps)),
    ])
}

fn listing(models: Vec<JsonValue>) -> JsonValue {
    JsonValue::Object(vec![("models".to_string(), JsonValue::Array(models))])
}

#[test]
fn only_generating_models_listed() {
    let response = listing(vec![
        model("models/alpha", &["generateContent", "countTokens"]),
        model("models/beta", &["embedContent"]),
    ]);
    let names = extract_model_names(&response).unwrap();
    assert_eq!(names, vec!["models/alpha".to_string()]);
}

#[test]
fn provider_order_preserved() {
    let response = listing(vec![
        model("models/one", &["generateContent"]),
        model("models/two", &["embedContent"]),
        model("models/three", &["generateContent"]),
    ]);
    let names = extract_model_names(&response).unwrap();
    assert_eq!(names, vec!["models/one".to_string(), "models/three".to_string()]);
}

#[test]
fn model_without_capability_list_unsupported() {
    let entry = JsonValue::Object(vec![("name".to_string(), text("models/bare"))]);
    let response = listing(vec![entry, model("models/ok", &["generateContent"])]);
    let names = extract_model_names(&response).unwrap();
    assert_eq!(names, vec!["models/ok".to_string()]);
}

#[test]
fn model_without_name_dropped() {
    let entry = JsonValue::Object(vec![(
        "supportedGenerationMethods".to_string(),
        JsonValue::Array(vec![text("generateContent")]),
    )]);
    let response = listing(vec![entry]);
    let names = extract_model_names(&response).unwrap();
    assert!(names.is_empty());
}

#[test]
fn missing_models_field_is_shape_error() {
    let response = JsonValue::Object(vec![("other".to_string(), JsonValue::Null)]);
    let err = extract_model_names(&response).unwrap_err();
    assert!(matches!(err, DirectoryError::ResponseShape));
    assert_eq!(err.message(), "Unexpected response from models endpoint");
}

#[test]
fn non_array_models_field_is_shape_error() {
    let response = JsonValue::Object(vec![("models".to_string(), text("nope"))]);
    assert!(extract_model_names(&response).is_err());
}

#[test]
fn transport_message_passes_through() {
    let err = DirectoryError::Transport("dns failure".to_string());
    assert_eq!(err.message(), "dns failure");
}
