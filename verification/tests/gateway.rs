use fash::agent::Role;
use fash::gemini::{GatewayError, GeminiClient};
use fash::json::{read_json, JsonValue};

fn text(s: &str) -> JsonValue {
    JsonValue::Text(s.to_string())
}

fn object(fields: Vec<(&str, JsonValue)>) -> JsonValue {
    JsonValue::Object(fields.into_iter().map(|(k, v)| (k.to_string(), v)).collect())
}

#[test]
fn the_client_holds_its_key() {
    let client = GeminiClient::new("k-123".to_string());
    assert_eq!(client.api_key(), "k-123");
    assert_eq!(
        GeminiClient::endpoint(),
        "https://generativelanguage.googleapis.com/v1beta/models/gemini-2.0-flash:generateContent"
    );
}

#[test]
fn the_request_carries_instruction_and_transcript() {
    let messages =
        vec![(Role::User, "The task is: x".to_string()), (Role::Model, "[]".to_string())];
    let body = GeminiClient::request_body(&messages, "be kind");
    let part = |s: &str| JsonValue::Array(vec![object(vec![("text", text(s))])]);
    assert_eq!(
        body,
        object(vec![
            ("generationConfig", object(vec![("responseMimeType", text("application/json"))])),
            ("system_instruction", object(vec![("parts", part("be kind"))])),
            (
                "contents",
                JsonValue::Array(vec![
                    object(vec![("role", text("user")), ("parts", part("The task is: x"))]),
                    object(vec![("role", text("model")), ("parts", part("[]"))]),
                ])
            ),
        ])
    );
}

#[test]
fn the_completion_is_the_first_text_of_the_first_candidate() {
    let body = r#"{"candidates": [
        {"content": {"parts": [{"text": "first"}, {"text": "second"}], "role": "model"}},
        {"content": {"parts": [{"text": "other"}]}}
    ], "usage": 3}"#;
    assert_eq!(GeminiClient::read_completion(body), Ok("first".to_string()));
    let tree = read_json(body).unwrap();
    assert_eq!(GeminiClient::completion(&tree), Some("first".to_string()));
}

#[test]
fn a_response_of_another_shape_gives_no_completion() {
    for body in [
        "{}",
        "[]",
        "{\"candidates\": []}",
        "{\"candidates\": {}}",
        "{\"candidates\": [{}]}",
        "{\"candidates\": [{\"content\": {\"parts\": []}}]}",
        "{\"candidates\": [{\"content\": {\"parts\": [{}]}}]}",
        "{\"candidates\": [{\"content\": {\"parts\": [{\"text\": 5}]}}]}",
        "{\"error\": {\"message\": \"quota\"}}",
    ] {
        assert_eq!(GeminiClient::read_completion(body), Err(GatewayError::UnexpectedFormat));
    }
}

#[test]
fn a_response_that_is_not_json_gives_no_completion() {
    assert_eq!(GeminiClient::read_completion("<html>"), Err(GatewayError::NotJson));
}

#[test]
fn values_are_found_by_key_and_index() {
    let tree = read_json("{\"a\": [10, \"x\"], \"b\": null}").unwrap();
    assert_eq!(tree.get("a").and_then(|a| a.at(1)).and_then(|v| v.as_text()), Some("x"));
    assert_eq!(tree.get("a").and_then(|a| a.at(0)), Some(&JsonValue::Number(Some(10))));
    assert_eq!(tree.get("a").and_then(|a| a.at(2)), None);
    assert_eq!(tree.get("c"), None);
    assert_eq!(tree.at(0), None);
    assert_eq!(tree.get("b").and_then(|b| b.get("x")), None);
    assert_eq!(tree.get("b").and_then(|b| b.as_text()), None);
    assert_eq!(JsonValue::text("t"), JsonValue::Text("t".to_string()));
    assert_eq!(JsonValue::array_of(JsonValue::Null), JsonValue::Array(vec![JsonValue::Null]));
    assert_eq!(
        JsonValue::object_of("k", JsonValue::Null),
        JsonValue::Object(vec![("k".to_string(), JsonValue::Null)])
    );
}
