use fash::error::ProtocolError;
use fash::json::{read_json, JsonValue};
use fash::structured::{decode_directives, encode_directives, encode_part, parse_response};
use fash::task_part::TaskPart;

fn to_value(v: &JsonValue) -> serde_json::Value {
    match v {
        JsonValue::Null => serde_json::Value::Null,
        JsonValue::Bool(b) => serde_json::Value::Bool(*b),
        JsonValue::Number(Some(n)) => serde_json::Value::Number(serde_json::Number::from(*n)),
        JsonValue::Number(None) => serde_json::Value::Null,
        JsonValue::Text(s) => serde_json::Value::String(s.clone()),
        JsonValue::Array(items) => serde_json::Value::Array(items.iter().map(to_value).collect()),
        JsonValue::Object(fields) => serde_json::Value::Object(
            fields.iter().map(|(k, v)| (k.clone(), to_value(v))).collect(),
        ),
    }
}

fn seven() -> Vec<TaskPart> {
    vec![
        TaskPart::Run { command: "ls -l | head -n 10 > hello.txt".to_string() },
        TaskPart::Message { text: "Hello, \"you\"!\nSecond line".to_string() },
        TaskPart::Reason { text: "because".to_string() },
        TaskPart::FileWriteAdd {
            path: "hello.txt".to_string(),
            content: "Hello!".to_string(),
            start: 0,
        },
        TaskPart::FileWriteReplace {
            path: "a/b.rs".to_string(),
            content: "fn main() {}".to_string(),
            start: 3,
            end: 4294967295,
        },
        TaskPart::FileRead { path: "hello.txt".to_string() },
        TaskPart::End { reason: "Task complete".to_string() },
    ]
}

#[test]
fn reads_a_run_directive() {
    let parts = parse_response("[{\"type\":\"run\",\"command\":\"ls\"}]").unwrap();
    assert_eq!(parts, vec![TaskPart::Run { command: "ls".to_string() }]);
}

#[test]
fn reads_each_of_the_seven_kinds() {
    let text = r#"[
        {"type": "run", "command": "ls"},
        {"type": "message", "text": "Hello!"},
        {"type": "reason", "text": "why"},
        {"type": "file-write-add", "path": "p", "start": 2, "content": "c"},
        {"type": "file-write-replace", "path": "p", "start": 1, "end": 3, "content": "c"},
        {"type": "file-read", "path": "p"},
        {"type": "end", "reason": "done"}
    ]"#;
    let parts = parse_response(text).unwrap();
    assert_eq!(
        parts,
        vec![
            TaskPart::Run { command: "ls".to_string() },
            TaskPart::Message { text: "Hello!".to_string() },
            TaskPart::Reason { text: "why".to_string() },
            TaskPart::FileWriteAdd { path: "p".to_string(), content: "c".to_string(), start: 2 },
            TaskPart::FileWriteReplace {
                path: "p".to_string(),
                content: "c".to_string(),
                start: 1,
                end: 3
            },
            TaskPart::FileRead { path: "p".to_string() },
            TaskPart::End { reason: "done".to_string() },
        ]
    );
}

#[test]
fn encoding_and_parsing_gives_every_kind_back() {
    for part in seven() {
        let text = serde_json::to_string(&to_value(&encode_part(&part))).unwrap();
        let wrapped = format!("[{}]", text);
        assert_eq!(parse_response(&wrapped), Ok(vec![part]));
    }
}

#[test]
fn encoding_and_parsing_gives_a_whole_list_back() {
    let parts = seven();
    let text = serde_json::to_string(&to_value(&encode_directives(&parts))).unwrap();
    assert_eq!(parse_response(&text), Ok(parts));
}

#[test]
fn decoding_the_encoding_gives_the_list_back() {
    let parts = seven();
    assert_eq!(decode_directives(&encode_directives(&parts)), Ok(parts));
}

#[test]
fn the_encoding_of_a_run_has_its_two_fields() {
    let tree = encode_part(&TaskPart::Run { command: "ls".to_string() });
    assert_eq!(
        tree,
        JsonValue::Object(vec![
            ("type".to_string(), JsonValue::Text("run".to_string())),
            ("command".to_string(), JsonValue::Text("ls".to_string())),
        ])
    );
}

#[test]
fn a_fence_changes_nothing() {
    let inner = "[{\"type\":\"message\",\"text\":\"hi\"},{\"type\":\"end\",\"reason\":\"r\"}]";
    let plain = parse_response(inner);
    assert_eq!(
        plain,
        Ok(vec![
            TaskPart::Message { text: "hi".to_string() },
            TaskPart::End { reason: "r".to_string() }
        ])
    );
    assert_eq!(parse_response(&format!("```json{}```", inner)), plain);
    assert_eq!(parse_response(&format!("```{}```", inner)), plain);
    assert_eq!(parse_response(&format!("```json\n{}\n```", inner)), plain);
}

#[test]
fn an_empty_array_holds_no_directive() {
    assert_eq!(parse_response("[]"), Ok(vec![]));
    assert_eq!(parse_response("  [ ]  "), Ok(vec![]));
}

#[test]
fn rejects_text_that_is_not_json() {
    assert_eq!(parse_response("not json"), Err(ProtocolError::MalformedJson));
    assert_eq!(parse_response(""), Err(ProtocolError::MalformedJson));
    assert_eq!(parse_response("[{\"type\":\"run\",\"command\":\"ls\"}"), Err(ProtocolError::MalformedJson));
    assert_eq!(parse_response("[] trailing"), Err(ProtocolError::MalformedJson));
}

#[test]
fn rejects_a_document_that_is_no_array() {
    assert_eq!(
        parse_response("{\"type\":\"run\",\"command\":\"ls\"}"),
        Err(ProtocolError::NotAnArray)
    );
    assert_eq!(parse_response("3"), Err(ProtocolError::NotAnArray));
}

#[test]
fn rejects_an_element_that_is_no_object() {
    assert_eq!(parse_response("[1]"), Err(ProtocolError::NotAnObject));
    assert_eq!(parse_response("[[\"run\", \"ls\"]]"), Err(ProtocolError::NotAnObject));
}

#[test]
fn rejects_an_object_without_type() {
    assert_eq!(parse_response("[{\"command\":\"ls\"}]"), Err(ProtocolError::MissingType));
}

#[test]
fn rejects_a_type_that_is_no_text() {
    assert_eq!(parse_response("[{\"type\":1}]"), Err(ProtocolError::WrongShape));
}

#[test]
fn rejects_an_unknown_kind() {
    assert_eq!(parse_response("[{\"type\":\"dance\"}]"), Err(ProtocolError::UnknownKind));
    assert_eq!(parse_response("[{\"type\":\"Run\",\"command\":\"ls\"}]"), Err(ProtocolError::UnknownKind));
}

#[test]
fn rejects_a_missing_field() {
    assert_eq!(parse_response("[{\"type\":\"run\"}]"), Err(ProtocolError::MissingField));
    assert_eq!(
        parse_response("[{\"type\":\"file-write-add\",\"path\":\"p\",\"content\":\"c\"}]"),
        Err(ProtocolError::MissingField)
    );
}

#[test]
fn rejects_a_field_of_the_wrong_shape() {
    assert_eq!(
        parse_response("[{\"type\":\"run\",\"command\":5}]"),
        Err(ProtocolError::WrongShape)
    );
    assert_eq!(
        parse_response(
            "[{\"type\":\"file-write-add\",\"path\":\"p\",\"content\":\"c\",\"start\":\"3\"}]"
        ),
        Err(ProtocolError::WrongShape)
    );
}

#[test]
fn rejects_a_number_that_is_no_line_index() {
    let with_start = |start: &str| {
        format!(
            "[{{\"type\":\"file-write-add\",\"path\":\"p\",\"content\":\"c\",\"start\":{}}}]",
            start
        )
    };
    assert_eq!(parse_response(&with_start("-1")), Err(ProtocolError::BadNumber));
    assert_eq!(parse_response(&with_start("1.5")), Err(ProtocolError::BadNumber));
    assert_eq!(parse_response(&with_start("4294967296")), Err(ProtocolError::BadNumber));
    assert_eq!(
        parse_response(&with_start("4294967295")),
        Ok(vec![TaskPart::FileWriteAdd {
            path: "p".to_string(),
            content: "c".to_string(),
            start: 4294967295
        }])
    );
}

#[test]
fn passes_over_fields_it_does_not_know() {
    assert_eq!(
        parse_response("[{\"type\":\"run\",\"command\":\"ls\",\"output\":\"Hello!\"}]"),
        Ok(vec![TaskPart::Run { command: "ls".to_string() }])
    );
}

#[test]
fn one_bad_element_fails_the_whole_response() {
    assert_eq!(
        parse_response("[{\"type\":\"message\",\"text\":\"hi\"},{\"type\":\"run\"}]"),
        Err(ProtocolError::MissingField)
    );
    assert_eq!(
        parse_response("[{\"type\":\"dance\"},{\"type\":\"run\"}]"),
        Err(ProtocolError::UnknownKind)
    );
}

#[test]
fn reading_json_keeps_the_shape_of_the_document() {
    let tree = read_json("{\"b\": [1, -2, 2.5, null, true], \"a\": \"x\"}").unwrap();
    assert_eq!(
        tree,
        JsonValue::Object(vec![
            ("a".to_string(), JsonValue::Text("x".to_string())),
            (
                "b".to_string(),
                JsonValue::Array(vec![
                    JsonValue::Number(Some(1)),
                    JsonValue::Number(None),
                    JsonValue::Number(None),
                    JsonValue::Null,
                    JsonValue::Bool(true),
                ])
            ),
        ])
    );
    assert_eq!(read_json("{"), None);
}
