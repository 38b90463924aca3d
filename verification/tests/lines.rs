use fash::error::EditError;
use fash::lines::{
    add_line, insert_line, join, listing, number_lines, replace_in_text, replace_lines,
    split_lines,
};

fn abc() -> Vec<String> {
    vec!["a".to_string(), "b".to_string(), "c".to_string()]
}

fn strings(lines: &[&str]) -> Vec<String> {
    lines.iter().map(|l| l.to_string()).collect()
}

#[test]
fn splits_at_line_feeds() {
    assert_eq!(split_lines("a\nb\nc"), abc());
    assert_eq!(split_lines("a\nb\nc\n"), abc());
    assert_eq!(split_lines("a\r\nb\r\nc"), abc());
    assert_eq!(split_lines(""), Vec::<String>::new());
    assert_eq!(split_lines("\n"), strings(&[""]));
    assert_eq!(split_lines("a\n\nb"), strings(&["a", "", "b"]));
    assert_eq!(split_lines("a\r"), strings(&["a\r"]));
    assert_eq!(split_lines("a\rb\n"), strings(&["a\rb"]));
    assert_eq!(split_lines("\r\n"), strings(&[""]));
}

#[test]
fn splits_as_the_standard_library_does() {
    for text in ["", "a", "a\n", "\n\n", "a\r\n\r\nb\r", "x\ny\r\r\n", "\r", "\n\r"] {
        let expected: Vec<String> = text.lines().map(|l| l.to_string()).collect();
        assert_eq!(split_lines(text), expected);
    }
}

#[test]
fn joins_with_line_feeds() {
    assert_eq!(join(&abc()), "a\nb\nc");
    assert_eq!(join(&strings(&["a"])), "a");
    assert_eq!(join(&Vec::new()), "");
    assert_eq!(join(&strings(&["", ""])), "\n");
}

#[test]
fn inserts_at_the_beginning() {
    assert_eq!(insert_line(abc(), 0, "X"), Ok(strings(&["X", "a", "b", "c"])));
}

#[test]
fn inserts_at_the_end() {
    assert_eq!(insert_line(abc(), 3, "X"), Ok(strings(&["a", "b", "c", "X"])));
}

#[test]
fn inserts_in_the_middle() {
    assert_eq!(insert_line(abc(), 1, "X"), Ok(strings(&["a", "X", "b", "c"])));
}

#[test]
fn refuses_to_insert_past_the_end() {
    assert_eq!(insert_line(abc(), 4, "X"), Err(EditError::StartPastEnd));
    assert_eq!(insert_line(Vec::new(), 1, "X"), Err(EditError::StartPastEnd));
}

#[test]
fn replaces_the_first_line() {
    assert_eq!(replace_lines(abc(), 1, 2, "X"), Ok(strings(&["X", "c"])));
}

#[test]
fn start_zero_and_start_one_both_mean_the_beginning() {
    assert_eq!(replace_lines(abc(), 0, 1, "X"), Ok(strings(&["X", "b", "c"])));
    assert_eq!(replace_lines(abc(), 1, 1, "X"), Ok(strings(&["X", "b", "c"])));
    assert_eq!(replace_lines(abc(), 0, 0, "X"), Ok(strings(&["X", "a", "b", "c"])));
    assert_eq!(replace_lines(abc(), 1, 0, "X"), Ok(strings(&["X", "a", "b", "c"])));
}

#[test]
fn replaces_a_range() {
    assert_eq!(replace_lines(abc(), 2, 3, "X"), Ok(strings(&["a", "X"])));
    assert_eq!(replace_lines(abc(), 1, 3, "X"), Ok(strings(&["X"])));
    assert_eq!(replace_lines(abc(), 4, 3, "X"), Ok(strings(&["a", "b", "c", "X"])));
}

#[test]
fn refuses_a_range_outside_the_lines() {
    assert_eq!(replace_lines(abc(), 1, 4, "X"), Err(EditError::RangeOutOfBounds));
    assert_eq!(replace_lines(abc(), 3, 1, "X"), Err(EditError::RangeOutOfBounds));
    assert_eq!(replace_lines(abc(), 5, 3, "X"), Err(EditError::RangeOutOfBounds));
    assert_eq!(replace_lines(Vec::new(), 0, 1, "X"), Err(EditError::RangeOutOfBounds));
}

#[test]
fn numbers_lines_from_one() {
    assert_eq!(number_lines(&abc()), strings(&["1: a", "2: b", "3: c"]));
    assert_eq!(listing("a\nb\nc\n"), "1: a\n2: b\n3: c");
    assert_eq!(listing(""), "");
}

#[test]
fn numbers_more_than_nine_lines() {
    let text = "x\n".repeat(12);
    let lines = listing(&text);
    assert!(lines.ends_with("9: x\n10: x\n11: x\n12: x"));
}

#[test]
fn adds_a_line_to_a_text() {
    assert_eq!(add_line(Some("a\nb\nc"), 0, "X"), Ok("X\na\nb\nc".to_string()));
    assert_eq!(add_line(Some("a\nb\nc\n"), 3, "X"), Ok("a\nb\nc\nX".to_string()));
    assert_eq!(add_line(Some("a\nb\nc"), 4, "X"), Err(EditError::StartPastEnd));
}

#[test]
fn adds_a_line_to_a_missing_file() {
    assert_eq!(add_line(None, 0, "X"), Ok("X".to_string()));
    assert_eq!(add_line(None, 1, "X"), Err(EditError::StartPastEnd));
    assert_eq!(add_line(Some(""), 0, "X"), Ok("X".to_string()));
}

#[test]
fn replaces_lines_in_a_text() {
    assert_eq!(replace_in_text("a\nb\nc", 1, 2, "X"), Ok("X\nc".to_string()));
    assert_eq!(replace_in_text("a\nb\nc", 1, 1, "X"), Ok("X\nb\nc".to_string()));
    assert_eq!(replace_in_text("a\nb\nc", 0, 9, "X"), Err(EditError::RangeOutOfBounds));
}
