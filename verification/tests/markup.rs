use fash::error::ProtocolError;
use fash::parser::{parse_markup, FileRead, FileWriteAdd, FileWriteReplace, Parser};
use fash::task_part::TaskPart;

#[test]
fn reads_the_tags_of_a_response() {
    let text = "<message>Hello!</message><file-write-add><path>hello.txt</path><content>Hello!</content></file-write-add><file-read><path>hello.txt</path></file-read>";
    assert_eq!(
        parse_markup(text),
        Ok(vec![
            TaskPart::Message { text: "Hello!".to_string() },
            TaskPart::FileWriteAdd {
                path: "hello.txt".to_string(),
                content: "Hello!".to_string(),
                start: 0
            },
            TaskPart::FileRead { path: "hello.txt".to_string() },
        ])
    );
}

#[test]
fn reads_all_seven_tags() {
    let text = "
        <reason>why</reason>
        <run>ls -l</run>
        <message>hi</message>
        <file-read> <path>a.txt</path> </file-read>
        <file-write-add><path>a.txt</path><start>3</start><content>x</content></file-write-add>
        <file-write-replace><path>a.txt</path><start>1</start><end>2</end><content>y</content></file-write-replace>
        <end>done</end>
    ";
    assert_eq!(
        parse_markup(text),
        Ok(vec![
            TaskPart::Reason { text: "why".to_string() },
            TaskPart::Run { command: "ls -l".to_string() },
            TaskPart::Message { text: "hi".to_string() },
            TaskPart::FileRead { path: "a.txt".to_string() },
            TaskPart::FileWriteAdd { path: "a.txt".to_string(), content: "x".to_string(), start: 3 },
            TaskPart::FileWriteReplace {
                path: "a.txt".to_string(),
                content: "y".to_string(),
                start: 1,
                end: 2
            },
            TaskPart::End { reason: "done".to_string() },
        ])
    );
}

#[test]
fn nothing_but_white_space_holds_no_directive() {
    assert_eq!(parse_markup(""), Ok(vec![]));
    assert_eq!(parse_markup(" \n\t "), Ok(vec![]));
}

#[test]
fn content_is_kept_as_it_stands() {
    assert_eq!(
        parse_markup("<message> a <b> c\n</message>"),
        Ok(vec![TaskPart::Message { text: " a <b> c\n".to_string() }])
    );
}

#[test]
fn an_unterminated_tag_fails() {
    assert_eq!(parse_markup("<message>hello"), Err(ProtocolError::UnterminatedTag));
    assert_eq!(parse_markup("<message"), Err(ProtocolError::UnterminatedTag));
    assert_eq!(
        parse_markup("<run>ls</run><message>hello</run>"),
        Err(ProtocolError::UnterminatedTag)
    );
    assert_eq!(
        parse_markup("<file-read><path>a.txt</file-read>"),
        Err(ProtocolError::UnterminatedTag)
    );
}

#[test]
fn a_long_unterminated_text_is_refused_and_not_read_forever() {
    let mut text = String::from("<message>");
    for _ in 0..20000 {
        text.push_str("<run>x");
    }
    assert_eq!(parse_markup(&text), Err(ProtocolError::UnterminatedTag));
}

#[test]
fn an_unknown_tag_fails() {
    assert_eq!(parse_markup("<dance>x</dance>"), Err(ProtocolError::UnknownTag));
    assert_eq!(parse_markup("<run>ls</run><l-run>ls</l-run>"), Err(ProtocolError::UnknownTag));
    assert_eq!(
        parse_markup("<file-read><start>1</start></file-read>"),
        Err(ProtocolError::UnknownTag)
    );
    assert_eq!(
        parse_markup("<file-write-add><end>1</end></file-write-add>"),
        Err(ProtocolError::UnknownTag)
    );
}

#[test]
fn text_between_tags_fails() {
    assert_eq!(parse_markup("hello <run>ls</run>"), Err(ProtocolError::UnexpectedText));
    assert_eq!(parse_markup("<run>ls</run> and <run>ls</run>"), Err(ProtocolError::UnexpectedText));
    assert_eq!(
        parse_markup("<file-read>a.txt</file-read>"),
        Err(ProtocolError::UnexpectedText)
    );
}

#[test]
fn a_number_that_is_none_fails() {
    let with_start = |start: &str| {
        format!("<file-write-add><path>p</path><start>{}</start></file-write-add>", start)
    };
    assert_eq!(parse_markup(&with_start("three")), Err(ProtocolError::BadNumber));
    assert_eq!(parse_markup(&with_start("")), Err(ProtocolError::BadNumber));
    assert_eq!(parse_markup(&with_start(" 3")), Err(ProtocolError::BadNumber));
    assert_eq!(parse_markup(&with_start("-3")), Err(ProtocolError::BadNumber));
    assert_eq!(parse_markup(&with_start("+")), Err(ProtocolError::BadNumber));
    assert_eq!(parse_markup(&with_start("4294967296")), Err(ProtocolError::BadNumber));
    assert_eq!(
        parse_markup(&with_start("4294967295")),
        Ok(vec![TaskPart::FileWriteAdd {
            path: "p".to_string(),
            content: String::new(),
            start: 4294967295
        }])
    );
    assert_eq!(
        parse_markup(&with_start("+007")),
        Ok(vec![TaskPart::FileWriteAdd { path: "p".to_string(), content: String::new(), start: 7 }])
    );
}

#[test]
fn a_later_inner_tag_replaces_an_earlier_one() {
    assert_eq!(
        parse_markup("<file-read><path>a</path><path>b</path></file-read>"),
        Ok(vec![TaskPart::FileRead { path: "b".to_string() }])
    );
}

#[test]
fn a_fence_changes_nothing_in_markup() {
    let inner = "<message>hi</message><end>r</end>";
    let plain = parse_markup(inner);
    assert_eq!(
        plain,
        Ok(vec![
            TaskPart::Message { text: "hi".to_string() },
            TaskPart::End { reason: "r".to_string() }
        ])
    );
    assert_eq!(parse_markup(&format!("```json{}```", inner)), plain);
    assert_eq!(parse_markup(&format!("```{}```", inner)), plain);
}

#[test]
fn a_parser_reads_from_the_beginning() {
    let mut parser = Parser::new("<run>ls</run>");
    assert_eq!(parser.parse(), Ok(vec![TaskPart::Run { command: "ls".to_string() }]));
    assert_eq!(parser.parse(), Ok(vec![]));
}

#[test]
fn a_parser_does_not_strip_fences() {
    let mut parser = Parser::new("```<run>ls</run>```");
    assert_eq!(parser.parse(), Err(ProtocolError::UnexpectedText));
}

#[test]
fn the_fields_of_file_tags_make_directives() {
    assert_eq!(
        (FileRead { path: "p".to_string() }).into_part(),
        TaskPart::FileRead { path: "p".to_string() }
    );
    assert_eq!(
        (FileWriteAdd { path: "p".to_string(), content: "c".to_string(), start: 4 }).into_part(),
        TaskPart::FileWriteAdd { path: "p".to_string(), content: "c".to_string(), start: 4 }
    );
    assert_eq!(
        (FileWriteReplace { path: "p".to_string(), content: "c".to_string(), start: 4, end: 6 })
            .into_part(),
        TaskPart::FileWriteReplace {
            path: "p".to_string(),
            content: "c".to_string(),
            start: 4,
            end: 6
        }
    );
}
