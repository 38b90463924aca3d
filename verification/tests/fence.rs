use fash::fence::strip_fences;

#[test]
fn takes_a_tagged_fence_away() {
    assert_eq!(strip_fences("```json[1]```"), "[1]");
    assert_eq!(strip_fences("```json\n[1]\n```"), "\n[1]\n");
}

#[test]
fn takes_a_bare_fence_away() {
    assert_eq!(strip_fences("```[1]```"), "[1]");
}

#[test]
fn leaves_a_text_without_fence_alone() {
    assert_eq!(strip_fences("[1]"), "[1]");
    assert_eq!(strip_fences(""), "");
    assert_eq!(strip_fences("``"), "``");
    assert_eq!(strip_fences("a```b"), "a```b");
}

#[test]
fn takes_one_marker_at_each_end_and_no_more() {
    assert_eq!(strip_fences("```json```[1]``````"), "```[1]```");
    assert_eq!(strip_fences("```[1]"), "[1]");
    assert_eq!(strip_fences("[1]```"), "[1]");
    assert_eq!(strip_fences("```"), "");
    assert_eq!(strip_fences("```json"), "");
    assert_eq!(strip_fences("``````"), "");
    assert_eq!(strip_fences("````"), "`");
}

#[test]
fn a_bare_fence_before_the_language_tag_reads_as_a_tagged_one() {
    assert_eq!(strip_fences("```json[]```"), "[]");
}
