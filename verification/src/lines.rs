//! A file's text as a sequence of lines, and the edits that write directives
//! make to it.
//!
//! A text is split at each line feed. A carriage return right before a line
//! feed belongs to the line ending. A line feed at the very end of the text
//! ends the last line and opens no new one. Lines are joined again with one
//! line feed between them.

use vstd::prelude::*;
use vstd::string::StringExecFns;
use crate::error::EditError;
use crate::text::{
    chars_of, decimal, decimal_text, find, find_from, lemma_find_from, owned, text_between,
};

verus! {

/// The texts of a list of strings.
pub open spec fn texts(lines: Seq<String>) -> Seq<Seq<char>> {
    lines.map_values(|s: String| s@)
}

/// `line` without the carriage return at its end, if it has one.
pub open spec fn without_return(line: Seq<char>) -> Seq<char> {
    if line.len() > 0 && line.last() == '\r' {
        line.drop_last()
    } else {
        line
    }
}

/// The lines of `s` from index `i` on.
pub open spec fn lines_from(s: Seq<char>, i: int) -> Seq<Seq<char>>
    decreases s.len() - i,
    when 0 <= i
    via lines_from_decreases
{
    if i >= s.len() {
        Seq::empty()
    } else {
        match find_from(s, seq!['\n'], i) {
            None => seq![s.subrange(i, s.len() as int)],
            Some(k) => seq![without_return(s.subrange(i, k))] + lines_from(s, k + 1),
        }
    }
}

#[via_fn]
proof fn lines_from_decreases(s: Seq<char>, i: int) {
    lemma_find_from(s, seq!['\n'], i);
}

/// The lines of a text.
pub open spec fn lines_of(s: Seq<char>) -> Seq<Seq<char>> {
    lines_from(s, 0)
}

/// The text made of `lines` with one line feed between each two.
pub open spec fn join_lines(lines: Seq<Seq<char>>) -> Seq<char>
    decreases lines.len(),
{
    if lines.len() == 0 {
        Seq::empty()
    } else if lines.len() == 1 {
        lines[0]
    } else {
        join_lines(lines.drop_last()).push('\n') + lines.last()
    }
}

/// `lines` with `content` as one new line before the 0-based index `start`:
/// 0 puts it first, the number of lines puts it last. A larger index is
/// refused.
pub open spec fn inserted(lines: Seq<Seq<char>>, start: u32, content: Seq<char>) -> Result<
    Seq<Seq<char>>,
    EditError,
> {
    if start <= lines.len() {
        Ok(lines.insert(start as int, content))
    } else {
        Err(EditError::StartPastEnd)
    }
}

/// The 0-based index at which a replacement begins: `start` counts lines
/// from 1, and 0 stands for the beginning of the file as 1 does.
pub open spec fn offset_of(start: u32) -> int {
    if start == 0 {
        0
    } else {
        start - 1
    }
}

/// `lines` with the lines from `offset_of(start)` up to `end` taken out and
/// `content` put in their place as one line. A range that does not lie
/// within the lines is refused.
pub open spec fn replaced(lines: Seq<Seq<char>>, start: u32, end: u32, content: Seq<char>) -> Result<
    Seq<Seq<char>>,
    EditError,
> {
    if offset_of(start) <= end <= lines.len() {
        Ok(
            lines.subrange(0, offset_of(start)) + seq![content] + lines.subrange(
                end as int,
                lines.len() as int,
            ),
        )
    } else {
        Err(EditError::RangeOutOfBounds)
    }
}

/// The line `line` with its number `n` before it.
pub open spec fn numbered_line(n: nat, line: Seq<char>) -> Seq<char> {
    decimal(n) + ": "@ + line
}

/// Each line with its number before it, counted from 1.
pub open spec fn numbered(lines: Seq<Seq<char>>) -> Seq<Seq<char>> {
    Seq::new(lines.len(), |i: int| numbered_line((i + 1) as nat, lines[i]))
}

/// The numbered lines of a text, joined.
pub open spec fn listing_of(text: Seq<char>) -> Seq<char> {
    join_lines(numbered(lines_of(text)))
}

/// The text of a file after a line was inserted. A file that does not exist
/// has no lines.
pub open spec fn text_with_line(existing: Option<Seq<char>>, start: u32, content: Seq<char>) -> Result<
    Seq<char>,
    EditError,
> {
    let lines = match existing {
        Some(text) => lines_of(text),
        None => Seq::empty(),
    };
    match inserted(lines, start, content) {
        Ok(now) => Ok(join_lines(now)),
        Err(e) => Err(e),
    }
}

/// The text of a file after lines were replaced.
pub open spec fn text_with_replacement(
    existing: Seq<char>,
    start: u32,
    end: u32,
    content: Seq<char>,
) -> Result<Seq<char>, EditError> {
    match replaced(lines_of(existing), start, end, content) {
        Ok(now) => Ok(join_lines(now)),
        Err(e) => Err(e),
    }
}

/// What the outcome of an edit of lines stands for.
pub open spec fn lines_outcome(r: Result<Vec<String>, EditError>) -> Result<
    Seq<Seq<char>>,
    EditError,
> {
    match r {
        Ok(lines) => Ok(texts(lines@)),
        Err(e) => Err(e),
    }
}

/// What the outcome of an edit of a text stands for.
pub open spec fn edit_outcome(r: Result<String, EditError>) -> Result<Seq<char>, EditError> {
    match r {
        Ok(text) => Ok(text@),
        Err(e) => Err(e),
    }
}

/// The view of an optional text.
pub open spec fn maybe_text(t: Option<&str>) -> Option<Seq<char>> {
    match t {
        Some(s) => Some(s@),
        None => None,
    }
}

/// Splits a text into its lines.
pub fn split_lines(text: &str) -> (r: Vec<String>)
    ensures
        texts(r@) == lines_of(text@),
{
    let cs = chars_of(text);
    let mut feed: Vec<char> = Vec::new();
    feed.push('\n');
    assert(feed@ == seq!['\n']);
    let mut out: Vec<String> = Vec::new();
    let mut i: usize = 0;
    assert(texts(out@) + lines_from(cs@, 0) == lines_from(cs@, 0));
    while i < cs.len()
        invariant
            i <= cs.len(),
            feed@ == seq!['\n'],
            lines_of(cs@) == texts(out@) + lines_from(cs@, i as int),
        decreases cs.len() - i,
    {
        match find(&cs, &feed, i) {
            None => {
                let last = text_between(&cs, i, cs.len());
                proof {
                    let before = texts(out@);
                    assert(texts(out@.push(last)) == before.push(last@));
                    assert(before + seq![last@] == before.push(last@));
                    assert(lines_from(cs@, cs.len() as int) == Seq::<Seq<char>>::empty());
                    assert(before.push(last@) + Seq::<Seq<char>>::empty() == before.push(last@));
                }
                out.push(last);
                i = cs.len();
            },
            Some(k) => {
                proof {
                    lemma_find_from(cs@, feed@, i as int);
                }
                let to: usize = if k > i && cs[k - 1] == '\r' {
                    k - 1
                } else {
                    k
                };
                let line = text_between(&cs, i, to);
                proof {
                    let whole = cs@.subrange(i as int, k as int);
                    if k > i {
                        assert(whole.last() == cs@[k - 1]);
                    }
                    assert(line@ == without_return(whole));
                    let before = texts(out@);
                    assert(texts(out@.push(line)) == before.push(line@));
                    assert(before + (seq![line@] + lines_from(cs@, k + 1)) == before.push(line@)
                        + lines_from(cs@, k + 1));
                }
                out.push(line);
                i = k + 1;
            },
        }
    }
    assert(lines_from(cs@, i as int) == Seq::<Seq<char>>::empty());
    assert(texts(out@) + Seq::<Seq<char>>::empty() == texts(out@));
    out
}

/// Joins lines with one line feed between each two.
pub fn join(lines: &Vec<String>) -> (r: String)
    ensures
        r@ == join_lines(texts(lines@)),
{
    let mut out = String::new();
    let mut i: usize = 0;
    while i < lines.len()
        invariant
            i <= lines.len(),
            out@ == join_lines(texts(lines@).take(i as int)),
        decreases lines.len() - i,
    {
        proof {
            let now = texts(lines@).take(i + 1);
            assert(now.drop_last() == texts(lines@).take(i as int));
            assert(now.last() == lines@[i as int]@);
            if i == 0 {
                assert(Seq::<char>::empty() + lines@[0]@ == lines@[0]@);
            }
        }
        if i > 0 {
            out.push('\n');
        }
        out.append(lines[i].as_str());
        i += 1;
    }
    assert(texts(lines@).take(lines.len() as int) == texts(lines@));
    out
}

/// Inserts `content` as one new line before the 0-based index `start`.
pub fn insert_line(lines: Vec<String>, start: u32, content: &str) -> (r: Result<
    Vec<String>,
    EditError,
>)
    ensures
        lines_outcome(r) == inserted(texts(lines@), start, content@),
{
    let mut lines = lines;
    let ghost before = lines@;
    if start as usize > lines.len() {
        return Err(EditError::StartPastEnd);
    }
    let line = owned(content);
    lines.insert(start as usize, line);
    assert(texts(lines@) == texts(before).insert(start as int, content@));
    Ok(lines)
}

/// Replaces the lines from `offset_of(start)` up to `end` by the one line
/// `content`.
pub fn replace_lines(lines: Vec<String>, start: u32, end: u32, content: &str) -> (r: Result<
    Vec<String>,
    EditError,
>)
    ensures
        lines_outcome(r) == replaced(texts(lines@), start, end, content@),
{
    let offset: usize = if start == 0 {
        0
    } else {
        (start - 1) as usize
    };
    let end: usize = end as usize;
    if offset > end || end > lines.len() {
        return Err(EditError::RangeOutOfBounds);
    }
    let mut out: Vec<String> = Vec::new();
    let mut i: usize = 0;
    while i < offset
        invariant
            i <= offset <= lines.len(),
            texts(out@) == texts(lines@).subrange(0, i as int),
        decreases offset - i,
    {
        let line = lines[i].clone();
        proof {
            assert(texts(out@.push(line)) == texts(out@).push(line@));
            assert(texts(lines@).subrange(0, i + 1) == texts(lines@).subrange(0, i as int).push(
                lines@[i as int]@,
            ));
        }
        out.push(line);
        i += 1;
    }
    let line = owned(content);
    assert(texts(out@.push(line)) == texts(out@).push(line@));
    out.push(line);
    let ghost head = texts(lines@).subrange(0, offset as int) + seq![content@];
    assert(texts(out@) == head);
    let mut k: usize = end;
    assert(texts(lines@).subrange(end as int, end as int) == Seq::<Seq<char>>::empty());
    assert(head + Seq::<Seq<char>>::empty() == head);
    while k < lines.len()
        invariant
            end <= k <= lines.len(),
            texts(out@) == head + texts(lines@).subrange(end as int, k as int),
        decreases lines.len() - k,
    {
        let line = lines[k].clone();
        proof {
            assert(texts(out@.push(line)) == texts(out@).push(line@));
            assert(texts(lines@).subrange(end as int, k + 1) == texts(lines@).subrange(
                end as int,
                k as int,
            ).push(lines@[k as int]@));
            assert((head + texts(lines@).subrange(end as int, k as int)).push(line@) == head
                + texts(lines@).subrange(end as int, k as int).push(line@));
        }
        out.push(line);
        k += 1;
    }
    Ok(out)
}

/// Puts its number before each line, counted from 1.
pub fn number_lines(lines: &Vec<String>) -> (r: Vec<String>)
    ensures
        texts(r@) == numbered(texts(lines@)),
{
    let mut out: Vec<String> = Vec::new();
    let mut i: usize = 0;
    while i < lines.len()
        invariant
            i <= lines.len(),
            out.len() == i,
            forall|j: int| 0 <= j < i ==> (#[trigger] out@[j])@ == numbered_line(
                (j + 1) as nat,
                lines@[j]@,
            ),
        decreases lines.len() - i,
    {
        let mut line = decimal_text(i + 1);
        line.append(": ");
        line.append(lines[i].as_str());
        out.push(line);
        i += 1;
    }
    assert(texts(out@) =~= numbered(texts(lines@)));
    out
}

/// The numbered lines of a text, joined.
pub fn listing(text: &str) -> (r: String)
    ensures
        r@ == listing_of(text@),
{
    let lines = split_lines(text);
    let marked = number_lines(&lines);
    join(&marked)
}

/// The text of a file after `content` was inserted as one new line before
/// the 0-based line `start`. `existing` is the file's text, or `None` where
/// the file does not exist.
pub fn add_line(existing: Option<&str>, start: u32, content: &str) -> (r: Result<String, EditError>)
    ensures
        edit_outcome(r) == text_with_line(maybe_text(existing), start, content@),
{
    let lines = match existing {
        Some(text) => split_lines(text),
        None => Vec::new(),
    };
    assert(existing is None ==> texts(lines@) == Seq::<Seq<char>>::empty());
    match insert_line(lines, start, content) {
        Ok(now) => Ok(join(&now)),
        Err(e) => Err(e),
    }
}

/// The text of a file after the lines from `offset_of(start)` up to `end`
/// were replaced by the one line `content`.
pub fn replace_in_text(existing: &str, start: u32, end: u32, content: &str) -> (r: Result<
    String,
    EditError,
>)
    ensures
        edit_outcome(r) == text_with_replacement(existing@, start, end, content@),
{
    let lines = split_lines(existing);
    match replace_lines(lines, start, end, content) {
        Ok(now) => Ok(join(&now)),
        Err(e) => Err(e),
    }
}

/// To replace from line 0 is to replace from line 1: both stand for the
/// beginning of the file.
pub proof fn lemma_zero_and_one_both_mean_the_beginning(
    lines: Seq<Seq<char>>,
    end: u32,
    content: Seq<char>,
)
    ensures
        offset_of(0) == 0,
        offset_of(1) == 0,
        replaced(lines, 0, end, content) == replaced(lines, 1, end, content),
{
}

/// An insertion that is accepted adds one line and keeps all the others in
/// their order: those before the place stay where they are, those from the
/// place on move down by one.
pub proof fn lemma_inserted_keeps_the_other_lines(
    lines: Seq<Seq<char>>,
    start: u32,
    content: Seq<char>,
)
    requires
        start <= lines.len(),
    ensures
        inserted(lines, start, content) matches Ok(now) && {
            &&& now.len() == lines.len() + 1
            &&& now[start as int] == content
            &&& forall|i: int| 0 <= i < start ==> now[i] == lines[i]
            &&& forall|i: int| start <= i < lines.len() ==> now[i + 1] == lines[i]
        },
{
}

} // verus!
