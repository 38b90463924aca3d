//! The markup encoding of a response: a flat sequence of tags.
//!
//! Each directive is one top-level tag, opened by `<name>` and closed by
//! `</name>`. The tags `run`, `message`, `reason` and `end` hold a text. The
//! tags `file-read`, `file-write-add` and `file-write-replace` hold inner tags
//! `path`, `start`, `end` and `content`, each with a text or a number. A
//! closing marker is the next place where `</name>` stands: the match is flat,
//! so a tag's name cannot stand in a closing marker inside its own content.
//! White space between tags is passed over. Anything else between tags, a name
//! that is not known, a tag that is never closed and a number that is none
//! fail the whole response.

use vstd::prelude::*;
use crate::error::ProtocolError;
use crate::fence::{
    bare_fenced, lemma_bare_fence_strips, lemma_tagged_fence_strips,
    lemma_unfenced_strips_to_itself, strip_fences, tagged_fenced, unfenced, without_fences,
};
pub use crate::task_part::TaskPart;
use crate::task_part::{directives, part_outcome, parts_outcome, Directive};
use crate::text::{
    chars_of, find, find_from, index_of_text, lemma_find_from, lemma_skip_blanks, matches_at,
    occurs_at, owned, read_index, skip_blank_chars, skip_blanks, text_between,
};

verus! {

/// What a `file-write-add` tag holds.
#[derive(Debug, Clone, PartialEq, Eq)]
pub struct FileWriteAdd {
    pub path: String,
    pub content: String,
    pub start: u32,
}

/// What a `file-write-replace` tag holds.
#[derive(Debug, Clone, PartialEq, Eq)]
pub struct FileWriteReplace {
    pub path: String,
    pub content: String,
    pub start: u32,
    pub end: u32,
}

/// What a `file-read` tag holds.
#[derive(Debug, Clone, PartialEq, Eq)]
pub struct FileRead {
    pub path: String,
}

/// The mathematical value of what a file tag holds. A kind that has no
/// `content`, `start` or `end` leaves them empty and zero.
pub struct Fields {
    pub path: Seq<char>,
    pub content: Seq<char>,
    pub start: u32,
    pub end: u32,
}

impl View for FileWriteReplace {
    type V = Fields;

    open spec fn view(&self) -> Fields {
        Fields { path: self.path@, content: self.content@, start: self.start, end: self.end }
    }
}

impl View for FileWriteAdd {
    type V = Fields;

    open spec fn view(&self) -> Fields {
        Fields { path: self.path@, content: self.content@, start: self.start, end: 0 }
    }
}

impl View for FileRead {
    type V = Fields;

    open spec fn view(&self) -> Fields {
        Fields { path: self.path@, content: Seq::empty(), start: 0, end: 0 }
    }
}

/// The fields of a file tag that holds no inner tag.
pub open spec fn no_fields() -> Fields {
    Fields { path: Seq::empty(), content: Seq::empty(), start: 0, end: 0 }
}

impl FileRead {
    /// The directive that these fields make.
    pub fn into_part(self) -> (r: TaskPart)
        ensures
            r@ == (Directive::FileRead { path: self@.path }),
    {
        TaskPart::FileRead { path: self.path }
    }
}

impl FileWriteAdd {
    /// The directive that these fields make.
    pub fn into_part(self) -> (r: TaskPart)
        ensures
            r@ == (Directive::FileWriteAdd {
                path: self@.path,
                content: self@.content,
                start: self@.start,
            }),
    {
        TaskPart::FileWriteAdd { path: self.path, content: self.content, start: self.start }
    }
}

impl FileWriteReplace {
    /// The directive that these fields make.
    pub fn into_part(self) -> (r: TaskPart)
        ensures
            r@ == (Directive::FileWriteReplace {
                path: self@.path,
                content: self@.content,
                start: self@.start,
                end: self@.end,
            }),
    {
        TaskPart::FileWriteReplace {
            path: self.path,
            content: self.content,
            start: self.start,
            end: self.end,
        }
    }
}

/// The marker that opens the tag `name`.
pub open spec fn opening(name: Seq<char>) -> Seq<char> {
    seq!['<'] + name + seq!['>']
}

/// The marker that closes the tag `name`.
pub open spec fn closing(name: Seq<char>) -> Seq<char> {
    seq!['<', '/'] + name + seq!['>']
}

/// A tag as it stands in a text: its name, its content, and the index right
/// after its closing marker.
pub struct Element {
    pub name: Seq<char>,
    pub body: Seq<char>,
    pub next: int,
}

/// The name of the tag that opens at index `i`, with the index right after
/// the `>` that ends the opening marker.
pub open spec fn open_tag(s: Seq<char>, i: int) -> Result<(Seq<char>, int), ProtocolError> {
    if !(0 <= i < s.len()) || s[i] != '<' {
        Err(ProtocolError::UnexpectedText)
    } else {
        match find_from(s, seq!['>'], i + 1) {
            None => Err(ProtocolError::UnterminatedTag),
            Some(k) => Ok((s.subrange(i + 1, k), k + 1)),
        }
    }
}

/// The content of the tag `name` whose opening marker ends right before
/// `from`: what stands before the next closing marker of that name.
pub open spec fn close_tag(s: Seq<char>, name: Seq<char>, from: int) -> Result<
    Element,
    ProtocolError,
> {
    match find_from(s, closing(name), from) {
        None => Err(ProtocolError::UnterminatedTag),
        Some(c) => Ok(Element { name, body: s.subrange(from, c), next: c + closing(name).len() }),
    }
}

/// Whether `name` is one of the seven top-level tags.
pub open spec fn is_directive_name(name: Seq<char>) -> bool {
    ||| name == "run"@
    ||| name == "message"@
    ||| name == "reason"@
    ||| name == "end"@
    ||| name == "file-read"@
    ||| name == "file-write-add"@
    ||| name == "file-write-replace"@
}

/// Whether the inner tag `name` may stand in the file tag `kind`.
pub open spec fn is_field_of(kind: Seq<char>, name: Seq<char>) -> bool {
    ||| name == "path"@
    ||| (name == "content"@ && kind != "file-read"@)
    ||| (name == "start"@ && kind != "file-read"@)
    ||| (name == "end"@ && kind == "file-write-replace"@)
}

/// The fields `acc` with the inner tag `name` set from its content. A later
/// tag of the same name replaces an earlier one.
pub open spec fn with_field(acc: Fields, name: Seq<char>, value: Seq<char>) -> Result<
    Fields,
    ProtocolError,
> {
    if name == "path"@ {
        Ok(Fields { path: value, ..acc })
    } else if name == "content"@ {
        Ok(Fields { content: value, ..acc })
    } else if name == "start"@ {
        match index_of_text(value) {
            Some(n) => Ok(Fields { start: n as u32, ..acc }),
            None => Err(ProtocolError::BadNumber),
        }
    } else {
        match index_of_text(value) {
            Some(n) => Ok(Fields { end: n as u32, ..acc }),
            None => Err(ProtocolError::BadNumber),
        }
    }
}

/// The fields that the inner tags of `body` from index `i` on add to `acc`,
/// for a file tag of kind `kind`.
pub open spec fn read_fields(kind: Seq<char>, body: Seq<char>, i: int, acc: Fields) -> Result<
    Fields,
    ProtocolError,
>
    decreases body.len() - i,
    when 0 <= i
    via read_fields_decreases
{
    let j = skip_blanks(body, i);
    if j >= body.len() {
        Ok(acc)
    } else {
        match open_tag(body, j) {
            Err(e) => Err(e),
            Ok((name, from)) => if !is_field_of(kind, name) {
                Err(ProtocolError::UnknownTag)
            } else {
                match close_tag(body, name, from) {
                    Err(e) => Err(e),
                    Ok(element) => match with_field(acc, name, element.body) {
                        Err(e) => Err(e),
                        Ok(more) => read_fields(kind, body, element.next, more),
                    },
                }
            },
        }
    }
}

/// A tag that is read at or after `i` ends after `i`.
pub proof fn lemma_element_moves_on(s: Seq<char>, i: int)
    requires
        0 <= i,
    ensures
        i <= skip_blanks(s, i),
        open_tag(s, skip_blanks(s, i)) matches Ok((name, from)) ==> {
            &&& skip_blanks(s, i) < from <= s.len()
            &&& !name.contains('>')
            &&& name.len() == from - skip_blanks(s, i) - 2
            &&& (close_tag(s, name, from) matches Ok(element) ==> from <= element.next - name.len()
                - 3 && element.next <= s.len())
        },
{
    let j = skip_blanks(s, i);
    if i <= s.len() {
        lemma_skip_blanks(s, i);
    }
    if let Ok((name, from)) = open_tag(s, j) {
        lemma_find_from(s, seq!['>'], j + 1);
        let k = from - 1;
        assert(s.subrange(k, k + 1)[0] == '>');
        if name.contains('>') {
            let m = choose|m: int| 0 <= m < name.len() && name[m] == '>';
            assert(s.subrange(j + 1 + m, j + 1 + m + 1) =~= seq!['>']);
            assert(occurs_at(s, seq!['>'], j + 1 + m));
        }
        lemma_find_from(s, closing(name), from);
    }
}

#[via_fn]
proof fn read_fields_decreases(kind: Seq<char>, body: Seq<char>, i: int, acc: Fields) {
    lemma_element_moves_on(body, i);
}

/// The directive that the tag `name` with the content `body` stands for.
pub open spec fn directive_of(name: Seq<char>, body: Seq<char>) -> Result<
    Directive,
    ProtocolError,
> {
    if name == "run"@ {
        Ok(Directive::Run { command: body })
    } else if name == "message"@ {
        Ok(Directive::Message { text: body })
    } else if name == "reason"@ {
        Ok(Directive::Reason { text: body })
    } else if name == "end"@ {
        Ok(Directive::End { reason: body })
    } else {
        match read_fields(name, body, 0, no_fields()) {
            Err(e) => Err(e),
            Ok(f) => if name == "file-read"@ {
                Ok(Directive::FileRead { path: f.path })
            } else if name == "file-write-add"@ {
                Ok(Directive::FileWriteAdd { path: f.path, content: f.content, start: f.start })
            } else {
                Ok(
                    Directive::FileWriteReplace {
                        path: f.path,
                        content: f.content,
                        start: f.start,
                        end: f.end,
                    },
                )
            },
        }
    }
}

/// The directives that the tags of `s` from index `i` on stand for: all of
/// them in order, or the first error met on the way.
pub open spec fn parse_tags(s: Seq<char>, i: int) -> Result<Seq<Directive>, ProtocolError>
    decreases s.len() - i,
    when 0 <= i
    via parse_tags_decreases
{
    let j = skip_blanks(s, i);
    if j >= s.len() {
        Ok(Seq::empty())
    } else {
        match open_tag(s, j) {
            Err(e) => Err(e),
            Ok((name, from)) => if !is_directive_name(name) {
                Err(ProtocolError::UnknownTag)
            } else {
                match close_tag(s, name, from) {
                    Err(e) => Err(e),
                    Ok(element) => match directive_of(name, element.body) {
                        Err(e) => Err(e),
                        Ok(d) => match parse_tags(s, element.next) {
                            Err(e) => Err(e),
                            Ok(rest) => Ok(seq![d] + rest),
                        },
                    },
                }
            },
        }
    }
}

#[via_fn]
proof fn parse_tags_decreases(s: Seq<char>, i: int) {
    lemma_element_moves_on(s, i);
}

/// The directives that a response in the markup encoding stands for: the
/// fence is taken away and the tags of the rest are read.
pub open spec fn markup_reading(text: Seq<char>) -> Result<Seq<Directive>, ProtocolError> {
    parse_tags(without_fences(text), 0)
}

/// A copy of the characters `cs[from..to]`.
fn span(cs: &Vec<char>, from: usize, to: usize) -> (r: Vec<char>)
    requires
        from <= to <= cs.len(),
    ensures
        r@ == cs@.subrange(from as int, to as int),
{
    let mut out: Vec<char> = Vec::new();
    let mut i: usize = from;
    while i < to
        invariant
            from <= i <= to <= cs.len(),
            out@ == cs@.subrange(from as int, i as int),
        decreases to - i,
    {
        out.push(cs[i]);
        i += 1;
    }
    out
}

/// Whether `cs` spells `word`.
fn spells(cs: &Vec<char>, word: &str) -> (r: bool)
    ensures
        r == (cs@ == word@),
{
    let w = chars_of(word);
    assert(cs@.subrange(0, cs@.len() as int) == cs@);
    w.len() == cs.len() && matches_at(cs, &w, 0)
}

/// Reads the opening marker at index `j`. Gives the index of its `>`: the
/// name stands between `j + 1` and that index.
fn read_open_tag(s: &Vec<char>, j: usize) -> (r: Result<usize, ProtocolError>)
    requires
        j < s.len(),
    ensures
        match r {
            Ok(k) => j < k < s.len() && open_tag(s@, j as int) == Ok::<
                (Seq<char>, int),
                ProtocolError,
            >((s@.subrange(j + 1, k as int), k + 1)),
            Err(e) => open_tag(s@, j as int) == Err::<(Seq<char>, int), ProtocolError>(e),
        },
{
    if s[j] != '<' {
        return Err(ProtocolError::UnexpectedText);
    }
    let mut mark: Vec<char> = Vec::new();
    mark.push('>');
    assert(mark@ == seq!['>']);
    match find(s, &mark, j + 1) {
        None => Err(ProtocolError::UnterminatedTag),
        Some(k) => {
            proof {
                lemma_find_from(s@, mark@, j + 1);
            }
            Ok(k)
        },
    }
}

/// Finds the closing marker of the tag `name` at or after `from`. Gives the
/// index where it begins and the index right after it.
fn read_close_tag(s: &Vec<char>, name: &Vec<char>, from: usize) -> (r: Result<
    (usize, usize),
    ProtocolError,
>)
    requires
        from <= s.len(),
    ensures
        match r {
            Ok((c, next)) => from <= c <= next <= s.len() && next == c + name.len() + 3
                && close_tag(s@, name@, from as int) == Ok::<Element, ProtocolError>(
                Element { name: name@, body: s@.subrange(from as int, c as int), next: next as int },
            ),
            Err(e) => close_tag(s@, name@, from as int) == Err::<Element, ProtocolError>(e),
        },
{
    let mut mark: Vec<char> = Vec::new();
    mark.push('<');
    mark.push('/');
    let mut i: usize = 0;
    while i < name.len()
        invariant
            i <= name.len(),
            mark@ == seq!['<', '/'] + name@.subrange(0, i as int),
        decreases name.len() - i,
    {
        mark.push(name[i]);
        i += 1;
    }
    mark.push('>');
    assert(mark@ == closing(name@)) by {
        assert(name@.subrange(0, name@.len() as int) == name@);
    }
    match find(s, &mark, from) {
        None => Err(ProtocolError::UnterminatedTag),
        Some(c) => {
            proof {
                lemma_find_from(s@, mark@, from as int);
            }
            Ok((c, c + mark.len()))
        },
    }
}

/// Sets the inner tag `name` of the fields `acc` from its content.
fn set_field(acc: FileWriteReplace, name: &Vec<char>, value: &Vec<char>) -> (r: Result<
    FileWriteReplace,
    ProtocolError,
>)
    ensures
        match r {
            Ok(f) => with_field(acc@, name@, value@) == Ok::<Fields, ProtocolError>(f@),
            Err(e) => with_field(acc@, name@, value@) == Err::<Fields, ProtocolError>(e),
        },
{
    let mut acc = acc;
    assert(value@.subrange(0, value@.len() as int) == value@);
    if spells(name, "path") {
        acc.path = text_between(value, 0, value.len());
        Ok(acc)
    } else if spells(name, "content") {
        acc.content = text_between(value, 0, value.len());
        Ok(acc)
    } else if spells(name, "start") {
        match read_index(value, 0, value.len()) {
            Some(n) => {
                acc.start = n;
                Ok(acc)
            },
            None => Err(ProtocolError::BadNumber),
        }
    } else {
        match read_index(value, 0, value.len()) {
            Some(n) => {
                acc.end = n;
                Ok(acc)
            },
            None => Err(ProtocolError::BadNumber),
        }
    }
}

/// Whether the inner tag `name` may stand in the file tag `kind`.
fn field_of(kind: &Vec<char>, name: &Vec<char>) -> (r: bool)
    ensures
        r == is_field_of(kind@, name@),
{
    spells(name, "path") || (spells(name, "content") && !spells(kind, "file-read")) || (spells(
        name,
        "start",
    ) && !spells(kind, "file-read")) || (spells(name, "end") && spells(kind, "file-write-replace"))
}

/// Reads the inner tags of a file tag of kind `kind`.
fn parse_fields(kind: &Vec<char>, body: &Vec<char>) -> (r: Result<FileWriteReplace, ProtocolError>)
    ensures
        match r {
            Ok(f) => read_fields(kind@, body@, 0, no_fields()) == Ok::<Fields, ProtocolError>(f@),
            Err(e) => read_fields(kind@, body@, 0, no_fields()) == Err::<Fields, ProtocolError>(e),
        },
{
    let mut acc = FileWriteReplace { path: String::new(), content: String::new(), start: 0, end: 0 };
    let mut i: usize = 0;
    loop
        invariant
            i <= body.len(),
            read_fields(kind@, body@, 0, no_fields()) == read_fields(kind@, body@, i as int, acc@),
        decreases body.len() - i,
    {
        let j = skip_blank_chars(body, i);
        if j >= body.len() {
            return Ok(acc);
        }
        let k = match read_open_tag(body, j) {
            Ok(k) => k,
            Err(e) => { return Err(e); },
        };
        let name = span(body, j + 1, k);
        if !field_of(kind, &name) {
            return Err(ProtocolError::UnknownTag);
        }
        let (c, next) = match read_close_tag(body, &name, k + 1) {
            Ok(found) => found,
            Err(e) => { return Err(e); },
        };
        let value = span(body, k + 1, c);
        acc = match set_field(acc, &name, &value) {
            Ok(more) => more,
            Err(e) => { return Err(e); },
        };
        i = next;
    }
}

/// Makes the directive that the tag `name` with the content `body` stands
/// for. The name is one of the seven.
fn make_directive(name: &Vec<char>, body: &Vec<char>) -> (r: Result<TaskPart, ProtocolError>)
    requires
        is_directive_name(name@),
    ensures
        part_outcome(r) == directive_of(name@, body@),
{
    assert(body@.subrange(0, body@.len() as int) == body@);
    if spells(name, "run") {
        Ok(TaskPart::Run { command: text_between(body, 0, body.len()) })
    } else if spells(name, "message") {
        Ok(TaskPart::Message { text: text_between(body, 0, body.len()) })
    } else if spells(name, "reason") {
        Ok(TaskPart::Reason { text: text_between(body, 0, body.len()) })
    } else if spells(name, "end") {
        Ok(TaskPart::End { reason: text_between(body, 0, body.len()) })
    } else {
        match parse_fields(name, body) {
            Err(e) => Err(e),
            Ok(f) => if spells(name, "file-read") {
                Ok((FileRead { path: f.path }).into_part())
            } else if spells(name, "file-write-add") {
                Ok((FileWriteAdd { path: f.path, content: f.content, start: f.start }).into_part())
            } else {
                Ok(f.into_part())
            },
        }
    }
}

/// Whether `name` is one of the seven top-level tags.
fn directive_name(name: &Vec<char>) -> (r: bool)
    ensures
        r == is_directive_name(name@),
{
    spells(name, "run") || spells(name, "message") || spells(name, "reason") || spells(name, "end")
        || spells(name, "file-read") || spells(name, "file-write-add") || spells(
        name,
        "file-write-replace",
    )
}

/// What reading gives once the directives `done` have been read and
/// `rest` is the outcome for what follows them.
pub open spec fn after(done: Seq<Directive>, rest: Result<Seq<Directive>, ProtocolError>) -> Result<
    Seq<Directive>,
    ProtocolError,
> {
    match rest {
        Ok(more) => Ok(done + more),
        Err(e) => Err(e),
    }
}

/// Reads the tags of `text` from index `start` on.
fn parse_from(text: &Vec<char>, start: usize) -> (r: Result<Vec<TaskPart>, ProtocolError>)
    requires
        start <= text.len(),
    ensures
        parts_outcome(r) == parse_tags(text@, start as int),
{
    let mut out: Vec<TaskPart> = Vec::new();
    let mut i: usize = start;
    assert(Seq::<Directive>::empty() + Seq::<Directive>::empty() == Seq::<Directive>::empty());
    loop
        invariant
            i <= text.len(),
            parse_tags(text@, start as int) == after(directives(out@), parse_tags(text@, i as int)),
        decreases text.len() - i,
    {
        let j = skip_blank_chars(text, i);
        if j >= text.len() {
            assert(directives(out@) + Seq::<Directive>::empty() == directives(out@));
            return Ok(out);
        }
        let k = match read_open_tag(text, j) {
            Ok(k) => k,
            Err(e) => { return Err(e); },
        };
        let name = span(text, j + 1, k);
        if !directive_name(&name) {
            return Err(ProtocolError::UnknownTag);
        }
        let (c, next) = match read_close_tag(text, &name, k + 1) {
            Ok(found) => found,
            Err(e) => { return Err(e); },
        };
        let body = span(text, k + 1, c);
        let part = match make_directive(&name, &body) {
            Ok(part) => part,
            Err(e) => { return Err(e); },
        };
        proof {
            let before = directives(out@);
            let now = directives(out@.push(part));
            assert(now == before.push(part@));
            match parse_tags(text@, next as int) {
                Ok(rest) => {
                    assert(before + (seq![part@] + rest) == now + rest);
                },
                Err(_) => {},
            }
        }
        out.push(part);
        i = next;
    }
}

/// A reader of the markup encoding. It holds the text and the place up to
/// which the text has been read.
pub struct Parser {
    full_text: Vec<char>,
    cursor: usize,
}

impl Parser {
    /// The text that this parser reads.
    pub closed spec fn source(&self) -> Seq<char> {
        self.full_text@
    }

    /// The index up to which the text has been read.
    pub closed spec fn position(&self) -> int {
        self.cursor as int
    }

    #[verifier::type_invariant]
    spec fn within(self) -> bool {
        self.cursor <= self.full_text.len()
    }

    /// A parser that stands at the beginning of `response`.
    pub fn new(response: &str) -> (r: Self)
        ensures
            r.source() == response@,
            r.position() == 0,
    {
        Self { full_text: chars_of(response), cursor: 0 }
    }

    /// Reads all the tags from where the parser stands to the end of the
    /// text. Afterwards the parser stands at the end.
    pub fn parse(&mut self) -> (r: Result<Vec<TaskPart>, ProtocolError>)
        ensures
            parts_outcome(r) == parse_tags(old(self).source(), old(self).position()),
            final(self).source() == old(self).source(),
            final(self).position() == old(self).source().len(),
    {
        proof {
            use_type_invariant(&*self);
        }
        let r = parse_from(&self.full_text, self.cursor);
        self.cursor = self.full_text.len();
        r
    }
}

/// Reads a response in the markup encoding.
pub fn parse_markup(response: &str) -> (r: Result<Vec<TaskPart>, ProtocolError>)
    ensures
        parts_outcome(r) == markup_reading(response@),
{
    let bare = strip_fences(response);
    let mut parser = Parser::new(bare.as_str());
    parser.parse()
}

/// None of the seven names holds a `>`.
proof fn lemma_names_hold_no_mark(name: Seq<char>)
    requires
        is_directive_name(name),
    ensures
        !name.contains('>'),
{
    reveal_strlit("run");
    reveal_strlit("message");
    reveal_strlit("reason");
    reveal_strlit("end");
    reveal_strlit("file-read");
    reveal_strlit("file-write-add");
    reveal_strlit("file-write-replace");
    if name.contains('>') {
        let m = choose|m: int| 0 <= m < name.len() && name[m] == '>';
        assert(name[m] == '>');
        assert(false);
    }
}

/// A tag that is opened and never closed fails the response: where the first
/// thing in a text is the opening marker of one of the seven tags, and the
/// closing marker of that tag stands nowhere in the text, reading gives
/// `UnterminatedTag`.
pub proof fn lemma_unterminated_tag_fails(s: Seq<char>, name: Seq<char>)
    requires
        is_directive_name(name),
        occurs_at(s, opening(name), skip_blanks(s, 0)),
        forall|c: int| !occurs_at(s, closing(name), c),
    ensures
        parse_tags(s, 0) == Err::<Seq<Directive>, ProtocolError>(ProtocolError::UnterminatedTag),
{
    let j = skip_blanks(s, 0);
    let mark = seq!['>'];
    let open = opening(name);
    let end = j + 1 + name.len();
    lemma_skip_blanks(s, 0);
    lemma_names_hold_no_mark(name);
    assert(s.subrange(j, j + open.len())[0] == '<');
    assert(s[j] == '<');
    assert(s.subrange(end, end + 1) =~= mark) by {
        assert(s.subrange(j, j + open.len())[name.len() as int + 1] == '>');
    }
    assert(occurs_at(s, mark, end));
    lemma_find_from(s, mark, j + 1);
    let k = find_from(s, mark, j + 1)->0;
    assert(find_from(s, mark, j + 1) is Some);
    if k < end {
        assert(s.subrange(k, k + 1)[0] == '>');
        assert(s.subrange(j, j + open.len())[k - j] == s[k]);
        assert(name[k - j - 1] == '>');
        assert(false);
    }
    assert(k == end);
    assert(s.subrange(j + 1, k) =~= name) by {
        assert forall|m: int| 0 <= m < name.len() implies s[j + 1 + m] == name[m] by {
            assert(s.subrange(j, j + open.len())[m + 1] == s[j + 1 + m]);
        }
    }
    lemma_find_from(s, closing(name), k + 1);
}

/// A text that holds no closing marker at all, and something other than
/// white space, is never read as a list of directives.
pub proof fn lemma_unclosed_text_fails(s: Seq<char>)
    requires
        forall|i: int| !occurs_at(s, seq!['<', '/'], i),
        skip_blanks(s, 0) < s.len(),
    ensures
        parse_tags(s, 0) is Err,
{
    let j = skip_blanks(s, 0);
    lemma_skip_blanks(s, 0);
    if let Ok((name, from)) = open_tag(s, j) {
        lemma_element_moves_on(s, 0);
        lemma_find_from(s, closing(name), from);
        if let Some(c) = find_from(s, closing(name), from) {
            assert(s.subrange(c, c + 2) =~= seq!['<', '/']) by {
                assert(s.subrange(c, c + closing(name).len())[0] == '<');
                assert(s.subrange(c, c + closing(name).len())[1] == '/');
            }
            assert(occurs_at(s, seq!['<', '/'], c));
        }
    }
}

/// A response in the markup encoding reads the same with a fence around it
/// as without: wrapped in a tagged fence, or in a bare one where the text
/// does not itself begin with the language tag. The text inside must not
/// begin or end with a fence marker of its own.
pub proof fn lemma_fence_is_transparent(inner: Seq<char>)
    requires
        unfenced(inner),
    ensures
        markup_reading(tagged_fenced(inner)) == markup_reading(inner),
        !"json"@.is_prefix_of(inner) ==> markup_reading(bare_fenced(inner)) == markup_reading(
            inner,
        ),
{
    lemma_unfenced_strips_to_itself(inner);
    lemma_tagged_fence_strips(inner);
    if !"json"@.is_prefix_of(inner) {
        lemma_bare_fence_strips(inner);
    }
}

} // verus!
