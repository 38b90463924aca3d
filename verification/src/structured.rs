//! The structured encoding of a response: a JSON array of objects, each with a
//! `type` field that selects the kind of directive and the fields of that kind
//! beside it.

use vstd::prelude::*;
use crate::error::ProtocolError;
use crate::fence::{
    bare_fenced, lemma_bare_fence_strips, lemma_tagged_fence_strips,
    lemma_unfenced_strips_to_itself, strip_fences, tagged_fenced, unfenced, without_fences,
};
use crate::json::{
    find_field, json_reading, lookup, lookup_from, members, read_json, trees, JsonTree, JsonValue,
};
use crate::task_part::{directives, part_outcome, parts_outcome, Directive, TaskPart};
use crate::text::{owned, same_text};

verus! {

/// The text that the field `key` must hold.
pub open spec fn text_field(fields: Seq<(Seq<char>, JsonTree)>, key: Seq<char>) -> Result<
    Seq<char>,
    ProtocolError,
> {
    match lookup(fields, key) {
        None => Err(ProtocolError::MissingField),
        Some(JsonTree::Text(s)) => Ok(s),
        Some(_) => Err(ProtocolError::WrongShape),
    }
}

/// The line index that the field `key` must hold: a non-negative integer that
/// fits in 32 bits.
pub open spec fn index_field(fields: Seq<(Seq<char>, JsonTree)>, key: Seq<char>) -> Result<
    u32,
    ProtocolError,
> {
    match lookup(fields, key) {
        None => Err(ProtocolError::MissingField),
        Some(JsonTree::Number(Some(n))) => if n <= u32::MAX {
            Ok(n as u32)
        } else {
            Err(ProtocolError::BadNumber)
        },
        Some(JsonTree::Number(None)) => Err(ProtocolError::BadNumber),
        Some(_) => Err(ProtocolError::WrongShape),
    }
}

/// The directive of kind `kind` that the fields of an object make up. The
/// fields are asked for in the order path, content, start, end, and the first
/// one that fails gives the error. Fields that the kind does not know are
/// passed over.
pub open spec fn decode_kind(kind: Seq<char>, fields: Seq<(Seq<char>, JsonTree)>) -> Result<
    Directive,
    ProtocolError,
> {
    if kind == "run"@ {
        match text_field(fields, "command"@) {
            Ok(command) => Ok(Directive::Run { command }),
            Err(e) => Err(e),
        }
    } else if kind == "message"@ {
        match text_field(fields, "text"@) {
            Ok(text) => Ok(Directive::Message { text }),
            Err(e) => Err(e),
        }
    } else if kind == "reason"@ {
        match text_field(fields, "text"@) {
            Ok(text) => Ok(Directive::Reason { text }),
            Err(e) => Err(e),
        }
    } else if kind == "file-write-add"@ {
        match text_field(fields, "path"@) {
            Err(e) => Err(e),
            Ok(path) => match text_field(fields, "content"@) {
                Err(e) => Err(e),
                Ok(content) => match index_field(fields, "start"@) {
                    Err(e) => Err(e),
                    Ok(start) => Ok(Directive::FileWriteAdd { path, content, start }),
                },
            },
        }
    } else if kind == "file-write-replace"@ {
        match text_field(fields, "path"@) {
            Err(e) => Err(e),
            Ok(path) => match text_field(fields, "content"@) {
                Err(e) => Err(e),
                Ok(content) => match index_field(fields, "start"@) {
                    Err(e) => Err(e),
                    Ok(start) => match index_field(fields, "end"@) {
                        Err(e) => Err(e),
                        Ok(end) => Ok(Directive::FileWriteReplace { path, content, start, end }),
                    },
                },
            },
        }
    } else if kind == "file-read"@ {
        match text_field(fields, "path"@) {
            Ok(path) => Ok(Directive::FileRead { path }),
            Err(e) => Err(e),
        }
    } else if kind == "end"@ {
        match text_field(fields, "reason"@) {
            Ok(reason) => Ok(Directive::End { reason }),
            Err(e) => Err(e),
        }
    } else {
        Err(ProtocolError::UnknownKind)
    }
}

/// The directive that one element of the array stands for.
pub open spec fn decode_item(item: JsonTree) -> Result<Directive, ProtocolError> {
    match item {
        JsonTree::Object(fields) => match lookup(fields, "type"@) {
            None => Err(ProtocolError::MissingType),
            Some(JsonTree::Text(kind)) => decode_kind(kind, fields),
            Some(_) => Err(ProtocolError::WrongShape),
        },
        _ => Err(ProtocolError::NotAnObject),
    }
}

/// The directives of the elements from index `i` on: all of them in order, or
/// the error of the first element that stands for none.
pub open spec fn decode_from(items: Seq<JsonTree>, i: int) -> Result<Seq<Directive>, ProtocolError>
    decreases items.len() - i,
{
    if i < 0 || i >= items.len() {
        Ok(Seq::empty())
    } else {
        match decode_item(items[i]) {
            Err(e) => Err(e),
            Ok(d) => match decode_from(items, i + 1) {
                Err(e) => Err(e),
                Ok(rest) => Ok(seq![d] + rest),
            },
        }
    }
}

/// The directives that a JSON document stands for.
pub open spec fn decode_document(doc: JsonTree) -> Result<Seq<Directive>, ProtocolError> {
    match doc {
        JsonTree::Array(items) => decode_from(items, 0),
        _ => Err(ProtocolError::NotAnArray),
    }
}

/// The directives that a response in the structured encoding stands for: the
/// fence is taken away, the rest is read as JSON, and the document is decoded.
pub open spec fn structured_reading(text: Seq<char>) -> Result<Seq<Directive>, ProtocolError> {
    match json_reading(without_fences(text)) {
        None => Err(ProtocolError::MalformedJson),
        Some(doc) => decode_document(doc),
    }
}

/// What the outcome of reading a text field stands for.
pub open spec fn text_outcome(r: Result<String, ProtocolError>) -> Result<Seq<char>, ProtocolError> {
    match r {
        Ok(s) => Ok(s@),
        Err(e) => Err(e),
    }
}

/// Reads the text that the field `key` holds.
pub fn read_text_field(fields: &Vec<(String, JsonValue)>, key: &str) -> (r: Result<
    String,
    ProtocolError,
>)
    ensures
        text_outcome(r) == text_field(members(fields@), key@),
{
    match find_field(fields, key) {
        None => Err(ProtocolError::MissingField),
        Some(JsonValue::Text(s)) => Ok(s.clone()),
        Some(_) => Err(ProtocolError::WrongShape),
    }
}

/// Reads the line index that the field `key` holds.
pub fn read_index_field(fields: &Vec<(String, JsonValue)>, key: &str) -> (r: Result<
    u32,
    ProtocolError,
>)
    ensures
        r == index_field(members(fields@), key@),
{
    match find_field(fields, key) {
        None => Err(ProtocolError::MissingField),
        Some(JsonValue::Number(Some(n))) => if *n <= 0xffff_ffffu64 {
            Ok(*n as u32)
        } else {
            Err(ProtocolError::BadNumber)
        },
        Some(JsonValue::Number(None)) => Err(ProtocolError::BadNumber),
        Some(_) => Err(ProtocolError::WrongShape),
    }
}

/// Makes the directive of kind `kind` from the fields of an object.
pub fn decode_fields(kind: &str, fields: &Vec<(String, JsonValue)>) -> (r: Result<
    TaskPart,
    ProtocolError,
>)
    ensures
        part_outcome(r) == decode_kind(kind@, members(fields@)),
{
    if same_text(kind, "run") {
        match read_text_field(fields, "command") {
            Ok(command) => Ok(TaskPart::Run { command }),
            Err(e) => Err(e),
        }
    } else if same_text(kind, "message") {
        match read_text_field(fields, "text") {
            Ok(text) => Ok(TaskPart::Message { text }),
            Err(e) => Err(e),
        }
    } else if same_text(kind, "reason") {
        match read_text_field(fields, "text") {
            Ok(text) => Ok(TaskPart::Reason { text }),
            Err(e) => Err(e),
        }
    } else if same_text(kind, "file-write-add") {
        let path = match read_text_field(fields, "path") {
            Ok(path) => path,
            Err(e) => { return Err(e); },
        };
        let content = match read_text_field(fields, "content") {
            Ok(content) => content,
            Err(e) => { return Err(e); },
        };
        match read_index_field(fields, "start") {
            Ok(start) => Ok(TaskPart::FileWriteAdd { path, content, start }),
            Err(e) => Err(e),
        }
    } else if same_text(kind, "file-write-replace") {
        let path = match read_text_field(fields, "path") {
            Ok(path) => path,
            Err(e) => { return Err(e); },
        };
        let content = match read_text_field(fields, "content") {
            Ok(content) => content,
            Err(e) => { return Err(e); },
        };
        let start = match read_index_field(fields, "start") {
            Ok(start) => start,
            Err(e) => { return Err(e); },
        };
        match read_index_field(fields, "end") {
            Ok(end) => Ok(TaskPart::FileWriteReplace { path, content, start, end }),
            Err(e) => Err(e),
        }
    } else if same_text(kind, "file-read") {
        match read_text_field(fields, "path") {
            Ok(path) => Ok(TaskPart::FileRead { path }),
            Err(e) => Err(e),
        }
    } else if same_text(kind, "end") {
        match read_text_field(fields, "reason") {
            Ok(reason) => Ok(TaskPart::End { reason }),
            Err(e) => Err(e),
        }
    } else {
        Err(ProtocolError::UnknownKind)
    }
}

/// Decodes one element of the array.
pub fn decode_value(item: &JsonValue) -> (r: Result<TaskPart, ProtocolError>)
    ensures
        part_outcome(r) == decode_item(item@),
{
    match item {
        JsonValue::Object(fields) => match find_field(fields, "type") {
            None => Err(ProtocolError::MissingType),
            Some(JsonValue::Text(kind)) => decode_fields(kind.as_str(), fields),
            Some(_) => Err(ProtocolError::WrongShape),
        },
        _ => Err(ProtocolError::NotAnObject),
    }
}

/// Decodes a JSON document into the directives it stands for. One element
/// that stands for none fails the whole document.
pub fn decode_directives(doc: &JsonValue) -> (r: Result<Vec<TaskPart>, ProtocolError>)
    ensures
        parts_outcome(r) == decode_document(doc@),
{
    match doc {
        JsonValue::Array(items) => {
            let ghost all = trees(items@);
            let mut out: Vec<TaskPart> = Vec::new();
            let mut i: usize = 0;
            assert(directives(out@) + Seq::<Directive>::empty() == directives(out@));
            while i < items.len()
                invariant
                    i <= items.len(),
                    all == trees(items@),
                    all.len() == items.len(),
                    doc@ == JsonTree::Array(all),
                    decode_from(all, 0) == match decode_from(all, i as int) {
                        Ok(rest) => Ok(directives(out@) + rest),
                        Err(e) => Err(e),
                    },
                decreases items.len() - i,
            {
                assert(all[i as int] == items@[i as int]@);
                match decode_value(&items[i]) {
                    Err(e) => {
                        assert(decode_item(all[i as int]) == Err::<Directive, ProtocolError>(e));
                        assert(decode_from(all, i as int) == Err::<Seq<Directive>, ProtocolError>(
                            e,
                        ));
                        return Err(e);
                    },
                    Ok(part) => {
                        proof {
                            let before = directives(out@);
                            let after = directives(out@.push(part));
                            assert(after == before.push(part@));
                            match decode_from(all, i + 1) {
                                Ok(rest) => {
                                    assert(before + (seq![part@] + rest) == after + rest);
                                },
                                Err(_) => {},
                            }
                        }
                        out.push(part);
                    },
                }
                i += 1;
            }
            assert(directives(out@) + Seq::<Directive>::empty() == directives(out@));
            Ok(out)
        },
        _ => Err(ProtocolError::NotAnArray),
    }
}

/// Reads a response in the structured encoding.
pub fn parse_response(response: &str) -> (r: Result<Vec<TaskPart>, ProtocolError>)
    ensures
        parts_outcome(r) == structured_reading(response@),
{
    let bare = strip_fences(response);
    match read_json(bare.as_str()) {
        None => Err(ProtocolError::MalformedJson),
        Some(doc) => decode_directives(&doc),
    }
}

/// The object that stands for a directive in the structured encoding.
pub open spec fn encoding(d: Directive) -> JsonTree {
    match d {
        Directive::Run { command } => JsonTree::Object(
            seq![("type"@, JsonTree::Text("run"@)), ("command"@, JsonTree::Text(command))],
        ),
        Directive::Message { text } => JsonTree::Object(
            seq![("type"@, JsonTree::Text("message"@)), ("text"@, JsonTree::Text(text))],
        ),
        Directive::Reason { text } => JsonTree::Object(
            seq![("type"@, JsonTree::Text("reason"@)), ("text"@, JsonTree::Text(text))],
        ),
        Directive::FileWriteAdd { path, content, start } => JsonTree::Object(
            seq![
                ("type"@, JsonTree::Text("file-write-add"@)),
                ("path"@, JsonTree::Text(path)),
                ("content"@, JsonTree::Text(content)),
                ("start"@, JsonTree::Number(Some(start as u64))),
            ],
        ),
        Directive::FileWriteReplace { path, content, start, end } => JsonTree::Object(
            seq![
                ("type"@, JsonTree::Text("file-write-replace"@)),
                ("path"@, JsonTree::Text(path)),
                ("content"@, JsonTree::Text(content)),
                ("start"@, JsonTree::Number(Some(start as u64))),
                ("end"@, JsonTree::Number(Some(end as u64))),
            ],
        ),
        Directive::FileRead { path } => JsonTree::Object(
            seq![("type"@, JsonTree::Text("file-read"@)), ("path"@, JsonTree::Text(path))],
        ),
        Directive::End { reason } => JsonTree::Object(
            seq![("type"@, JsonTree::Text("end"@)), ("reason"@, JsonTree::Text(reason))],
        ),
    }
}

/// The array that stands for a list of directives in the structured encoding.
pub open spec fn document_of(ds: Seq<Directive>) -> JsonTree {
    JsonTree::Array(ds.map_values(|d: Directive| encoding(d)))
}

/// A named text field.
fn text_member(key: &str, value: &String) -> (r: (String, JsonValue))
    ensures
        r.0@ == key@,
        r.1@ == JsonTree::Text(value@),
{
    (owned(key), JsonValue::Text(value.clone()))
}

/// A named line index field.
fn index_member(key: &str, value: u32) -> (r: (String, JsonValue))
    ensures
        r.0@ == key@,
        r.1@ == JsonTree::Number(Some(value as u64)),
{
    (owned(key), JsonValue::Number(Some(value as u64)))
}

/// Encodes a directive as an object.
pub fn encode_part(part: &TaskPart) -> (r: JsonValue)
    ensures
        r@ == encoding(part@),
{
    let mut fields: Vec<(String, JsonValue)> = Vec::new();
    match part {
        TaskPart::Run { command } => {
            fields.push(text_member("type", &owned("run")));
            fields.push(text_member("command", command));
        },
        TaskPart::Message { text } => {
            fields.push(text_member("type", &owned("message")));
            fields.push(text_member("text", text));
        },
        TaskPart::Reason { text } => {
            fields.push(text_member("type", &owned("reason")));
            fields.push(text_member("text", text));
        },
        TaskPart::FileWriteAdd { path, content, start } => {
            fields.push(text_member("type", &owned("file-write-add")));
            fields.push(text_member("path", path));
            fields.push(text_member("content", content));
            fields.push(index_member("start", *start));
        },
        TaskPart::FileWriteReplace { path, content, start, end } => {
            fields.push(text_member("type", &owned("file-write-replace")));
            fields.push(text_member("path", path));
            fields.push(text_member("content", content));
            fields.push(index_member("start", *start));
            fields.push(index_member("end", *end));
        },
        TaskPart::FileRead { path } => {
            fields.push(text_member("type", &owned("file-read")));
            fields.push(text_member("path", path));
        },
        TaskPart::End { reason } => {
            fields.push(text_member("type", &owned("end")));
            fields.push(text_member("reason", reason));
        },
    }
    proof {
        let want = encoding(part@);
        assert(want matches JsonTree::Object(fs) && fs =~= members(fields@));
    }
    JsonValue::Object(fields)
}

/// Encodes a list of directives as an array.
pub fn encode_directives(parts: &Vec<TaskPart>) -> (r: JsonValue)
    ensures
        r@ == document_of(directives(parts@)),
{
    let mut items: Vec<JsonValue> = Vec::new();
    let mut i: usize = 0;
    while i < parts.len()
        invariant
            i <= parts.len(),
            items.len() == i,
            forall|j: int| 0 <= j < i ==> (#[trigger] items@[j])@ == encoding(parts@[j]@),
        decreases parts.len() - i,
    {
        items.push(encode_part(&parts[i]));
        i += 1;
    }
    proof {
        let want = directives(parts@).map_values(|d: Directive| encoding(d));
        assert(trees(items@) =~= want);
    }
    JsonValue::Array(items)
}

/// The words of the encoding differ from one another.
proof fn lemma_words_differ()
    ensures
        "type"@ != "command"@,
        "type"@ != "text"@,
        "type"@ != "path"@,
        "type"@ != "content"@,
        "type"@ != "start"@,
        "type"@ != "end"@,
        "type"@ != "reason"@,
        "path"@ != "content"@,
        "path"@ != "start"@,
        "path"@ != "end"@,
        "content"@ != "start"@,
        "content"@ != "end"@,
        "start"@ != "end"@,
        "run"@ != "message"@,
        "run"@ != "reason"@,
        "run"@ != "file-write-add"@,
        "run"@ != "file-write-replace"@,
        "run"@ != "file-read"@,
        "run"@ != "end"@,
        "message"@ != "reason"@,
        "message"@ != "file-write-add"@,
        "message"@ != "file-write-replace"@,
        "message"@ != "file-read"@,
        "message"@ != "end"@,
        "reason"@ != "file-write-add"@,
        "reason"@ != "file-write-replace"@,
        "reason"@ != "file-read"@,
        "reason"@ != "end"@,
        "file-write-add"@ != "file-write-replace"@,
        "file-write-add"@ != "file-read"@,
        "file-write-add"@ != "end"@,
        "file-write-replace"@ != "file-read"@,
        "file-write-replace"@ != "end"@,
        "file-read"@ != "end"@,
{
    reveal_strlit("type");
    reveal_strlit("command");
    reveal_strlit("text");
    reveal_strlit("path");
    reveal_strlit("content");
    reveal_strlit("start");
    reveal_strlit("end");
    reveal_strlit("reason");
    reveal_strlit("run");
    reveal_strlit("message");
    reveal_strlit("file-write-add");
    reveal_strlit("file-write-replace");
    reveal_strlit("file-read");
    assert("reason"@.len() == 6);
    assert("file-write-add"@.len() == 14);
    assert("file-write-replace"@.len() == 18);
    assert("file-read"@.len() == 9);
    assert("message"@.len() == 7);
    assert("run"@.len() == 3);
    assert("end"@.len() == 3);
    assert("type"@[1] != "text"@[1]);
    assert("type"@[0] != "path"@[0]);
    assert("run"@[0] != "end"@[0]);
    assert("path"@[0] != "end"@[0]);
    assert("message"@[0] != "content"@[0]);
    assert("type"@[0] != "end"@[0]);
}

/// Decoding the encoding of a directive gives the directive back, field for
/// field. This holds of all seven kinds.
pub proof fn lemma_decode_inverts_encode(d: Directive)
    ensures
        decode_item(encoding(d)) == Ok::<Directive, ProtocolError>(d),
{
    lemma_words_differ();
    reveal_with_fuel(lookup_from, 6);
    match d {
        Directive::FileWriteAdd { path, content, start } => {
            assert((start as u64) as u32 == start);
        },
        Directive::FileWriteReplace { path, content, start, end } => {
            assert((start as u64) as u32 == start);
            assert((end as u64) as u32 == end);
        },
        _ => {},
    }
}

/// Decoding the encoding of a list of directives gives the list back.
pub proof fn lemma_decode_inverts_encode_all(ds: Seq<Directive>)
    ensures
        decode_document(document_of(ds)) == Ok::<Seq<Directive>, ProtocolError>(ds),
{
    let items = ds.map_values(|d: Directive| encoding(d));
    lemma_decode_tail(ds, 0);
    assert(ds.skip(0) == ds);
}

/// Decoding the encodings from index `i` on gives the directives from `i` on.
proof fn lemma_decode_tail(ds: Seq<Directive>, i: int)
    requires
        0 <= i <= ds.len(),
    ensures
        decode_from(ds.map_values(|d: Directive| encoding(d)), i) == Ok::<
            Seq<Directive>,
            ProtocolError,
        >(ds.skip(i)),
    decreases ds.len() - i,
{
    let items = ds.map_values(|d: Directive| encoding(d));
    if i == ds.len() {
        assert(ds.skip(i) == Seq::<Directive>::empty());
    } else {
        lemma_decode_inverts_encode(ds[i]);
        lemma_decode_tail(ds, i + 1);
        assert(items[i] == encoding(ds[i]));
        assert(seq![ds[i]] + ds.skip(i + 1) == ds.skip(i));
    }
}

/// A response reads the same with a fence around it as without: wrapped in a
/// tagged fence, or in a bare one where the text does not itself begin with
/// the language tag. The text inside must not begin or end with a fence
/// marker of its own, which would be taken away when it is read alone.
pub proof fn lemma_fence_is_transparent(inner: Seq<char>)
    requires
        unfenced(inner),
    ensures
        structured_reading(tagged_fenced(inner)) == structured_reading(inner),
        !"json"@.is_prefix_of(inner) ==> structured_reading(bare_fenced(inner))
            == structured_reading(inner),
{
    lemma_unfenced_strips_to_itself(inner);
    lemma_tagged_fence_strips(inner);
    if !"json"@.is_prefix_of(inner) {
        lemma_bare_fence_strips(inner);
    }
}

/// One element that stands for no directive fails the whole document:
/// nothing of what stands before it is kept.
pub proof fn lemma_one_bad_element_fails(items: Seq<JsonTree>, i: int)
    requires
        0 <= i < items.len(),
        decode_item(items[i]) is Err,
    ensures
        decode_document(JsonTree::Array(items)) is Err,
{
    lemma_bad_element_fails_from(items, i, 0);
}

/// An element at or after `from` that stands for no directive fails the
/// decoding from `from` on.
proof fn lemma_bad_element_fails_from(items: Seq<JsonTree>, i: int, from: int)
    requires
        0 <= from <= i < items.len(),
        decode_item(items[i]) is Err,
    ensures
        decode_from(items, from) is Err,
    decreases i - from,
{
    if from < i {
        lemma_bad_element_fails_from(items, i, from + 1);
    }
}

} // verus!
