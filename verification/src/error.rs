//! The ways in which a response or an edit can be refused.

use vstd::prelude::*;
use crate::text::{joined, owned};

verus! {

/// Why a response could not be read as a list of directives.
#[derive(Debug, Clone, Copy, PartialEq, Eq, Structural)]
pub enum ProtocolError {
    /// The text is not JSON.
    MalformedJson,
    /// The JSON document is not an array.
    NotAnArray,
    /// An element of the array is not an object.
    NotAnObject,
    /// An object has no `type` field.
    MissingType,
    /// The `type` field names none of the seven kinds.
    UnknownKind,
    /// A field that the kind needs is absent.
    MissingField,
    /// A field holds a value of the wrong JSON type.
    WrongShape,
    /// A line index is negative, fractional, too large, or not a number.
    BadNumber,
    /// Text other than white space stands where a tag is expected.
    UnexpectedText,
    /// A tag is opened and never closed.
    UnterminatedTag,
    /// A tag's name is none of those that may stand there.
    UnknownTag,
}

/// Why a line edit could not be made.
#[derive(Debug, Clone, Copy, PartialEq, Eq, Structural)]
pub enum EditError {
    /// The place to insert at lies past the end of the file.
    StartPastEnd,
    /// The range to replace does not lie within the file.
    RangeOutOfBounds,
}

/// Why a run was given up.
#[derive(Debug, Clone, Copy, PartialEq, Eq, Structural)]
pub enum RunError {
    /// The response could not be read.
    Protocol(ProtocolError),
    /// A file whose lines were to be replaced does not exist.
    MissingFile,
    /// A line edit was refused.
    Edit(EditError),
    /// An event arrived that answers no request of the agent.
    OutOfTurn,
}

impl ProtocolError {
    /// What the error means, in words.
    pub open spec fn message_of(self) -> Seq<char> {
        match self {
            ProtocolError::MalformedJson => "the response is not JSON"@,
            ProtocolError::NotAnArray => "the response is not an array"@,
            ProtocolError::NotAnObject => "an element of the response is not an object"@,
            ProtocolError::MissingType => "a directive has no type"@,
            ProtocolError::UnknownKind => "a directive is of an unknown kind"@,
            ProtocolError::MissingField => "a directive lacks a field"@,
            ProtocolError::WrongShape => "a field holds a value of the wrong shape"@,
            ProtocolError::BadNumber => "a line index is not a number that can be used"@,
            ProtocolError::UnexpectedText => "text stands where a tag is expected"@,
            ProtocolError::UnterminatedTag => "a tag is never closed"@,
            ProtocolError::UnknownTag => "a tag is not known"@,
        }
    }

    /// What the error means, in words.
    pub fn message(&self) -> (r: String)
        ensures
            r@ == self.message_of(),
    {
        match self {
            ProtocolError::MalformedJson => owned("the response is not JSON"),
            ProtocolError::NotAnArray => owned("the response is not an array"),
            ProtocolError::NotAnObject => owned("an element of the response is not an object"),
            ProtocolError::MissingType => owned("a directive has no type"),
            ProtocolError::UnknownKind => owned("a directive is of an unknown kind"),
            ProtocolError::MissingField => owned("a directive lacks a field"),
            ProtocolError::WrongShape => owned("a field holds a value of the wrong shape"),
            ProtocolError::BadNumber => owned("a line index is not a number that can be used"),
            ProtocolError::UnexpectedText => owned("text stands where a tag is expected"),
            ProtocolError::UnterminatedTag => owned("a tag is never closed"),
            ProtocolError::UnknownTag => owned("a tag is not known"),
        }
    }
}

impl EditError {
    /// What the error means, in words.
    pub open spec fn message_of(self) -> Seq<char> {
        match self {
            EditError::StartPastEnd => "the line to insert at lies past the end of the file"@,
            EditError::RangeOutOfBounds => "the lines to replace do not lie within the file"@,
        }
    }

    /// What the error means, in words.
    pub fn message(&self) -> (r: String)
        ensures
            r@ == self.message_of(),
    {
        match self {
            EditError::StartPastEnd => owned("the line to insert at lies past the end of the file"),
            EditError::RangeOutOfBounds => owned("the lines to replace do not lie within the file"),
        }
    }
}

impl RunError {
    /// What the error means, in words.
    pub open spec fn message_of(self) -> Seq<char> {
        match self {
            RunError::Protocol(e) => "the response could not be read: "@ + e.message_of(),
            RunError::MissingFile => "a file whose lines were to be replaced does not exist"@,
            RunError::Edit(e) => "a file could not be edited: "@ + e.message_of(),
            RunError::OutOfTurn => "an event arrived out of turn"@,
        }
    }

    /// What the error means, in words.
    pub fn message(&self) -> (r: String)
        ensures
            r@ == self.message_of(),
    {
        match self {
            RunError::Protocol(e) => joined(
                "the response could not be read: ",
                e.message().as_str(),
            ),
            RunError::MissingFile => owned("a file whose lines were to be replaced does not exist"),
            RunError::Edit(e) => joined("a file could not be edited: ", e.message().as_str()),
            RunError::OutOfTurn => owned("an event arrived out of turn"),
        }
    }
}

} // verus!
