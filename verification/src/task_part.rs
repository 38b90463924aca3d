//! The directives that a response can hold.

use vstd::prelude::*;
use crate::error::ProtocolError;

verus! {

/// One typed action unit of a response.
#[derive(Debug, Clone, PartialEq, Eq)]
pub enum TaskPart {
    /// Run a command through the system shell.
    Run { command: String },
    /// Show a text to the operator.
    Message { text: String },
    /// Record why the next actions are taken.
    Reason { text: String },
    /// Insert `content` as one new line before the 0-based line `start`.
    FileWriteAdd { path: String, content: String, start: u32 },
    /// Replace the lines from `start` up to `end` by the one line `content`.
    FileWriteReplace { path: String, content: String, start: u32, end: u32 },
    /// Read a file and report its numbered lines.
    FileRead { path: String },
    /// End the session once this response has been carried out.
    End { reason: String },
}

/// The mathematical value of a [`TaskPart`].
pub enum Directive {
    Run { command: Seq<char> },
    Message { text: Seq<char> },
    Reason { text: Seq<char> },
    FileWriteAdd { path: Seq<char>, content: Seq<char>, start: u32 },
    FileWriteReplace { path: Seq<char>, content: Seq<char>, start: u32, end: u32 },
    FileRead { path: Seq<char> },
    End { reason: Seq<char> },
}

impl View for TaskPart {
    type V = Directive;

    open spec fn view(&self) -> Directive {
        match self {
            TaskPart::Run { command } => Directive::Run { command: command@ },
            TaskPart::Message { text } => Directive::Message { text: text@ },
            TaskPart::Reason { text } => Directive::Reason { text: text@ },
            TaskPart::FileWriteAdd { path, content, start } => Directive::FileWriteAdd {
                path: path@,
                content: content@,
                start: *start,
            },
            TaskPart::FileWriteReplace { path, content, start, end } => Directive::FileWriteReplace {
                path: path@,
                content: content@,
                start: *start,
                end: *end,
            },
            TaskPart::FileRead { path } => Directive::FileRead { path: path@ },
            TaskPart::End { reason } => Directive::End { reason: reason@ },
        }
    }
}

/// The directives that a list of parts stands for, in the same order.
pub open spec fn directives(parts: Seq<TaskPart>) -> Seq<Directive> {
    parts.map_values(|p: TaskPart| p@)
}

/// What the outcome of reading one directive stands for.
pub open spec fn part_outcome(r: Result<TaskPart, ProtocolError>) -> Result<
    Directive,
    ProtocolError,
> {
    match r {
        Ok(p) => Ok(p@),
        Err(e) => Err(e),
    }
}

/// What the outcome of reading a response stands for.
pub open spec fn parts_outcome(r: Result<Vec<TaskPart>, ProtocolError>) -> Result<
    Seq<Directive>,
    ProtocolError,
> {
    match r {
        Ok(ps) => Ok(directives(ps@)),
        Err(e) => Err(e),
    }
}

impl TaskPart {
    /// A copy of this part.
    pub fn duplicate(&self) -> (r: TaskPart)
        ensures
            r@ == self@,
    {
        match self {
            TaskPart::Run { command } => TaskPart::Run { command: command.clone() },
            TaskPart::Message { text } => TaskPart::Message { text: text.clone() },
            TaskPart::Reason { text } => TaskPart::Reason { text: text.clone() },
            TaskPart::FileWriteAdd { path, content, start } => TaskPart::FileWriteAdd {
                path: path.clone(),
                content: content.clone(),
                start: *start,
            },
            TaskPart::FileWriteReplace { path, content, start, end } => TaskPart::FileWriteReplace {
                path: path.clone(),
                content: content.clone(),
                start: *start,
                end: *end,
            },
            TaskPart::FileRead { path } => TaskPart::FileRead { path: path.clone() },
            TaskPart::End { reason } => TaskPart::End { reason: reason.clone() },
        }
    }

    /// Whether this part ends the session.
    pub fn is_end(&self) -> (r: bool)
        ensures
            r == (self@ is End),
    {
        match self {
            TaskPart::End { .. } => true,
            _ => false,
        }
    }
}

} // verus!
