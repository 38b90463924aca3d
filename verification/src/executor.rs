//! What carrying out one directive asks of the outside world, and what the
//! answer means.
//!
//! The library runs no command and touches no file. For each directive it
//! names the one thing to be done outside, and on the answer it says what is
//! reported back to the model, what is to be written, or why the run fails.

use vstd::prelude::*;
use vstd::string::StringExecFns;
use crate::error::RunError;
use crate::lines::{
    add_line, listing, listing_of, maybe_text, replace_in_text, text_with_line,
    text_with_replacement,
};
use crate::task_part::{Directive, TaskPart};
use crate::text::{joined, owned};

verus! {

/// What the agent asks the outside world to do next.
#[derive(Debug, Clone, PartialEq, Eq)]
pub enum Action {
    /// Send the transcript and the instruction to the model; answer with `Reply`.
    Ask,
    /// Run the command through the system shell; answer with `Exited`.
    Spawn { command: String },
    /// Show the text to the operator; answer with `Done`.
    Show { text: String },
    /// Record the text in the trace; answer with `Done`.
    Trace { text: String },
    /// Read the file; answer with `Loaded`.
    Read { path: String },
    /// Write the content to the file; answer with `Done`.
    Write { path: String, content: String },
    /// The run is over.
    Finish,
    /// The run fails.
    Abort { error: RunError },
}

/// The mathematical value of an [`Action`].
pub enum ActionView {
    Ask,
    Spawn { command: Seq<char> },
    Show { text: Seq<char> },
    Trace { text: Seq<char> },
    Read { path: Seq<char> },
    Write { path: Seq<char>, content: Seq<char> },
    Finish,
    Abort { error: RunError },
}

impl View for Action {
    type V = ActionView;

    open spec fn view(&self) -> ActionView {
        match self {
            Action::Ask => ActionView::Ask,
            Action::Spawn { command } => ActionView::Spawn { command: command@ },
            Action::Show { text } => ActionView::Show { text: text@ },
            Action::Trace { text } => ActionView::Trace { text: text@ },
            Action::Read { path } => ActionView::Read { path: path@ },
            Action::Write { path, content } => ActionView::Write {
                path: path@,
                content: content@,
            },
            Action::Finish => ActionView::Finish,
            Action::Abort { error } => ActionView::Abort { error: *error },
        }
    }
}

/// What the outside world answers.
#[derive(Debug, Clone, PartialEq, Eq)]
pub enum Event {
    /// The model's completion.
    Reply { text: String },
    /// A command has ended: what it wrote to standard output and to standard
    /// error, and its exit status in words.
    Exited { output: String, error: String, status: String },
    /// A file was read, or could not be read.
    Loaded { content: Option<String> },
    /// A text was shown or recorded, or a file was written.
    Done,
}

/// The view of an optional string.
pub open spec fn content_view(t: Option<String>) -> Option<Seq<char>> {
    match t {
        Some(s) => Some(s@),
        None => None,
    }
}

/// One section of the report on a command.
pub open spec fn section(title: Seq<char>, command: Seq<char>, body: Seq<char>) -> Seq<char> {
    title + command + "` is:\n```\n"@ + body + "\n```"@
}

/// The report on a command that has ended: its output, its error output and
/// its status, each in a section of its own.
pub open spec fn run_report(
    command: Seq<char>,
    output: Seq<char>,
    error: Seq<char>,
    status: Seq<char>,
) -> Seq<char> {
    section("The output of the command `"@, command, output) + section(
        "The error of the command `"@,
        command,
        error,
    ) + section("The status of the command `"@, command, status)
}

/// The report on a file that was to be read: its numbered lines, or the
/// notice that it does not exist.
pub open spec fn read_report(path: Seq<char>, content: Option<Seq<char>>) -> Seq<char> {
    match content {
        Some(text) => section("The content of the file `"@, path, listing_of(text)),
        None => "The file `"@ + path + "` does not exist."@,
    }
}

/// What the answer to a directive's request means.
pub enum Settled {
    /// The directive is done. The text, if any, goes back to the model.
    Feedback { text: Option<String> },
    /// The content is to be written to the file, and then the directive is done.
    Store { path: String, content: String },
    /// The run fails.
    Failed { error: RunError },
}

/// The mathematical value of a [`Settled`].
pub enum SettledView {
    Feedback { text: Option<Seq<char>> },
    Store { path: Seq<char>, content: Seq<char> },
    Failed { error: RunError },
}

impl View for Settled {
    type V = SettledView;

    open spec fn view(&self) -> SettledView {
        match self {
            Settled::Feedback { text } => SettledView::Feedback { text: content_view(*text) },
            Settled::Store { path, content } => SettledView::Store {
                path: path@,
                content: content@,
            },
            Settled::Failed { error } => SettledView::Failed { error: *error },
        }
    }
}

/// What carrying out a directive asks for first. `End` asks for nothing.
pub open spec fn request_of(d: Directive) -> Option<ActionView> {
    match d {
        Directive::Run { command } => Some(ActionView::Spawn { command }),
        Directive::Message { text } => Some(ActionView::Show { text }),
        Directive::Reason { text } => Some(ActionView::Trace { text }),
        Directive::FileRead { path } => Some(ActionView::Read { path }),
        Directive::FileWriteAdd { path, .. } => Some(ActionView::Read { path }),
        Directive::FileWriteReplace { path, .. } => Some(ActionView::Read { path }),
        Directive::End { .. } => None,
    }
}

/// What the answer `event` means for the directive `d`.
///
/// A command that has ended is reported in full. A message or a reason gives
/// nothing back. A file that was read is reported with numbered lines; one
/// that could not be read is reported as missing, and the run goes on. To
/// insert a line, a missing file counts as empty; to replace lines, a missing
/// file fails the run. An answer of the wrong kind fails the run.
pub open spec fn settle_of(d: Directive, event: Event) -> SettledView {
    match d {
        Directive::Run { command } => match event {
            Event::Exited { output, error, status } => SettledView::Feedback {
                text: Some(run_report(command, output@, error@, status@)),
            },
            _ => SettledView::Failed { error: RunError::OutOfTurn },
        },
        Directive::Message { .. } | Directive::Reason { .. } => match event {
            Event::Done => SettledView::Feedback { text: None },
            _ => SettledView::Failed { error: RunError::OutOfTurn },
        },
        Directive::FileRead { path } => match event {
            Event::Loaded { content } => SettledView::Feedback {
                text: Some(read_report(path, content_view(content))),
            },
            _ => SettledView::Failed { error: RunError::OutOfTurn },
        },
        Directive::FileWriteAdd { path, content, start } => match event {
            Event::Loaded { content: existing } => match text_with_line(
                content_view(existing),
                start,
                content,
            ) {
                Ok(text) => SettledView::Store { path, content: text },
                Err(e) => SettledView::Failed { error: RunError::Edit(e) },
            },
            _ => SettledView::Failed { error: RunError::OutOfTurn },
        },
        Directive::FileWriteReplace { path, content, start, end } => match event {
            Event::Loaded { content: Some(existing) } => match text_with_replacement(
                existing@,
                start,
                end,
                content,
            ) {
                Ok(text) => SettledView::Store { path, content: text },
                Err(e) => SettledView::Failed { error: RunError::Edit(e) },
            },
            Event::Loaded { content: None } => SettledView::Failed { error: RunError::MissingFile },
            _ => SettledView::Failed { error: RunError::OutOfTurn },
        },
        Directive::End { .. } => SettledView::Failed { error: RunError::OutOfTurn },
    }
}

/// Writes one section of a report.
fn write_section(title: &str, command: &str, body: &str) -> (r: String)
    ensures
        r@ == section(title@, command@, body@),
{
    let mut out = joined(title, command);
    out.append("` is:\n```\n");
    out.append(body);
    out.append("\n```");
    out
}

/// Writes the report on a command that has ended.
pub fn report_run(command: &str, output: &str, error: &str, status: &str) -> (r: String)
    ensures
        r@ == run_report(command@, output@, error@, status@),
{
    let mut out = write_section("The output of the command `", command, output);
    let second = write_section("The error of the command `", command, error);
    let third = write_section("The status of the command `", command, status);
    out.append(second.as_str());
    out.append(third.as_str());
    out
}

/// Writes the report on a file that was to be read.
pub fn report_read(path: &str, content: Option<&str>) -> (r: String)
    ensures
        r@ == read_report(path@, maybe_text(content)),
{
    match content {
        Some(text) => {
            let lines = listing(text);
            write_section("The content of the file `", path, lines.as_str())
        },
        None => {
            let mut out = joined("The file `", path);
            out.append("` does not exist.");
            out
        },
    }
}

/// What carrying out `part` asks for first.
pub fn request(part: &TaskPart) -> (r: Option<Action>)
    ensures
        match r {
            Some(action) => request_of(part@) == Some(action@),
            None => request_of(part@) is None,
        },
{
    match part {
        TaskPart::Run { command } => Some(Action::Spawn { command: command.clone() }),
        TaskPart::Message { text } => Some(Action::Show { text: text.clone() }),
        TaskPart::Reason { text } => Some(Action::Trace { text: text.clone() }),
        TaskPart::FileRead { path } => Some(Action::Read { path: path.clone() }),
        TaskPart::FileWriteAdd { path, .. } => Some(Action::Read { path: path.clone() }),
        TaskPart::FileWriteReplace { path, .. } => Some(Action::Read { path: path.clone() }),
        TaskPart::End { .. } => None,
    }
}

/// What the answer `event` means for `part`.
pub fn settle(part: &TaskPart, event: &Event) -> (r: Settled)
    ensures
        r@ == settle_of(part@, *event),
{
    match part {
        TaskPart::Run { command } => match event {
            Event::Exited { output, error, status } => Settled::Feedback {
                text: Some(
                    report_run(command.as_str(), output.as_str(), error.as_str(), status.as_str()),
                ),
            },
            _ => Settled::Failed { error: RunError::OutOfTurn },
        },
        TaskPart::Message { .. } => match event {
            Event::Done => Settled::Feedback { text: None },
            _ => Settled::Failed { error: RunError::OutOfTurn },
        },
        TaskPart::Reason { .. } => match event {
            Event::Done => Settled::Feedback { text: None },
            _ => Settled::Failed { error: RunError::OutOfTurn },
        },
        TaskPart::FileRead { path } => match event {
            Event::Loaded { content } => {
                let text = match content {
                    Some(text) => report_read(path.as_str(), Some(text.as_str())),
                    None => report_read(path.as_str(), None),
                };
                Settled::Feedback { text: Some(text) }
            },
            _ => Settled::Failed { error: RunError::OutOfTurn },
        },
        TaskPart::FileWriteAdd { path, content, start } => match event {
            Event::Loaded { content: existing } => {
                let edited = match existing {
                    Some(text) => add_line(Some(text.as_str()), *start, content.as_str()),
                    None => add_line(None, *start, content.as_str()),
                };
                match edited {
                    Ok(text) => Settled::Store { path: path.clone(), content: text },
                    Err(e) => Settled::Failed { error: RunError::Edit(e) },
                }
            },
            _ => Settled::Failed { error: RunError::OutOfTurn },
        },
        TaskPart::FileWriteReplace { path, content, start, end } => match event {
            Event::Loaded { content: Some(existing) } => {
                match replace_in_text(existing.as_str(), *start, *end, content.as_str()) {
                    Ok(text) => Settled::Store { path: path.clone(), content: text },
                    Err(e) => Settled::Failed { error: RunError::Edit(e) },
                }
            },
            Event::Loaded { content: None } => Settled::Failed { error: RunError::MissingFile },
            _ => Settled::Failed { error: RunError::OutOfTurn },
        },
        TaskPart::End { .. } => Settled::Failed { error: RunError::OutOfTurn },
    }
}

} // verus!
