//! What the command line gives to a run.

use vstd::prelude::*;
use crate::text::trim;

verus! {

/// The arguments of a run.
#[derive(Debug, Clone, PartialEq, Eq)]
pub struct Args {
    /// The task to carry out.
    pub task: Option<String>,
    /// The persona to adopt.
    pub persona: Option<String>,
}

/// The task of a run: the one given as an argument, or else the line that
/// the operator typed, without the white space at its ends.
pub open spec fn task_of(task: Option<String>, typed: Seq<char>) -> Seq<char> {
    match task {
        Some(t) => t@,
        None => crate::text::trimmed(typed),
    }
}

impl Args {
    /// Whether the operator has to be asked for the task.
    pub fn needs_task(&self) -> (r: bool)
        ensures
            r == (self.task is None),
    {
        self.task.is_none()
    }

    /// The task of this run. `typed` is the line that the operator typed
    /// when asked; it is read only where no task was given as an argument.
    pub fn get_task(&self, typed: &str) -> (r: String)
        ensures
            r@ == task_of(self.task, typed@),
    {
        match &self.task {
            Some(task) => task.clone(),
            None => trim(typed),
        }
    }
}

} // verus!
