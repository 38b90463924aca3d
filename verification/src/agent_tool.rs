//! A tool that the model may call: a name, what it does, and the command
//! that runs it.

use vstd::prelude::*;
use crate::text::owned;

verus! {

/// A callable tool that is offered to the model.
#[derive(Debug, Clone, PartialEq, Eq)]
pub struct AgentTool {
    name: String,
    description: String,
    execution_command: String,
}

/// The mathematical value of an [`AgentTool`].
pub struct ToolView {
    pub name: Seq<char>,
    pub description: Seq<char>,
    pub execution_command: Seq<char>,
}

impl View for AgentTool {
    type V = ToolView;

    closed spec fn view(&self) -> ToolView {
        ToolView {
            name: self.name@,
            description: self.description@,
            execution_command: self.execution_command@,
        }
    }
}

impl AgentTool {
    /// A tool with the given name, description and command.
    pub fn new(name: &str, description: &str, execution_command: &str) -> (r: Self)
        ensures
            r@ == (ToolView {
                name: name@,
                description: description@,
                execution_command: execution_command@,
            }),
    {
        Self {
            name: owned(name),
            description: owned(description),
            execution_command: owned(execution_command),
        }
    }

    /// The tool's name.
    pub fn name(&self) -> (r: &str)
        ensures
            r@ == self@.name,
    {
        self.name.as_str()
    }

    /// What the tool does.
    pub fn description(&self) -> (r: &str)
        ensures
            r@ == self@.description,
    {
        self.description.as_str()
    }

    /// The command that runs the tool.
    pub fn execution_command(&self) -> (r: &str)
        ensures
            r@ == self@.execution_command,
    {
        self.execution_command.as_str()
    }
}

} // verus!
