//! A persona that the agent can adopt.

use vstd::prelude::*;
use crate::text::owned;

verus! {

/// A persona: who the agent is to be, and how it is to behave.
#[derive(Debug, Clone, PartialEq, Eq)]
pub struct Persona {
    name: String,
    description: String,
    instructions: String,
    allow_personas_as_tools: Option<bool>,
}

/// The mathematical value of a [`Persona`].
pub struct PersonaView {
    pub name: Seq<char>,
    pub description: Seq<char>,
    pub instructions: Seq<char>,
    pub allow_personas_as_tools: Option<bool>,
}

impl View for Persona {
    type V = PersonaView;

    closed spec fn view(&self) -> PersonaView {
        PersonaView {
            name: self.name@,
            description: self.description@,
            instructions: self.instructions@,
            allow_personas_as_tools: self.allow_personas_as_tools,
        }
    }
}

impl Persona {
    /// A persona made of its four parts.
    pub fn new(
        name: &str,
        description: &str,
        instructions: &str,
        allow_personas_as_tools: Option<bool>,
    ) -> (r: Self)
        ensures
            r@ == (PersonaView {
                name: name@,
                description: description@,
                instructions: instructions@,
                allow_personas_as_tools,
            }),
    {
        Self {
            name: owned(name),
            description: owned(description),
            instructions: owned(instructions),
            allow_personas_as_tools,
        }
    }

    /// The persona's name.
    pub fn name(&self) -> (r: &str)
        ensures
            r@ == self@.name,
    {
        self.name.as_str()
    }

    /// A short description of the persona.
    pub fn description(&self) -> (r: &str)
        ensures
            r@ == self@.description,
    {
        self.description.as_str()
    }

    /// The instructions that the persona gives to the model.
    pub fn instructions(&self) -> (r: &str)
        ensures
            r@ == self@.instructions,
    {
        self.instructions.as_str()
    }

    /// Whether the other personas are offered to this one as tools. Where
    /// the persona does not say, they are not.
    pub fn allow_personas_as_tools(&self) -> (r: bool)
        ensures
            r == (self@.allow_personas_as_tools == Some(true)),
    {
        match self.allow_personas_as_tools {
            Some(allow) => allow,
            None => false,
        }
    }
}

} // verus!
