//! The configuration of a run: where the system prompt comes from, and where
//! the personas lie.

use vstd::prelude::*;
use crate::text::owned;

verus! {

/// Where the system prompt comes from: a file, a text given inline, or both.
#[derive(Debug, Clone, PartialEq, Eq)]
pub struct SystemPrompt {
    pub file_path: Option<String>,
    pub inline_text: Option<String>,
}

/// The configuration of a run.
#[derive(Debug, Clone, PartialEq, Eq)]
pub struct Config {
    pub system_prompt: Option<SystemPrompt>,
    pub persona_dir: String,
}

/// The system prompt used where the configuration gives none.
pub open spec fn default_prompt() -> Seq<char> {
    "You are a helpful AI assistant."@
}

/// The file that the system prompt is to be read from, if one is named.
pub open spec fn named_file(prompt: Option<SystemPrompt>) -> Option<Seq<char>> {
    match prompt {
        Some(p) => match p.file_path {
            Some(path) => Some(path@),
            None => None,
        },
        None => None,
    }
}

/// The system prompt of a run. `file_text` is what was read from the file
/// that the configuration names, where it names one and the file could be
/// read. The file comes first, then the inline text, then the default.
pub open spec fn chosen_prompt(prompt: Option<SystemPrompt>, file_text: Option<Seq<char>>) -> Seq<
    char,
> {
    match prompt {
        Some(p) => if p.file_path is Some && file_text is Some {
            file_text->0
        } else {
            match p.inline_text {
                Some(text) => text@,
                None => default_prompt(),
            }
        },
        None => default_prompt(),
    }
}

/// The view of an optional text.
pub open spec fn text_view(t: Option<&str>) -> Option<Seq<char>> {
    match t {
        Some(s) => Some(s@),
        None => None,
    }
}

impl Config {
    /// A configuration with the given prompt source and persona directory.
    pub fn new(system_prompt: Option<SystemPrompt>, persona_dir: &str) -> (r: Self)
        ensures
            r.system_prompt == system_prompt,
            r.persona_dir@ == persona_dir@,
    {
        Self { system_prompt, persona_dir: owned(persona_dir) }
    }

    /// The directory that holds the personas.
    pub fn persona_dir(&self) -> (r: &str)
        ensures
            r@ == self.persona_dir@,
    {
        self.persona_dir.as_str()
    }

    /// The file that the system prompt is to be read from, if the
    /// configuration names one.
    pub fn prompt_file(&self) -> (r: Option<&str>)
        ensures
            text_view(r) == named_file(self.system_prompt),
    {
        match &self.system_prompt {
            Some(p) => match &p.file_path {
                Some(path) => Some(path.as_str()),
                None => None,
            },
            None => None,
        }
    }

    /// The system prompt of the run. `file_text` holds what was read from
    /// the file that `prompt_file` names, or `None` where there is no such
    /// file or it could not be read.
    pub fn get_system_prompt(&self, file_text: Option<&str>) -> (r: String)
        ensures
            r@ == chosen_prompt(self.system_prompt, text_view(file_text)),
    {
        match &self.system_prompt {
            Some(p) => {
                if p.file_path.is_some() {
                    if let Some(text) = file_text {
                        return owned(text);
                    }
                }
                match &p.inline_text {
                    Some(text) => text.clone(),
                    None => owned("You are a helpful AI assistant."),
                }
            },
            None => owned("You are a helpful AI assistant."),
        }
    }
}

} // verus!
