//! An agent that works on a task in a terminal by talking to a language model.
//!
//! The model answers with directives: run a command, show a message, read a
//! file, insert or replace lines, end the session. This library reads those
//! answers, decides what is to be done for each directive, and keeps the
//! conversation. It performs nothing itself: whoever drives it runs the
//! commands, reads and writes the files and talks to the model.

pub mod agent;
pub mod agent_tool;
pub mod cli;
pub mod config;
pub mod error;
pub mod executor;
pub mod fence;
pub mod gemini;
pub mod json;
pub mod lines;
pub mod parser;
pub mod persona;
pub mod prompt;
pub mod structured;
pub mod task_part;
pub mod text;
