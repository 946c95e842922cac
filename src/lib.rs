//! Decision logic of a chat bot that compiles and runs code snippets in a
//! sandbox: the language table, command-line tokenizing, command routing, the
//! compile/run pipeline as a state machine, and the formatting of replies.

pub mod archive;
pub mod args;
pub mod command;
pub mod dispatch;
pub mod language;
pub mod outcome;
pub mod pipeline;
pub mod text;
