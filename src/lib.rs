//! Engine of an interactive shell that manages one selected webhook: line
//! tokenizing, command lookup, context-sensitive completion, the command state
//! machine and input history.

pub mod tokenizer;
pub mod text;
pub mod commands;
pub mod completion;
pub mod session;
pub mod history;
pub mod json;
pub mod dispatch;
