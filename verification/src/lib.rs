//! An interactive terminal pseudo-shell: classifies typed command lines into
//! execution plans, tracks the input and output buffers, and models the
//! terminal-mode state machine that brackets fullscreen child processes.

pub mod plan;
pub mod prompt;
pub mod shell;
pub mod terminal;
pub mod text;
