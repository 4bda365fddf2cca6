//! An interactive-shell core: a quoting-aware lexer, a pipeline/redirection
//! command builder, builtin-command dispatch decisions, and the pure wiring
//! logic of a pipeline executor. All observable behaviour is stated in
//! contracts; the surrounding program supplies the terminal, the filesystem
//! and the processes.

pub mod command;
pub mod dispatch;
pub mod executor;
pub mod lexer;
pub mod strutil;
pub mod token;
