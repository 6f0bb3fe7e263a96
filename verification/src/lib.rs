//! Argument-list expansion for an interactive command-line shell.
//!
//! Given raw source text holding a whitespace-separated argument list, the
//! library parses it and expands each argument in turn (variable substitution
//! against a variable store), accumulating the expanded strings up to a
//! result limit carried by a shared operation context, and stopping early on
//! parse failure, expansion failure, or cancellation.

pub mod ast;
pub mod env;
pub mod expand;
pub mod job_group;
pub mod operation_context;
pub mod parser;
