//! A per-workspace registry of named shell commands with typed parameters.

pub mod builder;
pub mod command;
pub mod config;
pub mod invoker;
pub mod parser;
pub mod session;
pub mod table;
