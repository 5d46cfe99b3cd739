//! Patterns: the operations and the commands that drive them.

pub mod common;
pub mod laws;
pub mod commands;
