//! Command-line surface: the commands, their flag rules, output styling and
//! the per-command logic that does not touch the outside world.
pub mod cli;
pub mod commands;
pub mod output;
pub mod types;
