//! Project logic: IPC messages, tmux and docker planning, tickets, runners.
pub mod ipc;
pub mod tmux;
pub mod codebase_id;
pub mod docker;
pub mod project;
pub mod runtime;
pub mod tickets;
pub mod runner;
pub mod capabilities;
pub mod daemon;
pub mod opencode;
pub mod embeds;
pub mod opencode_config;
pub mod settings;
