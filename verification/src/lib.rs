//! Workflow orchestration library: command-line resolution, tmux and docker
//! command planning, IPC message handling and run-status bookkeeping.
pub mod text;
pub mod json;
pub mod domain;
pub mod db;
pub mod app;
