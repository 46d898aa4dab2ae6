//! Record types of the run store.
pub mod workflow_run;
