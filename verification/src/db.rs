//! Database locations and the records that the run store writes.
pub mod connection;
pub mod db;
pub mod entities;
