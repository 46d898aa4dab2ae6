//! The logic of each command.
pub mod init;
pub mod make;
pub mod manage;
pub mod work;
