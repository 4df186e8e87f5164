//! The decisions behind each command of the program.

pub mod build_command;
pub mod init;
pub mod install;
pub mod list;
pub mod uninstall;
pub mod update;
pub mod use_version;
