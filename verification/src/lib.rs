//! Decision logic of a desktop notifier for GitHub notifications.
//!
//! Everything here is a function from plain values to plain values: command
//! lines to run, requests to send, notifications to display and file contents
//! to store. Running commands, talking to the network and touching the disk
//! are left to the caller.

pub mod cli;
pub mod command_line;
pub mod errors;
pub mod file_operations;
pub mod notifier;
pub mod notify;
pub mod poll;
pub mod request;
pub mod text;
pub mod token;
