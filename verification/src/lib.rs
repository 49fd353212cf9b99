//! Host-side core of a webview desktop shell.
//!
//! The crate holds the decisions that the shell makes between the user
//! interface and the operating system: the write-once store of default
//! settings, the naming of persisted artifacts, the capture of an OAuth
//! redirect, the closed set of commands, and the start-up sequence. Input and
//! output stay with the caller, which hands in what it read and carries out
//! what the functions here return.

pub mod argument;
pub mod bootstrap;
pub mod command;
pub mod error;
pub mod oauth;
pub mod persistence;
pub mod settings;
pub mod store;
