//! Glue between an editor's extension host and the `dang` language server.
//!
//! The host asks three things of a language-server extension: how to start
//! the server, which initialization options to send it, and which workspace
//! configuration to send it. The host owns the search path and the settings
//! store; this crate owns the decisions made on what they returned, and states
//! each of them as a contract.

pub mod extension;
pub mod launch;
pub mod settings;
