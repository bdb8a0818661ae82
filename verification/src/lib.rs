//! Resolution of the launch command for the Sentry MCP context server.

pub mod command;
pub mod configuration;
pub mod entrypoint;
pub mod error;
pub mod extension;
pub mod install;
pub mod names;
pub mod progress;
pub mod replies;
pub mod settings;
pub mod text;
