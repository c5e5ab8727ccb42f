//! `sshed`, the agent-side server: command line and configuration.

pub mod args;
pub mod config;
