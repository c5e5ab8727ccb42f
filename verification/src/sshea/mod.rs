//! `sshea`, the agent-side client of `sshed`: command line and configuration.

pub mod args;
pub mod config;
