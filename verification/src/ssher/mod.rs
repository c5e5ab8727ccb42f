//! `ssher`, the endpoint chooser that OpenSSH runs as its `ProxyCommand`:
//! command line, configuration, cached results and endpoint selection.

pub mod args;
pub mod cache;
pub mod config;
pub mod policy;
pub mod selector;
