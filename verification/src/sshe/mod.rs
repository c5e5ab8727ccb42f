//! The `sshe` client: configuration, cached selection results and
//! endpoint selection.

pub mod cache;
pub mod config;
pub mod selector;
