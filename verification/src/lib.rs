//! Endpoint selection, configuration resolution, result caching and the
//! agent handshake protocol of the `sshe` tool family, with their contracts.

pub mod args;
pub mod clock;
pub mod config;
pub mod paths;
pub mod protocol;
pub mod selector;
pub mod sshe;
pub mod ssher;
pub mod sshea;
pub mod sshed;
pub mod strmap;
pub mod text;
