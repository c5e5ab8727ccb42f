//! Configuration of `sshea`: which server to reach, where the token is, and
//! the name to introduce itself by.

use vstd::prelude::*;

use crate::sshed::config::{resolve_token_file, token_file_spec};
use crate::text::{opt_string_view, opt_view};

verus! {

/// The configuration file of `sshea`.
#[derive(Debug)]
pub struct SsheaConfig {
    pub server_addr: Option<String>,
    pub token_file: Option<String>,
    pub client_name: Option<String>,
}

/// The settings `sshea` runs with.
#[derive(Debug, Clone)]
pub struct FinalConfig {
    pub server_addr: String,
    pub token_file: String,
    pub client_name: String,
}

/// The settings `sshea` runs with, strings taken by their characters.
pub struct FinalConfigView {
    pub server_addr: Seq<char>,
    pub token_file: Seq<char>,
    pub client_name: Seq<char>,
}

impl View for FinalConfig {
    type V = FinalConfigView;

    open spec fn view(&self) -> FinalConfigView {
        FinalConfigView {
            server_addr: self.server_addr@,
            token_file: self.token_file@,
            client_name: self.client_name@,
        }
    }
}

/// The settings with defaults filled in: server `127.0.0.1:8022`, client
/// name `sshea`, and the token file as `sshed` finds it.
pub open spec fn resolve_spec(config: SsheaConfig, home: Option<Seq<char>>) -> Result<
    FinalConfigView,
    Seq<char>,
> {
    match token_file_spec(opt_string_view(config.token_file), home) {
        Err(e) => Err(e),
        Ok(token_file) => Ok(
            FinalConfigView {
                server_addr: match config.server_addr {
                    Some(a) => a@,
                    None => "127.0.0.1:8022"@,
                },
                token_file,
                client_name: match config.client_name {
                    Some(n) => n@,
                    None => "sshea"@,
                },
            },
        ),
    }
}

/// The view of a resolution result.
pub open spec fn final_result_view(r: Result<FinalConfig, String>) -> Result<
    FinalConfigView,
    Seq<char>,
> {
    match r {
        Ok(c) => Ok(c@),
        Err(e) => Err(e@),
    }
}

impl SsheaConfig {
    /// The settings `sshea` runs with. `home` is the value of `HOME`.
    pub fn resolve(self, home: Option<&str>) -> (r: Result<FinalConfig, String>)
        ensures
            final_result_view(r) == resolve_spec(self, opt_view(home)),
    {
        let configured = match &self.token_file {
            Some(p) => Some(p.as_str()),
            None => None,
        };
        let token_file = match resolve_token_file(configured, home) {
            Ok(p) => p,
            Err(e) => return Err(e),
        };
        let server_addr = match &self.server_addr {
            Some(a) => a.clone(),
            None => String::from_str("127.0.0.1:8022"),
        };
        let client_name = match &self.client_name {
            Some(n) => n.clone(),
            None => String::from_str("sshea"),
        };
        Ok(FinalConfig { server_addr, token_file, client_name })
    }
}

impl FinalConfig {
    /// The settings with the command line's server address and token file,
    /// where given, in place of the configured ones.
    pub fn with_overrides(self, server_addr: Option<String>, token_file: Option<String>) -> (r:
        FinalConfig)
        ensures
            r.server_addr == match server_addr {
                Some(a) => a,
                None => self.server_addr,
            },
            r.token_file == match token_file {
                Some(t) => t,
                None => self.token_file,
            },
            r.client_name == self.client_name,
    {
        let mut c = self;
        if let Some(a) = server_addr {
            c.server_addr = a;
        }
        if let Some(t) = token_file {
            c.token_file = t;
        }
        c
    }
}

} // verus!
