//! Command line of `ssher`.

use vstd::prelude::*;

use crate::args::{candidates_spec, candidates_view, choose_config_path, choose_spec, config_candidates};
use crate::paths::result_view;
use crate::text::{opt_string_view, opt_view, views};

verus! {

/// The command line of `ssher`, as OpenSSH's `ProxyCommand` gives it.
#[derive(Debug)]
pub struct Args {
    /// The configuration file given on the command line.
    pub config_file: Option<String>,
    /// Whether to skip the cache and probe again.
    pub refresh_cache: bool,
    /// Whether to report what was chosen.
    pub verbose: bool,
    /// The logical host name (`%n`).
    pub host: String,
    /// The port to connect to (`%p`).
    pub port: u16,
}

impl Args {
    /// The port must be between 1 and 65535.
    pub fn check_port(&self) -> (r: Result<(), String>)
        ensures
            r is Ok <==> self.port != 0,
            r matches Err(e) ==> e@ == "--port must be between 1 and 65535"@,
    {
        if self.port == 0 {
            Err(String::from_str("--port must be between 1 and 65535"))
        } else {
            Ok(())
        }
    }

    /// The files where the configuration is looked for, in order. `home` is
    /// the value of `HOME`.
    pub fn config_path_candidates(&self, home: Option<&str>) -> (r: Result<Vec<String>, String>)
        ensures
            candidates_view(r) == candidates_spec(
                opt_string_view(self.config_file),
                opt_view(home),
                ".ssh/ssher.toml"@,
                ".config/ssher.toml"@,
                ".config/sshe/ssher_config.toml"@,
            ),
    {
        let explicit = match &self.config_file {
            Some(p) => Some(p.as_str()),
            None => None,
        };
        config_candidates(
            explicit,
            home,
            ".ssh/ssher.toml",
            ".config/ssher.toml",
            ".config/sshe/ssher_config.toml",
        )
    }

    /// The configuration file to use, given which of the candidates are
    /// regular files; the default places are listed separated by `", "`.
    pub fn resolve_config_path(&self, candidates: &Vec<String>, is_file: &Vec<bool>) -> (r: Result<
        String,
        String,
    >)
        requires
            is_file@.len() == candidates@.len(),
            self.config_file is Some ==> is_file@.len() >= 1,
        ensures
            result_view(r) == choose_spec(
                opt_string_view(self.config_file),
                views(candidates@),
                is_file@,
                ", "@,
            ),
    {
        let explicit = match &self.config_file {
            Some(p) => Some(p.as_str()),
            None => None,
        };
        choose_config_path(explicit, candidates, is_file, ", ")
    }
}

} // verus!
