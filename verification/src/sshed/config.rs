//! Configuration of `sshed`: where it listens, where its token is, and what
//! it offers.

use vstd::prelude::*;

use crate::paths::{expand_tilde, expand_tilde_spec, home_unset_message, join_path, path_join};
use crate::text::{clone_strings, concat3, opt_string_view, opt_view, trim, trim_str, views};

verus! {

/// The configuration file of `sshed`.
#[derive(Debug)]
pub struct SshedConfig {
    pub listen_addr: Option<String>,
    pub token_file: Option<String>,
    pub capabilities: Option<Vec<String>>,
}

/// The settings `sshed` runs with.
#[derive(Debug, Clone)]
pub struct FinalConfig {
    pub listen_addr: String,
    pub token_file: String,
    pub capabilities: Vec<String>,
}

/// The settings `sshed` runs with, strings taken by their characters.
pub struct FinalConfigView {
    pub listen_addr: Seq<char>,
    pub token_file: Seq<char>,
    pub capabilities: Seq<Seq<char>>,
}

impl View for FinalConfig {
    type V = FinalConfigView;

    open spec fn view(&self) -> FinalConfigView {
        FinalConfigView {
            listen_addr: self.listen_addr@,
            token_file: self.token_file@,
            capabilities: views(self.capabilities@),
        }
    }
}

/// The token file: the configured one with `~` expanded, else
/// `.config/sshe/sshed.token` under the home directory.
pub open spec fn token_file_spec(configured: Option<Seq<char>>, home: Option<Seq<char>>) -> Result<
    Seq<char>,
    Seq<char>,
> {
    match configured {
        Some(p) => expand_tilde_spec(p, home),
        None => match home {
            Some(h) => Ok(join_path(h, ".config/sshe/sshed.token"@)),
            None => Err(home_unset_message()),
        },
    }
}

/// Where the token is read from.
pub fn resolve_token_file(configured: Option<&str>, home: Option<&str>) -> (r: Result<String, String>)
    ensures
        crate::paths::result_view(r) == token_file_spec(opt_view(configured), opt_view(home)),
{
    match configured {
        Some(p) => expand_tilde(p, home),
        None => match home {
            Some(h) => Ok(path_join(h, ".config/sshe/sshed.token")),
            None => Err(String::from_str("HOME is not set")),
        },
    }
}

/// The settings with defaults filled in: listening on `127.0.0.1:8022` and
/// offering `hello.v1` unless configured otherwise.
pub open spec fn resolve_spec(config: SshedConfig, home: Option<Seq<char>>) -> Result<
    FinalConfigView,
    Seq<char>,
> {
    match token_file_spec(opt_string_view(config.token_file), home) {
        Err(e) => Err(e),
        Ok(token_file) => Ok(
            FinalConfigView {
                listen_addr: match config.listen_addr {
                    Some(a) => a@,
                    None => "127.0.0.1:8022"@,
                },
                token_file,
                capabilities: match config.capabilities {
                    Some(c) => views(c@),
                    None => seq!["hello.v1"@],
                },
            },
        ),
    }
}

/// The view of a resolution result.
pub open spec fn final_result_view(r: Result<FinalConfig, String>) -> Result<
    FinalConfigView,
    Seq<char>,
> {
    match r {
        Ok(c) => Ok(c@),
        Err(e) => Err(e@),
    }
}

impl SshedConfig {
    /// The settings `sshed` runs with. `home` is the value of `HOME`.
    pub fn resolve(self, home: Option<&str>) -> (r: Result<FinalConfig, String>)
        ensures
            final_result_view(r) == resolve_spec(self, opt_view(home)),
    {
        let configured = match &self.token_file {
            Some(p) => Some(p.as_str()),
            None => None,
        };
        let token_file = match resolve_token_file(configured, home) {
            Ok(p) => p,
            Err(e) => return Err(e),
        };
        let listen_addr = match &self.listen_addr {
            Some(a) => a.clone(),
            None => String::from_str("127.0.0.1:8022"),
        };
        let capabilities = match &self.capabilities {
            Some(c) => clone_strings(c),
            None => {
                let mut v: Vec<String> = Vec::new();
                v.push(String::from_str("hello.v1"));
                assert(views(v@) =~= seq!["hello.v1"@]);
                v
            },
        };
        Ok(FinalConfig { listen_addr, token_file, capabilities })
    }
}

/// The token held by a token file: its contents trimmed of white space; an
/// empty token is refused.
pub open spec fn token_spec(path: Seq<char>, contents: Seq<char>) -> Result<Seq<char>, Seq<char>> {
    if trim(contents).len() == 0 {
        Err("token file "@ + path + " is empty"@)
    } else {
        Ok(trim(contents))
    }
}

/// The token held by the file at `path`, from its contents.
pub fn token_from_contents(path: &str, contents: &str) -> (r: Result<String, String>)
    ensures
        crate::paths::result_view(r) == token_spec(path@, contents@),
{
    let token = trim_str(contents);
    if token.as_str().unicode_len() == 0 {
        Err(concat3("token file ", path, " is empty"))
    } else {
        Ok(token)
    }
}

} // verus!
