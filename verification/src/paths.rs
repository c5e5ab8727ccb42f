//! Path text: joining a relative path onto a base, and expanding a leading
//! `~` with the home directory.

use vstd::prelude::*;

use crate::text::{chars_of, concat2, concat3, opt_string_view, opt_view, trim, trim_str};

verus! {

/// `base` joined with `rel` as `Path::join` does on Unix: an absolute `rel`
/// replaces `base`; otherwise a `/` goes between them unless `base` is empty
/// or already ends with one.
pub open spec fn join_path(base: Seq<char>, rel: Seq<char>) -> Seq<char> {
    if rel.len() > 0 && rel[0] == '/' {
        rel
    } else if base.len() == 0 || base.last() == '/' {
        base + rel
    } else {
        base + "/"@ + rel
    }
}

/// `base` joined with `rel`.
pub fn path_join(base: &str, rel: &str) -> (r: String)
    ensures
        r@ == join_path(base@, rel@),
{
    let vb = chars_of(base);
    let vr = chars_of(rel);
    if vr.len() > 0 && vr[0] == '/' {
        String::from_str(rel)
    } else if vb.len() == 0 || vb[vb.len() - 1] == '/' {
        concat2(base, rel)
    } else {
        concat3(base, "/", rel)
    }
}

/// The error when the home directory is needed and unknown.
pub open spec fn home_unset_message() -> Seq<char> {
    "HOME is not set"@
}

/// `path` with a leading `~` (alone, or followed by `/`) replaced by `home`.
pub open spec fn expand_tilde_spec(path: Seq<char>, home: Option<Seq<char>>) -> Result<
    Seq<char>,
    Seq<char>,
> {
    if path.len() == 1 && path[0] == '~' {
        match home {
            Some(h) => Ok(h),
            None => Err(home_unset_message()),
        }
    } else if path.len() >= 2 && path[0] == '~' && path[1] == '/' {
        match home {
            Some(h) => Ok(h + "/"@ + path.skip(2)),
            None => Err(home_unset_message()),
        }
    } else {
        Ok(path)
    }
}

/// The characters of a string result.
pub open spec fn result_view(r: Result<String, String>) -> Result<Seq<char>, Seq<char>> {
    match r {
        Ok(s) => Ok(s@),
        Err(e) => Err(e@),
    }
}

/// Expands a leading `~` in `path` with `home`, the value of `HOME`
/// (`None` where it is not set).
pub fn expand_tilde(path: &str, home: Option<&str>) -> (r: Result<String, String>)
    ensures
        result_view(r) == expand_tilde_spec(path@, opt_view(home)),
{
    let v = chars_of(path);
    let n = v.len();
    if n == 1 && v[0] == '~' {
        match home {
            Some(h) => Ok(String::from_str(h)),
            None => Err(String::from_str("HOME is not set")),
        }
    } else if n >= 2 && v[0] == '~' && v[1] == '/' {
        match home {
            Some(h) => {
                let rest = path.substring_char(2, n);
                Ok(concat3(h, "/", rest))
            },
            None => Err(String::from_str("HOME is not set")),
        }
    } else {
        Ok(String::from_str(path))
    }
}

/// What resolving a host needs to know of the running system: the value of
/// `HOME` (`None` where it is not set), and the output of `id -u` (the text
/// it printed, or the message of why it could not be run or read).
pub struct HostEnvironment {
    pub home: Option<String>,
    pub uid_output: Result<String, String>,
}

/// `/run/user/<uid>/sshe/<file>`, with the uid trimmed of white space.
pub open spec fn run_user_path_spec(uid_output: Result<String, String>, file: Seq<char>) -> Result<
    Seq<char>,
    Seq<char>,
> {
    match uid_output {
        Ok(out) => Ok("/run/user/"@ + trim(out@) + "/sshe/"@ + file),
        Err(e) => Err(e@),
    }
}

/// The per-user runtime path of `file`, from the output of `id -u`.
pub fn run_user_path(uid_output: &Result<String, String>, file: &str) -> (r: Result<String, String>)
    ensures
        result_view(r) == run_user_path_spec(*uid_output, file@),
{
    match uid_output {
        Ok(out) => {
            let uid = trim_str(out.as_str());
            let mut p = concat3("/run/user/", uid.as_str(), "/sshe/");
            p.append(file);
            Ok(p)
        },
        Err(e) => Err(e.clone()),
    }
}

/// The cache path: the configured one with `~` expanded, else the per-user
/// runtime path of `file`.
pub open spec fn cache_path_spec(path: Option<Seq<char>>, env: HostEnvironment, file: Seq<char>) -> Result<
    Seq<char>,
    Seq<char>,
> {
    match path {
        Some(p) => expand_tilde_spec(p, opt_string_view(env.home)),
        None => run_user_path_spec(env.uid_output, file),
    }
}

/// Where the cache file is: `path` if configured, else the default.
pub fn resolve_cache_path(path: Option<&str>, env: &HostEnvironment, file: &str) -> (r: Result<
    String,
    String,
>)
    ensures
        result_view(r) == cache_path_spec(opt_view(path), *env, file@),
{
    match path {
        Some(p) => {
            let home = match &env.home {
                Some(h) => Some(h.as_str()),
                None => None,
            };
            expand_tilde(p, home)
        },
        None => run_user_path(&env.uid_output, file),
    }
}

} // verus!
