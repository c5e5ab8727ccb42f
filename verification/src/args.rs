//! Command line of the `sshe` wrapper, and where each tool looks for its
//! configuration file.

use vstd::prelude::*;

use crate::paths::{join_path, path_join};
use crate::text::{concat2, join, join_strings, opt_string_view, opt_view, views};

verus! {

/// The command line of the `sshe` wrapper.
#[derive(Debug)]
pub struct Args {
    /// The configuration file given on the command line.
    pub config_file: Option<String>,
    /// Whether to report what was chosen.
    pub verbose: bool,
    /// The logical host name.
    pub host_name: String,
    /// The arguments handed on to ssh.
    pub ssh_args: Vec<String>,
}

/// The error when no configuration file was given and `HOME` is unknown.
pub open spec fn home_unset_config_message() -> Seq<char> {
    "HOME is not set, cannot determine default config path"@
}

/// The files to look at, in order: the one given, else the three default
/// places under the home directory.
pub open spec fn candidates_spec(
    explicit: Option<Seq<char>>,
    home: Option<Seq<char>>,
    first: Seq<char>,
    second: Seq<char>,
    third: Seq<char>,
) -> Result<Seq<Seq<char>>, Seq<char>> {
    match explicit {
        Some(p) => Ok(seq![p]),
        None => match home {
            None => Err(home_unset_config_message()),
            Some(h) => Ok(seq![join_path(h, first), join_path(h, second), join_path(h, third)]),
        },
    }
}

/// The view of a list of candidate paths.
pub open spec fn candidates_view(r: Result<Vec<String>, String>) -> Result<Seq<Seq<char>>, Seq<char>> {
    match r {
        Ok(v) => Ok(views(v@)),
        Err(e) => Err(e@),
    }
}

/// The files where a configuration is looked for.
pub fn config_candidates(
    explicit: Option<&str>,
    home: Option<&str>,
    first: &str,
    second: &str,
    third: &str,
) -> (r: Result<Vec<String>, String>)
    ensures
        candidates_view(r) == candidates_spec(opt_view(explicit), opt_view(home), first@, second@, third@),
{
    match explicit {
        Some(p) => {
            let mut v: Vec<String> = Vec::new();
            v.push(String::from_str(p));
            assert(views(v@) =~= seq![p@]);
            Ok(v)
        },
        None => match home {
            None => Err(String::from_str("HOME is not set, cannot determine default config path")),
            Some(h) => {
                let mut v: Vec<String> = Vec::new();
                v.push(path_join(h, first));
                v.push(path_join(h, second));
                v.push(path_join(h, third));
                assert(views(v@) =~= seq![
                    join_path(h@, first@),
                    join_path(h@, second@),
                    join_path(h@, third@),
                ]);
                Ok(v)
            },
        },
    }
}

/// `i` is the first position whose file exists.
pub open spec fn first_existing(exists: Seq<bool>, i: int) -> bool {
    0 <= i < exists.len() && exists[i] && forall|j: int| 0 <= j < i ==> !exists[j]
}

/// The configuration file to use: the one given if it is a regular file,
/// else the first default place that holds one. `is_file[i]` tells whether
/// `candidates[i]` is a regular file; the error lists the default places
/// separated by `sep`.
pub open spec fn choose_spec(
    explicit: Option<Seq<char>>,
    candidates: Seq<Seq<char>>,
    is_file: Seq<bool>,
    sep: Seq<char>,
) -> Result<Seq<char>, Seq<char>> {
    match explicit {
        Some(p) => if is_file[0] {
            Ok(p)
        } else {
            Err("config file does not exist or is not a regular file: "@ + p)
        },
        None => if exists|i: int| first_existing(is_file, i) {
            Ok(candidates[choose|i: int| first_existing(is_file, i)])
        } else {
            Err("default config file does not exist: "@ + join(candidates, sep))
        },
    }
}

/// With no file given, the configuration used is the first candidate, in
/// order, that is a regular file; there is an error exactly when none is.
/// A file given is used exactly when it is a regular file.
pub proof fn lemma_first_existing_place(
    explicit: Option<Seq<char>>,
    candidates: Seq<Seq<char>>,
    is_file: Seq<bool>,
    sep: Seq<char>,
)
    requires
        is_file.len() == candidates.len(),
        explicit is Some ==> is_file.len() >= 1,
    ensures
        explicit is None ==> forall|i: int|
            0 <= i < is_file.len() && #[trigger] is_file[i] && (forall|j: int|
                0 <= j < i ==> !is_file[j]) ==> choose_spec(explicit, candidates, is_file, sep)
                == Ok::<Seq<char>, Seq<char>>(candidates[i]),
        explicit is None ==> (choose_spec(explicit, candidates, is_file, sep) is Err <==> forall|i: int|
            0 <= i < is_file.len() ==> !#[trigger] is_file[i]),
        explicit matches Some(p) ==> (choose_spec(explicit, candidates, is_file, sep) is Ok
            <==> is_file[0]),
        explicit matches Some(p) ==> (choose_spec(explicit, candidates, is_file, sep) matches Ok(q)
            ==> q == p),
{
    if explicit is None {
        assert forall|i: int|
            0 <= i < is_file.len() && #[trigger] is_file[i] && (forall|j: int|
                0 <= j < i ==> !is_file[j]) implies choose_spec(explicit, candidates, is_file, sep)
            == Ok::<Seq<char>, Seq<char>>(candidates[i]) by {
            assert(first_existing(is_file, i));
            let k = choose|k: int| first_existing(is_file, k);
            assert(first_existing(is_file, k));
            if k < i {
                assert(!is_file[k]);
            }
            if i < k {
                assert(!is_file[i]);
            }
        }
        if exists|i: int| 0 <= i < is_file.len() && is_file[i] {
            let i0 = choose|i: int| 0 <= i < is_file.len() && is_file[i];
            lemma_some_first_existing(is_file, i0);
        }
    }
}

/// Where some position holds a file, a first such position exists.
proof fn lemma_some_first_existing(is_file: Seq<bool>, i: int)
    requires
        0 <= i < is_file.len(),
        is_file[i],
    ensures
        exists|k: int| first_existing(is_file, k),
    decreases i,
{
    if forall|j: int| 0 <= j < i ==> !is_file[j] {
        assert(first_existing(is_file, i));
    } else {
        let j = choose|j: int| 0 <= j < i && is_file[j];
        lemma_some_first_existing(is_file, j);
    }
}

/// Chooses the configuration file among the candidates.
pub fn choose_config_path(
    explicit: Option<&str>,
    candidates: &Vec<String>,
    is_file: &Vec<bool>,
    sep: &str,
) -> (r: Result<String, String>)
    requires
        is_file@.len() == candidates@.len(),
        explicit is Some ==> is_file@.len() >= 1,
    ensures
        crate::paths::result_view(r) == choose_spec(opt_view(explicit), views(candidates@), is_file@, sep@),
        explicit is None ==> forall|i: int|
            0 <= i < is_file@.len() && #[trigger] is_file@[i] && (forall|j: int|
                0 <= j < i ==> !is_file@[j]) ==> (r matches Ok(p) && p@ == candidates@[i]@),
        explicit is None ==> (r is Err <==> forall|i: int|
            0 <= i < is_file@.len() ==> !#[trigger] is_file@[i]),
        explicit matches Some(p) ==> (r is Ok <==> is_file@[0]),
        explicit matches Some(p) ==> (r matches Ok(q) ==> q@ == p@),
{
    proof {
        lemma_first_existing_place(opt_view(explicit), views(candidates@), is_file@, sep@);
        assert forall|i: int| 0 <= i < candidates@.len() implies #[trigger] views(candidates@)[i]
            == candidates@[i]@ by {}
    }
    match explicit {
        Some(p) => {
            if is_file[0] {
                Ok(String::from_str(p))
            } else {
                Err(concat2("config file does not exist or is not a regular file: ", p))
            }
        },
        None => {
            let n = is_file.len();
            let mut i: usize = 0;
            while i < n
                invariant
                    i <= n,
                    n == is_file@.len(),
                    n == candidates@.len(),
                    explicit is None,
                    forall|j: int| 0 <= j < i ==> !is_file@[j],
                decreases n - i,
            {
                if is_file[i] {
                    proof {
                        assert(first_existing(is_file@, i as int));
                        let k = choose|k: int| first_existing(is_file@, k);
                        assert(first_existing(is_file@, k));
                        assert(k == i);
                        assert(views(candidates@)[i as int] == candidates@[i as int]@);
                    }
                    return Ok(candidates[i].clone());
                }
                i = i + 1;
            }
            assert(!exists|k: int| first_existing(is_file@, k));
            let listed = join_strings(candidates, sep);
            Err(concat2("default config file does not exist: ", listed.as_str()))
        },
    }
}

impl Args {
    /// The files where the configuration is looked for, in order. `home` is
    /// the value of `HOME`.
    pub fn config_path_candidates(&self, home: Option<&str>) -> (r: Result<Vec<String>, String>)
        ensures
            candidates_view(r) == candidates_spec(
                opt_string_view(self.config_file),
                opt_view(home),
                ".ssh/sshe.toml"@,
                ".config/sshe.toml"@,
                ".config/sshe/config.toml"@,
            ),
    {
        let explicit = match &self.config_file {
            Some(p) => Some(p.as_str()),
            None => None,
        };
        config_candidates(explicit, home, ".ssh/sshe.toml", ".config/sshe.toml", ".config/sshe/config.toml")
    }

    /// The configuration file to use, given which of the candidates are
    /// regular files; the default places are listed separated by spaces.
    pub fn resolve_config_path(&self, candidates: &Vec<String>, is_file: &Vec<bool>) -> (r: Result<
        String,
        String,
    >)
        requires
            is_file@.len() == candidates@.len(),
            self.config_file is Some ==> is_file@.len() >= 1,
        ensures
            crate::paths::result_view(r) == choose_spec(
                opt_string_view(self.config_file),
                views(candidates@),
                is_file@,
                " "@,
            ),
    {
        let explicit = match &self.config_file {
            Some(p) => Some(p.as_str()),
            None => None,
        };
        choose_config_path(explicit, candidates, is_file, " ")
    }
}

} // verus!
