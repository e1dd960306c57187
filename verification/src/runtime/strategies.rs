//! Finding PostgreSQL installations on a system.
//!
//! A directory holds a runtime when it holds a `pg_ctl` executable.
//! Finding candidate directories is what stands here; probing each
//! candidate's version — running its `pg_ctl --version` — is the
//! caller's business, who then builds [`Runtime`][crate::runtime::Runtime]
//! values with [`Runtime::new`][crate::runtime::Runtime::new] and can
//! combine them into a [`StrategySet`][crate::runtime::StrategySet].

use vstd::prelude::*;
use vstd::string::StrSliceExecFns;
use vstd::string::StringExecFns;

use crate::cluster::path_is_file;
use crate::util::{spec_split_colon, split_colon};

verus! {

/// Find runtimes on a given path, or on `PATH` (from the environment).
///
/// The path is a `:`-separated list of directories, following the
/// convention of the `PATH` environment variable.
#[derive(Clone, Debug)]
pub enum RuntimesOnPath {
    /// Find runtimes on the given path.
    Custom(String),
    /// Find runtimes on `PATH`: the caller reads the variable from the
    /// environment and hands its value in.
    Env,
}

impl RuntimesOnPath {
    /// The directories of `path` that hold a `pg_ctl` executable. Which
    /// of them do depends on the filesystem; what is promised is that
    /// every directory returned is a segment of `path`.
    pub fn find_on_path(path: &str) -> (r: Vec<String>)
        ensures
            forall|k: int|
                0 <= k < r@.len() ==> spec_split_colon(path@).contains(#[trigger] r@[k]@),
    {
        let segs = split_colon(path);
        let mut found: Vec<String> = Vec::new();
        let mut i: usize = 0;
        while i < segs.len()
            invariant
                i <= segs@.len(),
                segs@.len() == spec_split_colon(path@).len(),
                forall|k: int|
                    0 <= k < segs@.len() ==> #[trigger] segs@[k]@ == spec_split_colon(path@)[k],
                forall|k: int|
                    0 <= k < found@.len() ==> spec_split_colon(path@).contains(
                        #[trigger] found@[k]@,
                    ),
            decreases segs@.len() - i,
        {
            let mut probe = segs[i].clone();
            probe.append("/pg_ctl");
            if path_is_file(probe.as_str()) {
                proof {
                    assert(spec_split_colon(path@).contains(segs@[i as int]@)) by {
                        assert(spec_split_colon(path@)[i as int] == segs@[i as int]@);
                    };
                }
                found.push(segs[i].clone());
            }
            i = i + 1;
        }
        found
    }

    /// The candidate directories this strategy searches: its own, for
    /// [`RuntimesOnPath::Custom`]; for [`RuntimesOnPath::Env`] the
    /// caller reads the `PATH` environment variable and hands its value
    /// in (`None` when the variable is not set at all). Every directory
    /// returned is a segment of the path that was searched.
    pub fn candidate_bindirs(&self, env_path: Option<&str>) -> (r: Vec<String>)
        ensures
            self matches RuntimesOnPath::Custom(own) ==> forall|k: int|
                0 <= k < r@.len() ==> spec_split_colon(own@).contains(#[trigger] r@[k]@),
            self is Env ==> (env_path matches Some(given) ==> forall|k: int|
                0 <= k < r@.len() ==> spec_split_colon(given@).contains(#[trigger] r@[k]@)),
            self is Env && env_path is None ==> r@.len() == 0,
    {
        match self {
            RuntimesOnPath::Custom(path) => Self::find_on_path(path.as_str()),
            RuntimesOnPath::Env => match env_path {
                Some(path) => Self::find_on_path(path),
                None => Vec::new(),
            },
        }
    }
}

/// Find runtimes using platform-specific knowledge: on Debian and
/// Ubuntu, each installed version of PostgreSQL keeps its binaries in a
/// subdirectory of `/usr/lib/postgresql`.
#[derive(Clone, Debug)]
pub struct RuntimesOnPlatform;

/// Relies on `glob::glob`: the paths that currently match `pattern`, in
/// lexical order, each converted to text (lossily, where a path is not
/// valid UTF-8); entries the walk could not read are dropped, as are
/// ill-formed patterns. All of it depends on what is on disk, so
/// nothing is claimed of the result.
#[verifier::external_body]
fn glob_paths(pattern: &str) -> (r: Vec<String>) {
    match glob::glob(pattern) {
        Err(_) => Vec::new(),
        Ok(paths) => paths.filter_map(|entry| entry.ok()).map(
            |path| path.to_string_lossy().into_owned(),
        ).collect(),
    }
}

/// Does the path end in `/pg_ctl`?
pub open spec fn spec_pg_ctl_path(path: Seq<char>) -> bool {
    path.len() >= 7 && path.subrange(path.len() - 7, path.len() as int) == "/pg_ctl"@
}

/// The decision behind [`RuntimesOnPlatform::find`]: the directory of a
/// path that ends in `/pg_ctl`, and `None` for any other path.
pub fn bindir_of(path: &str) -> (r: Option<String>)
    ensures
        r is Some <==> spec_pg_ctl_path(path@),
        r matches Some(d) ==> d@ == path@.subrange(0, path@.len() - 7),
{
    let n = path.unicode_len();
    if n >= 7 {
        let tail = path.substring_char(n - 7, n).to_owned();
        let suffix = String::from_str("/pg_ctl");
        if tail == suffix {
            Some(path.substring_char(0, n - 7).to_owned())
        } else {
            None
        }
    } else {
        None
    }
}

impl RuntimesOnPlatform {
    /// Find runtimes using platform-specific knowledge (Linux).
    ///
    /// For example: on Debian and Ubuntu, check `/usr/lib/postgresql`.
    /// Returns the `bin` directory of every installation found. What the
    /// glob walk reports depends on the disk; how each hit is turned
    /// into a directory is [`bindir_of`]'s exact contract.
    pub fn find() -> (r: Vec<String>) {
        let hits = glob_paths("/usr/lib/postgresql/*/bin/pg_ctl");
        let mut bindirs: Vec<String> = Vec::new();
        let mut i: usize = 0;
        while i < hits.len()
            decreases hits@.len() - i,
        {
            let hit = &hits[i];
            if path_is_file(hit.as_str()) {
                match bindir_of(hit.as_str()) {
                    Some(bindir) => bindirs.push(bindir),
                    None => (),
                }
            }
            i = i + 1;
        }
        bindirs
    }
}

} // verus!
