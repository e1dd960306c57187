//! Create, start, introspect, stop, and destroy PostgreSQL clusters.
//!
//! A cluster lives in a data directory and is worked on through the
//! `pg_ctl` program of a matching [`Runtime`]. Running a program is the
//! caller's business — see the companion binary — and everything that
//! takes judgment stands here, verified: which command to run with which
//! arguments and environment, what a status probe's exit code means for
//! this version of PostgreSQL, and how a benign creation race differs
//! from a real failure. There is no protection against concurrent
//! changes by other processes here; the [`coordinate`][crate::coordinate]
//! module provides that.

pub mod error;

pub use error::ClusterError;

use vstd::prelude::*;
use vstd::string::StrSliceExecFns;
use vstd::string::StringExecFns;
use vstd::string::StringSliceAdditionalSpecFns;

use crate::runtime::{Runtime, Strategy};
use crate::util::{open_path, OpenKind};
use crate::version::partial::PartialVersion;
use crate::version::Version;

verus! {

/// `errno` for "no such file or directory".
pub const ENOENT: i32 = 2;

/// `errno` for "interrupted system call".
pub const EINTR: i32 = 4;

/// `errno` for "try again": the signal a lower-level exclusivity
/// mechanism gives when the cluster is already being worked on.
pub const EAGAIN: i32 = 11;

// ------------------------------------------------------------------
// Filesystem probes, through trusted wrappers over nix.
// ------------------------------------------------------------------

/// The file-type bits of a `st_mode`.
pub const FILE_TYPE_MASK: u32 = 0o170000;

/// The file-type bits of a directory.
pub const FILE_TYPE_DIR: u32 = 0o040000;

/// The file-type bits of a regular file.
pub const FILE_TYPE_REG: u32 = 0o100000;

/// Relies on `nix::sys::stat::stat`: the `st_mode` of the file at
/// `path`, or `None` when `path` cannot be stat'ed — most commonly
/// because nothing exists there.
#[verifier::external_body]
fn stat_mode(path: &str) -> (r: Option<u32>) {
    match nix::sys::stat::stat(std::path::Path::new(path)) {
        Ok(st) => Some(st.st_mode as u32),
        Err(_) => None,
    }
}

/// Relies on `nix::unistd::read`: reads at most `buf.len()` bytes from
/// `fd` into the front of `buf` and returns how many were read; 0 means
/// end of file. What lands in `buf` depends on what is on disk, so
/// nothing is claimed about it beyond the buffer keeping its length.
#[verifier::external_body]
fn read_into(fd: i32, buf: &mut Vec<u8>) -> (r: Result<usize, i32>)
    ensures
        final(buf)@.len() == old(buf)@.len(),
        r matches Ok(n) ==> n <= old(buf)@.len(),
{
    match nix::unistd::read(fd, buf.as_mut_slice()) {
        Ok(n) => Ok(n),
        Err(err) => Err(err as i32),
    }
}

/// Relies on `nix::unistd::close`: closes the descriptor. A failure to
/// close leaves nothing for the caller to do, so it is discarded.
#[verifier::external_body]
fn close_fd(fd: i32) {
    let _ = nix::unistd::close(fd);
}

/// The decision behind [`path_is_dir`]: does this `st_mode` — `None`
/// when nothing could be stat'ed — describe a directory?
pub fn mode_is_dir(mode: Option<u32>) -> (r: bool)
    ensures
        r == (mode matches Some(m) && m & FILE_TYPE_MASK == FILE_TYPE_DIR),
{
    match mode {
        Some(m) => m & FILE_TYPE_MASK == FILE_TYPE_DIR,
        None => false,
    }
}

/// The decision behind [`path_is_file`]: does this `st_mode` — `None`
/// when nothing could be stat'ed — describe a regular file?
pub fn mode_is_file(mode: Option<u32>) -> (r: bool)
    ensures
        r == (mode matches Some(m) && m & FILE_TYPE_MASK == FILE_TYPE_REG),
{
    match mode {
        Some(m) => m & FILE_TYPE_MASK == FILE_TYPE_REG,
        None => false,
    }
}

/// Does a directory sit at `path`? What the stat probe reports depends
/// on the filesystem; how its report is read is [`mode_is_dir`]'s exact
/// contract.
pub fn path_is_dir(path: &str) -> bool {
    mode_is_dir(stat_mode(path))
}

/// Does a regular file sit at `path`? What the stat probe reports
/// depends on the filesystem; how its report is read is
/// [`mode_is_file`]'s exact contract.
pub fn path_is_file(path: &str) -> bool {
    mode_is_file(stat_mode(path))
}

/// The path of the `PG_VERSION` marker file inside `datadir`.
pub fn pg_version_path(datadir: &str) -> (r: String)
    ensures
        r@ == datadir@ + "/PG_VERSION"@,
{
    let mut path = datadir.to_owned();
    path.append("/PG_VERSION");
    path
}

/// A fairly simplistic but quick check: does the directory exist and
/// does it look like a PostgreSQL cluster data directory, i.e. does it
/// contain a file named `PG_VERSION`?
///
/// [`version`] provides a more reliable measure, plus yields the version
/// of PostgreSQL required to use the cluster. What the two stat probes
/// report depends on the filesystem; how each report is read is decided
/// by [`mode_is_dir`] and [`mode_is_file`], under their exact contracts.
pub fn exists_at(datadir: &str) -> bool {
    let marker = pg_version_path(datadir);
    path_is_dir(datadir) && path_is_file(marker.as_str())
}

/// Read the whole contents of the small file at `path`: `Ok(None)` when
/// no file exists there, `Ok(Some(bytes))` with its contents (capped at
/// a few kilobytes — plenty for a version marker) otherwise, and the
/// `errno` of any other failure. Interrupted reads are retried, up to a
/// bound.
fn read_small_file(path: &str) -> (r: Result<Option<Vec<u8>>, i32>) {
    let fd = match open_path(path, OpenKind::ReadOnly) {
        Err(errno) => {
            if errno == ENOENT {
                return Ok(None);
            } else {
                return Err(errno);
            }
        },
        Ok(fd) => fd,
    };
    let mut acc: Vec<u8> = Vec::new();
    let mut chunk: Vec<u8> = Vec::new();
    let mut k: usize = 0;
    while k < 256
        invariant
            chunk@.len() == k,
            k <= 256,
        decreases 256 - k,
    {
        chunk.push(0u8);
        k = k + 1;
    }
    let mut attempts: usize = 4096;
    while attempts > 0
        invariant
            chunk@.len() == 256,
        decreases attempts,
    {
        attempts = attempts - 1;
        match read_into(fd, &mut chunk) {
            Ok(n) => {
                if n == 0 || acc.len() >= 8192 {
                    close_fd(fd);
                    return Ok(Some(acc));
                }
                let mut j: usize = 0;
                while j < n
                    invariant
                        j <= n,
                        n <= chunk@.len(),
                    decreases n - j,
                {
                    acc.push(chunk[j]);
                    j = j + 1;
                }
            },
            Err(errno) => {
                if errno != EINTR {
                    close_fd(fd);
                    return Err(errno);
                }
            },
        }
    }
    close_fd(fd);
    Ok(Some(acc))
}

/// What a version marker's bytes yield: the parsed partial version, or
/// the parse failure as a cluster error.
pub open spec fn spec_version_of_bytes(bytes: Seq<u8>) -> Result<Option<PartialVersion>, ClusterError> {
    match PartialVersion::spec_parse(bytes) {
        Ok(v) => Ok(Some(v)),
        Err(e) => Err(ClusterError::UnknownVersion(e)),
    }
}

/// Decide what a read of the version marker means. This takes the raw
/// outcome of the read as an argument, so the decision is verified for
/// every outcome the filesystem can produce: a missing file means the
/// cluster has no version, unreadable bytes surface as an I/O error, and
/// text without a version number in it is an unknown version.
pub fn version_from_read(content: Result<Option<Vec<u8>>, i32>) -> (r: Result<
    Option<PartialVersion>,
    ClusterError,
>)
    ensures
        content matches Ok(None) ==> r == Ok::<Option<PartialVersion>, ClusterError>(None),
        content matches Ok(Some(bytes)) ==> r == spec_version_of_bytes(bytes@),
        content matches Err(errno) ==> r == Err::<Option<PartialVersion>, ClusterError>(
            ClusterError::IoError(errno),
        ),
{
    match content {
        Ok(None) => Ok(None),
        Ok(Some(bytes)) => match PartialVersion::from_captures(
            crate::version::scan::find_captures(&bytes),
        ) {
            Ok(v) => Ok(Some(v)),
            Err(e) => Err(ClusterError::UnknownVersion(e)),
        },
        Err(errno) => Err(ClusterError::IoError(errno)),
    }
}

/// Yields the version of PostgreSQL required to use the cluster in
/// `datadir`: the version parsed from the `PG_VERSION` marker file when
/// it exists, `None` when it does not. For PostgreSQL versions before 10
/// the marker typically holds the major and point version, e.g. 9.4
/// rather than 9.4.26; from 10 onwards just the major number, e.g. 14.
pub fn version(datadir: &str) -> (r: Result<Option<PartialVersion>, ClusterError>)
    ensures
        r matches Ok(Some(v)) ==> v.spec_valid(),
        r matches Err(e) ==> e is IoError || e is UnknownVersion,
{
    let marker = pg_version_path(datadir);
    let content = read_small_file(marker.as_str());
    proof {
        match &content {
            Ok(Some(bytes)) => PartialVersion::lemma_parse_valid(bytes@),
            _ => (),
        }
    }
    version_from_read(content)
}

// ------------------------------------------------------------------
// The status decode table.
// ------------------------------------------------------------------

/// The decode shared by every era from PostgreSQL 9.4 onwards: exit code
/// 3 means the data directory is present and accessible but the server
/// is not running; code 4 means the data directory is not present or not
/// accessible — if it is missing the server is not running, but if it is
/// present yet inaccessible nothing can be concluded, and the decision
/// is surfaced as an error rather than guessed.
pub open spec fn spec_modern_decision(code: i32, datadir_exists: bool) -> Result<bool, ClusterError> {
    if code == 3 {
        Ok(false)
    } else if code == 4 && !datadir_exists {
        Ok(false)
    } else {
        Err(ClusterError::IndeterminateState(Some(code)))
    }
}

/// What a status probe's ending means, by version of PostgreSQL.
///
/// * No exit code — the probe was killed by a signal — is indeterminate.
/// * Exit code 0 always means the server is running.
/// * From 9.4 onwards (including every post-10 version), see
///   [`spec_modern_decision`].
/// * 9.2 and 9.3 report code 3 both for "not running" and for "data
///   directory not present"; any other code is indeterminate.
/// * 9.0 and 9.1 report code 1 for "not running", "directory missing"
///   and "directory inaccessible" alike; any other code is indeterminate.
/// * Any other pre-10 version has no known decode table at all.
pub open spec fn spec_running_decision(
    version: Version,
    status: Option<i32>,
    datadir_exists: bool,
) -> Result<bool, ClusterError> {
    match status {
        None => Err(ClusterError::IndeterminateState(None)),
        Some(code) => if code == 0 {
            Ok(true)
        } else {
            match version {
                Version::Post10(_, _) => spec_modern_decision(code, datadir_exists),
                Version::Pre10(major, point, _) => if major == 9 {
                    if point >= 4 {
                        spec_modern_decision(code, datadir_exists)
                    } else if point >= 2 {
                        if code == 3 {
                            Ok(false)
                        } else {
                            Err(ClusterError::IndeterminateState(Some(code)))
                        }
                    } else {
                        if code == 1 {
                            Ok(false)
                        } else {
                            Err(ClusterError::IndeterminateState(Some(code)))
                        }
                    }
                } else {
                    Err(ClusterError::UnsupportedVersion(version))
                },
            }
        },
    }
}

/// Decide whether the cluster is running from what its status probe
/// reported: `version` is the runtime's version, `status` the probe's
/// exit code (`None` when it was killed by a signal), and
/// `datadir_exists` whether the data directory looks like a cluster —
/// consulted only where an exit code is ambiguous between "not running"
/// and "no such directory". Tries hard to distinguish "definitely
/// running", "definitely not running", and "don't know"; the latter is
/// an error, never a guess.
pub fn running_from_status(version: Version, status: Option<i32>, datadir_exists: bool) -> (r:
    Result<bool, ClusterError>)
    ensures
        r == spec_running_decision(version, status, datadir_exists),
{
    let code = match status {
        None => {
            return Err(ClusterError::IndeterminateState(None));
        },
        Some(code) => code,
    };
    if code == 0 {
        return Ok(true);
    }
    match version {
        Version::Post10(_, _) => modern_decision(code, datadir_exists),
        Version::Pre10(major, point, _) => {
            if major == 9 {
                if point >= 4 {
                    modern_decision(code, datadir_exists)
                } else if point >= 2 {
                    if code == 3 {
                        Ok(false)
                    } else {
                        Err(ClusterError::IndeterminateState(Some(code)))
                    }
                } else {
                    if code == 1 {
                        Ok(false)
                    } else {
                        Err(ClusterError::IndeterminateState(Some(code)))
                    }
                }
            } else {
                Err(ClusterError::UnsupportedVersion(version))
            }
        },
    }
}

/// See [`spec_modern_decision`].
fn modern_decision(code: i32, datadir_exists: bool) -> (r: Result<bool, ClusterError>)
    ensures
        r == spec_modern_decision(code, datadir_exists),
{
    if code == 3 {
        Ok(false)
    } else if code == 4 && !datadir_exists {
        Ok(false)
    } else {
        Err(ClusterError::IndeterminateState(Some(code)))
    }
}

// ------------------------------------------------------------------
// Resolving benign races.
// ------------------------------------------------------------------

/// Is this the "try again" signal of a lower-level exclusivity
/// mechanism?
pub open spec fn spec_is_busy(e: ClusterError) -> bool {
    e == ClusterError::UnixError(EAGAIN)
}

/// What the create step's outcome resolves to: a busy signal is benign
/// when an independent check confirms the cluster now exists — another
/// process just created it — and `InUse` otherwise; everything else
/// passes through.
pub open spec fn spec_resolve_create(
    outcome: Result<bool, ClusterError>,
    exists_now: bool,
) -> Result<bool, ClusterError> {
    match outcome {
        Err(e) => if spec_is_busy(e) {
            if exists_now {
                Ok(false)
            } else {
                Err(ClusterError::InUse)
            }
        } else {
            Err(e)
        },
        ok => ok,
    }
}

/// See [`spec_resolve_create`]. `exists_now` must be a fresh check, made
/// after the raw outcome came back.
pub fn resolve_create(outcome: Result<bool, ClusterError>, exists_now: bool) -> (r: Result<
    bool,
    ClusterError,
>)
    ensures
        r == spec_resolve_create(outcome, exists_now),
{
    match outcome {
        Err(ClusterError::UnixError(errno)) => {
            if errno == EAGAIN {
                if exists_now {
                    Ok(false)
                } else {
                    Err(ClusterError::InUse)
                }
            } else {
                Err(ClusterError::UnixError(errno))
            }
        },
        other => other,
    }
}

/// What the start step's outcome resolves to: a busy signal is benign
/// when a fresh status probe says the cluster is running — another
/// process just started it — and `InUse` when it is not; a probe that
/// itself failed propagates its own error. Everything else passes
/// through.
pub open spec fn spec_resolve_start(
    outcome: Result<bool, ClusterError>,
    running_now: Result<bool, ClusterError>,
) -> Result<bool, ClusterError> {
    match outcome {
        Err(e) => if spec_is_busy(e) {
            match running_now {
                Ok(true) => Ok(false),
                Ok(false) => Err(ClusterError::InUse),
                Err(probe) => Err(probe),
            }
        } else {
            Err(e)
        },
        ok => ok,
    }
}

/// See [`spec_resolve_start`]. `running_now` must be a fresh probe, made
/// after the raw outcome came back.
pub fn resolve_start(
    outcome: Result<bool, ClusterError>,
    running_now: Result<bool, ClusterError>,
) -> (r: Result<bool, ClusterError>)
    ensures
        r == spec_resolve_start(outcome, running_now),
{
    match outcome {
        Err(ClusterError::UnixError(errno)) => {
            if errno == EAGAIN {
                match running_now {
                    Ok(true) => Ok(false),
                    Ok(false) => Err(ClusterError::InUse),
                    Err(probe) => Err(probe),
                }
            } else {
                Err(ClusterError::UnixError(errno))
            }
        },
        other => other,
    }
}

/// What the stop step's outcome resolves to: a busy signal is benign
/// when a fresh status probe says the cluster is no longer running —
/// another process just stopped it — and `InUse` when it still is; a
/// probe that itself failed propagates its own error. Everything else
/// passes through.
pub open spec fn spec_resolve_stop(
    outcome: Result<bool, ClusterError>,
    running_now: Result<bool, ClusterError>,
) -> Result<bool, ClusterError> {
    match outcome {
        Err(e) => if spec_is_busy(e) {
            match running_now {
                Ok(false) => Ok(false),
                Ok(true) => Err(ClusterError::InUse),
                Err(probe) => Err(probe),
            }
        } else {
            Err(e)
        },
        ok => ok,
    }
}

/// See [`spec_resolve_stop`]. `running_now` must be a fresh probe, made
/// after the raw outcome came back.
pub fn resolve_stop(
    outcome: Result<bool, ClusterError>,
    running_now: Result<bool, ClusterError>,
) -> (r: Result<bool, ClusterError>)
    ensures
        r == spec_resolve_stop(outcome, running_now),
{
    match outcome {
        Err(ClusterError::UnixError(errno)) => {
            if errno == EAGAIN {
                match running_now {
                    Ok(false) => Ok(false),
                    Ok(true) => Err(ClusterError::InUse),
                    Err(probe) => Err(probe),
                }
            } else {
                Err(ClusterError::UnixError(errno))
            }
        },
        other => other,
    }
}

/// What the destroy step's outcome resolves to: a busy signal always
/// surfaces as `InUse` — destruction is never benignly raced — and
/// everything else passes through.
pub open spec fn spec_resolve_destroy(outcome: Result<bool, ClusterError>) -> Result<
    bool,
    ClusterError,
> {
    match outcome {
        Err(e) => if spec_is_busy(e) {
            Err(ClusterError::InUse)
        } else {
            Err(e)
        },
        ok => ok,
    }
}

/// See [`spec_resolve_destroy`].
pub fn resolve_destroy(outcome: Result<bool, ClusterError>) -> (r: Result<bool, ClusterError>)
    ensures
        r == spec_resolve_destroy(outcome),
{
    match outcome {
        Err(ClusterError::UnixError(errno)) => {
            if errno == EAGAIN {
                Err(ClusterError::InUse)
            } else {
                Err(ClusterError::UnixError(errno))
            }
        },
        other => other,
    }
}

// ------------------------------------------------------------------
// SQL statements for creating and dropping databases.
// ------------------------------------------------------------------

/// Every `"` doubled.
pub open spec fn spec_doubled_quotes(s: Seq<char>) -> Seq<char>
    decreases s.len(),
{
    if s.len() == 0 {
        Seq::empty()
    } else if s[0] == '"' {
        seq!['"', '"'] + spec_doubled_quotes(s.drop_first())
    } else {
        seq![s[0]] + spec_doubled_quotes(s.drop_first())
    }
}

/// An SQL identifier, quoted: wrapped in double quotes, with every
/// double quote inside doubled.
pub open spec fn spec_escape_identifier(s: Seq<char>) -> Seq<char> {
    seq!['"'] + spec_doubled_quotes(s) + seq!['"']
}

/// Relies on `postgres_protocol::escape::escape_identifier`: wraps the
/// input in double quotes, doubling every double quote inside, which
/// makes any name — hyphens, capitals, quotes and all — safe to splice
/// into an SQL statement as an identifier.
#[verifier::external_body]
fn escape_identifier(s: &str) -> (r: String)
    ensures
        r@ == spec_escape_identifier(s@),
{
    postgres_protocol::escape::escape_identifier(s)
}

/// The SQL statement that creates the named database, with the name
/// safely quoted.
pub fn createdb_statement(database: &str) -> (r: String)
    ensures
        r@ == "CREATE DATABASE "@ + spec_escape_identifier(database@),
{
    let mut statement = String::from_str("CREATE DATABASE ");
    let quoted = escape_identifier(database);
    statement.append(quoted.as_str());
    statement
}

/// The SQL statement that drops the named database, with the name
/// safely quoted.
pub fn dropdb_statement(database: &str) -> (r: String)
    ensures
        r@ == "DROP DATABASE "@ + spec_escape_identifier(database@),
{
    let mut statement = String::from_str("DROP DATABASE ");
    let quoted = escape_identifier(database);
    statement.append(quoted.as_str());
    statement
}

// ------------------------------------------------------------------
// The cluster itself.
// ------------------------------------------------------------------

/// A POSIX-shell quoting of a string: what `shell_quote`'s `sh` flavour
/// produces. It depends on the characters alone.
pub uninterp spec fn sh_quoted(s: Seq<char>) -> Seq<u8>;

/// Relies on `shell_quote::Sh::quote_vec`: the POSIX-shell quoting of
/// `s`, a function of the characters alone, safe to splice into a shell
/// word.
#[verifier::external_body]
fn sh_quote(s: &str) -> (r: Vec<u8>)
    ensures
        r@ == sh_quoted(s@),
{
    shell_quote::Sh::quote_vec(s)
}

/// Representation of a PostgreSQL cluster.
///
/// The cluster may not yet exist on disk. It may exist but be stopped,
/// or it may be running.
#[derive(Debug)]
pub struct Cluster {
    /// The data directory of the cluster. Corresponds to the `PGDATA`
    /// environment variable.
    pub datadir: String,
    /// The installation of PostgreSQL to use with this cluster.
    pub runtime: Runtime,
}

impl Cluster {
    /// Represent the cluster at `datadir`, choosing its runtime for a
    /// version marker already read: when the cluster has no version yet,
    /// the strategy's fallback decides; when it has one, the strategy
    /// must select a runtime compatible with it.
    pub fn for_version<S: Strategy>(
        datadir: &str,
        version: Option<PartialVersion>,
        strategy: S,
    ) -> (r: Result<Cluster, ClusterError>)
        ensures
            r matches Ok(c) ==> c.datadir@ == datadir@ && strategy.spec_runtimes().contains(
                c.runtime,
            ),
            version matches Some(v) ==> {
                &&& (r matches Ok(c) ==> v.spec_compatible(c.runtime.version))
                &&& (r matches Err(e) ==> e == ClusterError::RuntimeNotFound(v) && forall|j: int|
                    0 <= j < strategy.spec_runtimes().len() ==> !v.spec_compatible(
                        #[trigger] strategy.spec_runtimes()[j].version,
                    ))
            },
            version is None ==> (r matches Err(e) ==> e == ClusterError::RuntimeDefaultNotFound
                && strategy.spec_runtimes().len() == 0),
    {
        let chosen = match &version {
            None => match strategy.fallback() {
                Some(runtime) => Ok(runtime),
                None => Err(ClusterError::RuntimeDefaultNotFound),
            },
            Some(v) => match strategy.select(v) {
                Some(runtime) => Ok(runtime),
                None => Err(ClusterError::RuntimeNotFound(*v)),
            },
        };
        match chosen {
            Ok(runtime) => Ok(Cluster { datadir: datadir.to_owned(), runtime }),
            Err(e) => Err(e),
        }
    }

    /// Represent the cluster at `datadir`.
    ///
    /// This reads the cluster's version marker, if any, and uses the
    /// given strategy to pick an appropriate runtime for it. When no
    /// appropriate runtime can be found this fails with
    /// [`ClusterError::RuntimeNotFound`] — or, for a cluster that does
    /// not exist yet, [`ClusterError::RuntimeDefaultNotFound`].
    pub fn new<S: Strategy>(datadir: &str, strategy: S) -> (r: Result<Cluster, ClusterError>)
        ensures
            r matches Ok(c) ==> c.datadir@ == datadir@ && strategy.spec_runtimes().contains(
                c.runtime,
            ),
            r matches Err(e) ==> e is IoError || e is UnknownVersion || e is RuntimeNotFound
                || e is RuntimeDefaultNotFound,
    {
        let found = match version(datadir) {
            Ok(found) => found,
            Err(e) => {
                return Err(e);
            },
        };
        Cluster::for_version(datadir, found, strategy)
    }

    /// The path to the PID file used in this cluster. The PID file does
    /// not necessarily exist.
    pub fn pidfile(&self) -> (r: String)
        ensures
            r@ == self.datadir@ + "/postmaster.pid"@,
    {
        let mut path = self.datadir.clone();
        path.append("/postmaster.pid");
        path
    }

    /// The path to the log file used in this cluster. The log file does
    /// not necessarily exist.
    pub fn logfile(&self) -> (r: String)
        ensures
            r@ == self.datadir@ + "/postmaster.log"@,
    {
        let mut path = self.datadir.clone();
        path.append("/postmaster.log");
        path
    }

    /// The environment every `pg_ctl` call runs with: `PGDATA` and
    /// `PGHOST` both point at the data directory (the latter because the
    /// server listens on a UNIX socket there, not on a network address).
    pub fn ctl_env(&self) -> (r: Vec<(String, String)>)
        ensures
            r@.len() == 2,
            r@[0].0@ == "PGDATA"@ && r@[0].1@ == self.datadir@,
            r@[1].0@ == "PGHOST"@ && r@[1].1@ == self.datadir@,
    {
        let mut env: Vec<(String, String)> = Vec::new();
        env.push((String::from_str("PGDATA"), self.datadir.clone()));
        env.push((String::from_str("PGHOST"), self.datadir.clone()));
        env
    }

    /// The arguments of the status probe: `pg_ctl status`.
    pub fn status_args(&self) -> (r: Vec<String>)
        ensures
            r@.len() == 1,
            r@[0]@ == "status"@,
    {
        let mut args: Vec<String> = Vec::new();
        args.push(String::from_str("status"));
        args
    }

    /// The arguments of cluster initialisation: `pg_ctl init`, silent,
    /// handing `initdb` a UTF-8 encoding, the `C` locale, and trust
    /// authentication. The caller must also set `TZ=UTC` in the
    /// environment so the cluster starts out with a neutral timezone.
    pub fn init_args(&self) -> (r: Vec<String>)
        ensures
            r@.len() == 4,
            r@[0]@ == "init"@,
            r@[1]@ == "-s"@,
            r@[2]@ == "-o"@,
            r@[3]@ == "-E utf8 --locale C -A trust"@,
    {
        let mut args: Vec<String> = Vec::new();
        args.push(String::from_str("init"));
        args.push(String::from_str("-s"));
        args.push(String::from_str("-o"));
        args.push(String::from_str("-E utf8 --locale C -A trust"));
        args
    }

    /// The arguments of `pg_ctl start`, up to but not including the
    /// server options of [`Self::start_socket_arg`]: log to the
    /// cluster's log file, silently, and wait until startup completes.
    pub fn start_args(&self) -> (r: Vec<String>)
        ensures
            r@.len() == 6,
            r@[0]@ == "start"@,
            r@[1]@ == "-l"@,
            r@[2]@ == self.datadir@ + "/postmaster.log"@,
            r@[3]@ == "-s"@,
            r@[4]@ == "-w"@,
            r@[5]@ == "-o"@,
    {
        let mut args: Vec<String> = Vec::new();
        args.push(String::from_str("start"));
        args.push(String::from_str("-l"));
        args.push(self.logfile());
        args.push(String::from_str("-s"));
        args.push(String::from_str("-w"));
        args.push(String::from_str("-o"));
        args
    }

    /// The server options handed to `pg_ctl start` through `-o`: no TCP
    /// listening (`-h ''`), and the UNIX socket in the data directory
    /// (`-k <datadir>`), with the directory quoted for the shell. Bytes,
    /// not text: quoting may need bytes that are not valid UTF-8 on
    /// their own.
    pub fn start_socket_arg(&self) -> (r: Vec<u8>)
        ensures
            r@ == "-h '' -k ".spec_bytes() + sh_quoted(self.datadir@),
    {
        let mut arg = "-h '' -k ".as_bytes_vec();
        let mut quoted = sh_quote(self.datadir.as_str());
        arg.append(&mut quoted);
        arg
    }

    /// The arguments of `pg_ctl stop`: silent, waiting for shutdown to
    /// complete, in the `fast` mode — disconnect clients, roll back
    /// their transactions, and shut down cleanly.
    pub fn stop_args(&self) -> (r: Vec<String>)
        ensures
            r@.len() == 5,
            r@[0]@ == "stop"@,
            r@[1]@ == "-s"@,
            r@[2]@ == "-w"@,
            r@[3]@ == "-m"@,
            r@[4]@ == "fast"@,
    {
        let mut args: Vec<String> = Vec::new();
        args.push(String::from_str("stop"));
        args.push(String::from_str("-s"));
        args.push(String::from_str("-w"));
        args.push(String::from_str("-m"));
        args.push(String::from_str("fast"));
        args
    }
}

} // verus!
