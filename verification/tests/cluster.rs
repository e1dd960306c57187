//! Tests for the cluster: construction, paths, the status decode table,
//! benign-race resolution, and the command plans.

use postgresfixture::cluster::error::ClusterError;
use postgresfixture::cluster::{
    createdb_statement, dropdb_statement, exists_at, mode_is_dir, mode_is_file, resolve_create,
    resolve_destroy, resolve_start, resolve_stop, running_from_status, version, Cluster,
};
use postgresfixture::runtime::strategies::{RuntimesOnPath, RuntimesOnPlatform};
use postgresfixture::runtime::Runtime;
use postgresfixture::version::Version;

/// Runtimes to exercise the tests with: every installation found on the
/// usual paths, each under a plausible probe report (nothing here runs
/// `pg_ctl`, so the version text only has to parse).
fn runtimes() -> Vec<Runtime> {
    let mut bindirs = RuntimesOnPlatform::find();
    let mut on_path = RuntimesOnPath::find_on_path("/usr/local/bin:/usr/bin");
    bindirs.append(&mut on_path);
    let mut found: Vec<Runtime> = bindirs
        .iter()
        .map(|bindir| Runtime::new(bindir, "pg_ctl (PostgreSQL) 15.4").unwrap())
        .collect();
    if found.is_empty() {
        found.push(Runtime::new("/usr/local/bin", "pg_ctl (PostgreSQL) 15.4").unwrap());
    }
    found
}

#[test]
fn cluster_new() {
    for runtime in runtimes() {
        println!("{runtime:?}");
        let cluster = Cluster::new("some/path", runtime).unwrap();
        assert_eq!(cluster.datadir, "some/path");
    }
}

#[test]
fn cluster_does_not_exist() {
    for runtime in runtimes() {
        println!("{runtime:?}");
        let cluster = Cluster::new("some/path", runtime).unwrap();
        assert!(!exists_at(&cluster.datadir));
    }
}

#[test]
fn cluster_has_no_version_when_it_does_not_exist() {
    for runtime in runtimes() {
        println!("{runtime:?}");
        let cluster = Cluster::new("some/path", runtime).unwrap();
        assert!(matches!(version(&cluster.datadir), Ok(None)));
    }
}

#[test]
fn cluster_has_pid_file() {
    for runtime in runtimes() {
        println!("{runtime:?}");
        let cluster = Cluster::new("/some/where", runtime).unwrap();
        assert_eq!("/some/where/postmaster.pid", cluster.pidfile());
    }
}

#[test]
fn cluster_has_log_file() {
    for runtime in runtimes() {
        println!("{runtime:?}");
        let cluster = Cluster::new("/some/where", runtime).unwrap();
        assert_eq!("/some/where/postmaster.log", cluster.logfile());
    }
}

#[test]
fn running_decodes_status_for_modern_versions() {
    for v in [Version::Post10(14, 2), Version::Post10(10, 0), Version::Pre10(9, 4, 22)] {
        // Clean success always means running.
        assert_eq!(Ok(true), running_from_status(v, Some(0), true));
        assert_eq!(Ok(true), running_from_status(v, Some(0), false));
        // 3: data directory present and accessible, server not running.
        assert_eq!(Ok(false), running_from_status(v, Some(3), true));
        // 4 with the directory absent: not running.
        assert_eq!(Ok(false), running_from_status(v, Some(4), false));
        // 4 with the directory present: inaccessible — don't guess.
        assert_eq!(
            Err(ClusterError::IndeterminateState(Some(4))),
            running_from_status(v, Some(4), true)
        );
        // Any other code: don't guess.
        assert_eq!(
            Err(ClusterError::IndeterminateState(Some(2))),
            running_from_status(v, Some(2), true)
        );
        // Killed by a signal: don't guess.
        assert_eq!(Err(ClusterError::IndeterminateState(None)), running_from_status(v, None, true));
    }
}

#[test]
fn running_decodes_status_for_9_2_and_9_3() {
    for v in [Version::Pre10(9, 2, 24), Version::Pre10(9, 3, 0)] {
        assert_eq!(Ok(true), running_from_status(v, Some(0), true));
        assert_eq!(Ok(false), running_from_status(v, Some(3), true));
        // 9.2/9.3 never disambiguate through code 4.
        assert_eq!(
            Err(ClusterError::IndeterminateState(Some(4))),
            running_from_status(v, Some(4), false)
        );
    }
}

#[test]
fn running_decodes_status_for_9_0_and_9_1() {
    for v in [Version::Pre10(9, 0, 0), Version::Pre10(9, 1, 24)] {
        assert_eq!(Ok(true), running_from_status(v, Some(0), true));
        assert_eq!(Ok(false), running_from_status(v, Some(1), true));
        assert_eq!(
            Err(ClusterError::IndeterminateState(Some(3))),
            running_from_status(v, Some(3), true)
        );
    }
}

#[test]
fn running_rejects_versions_without_a_decode_table() {
    let v = Version::Pre10(8, 4, 22);
    assert_eq!(Err(ClusterError::UnsupportedVersion(v)), running_from_status(v, Some(3), true));
    // Exit code 0 still means running, whatever the version.
    assert_eq!(Ok(true), running_from_status(v, Some(0), true));
}

#[test]
fn resolve_create_treats_benign_race_as_success() {
    let busy: Result<bool, ClusterError> = Err(ClusterError::UnixError(11));
    // Another process created the cluster meanwhile: success, did nothing.
    assert_eq!(Ok(false), resolve_create(busy.clone(), true));
    // Busy but the cluster still does not exist: genuinely in use.
    assert_eq!(Err(ClusterError::InUse), resolve_create(busy, false));
    // Everything else passes through.
    assert_eq!(Ok(true), resolve_create(Ok(true), false));
    assert_eq!(
        Err(ClusterError::IoError(13)),
        resolve_create(Err(ClusterError::IoError(13)), true)
    );
}

#[test]
fn resolve_start_consults_a_fresh_probe() {
    let busy: Result<bool, ClusterError> = Err(ClusterError::UnixError(11));
    assert_eq!(Ok(false), resolve_start(busy.clone(), Ok(true)));
    assert_eq!(Err(ClusterError::InUse), resolve_start(busy.clone(), Ok(false)));
    assert_eq!(
        Err(ClusterError::IndeterminateState(Some(4))),
        resolve_start(busy, Err(ClusterError::IndeterminateState(Some(4))))
    );
    assert_eq!(Ok(true), resolve_start(Ok(true), Ok(false)));
}

#[test]
fn resolve_stop_consults_a_fresh_probe() {
    let busy: Result<bool, ClusterError> = Err(ClusterError::UnixError(11));
    assert_eq!(Ok(false), resolve_stop(busy.clone(), Ok(false)));
    assert_eq!(Err(ClusterError::InUse), resolve_stop(busy.clone(), Ok(true)));
    assert_eq!(
        Err(ClusterError::IoError(5)),
        resolve_stop(busy, Err(ClusterError::IoError(5)))
    );
    assert_eq!(Ok(true), resolve_stop(Ok(true), Ok(true)));
}

#[test]
fn resolve_destroy_never_races_benignly() {
    let busy: Result<bool, ClusterError> = Err(ClusterError::UnixError(11));
    assert_eq!(Err(ClusterError::InUse), resolve_destroy(busy));
    assert_eq!(Ok(false), resolve_destroy(Ok(false)));
    assert_eq!(
        Err(ClusterError::IoError(13)),
        resolve_destroy(Err(ClusterError::IoError(13)))
    );
}

#[test]
fn database_statements_quote_identifiers() {
    assert_eq!("CREATE DATABASE \"foo-bar\"", createdb_statement("foo-bar"));
    assert_eq!("CREATE DATABASE \"Foo-BAR\"", createdb_statement("Foo-BAR"));
    assert_eq!("DROP DATABASE \"foo-bar\"", dropdb_statement("foo-bar"));
    // Embedded double quotes are doubled.
    assert_eq!("CREATE DATABASE \"a\"\"b\"", createdb_statement("a\"b"));
    assert_eq!("DROP DATABASE \"a\"\"b\"", dropdb_statement("a\"b"));
}

#[test]
fn command_plans_carry_the_documented_flags() {
    let runtime = Runtime::new("/usr/local/bin", "pg_ctl (PostgreSQL) 15.4").unwrap();
    let cluster = Cluster::new("/tmp/data", runtime).unwrap();
    assert_eq!(vec!["status"], cluster.status_args());
    assert_eq!(vec!["init", "-s", "-o", "-E utf8 --locale C -A trust"], cluster.init_args());
    assert_eq!(
        vec!["start", "-l", "/tmp/data/postmaster.log", "-s", "-w", "-o"],
        cluster.start_args()
    );
    assert_eq!(vec!["stop", "-s", "-w", "-m", "fast"], cluster.stop_args());
    let env = cluster.ctl_env();
    assert_eq!(2, env.len());
    assert_eq!(("PGDATA".to_owned(), "/tmp/data".to_owned()), env[0]);
    assert_eq!(("PGHOST".to_owned(), "/tmp/data".to_owned()), env[1]);
}

#[test]
fn start_socket_arg_quotes_the_data_directory() {
    let runtime = Runtime::new("/usr/local/bin", "pg_ctl (PostgreSQL) 15.4").unwrap();
    // A directory with a space must come out quoted for the shell; this
    // would fail if the quoting handed the directory back unchanged.
    let cluster = Cluster::new("/tmp/data dir", runtime.clone()).unwrap();
    assert_eq!(b"-h '' -k /tmp/data' dir'".to_vec(), cluster.start_socket_arg());
    // A directory of only safe characters passes through as it is.
    let plain = Cluster::new("/tmp/data", runtime).unwrap();
    assert_eq!(b"-h '' -k /tmp/data".to_vec(), plain.start_socket_arg());
}

#[test]
fn errors_describe_themselves() {
    assert_eq!("cluster in use; cannot lock exclusively", ClusterError::InUse.describe());
    assert_eq!("input/output error: errno 13", ClusterError::IoError(13).describe());
    assert_eq!("UNIX error: errno -1", ClusterError::UnixError(-1).describe());
    assert_eq!(
        "PostgreSQL version not supported: 8.4.22",
        ClusterError::UnsupportedVersion(Version::Pre10(8, 4, 22)).describe()
    );
    assert_eq!(
        "cluster state indeterminate: status probe exited with code 4",
        ClusterError::IndeterminateState(Some(4)).describe()
    );
    assert_eq!(
        "cluster state indeterminate: status probe was killed by a signal",
        ClusterError::IndeterminateState(None).describe()
    );
}

#[test]
fn mode_decoding_reads_the_file_type_bits() {
    // A directory mode (drwxr-xr-x) and a regular-file mode (-rw-r--r--).
    assert!(mode_is_dir(Some(0o040755)));
    assert!(!mode_is_dir(Some(0o100644)));
    assert!(!mode_is_dir(None));
    assert!(mode_is_file(Some(0o100644)));
    assert!(!mode_is_file(Some(0o040755)));
    assert!(!mode_is_file(None));
    // A symbolic link is neither.
    assert!(!mode_is_dir(Some(0o120777)));
    assert!(!mode_is_file(Some(0o120777)));
}
