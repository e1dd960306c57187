//! Tests for runtime construction, selection strategies, and discovery.

use postgresfixture::runtime::strategies::{bindir_of, RuntimesOnPath, RuntimesOnPlatform};
use postgresfixture::runtime::{dedup_versions, Runtime, RuntimeError, Strategy, StrategySet};
use postgresfixture::version::PartialVersion::{Post10m, Pre10m};
use postgresfixture::version::{Version, VersionError};

#[test]
fn runtime_new_parses_the_probe_report() {
    let runtime = Runtime::new("/usr/local/bin", "pg_ctl (PostgreSQL) 12.2").unwrap();
    assert_eq!("/usr/local/bin", runtime.bindir);
    assert_eq!(Version::Post10(12, 2), runtime.version);
    let ancient = Runtime::new("/opt/pg/bin", "pg_ctl (PostgreSQL) 9.6.17").unwrap();
    assert_eq!(Version::Pre10(9, 6, 17), ancient.version);
}

#[test]
fn runtime_new_rejects_gibberish_probe_reports() {
    assert_eq!(
        Err(RuntimeError::UnknownVersion(VersionError::Missing)),
        Runtime::new("/usr/local/bin", "pg_ctl: no version here")
    );
}

#[test]
fn a_single_runtime_is_its_own_strategy() {
    let runtime = Runtime::new("/usr/local/bin", "pg_ctl (PostgreSQL) 12.2").unwrap();
    assert_eq!(vec![runtime.clone()], runtime.runtimes());
    assert_eq!(Some(runtime.clone()), runtime.fallback());
    // Compatible constraint: selected.
    assert_eq!(Some(runtime.clone()), runtime.select(&Post10m(12)));
    // Incompatible constraint: not selected.
    assert_eq!(None, runtime.select(&Post10m(13)));
    assert_eq!(None, runtime.select(&Pre10m(9, 6)));
}

fn fixtures() -> Vec<Runtime> {
    vec![
        Runtime::new("/opt/pg/9.6/bin", "pg_ctl (PostgreSQL) 9.6.17").unwrap(),
        Runtime::new("/opt/pg/12/bin", "pg_ctl (PostgreSQL) 12.2").unwrap(),
        Runtime::new("/opt/pg/14/bin", "pg_ctl (PostgreSQL) 14.2").unwrap(),
        Runtime::new("/opt/pg/12.9/bin", "pg_ctl (PostgreSQL) 12.9").unwrap(),
    ]
}

#[test]
fn strategy_set_selects_the_highest_compatible_runtime() {
    let set = StrategySet::new(fixtures());
    // Two 12.x runtimes are compatible; the higher one wins.
    let selected = set.select(&Post10m(12)).unwrap();
    assert_eq!(Version::Post10(12, 9), selected.version);
    assert_eq!("/opt/pg/12.9/bin", selected.bindir);
    // Only one 9.6 runtime.
    let selected = set.select(&Pre10m(9, 6)).unwrap();
    assert_eq!(Version::Pre10(9, 6, 17), selected.version);
    // Nothing compatible at all.
    assert_eq!(None, set.select(&Post10m(13)));
}

#[test]
fn strategy_set_falls_back_to_the_highest_runtime() {
    let set = StrategySet::new(fixtures());
    let fallback = set.fallback().unwrap();
    assert_eq!(Version::Post10(14, 2), fallback.version);
    // An empty set has no fallback.
    let empty = StrategySet::new(Vec::new());
    assert_eq!(None, empty.fallback());
    assert_eq!(None, empty.select(&Post10m(12)));
    assert_eq!(0, empty.runtimes().len());
}

/// This will fail if there are no PostgreSQL runtimes installed under
/// `/usr/lib/postgresql`.
#[test]
fn strategies_runtime_find_on_platform() {
    let runtimes = RuntimesOnPlatform::find();
    assert_ne!(0, runtimes.len());
}

#[test]
fn find_on_path_keeps_only_directories_with_pg_ctl() {
    // `/usr/local/bin` holds `pg_ctl` on this machine; the other two
    // segments do not.
    let found = RuntimesOnPath::find_on_path("/nonexistent:/usr/local/bin:/var");
    assert_eq!(vec!["/usr/local/bin".to_owned()], found);
    // No candidates at all.
    let none = RuntimesOnPath::find_on_path("/nonexistent:/var");
    assert_eq!(0, none.len());
}

#[test]
fn candidate_bindirs_takes_the_environment_path_as_given() {
    let custom = RuntimesOnPath::Custom("/usr/local/bin".to_owned());
    assert_eq!(vec!["/usr/local/bin".to_owned()], custom.candidate_bindirs(None));
    let env = RuntimesOnPath::Env;
    assert_eq!(
        vec!["/usr/local/bin".to_owned()],
        env.candidate_bindirs(Some("/nonexistent:/usr/local/bin"))
    );
    assert_eq!(0, env.candidate_bindirs(None).len());
}

#[test]
fn runtime_errors_describe_themselves() {
    assert_eq!(
        "PostgreSQL version not known: not found",
        RuntimeError::UnknownVersion(VersionError::Missing).describe()
    );
    assert_eq!("input/output error: errno 2", RuntimeError::IoError(2).describe());
}

#[test]
fn bindir_of_strips_the_binary_name() {
    assert_eq!(
        Some("/usr/lib/postgresql/15/bin".to_owned()),
        bindir_of("/usr/lib/postgresql/15/bin/pg_ctl")
    );
    assert_eq!(None, bindir_of("/usr/lib/postgresql/15/bin/psql"));
    assert_eq!(None, bindir_of("pg_ctl"));
    assert_eq!(Some("".to_owned()), bindir_of("/pg_ctl"));
}

#[test]
fn strategy_set_deduplicates_versions_first_wins() {
    let runtimes = vec![
        Runtime::new("/a/bin", "pg_ctl (PostgreSQL) 12.2").unwrap(),
        Runtime::new("/b/bin", "pg_ctl (PostgreSQL) 12.2").unwrap(),
        Runtime::new("/c/bin", "pg_ctl (PostgreSQL) 14.0").unwrap(),
    ];
    let deduped = dedup_versions(&runtimes);
    assert_eq!(2, deduped.len());
    assert_eq!("/a/bin", deduped[0].bindir);
    assert_eq!("/c/bin", deduped[1].bindir);
    let set = StrategySet::new(runtimes);
    let listed = set.runtimes();
    assert_eq!(2, listed.len());
    assert_eq!("/a/bin", listed[0].bindir);
    assert_eq!("/c/bin", listed[1].bindir);
}
