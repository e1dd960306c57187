//! Tests for parsing, rendering, comparing, and checking versions.

use postgresfixture::version::Error::{BadlyFormed, Missing};
use postgresfixture::version::PartialVersion;
use postgresfixture::version::PartialVersion::{Post10m, Post10mm, Pre10m, Pre10mm};
use postgresfixture::version::Version;

use rand::seq::SliceRandom;
use rand::thread_rng;

#[test]
fn parses_version_below_10() {
    assert_eq!(Ok(Pre10mm(9, 6, 17)), "9.6.17".parse());
    assert_eq!(Ok(Pre10m(9, 6)), "9.6".parse());
}

#[test]
fn parses_version_above_10() {
    assert_eq!(Ok(Post10mm(12, 2)), "12.2".parse());
    assert_eq!(Ok(Post10m(12)), "12".parse());
}

#[test]
fn parse_returns_error_when_version_is_invalid() {
    // 4294967296 is (2^32 + 1), so won't fit in a u32.
    assert_eq!(Err(BadlyFormed), "4294967296.0".parse::<PartialVersion>());
    // Before version 10, there are always at least two parts in a version.
    assert_eq!(Err(BadlyFormed), "9".parse::<PartialVersion>());
    // From version 10 onwards, there are only two parts in a version.
    assert_eq!(Err(BadlyFormed), "10.10.10".parse::<PartialVersion>());
}

#[test]
fn parse_returns_error_when_version_not_found() {
    assert_eq!(Err(Missing), "foo".parse::<PartialVersion>());
}

#[test]
fn checked_returns_self_when_variant_is_valid() {
    assert_eq!(Ok(Pre10m(9, 0)), Pre10m(9, 0).checked());
    assert_eq!(Ok(Pre10mm(9, 0, 0)), Pre10mm(9, 0, 0).checked());
    assert_eq!(Ok(Post10m(10)), Post10m(10).checked());
    assert_eq!(Ok(Post10mm(10, 0)), Post10mm(10, 0).checked());
}

#[test]
fn checked_returns_error_when_variant_is_invalid() {
    assert_eq!(Err(BadlyFormed), Pre10m(10, 0).checked());
    assert_eq!(Err(BadlyFormed), Pre10mm(10, 0, 0).checked());
    assert_eq!(Err(BadlyFormed), Post10m(9).checked());
    assert_eq!(Err(BadlyFormed), Post10mm(9, 0).checked());
}

#[test]
fn displays_version_below_10() {
    assert_eq!("9.6.17", Pre10mm(9, 6, 17).to_text());
    assert_eq!("9.6", Pre10m(9, 6).to_text());
}

#[test]
fn displays_version_above_10() {
    assert_eq!("12.2", Post10mm(12, 2).to_text());
    assert_eq!("12", Post10m(12).to_text());
}

#[test]
fn converts_partial_version_to_version() {
    assert_eq!(Version::Pre10(9, 1, 2), Pre10mm(9, 1, 2).into());
    assert_eq!(Version::Pre10(9, 1, 0), Pre10m(9, 1).into());
    assert_eq!(Version::Post10(14, 2), Post10mm(14, 2).into());
    assert_eq!(Version::Post10(14, 0), Post10m(14).into());
}

#[test]
fn compatible_below_10() {
    let version = "9.6.16".parse().unwrap();
    assert!(Pre10mm(9, 6, 16).compatible(version));
    assert!(Pre10m(9, 6).compatible(version));
}

#[test]
fn not_compatible_below_10() {
    let version = "9.6.16".parse().unwrap();
    assert!(!Pre10mm(9, 6, 17).compatible(version));
    assert!(!Pre10m(9, 7).compatible(version));
    assert!(!Pre10mm(8, 6, 16).compatible(version));
    assert!(!Pre10m(8, 6).compatible(version));
}

#[test]
fn compatible_above_10() {
    let version = "12.6".parse().unwrap();
    assert!(Post10mm(12, 6).compatible(version));
    assert!(Post10m(12).compatible(version));
}

#[test]
fn not_compatible_above_10() {
    let version = "12.6".parse().unwrap();
    assert!(!Post10mm(12, 7).compatible(version));
    assert!(!Post10m(13).compatible(version));
    assert!(!Post10mm(11, 6).compatible(version));
    assert!(!Post10m(11).compatible(version));
}

#[test]
fn not_compatible_below_10_with_above_10() {
    let version = "12.6".parse().unwrap();
    assert!(!Pre10m(9, 1).compatible(version));
    assert!(!Pre10mm(9, 1, 2).compatible(version));
    let version = "9.1.2".parse().unwrap();
    assert!(!Post10m(12).compatible(version));
    assert!(!Post10mm(12, 6).compatible(version));
}

#[test]
fn widened_removes_minor_or_patch_number() {
    assert_eq!(Pre10mm(9, 1, 2), Pre10m(9, 1));
    assert_eq!(Post10mm(12, 9), Post10m(12));
    assert_eq!(Pre10m(9, 1), Pre10m(9, 1));
    assert_eq!(Post10m(12), Post10m(12));
}

#[test]
fn partial_ord_works_as_expected() {
    let mut versions = vec![
        Pre10mm(9, 10, 11),
        Pre10mm(9, 10, 12),
        Pre10m(8, 11),
        Pre10m(9, 11),
        Pre10m(9, 12),
        Post10mm(10, 11),
        Post10m(11),
    ];
    let mut rng = thread_rng();
    for _ in 0..1000 {
        versions.shuffle(&mut rng);
        versions.sort_by(|a, b| a.partial_cmp(b).unwrap());
        assert_eq!(
            versions,
            vec![
                Pre10m(8, 11),
                Pre10mm(9, 10, 11),
                Pre10mm(9, 10, 12),
                Pre10m(9, 11),
                Pre10m(9, 12),
                Post10mm(10, 11),
                Post10m(11),
            ]
        );
    }
}

#[test]
fn sort_key_works_as_expected() {
    let mut versions = vec![
        Pre10mm(9, 0, 0),
        Pre10mm(9, 10, 11),
        Pre10mm(9, 10, 12),
        Pre10m(9, 0),
        Pre10m(8, 11),
        Pre10m(9, 11),
        Pre10m(9, 12),
        Post10mm(10, 11),
        Post10m(11),
    ];
    let mut rng = thread_rng();
    for _ in 0..1000 {
        versions.shuffle(&mut rng);
        versions.sort_by_key(PartialVersion::sort_key);
        assert_eq!(
            versions,
            vec![
                Pre10m(8, 11),
                Pre10m(9, 0),
                Pre10mm(9, 0, 0),
                Pre10mm(9, 10, 11),
                Pre10mm(9, 10, 12),
                Pre10m(9, 11),
                Pre10m(9, 12),
                Post10mm(10, 11),
                Post10m(11),
            ]
        );
    }
}

#[test]
fn parses_version_out_of_surrounding_text() {
    assert_eq!(Ok(Version::Post10(12, 2)), "pg_ctl (PostgreSQL) 12.2".parse());
    assert_eq!(Ok(Version::Pre10(9, 6, 17)), "pg_ctl (PostgreSQL) 9.6.17".parse());
    assert_eq!(Ok(Post10mm(12, 2)), "pg_ctl (PostgreSQL) 12.2".parse());
    // A digit run glued to a word is not a version number.
    assert_eq!(Err(Missing), "17devel".parse::<PartialVersion>());
    assert_eq!(Err(Missing), "pg17devel".parse::<PartialVersion>());
}

#[test]
fn parses_version_at_word_boundaries() {
    // A dotted continuation that runs into a word falls back to the
    // shorter form, whose boundary is the dot.
    assert_eq!(Ok(Post10m(12)), "12.2x".parse::<PartialVersion>());
    // Trailing text after a complete version number does not matter.
    assert_eq!(Ok(Pre10m(9, 6)), "9.6\n".parse::<PartialVersion>());
    assert_eq!(Ok(Post10m(14)), "14\n".parse::<PartialVersion>());
}
