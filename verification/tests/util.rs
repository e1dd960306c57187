//! Tests for the shared helpers: decimal rendering and `PATH`-style
//! splitting.

use postgresfixture::util::split_colon;
use postgresfixture::version::PartialVersion::{Post10m, Pre10mm};

#[test]
fn renders_decimal_numbers_through_versions() {
    // Exercises the digit renderer across several magnitudes, including
    // the largest value a component can hold.
    assert_eq!("0.0.0", Pre10mm(0, 0, 0).to_text());
    assert_eq!("4294967295", Post10m(4294967295).to_text());
    assert_eq!("1.20.300", Pre10mm(1, 20, 300).to_text());
}

#[test]
fn splits_on_colons() {
    let segs = split_colon("/usr/local/bin:/usr/bin:/bin");
    assert_eq!(vec!["/usr/local/bin", "/usr/bin", "/bin"], segs);
}

#[test]
fn splitting_empty_text_gives_one_empty_segment() {
    assert_eq!(vec![""], split_colon(""));
}

#[test]
fn every_separator_ends_a_segment() {
    assert_eq!(vec!["", ""], split_colon(":"));
    assert_eq!(vec!["a", "", "b"], split_colon("a::b"));
    assert_eq!(vec!["", "a", ""], split_colon(":a:"));
}
