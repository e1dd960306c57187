//! Scanning for a version number inside arbitrary text.
//!
//! A version number is one to three runs of decimal digits separated by
//! dots, e.g. `9.6.17` or `14`. It may be embedded in other text, e.g.
//! `pg_ctl (PostgreSQL) 12.2`, so the scan looks for the first digit run
//! that starts at a word boundary, and stops at a word boundary too: a
//! digit run followed directly by a letter, an underscore, or a non-ASCII
//! byte is not a version number. The text is scanned byte-wise as UTF-8;
//! every non-ASCII byte is treated as a word byte.
//!
//! Each captured component is converted to `u32`; a component whose value
//! does not fit is recorded as absent, exactly as if it had not been
//! captured, and the caller decides which shapes of (major, minor, patch)
//! are acceptable.

use vstd::prelude::*;

verus! {

/// Is `b` the ASCII code of a decimal digit?
pub open spec fn is_digit_byte(b: u8) -> bool {
    48 <= b && b <= 57
}

/// Is `b` a word byte: an ASCII letter, digit or underscore, or any
/// non-ASCII byte (treated conservatively as if it were a letter)?
pub open spec fn is_word_byte(b: u8) -> bool {
    ||| is_digit_byte(b)
    ||| (97 <= b && b <= 122)
    ||| (65 <= b && b <= 90)
    ||| b == 95
    ||| b >= 128
}

/// The index just past the maximal run of digit bytes starting at `i`.
pub open spec fn digit_run_end(s: Seq<u8>, i: int) -> int
    decreases s.len() - i when 0 <= i <= s.len()
{
    if i < s.len() && is_digit_byte(s[i]) {
        digit_run_end(s, i + 1)
    } else {
        i
    }
}

pub proof fn lemma_digit_run_end(s: Seq<u8>, i: int)
    requires
        0 <= i <= s.len(),
    ensures
        i <= digit_run_end(s, i) <= s.len(),
        forall|k: int| i <= k < digit_run_end(s, i) ==> is_digit_byte(#[trigger] s[k]),
        digit_run_end(s, i) < s.len() ==> !is_digit_byte(s[digit_run_end(s, i)]),
    decreases s.len() - i,
{
    if i < s.len() && is_digit_byte(s[i]) {
        lemma_digit_run_end(s, i + 1);
    }
}

/// The numeric value of a run of digit bytes, read in base 10.
pub open spec fn digits_val(s: Seq<u8>) -> nat
    decreases s.len()
{
    if s.len() == 0 {
        0
    } else {
        (digits_val(s.drop_last()) * 10 + (s.last() - 48)) as nat
    }
}

/// The value of a digit run as a `u32`, or `None` when it does not fit.
pub open spec fn part_val(s: Seq<u8>) -> Option<u32> {
    if digits_val(s) <= u32::MAX {
        Some(digits_val(s) as u32)
    } else {
        None
    }
}

/// May a version number start at index `i`: a digit that is not preceded
/// by a word byte?
pub open spec fn valid_start(s: Seq<u8>, i: int) -> bool {
    &&& 0 <= i < s.len()
    &&& is_digit_byte(s[i])
    &&& (i == 0 || !is_word_byte(s[i - 1]))
}

/// Is index `i` at a word boundary: at the end of the text, or at a byte
/// that is not a word byte?
pub open spec fn boundary_at(s: Seq<u8>, i: int) -> bool {
    i >= s.len() || !is_word_byte(s[i])
}

/// Does a match starting at `i` succeed? The first digit run must end at
/// a word boundary (a dot counts as a boundary, so a dotted continuation
/// never blocks the match).
pub open spec fn match_ok_at(s: Seq<u8>, i: int) -> bool {
    boundary_at(s, digit_run_end(s, i))
}

/// The first position at or after `i` where a version number matches.
pub open spec fn find_match_from(s: Seq<u8>, i: int) -> Option<int>
    decreases s.len() - i when 0 <= i <= s.len()
{
    if i >= s.len() {
        None
    } else if valid_start(s, i) && match_ok_at(s, i) {
        Some(i)
    } else {
        find_match_from(s, i + 1)
    }
}

/// Is there a dot at `i` followed directly by a digit?
pub open spec fn dot_digit_at(s: Seq<u8>, i: int) -> bool {
    i + 1 < s.len() && s[i] == 46 && is_digit_byte(s[i + 1])
}

/// The three captured components of the match at `i`, each already
/// converted to `u32`. A component is `None` when it is not present in
/// the text or when its value does not fit in `u32`. A trailing component
/// whose digit run does not end at a word boundary is dropped, and the
/// match falls back to the shorter form, whose boundary is the dot.
pub open spec fn captures_at(s: Seq<u8>, i: int) -> (Option<u32>, Option<u32>, Option<u32>) {
    let e1 = digit_run_end(s, i);
    let a = part_val(s.subrange(i, e1));
    if dot_digit_at(s, e1) {
        let e2 = digit_run_end(s, e1 + 1);
        let b = part_val(s.subrange(e1 + 1, e2));
        if dot_digit_at(s, e2) {
            let e3 = digit_run_end(s, e2 + 1);
            if boundary_at(s, e3) {
                (a, b, part_val(s.subrange(e2 + 1, e3)))
            } else {
                (a, b, None)
            }
        } else if boundary_at(s, e2) {
            (a, b, None)
        } else {
            (a, None, None)
        }
    } else {
        (a, None, None)
    }
}

/// The captured components of the first version number in `s`, or `None`
/// when no version number occurs in `s` at all.
pub open spec fn spec_find_captures(s: Seq<u8>) -> Option<(Option<u32>, Option<u32>, Option<u32>)> {
    match find_match_from(s, 0) {
        Some(i) => Some(captures_at(s, i)),
        None => None,
    }
}

/// Exec mirror of [`is_digit_byte`].
pub fn digit_byte(b: u8) -> (r: bool)
    ensures
        r == is_digit_byte(b),
{
    48 <= b && b <= 57
}

/// Exec mirror of [`is_word_byte`].
pub fn word_byte(b: u8) -> (r: bool)
    ensures
        r == is_word_byte(b),
{
    digit_byte(b) || (97 <= b && b <= 122) || (65 <= b && b <= 90) || b == 95 || b >= 128
}

/// Exec mirror of [`digit_run_end`].
fn run_end(v: &Vec<u8>, i: usize) -> (e: usize)
    requires
        i <= v@.len(),
    ensures
        e == digit_run_end(v@, i as int),
        i <= e <= v@.len(),
{
    let mut e = i;
    while e < v.len() && digit_byte(v[e])
        invariant
            i <= e <= v@.len(),
            digit_run_end(v@, i as int) == digit_run_end(v@, e as int),
        decreases v@.len() - e,
    {
        e = e + 1;
    }
    e
}

/// Exec mirror of [`part_val`], over the digit run `v[start..end]`.
fn part_from_digits(v: &Vec<u8>, start: usize, end: usize) -> (r: Option<u32>)
    requires
        start <= end <= v@.len(),
        forall|k: int| start <= k < end ==> is_digit_byte(#[trigger] v@[k]),
    ensures
        r == part_val(v@.subrange(start as int, end as int)),
{
    let mut j = start;
    let mut val: u64 = 0;
    let mut over = false;
    while j < end
        invariant
            start <= j <= end <= v@.len(),
            forall|k: int| start <= k < end ==> is_digit_byte(#[trigger] v@[k]),
            !over ==> val == digits_val(v@.subrange(start as int, j as int)) && val <= u32::MAX,
            over ==> digits_val(v@.subrange(start as int, j as int)) > u32::MAX,
        decreases end - j,
    {
        let ghost pre = v@.subrange(start as int, j as int);
        let ghost post = v@.subrange(start as int, j as int + 1);
        proof {
            assert(post.drop_last() =~= pre);
            assert(post.last() == v@[j as int]);
            assert(digits_val(post) == (digits_val(pre) * 10 + (v@[j as int] - 48)) as nat);
        }
        let b = v[j];
        let d: u64 = (b - 48) as u64;
        if over {
            proof {
                assert(digits_val(pre) * 10 >= digits_val(pre)) by (nonlinear_arith);
            }
        } else {
            let next = val * 10 + d;
            if next > 0xffff_ffff {
                over = true;
            } else {
                val = next;
            }
        }
        j = j + 1;
    }
    proof {
        assert(v@.subrange(start as int, j as int) =~= v@.subrange(start as int, end as int));
    }
    if over {
        None
    } else {
        Some(val as u32)
    }
}

/// Compute [`captures_at`] for a match whose first run ends at `e1`.
fn captures_from(v: &Vec<u8>, i: usize, e1: usize, a: Option<u32>) -> (r: (
    Option<u32>,
    Option<u32>,
    Option<u32>,
))
    requires
        i <= e1 <= v@.len(),
        e1 == digit_run_end(v@, i as int),
        a == part_val(v@.subrange(i as int, e1 as int)),
    ensures
        r == captures_at(v@, i as int),
{
    if e1 < v.len() && e1 + 1 < v.len() && v[e1] == 46 && digit_byte(v[e1 + 1]) {
        let e2 = run_end(v, e1 + 1);
        proof {
            lemma_digit_run_end(v@, e1 as int + 1);
        }
        let b = part_from_digits(v, e1 + 1, e2);
        if e2 < v.len() && e2 + 1 < v.len() && v[e2] == 46 && digit_byte(v[e2 + 1]) {
            let e3 = run_end(v, e2 + 1);
            proof {
                lemma_digit_run_end(v@, e2 as int + 1);
            }
            if e3 == v.len() || !word_byte(v[e3]) {
                let c = part_from_digits(v, e2 + 1, e3);
                (a, b, c)
            } else {
                (a, b, None)
            }
        } else if e2 == v.len() || !word_byte(v[e2]) {
            (a, b, None)
        } else {
            (a, None, None)
        }
    } else {
        (a, None, None)
    }
}

/// Exec mirror of [`spec_find_captures`]: scan `v` for the first version
/// number and return its components.
pub fn find_captures(v: &Vec<u8>) -> (r: Option<(Option<u32>, Option<u32>, Option<u32>)>)
    ensures
        r == spec_find_captures(v@),
{
    let mut i: usize = 0;
    while i < v.len()
        invariant
            i <= v@.len(),
            find_match_from(v@, 0) == find_match_from(v@, i as int),
        decreases v@.len() - i,
    {
        let starts_here = digit_byte(v[i]) && (i == 0 || !word_byte(v[i - 1]));
        if starts_here {
            let e1 = run_end(v, i);
            if e1 == v.len() || !word_byte(v[e1]) {
                proof {
                    lemma_digit_run_end(v@, i as int);
                }
                let a = part_from_digits(v, i, e1);
                let r = captures_from(v, i, e1, a);
                return Some(r);
            }
        }
        i = i + 1;
    }
    None
}

} // verus!
