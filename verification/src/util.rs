//! Small shared helpers: decimal rendering, `PATH`-style list handling,
//! and opening files.

use vstd::prelude::*;
use vstd::string::StringExecFns;

verus! {

/// How [`open_path`] opens a file.
pub(crate) enum OpenKind {
    /// Read-only; the file must exist.
    ReadOnly,
    /// Create the file (mode 0666 before umask) when absent, open it
    /// append-only: how a lock file is opened. No bytes are ever
    /// written through the descriptor.
    LockFile,
}

/// Relies on `nix::fcntl::open`: opens the file at `path` as `kind`
/// asks, and returns the new file descriptor, or the `errno` on
/// failure.
#[verifier::external_body]
pub(crate) fn open_path(path: &str, kind: OpenKind) -> (r: Result<i32, i32>) {
    let (flags, mode) = match kind {
        OpenKind::ReadOnly => (nix::fcntl::OFlag::O_RDONLY, nix::sys::stat::Mode::empty()),
        OpenKind::LockFile => (
            nix::fcntl::OFlag::O_CREAT | nix::fcntl::OFlag::O_APPEND | nix::fcntl::OFlag::O_WRONLY,
            nix::sys::stat::Mode::from_bits_truncate(0o666),
        ),
    };
    match nix::fcntl::open(std::path::Path::new(path), flags, mode) {
        Ok(fd) => Ok(fd),
        Err(err) => Err(err as i32),
    }
}

/// The character for the decimal digit `d`.
pub open spec fn digit_char(d: nat) -> char {
    if d == 0 {
        '0'
    } else if d == 1 {
        '1'
    } else if d == 2 {
        '2'
    } else if d == 3 {
        '3'
    } else if d == 4 {
        '4'
    } else if d == 5 {
        '5'
    } else if d == 6 {
        '6'
    } else if d == 7 {
        '7'
    } else if d == 8 {
        '8'
    } else {
        '9'
    }
}

/// The decimal rendering of `n`, without leading zeroes (except for `0`
/// itself).
pub open spec fn dec_str(n: nat) -> Seq<char>
    decreases n,
{
    if n < 10 {
        seq![digit_char(n)]
    } else {
        dec_str(n / 10).push(digit_char(n % 10))
    }
}

/// Append the single decimal digit `d` to `out`.
fn push_digit(out: &mut String, d: u32)
    requires
        d < 10,
    ensures
        final(out)@ == old(out)@ + seq![digit_char(d as nat)],
{
    proof {
        reveal_strlit("0");
        reveal_strlit("1");
        reveal_strlit("2");
        reveal_strlit("3");
        reveal_strlit("4");
        reveal_strlit("5");
        reveal_strlit("6");
        reveal_strlit("7");
        reveal_strlit("8");
        reveal_strlit("9");
    }
    match d {
        0 => out.append("0"),
        1 => out.append("1"),
        2 => out.append("2"),
        3 => out.append("3"),
        4 => out.append("4"),
        5 => out.append("5"),
        6 => out.append("6"),
        7 => out.append("7"),
        8 => out.append("8"),
        _ => out.append("9"),
    }
    proof {
        assert(out@ =~= old(out)@ + seq![digit_char(d as nat)]);
    }
}

/// Append the decimal rendering of `n` to `out`.
pub fn push_u32(out: &mut String, n: u32)
    ensures
        final(out)@ == old(out)@ + dec_str(n as nat),
    decreases n,
{
    if n < 10 {
        push_digit(out, n);
    } else {
        push_u32(out, n / 10);
        push_digit(out, n % 10);
        proof {
            assert(out@ =~= old(out)@ + dec_str(n as nat));
        }
    }
}

/// The decimal rendering of `n`, with a leading minus sign when it is
/// negative.
pub open spec fn int_str(n: int) -> Seq<char> {
    if n < 0 {
        seq!['-'] + dec_str((-n) as nat)
    } else {
        dec_str(n as nat)
    }
}

/// Append the decimal rendering of `n` to `out`.
pub fn push_i32(out: &mut String, n: i32)
    ensures
        final(out)@ == old(out)@ + int_str(n as int),
{
    if n < 0 {
        proof {
            reveal_strlit("-");
            assert("-"@ =~= seq!['-']);
        }
        out.append("-");
        // The magnitude of the smallest i32 does not fit in i32, but it
        // does fit in u32.
        let magnitude = (-(n as i64)) as u32;
        push_u32(out, magnitude);
        proof {
            assert(out@ =~= old(out)@ + int_str(n as int));
        }
    } else {
        push_u32(out, n as u32);
    }
}

/// The segments of `s` split on `:`, the separator of `PATH`-style
/// lists. Splitting the empty text gives one empty segment, and every
/// separator ends one segment and begins the next.
pub open spec fn spec_split_colon(s: Seq<char>) -> Seq<Seq<char>>
    decreases s.len(),
{
    if s.len() == 0 {
        seq![Seq::<char>::empty()]
    } else {
        let rest = spec_split_colon(s.drop_last());
        if s.last() == ':' {
            rest.push(Seq::<char>::empty())
        } else {
            rest.update(rest.len() - 1, rest.last().push(s.last()))
        }
    }
}

/// A split always has at least one segment.
pub proof fn lemma_split_colon_nonempty(s: Seq<char>)
    ensures
        spec_split_colon(s).len() >= 1,
    decreases s.len(),
{
    if s.len() > 0 {
        lemma_split_colon_nonempty(s.drop_last());
    }
}

/// Split `s` on `:`, as [`spec_split_colon`] says.
pub fn split_colon(s: &str) -> (r: Vec<String>)
    ensures
        r@.len() == spec_split_colon(s@).len(),
        forall|k: int| 0 <= k < r@.len() ==> #[trigger] r@[k]@ == spec_split_colon(s@)[k],
{
    let n = s.unicode_len();
    let mut segs: Vec<String> = Vec::new();
    let mut start: usize = 0;
    let mut i: usize = 0;
    while i < n
        invariant
            start <= i <= n,
            n == s@.len(),
            spec_split_colon(s@.take(i as int)).len() == segs@.len() + 1,
            forall|k: int|
                0 <= k < segs@.len() ==> #[trigger] segs@[k]@ == spec_split_colon(
                    s@.take(i as int),
                )[k],
            spec_split_colon(s@.take(i as int)).last() == s@.subrange(start as int, i as int),
        decreases n - i,
    {
        proof {
            lemma_split_colon_nonempty(s@.take(i as int));
            assert(s@.take(i as int + 1).drop_last() =~= s@.take(i as int));
        }
        let ghost before = spec_split_colon(s@.take(i as int));
        let ghost after = spec_split_colon(s@.take(i as int + 1));
        let c = s.get_char(i);
        if c == ':' {
            proof {
                assert(after == before.push(Seq::<char>::empty()));
            }
            let seg = s.substring_char(start, i).to_owned();
            segs.push(seg);
            start = i + 1;
            proof {
                assert(s@.subrange(start as int, i as int + 1) =~= Seq::<char>::empty());
            }
        } else {
            proof {
                assert(after == before.update(
                    before.len() - 1,
                    before.last().push(s@[i as int]),
                ));
                assert(s@.subrange(start as int, i as int).push(s@[i as int]) =~= s@.subrange(
                    start as int,
                    i as int + 1,
                ));
            }
        }
        i = i + 1;
    }
    proof {
        assert(s@.take(i as int) =~= s@);
        lemma_split_colon_nonempty(s@);
    }
    let seg = s.substring_char(start, n).to_owned();
    segs.push(seg);
    segs
}

} // verus!
