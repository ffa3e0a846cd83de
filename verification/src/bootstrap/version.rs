//! The libobs version that the wrapper targets, and the check whether an
//! installed OBS needs an update.
use vstd::prelude::*;

use crate::utils::decimal::{
    format_u64, is_digit, lemma_decimal_text, parse_u64, spec_decimal, spec_parse_u64,
};
use crate::utils::error::ObsError;
use crate::utils::text::{chars_of, push_char};

verus! {

/// Major version of the libobs API that the wrapper is built for.
pub const LIBOBS_API_MAJOR_VER: u64 = 32;

/// Minor version of the libobs API that the wrapper is built for.
pub const LIBOBS_API_MINOR_VER: u64 = 0;

/// Patch version of the libobs API that the wrapper is built for.
pub const LIBOBS_API_PATCH_VER: u64 = 4;

/// The pieces of `s` between occurrences of `sep`, as `str::split` yields them:
/// there is always one more piece than there are separators.
pub open spec fn spec_split(s: Seq<char>, sep: char) -> Seq<Seq<char>>
    decreases s.len(),
{
    if s.len() == 0 {
        seq![Seq::<char>::empty()]
    } else {
        let p = spec_split(s.drop_last(), sep);
        if s.last() == sep {
            p.push(Seq::<char>::empty())
        } else {
            p.update(p.len() - 1, p.last().push(s.last()))
        }
    }
}

/// Splitting always yields at least one piece.
pub proof fn lemma_split_nonempty(s: Seq<char>, sep: char)
    ensures
        spec_split(s, sep).len() >= 1,
    decreases s.len(),
{
    if s.len() > 0 {
        lemma_split_nonempty(s.drop_last(), sep);
    }
}

/// Appending text without separators extends the last piece.
proof fn lemma_split_append_plain(s: Seq<char>, t: Seq<char>, sep: char)
    requires
        forall|i: int| 0 <= i < t.len() ==> t[i] != sep,
    ensures
        spec_split(s + t, sep) == spec_split(s, sep).update(
            spec_split(s, sep).len() - 1,
            spec_split(s, sep).last() + t,
        ),
    decreases t.len(),
{
    lemma_split_nonempty(s, sep);
    if t.len() == 0 {
        assert(s + t =~= s);
        assert(spec_split(s, sep).last() + t =~= spec_split(s, sep).last());
        assert(spec_split(s, sep).update(spec_split(s, sep).len() - 1, spec_split(s, sep).last())
            =~= spec_split(s, sep));
    } else {
        let t0 = t.drop_last();
        lemma_split_append_plain(s, t0, sep);
        assert((s + t).drop_last() =~= s + t0);
        assert((s + t).last() == t.last());
        lemma_split_nonempty(s + t0, sep);
        let p = spec_split(s, sep);
        assert(p.last() + t =~= (p.last() + t0).push(t.last()));
        assert(spec_split(s + t, sep) =~= p.update(p.len() - 1, p.last() + t));
    }
}

/// Appending a separator starts a new, empty piece.
proof fn lemma_split_append_sep(s: Seq<char>, sep: char)
    ensures
        spec_split(s.push(sep), sep) == spec_split(s, sep).push(Seq::<char>::empty()),
{
    assert(s.push(sep).drop_last() =~= s);
}

/// Splits a text at every occurrence of `sep`, as `str::split` does.
pub fn split_chars(s: &Vec<char>, sep: char) -> (r: Vec<Vec<char>>)
    ensures
        r@.len() == spec_split(s@, sep).len(),
        forall|i: int| 0 <= i < r@.len() ==> #[trigger] r@[i]@ == spec_split(s@, sep)[i],
{
    let mut parts: Vec<Vec<char>> = Vec::new();
    let mut cur: Vec<char> = Vec::new();
    let mut i: usize = 0;
    while i < s.len()
        invariant
            i <= s@.len(),
            parts@.len() + 1 == spec_split(s@.take(i as int), sep).len(),
            forall|k: int| 0 <= k < parts@.len() ==> #[trigger] parts@[k]@ == spec_split(s@.take(i as int), sep)[k],
            cur@ == spec_split(s@.take(i as int), sep).last(),
        decreases s@.len() - i,
    {
        let c = s[i];
        let ghost prev = s@.take(i as int);
        proof {
            lemma_split_nonempty(prev, sep);
            assert(s@.take(i as int + 1).drop_last() =~= prev);
            assert(s@.take(i as int + 1).last() == c);
        }
        if c == sep {
            let done = cur;
            parts.push(done);
            cur = Vec::new();
            assert(cur@ =~= Seq::<char>::empty());
        } else {
            cur.push(c);
        }
        i = i + 1;
    }
    assert(s@.take(s@.len() as int) =~= s@);
    parts.push(cur);
    parts
}

/// The three numbers of a version text `major.minor.patch`, each read as
/// `u64::from_str` reads it; `None` when the text is not of that form.
pub open spec fn spec_parse_version(s: Seq<char>) -> Option<(u64, u64, u64)> {
    let parts = spec_split(s, '.');
    if parts.len() != 3 {
        None
    } else {
        match (spec_parse_u64(parts[0]), spec_parse_u64(parts[1]), spec_parse_u64(parts[2])) {
            (Some(major), Some(minor), Some(patch)) => Some((major, minor, patch)),
            _ => None,
        }
    }
}

/// Whether an installed OBS of the given version should be replaced: when its
/// major or minor version differs from the targeted one, or its patch version is
/// older. `None` when the text is not a version.
pub open spec fn spec_should_update(s: Seq<char>) -> Option<bool> {
    match spec_parse_version(s) {
        Some((major, minor, patch)) => Some(
            major != LIBOBS_API_MAJOR_VER || minor != LIBOBS_API_MINOR_VER || patch
                < LIBOBS_API_PATCH_VER,
        ),
        None => None,
    }
}

/// The version text `major.minor.patch`.
pub open spec fn spec_version_text(major: u64, minor: u64, patch: u64) -> Seq<char> {
    spec_decimal(major as nat) + seq!['.'] + spec_decimal(minor as nat) + seq!['.']
        + spec_decimal(patch as nat)
}

/// Decides whether an installed OBS of version `version_str` should be updated.
/// Fails with `InvalidVersionString` when the text is not three numbers
/// separated by dots.
pub fn should_update(version_str: &str) -> (r: Result<bool, ObsError>)
    ensures
        spec_should_update(version_str@) matches Some(b) ==> r == Ok::<bool, ObsError>(b),
        spec_should_update(version_str@) is None ==> (r matches Err(ObsError::InvalidVersionString(
            m,
        )) && m@ == version_str@),
{
    let chars = chars_of(version_str);
    let parts = split_chars(&chars, '.');
    if parts.len() != 3 {
        return Err(ObsError::InvalidVersionString(version_str.to_owned()));
    }
    let major = parse_u64(&parts[0]);
    let minor = parse_u64(&parts[1]);
    let patch = parse_u64(&parts[2]);
    assert(parts@[0]@ == spec_split(version_str@, '.')[0]);
    assert(parts@[1]@ == spec_split(version_str@, '.')[1]);
    assert(parts@[2]@ == spec_split(version_str@, '.')[2]);
    match (major, minor, patch) {
        (Some(major), Some(minor), Some(patch)) => Ok(
            major != LIBOBS_API_MAJOR_VER || minor != LIBOBS_API_MINOR_VER || patch
                < LIBOBS_API_PATCH_VER,
        ),
        _ => Err(ObsError::InvalidVersionString(version_str.to_owned())),
    }
}

/// Writes a version as `major.minor.patch`.
pub fn format_version(major: u64, minor: u64, patch: u64) -> (r: String)
    ensures
        r@ == spec_version_text(major, minor, patch),
{
    let mut s = format_u64(major);
    push_char(&mut s, '.');
    let b = format_u64(minor);
    s.append(b.as_str());
    push_char(&mut s, '.');
    let c = format_u64(patch);
    s.append(c.as_str());
    s
}

/// The version of libobs that the wrapper targets, as `major.minor.patch`.
pub fn library_obs_version() -> (r: String)
    ensures
        r@ == spec_version_text(LIBOBS_API_MAJOR_VER, LIBOBS_API_MINOR_VER, LIBOBS_API_PATCH_VER),
{
    format_version(LIBOBS_API_MAJOR_VER, LIBOBS_API_MINOR_VER, LIBOBS_API_PATCH_VER)
}

/// The decimal text of a number holds no dot.
proof fn lemma_decimal_has_no_dot(n: nat)
    ensures
        forall|i: int| 0 <= i < spec_decimal(n).len() ==> spec_decimal(n)[i] != '.',
{
    lemma_decimal_text(n);
    assert forall|i: int| 0 <= i < spec_decimal(n).len() implies spec_decimal(n)[i] != '.' by {
        assert(is_digit(spec_decimal(n)[i]));
    }
}

/// Reading back a written version gives its three numbers.
pub proof fn lemma_version_text_roundtrip(major: u64, minor: u64, patch: u64)
    ensures
        spec_parse_version(spec_version_text(major, minor, patch)) == Some((major, minor, patch)),
{
    let a = spec_decimal(major as nat);
    let b = spec_decimal(minor as nat);
    let c = spec_decimal(patch as nat);
    lemma_decimal_has_no_dot(major as nat);
    lemma_decimal_has_no_dot(minor as nat);
    lemma_decimal_has_no_dot(patch as nat);
    crate::utils::decimal::lemma_parse_decimal_roundtrip(major);
    crate::utils::decimal::lemma_parse_decimal_roundtrip(minor);
    crate::utils::decimal::lemma_parse_decimal_roundtrip(patch);
    let e = Seq::<char>::empty();
    lemma_split_append_plain(e, a, '.');
    assert(e + a =~= a);
    assert(spec_split(e, '.') =~= seq![e]);
    assert(spec_split(a, '.') =~= seq![a]);
    lemma_split_append_sep(a, '.');
    let s1 = a.push('.');
    lemma_split_append_plain(s1, b, '.');
    let s2 = s1 + b;
    lemma_split_append_sep(s2, '.');
    let s3 = s2.push('.');
    lemma_split_append_plain(s3, c, '.');
    let s4 = s3 + c;
    assert(spec_split(s2, '.') =~= seq![a, b]);
    assert(spec_split(s4, '.') =~= seq![a, b, c]);
    assert(s4 =~= spec_version_text(major, minor, patch));
}

/// Checking a written version against the targeted one gives the comparison of
/// its numbers; in particular the targeted version itself needs no update.
pub proof fn lemma_should_update_version_text(major: u64, minor: u64, patch: u64)
    ensures
        spec_should_update(spec_version_text(major, minor, patch)) == Some(
            major != LIBOBS_API_MAJOR_VER || minor != LIBOBS_API_MINOR_VER || patch
                < LIBOBS_API_PATCH_VER,
        ),
        spec_should_update(
            spec_version_text(LIBOBS_API_MAJOR_VER, LIBOBS_API_MINOR_VER, LIBOBS_API_PATCH_VER),
        ) == Some(false),
{
    lemma_version_text_roundtrip(major, minor, patch);
    lemma_version_text_roundtrip(LIBOBS_API_MAJOR_VER, LIBOBS_API_MINOR_VER, LIBOBS_API_PATCH_VER);
}

/// The wrapper targets libobs 32.0.4, the API version of the libobs bindings
/// it is built with.
pub proof fn lemma_targeted_libobs_version()
    ensures
        LIBOBS_API_MAJOR_VER == 32,
        LIBOBS_API_MINOR_VER == 0,
        LIBOBS_API_PATCH_VER == 4,
{
}

} // verus!
