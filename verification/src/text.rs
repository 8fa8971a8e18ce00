//! String comparisons over the character view of `str`.

use vstd::prelude::*;
use vstd::std_specs::iter::IteratorSpec;

verus! {

broadcast use vstd::string::group_string_axioms;

/// Whether two strings hold the same characters.
pub fn str_eq(a: &str, b: &str) -> (same: bool)
    ensures
        same == (a@ == b@),
{
    let mut left = a.chars();
    let mut right = b.chars();
    let ghost mut seen: int = 0;
    loop
        invariant
            left.obeys_prophetic_iter_laws(),
            right.obeys_prophetic_iter_laws(),
            0 <= seen <= a@.len(),
            seen <= b@.len(),
            left.remaining() == a@.skip(seen),
            right.remaining() == b@.skip(seen),
            a@.take(seen) == b@.take(seen),
        decreases a@.len() - seen,
    {
        let x = left.next();
        let y = right.next();
        match (x, y) {
            (Some(c), Some(d)) => {
                if c != d {
                    assert(a@[seen] != b@[seen]);
                    return false;
                }
                proof {
                    assert(a@.take(seen + 1) == a@.take(seen).push(a@[seen]));
                    assert(b@.take(seen + 1) == b@.take(seen).push(b@[seen]));
                    assert(a@.skip(seen).drop_first() == a@.skip(seen + 1));
                    assert(b@.skip(seen).drop_first() == b@.skip(seen + 1));
                    seen = seen + 1;
                }
            },
            (None, None) => {
                assert(a@.take(seen) == a@);
                assert(b@.take(seen) == b@);
                return true;
            },
            _ => {
                return false;
            },
        }
    }
}

/// Whether `s` begins with the characters of `prefix`.
pub fn starts_with(s: &str, prefix: &str) -> (found: bool)
    ensures
        found == prefix@.is_prefix_of(s@),
{
    let mut whole = s.chars();
    let mut head = prefix.chars();
    let ghost mut seen: int = 0;
    loop
        invariant
            whole.obeys_prophetic_iter_laws(),
            head.obeys_prophetic_iter_laws(),
            0 <= seen <= prefix@.len(),
            seen <= s@.len(),
            whole.remaining() == s@.skip(seen),
            head.remaining() == prefix@.skip(seen),
            prefix@.take(seen) == s@.take(seen),
        decreases prefix@.len() - seen,
    {
        match head.next() {
            None => {
                assert(prefix@.take(seen) == prefix@);
                assert(s@.take(seen) == s@.subrange(0, prefix@.len() as int));
                return true;
            },
            Some(c) => {
                match whole.next() {
                    None => {
                        return false;
                    },
                    Some(d) => {
                        if c != d {
                            assert(prefix@.len() <= s@.len() ==> prefix@[seen] != s@.subrange(
                                0,
                                prefix@.len() as int,
                            )[seen]);
                            return false;
                        }
                        proof {
                            assert(prefix@.take(seen + 1) == prefix@.take(seen).push(prefix@[seen]));
                            assert(s@.take(seen + 1) == s@.take(seen).push(s@[seen]));
                            assert(prefix@.skip(seen).drop_first() == prefix@.skip(seen + 1));
                            assert(s@.skip(seen).drop_first() == s@.skip(seen + 1));
                            seen = seen + 1;
                        }
                    },
                }
            },
        }
    }
}

/// Whether a pattern admits a path: a pattern that ends in `*` admits every
/// path that begins with the characters before the `*`; any other pattern
/// admits only itself.
pub open spec fn pattern_admits(pattern: Seq<char>, path: Seq<char>) -> bool {
    if pattern.len() > 0 && pattern.last() == '*' {
        pattern.drop_last().is_prefix_of(path)
    } else {
        path == pattern
    }
}

/// Matches one path against one pattern with an optional trailing wildcard.
pub fn matches_pattern(pattern: &str, path: &str) -> (admitted: bool)
    ensures
        admitted == pattern_admits(pattern@, path@),
{
    let n = pattern.unicode_len();
    if n > 0 && pattern.get_char(n - 1) == '*' {
        let stem = pattern.substring_char(0, n - 1);
        starts_with(path, stem)
    } else {
        str_eq(path, pattern)
    }
}

/// Copies an optional string.
pub fn clone_optional(text: &Option<String>) -> (copy: Option<String>)
    ensures
        copy.deep_view() == text.deep_view(),
{
    match text {
        Some(s) => Some(s.clone()),
        None => None,
    }
}

} // verus!
