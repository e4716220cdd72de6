//! Searching in strings.

use vstd::prelude::*;

verus! {

/// Whether `needle` stands in `haystack` at the place `i`.
pub open spec fn occurs_at(haystack: Seq<char>, needle: Seq<char>, i: int) -> bool {
    0 <= i && i + needle.len() <= haystack.len() && haystack.subrange(i, i + needle.len())
        == needle
}

/// Whether `needle` stands somewhere in `haystack`.
pub open spec fn spec_contains(haystack: Seq<char>, needle: Seq<char>) -> bool {
    exists|i: int| occurs_at(haystack, needle, i)
}

/// Whether `needle` stands in `haystack` at the place `at`.
pub(crate) fn matches_at(haystack: &str, needle: &str, at: usize) -> (b: bool)
    requires
        at + needle@.len() <= haystack@.len() <= usize::MAX,
    ensures
        b == occurs_at(haystack@, needle@, at as int),
{
    let m = needle.unicode_len();
    let ghost part = haystack@.subrange(at as int, at + m);
    let mut j: usize = 0;
    while j < m
        invariant
            0 <= j <= m,
            m == needle@.len(),
            at + m <= haystack@.len() <= usize::MAX,
            part == haystack@.subrange(at as int, at + m),
            forall|k: int| 0 <= k < j ==> part[k] == needle@[k],
        decreases m - j,
    {
        assert(part[j as int] == haystack@[at + j]);
        if haystack.get_char(at + j) != needle.get_char(j) {
            return false;
        }
        j += 1;
    }
    assert(part =~= needle@);
    true
}

/// Whether `needle` stands somewhere in `haystack`.
pub fn contains(haystack: &str, needle: &str) -> (b: bool)
    ensures
        b == spec_contains(haystack@, needle@),
{
    let n = haystack.unicode_len();
    let m = needle.unicode_len();
    if m > n {
        return false;
    }
    let last = n - m;
    let mut i: usize = 0;
    loop
        invariant
            0 <= i <= last,
            n == haystack@.len(),
            m == needle@.len(),
            last == n - m,
            forall|k: int| 0 <= k < i ==> !occurs_at(haystack@, needle@, k),
        decreases last - i,
    {
        if matches_at(haystack, needle, i) {
            return true;
        }
        if i == last {
            return false;
        }
        i += 1;
    }
}

} // verus!
