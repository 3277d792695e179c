//! Small verified helpers over strings.
//!
//! The agent's rules are mostly about names: command words, bundle file
//! names, identifier stamps inside file names. These helpers give exec
//! code equality and substring tests whose results are pinned to the
//! `Seq<char>` views that the contracts elsewhere speak of.

use vstd::prelude::*;

verus! {

/// `needle` occurs contiguously somewhere in `hay`.
pub open spec fn contains_seq(hay: Seq<char>, needle: Seq<char>) -> bool {
    exists|i: int|
        0 <= i && i + needle.len() <= hay.len() && #[trigger] hay.subrange(i, i + needle.len())
            == needle
}

/// Extending a string on the right cannot lose an occurrence.
pub proof fn lemma_contains_in_extension(hay: Seq<char>, tail: Seq<char>, needle: Seq<char>)
    requires
        contains_seq(hay, needle),
    ensures
        contains_seq(hay + tail, needle),
{
    let i = choose|i: int|
        0 <= i && i + needle.len() <= hay.len() && #[trigger] hay.subrange(i, i + needle.len())
            == needle;
    assert((hay + tail).subrange(i, i + needle.len() as int) =~= hay.subrange(
        i,
        i + needle.len() as int,
    ));
}

/// Character-for-character equality of two string slices.
pub fn str_eq(a: &str, b: &str) -> (r: bool)
    ensures
        r == (a@ == b@),
{
    let a_owned: String = a.to_owned();
    let b_owned: String = b.to_owned();
    a_owned == b_owned
}

/// Whether `needle` occurs contiguously in `hay`.
pub fn str_contains(hay: &str, needle: &str) -> (r: bool)
    ensures
        r == contains_seq(hay@, needle@),
{
    let hay_len = hay.unicode_len();
    let needle_len = needle.unicode_len();
    if needle_len > hay_len {
        assert(!contains_seq(hay@, needle@));
        return false;
    }
    if needle_len == 0 {
        assert(contains_seq(hay@, needle@)) by {
            assert(hay@.subrange(0, 0 + needle@.len() as int) =~= needle@);
        }
        return true;
    }
    let mut i: usize = 0;
    let end = hay_len - needle_len;
    while i <= end
        invariant
            needle_len == needle@.len(),
            hay_len == hay@.len(),
            1 <= needle_len <= hay_len,
            end == hay_len - needle_len,
            0 <= i <= end + 1,
            forall|k: int|
                0 <= k < i ==> #[trigger] hay@.subrange(k, k + needle@.len()) != needle@,
        decreases end + 1 - i,
    {
        if match_at(hay, needle, i) {
            assert(hay@.subrange(i as int, i + needle@.len()) == needle@);
            return true;
        }
        i = i + 1;
    }
    assert forall|k: int| 0 <= k && k + needle@.len() <= hay@.len() implies #[trigger] hay@.subrange(
        k,
        k + needle@.len(),
    ) != needle@ by {
        assert(k < i);
    }
    false
}

/// Whether `needle` matches `hay` starting at character position `at`.
fn match_at(hay: &str, needle: &str, at: usize) -> (r: bool)
    requires
        at + needle@.len() <= hay@.len(),
    ensures
        r == (hay@.subrange(at as int, at + needle@.len()) == needle@),
{
    let hay_len = hay.unicode_len();
    let needle_len = needle.unicode_len();
    let mut j: usize = 0;
    while j < needle_len
        invariant
            hay_len == hay@.len(),
            needle_len == needle@.len(),
            at + needle@.len() <= hay@.len(),
            0 <= j <= needle_len,
            forall|l: int| 0 <= l < j ==> hay@[at + l] == needle@[l],
        decreases needle_len - j,
    {
        if hay.get_char(at + j) != needle.get_char(j) {
            assert(hay@.subrange(at as int, at + needle@.len())[j as int] == hay@[at + j]);
            return false;
        }
        j = j + 1;
    }
    assert(hay@.subrange(at as int, at + needle@.len()) =~= needle@);
    true
}

} // verus!
