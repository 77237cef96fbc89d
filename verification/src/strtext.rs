//! Text primitives for file names: locating the last occurrence of a
//! character and substring containment, over `Seq<char>` views.

use vstd::prelude::*;

verus! {

/// `c` occurs somewhere in `s`.
pub open spec fn contains_char(s: Seq<char>, c: char) -> bool {
    exists|i: int| 0 <= i < s.len() && s[i] == c
}

/// The part of `s` strictly after the last occurrence of `c`;
/// all of `s` when `c` does not occur.
pub open spec fn suffix_after_last(s: Seq<char>, c: char) -> Seq<char>
    decreases s.len(),
{
    if s.len() == 0 {
        s
    } else if s.last() == c {
        Seq::empty()
    } else {
        suffix_after_last(s.drop_last(), c).push(s.last())
    }
}

/// The part of `s` strictly before the last occurrence of `c`;
/// all of `s` when `c` does not occur.
pub open spec fn prefix_before_last(s: Seq<char>, c: char) -> Seq<char>
    decreases s.len(),
{
    if s.len() == 0 {
        s
    } else if s.last() == c {
        s.drop_last()
    } else if contains_char(s.drop_last(), c) {
        prefix_before_last(s.drop_last(), c)
    } else {
        s
    }
}

/// `needle` occurs in `hay` starting at index `i`.
pub open spec fn substring_at(hay: Seq<char>, needle: Seq<char>, i: int) -> bool {
    &&& 0 <= i
    &&& i + needle.len() <= hay.len()
    &&& hay.subrange(i, i + needle.len()) == needle
}

/// `needle` occurs somewhere in `hay`.
pub open spec fn is_substring(needle: Seq<char>, hay: Seq<char>) -> bool {
    exists|i: int| substring_at(hay, needle, i)
}

/// Around the last occurrence of `c`, a string splits into the prefix
/// before it and the suffix after it.
pub proof fn lemma_split_at_last(s: Seq<char>, c: char, i: int)
    requires
        0 <= i < s.len(),
        s[i] == c,
        forall|j: int| i < j < s.len() ==> s[j] != c,
    ensures
        contains_char(s, c),
        suffix_after_last(s, c) == s.subrange(i + 1, s.len() as int),
        prefix_before_last(s, c) == s.subrange(0, i),
    decreases s.len(),
{
    assert(contains_char(s, c));
    if i == s.len() - 1 {
        assert(s.last() == c);
        assert(suffix_after_last(s, c) =~= s.subrange(i + 1, s.len() as int));
        assert(prefix_before_last(s, c) =~= s.subrange(0, i));
    } else {
        assert(s.last() != c);
        let t = s.drop_last();
        assert(t =~= s.subrange(0, s.len() - 1));
        assert(t[i] == c);
        lemma_split_at_last(t, c, i);
        assert(suffix_after_last(t, c) == t.subrange(i + 1, t.len() as int));
        assert(suffix_after_last(s, c) =~= s.subrange(i + 1, s.len() as int));
        assert(contains_char(t, c));
        assert(prefix_before_last(s, c) == prefix_before_last(t, c));
        assert(t.subrange(0, i) =~= s.subrange(0, i));
    }
}

/// When `c` does not occur, both the prefix-before and suffix-after
/// splits leave the string whole.
pub proof fn lemma_no_occurrence(s: Seq<char>, c: char)
    requires
        !contains_char(s, c),
    ensures
        suffix_after_last(s, c) == s,
        prefix_before_last(s, c) == s,
    decreases s.len(),
{
    if s.len() > 0 {
        assert(s.last() != c);
        let t = s.drop_last();
        assert(forall|j: int| 0 <= j < t.len() ==> t[j] == s[j]);
        assert(!contains_char(t, c));
        lemma_no_occurrence(t, c);
        assert(suffix_after_last(s, c) =~= s);
    }
}

/// Index of the last occurrence of `c` in `s`, if any.
pub fn find_last_char(s: &str, c: char) -> (r: Option<usize>)
    ensures
        match r {
            Some(i) => i < s@.len() && s@[i as int] == c && (forall|j: int|
                i < j < s@.len() ==> s@[j] != c),
            None => !contains_char(s@, c),
        },
{
    let n = s.unicode_len();
    let mut k: usize = n;
    while k > 0
        invariant
            k <= n,
            n == s@.len(),
            forall|j: int| k <= j < s@.len() ==> s@[j] != c,
        decreases k,
    {
        k = k - 1;
        if s.get_char(k) == c {
            return Some(k);
        }
    }
    None
}

/// Whether `needle` occurs in `hay` starting exactly at index `i`.
fn matches_at(hay: &str, needle: &str, i: usize) -> (r: bool)
    requires
        i + needle@.len() <= hay@.len(),
    ensures
        r == substring_at(hay@, needle@, i as int),
{
    let n = hay.unicode_len();
    let m = needle.unicode_len();
    let mut j: usize = 0;
    while j < m
        invariant
            j <= m,
            m == needle@.len(),
            n == hay@.len(),
            i + m <= n,
            forall|t: int| 0 <= t < j ==> hay@[i + t] == needle@[t],
        decreases m - j,
    {
        if hay.get_char(i + j) != needle.get_char(j) {
            proof {
                if substring_at(hay@, needle@, i as int) {
                    let jj = j as int;
                    assert(hay@.subrange(i as int, i + needle@.len())[jj] == needle@[jj]);
                }
            }
            return false;
        }
        j = j + 1;
    }
    proof {
        assert(hay@.subrange(i as int, i + needle@.len()) =~= needle@);
    }
    true
}

/// Whether `needle` occurs anywhere in `hay`; an empty needle occurs
/// in every string.
pub fn contains_substring(hay: &str, needle: &str) -> (r: bool)
    ensures
        r == is_substring(needle@, hay@),
{
    let n = hay.unicode_len();
    let m = needle.unicode_len();
    if m > n {
        proof {
            assert(forall|k: int| !substring_at(hay@, needle@, k));
        }
        return false;
    }
    if m == 0 {
        proof {
            assert(hay@.subrange(0, 0) =~= needle@);
            assert(substring_at(hay@, needle@, 0));
        }
        return true;
    }
    let bound = n - m;
    let mut i: usize = 0;
    while i <= bound
        invariant
            1 <= m <= n,
            n == hay@.len(),
            m == needle@.len(),
            bound == n - m,
            i <= bound + 1,
            forall|k: int| 0 <= k < i ==> !substring_at(hay@, needle@, k),
        decreases bound + 1 - i,
    {
        if matches_at(hay, needle, i) {
            assert(substring_at(hay@, needle@, i as int));
            return true;
        }
        i = i + 1;
    }
    proof {
        if is_substring(needle@, hay@) {
            let k = choose|k: int| substring_at(hay@, needle@, k);
            assert(k <= bound);
            assert(!substring_at(hay@, needle@, k));
        }
    }
    false
}

} // verus!
