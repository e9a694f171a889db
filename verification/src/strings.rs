//! Verified helpers on character strings: equality, last occurrence of a
//! character, and the file name and file stem of a slash-separated path.

use vstd::prelude::*;
use vstd::string::*;

verus! {

/// Index of the last occurrence of `c` in `s`, or -1 when `c` is absent.
pub open spec fn spec_last_index_of(s: Seq<char>, c: char) -> int
    decreases s.len(),
{
    if s.len() == 0 {
        -1
    } else if s[s.len() - 1] == c {
        s.len() - 1
    } else {
        spec_last_index_of(s.drop_last(), c)
    }
}

/// The last index of `c` is in range, holds `c`, and nothing after it does.
pub proof fn lemma_last_index_of_bounds(s: Seq<char>, c: char)
    ensures
        -1 <= spec_last_index_of(s, c) < s.len(),
        spec_last_index_of(s, c) >= 0 ==> s[spec_last_index_of(s, c)] == c,
        forall|j: int| spec_last_index_of(s, c) < j < s.len() ==> s[j] != c,
    decreases s.len(),
{
    if s.len() == 0 {
    } else if s[s.len() - 1] == c {
    } else {
        lemma_last_index_of_bounds(s.drop_last(), c);
        assert forall|j: int| spec_last_index_of(s, c) < j < s.len() implies s[j] != c by {
            if j < s.len() - 1 {
                assert(s.drop_last()[j] == s[j]);
            }
        }
    }
}

/// Character-for-character equality of two string slices.
pub fn str_eq(a: &str, b: &str) -> (r: bool)
    ensures
        r == (a@ == b@),
{
    let alen: usize = a.unicode_len();
    let blen: usize = b.unicode_len();
    if alen != blen {
        return false;
    }
    let mut i: usize = 0;
    while i < alen
        invariant
            0 <= i <= alen,
            alen == a@.len(),
            alen == b@.len(),
            forall|j: int| 0 <= j < i ==> a@[j] == b@[j],
        decreases alen - i,
    {
        if a.get_char(i) != b.get_char(i) {
            return false;
        }
        i = i + 1;
    }
    proof {
        assert(a@ =~= b@);
    }
    true
}

/// Position of the last occurrence of `c` in `s`, scanning from the end.
pub fn last_index_of(s: &str, c: char) -> (r: Option<usize>)
    ensures
        match r {
            Option::Some(i) => spec_last_index_of(s@, c) == i as int,
            Option::None => spec_last_index_of(s@, c) == -1,
        },
{
    proof {
        lemma_last_index_of_bounds(s@, c);
    }
    let len: usize = s.unicode_len();
    let mut i: usize = len;
    while i > 0
        invariant
            0 <= i <= len,
            len == s@.len(),
            forall|j: int| i <= j < s@.len() ==> s@[j] != c,
        decreases i,
    {
        if s.get_char(i - 1) == c {
            proof {
                lemma_last_index_of_bounds(s@, c);
                let l = spec_last_index_of(s@, c);
                if l < i - 1 {
                    assert(s@[i - 1] != c);
                } else if l > i - 1 {
                    assert(s@[l] == c);
                    assert(s@[l] != c);
                }
            }
            return Option::Some(i - 1);
        }
        i = i - 1;
    }
    Option::None
}

/// The part of a path after its last '/': the whole path when it has none.
pub open spec fn spec_file_name(p: Seq<char>) -> Seq<char> {
    p.subrange(spec_last_index_of(p, '/') + 1, p.len() as int)
}

/// The file name without its extension: everything before the last '.' of
/// the file name. A name without a '.', or with one only at the front (a
/// hidden file), is its own stem.
pub open spec fn spec_file_stem(p: Seq<char>) -> Seq<char> {
    let name = spec_file_name(p);
    let d = spec_last_index_of(name, '.');
    if d <= 0 {
        name
    } else {
        name.subrange(0, d)
    }
}

/// The file name of a slash-separated path.
pub fn file_name(p: &str) -> (r: &str)
    ensures
        r@ == spec_file_name(p@),
{
    proof {
        lemma_last_index_of_bounds(p@, '/');
    }
    let len: usize = p.unicode_len();
    match last_index_of(p, '/') {
        Option::Some(i) => p.substring_char(i + 1, len),
        Option::None => p.substring_char(0, len),
    }
}

/// The file stem of a slash-separated path.
pub fn file_stem(p: &str) -> (r: &str)
    ensures
        r@ == spec_file_stem(p@),
{
    let name: &str = file_name(p);
    proof {
        lemma_last_index_of_bounds(name@, '.');
    }
    match last_index_of(name, '.') {
        Option::Some(d) => {
            if d > 0 {
                name.substring_char(0, d)
            } else {
                name
            }
        },
        Option::None => name,
    }
}

} // verus!
