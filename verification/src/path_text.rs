//! Character-level helpers over path strings.
//!
//! Paths enter the engine as plain `String`s; these helpers give the
//! debouncer and classifiers their substring, file-name, parent-directory
//! and extension logic, each pinned to a spec-level definition.

use vstd::prelude::*;

verus! {

/// `needle` occurs in `hay` starting at position `i`.
pub open spec fn match_at(hay: Seq<char>, needle: Seq<char>, i: int) -> bool {
    0 <= i && i + needle.len() <= hay.len() && hay.subrange(i, i + needle.len()) == needle
}

/// `needle` occurs somewhere in `hay`.
pub open spec fn has_substring(hay: Seq<char>, needle: Seq<char>) -> bool {
    exists|i: int| match_at(hay, needle, i)
}

/// Index of the last occurrence of `c` in `s`, or `-1` if `c` does not occur.
pub open spec fn last_index(s: Seq<char>, c: char) -> int
    decreases s.len(),
{
    if s.len() == 0 {
        -1
    } else if s.last() == c {
        s.len() - 1
    } else {
        last_index(s.drop_last(), c)
    }
}

pub proof fn lemma_last_index(s: Seq<char>, c: char)
    ensures
        last_index(s, c) == -1 || (0 <= last_index(s, c) < s.len() && s[last_index(s, c)] == c),
        forall|j: int| last_index(s, c) < j < s.len() ==> s[j] != c,
    decreases s.len(),
{
    if s.len() > 0 && s.last() != c {
        lemma_last_index(s.drop_last(), c);
        assert(forall|j: int| 0 <= j < s.len() - 1 ==> s[j] == s.drop_last()[j]);
        assert(s[s.len() - 1] != c);
    }
}

/// Characters of the path after its last separator (the whole path when it
/// has no separator).
pub open spec fn spec_file_name(p: Seq<char>) -> Seq<char> {
    p.subrange(last_index(p, '/') + 1, p.len() as int)
}

/// Characters of the path before its last separator, or nothing when it has
/// no separator.
pub open spec fn spec_parent_dir(p: Seq<char>) -> Option<Seq<char>> {
    if last_index(p, '/') < 0 {
        None
    } else {
        Some(p.subrange(0, last_index(p, '/')))
    }
}

/// Characters of the file name after its last dot; nothing when the file
/// name has no dot or only a leading one.
pub open spec fn spec_extension(p: Seq<char>) -> Option<Seq<char>> {
    let name = spec_file_name(p);
    let d = last_index(name, '.');
    if d <= 0 {
        None
    } else {
        Some(name.subrange(d + 1, name.len() as int))
    }
}

/// Character-by-character string equality.
pub fn str_eq(a: &str, b: &str) -> (r: bool)
    ensures
        r == (a@ == b@),
{
    let alen = a.unicode_len();
    let blen = b.unicode_len();
    if alen != blen {
        return false;
    }
    let mut i: usize = 0;
    while i < alen
        invariant
            alen == a@.len(),
            alen == b@.len(),
            i <= alen,
            forall|j: int| 0 <= j < i ==> a@[j] == b@[j],
        decreases alen - i,
    {
        if a.get_char(i) != b.get_char(i) {
            return false;
        }
        i += 1;
    }
    proof {
        assert(a@ =~= b@);
    }
    true
}

/// Substring search, quadratic but exact.
pub fn contains_substring(hay: &str, needle: &str) -> (r: bool)
    ensures
        r == has_substring(hay@, needle@),
{
    let hlen = hay.unicode_len();
    let nlen = needle.unicode_len();
    if nlen > hlen {
        return false;
    }
    if nlen == 0 {
        proof {
            assert(hay@.subrange(0, 0) =~= needle@);
            assert(match_at(hay@, needle@, 0));
        }
        return true;
    }
    let mut i: usize = 0;
    while i <= hlen - nlen
        invariant
            1 <= nlen <= hlen,
            hlen == hay@.len(),
            nlen == needle@.len(),
            i <= hlen - nlen + 1,
            forall|k: int| 0 <= k < i ==> !match_at(hay@, needle@, k),
        decreases hlen - nlen + 1 - i,
    {
        let mut j: usize = 0;
        let mut matched = true;
        while matched && j < nlen
            invariant
                nlen <= hlen,
                hlen == hay@.len(),
                nlen == needle@.len(),
                i + nlen <= hlen,
                j <= nlen,
                matched ==> forall|t: int| 0 <= t < j ==> hay@[i + t] == needle@[t],
                !matched ==> !match_at(hay@, needle@, i as int),
            decreases nlen - j + (if matched { 1int } else { 0int }),
        {
            if hay.get_char(i + j) != needle.get_char(j) {
                proof {
                    assert(hay@[i + j] != needle@[j as int]);
                    if match_at(hay@, needle@, i as int) {
                        assert(hay@.subrange(i as int, i + nlen)[j as int] == hay@[i + j]);
                    }
                }
                matched = false;
            } else {
                j += 1;
            }
        }
        if matched {
            proof {
                assert(hay@.subrange(i as int, i + nlen) =~= needle@);
                assert(match_at(hay@, needle@, i as int));
            }
            return true;
        }
        i += 1;
    }
    proof {
        assert(forall|k: int| match_at(hay@, needle@, k) ==> k <= hlen - nlen);
    }
    false
}

/// Index of the last occurrence of `c` in `s`, scanning from the end.
pub fn find_last(s: &str, c: char) -> (r: Option<usize>)
    ensures
        match r {
            Some(i) => last_index(s@, c) == i && i < s@.len() && s@[i as int] == c,
            None => last_index(s@, c) == -1,
        },
{
    let len = s.unicode_len();
    let mut i: usize = len;
    while i > 0
        invariant
            i <= len,
            len == s@.len(),
            forall|j: int| i <= j < len ==> s@[j] != c,
        decreases i,
    {
        i -= 1;
        if s.get_char(i) == c {
            proof {
                lemma_last_index(s@, c);
            }
            return Some(i);
        }
    }
    proof {
        lemma_last_index(s@, c);
    }
    None
}

/// File-name component of a path.
pub fn file_name_of(path: &str) -> (r: String)
    ensures
        r@ == spec_file_name(path@),
{
    let len = path.unicode_len();
    match find_last(path, '/') {
        Some(i) => path.substring_char(i + 1, len).to_owned(),
        None => {
            proof {
                assert(path@.subrange(0, len as int) =~= path@);
            }
            path.to_owned()
        },
    }
}

/// Parent-directory component of a path, when the path has one.
pub fn parent_dir_of(path: &str) -> (r: Option<String>)
    ensures
        match r {
            Some(p) => spec_parent_dir(path@) == Some(p@),
            None => spec_parent_dir(path@) is None,
        },
{
    match find_last(path, '/') {
        Some(i) => Some(path.substring_char(0, i).to_owned()),
        None => None,
    }
}

/// Extension of a path's file name, when it has one.
pub fn extension_of(path: &str) -> (r: Option<String>)
    ensures
        match r {
            Some(e) => spec_extension(path@) == Some(e@),
            None => spec_extension(path@) is None,
        },
{
    let name = file_name_of(path);
    let nlen = name.as_str().unicode_len();
    match find_last(name.as_str(), '.') {
        Some(d) => {
            if d == 0 {
                None
            } else {
                Some(name.as_str().substring_char(d + 1, nlen).to_owned())
            }
        },
        None => None,
    }
}

} // verus!
