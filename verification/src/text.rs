//! Small verified string utilities: ASCII case folding, equality, prefix
//! test and substring search over `&str` values, with their meaning stated
//! over the character sequences the strings view to.

use vstd::prelude::*;

verus! {

/// ASCII lower-casing of one character: `'A'..='Z'` map to `'a'..='z'`,
/// everything else is unchanged.
pub open spec fn lower_char(c: char) -> char {
    if 'A' <= c && c <= 'Z' {
        ((c as u8) + 32) as char
    } else {
        c
    }
}

/// ASCII lower-casing of a character sequence.
pub open spec fn lower_seq(s: Seq<char>) -> Seq<char> {
    s.map_values(|c: char| lower_char(c))
}

/// Lower-cases one character, ASCII range only.
pub fn to_lower_char(c: char) -> (r: char)
    ensures
        r == lower_char(c),
{
    if 'A' <= c && c <= 'Z' {
        ((c as u8) + 32) as char
    } else {
        c
    }
}

/// True exactly when the two strings hold the same characters.
pub fn eq_str(a: &str, b: &str) -> (r: bool)
    ensures
        r == (a@ == b@),
{
    let a_len = a.unicode_len();
    let b_len = b.unicode_len();
    if a_len != b_len {
        return false;
    }
    let mut i: usize = 0;
    while i < a_len
        invariant
            a_len == a@.len(),
            b_len == b@.len(),
            a_len == b_len,
            i <= a_len,
            forall|j: int| 0 <= j < i ==> a@[j] == b@[j],
        decreases a_len - i,
    {
        if a.get_char(i) != b.get_char(i) {
            return false;
        }
        i = i + 1;
    }
    proof {
        assert(a@ =~= b@);
    }
    true
}

/// True exactly when `s`, ASCII lower-cased, equals `t` as given.
pub fn eq_lowered(s: &str, t: &str) -> (r: bool)
    ensures
        r == (lower_seq(s@) == t@),
{
    let s_len = s.unicode_len();
    let t_len = t.unicode_len();
    if s_len != t_len {
        proof {
            assert(lower_seq(s@).len() == s@.len());
        }
        return false;
    }
    let mut i: usize = 0;
    while i < s_len
        invariant
            s_len == s@.len(),
            t_len == t@.len(),
            s_len == t_len,
            i <= s_len,
            forall|j: int| 0 <= j < i ==> lower_char(s@[j]) == t@[j],
        decreases s_len - i,
    {
        if to_lower_char(s.get_char(i)) != t.get_char(i) {
            proof {
                assert(lower_seq(s@)[i as int] != t@[i as int]);
            }
            return false;
        }
        i = i + 1;
    }
    proof {
        assert(lower_seq(s@) =~= t@);
    }
    true
}

/// True exactly when `prefix` is a prefix of the characters of `s`.
pub open spec fn has_prefix(s: Seq<char>, prefix: Seq<char>) -> bool {
    s.len() >= prefix.len() && s.subrange(0, prefix.len() as int) == prefix
}

/// True exactly when the characters of `s` start with those of `prefix`.
pub fn starts_with_str(s: &str, prefix: &str) -> (r: bool)
    ensures
        r == has_prefix(s@, prefix@),
{
    let s_len = s.unicode_len();
    let p_len = prefix.unicode_len();
    if s_len < p_len {
        return false;
    }
    let mut i: usize = 0;
    while i < p_len
        invariant
            s_len == s@.len(),
            p_len == prefix@.len(),
            p_len <= s_len,
            i <= p_len,
            forall|j: int| 0 <= j < i ==> s@[j] == prefix@[j],
        decreases p_len - i,
    {
        if s.get_char(i) != prefix.get_char(i) {
            proof {
                assert(s@.subrange(0, prefix@.len() as int)[i as int] == s@[i as int]);
            }
            return false;
        }
        i = i + 1;
    }
    proof {
        assert(s@.subrange(0, prefix@.len() as int) =~= prefix@);
    }
    true
}

/// True exactly when `needle` occurs as a contiguous run inside `hay`.
pub open spec fn contains_seq(hay: Seq<char>, needle: Seq<char>) -> bool {
    exists|i: int|
        0 <= i && i + needle.len() <= hay.len() && #[trigger] hay.subrange(i, i + needle.len())
            == needle
}

/// True exactly when the characters of `needle` occur contiguously inside
/// those of `hay`.
pub fn contains_str(hay: &str, needle: &str) -> (r: bool)
    ensures
        r == contains_seq(hay@, needle@),
{
    let h_len = hay.unicode_len();
    let n_len = needle.unicode_len();
    if n_len > h_len {
        return false;
    }
    if n_len == 0 {
        proof {
            assert(hay@.subrange(0, 0 + needle@.len() as int) =~= needle@);
        }
        return true;
    }
    let mut start: usize = 0;
    while start <= h_len - n_len
        invariant
            h_len == hay@.len(),
            n_len == needle@.len(),
            1 <= n_len <= h_len,
            start <= h_len - n_len + 1,
            forall|k: int|
                0 <= k < start ==> #[trigger] hay@.subrange(k, k + needle@.len()) != needle@,
        decreases h_len - start,
    {
        if match_at(hay, needle, start, h_len, n_len) {
            proof {
                assert(contains_seq(hay@, needle@));
            }
            return true;
        }
        start = start + 1;
    }
    false
}

/// True exactly when `needle` matches `hay` at offset `start`.
fn match_at(hay: &str, needle: &str, start: usize, h_len: usize, n_len: usize) -> (r: bool)
    requires
        h_len == hay@.len(),
        n_len == needle@.len(),
        start + n_len <= h_len,
    ensures
        r == (hay@.subrange(start as int, start + needle@.len()) == needle@),
{
    let mut i: usize = 0;
    while i < n_len
        invariant
            h_len == hay@.len(),
            n_len == needle@.len(),
            start + n_len <= h_len,
            i <= n_len,
            forall|j: int| 0 <= j < i ==> hay@[start + j] == needle@[j],
        decreases n_len - i,
    {
        if hay.get_char(start + i) != needle.get_char(i) {
            proof {
                assert(hay@.subrange(start as int, start + needle@.len())[i as int]
                    == hay@[start + i]);
            }
            return false;
        }
        i = i + 1;
    }
    proof {
        assert(hay@.subrange(start as int, start + needle@.len()) =~= needle@);
    }
    true
}

} // verus!
