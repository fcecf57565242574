//! Verified character-level string helpers: equality, substring matching,
//! and path-name splitting (base name and stem) used by the store and the
//! prompt formatter.

use vstd::prelude::*;

verus! {

/// Index of the last occurrence of `c` in `s`, or -1 if `c` does not occur.
pub open spec fn last_index_of(s: Seq<char>, c: char) -> int
    decreases s.len(),
{
    if s.len() == 0 {
        -1
    } else if s[s.len() - 1] == c {
        s.len() - 1
    } else {
        last_index_of(s.drop_last(), c)
    }
}

/// `last_index_of` really is the last occurrence: everything after it differs
/// from `c`, and -1 means `c` occurs nowhere.
pub proof fn lemma_last_index_of(s: Seq<char>, c: char)
    ensures
        -1 <= last_index_of(s, c) < s.len(),
        last_index_of(s, c) >= 0 ==> s[last_index_of(s, c)] == c,
        forall|k: int| last_index_of(s, c) < k < s.len() ==> s[k] != c,
    decreases s.len(),
{
    if s.len() > 0 && s[s.len() - 1] != c {
        lemma_last_index_of(s.drop_last(), c);
        assert forall|k: int| last_index_of(s, c) < k < s.len() implies s[k] != c by {
            if k < s.len() - 1 {
                assert(s.drop_last()[k] == s[k]);
            }
        }
    }
}

/// Dropping a suffix free of `c` does not change the last occurrence.
proof fn lemma_last_index_of_skip(s: Seq<char>, c: char, j: int)
    requires
        0 <= j <= s.len(),
        forall|k: int| j <= k < s.len() ==> s[k] != c,
    ensures
        last_index_of(s, c) == last_index_of(s.subrange(0, j), c),
    decreases s.len() - j,
{
    if j == s.len() {
        assert(s.subrange(0, j) =~= s);
    } else {
        lemma_last_index_of_skip(s, c, j + 1);
        let t = s.subrange(0, j + 1);
        assert(t[t.len() - 1] == s[j]);
        assert(t.drop_last() =~= s.subrange(0, j));
    }
}

/// The portion of `s` after its last `/`; all of `s` when it has none.
pub open spec fn basename_of(s: Seq<char>) -> Seq<char> {
    s.subrange(last_index_of(s, '/') + 1, s.len() as int)
}

/// The base name of `s` up to its last `.`, provided that dot is not the base
/// name's first character; otherwise the whole base name.
pub open spec fn stem_of(s: Seq<char>) -> Seq<char> {
    let base = basename_of(s);
    let dot = last_index_of(base, '.');
    if dot <= 0 {
        base
    } else {
        base.subrange(0, dot)
    }
}

/// Position of the last occurrence of `c` in `s`, if any.
pub fn rfind_char(s: &str, c: char) -> (r: Option<usize>)
    ensures
        match r {
            Some(i) => i == last_index_of(s@, c),
            None => last_index_of(s@, c) == -1,
        },
{
    let n = s.unicode_len();
    let mut j = n;
    while j > 0
        invariant
            0 <= j <= n,
            n == s@.len(),
            forall|k: int| j <= k < n ==> s@[k] != c,
        decreases j,
    {
        let ch = s.get_char(j - 1);
        if ch == c {
            proof {
                lemma_last_index_of_skip(s@, c, j as int);
                let t = s@.subrange(0, j as int);
                assert(t[t.len() - 1] == c);
            }
            return Some(j - 1);
        }
        j = j - 1;
    }
    proof {
        lemma_last_index_of_skip(s@, c, 0);
        assert(s@.subrange(0, 0) =~= Seq::<char>::empty());
    }
    None
}

/// The base name of a path: what follows the last `/`.
pub fn file_basename(path: &str) -> (r: String)
    ensures
        r@ == basename_of(path@),
{
    let n = path.unicode_len();
    proof {
        lemma_last_index_of(path@, '/');
    }
    let start = match rfind_char(path, '/') {
        Some(i) => i + 1,
        None => 0,
    };
    let base = path.substring_char(start, n);
    String::from_str(base)
}

/// The stem of a path's base name: the base name without its final
/// dot-extension (a leading dot does not start an extension).
pub fn file_stem(path: &str) -> (r: String)
    ensures
        r@ == stem_of(path@),
{
    let base = file_basename(path);
    let base_len = base.as_str().unicode_len();
    match rfind_char(base.as_str(), '.') {
        Some(dot) => {
            if dot == 0 {
                base
            } else {
                proof {
                    lemma_last_index_of(base@, '.');
                }
                String::from_str(base.as_str().substring_char(0, dot))
            }
        },
        None => base,
    }
}

/// The extension of a path's base name: what follows the last dot, when that
/// dot is neither the base name's first nor absent.
pub open spec fn extension_of(s: Seq<char>) -> Option<Seq<char>> {
    let base = basename_of(s);
    let dot = last_index_of(base, '.');
    if dot <= 0 {
        None
    } else {
        Some(base.subrange(dot + 1, base.len() as int))
    }
}

/// Extension of a path, if its base name has one.
pub fn file_extension(path: &str) -> (r: Option<String>)
    ensures
        match r {
            Some(e) => extension_of(path@) == Some(e@),
            None => extension_of(path@) is None,
        },
{
    let base = file_basename(path);
    let base_len = base.as_str().unicode_len();
    match rfind_char(base.as_str(), '.') {
        Some(dot) => {
            if dot == 0 {
                None
            } else {
                proof {
                    lemma_last_index_of(base@, '.');
                }
                Some(String::from_str(base.as_str().substring_char(dot + 1, base_len)))
            }
        },
        None => None,
    }
}

/// Character-for-character string equality.
pub fn str_eq(a: &str, b: &str) -> (r: bool)
    ensures
        r == (a@ == b@),
{
    let na = a.unicode_len();
    let nb = b.unicode_len();
    if na != nb {
        return false;
    }
    let mut i: usize = 0;
    while i < na
        invariant
            0 <= i <= na,
            na == a@.len(),
            na == b@.len(),
            forall|k: int| 0 <= k < i ==> a@[k] == b@[k],
        decreases na - i,
    {
        if a.get_char(i) != b.get_char(i) {
            return false;
        }
        i = i + 1;
    }
    proof {
        assert(a@ =~= b@);
    }
    true
}

} // verus!
