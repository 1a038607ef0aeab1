//! Character-sequence helpers shared by framework normalization,
//! link-option rewriting and SDK validation: substring search, equality
//! and the leaf component after the last path separator.

use vstd::prelude::*;
use vstd::seq_lib::*;

verus! {

/// `pat` occurs in `s` starting at index `i`.
pub open spec fn contains_at(s: Seq<char>, pat: Seq<char>, i: int) -> bool {
    0 <= i && i + pat.len() <= s.len() && s.subrange(i, i + pat.len() as int) == pat
}

/// `pat` occurs somewhere in `s`.
pub open spec fn has_sub(s: Seq<char>, pat: Seq<char>) -> bool {
    exists|i: int| contains_at(s, pat, i)
}

/// Everything after the last `'/'` of `s`; `s` itself when it has none.
pub open spec fn leaf_of(s: Seq<char>) -> Seq<char>
    decreases s.len(),
{
    if s.len() == 0 {
        s
    } else if s.last() == '/' {
        Seq::empty()
    } else {
        leaf_of(s.drop_last()).push(s.last())
    }
}

/// A sequence without `'/'` is its own leaf.
pub proof fn lemma_leaf_no_slash(s: Seq<char>)
    requires
        forall|j: int| 0 <= j < s.len() ==> s[j] != '/',
    ensures
        leaf_of(s) == s,
    decreases s.len(),
{
    if s.len() > 0 {
        lemma_leaf_no_slash(s.drop_last());
        assert(leaf_of(s.drop_last()).push(s.last()) =~= s);
    }
}

/// When the last `'/'` of `s` stands at `i`, the leaf is what follows it.
pub proof fn lemma_leaf_after_slash(s: Seq<char>, i: int)
    requires
        0 <= i < s.len(),
        s[i] == '/',
        forall|j: int| i < j < s.len() ==> s[j] != '/',
    ensures
        leaf_of(s) == s.subrange(i + 1, s.len() as int),
    decreases s.len(),
{
    if i == s.len() - 1 {
        assert(leaf_of(s) =~= s.subrange(i + 1, s.len() as int));
    } else {
        lemma_leaf_after_slash(s.drop_last(), i);
        assert(s.drop_last().subrange(i + 1, s.len() - 1) =~= s.subrange(i + 1, s.len() - 1));
        assert(s.subrange(i + 1, s.len() - 1).push(s.last()) =~= s.subrange(
            i + 1,
            s.len() as int,
        ));
    }
}

/// A leaf never holds a `'/'`.
pub proof fn lemma_leaf_has_no_slash(s: Seq<char>)
    ensures
        forall|j: int| 0 <= j < leaf_of(s).len() ==> leaf_of(s)[j] != '/',
    decreases s.len(),
{
    if s.len() == 0 {
    } else if s.last() == '/' {
    } else {
        lemma_leaf_has_no_slash(s.drop_last());
        assert forall|j: int| 0 <= j < leaf_of(s).len() implies leaf_of(s)[j] != '/' by {
            if j < leaf_of(s).len() - 1 {
                assert(leaf_of(s)[j] == leaf_of(s.drop_last())[j]);
            } else {
                assert(leaf_of(s)[j] == s.last());
            }
        }
    }
}

/// If `pat` holds a `'/'` somewhere and occurs in `s`, then `s` holds a
/// `'/'` too.
pub proof fn lemma_has_sub_carries_char(s: Seq<char>, pat: Seq<char>, k: int)
    requires
        has_sub(s, pat),
        0 <= k < pat.len(),
    ensures
        exists|j: int| 0 <= j < s.len() && s[j] == pat[k],
{
    let i = choose|i: int| contains_at(s, pat, i);
    assert(s.subrange(i, i + pat.len() as int)[k] == pat[k]);
    assert(s[i + k] == pat[k]);
}

/// Exact character-for-character equality of two string slices.
pub fn str_eq(a: &str, b: &str) -> (r: bool)
    ensures
        r == (a@ == b@),
{
    let na = a.unicode_len();
    let nb = b.unicode_len();
    if na != nb {
        return false;
    }
    let mut i: usize = 0;
    while i < na
        invariant
            na == a@.len(),
            na == b@.len(),
            i <= na,
            forall|j: int| 0 <= j < i ==> a@[j] == b@[j],
        decreases na - i,
    {
        if a.get_char(i) != b.get_char(i) {
            return false;
        }
        i = i + 1;
    }
    proof {
        assert(a@ =~= b@);
    }
    true
}

/// `pat` matches `s` at position `i`.
fn match_at(s: &str, pat: &str, i: usize) -> (r: bool)
    requires
        i + pat@.len() <= s@.len(),
        s@.len() <= usize::MAX,
    ensures
        r == contains_at(s@, pat@, i as int),
{
    let m = pat.unicode_len();
    let mut j: usize = 0;
    while j < m
        invariant
            m == pat@.len(),
            i + m <= s@.len(),
            s@.len() <= usize::MAX,
            j <= m,
            forall|t: int| 0 <= t < j ==> s@[i + t] == pat@[t],
        decreases m - j,
    {
        if s.get_char(i + j) != pat.get_char(j) {
            assert(s@.subrange(i as int, i + m as int)[j as int] != pat@[j as int]);
            return false;
        }
        j = j + 1;
    }
    proof {
        assert(s@.subrange(i as int, i + m as int) =~= pat@);
    }
    true
}

/// Substring search: does `pat` occur anywhere in `s`?
pub fn contains_sub(s: &str, pat: &str) -> (r: bool)
    ensures
        r == has_sub(s@, pat@),
{
    let n = s.unicode_len();
    let m = pat.unicode_len();
    if m > n {
        return false;
    }
    if m == 0 {
        proof {
            assert(s@.subrange(0, 0) =~= pat@);
            assert(contains_at(s@, pat@, 0));
        }
        return true;
    }
    let mut i: usize = 0;
    while i <= n - m
        invariant
            n == s@.len(),
            m == pat@.len(),
            0 < m <= n,
            i <= n - m + 1,
            forall|k: int| 0 <= k < i ==> !contains_at(s@, pat@, k),
        decreases n - m + 1 - i,
    {
        if match_at(s, pat, i) {
            return true;
        }
        i = i + 1;
    }
    false
}

/// The index of the last `'/'` of `s`, when there is one.
pub fn last_slash(s: &str) -> (r: Option<usize>)
    ensures
        match r {
            Some(i) => i < s@.len() && s@[i as int] == '/' && forall|j: int|
                i < j < s@.len() ==> s@[j] != '/',
            None => forall|j: int| 0 <= j < s@.len() ==> s@[j] != '/',
        },
{
    let n = s.unicode_len();
    let mut i: usize = n;
    while i > 0
        invariant
            n == s@.len(),
            i <= n,
            forall|j: int| i <= j < n ==> s@[j] != '/',
        decreases i,
    {
        if s.get_char(i - 1) == '/' {
            return Some(i - 1);
        }
        i = i - 1;
    }
    None
}

/// The leaf component of `s`: everything after its last `'/'`, or `s`
/// itself when it has none.
pub fn leaf_string(s: &str) -> (r: String)
    ensures
        r@ == leaf_of(s@),
{
    let n = s.unicode_len();
    match last_slash(s) {
        Some(i) => {
            proof {
                lemma_leaf_after_slash(s@, i as int);
            }
            let tail = s.substring_char(i + 1, n);
            String::from_str(tail)
        },
        None => {
            proof {
                lemma_leaf_no_slash(s@);
            }
            String::from_str(s)
        },
    }
}

} // verus!
