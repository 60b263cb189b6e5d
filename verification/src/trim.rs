//! Removal of leading and trailing white space from task names.

use vstd::prelude::*;

verus! {

/// A character of the Unicode `White_Space` class: the characters that are
/// stripped from the ends of a task name before it is stored.
pub open spec fn is_space(c: char) -> bool {
    c == ' ' || c == '\t' || c == '\n' || c == '\u{000B}' || c == '\u{000C}' || c == '\r'
        || c == '\u{0085}' || c == '\u{00A0}' || c == '\u{1680}' || c == '\u{2000}'
        || c == '\u{2001}' || c == '\u{2002}' || c == '\u{2003}' || c == '\u{2004}'
        || c == '\u{2005}' || c == '\u{2006}' || c == '\u{2007}' || c == '\u{2008}'
        || c == '\u{2009}' || c == '\u{200A}' || c == '\u{2028}' || c == '\u{2029}'
        || c == '\u{202F}' || c == '\u{205F}' || c == '\u{3000}'
}

/// Decides [`is_space`] for a concrete character.
pub fn is_space_char(c: char) -> (r: bool)
    ensures
        r == is_space(c),
{
    c == ' ' || c == '\t' || c == '\n' || c == '\u{000B}' || c == '\u{000C}' || c == '\r'
        || c == '\u{0085}' || c == '\u{00A0}' || c == '\u{1680}' || c == '\u{2000}'
        || c == '\u{2001}' || c == '\u{2002}' || c == '\u{2003}' || c == '\u{2004}'
        || c == '\u{2005}' || c == '\u{2006}' || c == '\u{2007}' || c == '\u{2008}'
        || c == '\u{2009}' || c == '\u{200A}' || c == '\u{2028}' || c == '\u{2029}'
        || c == '\u{202F}' || c == '\u{205F}' || c == '\u{3000}'
}

/// The number of white-space characters at the start of `s`.
pub open spec fn ws_prefix(s: Seq<char>) -> int
    decreases s.len(),
{
    if s.len() > 0 && is_space(s[0]) {
        1 + ws_prefix(s.subrange(1, s.len() as int))
    } else {
        0
    }
}

/// The number of white-space characters at the end of `s`.
pub open spec fn ws_suffix(s: Seq<char>) -> int
    decreases s.len(),
{
    if s.len() > 0 && is_space(s[s.len() - 1]) {
        1 + ws_suffix(s.drop_last())
    } else {
        0
    }
}

/// `s` with all leading and trailing white space removed.
pub open spec fn trim_spec(s: Seq<char>) -> Seq<char> {
    if ws_prefix(s) == s.len() {
        Seq::empty()
    } else {
        s.subrange(ws_prefix(s), s.len() - ws_suffix(s))
    }
}

/// The white-space prefix is a run of white space, and it is maximal.
pub proof fn lemma_ws_prefix_bounds(s: Seq<char>)
    ensures
        0 <= ws_prefix(s) <= s.len(),
        forall|j: int| 0 <= j < ws_prefix(s) ==> is_space(s[j]),
        ws_prefix(s) < s.len() ==> !is_space(s[ws_prefix(s)]),
    decreases s.len(),
{
    if s.len() > 0 && is_space(s[0]) {
        let t = s.subrange(1, s.len() as int);
        lemma_ws_prefix_bounds(t);
        assert forall|j: int| 0 <= j < ws_prefix(s) implies is_space(s[j]) by {
            if j > 0 {
                assert(s[j] == t[j - 1]);
            }
        }
        if ws_prefix(s) < s.len() {
            assert(s[ws_prefix(s)] == t[ws_prefix(s) - 1]);
        }
    }
}

/// A maximal run of white space at the start of `s` has length `ws_prefix(s)`.
pub proof fn lemma_ws_prefix_at(s: Seq<char>, k: int)
    requires
        0 <= k <= s.len(),
        forall|j: int| 0 <= j < k ==> is_space(s[j]),
        k < s.len() ==> !is_space(s[k]),
    ensures
        ws_prefix(s) == k,
    decreases s.len(),
{
    if k == 0 {
        assert(s.len() > 0 ==> !is_space(s[0]));
    } else {
        let t = s.subrange(1, s.len() as int);
        assert(is_space(s[0]));
        assert forall|j: int| 0 <= j < k - 1 implies is_space(t[j]) by {
            assert(t[j] == s[j + 1]);
        }
        if k - 1 < t.len() {
            assert(t[k - 1] == s[k]);
        }
        lemma_ws_prefix_at(t, k - 1);
    }
}

/// The white-space suffix is a run of white space, and it is maximal.
pub proof fn lemma_ws_suffix_bounds(s: Seq<char>)
    ensures
        0 <= ws_suffix(s) <= s.len(),
        forall|j: int| s.len() - ws_suffix(s) <= j < s.len() ==> is_space(s[j]),
        ws_suffix(s) < s.len() ==> !is_space(s[s.len() - 1 - ws_suffix(s)]),
    decreases s.len(),
{
    if s.len() > 0 && is_space(s[s.len() - 1]) {
        let t = s.drop_last();
        lemma_ws_suffix_bounds(t);
        assert forall|j: int| s.len() - ws_suffix(s) <= j < s.len() implies is_space(s[j]) by {
            if j < s.len() - 1 {
                assert(s[j] == t[j]);
            }
        }
        if ws_suffix(s) < s.len() {
            assert(s[s.len() - 1 - ws_suffix(s)] == t[t.len() - 1 - ws_suffix(t)]);
        }
    }
}

/// A maximal run of white space at the end of `s` has length `ws_suffix(s)`.
pub proof fn lemma_ws_suffix_at(s: Seq<char>, k: int)
    requires
        0 <= k <= s.len(),
        forall|j: int| s.len() - k <= j < s.len() ==> is_space(s[j]),
        k < s.len() ==> !is_space(s[s.len() - 1 - k]),
    ensures
        ws_suffix(s) == k,
    decreases s.len(),
{
    if k == 0 {
        assert(s.len() > 0 ==> !is_space(s[s.len() - 1]));
    } else {
        let t = s.drop_last();
        assert(is_space(s[s.len() - 1]));
        assert forall|j: int| t.len() - (k - 1) <= j < t.len() implies is_space(t[j]) by {
            assert(t[j] == s[j]);
        }
        if k - 1 < t.len() {
            assert(t[t.len() - 1 - (k - 1)] == s[s.len() - 1 - k]);
        }
        lemma_ws_suffix_at(t, k - 1);
    }
}

/// Unless `s` is all white space, the two runs leave at least one character.
pub proof fn lemma_ws_prefix_suffix(s: Seq<char>)
    ensures
        ws_prefix(s) < s.len() ==> ws_prefix(s) + ws_suffix(s) < s.len(),
{
    lemma_ws_prefix_bounds(s);
    lemma_ws_suffix_bounds(s);
    if ws_prefix(s) < s.len() && ws_prefix(s) + ws_suffix(s) >= s.len() {
        assert(is_space(s[ws_prefix(s)]));
    }
}

/// The trimmed string is no longer than the input, and it is empty exactly
/// when the input is all white space.
pub proof fn lemma_trim_spec_len(s: Seq<char>)
    ensures
        trim_spec(s).len() <= s.len(),
        trim_spec(s).len() == 0 <==> ws_prefix(s) == s.len(),
{
    lemma_ws_prefix_bounds(s);
    lemma_ws_suffix_bounds(s);
    lemma_ws_prefix_suffix(s);
}

/// Removes leading and trailing white space from a string.
pub fn trim_str(s: &str) -> (r: String)
    ensures
        r@ == trim_spec(s@),
{
    let n: usize = s.unicode_len();
    let mut i: usize = 0;
    loop
        invariant
            n == s@.len(),
            i <= n,
            forall|j: int| 0 <= j < i ==> is_space(s@[j]),
        ensures
            i <= n,
            forall|j: int| 0 <= j < i ==> is_space(s@[j]),
            i == n || !is_space(s@[i as int]),
        decreases n - i,
    {
        if i >= n {
            break;
        }
        if !is_space_char(s.get_char(i)) {
            break;
        }
        i = i + 1;
    }
    proof {
        lemma_ws_prefix_at(s@, i as int);
    }
    if i == n {
        let r = String::new();
        assert(r@ =~= trim_spec(s@));
        return r;
    }
    let mut j: usize = n;
    loop
        invariant
            n == s@.len(),
            i < n,
            !is_space(s@[i as int]),
            i < j,
            j <= n,
            forall|k: int| j <= k < n ==> is_space(s@[k]),
        ensures
            i < j,
            j <= n,
            forall|k: int| j <= k < n ==> is_space(s@[k]),
            !is_space(s@[j - 1]),
        decreases j,
    {
        if !is_space_char(s.get_char(j - 1)) {
            break;
        }
        assert(j - 1 > i);
        j = j - 1;
    }
    proof {
        lemma_ws_suffix_at(s@, (n - j) as int);
    }
    let r = s.substring_char(i, j);
    assert(r@ == trim_spec(s@));
    r.to_owned()
}

} // verus!
