//! Small verified utilities over character sequences: equality, first
//! occurrence of a character, and substring search.

use vstd::prelude::*;
use vstd::string::StrSliceExecFns;
use vstd::string::StringExecFns;

verus! {

/// Some position of `s` holds the character `c`.
pub open spec fn contains_char(s: Seq<char>, c: char) -> bool {
    exists|i: int| 0 <= i < s.len() && s[i] == c
}

/// Index of the first occurrence of `c` in `s`; `s.len()` when `c` is absent.
pub open spec fn find_in(s: Seq<char>, c: char) -> int
    decreases s.len(),
{
    if s.len() == 0 {
        0
    } else if s[0] == c {
        0
    } else {
        1 + find_in(s.skip(1), c)
    }
}

/// `find_in` lands on the first occurrence of `c`, or on `s.len()` when
/// `c` is absent.
pub proof fn lemma_find_in(s: Seq<char>, c: char)
    ensures
        0 <= find_in(s, c) <= s.len(),
        find_in(s, c) < s.len() ==> s[find_in(s, c)] == c,
        forall|j: int| 0 <= j < find_in(s, c) ==> s[j] != c,
        find_in(s, c) == s.len() ==> !contains_char(s, c),
    decreases s.len(),
{
    if s.len() == 0 {
    } else if s[0] == c {
    } else {
        lemma_find_in(s.skip(1), c);
        assert forall|j: int| 0 <= j < find_in(s, c) implies s[j] != c by {
            if j > 0 {
                assert(s.skip(1)[j - 1] == s[j]);
            }
        }
        if find_in(s, c) == s.len() {
            assert forall|i: int| 0 <= i < s.len() implies s[i] != c by {
                if i > 0 {
                    assert(s.skip(1)[i - 1] == s[i]);
                }
            }
        }
    }
}

/// The pattern `p` occurs in `s` starting at position `i`.
pub open spec fn substr_at(s: Seq<char>, p: Seq<char>, i: int) -> bool {
    0 <= i && i + p.len() <= s.len() && s.subrange(i, i + p.len() as int) == p
}

/// The pattern `p` occurs somewhere in `s`.
pub open spec fn contains_seq(s: Seq<char>, p: Seq<char>) -> bool {
    exists|i: int| substr_at(s, p, i)
}

/// Character-for-character string equality, reflected into the views.
pub fn str_eq(a: &str, b: &str) -> (r: bool)
    ensures
        r == (a@ == b@),
{
    let an: usize = a.unicode_len();
    let bn: usize = b.unicode_len();
    if an != bn {
        return false;
    }
    let mut i: usize = 0;
    while i < an
        invariant
            0 <= i <= an,
            an == a@.len(),
            an == b@.len(),
            forall|j: int| 0 <= j < i ==> a@[j] == b@[j],
        decreases an - i,
    {
        if a.get_char(i) != b.get_char(i) {
            return false;
        }
        i = i + 1;
    }
    proof {
        assert(a@ =~= b@);
    }
    true
}

/// Index of the first occurrence of `c` in `s`, or `None` when absent.
pub fn find_char(s: &str, c: char) -> (r: Option<usize>)
    ensures
        match r {
            Some(i) => i as int == find_in(s@, c) && i < s@.len() && s@[i as int] == c
                && forall|j: int| 0 <= j < i ==> s@[j] != c,
            None => !contains_char(s@, c),
        },
{
    let n: usize = s.unicode_len();
    let mut i: usize = 0;
    while i < n
        invariant
            0 <= i <= n,
            n == s@.len(),
            forall|j: int| 0 <= j < i ==> s@[j] != c,
        decreases n - i,
    {
        if s.get_char(i) == c {
            proof {
                lemma_find_in(s@, c);
                if find_in(s@, c) < i {
                    assert(s@[find_in(s@, c)] == c);
                }
            }
            return Some(i);
        }
        i = i + 1;
    }
    proof {
        lemma_find_in(s@, c);
        if find_in(s@, c) < s@.len() {
            assert(s@[find_in(s@, c)] == c);
        }
    }
    None
}

/// Substring search: does `p` occur anywhere in `s`?
pub fn contains_substr(s: &str, p: &str) -> (r: bool)
    ensures
        r == contains_seq(s@, p@),
{
    let n: usize = s.unicode_len();
    let m: usize = p.unicode_len();
    if m > n {
        proof {
            assert forall|i: int| !substr_at(s@, p@, i) by {}
        }
        return false;
    }
    if m == 0 {
        proof {
            assert(s@.subrange(0, 0) =~= p@);
            assert(substr_at(s@, p@, 0));
        }
        return true;
    }
    let mut i: usize = 0;
    while i <= n - m
        invariant
            1 <= m <= n,
            n == s@.len(),
            m == p@.len(),
            0 <= i <= n - m + 1,
            forall|k: int| 0 <= k < i ==> !substr_at(s@, p@, k),
        decreases n - i,
    {
        let mut j: usize = 0;
        let mut matched: bool = true;
        while j < m
            invariant
                m <= n,
                n == s@.len(),
                m == p@.len(),
                0 <= i <= n - m,
                0 <= j <= m,
                matched ==> forall|t: int| 0 <= t < j ==> s@[i + t] == p@[t],
                !matched ==> !substr_at(s@, p@, i as int),
            decreases m - j,
        {
            if matched && s.get_char(i + j) != p.get_char(j) {
                proof {
                    if substr_at(s@, p@, i as int) {
                        assert(s@.subrange(i as int, i + p@.len() as int)[j as int] == p@[j as int]);
                    }
                }
                matched = false;
            }
            j = j + 1;
        }
        if matched {
            proof {
                assert(s@.subrange(i as int, i + p@.len() as int) =~= p@);
                assert(substr_at(s@, p@, i as int));
            }
            return true;
        }
        i = i + 1;
    }
    proof {
        assert forall|k: int| !substr_at(s@, p@, k) by {
            if k >= i {
            }
        }
    }
    false
}

/// `s` begins with the prefix `p`.
pub open spec fn starts_with(s: Seq<char>, p: Seq<char>) -> bool {
    p.len() <= s.len() && s.take(p.len() as int) == p
}

/// Split `s` at every occurrence of `c`; the separators themselves are
/// dropped. An `s` without `c` yields the one-element sequence `[s]`.
pub open spec fn split_on(s: Seq<char>, c: char) -> Seq<Seq<char>>
    decreases s.len(),
    via split_on_decreases
{
    let i = find_in(s, c);
    if i == s.len() {
        seq![s]
    } else {
        seq![s.take(i)] + split_on(s.skip(i + 1), c)
    }
}

#[via_fn]
proof fn split_on_decreases(s: Seq<char>, c: char) {
    lemma_find_in(s, c);
}

/// A separator-free sequence splits to itself alone.
pub proof fn lemma_split_on_whole(s: Seq<char>, c: char)
    requires
        !contains_char(s, c),
    ensures
        split_on(s, c) == seq![s],
{
    lemma_find_in(s, c);
    if find_in(s, c) < s.len() {
        assert(s[find_in(s, c)] == c);
    }
}

/// Splitting at the first separator: when `a` is free of `c`,
/// `a + [c] + b` splits into `a` followed by the splits of `b`.
pub proof fn lemma_split_on_step(a: Seq<char>, b: Seq<char>, c: char)
    requires
        !contains_char(a, c),
    ensures
        split_on(a + seq![c] + b, c) == seq![a] + split_on(b, c),
{
    let s = a + seq![c] + b;
    lemma_find_in(s, c);
    assert(s[a.len() as int] == c);
    if find_in(s, c) < a.len() {
        assert(s[find_in(s, c)] == a[find_in(s, c)]);
        assert(contains_char(a, c));
    }
    if find_in(s, c) > a.len() {
        assert(s[a.len() as int] != c);
    }
    assert(find_in(s, c) == a.len());
    assert(find_in(s, c) < s.len());
    assert(s.take(a.len() as int) =~= a);
    assert(s.skip(a.len() as int + 1) =~= b);
}

/// A character that may stand in a path which is spliced verbatim into a
/// shell command: letters, digits, and a few path punctuation marks. Shell
/// metacharacters, quotes and whitespace are all excluded.
pub open spec fn safe_path_char(c: char) -> bool {
    ('a' <= c && c <= 'z') || ('A' <= c && c <= 'Z') || ('0' <= c && c <= '9') || c == '/' || c
        == '.' || c == '_' || c == '-' || c == '+'
}

/// A non-empty path made only of safe characters.
pub open spec fn safe_path(s: Seq<char>) -> bool {
    s.len() > 0 && forall|i: int| 0 <= i < s.len() ==> safe_path_char(s[i])
}

/// Check a path against `safe_path`.
pub fn check_safe_path(s: &str) -> (r: bool)
    ensures
        r == safe_path(s@),
{
    let n: usize = s.unicode_len();
    if n == 0 {
        return false;
    }
    let mut i: usize = 0;
    while i < n
        invariant
            0 < n == s@.len(),
            0 <= i <= n,
            forall|j: int| 0 <= j < i ==> safe_path_char(s@[j]),
        decreases n - i,
    {
        let c = s.get_char(i);
        let ok = ('a' <= c && c <= 'z') || ('A' <= c && c <= 'Z') || ('0' <= c && c <= '9') || c
            == '/' || c == '.' || c == '_' || c == '-' || c == '+';
        if !ok {
            return false;
        }
        i = i + 1;
    }
    true
}

/// A character excluded from safe paths never occurs in one.
pub proof fn lemma_safe_path_free_of(s: Seq<char>, c: char)
    requires
        safe_path(s),
        !safe_path_char(c),
    ensures
        !contains_char(s, c),
{
    if contains_char(s, c) {
        let i = choose|i: int| 0 <= i < s.len() && s[i] == c;
        assert(safe_path_char(s[i]));
    }
}

/// A character occurs in a concatenation exactly when it occurs in one of
/// the parts.
pub proof fn lemma_contains_char_concat(a: Seq<char>, b: Seq<char>, c: char)
    ensures
        contains_char(a + b, c) <==> (contains_char(a, c) || contains_char(b, c)),
{
    if contains_char(a, c) {
        let i = choose|i: int| 0 <= i < a.len() && a[i] == c;
        assert((a + b)[i] == c);
    }
    if contains_char(b, c) {
        let i = choose|i: int| 0 <= i < b.len() && b[i] == c;
        assert((a + b)[a.len() + i] == c);
    }
    if contains_char(a + b, c) {
        let i = choose|i: int| 0 <= i < (a + b).len() && (a + b)[i] == c;
        if i < a.len() {
            assert(a[i] == c);
        } else {
            assert(b[i - a.len()] == c);
        }
    }
}

/// Path join, as the platform's path type does it for the cases this
/// library builds: an absolute `b` replaces `a`; otherwise `b` is appended
/// behind a single `/`.
pub open spec fn join_seq(a: Seq<char>, b: Seq<char>) -> Seq<char> {
    if b.len() > 0 && b[0] == '/' {
        b
    } else if a.len() > 0 && a[a.len() - 1] == '/' {
        a + b
    } else {
        a + seq!['/'] + b
    }
}

/// Join two path fragments with a `/`, treating an absolute second
/// fragment as a replacement.
pub fn join_path(a: &str, b: &str) -> (r: String)
    ensures
        r@ == join_seq(a@, b@),
{
    let bn: usize = b.unicode_len();
    if bn > 0 && b.get_char(0) == '/' {
        return String::from_str(b);
    }
    let an: usize = a.unicode_len();
    if an > 0 && a.get_char(an - 1) == '/' {
        String::from_str(a).concat(b)
    } else {
        let r = String::from_str(a).concat("/").concat(b);
        proof {
            reveal_strlit("/");
            assert(("/")@ =~= seq!['/']);
            assert(r@ =~= a@ + seq!['/'] + b@);
        }
        r
    }
}

} // verus!
