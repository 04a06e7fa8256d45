//! Character-sequence helpers shared by the URI and normalization logic:
//! searching for a character, trimming a trailing run of a character, and
//! the segment after the last separator.

use vstd::prelude::*;
use vstd::string::StrSliceExecFns;

verus! {

/// Does `s` contain the character `c`?
pub open spec fn contains_char(s: Seq<char>, c: char) -> bool {
    exists|i: int| 0 <= i < s.len() && s[i] == c
}

/// Does `s` end with the character `c`?
pub open spec fn ends_with_char(s: Seq<char>, c: char) -> bool {
    s.len() > 0 && s[s.len() - 1] == c
}

/// Index of the last occurrence of `c` in `s`, or -1 when `s` does not
/// contain `c`.
pub open spec fn last_index_of(s: Seq<char>, c: char) -> int
    decreases s.len(),
{
    if s.len() == 0 {
        -1
    } else if s[s.len() - 1] == c {
        s.len() - 1
    } else {
        last_index_of(s.drop_last(), c)
    }
}

/// `s` with every trailing occurrence of `c` removed.
pub open spec fn trim_end_char(s: Seq<char>, c: char) -> Seq<char>
    decreases s.len(),
{
    if ends_with_char(s, c) {
        trim_end_char(s.drop_last(), c)
    } else {
        s
    }
}

/// `last_index_of` returns the largest index holding `c`, and is
/// nonnegative exactly when `s` contains `c`.
pub proof fn lemma_last_index_of(s: Seq<char>, c: char)
    ensures
        -1 <= last_index_of(s, c) < s.len(),
        last_index_of(s, c) >= 0 ==> s[last_index_of(s, c)] == c,
        forall|j: int| last_index_of(s, c) < j < s.len() ==> s[j] != c,
        (last_index_of(s, c) >= 0) == contains_char(s, c),
    decreases s.len(),
{
    if s.len() == 0 {
    } else if s[s.len() - 1] == c {
    } else {
        lemma_last_index_of(s.drop_last(), c);
        assert forall|j: int| last_index_of(s, c) < j < s.len() implies s[j] != c by {
            if j < s.len() - 1 {
                assert(s[j] == s.drop_last()[j]);
            }
        }
        if contains_char(s, c) {
            let i = choose|i: int| 0 <= i < s.len() && s[i] == c;
            assert(i < s.len() - 1);
            assert(s.drop_last()[i] == c);
            assert(contains_char(s.drop_last(), c));
        }
        if contains_char(s.drop_last(), c) {
            let i = choose|i: int| 0 <= i < s.drop_last().len() && s.drop_last()[i] == c;
            assert(s[i] == c);
        }
    }
}

/// The trimmed sequence is the prefix of `s` before the trailing run of
/// `c`: it is a prefix, it no longer ends with `c`, and everything cut
/// off was `c`.
pub proof fn lemma_trim_end_char(s: Seq<char>, c: char)
    ensures
        trim_end_char(s, c).len() <= s.len(),
        trim_end_char(s, c) == s.subrange(0, trim_end_char(s, c).len() as int),
        !ends_with_char(trim_end_char(s, c), c),
        forall|j: int| trim_end_char(s, c).len() <= j < s.len() ==> s[j] == c,
    decreases s.len(),
{
    if ends_with_char(s, c) {
        let t = s.drop_last();
        lemma_trim_end_char(t, c);
        let k = trim_end_char(t, c).len() as int;
        assert(trim_end_char(s, c) =~= s.subrange(0, k)) by {
            assert(trim_end_char(t, c) == t.subrange(0, k));
        }
        assert forall|j: int| trim_end_char(s, c).len() <= j < s.len() implies s[j] == c by {
            if j < s.len() - 1 {
                assert(t[j] == c);
            }
        }
    } else {
        assert(trim_end_char(s, c) =~= s.subrange(0, s.len() as int));
    }
}

/// Does `s` end with the character `c`?
pub fn str_ends_with_char(s: &str, c: char) -> (r: bool)
    ensures
        r == ends_with_char(s@, c),
{
    let n = s.unicode_len();
    if n == 0 {
        false
    } else {
        s.get_char(n - 1) == c
    }
}

/// Is `c` among the characters of `s` at positions `from..to`?
pub fn str_contains_char_in(s: &str, from: usize, to: usize, c: char) -> (r: bool)
    requires
        from <= to <= s@.len(),
    ensures
        r == contains_char(s@.subrange(from as int, to as int), c),
{
    let ghost sub = s@.subrange(from as int, to as int);
    let mut i: usize = from;
    while i < to
        invariant
            from <= i <= to <= s@.len(),
            sub == s@.subrange(from as int, to as int),
            forall|j: int| from <= j < i ==> s@[j] != c,
        decreases to - i,
    {
        if s.get_char(i) == c {
            assert(sub[i - from] == s@[i as int]);
            return true;
        }
        i = i + 1;
    }
    assert forall|k: int| 0 <= k < sub.len() implies sub[k] != c by {
        assert(sub[k] == s@[from + k]);
    }
    false
}

/// The position of the last occurrence of `c` in `s`, or `None` when `s`
/// does not contain `c`.
pub fn str_rfind_char(s: &str, c: char) -> (r: Option<usize>)
    ensures
        match r {
            Some(i) => i as int == last_index_of(s@, c),
            None => last_index_of(s@, c) == -1,
        },
{
    let n = s.unicode_len();
    let mut i: usize = n;
    while i > 0
        invariant
            i <= n == s@.len(),
            forall|j: int| i <= j < s@.len() ==> s@[j] != c,
        decreases i,
    {
        i = i - 1;
        if s.get_char(i) == c {
            proof {
                lemma_last_index_of(s@, c);
                let li = last_index_of(s@, c);
                assert(li >= 0);
                if li < i {
                    assert(s@[i as int] != c);
                }
                if li > i {
                    assert(s@[li] != c);
                }
            }
            return Some(i);
        }
    }
    proof {
        lemma_last_index_of(s@, c);
        if contains_char(s@, c) {
            let w = choose|w: int| 0 <= w < s@.len() && s@[w] == c;
            assert(s@[w] != c);
        }
    }
    None
}

/// The length of `s` once every trailing occurrence of `c` is removed.
pub fn str_trim_end_len(s: &str, c: char) -> (r: usize)
    ensures
        r as int == trim_end_char(s@, c).len(),
        r as int <= s@.len(),
        trim_end_char(s@, c) == s@.subrange(0, r as int),
{
    let n = s.unicode_len();
    proof {
        assert(s@.subrange(0, n as int) =~= s@);
    }
    let mut i: usize = n;
    while i > 0 && s.get_char(i - 1) == c
        invariant
            i <= n == s@.len(),
            trim_end_char(s@, c) == trim_end_char(s@.subrange(0, i as int), c),
        decreases i,
    {
        proof {
            let p = s@.subrange(0, i as int);
            assert(ends_with_char(p, c)) by {
                assert(p[i - 1] == s@[i - 1]);
            }
            assert(p.drop_last() =~= s@.subrange(0, i - 1));
        }
        i = i - 1;
    }
    proof {
        let p = s@.subrange(0, i as int);
        if i > 0 {
            assert(p[i - 1] == s@[i - 1]);
        }
        assert(!ends_with_char(p, c));
        lemma_trim_end_char(s@, c);
    }
    i
}

} // verus!
