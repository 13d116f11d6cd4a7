//! Small verified helpers on strings.
use vstd::prelude::*;

verus! {

/// Character-for-character equality of two string slices.
pub fn str_eq(a: &str, b: &str) -> (r: bool)
    ensures
        r == (a@ == b@),
{
    let a_len = a.unicode_len();
    let b_len = b.unicode_len();
    if a_len != b_len {
        proof {
            assert(a@ != b@) by {
                assert(a@.len() != b@.len());
            }
        }
        return false;
    }
    let mut i: usize = 0;
    while i < a_len
        invariant
            i <= a_len,
            a_len == a@.len(),
            b_len == b@.len(),
            a_len == b_len,
            forall|j: int| 0 <= j < i ==> a@[j] == b@[j],
        decreases a_len - i,
    {
        if a.get_char(i) != b.get_char(i) {
            return false;
        }
        i = i + 1;
    }
    proof {
        assert(a@ =~= b@);
    }
    true
}

/// The index of the first occurrence of `c` in `s`, or `s.len()` when `c`
/// does not occur.
pub open spec fn s_index_of(s: Seq<char>, c: char) -> int
    decreases s.len(),
{
    if s.len() == 0 {
        0
    } else if s[0] == c {
        0
    } else {
        1 + s_index_of(s.drop_first(), c)
    }
}

/// An index before which `c` does not occur, and at which `c` stands unless
/// it is the length, is the first occurrence.
pub proof fn lemma_index_of_is(s: Seq<char>, c: char, i: int)
    requires
        0 <= i <= s.len(),
        forall|j: int| 0 <= j < i ==> s[j] != c,
        i < s.len() ==> s[i] == c,
    ensures
        s_index_of(s, c) == i,
    decreases s.len(),
{
    if s.len() == 0 {
    } else if s[0] == c {
        assert(i == 0);
    } else {
        assert(i >= 1) by {
            assert(s[0] != c);
        }
        lemma_index_of_is(s.drop_first(), c, i - 1);
    }
}

/// The substring after the first `/` of an owner-qualified name; a name
/// without a separator is its own short name.
pub open spec fn s_short_name(s: Seq<char>) -> Seq<char> {
    if s_index_of(s, '/') < s.len() {
        s.skip(s_index_of(s, '/') + 1)
    } else {
        s
    }
}

/// The index of the first occurrence of `c`, or the length when `c` does not
/// occur.
pub fn find_char(s: &str, c: char) -> (r: usize)
    ensures
        r == s_index_of(s@, c),
{
    let n = s.unicode_len();
    let mut i: usize = 0;
    while i < n
        invariant
            i <= n,
            n == s@.len(),
            forall|j: int| 0 <= j < i ==> s@[j] != c,
        decreases n - i,
    {
        if s.get_char(i) == c {
            proof {
                lemma_index_of_is(s@, c, i as int);
            }
            return i;
        }
        i = i + 1;
    }
    proof {
        lemma_index_of_is(s@, c, n as int);
    }
    n
}

/// The short name of an owner-qualified repository name: what follows the
/// first `/`, or the whole name when no `/` occurs.
pub fn short_name(s: &str) -> (r: String)
    ensures
        r@ == s_short_name(s@),
{
    let n = s.unicode_len();
    let idx = find_char(s, '/');
    if idx < n {
        let tail = s.substring_char(idx + 1, n);
        proof {
            assert(tail@ =~= s@.skip(s_index_of(s@, '/') + 1));
        }
        tail.to_owned()
    } else {
        s.to_owned()
    }
}

} // verus!
