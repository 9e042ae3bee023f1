//! Finding the first word of a string: once clumsily, as the index where
//! the word ends, and once properly, as a slice of the string itself.

use vstd::prelude::*;
use vstd::string::StrSliceExecFns;

verus! {

/// The index of the first space in `s`, or `s.len()` if there is none:
/// where the first word ends.
pub open spec fn first_word_end(s: Seq<char>) -> nat
    decreases s.len(),
{
    if s.len() == 0 {
        0
    } else if s[0] == ' ' {
        0
    } else {
        1 + first_word_end(s.drop_first())
    }
}

proof fn lemma_first_word_end_at(s: Seq<char>, k: nat)
    requires
        k <= s.len(),
        forall|m: int| 0 <= m < k ==> s[m] != ' ',
        k == s.len() || s[k as int] == ' ',
    ensures
        first_word_end(s) == k,
    decreases s.len(),
{
    if s.len() > 0 && s[0] != ' ' {
        assert(k >= 1);
        assert forall|m: int| 0 <= m < k - 1 implies s.drop_first()[m] != ' ' by {
            assert(s[m + 1] != ' ');
        }
        lemma_first_word_end_at(s.drop_first(), (k - 1) as nat);
    }
}

/// Where the first word of `s` ends: the index of the first space, or the
/// whole length when there is no space. Clumsy, because the index is only
/// meaningful as long as the string is unchanged.
pub fn dumb_first_word(s: &String) -> (i: usize)
    ensures
        i as nat == first_word_end(s@),
{
    let n = s.as_str().unicode_len();
    let mut i: usize = 0;
    while i < n && s.as_str().get_char(i) != ' '
        invariant
            i <= n,
            n == s@.len(),
            forall|m: int| 0 <= m < i ==> s@[m] != ' ',
        decreases n - i,
    {
        i = i + 1;
    }
    proof {
        lemma_first_word_end_at(s@, i as nat);
    }
    i
}

/// The first word of `s`, as a slice borrowed from `s`: everything before
/// the first space, or all of `s` when there is none.
pub fn first_word(s: &str) -> (w: &str)
    ensures
        w@ == s@.subrange(0, first_word_end(s@) as int),
{
    let n = s.unicode_len();
    let mut i: usize = 0;
    while i < n && s.get_char(i) != ' '
        invariant
            i <= n,
            n == s@.len(),
            forall|m: int| 0 <= m < i ==> s@[m] != ' ',
        decreases n - i,
    {
        i = i + 1;
    }
    proof {
        lemma_first_word_end_at(s@, i as nat);
    }
    s.substring_char(0, i)
}

} // verus!
