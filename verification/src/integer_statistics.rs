//! Statistics over a list of integers: the median of a sorted list, and
//! the mode — a value no other value outnumbers.

use vstd::prelude::*;

verus! {

/// How many times `x` occurs in `s`.
pub open spec fn count_of(s: Seq<i32>, x: i32) -> nat
    decreases s.len(),
{
    if s.len() == 0 {
        0
    } else {
        (if s[0] == x {
            1nat
        } else {
            0nat
        }) + count_of(s.drop_first(), x)
    }
}

proof fn lemma_count_push(s: Seq<i32>, y: i32, x: i32)
    ensures
        count_of(s.push(y), x) == count_of(s, x) + (if y == x {
            1nat
        } else {
            0nat
        }),
    decreases s.len(),
{
    if s.len() == 0 {
        assert(s.push(y).drop_first() =~= s);
    } else {
        assert(s.push(y).drop_first() =~= s.drop_first().push(y));
        lemma_count_push(s.drop_first(), y, x);
    }
}

proof fn lemma_count_zero(s: Seq<i32>, x: i32)
    requires
        !s.contains(x),
    ensures
        count_of(s, x) == 0,
    decreases s.len(),
{
    if s.len() > 0 {
        assert(!s.drop_first().contains(x)) by {
            if s.drop_first().contains(x) {
                let j = choose|j: int| 0 <= j < s.drop_first().len() && s.drop_first()[j] == x;
                assert(s[j + 1] == x);
            }
        }
        lemma_count_zero(s.drop_first(), x);
    }
}

proof fn lemma_count_le_len(s: Seq<i32>, x: i32)
    ensures
        count_of(s, x) <= s.len(),
    decreases s.len(),
{
    if s.len() > 0 {
        lemma_count_le_len(s.drop_first(), x);
    }
}

/// How many times `x` occurs in `v`.
fn count_val(v: &Vec<i32>, x: i32) -> (c: usize)
    ensures
        c == count_of(v@, x),
{
    let mut c: usize = 0;
    let mut i: usize = 0;
    proof {
        assert(v@.subrange(0, 0) =~= Seq::<i32>::empty());
    }
    while i < v.len()
        invariant
            i <= v@.len(),
            c == count_of(v@.subrange(0, i as int), x),
        decreases v@.len() - i,
    {
        proof {
            lemma_count_push(v@.subrange(0, i as int), v@[i as int], x);
            lemma_count_le_len(v@.subrange(0, i as int), x);
            assert(v@.subrange(0, i + 1) =~= v@.subrange(0, i as int).push(v@[i as int]));
        }
        if v[i] == x {
            c = c + 1;
        }
        i = i + 1;
    }
    proof {
        assert(v@.subrange(0, v@.len() as int) =~= v@);
    }
    c
}

/// The middle element of `v` — the median, provided `v` is sorted.
pub fn median(v: &Vec<i32>) -> (m: i32)
    requires
        v@.len() > 0,
    ensures
        m == v@[v@.len() as int / 2],
{
    v[v.len() / 2]
}

/// A most frequent value of `v`: an element of `v` that no value at all
/// outnumbers. Which of several equally frequent values is returned is
/// deliberately left open.
pub fn mode(v: &Vec<i32>) -> (m: i32)
    requires
        v@.len() > 0,
    ensures
        v@.contains(m),
        forall|x: i32| #[trigger] count_of(v@, x) <= count_of(v@, m),
{
    let mut best: i32 = v[0];
    let mut best_count: usize = count_val(v, best);
    let mut i: usize = 1;
    while i < v.len()
        invariant
            1 <= i <= v@.len(),
            v@.contains(best),
            best_count == count_of(v@, best),
            forall|j: int| 0 <= j < i ==> count_of(v@, #[trigger] v@[j]) <= best_count,
        decreases v@.len() - i,
    {
        let c = count_val(v, v[i]);
        if c > best_count {
            best = v[i];
            best_count = c;
        }
        i = i + 1;
    }
    proof {
        assert forall|x: i32| #[trigger] count_of(v@, x) <= count_of(v@, best) by {
            if v@.contains(x) {
                let j = choose|j: int| 0 <= j < v@.len() && v@[j] == x;
                assert(count_of(v@, v@[j]) <= best_count);
            } else {
                lemma_count_zero(v@, x);
            }
        }
    }
    best
}

} // verus!
