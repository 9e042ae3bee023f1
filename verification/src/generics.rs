//! Working with values of any type — and what still needs a bound: a
//! holder for any pair, and finding the largest number in a slice, which
//! needs its elements to be comparable at all.

use vstd::prelude::*;

verus! {

/// A reference to the largest element of `list` — the first of them, when
/// several tie.
pub fn largest(list: &[i32]) -> (r: &i32)
    requires
        list@.len() > 0,
    ensures
        list@.contains(*r),
        forall|i: int| 0 <= i < list@.len() ==> list@[i] <= *r,
{
    let mut largest_index: usize = 0;
    let mut i: usize = 1;
    while i < list.len()
        invariant
            largest_index < i <= list@.len(),
            forall|j: int| 0 <= j < i ==> list@[j] <= list@[largest_index as int],
        decreases list@.len() - i,
    {
        if list[i] > list[largest_index] {
            largest_index = i;
        }
        i = i + 1;
    }
    &list[largest_index]
}

/// Two values of one type, held together.
#[derive(Debug)]
pub struct Pair<T> {
    pub x: T,
    pub y: T,
}

impl<T> Pair<T> {
    pub fn new(x: T, y: T) -> (p: Self)
        ensures
            p.x == x,
            p.y == y,
    {
        Self { x, y }
    }
}

} // verus!
