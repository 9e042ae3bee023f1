//! Passing functions to functions: a step function, and a combinator that
//! applies a function twice to one argument and adds the results.

use vstd::prelude::*;

verus! {

/// One more than `x`.
pub fn add_one(x: i32) -> (r: i32)
    requires
        x < i32::MAX,
    ensures
        r == x + 1,
{
    x + 1
}

/// `f(arg) + f(arg)`. The function is consulted twice, so the caller
/// vouches that any two of its answers for `arg` fit into the sum.
pub fn do_twice<F: Fn(i32) -> i32>(f: F, arg: i32) -> (r: i32)
    requires
        call_requires(f, (arg,)),
        forall|r1: i32, r2: i32|
            call_ensures(f, (arg,), r1) && call_ensures(f, (arg,), r2) ==> i32::MIN <= r1 + r2
                <= i32::MAX,
    ensures
        exists|r1: i32, r2: i32|
            call_ensures(f, (arg,), r1) && call_ensures(f, (arg,), r2) && r == r1 + r2,
{
    f(arg) + f(arg)
}

} // verus!
