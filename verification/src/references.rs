//! Borrowing a string to measure it, and borrowing it mutably to grow it.

use vstd::prelude::*;
use vstd::string::StringExecFns;

verus! {

/// The length of `s` in characters, through a shared borrow.
pub fn calculate_length(s: &String) -> (n: usize)
    ensures
        n as nat == s@.len(),
{
    let r = s.as_str().unicode_len();
    r
}

/// Greets the world by appending to `s`, through a mutable borrow.
pub fn change(s: &mut String)
    ensures
        final(s)@ == old(s)@ + ", world!"@,
{
    s.append(", world!");
}

} // verus!
