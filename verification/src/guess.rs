//! A guessing-game guess, guaranteed to lie between 1 and 100.

use vstd::prelude::*;

verus! {

/// A number guessed by the player. A value of this type is always between
/// 1 and 100 inclusive; no other guess can be built.
pub struct Guess {
    value: i32,
}

impl Guess {
    /// The guessed number.
    pub closed spec fn spec_value(&self) -> i32 {
        self.value
    }

    /// Wraps a guess. A value outside 1 to 100 is no guess at all, so the
    /// caller must have checked it first.
    pub fn new(value: i32) -> (g: Guess)
        requires
            1 <= value <= 100,
        ensures
            g.spec_value() == value,
    {
        Guess { value }
    }

    /// The guessed number, between 1 and 100.
    pub fn value(&self) -> (v: i32)
        ensures
            v == self.spec_value(),
    {
        self.value
    }
}

} // verus!
