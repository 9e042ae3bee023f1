//! One name, several owners: inherent methods and two traits all wanting
//! to be called `baby_name` or `fly`, disambiguated at the call site.

use vstd::prelude::*;
use vstd::string::StringExecFns;

verus! {

/// Animals name their young.
pub trait Animal {
    fn baby_name() -> String;
}

/// Wizards fly.
pub trait Wizard {
    fn fly(&self);
}

pub struct Human;

impl Human {
    /// What humans themselves call their baby.
    pub fn baby_name() -> (r: String)
        ensures
            r@ == "Junior"@,
    {
        String::from_str("Junior")
    }

    /// Humans flap their arms.
    pub fn fly(&self) {
    }
}

impl Animal for Human {
    fn baby_name() -> (r: String)
        ensures
            r@ == "kid"@,
    {
        String::from_str("kid")
    }
}

impl Wizard for Human {
    fn fly(&self) {
    }
}

pub struct Dog;

impl Dog {
    /// What this dog is actually called.
    pub fn baby_name() -> (r: String)
        ensures
            r@ == "Spot"@,
    {
        String::from_str("Spot")
    }

    /// Dogs do their best.
    pub fn fly(&self) {
    }
}

impl Animal for Dog {
    fn baby_name() -> (r: String)
        ensures
            r@ == "puppy"@,
    {
        String::from_str("puppy")
    }
}

impl Wizard for Dog {
    fn fly(&self) {
    }
}

} // verus!
