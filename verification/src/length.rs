//! Two newtypes over the same integer, keeping metres and millimetres
//! from being mixed up by accident.

use vstd::prelude::*;

verus! {

/// A length in whole metres.
#[derive(Debug, PartialEq, Eq, Structural)]
pub struct Meters(pub u32);

impl Meters {
    pub fn new(length: u32) -> (r: Meters)
        ensures
            r.0 == length,
    {
        Meters(length)
    }
}

/// A length in whole millimetres.
#[derive(Debug, PartialEq, Eq, Structural)]
pub struct Millimeters(pub u32);

impl Millimeters {
    pub fn new(length: u32) -> (r: Millimeters)
        ensures
            r.0 == length,
    {
        Millimeters(length)
    }

    /// The total of this length and `other`, in millimetres.
    pub fn plus_meters(self, other: Meters) -> (r: Millimeters)
        requires
            self.0 + other.0 * 1000 <= u32::MAX,
        ensures
            r.0 == self.0 + other.0 * 1000,
    {
        Millimeters(self.0 + other.0 * 1000)
    }
}

} // verus!
