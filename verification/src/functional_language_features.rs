//! A tiny hand-made iterator: it counts from one to five and then has
//! nothing more to say.

use vstd::prelude::*;

verus! {

/// Counts from one to five, one call at a time.
pub struct CountToFive {
    pub count: u32,
}

impl CountToFive {
    /// A fresh counter that has not counted yet.
    pub fn new() -> (c: CountToFive)
        ensures
            c.count == 0,
    {
        CountToFive { count: 0 }
    }

    /// The next count: `Some(1)` through `Some(5)`, then `None` forever.
    pub fn next(&mut self) -> (r: Option<u32>)
        ensures
            old(self).count < 5 ==> final(self).count == old(self).count + 1 && r == Some(
                final(self).count,
            ),
            old(self).count >= 5 ==> final(self).count == old(self).count && r is None,
    {
        if self.count < 5 {
            self.count = self.count + 1;
            Some(self.count)
        } else {
            None
        }
    }
}

} // verus!
