//! References that outlive a function call: the longer of two borrowed
//! strings, and an excerpt borrowed from a novel.

use vstd::prelude::*;
use vstd::string::StrSliceExecFns;

verus! {

/// The longer of `x` and `y`, measured in characters; `y` when they tie.
pub fn longest<'a>(x: &'a str, y: &'a str) -> (r: &'a str)
    ensures
        r@ == if x@.len() > y@.len() {
            x@
        } else {
            y@
        },
{
    if x.unicode_len() > y.unicode_len() {
        x
    } else {
        y
    }
}

/// A part borrowed from a larger text, which the excerpt cannot outlive.
pub struct ImportantExcerpt<'a> {
    pub part: &'a str,
}

impl<'a> ImportantExcerpt<'a> {
    /// How important the excerpt is held to be.
    pub fn level(&self) -> (n: i32)
        ensures
            n == 3,
    {
        3
    }

    /// The borrowed part itself.
    pub fn announce_and_return_part(&self, _announcement: &str) -> (r: &str)
        ensures
            r@ == self.part@,
    {
        self.part
    }
}

} // verus!
