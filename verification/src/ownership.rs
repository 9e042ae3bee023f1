//! Taking ownership of a string just to measure it — and giving it back,
//! which is the roundabout way a borrow renders unnecessary.

use vstd::prelude::*;
use vstd::string::StrSliceExecFns;

verus! {

/// Takes the string, measures it, and hands both the string and its
/// length in characters back in a tuple.
pub fn weird_calculate_length(s: String) -> (r: (String, usize))
    ensures
        r.0@ == s@,
        r.1 as nat == s@.len(),
{
    let length = s.as_str().unicode_len();
    (s, length)
}

} // verus!
