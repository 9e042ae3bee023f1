//! A newtype around `Vec`, the doorway the orphan rule leaves open for
//! giving a foreign type local behaviour.

use vstd::prelude::*;

verus! {

/// A vector dressed in a local type.
pub struct Wrapper<T>(pub Vec<T>);

impl<T> Wrapper<T> {
    /// An empty wrapper.
    pub fn new() -> (r: Wrapper<T>)
        ensures
            r.0@.len() == 0,
    {
        Wrapper(Vec::new())
    }
}

} // verus!
