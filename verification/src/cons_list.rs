//! A very naive cons list: a recursive type holding a value and the rest of
//! the list, the last item being `Nil`. [`List`] owns its tail outright;
//! [`SharedList`] counts references to it, so several lists can share one
//! common tail for reading.

use std::rc::Rc;
use vstd::prelude::*;

verus! {

/// Owns the rest of the list. Any item can be mutated as long as the list
/// itself is mutable.
pub enum List<T> {
    Cons(T, Box<List<T>>),
    Nil,
}

/// Immutably shares the rest of the list, so several lists may hang their
/// own heads onto one common tail.
pub enum SharedList<T> {
    Cons(T, Rc<SharedList<T>>),
    Nil,
}

/// The number of items in `l`.
pub open spec fn list_len<T>(l: List<T>) -> nat
    decreases l,
{
    match l {
        List::Cons(_, rest) => 1 + list_len(*rest),
        List::Nil => 0,
    }
}

impl<T> List<T> {
    /// Recursively traverses `list` applying read-only `func` to each item,
    /// front first. What `func` does with its borrows is its own business,
    /// so it must accept every item in every state it may reach.
    pub fn for_each<F>(list: &List<T>, mut func: F) where F: FnMut(&T)
        requires
            forall|g: F, x: &T| call_requires(g, (x,)),
        decreases list,
    {
        match list {
            List::Cons(value, rest) => {
                func(value);
                List::for_each(rest, func);
            },
            List::Nil => (),
        }
    }

    /// Recursively traverses `list` applying mutating `func` to each item,
    /// front first. The list keeps its length and shape; only the values
    /// change, in whatever way `func` changes them.
    pub fn for_each_mut<F>(list: &mut List<T>, mut func: F) where F: FnMut(&mut T)
        requires
            forall|g: F, x: &mut T| call_requires(g, (x,)),
        ensures
            list_len(*final(list)) == list_len(*old(list)),
        decreases list_len(*old(list)),
    {
        match list {
            List::Cons(value, rest) => {
                func(value);
                List::for_each_mut(rest, func);
            },
            List::Nil => (),
        }
    }
}

impl<T> SharedList<T> {
    /// Recursively traverses `list` applying read-only `func` to each item,
    /// front first, leaving the shared tail untouched.
    pub fn for_each<F>(list: &SharedList<T>, mut func: F) where F: FnMut(&T)
        requires
            forall|g: F, x: &T| call_requires(g, (x,)),
        decreases list,
    {
        match list {
            SharedList::Cons(value, rest) => {
                func(value);
                SharedList::for_each(rest, func);
            },
            SharedList::Nil => (),
        }
    }
}

} // verus!
