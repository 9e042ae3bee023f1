//! A tree whose nodes know their parent without owning it. Ownership runs
//! strictly downwards — a node owns nothing of its parent — so the link
//! back up is a plain relation: nodes live in one arena, and both the
//! parent link and the child list are indices into it. No reference cycle
//! can form where a back reference is a lookup rather than an owner.

use vstd::prelude::*;

verus! {

/// One node of the tree: its value, the index of its parent — if it has
/// one — and the indices of its children, all into the arena that holds
/// the tree's nodes.
#[derive(Debug)]
pub struct Node<T> {
    pub value: T,
    pub parent: Option<usize>,
    pub children: Vec<usize>,
}

} // verus!
