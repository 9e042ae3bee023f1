//! A blog post working through an editorial workflow: draft, pending
//! review, published. Two renderings of the same state machine: [`Post`]
//! keeps the state as a tagged value inside one struct, while
//! [`RustifiedPost`] and its companions encode each state as its own type,
//! so that an outdated state value cannot be used at all.
//!
//! A draft collects text; review is requested on a draft; two approvals
//! publish the post; a rejection sends it back to draft. Only a published
//! post shows its content.

use vstd::prelude::*;
use vstd::string::StringExecFns;

verus! {

/// The workflow state of a [`Post`]. A pending post remembers how many
/// approvals it has gathered so far; the second one publishes it.
#[derive(Clone, Copy, Debug, PartialEq, Eq, Structural)]
pub enum PostState {
    Draft,
    PendingReview { approvals: u32 },
    Published,
}

/// A blog post holding its text and its workflow state as data.
pub struct Post {
    state: PostState,
    content: String,
}

impl Post {
    /// The text collected so far.
    pub closed spec fn text(&self) -> Seq<char> {
        self.content@
    }

    /// The workflow state.
    pub closed spec fn state(&self) -> PostState {
        self.state
    }

    /// A pending post has gathered at most one approval: the second one
    /// publishes it on the spot.
    pub open spec fn wf(&self) -> bool {
        match self.state() {
            PostState::PendingReview { approvals } => approvals < 2,
            _ => true,
        }
    }

    /// A fresh post: an empty draft.
    pub fn new() -> (p: Post)
        ensures
            p.wf(),
            p.state() == PostState::Draft,
            p.text() == Seq::<char>::empty(),
    {
        Post { state: PostState::Draft, content: String::new() }
    }

    /// Appends `text` — but only while the post is a draft; in any other
    /// state the words fall on deaf ears and the post is unchanged.
    pub fn add_text(&mut self, text: &str)
        ensures
            final(self).state() == old(self).state(),
            final(self).wf() == old(self).wf(),
            final(self).text() == if old(self).state() == PostState::Draft {
                old(self).text() + text@
            } else {
                old(self).text()
            },
    {
        match self.state {
            PostState::Draft => self.content.append(text),
            _ => (),
        }
    }

    /// The visible content: the full text once published, and nothing at
    /// all in any earlier state.
    pub fn content(&self) -> (r: &str)
        ensures
            r@ == if self.state() == PostState::Published {
                self.text()
            } else {
                Seq::<char>::empty()
            },
    {
        proof {
            reveal_strlit("");
        }
        match self.state {
            PostState::Published => self.content.as_str(),
            _ => "",
        }
    }

    /// A draft goes out for review with no approvals yet; requesting a
    /// review in any other state changes nothing.
    pub fn request_review(&mut self)
        requires
            old(self).wf(),
        ensures
            final(self).wf(),
            final(self).text() == old(self).text(),
            final(self).state() == if old(self).state() == PostState::Draft {
                (PostState::PendingReview { approvals: 0 })
            } else {
                old(self).state()
            },
    {
        match self.state {
            PostState::Draft => {
                self.state = PostState::PendingReview { approvals: 0 };
            },
            _ => (),
        }
    }

    /// One approval. The second approval of a pending post publishes it;
    /// approving a draft or a published post changes nothing.
    pub fn approve(&mut self)
        requires
            old(self).wf(),
        ensures
            final(self).wf(),
            final(self).text() == old(self).text(),
            final(self).state() == match old(self).state() {
                PostState::PendingReview { approvals } => if approvals + 1 == 2 {
                    PostState::Published
                } else {
                    (PostState::PendingReview { approvals: (approvals + 1) as u32 })
                },
                s => s,
            },
    {
        match self.state {
            PostState::PendingReview { approvals } => {
                if approvals + 1 == 2 {
                    self.state = PostState::Published;
                } else {
                    self.state = PostState::PendingReview { approvals: approvals + 1 };
                }
            },
            _ => (),
        }
    }

    /// A rejection sends a pending post back to draft, where its text can
    /// be worked on again; rejecting in any other state changes nothing.
    pub fn reject(&mut self)
        ensures
            final(self).wf(),
            final(self).text() == old(self).text(),
            final(self).state() == match old(self).state() {
                PostState::PendingReview { approvals } => PostState::Draft,
                s => s,
            },
    {
        match self.state {
            PostState::PendingReview { .. } => {
                self.state = PostState::Draft;
            },
            _ => (),
        }
    }
}

/// The published endpoint of the type-per-state rendering: the only state
/// that shows its content.
pub struct RustifiedPost {
    content: String,
}

impl RustifiedPost {
    /// The published text.
    pub closed spec fn text(&self) -> Seq<char> {
        self.content@
    }

    /// Writing starts with an empty draft.
    pub fn new() -> (p: DraftPost)
        ensures
            p.text() == Seq::<char>::empty(),
    {
        DraftPost { content: String::new() }
    }

    /// A published post shows everything it holds.
    pub fn content(&self) -> (r: &str)
        ensures
            r@ == self.text(),
    {
        self.content.as_str()
    }
}

/// A draft: text can be added, and a review requested.
pub struct DraftPost {
    content: String,
}

impl DraftPost {
    /// The text collected so far.
    pub closed spec fn text(&self) -> Seq<char> {
        self.content@
    }

    /// Appends `text` to the draft.
    pub fn add_text(&mut self, text: &str)
        ensures
            final(self).text() == old(self).text() + text@,
    {
        self.content.append(text);
    }

    /// Consumes the draft, so the pre-review state cannot be touched again.
    pub fn request_review(self) -> (p: PendingReviewPost)
        ensures
            p.text() == self.text(),
    {
        PendingReviewPost { content: self.content }
    }
}

/// A post under review with no approvals yet.
pub struct PendingReviewPost {
    content: String,
}

impl PendingReviewPost {
    /// The text under review.
    pub closed spec fn text(&self) -> Seq<char> {
        self.content@
    }

    /// The first approval; one more will publish.
    pub fn approve(self) -> (p: OneApprovalPost)
        ensures
            p.text() == self.text(),
    {
        OneApprovalPost { content: self.content }
    }

    /// Back to the drawing board.
    pub fn reject(self) -> (p: DraftPost)
        ensures
            p.text() == self.text(),
    {
        DraftPost { content: self.content }
    }
}

/// A post one approval short of publication.
pub struct OneApprovalPost {
    content: String,
}

impl OneApprovalPost {
    /// The text under review.
    pub closed spec fn text(&self) -> Seq<char> {
        self.content@
    }

    /// The second approval publishes the post.
    pub fn approve(self) -> (p: RustifiedPost)
        ensures
            p.text() == self.text(),
    {
        RustifiedPost { content: self.content }
    }

    /// Back to the drawing board, even this late.
    pub fn reject(self) -> (p: DraftPost)
        ensures
            p.text() == self.text(),
    {
        DraftPost { content: self.content }
    }
}

} // verus!
