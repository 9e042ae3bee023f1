use primer::blog::{Post, RustifiedPost};

#[test]
fn post_needs_two_approvals_to_publish() {
    let mut post = Post::new();

    post.add_text("I ate a salad for lunch today");
    assert_eq!("", post.content());

    post.request_review();
    assert_eq!("", post.content());

    post.approve();
    assert_eq!("", post.content());

    post.approve();
    assert_eq!("I ate a salad for lunch today", post.content());
}

#[test]
fn rejected_post_returns_to_draft() {
    let mut post = Post::new();

    post.add_text("First thought");
    post.request_review();
    post.reject();
    post.add_text(", second thought");
    post.request_review();
    post.approve();
    post.approve();
    assert_eq!("First thought, second thought", post.content());
}

#[test]
fn text_added_outside_draft_is_ignored() {
    let mut post = Post::new();

    post.add_text("kept");
    post.request_review();
    post.add_text(" dropped");
    post.approve();
    post.approve();
    assert_eq!("kept", post.content());
}

#[test]
fn typed_post_walks_the_same_workflow() {
    let mut post = RustifiedPost::new();

    post.add_text("I ate a salad for lunch today");

    let post = post.request_review();
    let post = post.approve();
    let post = post.approve();

    assert_eq!("I ate a salad for lunch today", post.content());
}

#[test]
fn typed_post_rejection_allows_more_text() {
    let mut post = RustifiedPost::new();
    post.add_text("Hello");

    let pending = post.request_review();
    let mut draft = pending.reject();
    draft.add_text(", world");

    let published = draft.request_review().approve().approve();
    assert_eq!("Hello, world", published.content());
}
