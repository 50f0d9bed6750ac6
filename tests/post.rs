use adder_post::post::LifecycleState::{Draft, PendingReview, Published};
use adder_post::post::Post;

#[test]
fn salad_post_is_shown_only_after_approval() {
    let mut post = Post::new();
    post.add_text("I ate a salad for lunch today");
    assert_eq!("", post.content());
    post.request_review();
    assert_eq!("", post.content());
    post.approve();
    assert_eq!("I ate a salad for lunch today", post.content());
}

#[test]
fn approve_on_new_post_is_noop() {
    let mut post = Post::new();
    post.approve();
    assert_eq!("", post.content());
    post.add_text("draft");
    assert_eq!("", post.content());
    post.approve();
    assert_eq!("", post.content());
}

#[test]
fn text_is_appended_across_transitions() {
    let mut post = Post::new();
    post.add_text("one ");
    post.request_review();
    post.add_text("two ");
    post.approve();
    post.add_text("three");
    assert_eq!("one two three", post.content());
}

#[test]
fn approval_before_review_does_not_publish() {
    let mut post = Post::new();
    post.add_text("x");
    post.approve();
    post.request_review();
    assert_eq!("", post.content());
    post.approve();
    assert_eq!("x", post.content());
}

#[test]
fn published_empty_post_shows_nothing() {
    let mut post = Post::new();
    post.request_review();
    post.approve();
    assert_eq!("", post.content());
}

#[test]
fn repeated_review_requests_stay_pending() {
    let mut post = Post::new();
    post.add_text("y");
    post.request_review();
    post.request_review();
    assert_eq!("", post.content());
    post.approve();
    assert_eq!("y", post.content());
}

#[test]
fn published_post_stays_published() {
    let mut post = Post::new();
    post.add_text("z");
    post.request_review();
    post.approve();
    post.approve();
    post.request_review();
    post.approve();
    assert_eq!("z", post.content());
}

#[test]
fn transition_table() {
    assert_eq!(Draft.request_review(), PendingReview);
    assert_eq!(Draft.approve(), Draft);
    assert_eq!(PendingReview.request_review(), PendingReview);
    assert_eq!(PendingReview.approve(), Published);
    assert_eq!(Published.request_review(), Published);
    assert_eq!(Published.approve(), Published);
}
