//! A content item that moves from draft to pending review to published, and
//! shows its text only once published; beside it, a few small helpers
//! (rectangle containment, adding two, greetings, bounded guesses).
pub mod adder;
pub mod post;
