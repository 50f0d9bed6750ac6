use vstd::prelude::*;

verus! {

/// The lifecycle stage of a content item.
#[derive(Clone, Copy, Debug, PartialEq, Eq, Structural)]
pub enum LifecycleState {
    Draft,
    PendingReview,
    Published,
}

impl LifecycleState {
    /// The stage reached by asking for review from `self`.
    pub open spec fn reviewed(self) -> LifecycleState {
        match self {
            LifecycleState::Draft => LifecycleState::PendingReview,
            LifecycleState::PendingReview => LifecycleState::PendingReview,
            LifecycleState::Published => LifecycleState::Published,
        }
    }

    /// The stage reached by approving from `self`.
    pub open spec fn approved(self) -> LifecycleState {
        match self {
            LifecycleState::Draft => LifecycleState::Draft,
            LifecycleState::PendingReview => LifecycleState::Published,
            LifecycleState::Published => LifecycleState::Published,
        }
    }

    /// Consumes the current stage and returns the one that a review request leads to.
    pub fn request_review(self) -> (r: LifecycleState)
        ensures
            r == self.reviewed(),
    {
        match self {
            LifecycleState::Draft => LifecycleState::PendingReview,
            LifecycleState::PendingReview => self,
            LifecycleState::Published => self,
        }
    }

    /// Consumes the current stage and returns the one that an approval leads to.
    pub fn approve(self) -> (r: LifecycleState)
        ensures
            r == self.approved(),
    {
        match self {
            LifecycleState::Draft => self,
            LifecycleState::PendingReview => LifecycleState::Published,
            LifecycleState::Published => self,
        }
    }
}

/// The abstract value of a [`Post`]: its stage and everything written so far.
pub struct PostView {
    pub state: LifecycleState,
    pub text: Seq<char>,
}

/// One call that changes a post.
pub enum Action {
    AddText(Seq<char>),
    RequestReview,
    Approve,
}

/// The abstract value of a freshly created post.
pub open spec fn initial_view() -> PostView {
    PostView { state: LifecycleState::Draft, text: Seq::empty() }
}

/// The effect of one action on a post.
pub open spec fn step(v: PostView, a: Action) -> PostView {
    match a {
        Action::AddText(t) => PostView { state: v.state, text: v.text + t },
        Action::RequestReview => PostView { state: v.state.reviewed(), text: v.text },
        Action::Approve => PostView { state: v.state.approved(), text: v.text },
    }
}

/// What a post in the abstract state `v` shows to readers.
pub open spec fn visible(v: PostView) -> Seq<char> {
    if v.state == LifecycleState::Published {
        v.text
    } else {
        Seq::empty()
    }
}

/// The abstract state of a new post after `actions`, applied in order.
pub open spec fn run(actions: Seq<Action>) -> PostView
    decreases actions.len(),
{
    if actions.len() == 0 {
        initial_view()
    } else {
        step(run(actions.drop_last()), actions.last())
    }
}

/// The text that one action appends.
pub open spec fn text_of(a: Action) -> Seq<char> {
    match a {
        Action::AddText(t) => t,
        _ => Seq::empty(),
    }
}

/// All text that `actions` append, in order.
pub open spec fn added_text(actions: Seq<Action>) -> Seq<char>
    decreases actions.len(),
{
    if actions.len() == 0 {
        Seq::empty()
    } else {
        added_text(actions.drop_last()) + text_of(actions.last())
    }
}

/// Some action of `actions` asks for review.
pub open spec fn has_review(actions: Seq<Action>) -> bool {
    exists|i: int| 0 <= i < actions.len() && (#[trigger] actions[i]) is RequestReview
}

/// Some review request in `actions` is followed, later, by an approval.
pub open spec fn review_then_approval(actions: Seq<Action>) -> bool {
    exists|i: int, j: int|
        0 <= i < j < actions.len() && (#[trigger] actions[i]) is RequestReview
            && (#[trigger] actions[j]) is Approve
}

/// Whatever the order of calls, the body is every added text concatenated in
/// call order, and what a post shows, when anything, is exactly that body.
pub proof fn lemma_content_is_all_text(actions: Seq<Action>)
    ensures
        run(actions).text == added_text(actions),
        visible(run(actions)).len() > 0 ==> visible(run(actions)) == added_text(actions),
    decreases actions.len(),
{
    if actions.len() > 0 {
        lemma_content_is_all_text(actions.drop_last());
    }
}

/// A post has left the draft stage exactly when some call asked for review,
/// and is published exactly when some review request was later approved.
pub proof fn lemma_stage_history(actions: Seq<Action>)
    ensures
        run(actions).state != LifecycleState::Draft <==> has_review(actions),
        run(actions).state == LifecycleState::Published <==> review_then_approval(actions),
    decreases actions.len(),
{
    if actions.len() > 0 {
        let s = actions.drop_last();
        let n = actions.len() - 1;
        lemma_stage_history(s);
        assert(forall|k: int| 0 <= k < n ==> actions[k] == s[k]);
        if has_review(s) {
            let i = choose|i: int| 0 <= i < s.len() && (#[trigger] s[i]) is RequestReview;
            assert(actions[i] is RequestReview);
        }
        if review_then_approval(s) {
            let (i, j) = choose|i: int, j: int|
                0 <= i < j < s.len() && (#[trigger] s[i]) is RequestReview
                    && (#[trigger] s[j]) is Approve;
            assert(actions[i] is RequestReview && actions[j] is Approve);
        }
        if review_then_approval(actions) {
            let (i, j) = choose|i: int, j: int|
                0 <= i < j < actions.len() && (#[trigger] actions[i]) is RequestReview
                    && (#[trigger] actions[j]) is Approve;
            assert(s[i] is RequestReview);
            if j < n {
                assert(s[j] is Approve);
            }
        }
        if has_review(actions) {
            let i = choose|i: int| 0 <= i < actions.len() && (#[trigger] actions[i]) is RequestReview;
            if i < n {
                assert(s[i] is RequestReview);
            }
        }
        match actions.last() {
            Action::RequestReview => {
                assert(actions[n] is RequestReview);
            },
            Action::Approve => {
                if has_review(s) {
                    let i = choose|i: int| 0 <= i < s.len() && (#[trigger] s[i]) is RequestReview;
                    assert(actions[i] is RequestReview && actions[n] is Approve);
                }
            },
            Action::AddText(_) => {},
        }
    }
}

/// Once some text has been added, a post shows something exactly when a review
/// request has been followed, later, by an approval.
pub proof fn lemma_visible_iff_reviewed_and_approved(actions: Seq<Action>)
    requires
        added_text(actions).len() > 0,
    ensures
        visible(run(actions)).len() > 0 <==> review_then_approval(actions),
{
    lemma_content_is_all_text(actions);
    lemma_stage_history(actions);
}

/// Approving a draft changes nothing, and a draft shows nothing.
pub proof fn lemma_approve_draft_is_noop(v: PostView)
    requires
        v.state == LifecycleState::Draft,
    ensures
        step(v, Action::Approve) == v,
        visible(step(v, Action::Approve)) == Seq::<char>::empty(),
{
}

/// Asking for review twice is the same as asking once; a post pending review
/// stays pending review.
pub proof fn lemma_request_review_idempotent(v: PostView)
    ensures
        step(step(v, Action::RequestReview), Action::RequestReview) == step(
            v,
            Action::RequestReview,
        ),
        step(v, Action::RequestReview).state != LifecycleState::Draft,
        v.state == LifecycleState::PendingReview ==> step(v, Action::RequestReview) == v,
{
}

/// A published post is left as it is, stage and shown text, by further
/// approvals and review requests.
pub proof fn lemma_published_is_final(v: PostView, a: Action)
    requires
        v.state == LifecycleState::Published,
        a is Approve || a is RequestReview,
    ensures
        step(v, a) == v,
        visible(step(v, a)) == visible(v),
{
}

/// A post with a lifecycle stage and an append-only body of text.
pub struct Post {
    state: LifecycleState,
    content: String,
}

impl View for Post {
    type V = PostView;

    closed spec fn view(&self) -> PostView {
        PostView { state: self.state, text: self.content@ }
    }
}

impl Post {
    /// A new post: a draft with no text.
    pub fn new() -> (r: Post)
        ensures
            r@ == initial_view(),
    {
        Post { state: LifecycleState::Draft, content: String::new() }
    }

    /// Appends `text` to the body, whatever the stage.
    pub fn add_text(&mut self, text: &str)
        ensures
            final(self)@ == step(old(self)@, Action::AddText(text@)),
    {
        self.content.append(text);
    }

    /// Approves the post; only a post pending review becomes published.
    pub fn approve(&mut self)
        ensures
            final(self)@ == step(old(self)@, Action::Approve),
    {
        self.state = self.state.approve();
    }

    /// The body if the post is published, and the empty string otherwise.
    pub fn content(&self) -> (r: &str)
        ensures
            r@ == visible(self@),
    {
        if self.state == LifecycleState::Published {
            self.content.as_str()
        } else {
            proof {
                reveal_strlit("");
            }
            ""
        }
    }

    /// Asks for review; only a draft becomes pending review.
    pub fn request_review(&mut self)
        ensures
            final(self)@ == step(old(self)@, Action::RequestReview),
    {
        self.state = self.state.request_review();
    }
}

} // verus!
