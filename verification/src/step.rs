//! What posting to one platform does next: send a request and wait for the
//! reply, or end with a result.

use vstd::prelude::*;
use crate::error::{PostError, PostErrorView};
use crate::http::{HttpRequest, HttpRequestView};

verus! {

/// The request that a platform is waiting on, with what it needs to go on
/// once the reply is there.
#[derive(Debug, PartialEq, Eq)]
pub enum Stage {
    /// X: the tweet was sent.
    Tweet,
    /// Bluesky: a session was asked for; the post itself is still to be sent.
    Login { handle: String, message: String, created_at: String },
    /// Bluesky: the post was sent.
    Record { handle: String },
    /// Threads: a container for the post was asked for; it is still to be
    /// published.
    Container { user_id: String, access_token: String },
    /// Threads: the container was sent for publishing.
    Publish,
}

/// The next step of posting to one platform.
#[derive(Debug, PartialEq, Eq)]
pub enum Step {
    /// Send the request, then go on with the reply at the given stage.
    Send { request: HttpRequest, stage: Stage },
    /// Posting has ended: with the address of the new post, or with the
    /// reason why there is none.
    Done(Result<String, PostError>),
}

pub enum StageView {
    Tweet,
    Login { handle: Seq<char>, message: Seq<char>, created_at: Seq<char> },
    Record { handle: Seq<char> },
    Container { user_id: Seq<char>, access_token: Seq<char> },
    Publish,
}

pub enum StepView {
    Send { request: HttpRequestView, stage: StageView },
    Done(Result<Seq<char>, PostErrorView>),
}

impl View for Stage {
    type V = StageView;

    open spec fn view(&self) -> StageView {
        match self {
            Stage::Tweet => StageView::Tweet,
            Stage::Login { handle, message, created_at } => StageView::Login {
                handle: handle@,
                message: message@,
                created_at: created_at@,
            },
            Stage::Record { handle } => StageView::Record { handle: handle@ },
            Stage::Container { user_id, access_token } => StageView::Container {
                user_id: user_id@,
                access_token: access_token@,
            },
            Stage::Publish => StageView::Publish,
        }
    }
}

impl View for Step {
    type V = StepView;

    open spec fn view(&self) -> StepView {
        match self {
            Step::Send { request, stage } => StepView::Send { request: request@, stage: stage@ },
            Step::Done(Ok(url)) => StepView::Done(Ok(url@)),
            Step::Done(Err(e)) => StepView::Done(Err(e@)),
        }
    }
}

} // verus!
