//! The platforms a message can be posted to.

use vstd::prelude::*;
use vstd::string::StringExecFns;
use crate::bluesky;
use crate::environment::Environment;
use crate::error::{spec_describe, PostError, PostErrorView};
use crate::http::{Reply, ReplyView};
use crate::step::{Stage, StageView, Step, StepView};
use crate::threads;
use crate::x;

verus! {

/// Supported social media platforms.
#[derive(Debug, Clone, Copy, PartialEq, Eq, Structural)]
pub enum Platform {
    Bluesky,
    X,
    Threads,
}

impl Platform {
    /// The display name of each platform, as a sequence of characters.
    pub open spec fn spec_name(self) -> Seq<char> {
        match self {
            Platform::Bluesky => "Bluesky"@,
            Platform::X => "X"@,
            Platform::Threads => "Threads"@,
        }
    }

    /// The platforms in the order in which a run that targets all of them
    /// visits them.
    pub open spec fn spec_all() -> Seq<Platform> {
        seq![Platform::Bluesky, Platform::X, Platform::Threads]
    }

    /// Get the display name of the platform.
    pub fn name(&self) -> (r: &'static str)
        ensures
            r@ == self.spec_name(),
    {
        match self {
            Platform::Bluesky => "Bluesky",
            Platform::X => "X",
            Platform::Threads => "Threads",
        }
    }

    /// Get all platforms, in posting order.
    pub fn all() -> (r: Vec<Platform>)
        ensures
            r@ == Platform::spec_all(),
    {
        let mut v: Vec<Platform> = Vec::new();
        v.push(Platform::Bluesky);
        v.push(Platform::X);
        v.push(Platform::Threads);
        assert(v@ =~= Platform::spec_all());
        v
    }

    /// The first step of posting `message` to this platform. `created_at`
    /// is the time of the post, for the platform that asks for one.
    pub open spec fn spec_post(
        self,
        message: Seq<char>,
        env: Seq<(Seq<char>, Seq<char>)>,
        created_at: Seq<char>,
    ) -> StepView {
        match self {
            Platform::Bluesky => bluesky::spec_post(message, env, created_at),
            Platform::X => x::spec_post(message, env),
            Platform::Threads => threads::spec_post(message, env),
        }
    }

    /// The variables that must be set for posting to this platform, in the
    /// order in which they are looked up.
    pub open spec fn spec_required(self) -> Seq<Seq<char>> {
        match self {
            Platform::Bluesky => seq!["BLUESKY_HANDLE"@, "BLUESKY_APP_PASSWORD"@],
            Platform::X => seq![
                "X_CONSUMER_KEY"@,
                "X_CONSUMER_SECRET"@,
                "X_ACCESS_TOKEN"@,
                "X_ACCESS_TOKEN_SECRET"@,
            ],
            Platform::Threads => seq!["THREADS_ACCESS_TOKEN"@, "THREADS_USER_ID"@],
        }
    }

    /// How a failure of posting to this platform is told to a user: a
    /// failure that the platform itself reported starts with its name.
    pub open spec fn spec_describe_failure(self, e: PostErrorView) -> Seq<char> {
        match e {
            PostErrorView::ApiError { .. } => self.spec_name() + " "@ + spec_describe(e),
            _ => spec_describe(e),
        }
    }

    /// Post a message to this platform: the first step. It sends nothing
    /// itself: it says which request to send, or that posting has ended.
    pub fn post(&self, message: &str, env: &Environment, created_at: &str) -> (r: Step)
        ensures
            r@ == self.spec_post(message@, env@, created_at@),
    {
        match self {
            Platform::Bluesky => bluesky::post(message, env, created_at),
            Platform::X => x::post(message, env),
            Platform::Threads => threads::post(message, env),
        }
    }

    /// How a failure of posting to this platform is told to a user.
    pub fn describe_failure(&self, e: &PostError) -> (r: String)
        ensures
            r@ == self.spec_describe_failure(e@),
    {
        match e {
            PostError::ApiError { .. } => {
                let mut text = self.name().to_owned();
                text.append(" ");
                text.append(e.describe().as_str());
                text
            },
            _ => e.describe(),
        }
    }
}

/// The platform that a stage belongs to.
pub open spec fn spec_platform_of(stage: StageView) -> Platform {
    match stage {
        StageView::Tweet => Platform::X,
        StageView::Login { .. } => Platform::Bluesky,
        StageView::Record { .. } => Platform::Bluesky,
        StageView::Container { .. } => Platform::Threads,
        StageView::Publish => Platform::Threads,
    }
}

/// The step that follows the reply to the request of a stage.
pub open spec fn spec_resume(stage: StageView, reply: ReplyView) -> StepView {
    match stage {
        StageView::Tweet => StepView::Done(x::spec_receive(reply)),
        StageView::Login { handle, message, created_at } => bluesky::spec_logged_in(
            handle,
            message,
            created_at,
            reply,
        ),
        StageView::Record { handle } => StepView::Done(bluesky::spec_recorded(handle, reply)),
        StageView::Container { user_id, access_token } => threads::spec_created(
            user_id,
            access_token,
            reply,
        ),
        StageView::Publish => StepView::Done(threads::spec_published(reply)),
    }
}

/// Goes on with posting once the request of a stage has its reply: the next
/// request of the platform, or the end of posting.
pub fn resume(stage: Stage, reply: Reply) -> (r: Step)
    ensures
        r@ == spec_resume(stage@, reply@),
{
    match stage {
        Stage::Tweet => Step::Done(x::receive(reply)),
        Stage::Login { handle, message, created_at } => bluesky::logged_in(
            handle,
            message,
            created_at,
            reply,
        ),
        Stage::Record { handle } => Step::Done(bluesky::recorded(handle, reply)),
        Stage::Container { user_id, access_token } => threads::created(
            user_id,
            access_token,
            reply,
        ),
        Stage::Publish => Step::Done(threads::published(reply)),
    }
}

} // verus!
