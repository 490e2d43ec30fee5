//! One run from the parsed command line to the exit code. A run is a chain
//! of turns: each turn says what to print and what to do next, and what was
//! done comes back as the input of the next turn.

use vstd::prelude::*;
use vstd::string::StringExecFns;
use crate::editor::{
    choose_editor, open_editor, spec_choose_editor, spec_open_editor, EditorSession,
    EditorSessionView,
};
use crate::environment::{spec_lookup, Environment};
use crate::error::{outcome_view, spec_describe, PostError, PostErrorView};
use crate::http::{HttpRequest, HttpRequestView, Reply, ReplyView};
use crate::json::text_of;
use crate::platform::{resume, spec_platform_of, spec_resume, Platform};
use crate::step::{Stage, StageView, Step, StepView};

verus! {

/// What the command line asks for: one platform or all of them, and the
/// message if it was given there.
#[derive(Debug, PartialEq, Eq)]
pub struct Intent {
    pub platform: Option<Platform>,
    pub message: Option<String>,
}

/// What a run takes from its surroundings: the environment, and the time
/// that a post carries where the platform asks for one.
#[derive(Debug, PartialEq, Eq)]
pub struct Context {
    pub env: Environment,
    pub created_at: String,
}

/// A run that waits for the editor.
#[derive(Debug, PartialEq, Eq)]
pub struct Composing {
    pub platform: Option<Platform>,
    pub context: Context,
    pub editor: String,
}

/// Where a run goes after the platform that it is waiting on.
#[derive(Debug, PartialEq, Eq)]
pub enum Mode {
    /// The run is for that platform alone.
    Single,
    /// The run is for all platforms; these are still to come.
    All { rest: Vec<Platform> },
}

/// A run that waits for the reply to a request.
#[derive(Debug, PartialEq, Eq)]
pub struct Posting {
    pub mode: Mode,
    pub message: String,
    pub context: Context,
    pub stage: Stage,
}

/// What the caller does after a turn.
#[derive(Debug, PartialEq, Eq)]
pub enum Action {
    /// Run the editor on the draft and hand the session to `edited`.
    Compose(Composing),
    /// Send the request and hand the reply to `replied`.
    Send { request: HttpRequest, posting: Posting },
    /// End the process: with exit code 0 where `failure` is `None`, else
    /// with the failure shown as an error and a code other than 0.
    Exit { failure: Option<String> },
}

/// One turn: the lines to print, in order, and what to do then.
#[derive(Debug, PartialEq, Eq)]
pub struct Turn {
    pub output: Vec<String>,
    pub action: Action,
}

pub struct IntentView {
    pub platform: Option<Platform>,
    pub message: Option<Seq<char>>,
}

pub struct ContextView {
    pub env: Seq<(Seq<char>, Seq<char>)>,
    pub created_at: Seq<char>,
}

pub struct ComposingView {
    pub platform: Option<Platform>,
    pub context: ContextView,
    pub editor: Seq<char>,
}

pub enum ModeView {
    Single,
    All { rest: Seq<Platform> },
}

pub struct PostingView {
    pub mode: ModeView,
    pub message: Seq<char>,
    pub context: ContextView,
    pub stage: StageView,
}

pub enum ActionView {
    Compose(ComposingView),
    Send { request: HttpRequestView, posting: PostingView },
    Exit { failure: Option<Seq<char>> },
}

pub struct TurnView {
    pub output: Seq<Seq<char>>,
    pub action: ActionView,
}

impl View for Intent {
    type V = IntentView;

    open spec fn view(&self) -> IntentView {
        IntentView { platform: self.platform, message: text_of(self.message) }
    }
}

impl View for Context {
    type V = ContextView;

    open spec fn view(&self) -> ContextView {
        ContextView { env: self.env@, created_at: self.created_at@ }
    }
}

impl View for Composing {
    type V = ComposingView;

    open spec fn view(&self) -> ComposingView {
        ComposingView { platform: self.platform, context: self.context@, editor: self.editor@ }
    }
}

impl View for Mode {
    type V = ModeView;

    open spec fn view(&self) -> ModeView {
        match self {
            Mode::Single => ModeView::Single,
            Mode::All { rest } => ModeView::All { rest: rest@ },
        }
    }
}

impl View for Posting {
    type V = PostingView;

    open spec fn view(&self) -> PostingView {
        PostingView {
            mode: self.mode@,
            message: self.message@,
            context: self.context@,
            stage: self.stage@,
        }
    }
}

impl View for Action {
    type V = ActionView;

    open spec fn view(&self) -> ActionView {
        match self {
            Action::Compose(composing) => ActionView::Compose(composing@),
            Action::Send { request, posting } => ActionView::Send {
                request: request@,
                posting: posting@,
            },
            Action::Exit { failure } => ActionView::Exit { failure: text_of(*failure) },
        }
    }
}

impl View for Turn {
    type V = TurnView;

    open spec fn view(&self) -> TurnView {
        TurnView { output: self.output.deep_view(), action: self.action@ }
    }
}

/// The message that the command line gives: the text of the option where it
/// is there and not empty. `None` means that the message is composed in the
/// editor.
pub open spec fn spec_get_message(message_opt: Option<Seq<char>>) -> Option<Seq<char>> {
    match message_opt {
        Some(message) if message.len() > 0 => Some(message),
        _ => None,
    }
}

/// The same turn with some lines printed before its own.
pub open spec fn spec_after(lines: Seq<Seq<char>>, turn: TurnView) -> TurnView {
    TurnView { output: lines + turn.output, action: turn.action }
}

/// The line that reports a post.
pub open spec fn spec_posted(platform: Platform) -> Seq<char> {
    "\u{2713} Posted to "@ + platform.spec_name() + " successfully!"@
}

/// What a run for all platforms prints about one platform: two lines for a
/// post, one line for a failure.
pub open spec fn spec_post_to_platform_safe(
    platform: Platform,
    outcome: Result<Seq<char>, PostErrorView>,
) -> Seq<Seq<char>> {
    match outcome {
        Ok(url) => seq![spec_posted(platform), "  "@ + url],
        Err(e) => seq![
            "\u{2717} Failed to post to "@ + platform.spec_name() + ": "@
                + platform.spec_describe_failure(e),
        ],
    }
}

/// The last turn of a run for one platform: a post is reported and the run
/// ends well; a failure ends the run with that failure.
pub open spec fn spec_post_to_platform(
    platform: Platform,
    outcome: Result<Seq<char>, PostErrorView>,
) -> TurnView {
    match outcome {
        Ok(url) => TurnView {
            output: seq![spec_posted(platform), "View your post: "@ + url],
            action: ActionView::Exit { failure: None },
        },
        Err(e) => TurnView {
            output: Seq::empty(),
            action: ActionView::Exit { failure: Some(platform.spec_describe_failure(e)) },
        },
    }
}

/// A run for all platforms from the point where `queue` is still to be
/// posted to. Each platform is tried in turn. One that ends without a
/// request is reported and the next is tried; the first that has a request
/// to send makes the turn end there. After the last platform the run ends
/// well, whatever happened on the way.
pub open spec fn spec_advance(
    queue: Seq<Platform>,
    message: Seq<char>,
    context: ContextView,
) -> TurnView
    decreases queue.len(),
{
    if queue.len() == 0 {
        TurnView {
            output: seq![Seq::empty(), "Posting complete!"@],
            action: ActionView::Exit { failure: None },
        }
    } else {
        match queue[0].spec_post(message, context.env, context.created_at) {
            StepView::Send { request, stage } => TurnView {
                output: Seq::empty(),
                action: ActionView::Send {
                    request,
                    posting: PostingView {
                        mode: ModeView::All { rest: queue.drop_first() },
                        message,
                        context,
                        stage,
                    },
                },
            },
            StepView::Done(outcome) => spec_after(
                spec_post_to_platform_safe(queue[0], outcome),
                spec_advance(queue.drop_first(), message, context),
            ),
        }
    }
}

/// The turn that a step of posting to one platform alone makes.
pub open spec fn spec_single(
    platform: Platform,
    step: StepView,
    message: Seq<char>,
    context: ContextView,
) -> TurnView {
    match step {
        StepView::Send { request, stage } => TurnView {
            output: Seq::empty(),
            action: ActionView::Send {
                request,
                posting: PostingView { mode: ModeView::Single, message, context, stage },
            },
        },
        StepView::Done(outcome) => spec_post_to_platform(platform, outcome),
    }
}

/// The turn that follows once the message is known.
pub open spec fn spec_begin(
    platform: Option<Platform>,
    message: Seq<char>,
    context: ContextView,
) -> TurnView {
    match platform {
        Some(p) => spec_single(
            p,
            p.spec_post(message, context.env, context.created_at),
            message,
            context,
        ),
        None => spec_after(
            seq!["Posting to all platforms..."@, Seq::empty()],
            spec_advance(Platform::spec_all(), message, context),
        ),
    }
}

/// The first turn of a run. With a message on the command line posting
/// begins at once; without one the editor is asked for, the one that the
/// environment names under `EDITOR`, else under `VISUAL`, else the default.
pub open spec fn spec_start(intent: IntentView, context: ContextView) -> TurnView {
    match spec_get_message(intent.message) {
        Some(message) => spec_begin(intent.platform, message, context),
        None => TurnView {
            output: Seq::empty(),
            action: ActionView::Compose(
                ComposingView {
                    platform: intent.platform,
                    context,
                    editor: spec_choose_editor(
                        spec_lookup(context.env, "EDITOR"@),
                        spec_lookup(context.env, "VISUAL"@),
                    ),
                },
            ),
        },
    }
}

/// The turn that follows a session with the editor: posting begins with the
/// composed message, or the run ends with the reason why there is none.
pub open spec fn spec_edited(composing: ComposingView, session: EditorSessionView) -> TurnView {
    match spec_open_editor(composing.editor, session) {
        Ok(message) => spec_begin(composing.platform, message, composing.context),
        Err(e) => TurnView {
            output: Seq::empty(),
            action: ActionView::Exit { failure: Some(spec_describe(e)) },
        },
    }
}

/// The turn that follows a reply. The platform that was waited on goes on
/// with its next request or ends. When it ends, a run for that platform
/// alone ends with it; a run for all platforms reports it and goes on with
/// the platforms that are left.
pub open spec fn spec_replied(posting: PostingView, reply: ReplyView) -> TurnView {
    let platform = spec_platform_of(posting.stage);
    match spec_resume(posting.stage, reply) {
        StepView::Send { request, stage } => TurnView {
            output: Seq::empty(),
            action: ActionView::Send {
                request,
                posting: PostingView {
                    mode: posting.mode,
                    message: posting.message,
                    context: posting.context,
                    stage,
                },
            },
        },
        StepView::Done(outcome) => match posting.mode {
            ModeView::Single => spec_post_to_platform(platform, outcome),
            ModeView::All { rest } => spec_after(
                spec_post_to_platform_safe(platform, outcome),
                spec_advance(rest, posting.message, posting.context),
            ),
        },
    }
}

/// Get the message from the command line option, if it holds one: a text
/// that is there and not empty is the message as it stands. `None` says that
/// the message is to be composed in the editor.
pub fn get_message(message_opt: Option<String>) -> (r: Option<String>)
    ensures
        text_of(r) == spec_get_message(text_of(message_opt)),
{
    match message_opt {
        Some(message) => if message.as_str().is_empty() {
            None
        } else {
            Some(message)
        },
        None => None,
    }
}

/// The platform that a stage belongs to.
pub fn platform_of(stage: &Stage) -> (r: Platform)
    ensures
        r == spec_platform_of(stage@),
{
    match stage {
        Stage::Tweet => Platform::X,
        Stage::Login { .. } => Platform::Bluesky,
        Stage::Record { .. } => Platform::Bluesky,
        Stage::Container { .. } => Platform::Threads,
        Stage::Publish => Platform::Threads,
    }
}

/// The line that reports a post.
fn posted(platform: Platform) -> (r: String)
    ensures
        r@ == spec_posted(platform),
{
    let mut line = "\u{2713} Posted to ".to_owned();
    line.append(platform.name());
    line.append(" successfully!");
    line
}

/// Adds a line to the lines of a turn.
fn push_line(output: &mut Vec<String>, line: String)
    ensures
        final(output).deep_view() == old(output).deep_view().push(line@),
{
    output.push(line);
    assert(output.deep_view() =~= old(output).deep_view().push(line@));
}

/// Reports the result of posting to one platform in a run for all
/// platforms: adds to `output` the lines for a post or the line for a
/// failure. A failure is told and goes no further.
pub fn post_to_platform_safe(
    output: &mut Vec<String>,
    platform: Platform,
    outcome: Result<String, PostError>,
)
    ensures
        final(output).deep_view() == old(output).deep_view() + spec_post_to_platform_safe(
            platform,
            outcome_view(outcome),
        ),
{
    match outcome {
        Ok(url) => {
            push_line(output, posted(platform));
            let mut line = "  ".to_owned();
            line.append(url.as_str());
            push_line(output, line);
            assert(output.deep_view() =~= old(output).deep_view() + seq![
                spec_posted(platform),
                "  "@ + url@,
            ]);
        },
        Err(e) => {
            let mut line = "\u{2717} Failed to post to ".to_owned();
            line.append(platform.name());
            line.append(": ");
            line.append(platform.describe_failure(&e).as_str());
            push_line(output, line);
            assert(output.deep_view() =~= old(output).deep_view() + seq![
                "\u{2717} Failed to post to "@ + platform.spec_name() + ": "@
                    + platform.spec_describe_failure(e@),
            ]);
        },
    }
}

/// Reports the result of posting to a single platform: the last turn of a
/// run for that platform alone. A post is displayed; a failure ends the run.
pub fn post_to_platform(platform: Platform, outcome: Result<String, PostError>) -> (r: Turn)
    ensures
        r@ == spec_post_to_platform(platform, outcome_view(outcome)),
{
    match outcome {
        Ok(url) => {
            let mut output: Vec<String> = Vec::new();
            push_line(&mut output, posted(platform));
            let mut line = "View your post: ".to_owned();
            line.append(url.as_str());
            push_line(&mut output, line);
            assert(output.deep_view() =~= seq![spec_posted(platform), "View your post: "@ + url@]);
            Turn { output, action: Action::Exit { failure: None } }
        },
        Err(e) => {
            let output: Vec<String> = Vec::new();
            assert(output.deep_view() =~= Seq::<Seq<char>>::empty());
            Turn {
                output,
                action: Action::Exit { failure: Some(platform.describe_failure(&e)) },
            }
        },
    }
}

/// The platforms of `queue` after the first.
fn rest_of(queue: &Vec<Platform>) -> (r: Vec<Platform>)
    requires
        queue.len() > 0,
    ensures
        r@ == queue@.drop_first(),
{
    let mut rest: Vec<Platform> = Vec::new();
    let mut i: usize = 1;
    while i < queue.len()
        invariant
            1 <= i <= queue.len(),
            rest@ == queue@.subrange(1, i as int),
        decreases queue.len() - i,
    {
        rest.push(queue[i]);
        i = i + 1;
        assert(rest@ =~= queue@.subrange(1, i as int));
    }
    assert(rest@ =~= queue@.drop_first());
    rest
}

/// Goes on with a run for all platforms: `queue` is still to be posted to,
/// and `output` is what the turn prints before.
fn advance(queue: Vec<Platform>, message: String, context: Context, output: Vec<String>) -> (r:
    Turn)
    ensures
        r@ == spec_after(output.deep_view(), spec_advance(queue@, message@, context@)),
    decreases queue.len(),
{
    let ghost printed = output.deep_view();
    let mut output = output;
    if queue.len() == 0 {
        push_line(&mut output, String::new());
        push_line(&mut output, "Posting complete!".to_owned());
        assert(output.deep_view() =~= printed + seq![
            Seq::<char>::empty(),
            "Posting complete!"@,
        ]);
        return Turn { output, action: Action::Exit { failure: None } };
    }
    let platform = queue[0];
    let rest = rest_of(&queue);
    match platform.post(message.as_str(), &context.env, context.created_at.as_str()) {
        Step::Send { request, stage } => {
            assert(output.deep_view() + Seq::<Seq<char>>::empty() =~= output.deep_view());
            Turn {
                output,
                action: Action::Send {
                    request,
                    posting: Posting { mode: Mode::All { rest }, message, context, stage },
                },
            }
        },
        Step::Done(outcome) => {
            let ghost before = output.deep_view();
            let ghost lines = spec_post_to_platform_safe(platform, outcome_view(outcome));
            post_to_platform_safe(&mut output, platform, outcome);
            let turn = advance(rest, message, context, output);
            proof {
                let tail = spec_advance(queue@.drop_first(), message@, context@);
                assert((before + lines) + tail.output =~= before + (lines + tail.output));
            }
            turn
        },
    }
}

/// The turn that follows once the message is known.
fn begin(platform: Option<Platform>, message: String, context: Context) -> (r: Turn)
    ensures
        r@ == spec_begin(platform, message@, context@),
{
    match platform {
        Some(p) => {
            match p.post(message.as_str(), &context.env, context.created_at.as_str()) {
                Step::Send { request, stage } => {
                    let output: Vec<String> = Vec::new();
                    assert(output.deep_view() =~= Seq::<Seq<char>>::empty());
                    Turn {
                        output,
                        action: Action::Send {
                            request,
                            posting: Posting { mode: Mode::Single, message, context, stage },
                        },
                    }
                },
                Step::Done(outcome) => post_to_platform(p, outcome),
            }
        },
        None => {
            let mut output: Vec<String> = Vec::new();
            push_line(&mut output, "Posting to all platforms...".to_owned());
            push_line(&mut output, String::new());
            assert(output.deep_view() =~= seq![
                "Posting to all platforms..."@,
                Seq::<char>::empty(),
            ]);
            advance(Platform::all(), message, context, output)
        },
    }
}

/// The first turn of a run.
pub fn start(intent: Intent, context: Context) -> (r: Turn)
    ensures
        r@ == spec_start(intent@, context@),
{
    match get_message(intent.message) {
        Some(message) => begin(intent.platform, message, context),
        None => {
            let editor = choose_editor(context.env.lookup("EDITOR"), context.env.lookup("VISUAL"));
            let output: Vec<String> = Vec::new();
            assert(output.deep_view() =~= Seq::<Seq<char>>::empty());
            Turn {
                output,
                action: Action::Compose(Composing { platform: intent.platform, context, editor }),
            }
        },
    }
}

impl Composing {
    /// The turn that follows a session with the editor.
    pub fn edited(self, session: EditorSession) -> (r: Turn)
        ensures
            r@ == spec_edited(self@, session@),
    {
        match open_editor(self.editor.as_str(), session) {
            Ok(message) => begin(self.platform, message, self.context),
            Err(e) => {
                let output: Vec<String> = Vec::new();
                assert(output.deep_view() =~= Seq::<Seq<char>>::empty());
                Turn { output, action: Action::Exit { failure: Some(e.describe()) } }
            },
        }
    }
}

impl Posting {
    /// The turn that follows the reply to the request that the run was
    /// waiting on.
    pub fn replied(self, reply: Reply) -> (r: Turn)
        ensures
            r@ == spec_replied(self@, reply@),
    {
        let platform = platform_of(&self.stage);
        match resume(self.stage, reply) {
            Step::Send { request, stage } => {
                let output: Vec<String> = Vec::new();
                assert(output.deep_view() =~= Seq::<Seq<char>>::empty());
                Turn {
                    output,
                    action: Action::Send {
                        request,
                        posting: Posting {
                            mode: self.mode,
                            message: self.message,
                            context: self.context,
                            stage,
                        },
                    },
                }
            },
            Step::Done(outcome) => match self.mode {
                Mode::Single => post_to_platform(platform, outcome),
                Mode::All { rest } => {
                    let mut output: Vec<String> = Vec::new();
                    assert(output.deep_view() =~= Seq::<Seq<char>>::empty());
                    post_to_platform_safe(&mut output, platform, outcome);
                    advance(rest, self.message, self.context, output)
                },
            },
        }
    }
}

impl Action {
    /// The exit code of the process where the action ends it: 0 for a run
    /// that ended well, 1 for one that ended with a failure.
    pub fn exit_code(&self) -> (r: Option<u8>)
        ensures
            r == match self@ {
                ActionView::Exit { failure: None } => Some(0u8),
                ActionView::Exit { failure: Some(_) } => Some(1u8),
                _ => None::<u8>,
            },
    {
        match self {
            Action::Exit { failure: None } => Some(0),
            Action::Exit { failure: Some(_) } => Some(1),
            _ => None,
        }
    }
}

} // verus!
