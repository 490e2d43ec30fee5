//! What holds of the library as a whole, proved from the definitions that
//! its contracts are stated over.

use vstd::prelude::*;
use crate::editor::{
    composed_message, is_comment_line, is_kept, join_lines, line_end, lines, spec_compose,
    strip_carriage_return, without_comments,
};
use crate::environment::spec_lookup;
use crate::error::PostErrorView;
use crate::http::{spec_body_or_unknown, spec_is_success, HttpResponseView, ReplyView};
use crate::json::{json_text_at, json_text_under};
use crate::platform::{spec_platform_of, spec_resume, Platform};
use crate::run::{
    spec_advance, spec_post_to_platform_safe, spec_replied, ActionView, ContextView, ModeView,
    PostingView, TurnView,
};
use crate::step::{StageView, StepView};
use crate::text::{
    is_whitespace, last_segment, leading_whitespace, lemma_leading_whitespace, trailing_whitespace,
    trim, trim_end, trim_start,
};

verus! {

/// A draft that holds nothing but comment lines gives no message: composing
/// it fails with `EmptyMessage`.
pub proof fn lemma_only_comments_is_empty(content: Seq<char>)
    requires
        forall|i: int|
            0 <= i < lines(content).len() ==> is_comment_line(#[trigger] lines(content)[i]),
    ensures
        spec_compose(content) == Err::<Seq<char>, PostErrorView>(PostErrorView::EmptyMessage),
{
    let ls = lines(content);
    assert forall|i: int| 0 <= i < ls.len() implies !(is_kept())(#[trigger] ls[i]) by {}
    ls.lemma_all_neg_filter_empty(is_kept());
    assert(ls.filter(is_kept()).len() == 0);
    assert(without_comments(content) =~= Seq::<char>::empty());
    assert(trim(Seq::<char>::empty()) =~= Seq::<char>::empty());
}

/// Without one of the variables that a platform requires, posting to it ends
/// at once with `MissingCredential`, naming a required variable that is not
/// set, and no request is sent.
pub proof fn lemma_missing_credential_sends_nothing(
    platform: Platform,
    message: Seq<char>,
    env: Seq<(Seq<char>, Seq<char>)>,
    created_at: Seq<char>,
    i: int,
)
    requires
        0 <= i < platform.spec_required().len(),
        spec_lookup(env, platform.spec_required()[i]) is None,
    ensures
        platform.spec_post(message, env, created_at) matches StepView::Done(
            Err(PostErrorView::MissingCredential(name)),
        ) && platform.spec_required().contains(name) && spec_lookup(env, name) is None,
{
    let required = platform.spec_required();
    match platform {
        Platform::Bluesky => {
            assert(required[0] == "BLUESKY_HANDLE"@ && required[1] == "BLUESKY_APP_PASSWORD"@);
        },
        Platform::X => {
            assert(required[0] == "X_CONSUMER_KEY"@ && required[1] == "X_CONSUMER_SECRET"@
                && required[2] == "X_ACCESS_TOKEN"@ && required[3] == "X_ACCESS_TOKEN_SECRET"@);
        },
        Platform::Threads => {
            assert(required[0] == "THREADS_ACCESS_TOKEN"@ && required[1] == "THREADS_USER_ID"@);
        },
    }
}

/// With all the variables that a platform requires, posting to it does not
/// end with `MissingCredential`.
pub proof fn lemma_credentials_suffice(
    platform: Platform,
    message: Seq<char>,
    env: Seq<(Seq<char>, Seq<char>)>,
    created_at: Seq<char>,
)
    requires
        forall|i: int|
            0 <= i < platform.spec_required().len() ==> spec_lookup(
                env,
                #[trigger] platform.spec_required()[i],
            ) is Some,
    ensures
        !(platform.spec_post(message, env, created_at) matches StepView::Done(
            Err(PostErrorView::MissingCredential(_)),
        )),
{
    let required = platform.spec_required();
    match platform {
        Platform::Bluesky => {
            assert(required[0] == "BLUESKY_HANDLE"@ && required[1] == "BLUESKY_APP_PASSWORD"@);
        },
        Platform::X => {
            assert(required[0] == "X_CONSUMER_KEY"@ && required[1] == "X_CONSUMER_SECRET"@
                && required[2] == "X_ACCESS_TOKEN"@ && required[3] == "X_ACCESS_TOKEN_SECRET"@);
        },
        Platform::Threads => {
            assert(required[0] == "THREADS_ACCESS_TOKEN"@ && required[1] == "THREADS_USER_ID"@);
        },
    }
}

/// A reply to the tweet request with a success status and an identifier
/// under `data.id` gives the address of the tweet: the fixed prefix followed
/// by the identifier.
pub proof fn lemma_x_success_gives_url(status: u16, body: Seq<char>, id: Seq<char>)
    requires
        spec_is_success(status),
        json_text_at(body, "data"@, "id"@) == Some(id),
    ensures
        spec_resume(
            StageView::Tweet,
            ReplyView::Answered(HttpResponseView { status, body: Some(body) }),
        ) == StepView::Done(Ok("https://x.com/i/web/status/"@ + id)),
{
}

/// A reply to the request that creates a Bluesky post, with a success status
/// and a `uri` that ends in a record key, gives the address of the post: the
/// profile of the handle, then the record key.
pub proof fn lemma_bluesky_success_gives_url(
    handle: Seq<char>,
    status: u16,
    body: Seq<char>,
    uri: Seq<char>,
)
    requires
        spec_is_success(status),
        json_text_under(body, "uri"@) == Some(uri),
        last_segment(uri).len() > 0,
    ensures
        spec_resume(
            StageView::Record { handle },
            ReplyView::Answered(HttpResponseView { status, body: Some(body) }),
        ) == StepView::Done(
            Ok("https://bsky.app/profile/"@ + handle + "/post/"@ + last_segment(uri)),
        ),
{
}

/// A reply to the publish request of Threads with a success status and an
/// identifier under `id` gives the address of the post: the fixed prefix
/// followed by the identifier.
pub proof fn lemma_threads_success_gives_url(status: u16, body: Seq<char>, id: Seq<char>)
    requires
        spec_is_success(status),
        json_text_under(body, "id"@) == Some(id),
    ensures
        spec_resume(
            StageView::Publish,
            ReplyView::Answered(HttpResponseView { status, body: Some(body) }),
        ) == StepView::Done(Ok("https://www.threads.net/t/"@ + id)),
{
}

/// At every stage of every platform, a reply whose status reports no success
/// ends posting with `ApiError`, which carries that status and the body of
/// the reply.
pub proof fn lemma_failure_status_gives_api_error(stage: StageView, response: HttpResponseView)
    requires
        !spec_is_success(response.status),
    ensures
        spec_resume(stage, ReplyView::Answered(response)) == StepView::Done(
            Err(
                PostErrorView::ApiError {
                    status: response.status,
                    body: spec_body_or_unknown(response.body),
                },
            ),
        ),
{
}

/// Whether a turn of a run for all platforms keeps to the rules of such a
/// run: it does not end with a failure, does not ask for the editor, and
/// where it sends a request, the run that waits for the reply is still for
/// all platforms, with the same message and the same context.
pub open spec fn keeps_going(turn: TurnView, message: Seq<char>, context: ContextView) -> bool {
    match turn.action {
        ActionView::Exit { failure } => failure is None,
        ActionView::Send { request, posting } => posting.mode is All && posting.message == message
            && posting.context == context,
        ActionView::Compose(_) => false,
    }
}

/// A run for all platforms never ends with a failure, whatever happens to
/// the platforms that are still to be posted to, and every request that it
/// sends is for the one message of the run.
pub proof fn lemma_all_platforms_never_fail(
    queue: Seq<Platform>,
    message: Seq<char>,
    context: ContextView,
)
    ensures
        keeps_going(spec_advance(queue, message, context), message, context),
    decreases queue.len(),
{
    if queue.len() > 0 {
        lemma_all_platforms_never_fail(queue.drop_first(), message, context);
    }
}

/// In a run for all platforms, the failure of one platform is reported and
/// the run goes on: whatever the reply, the turn that follows it keeps to
/// the rules of such a run, and where the platform has ended, the report on
/// it is what the turn prints first.
pub proof fn lemma_reply_never_fails_all_platforms(posting: PostingView, reply: ReplyView)
    requires
        posting.mode is All,
    ensures
        keeps_going(spec_replied(posting, reply), posting.message, posting.context),
        spec_resume(posting.stage, reply) matches StepView::Done(outcome)
            ==> spec_post_to_platform_safe(spec_platform_of(posting.stage), outcome).is_prefix_of(
            spec_replied(posting, reply).output,
        ),
{
    if let ModeView::All { rest } = posting.mode {
        lemma_all_platforms_never_fail(rest, posting.message, posting.context);
    }
}

/// In a run for one platform, the run ends with a failure exactly when
/// posting to that platform ends with an error, and the failure tells that
/// error; nothing is printed before it.
pub proof fn lemma_single_platform_fails_with_its_error(posting: PostingView, reply: ReplyView)
    requires
        posting.mode is Single,
    ensures
        match spec_resume(posting.stage, reply) {
            StepView::Done(Err(e)) => spec_replied(posting, reply) == (TurnView {
                output: Seq::empty(),
                action: ActionView::Exit {
                    failure: Some(spec_platform_of(posting.stage).spec_describe_failure(e)),
                },
            }),
            StepView::Done(Ok(_)) => spec_replied(posting, reply).action == (ActionView::Exit {
                failure: None,
            }),
            StepView::Send { .. } => spec_replied(posting, reply).action is Send,
        },
{
}

/// Where the first line of a text ends: at a position within the text,
/// before which no line feed stands, and which holds one unless it is the
/// end of the text.
proof fn lemma_line_end_is_first_line_feed(s: Seq<char>)
    ensures
        0 <= line_end(s) <= s.len(),
        forall|j: int| 0 <= j < line_end(s) ==> #[trigger] s[j] != '\n',
        line_end(s) < s.len() ==> s[line_end(s)] == '\n',
    decreases s.len(),
{
    if s.len() > 0 && s[0] != '\n' {
        let t = s.drop_first();
        lemma_line_end_is_first_line_feed(t);
        assert forall|j: int| 0 <= j < line_end(s) implies #[trigger] s[j] != '\n' by {
            if j > 0 {
                assert(s[j] == t[j - 1]);
            }
        }
    }
}

/// Joining a line and the lines after it puts the line first, then a line
/// feed, then the other lines joined.
proof fn lemma_join_first(first: Seq<char>, others: Seq<Seq<char>>)
    ensures
        join_lines(seq![first] + others) == if others.len() == 0 {
            first
        } else {
            first + seq!['\n'] + join_lines(others)
        },
    decreases others.len(),
{
    let all = seq![first] + others;
    if others.len() == 0 {
        assert(all[0] == first);
    } else {
        assert(all.drop_last() =~= seq![first] + others.drop_last());
        assert(all.last() == others.last());
        lemma_join_first(first, others.drop_last());
        if others.len() == 1 {
            assert(join_lines(all) =~= first + seq!['\n'] + others[0]);
        } else {
            assert(join_lines(all) =~= first + seq!['\n'] + join_lines(others));
        }
    }
}

/// A test that holds of every line keeps every line.
proof fn lemma_filter_keeps_all(ls: Seq<Seq<char>>)
    requires
        forall|i: int| 0 <= i < ls.len() ==> (is_kept())(#[trigger] ls[i]),
    ensures
        ls.filter(is_kept()) == ls,
    decreases ls.len(),
{
    if ls.len() == 0 {
        ls.lemma_filter_len(is_kept());
        assert(ls.filter(is_kept()) =~= ls);
    } else {
        let front = ls.drop_last();
        lemma_filter_keeps_all(front);
        front.lemma_filter_push(ls.last(), is_kept());
        assert(front.push(ls.last()) =~= ls);
    }
}

/// The leading white space of a text is a prefix of white space that cannot
/// be extended.
proof fn lemma_leading_whitespace_is_maximal(s: Seq<char>)
    ensures
        0 <= leading_whitespace(s) <= s.len(),
        forall|j: int| 0 <= j < leading_whitespace(s) ==> is_whitespace(#[trigger] s[j]),
        leading_whitespace(s) < s.len() ==> !is_whitespace(s[leading_whitespace(s) as int]),
    decreases s.len(),
{
    if s.len() > 0 && is_whitespace(s[0]) {
        let t = s.drop_first();
        lemma_leading_whitespace_is_maximal(t);
        assert forall|j: int| 0 <= j < leading_whitespace(s) implies is_whitespace(
            #[trigger] s[j],
        ) by {
            if j > 0 {
                assert(s[j] == t[j - 1]);
            }
        }
    }
}

/// The trailing white space of a text is no longer than the text.
proof fn lemma_trailing_whitespace_fits(s: Seq<char>)
    ensures
        trailing_whitespace(s) <= s.len(),
    decreases s.len(),
{
    if s.len() > 0 && is_whitespace(s.last()) {
        lemma_trailing_whitespace_fits(s.drop_last());
    }
}

/// The trailing white space of a text is a suffix of white space that cannot
/// be extended.
proof fn lemma_trailing_whitespace_is_maximal(s: Seq<char>)
    ensures
        0 <= trailing_whitespace(s) <= s.len(),
        forall|j: int|
            s.len() - trailing_whitespace(s) <= j < s.len() ==> is_whitespace(#[trigger] s[j]),
        trailing_whitespace(s) < s.len() ==> !is_whitespace(
            s[s.len() - trailing_whitespace(s) - 1],
        ),
    decreases s.len(),
{
    if s.len() > 0 && is_whitespace(s.last()) {
        let t = s.drop_last();
        lemma_trailing_whitespace_is_maximal(t);
        assert forall|j: int| s.len() - trailing_whitespace(s) <= j < s.len() implies is_whitespace(
            #[trigger] s[j],
        ) by {
            if j < s.len() - 1 {
                assert(s[j] == t[j]);
            }
        }
        if trailing_whitespace(s) < s.len() {
            assert(s[s.len() - trailing_whitespace(s) - 1] == t[t.len() - trailing_whitespace(t)
                - 1]);
        }
    }
}

/// What trimming leaves neither starts nor ends with white space, and
/// trimming it again changes nothing.
pub proof fn lemma_trim_leaves_no_white_space_around(s: Seq<char>)
    ensures
        trim(s).len() > 0 ==> !is_whitespace(trim(s).first()) && !is_whitespace(trim(s).last()),
        trim(trim(s)) == trim(s),
{
    let started = trim_start(s);
    let trimmed = trim(s);
    lemma_leading_whitespace_is_maximal(s);
    lemma_trailing_whitespace_is_maximal(started);
    if trimmed.len() > 0 {
        assert(trimmed.first() == s[leading_whitespace(s) as int]);
        assert(trimmed.last() == started[started.len() - trailing_whitespace(started) - 1]);
    }
    assert(leading_whitespace(trimmed) == 0);
    assert(trailing_whitespace(trimmed) == 0);
    assert(trim(trimmed) =~= trimmed);
}

/// A composed message is never empty and has no white space around it.
pub proof fn lemma_message_is_trimmed(content: Seq<char>)
    ensures
        spec_compose(content) matches Ok(message) ==> message.len() > 0 && trim(message)
            == message && !is_whitespace(message.first()) && !is_whitespace(message.last()),
{
    lemma_trim_leaves_no_white_space_around(without_comments(content));
}

/// One more white space character at the end of a text does not change what
/// is left of it after trimming.
pub proof fn lemma_trim_ignores_final_whitespace(s: Seq<char>, c: char)
    requires
        is_whitespace(c),
    ensures
        trim(s.push(c)) == trim(s),
{
    let longer = s.push(c);
    let k = leading_whitespace(s) as int;
    lemma_leading_whitespace_is_maximal(s);
    if k < s.len() {
        assert forall|j: int| 0 <= j < k implies is_whitespace(#[trigger] longer[j]) by {
            assert(longer[j] == s[j]);
        }
        assert(longer[k] == s[k]);
        lemma_leading_whitespace(longer, k);
        let rest = s.skip(k);
        assert(trim_start(longer) =~= rest.push(c));
        assert(rest.push(c).drop_last() =~= rest);
        lemma_trailing_whitespace_fits(rest);
        assert(trim_end(rest.push(c)) =~= trim_end(rest));
    } else {
        assert forall|j: int| 0 <= j < k + 1 implies is_whitespace(#[trigger] longer[j]) by {
            if j < k {
                assert(longer[j] == s[j]);
            }
        }
        lemma_leading_whitespace(longer, k + 1);
        assert(trim_start(longer) =~= Seq::<char>::empty());
        assert(trim_start(s) =~= Seq::<char>::empty());
    }
}

/// A text in which no carriage return stands directly before a line feed.
pub open spec fn has_no_carriage_return_line_feed(s: Seq<char>) -> bool {
    forall|i: int| 0 <= i < s.len() - 1 ==> !(#[trigger] s[i] == '\r' && s[i + 1] == '\n')
}

/// A text without the line feed that ends it, if one does.
pub open spec fn without_final_line_feed(s: Seq<char>) -> Seq<char> {
    if s.len() > 0 && s.last() == '\n' {
        s.drop_last()
    } else {
        s
    }
}

/// Splitting a text into lines and joining the lines again gives the text
/// back, but for a line feed at its end, provided that no line of the text
/// ends in a carriage return and a line feed.
pub proof fn lemma_join_restores_lines(s: Seq<char>)
    requires
        has_no_carriage_return_line_feed(s),
    ensures
        join_lines(lines(s)) == without_final_line_feed(s),
    decreases s.len(),
{
    lemma_line_end_is_first_line_feed(s);
    let e = line_end(s);
    if s.len() == 0 {
    } else if e >= s.len() {
        assert(s.last() == s[s.len() - 1]);
    } else {
        let first = s.take(e);
        let rest = s.skip(e + 1);
        if e > 0 {
            assert(first.last() == s[e - 1]);
            assert(s[e - 1] != '\r');
        }
        assert(strip_carriage_return(first) == first);
        assert forall|i: int| 0 <= i < rest.len() - 1 implies !(#[trigger] rest[i] == '\r' && rest[i
            + 1] == '\n') by {
            assert(rest[i] == s[i + e + 1]);
            assert(rest[i + 1] == s[(i + e + 1) + 1]);
        }
        lemma_join_restores_lines(rest);
        lemma_join_first(first, lines(rest));
        if rest.len() == 0 {
            assert(lines(rest).len() == 0);
            assert(first =~= s.drop_last());
        } else {
            assert(lines(rest).len() > 0);
            assert(rest.last() == s.last());
            if rest.last() == '\n' {
                assert(first + seq!['\n'] + rest.drop_last() =~= s.drop_last());
            } else {
                assert(first + seq!['\n'] + rest =~= s);
            }
        }
    }
}

/// A draft without comment lines is the message, apart from the white space
/// around it: composing it gives the draft trimmed. This holds provided that
/// no line of the draft ends in a carriage return and a line feed, which
/// composing would turn into a line feed.
pub proof fn lemma_plain_draft_is_kept(content: Seq<char>)
    requires
        forall|i: int|
            0 <= i < lines(content).len() ==> !is_comment_line(#[trigger] lines(content)[i]),
        has_no_carriage_return_line_feed(content),
    ensures
        composed_message(content) == trim(content),
{
    lemma_filter_keeps_all(lines(content));
    lemma_join_restores_lines(content);
    if content.len() > 0 && content.last() == '\n' {
        lemma_trim_ignores_final_whitespace(content.drop_last(), '\n');
        assert(content.drop_last().push('\n') =~= content);
    }
}

} // verus!
