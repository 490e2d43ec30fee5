//! Posting to Threads: a container is created for the message, then the
//! container is published.

use vstd::prelude::*;
use vstd::string::StringExecFns;
use crate::environment::{spec_lookup, Environment};
use crate::error::{outcome_view, PostError, PostErrorView};
use crate::http::{
    spec_success_body, success_body, Auth, AuthView, HttpRequest, HttpRequestView, Payload,
    PayloadView, Reply, ReplyView,
};
use crate::json::{json_text_in, text_in, text_of};
use crate::step::{Stage, StageView, Step, StepView};

verus! {

/// The access token and the user id that the environment holds for Threads.
/// The token is looked up first, and the first of the two that is not set is
/// reported.
pub open spec fn spec_credentials(env: Seq<(Seq<char>, Seq<char>)>) -> Result<
    (Seq<char>, Seq<char>),
    PostErrorView,
> {
    match spec_lookup(env, "THREADS_ACCESS_TOKEN"@) {
        None => Err(PostErrorView::MissingCredential("THREADS_ACCESS_TOKEN"@)),
        Some(token) => match spec_lookup(env, "THREADS_USER_ID"@) {
            None => Err(PostErrorView::MissingCredential("THREADS_USER_ID"@)),
            Some(user_id) => Ok((token, user_id)),
        },
    }
}

/// The error for a request that got no reply.
pub open spec fn spec_unreachable() -> Seq<char> {
    "Failed to send request to Threads API"@
}

/// The address that requests of the given kind go to for a user.
pub open spec fn spec_endpoint(user_id: Seq<char>, kind: Seq<char>) -> Seq<char> {
    "https://graph.threads.net/v1.0/"@ + user_id + "/"@ + kind
}

/// The request that creates a container for a text post.
pub open spec fn spec_container_request(
    user_id: Seq<char>,
    access_token: Seq<char>,
    message: Seq<char>,
) -> HttpRequestView {
    HttpRequestView {
        url: spec_endpoint(user_id, "threads"@),
        auth: AuthView::Anonymous,
        payload: PayloadView::Form(
            seq![
                ("media_type"@, "TEXT"@),
                ("text"@, message),
                ("access_token"@, access_token),
            ],
        ),
    }
}

/// The request that publishes a container.
pub open spec fn spec_publish_request(
    user_id: Seq<char>,
    access_token: Seq<char>,
    container: Seq<char>,
) -> HttpRequestView {
    HttpRequestView {
        url: spec_endpoint(user_id, "threads_publish"@),
        auth: AuthView::Anonymous,
        payload: PayloadView::Form(
            seq![("creation_id"@, container), ("access_token"@, access_token)],
        ),
    }
}

/// The first step of posting to Threads. Without the two credentials nothing
/// is sent. With them, a container is asked for, and the credentials are
/// kept for the second request.
pub open spec fn spec_post(message: Seq<char>, env: Seq<(Seq<char>, Seq<char>)>) -> StepView {
    match spec_credentials(env) {
        Err(e) => StepView::Done(Err(e)),
        Ok((access_token, user_id)) => StepView::Send {
            request: spec_container_request(user_id, access_token, message),
            stage: StageView::Container { user_id, access_token },
        },
    }
}

/// The second step, given the identifier of the container that the first
/// reply holds (`None` where it holds none).
pub open spec fn spec_publish_step(
    user_id: Seq<char>,
    access_token: Seq<char>,
    container: Option<Seq<char>>,
) -> StepView {
    match container {
        None => StepView::Done(Err(PostErrorView::MalformedResponse("id"@))),
        Some(container) => StepView::Send {
            request: spec_publish_request(user_id, access_token, container),
            stage: StageView::Publish,
        },
    }
}

/// What follows the reply to the container request: the request that
/// publishes the container, or the end of posting where the reply is an
/// error or names no container.
pub open spec fn spec_created(
    user_id: Seq<char>,
    access_token: Seq<char>,
    reply: ReplyView,
) -> StepView {
    match spec_success_body(reply, spec_unreachable()) {
        Err(e) => StepView::Done(Err(e)),
        Ok(body) => spec_publish_step(user_id, access_token, json_text_in(body, "id"@)),
    }
}

/// The address of the post with the given identifier.
pub open spec fn spec_post_url(id: Seq<char>) -> Seq<char> {
    "https://www.threads.net/t/"@ + id
}

/// The result of posting, given the identifier of the post that the second
/// reply holds (`None` where it holds none).
pub open spec fn spec_post_outcome(id: Option<Seq<char>>) -> Result<Seq<char>, PostErrorView> {
    match id {
        Some(id) => Ok(spec_post_url(id)),
        None => Err(PostErrorView::MalformedResponse("id"@)),
    }
}

/// What the reply to the publish request means.
pub open spec fn spec_published(reply: ReplyView) -> Result<Seq<char>, PostErrorView> {
    match spec_success_body(reply, spec_unreachable()) {
        Err(e) => Err(e),
        Ok(body) => spec_post_outcome(json_text_in(body, "id"@)),
    }
}

/// Reads the access token and the user id from the environment.
pub fn credentials(env: &Environment) -> (r: Result<(String, String), PostError>)
    ensures
        match r {
            Ok(c) => spec_credentials(env@) == Ok::<(Seq<char>, Seq<char>), PostErrorView>(
                (c.0@, c.1@),
            ),
            Err(e) => spec_credentials(env@) == Err::<(Seq<char>, Seq<char>), PostErrorView>(e@),
        },
{
    let token = match env.lookup("THREADS_ACCESS_TOKEN") {
        Some(v) => v,
        None => { return Err(PostError::MissingCredential("THREADS_ACCESS_TOKEN".to_owned())); },
    };
    let user_id = match env.lookup("THREADS_USER_ID") {
        Some(v) => v,
        None => { return Err(PostError::MissingCredential("THREADS_USER_ID".to_owned())); },
    };
    Ok((token, user_id))
}

/// The address that requests of the given kind go to for a user.
fn endpoint(user_id: &str, kind: &str) -> (r: String)
    ensures
        r@ == spec_endpoint(user_id@, kind@),
{
    let mut url = "https://graph.threads.net/v1.0/".to_owned();
    url.append(user_id);
    url.append("/");
    url.append(kind);
    url
}

/// The request that creates a container for a text post.
pub fn container_request(user_id: &str, access_token: &str, message: &str) -> (r: HttpRequest)
    ensures
        r@ == spec_container_request(user_id@, access_token@, message@),
{
    let mut fields: Vec<(String, String)> = Vec::new();
    fields.push(("media_type".to_owned(), "TEXT".to_owned()));
    fields.push(("text".to_owned(), message.to_owned()));
    fields.push(("access_token".to_owned(), access_token.to_owned()));
    assert(fields.deep_view() =~= seq![
        ("media_type"@, "TEXT"@),
        ("text"@, message@),
        ("access_token"@, access_token@),
    ]);
    HttpRequest {
        url: endpoint(user_id, "threads"),
        auth: Auth::Anonymous,
        payload: Payload::Form(fields),
    }
}

/// The request that publishes a container.
pub fn publish_request(user_id: &str, access_token: &str, container: &str) -> (r: HttpRequest)
    ensures
        r@ == spec_publish_request(user_id@, access_token@, container@),
{
    let mut fields: Vec<(String, String)> = Vec::new();
    fields.push(("creation_id".to_owned(), container.to_owned()));
    fields.push(("access_token".to_owned(), access_token.to_owned()));
    assert(fields.deep_view() =~= seq![
        ("creation_id"@, container@),
        ("access_token"@, access_token@),
    ]);
    HttpRequest {
        url: endpoint(user_id, "threads_publish"),
        auth: Auth::Anonymous,
        payload: Payload::Form(fields),
    }
}

/// Post a message to Threads: the first step.
pub fn post(message: &str, env: &Environment) -> (r: Step)
    ensures
        r@ == spec_post(message@, env@),
{
    match credentials(env) {
        Err(e) => Step::Done(Err(e)),
        Ok((access_token, user_id)) => Step::Send {
            request: container_request(user_id.as_str(), access_token.as_str(), message),
            stage: Stage::Container { user_id, access_token },
        },
    }
}

/// The second step, given the identifier of the container.
pub fn publish_step(user_id: &str, access_token: &str, container: Option<String>) -> (r: Step)
    ensures
        r@ == spec_publish_step(user_id@, access_token@, text_of(container)),
{
    match container {
        None => Step::Done(Err(PostError::MalformedResponse("id".to_owned()))),
        Some(container) => Step::Send {
            request: publish_request(user_id, access_token, container.as_str()),
            stage: Stage::Publish,
        },
    }
}

/// Goes on after the reply to the container request.
pub fn created(user_id: String, access_token: String, reply: Reply) -> (r: Step)
    ensures
        r@ == spec_created(user_id@, access_token@, reply@),
{
    match success_body(reply, "Failed to send request to Threads API") {
        Err(e) => Step::Done(Err(e)),
        Ok(body) => publish_step(user_id.as_str(), access_token.as_str(), text_in(&body, "id")),
    }
}

/// The address of the post with the given identifier.
pub fn post_url(id: &str) -> (r: String)
    ensures
        r@ == spec_post_url(id@),
{
    let mut url = "https://www.threads.net/t/".to_owned();
    url.append(id);
    url
}

/// The result of posting, given the identifier of the post.
pub fn post_outcome(id: Option<String>) -> (r: Result<String, PostError>)
    ensures
        outcome_view(r) == spec_post_outcome(text_of(id)),
{
    match id {
        Some(id) => Ok(post_url(id.as_str())),
        None => Err(PostError::MalformedResponse("id".to_owned())),
    }
}

/// Reads the reply to the publish request.
pub fn published(reply: Reply) -> (r: Result<String, PostError>)
    ensures
        outcome_view(r) == spec_published(reply@),
{
    match success_body(reply, "Failed to send request to Threads API") {
        Err(e) => Err(e),
        Ok(body) => post_outcome(text_in(&body, "id")),
    }
}

} // verus!
