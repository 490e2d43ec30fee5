//! Posting to Bluesky: a session is opened with the handle and the app
//! password, then the post is created with the token of that session.

use vstd::prelude::*;
use vstd::string::StringExecFns;
use crate::environment::{spec_lookup, Environment};
use crate::error::{
    encoding_error, outcome_view, spec_encoding_error, PostError, PostErrorView,
};
use crate::http::{
    spec_success_body, success_body, Auth, AuthView, HttpRequest, HttpRequestView, Payload,
    PayloadView, Reply, ReplyView,
};
use crate::json::{json_string_literal, json_text_in, quote, text_in, text_of};
use crate::step::{Stage, StageView, Step, StepView};
use crate::text::{last_segment, last_segment_of};

verus! {

/// The handle and the app password that the environment holds for Bluesky.
/// The handle is looked up first, and the first of the two that is not set
/// is reported.
pub open spec fn spec_credentials(env: Seq<(Seq<char>, Seq<char>)>) -> Result<
    (Seq<char>, Seq<char>),
    PostErrorView,
> {
    match spec_lookup(env, "BLUESKY_HANDLE"@) {
        None => Err(PostErrorView::MissingCredential("BLUESKY_HANDLE"@)),
        Some(handle) => match spec_lookup(env, "BLUESKY_APP_PASSWORD"@) {
            None => Err(PostErrorView::MissingCredential("BLUESKY_APP_PASSWORD"@)),
            Some(password) => Ok((handle, password)),
        },
    }
}

/// The error for a request that got no reply.
pub open spec fn spec_unreachable() -> Seq<char> {
    "Failed to send request to Bluesky API"@
}

/// The request that opens a session, given the handle and the password as
/// JSON string literals.
pub open spec fn spec_login_request(handle: Seq<char>, password: Seq<char>) -> HttpRequestView {
    HttpRequestView {
        url: "https://bsky.social/xrpc/com.atproto.server.createSession"@,
        auth: AuthView::Anonymous,
        payload: PayloadView::Json(
            "{\"identifier\":"@ + handle + ",\"password\":"@ + password + "}"@,
        ),
    }
}

/// The request that creates the post, given the token of the session and,
/// as JSON string literals, the account, the message and the time.
pub open spec fn spec_record_request(
    token: Seq<char>,
    account: Seq<char>,
    message: Seq<char>,
    created_at: Seq<char>,
) -> HttpRequestView {
    HttpRequestView {
        url: "https://bsky.social/xrpc/com.atproto.repo.createRecord"@,
        auth: AuthView::Bearer(token),
        payload: PayloadView::Json(
            "{\"repo\":"@ + account
                + ",\"collection\":\"app.bsky.feed.post\",\"record\":{\"$type\":\"app.bsky.feed.post\",\"text\":"@
                + message + ",\"createdAt\":"@ + created_at + "}}"@,
        ),
    }
}

/// The first step of posting to Bluesky. Without the two credentials nothing
/// is sent. With them, a session is asked for, and the message and the time
/// are kept for the second request.
pub open spec fn spec_post(
    message: Seq<char>,
    env: Seq<(Seq<char>, Seq<char>)>,
    created_at: Seq<char>,
) -> StepView {
    match spec_credentials(env) {
        Err(e) => StepView::Done(Err(e)),
        Ok((handle, password)) => match (
            json_string_literal(handle),
            json_string_literal(password),
        ) {
            (Some(h), Some(p)) => StepView::Send {
                request: spec_login_request(h, p),
                stage: StageView::Login { handle, message, created_at },
            },
            _ => StepView::Done(Err(spec_encoding_error())),
        },
    }
}

/// The second step, given the token and the account that the session reply
/// holds (`None` for what it lacks).
pub open spec fn spec_record_step(
    handle: Seq<char>,
    message: Seq<char>,
    created_at: Seq<char>,
    token: Option<Seq<char>>,
    account: Option<Seq<char>>,
) -> StepView {
    match token {
        None => StepView::Done(Err(PostErrorView::MalformedResponse("accessJwt"@))),
        Some(token) => match account {
            None => StepView::Done(Err(PostErrorView::MalformedResponse("did"@))),
            Some(account) => match (
                json_string_literal(account),
                json_string_literal(message),
                json_string_literal(created_at),
            ) {
                (Some(a), Some(m), Some(c)) => StepView::Send {
                    request: spec_record_request(token, a, m, c),
                    stage: StageView::Record { handle },
                },
                _ => StepView::Done(Err(spec_encoding_error())),
            },
        },
    }
}

/// What follows the reply to the session request: the request that creates
/// the post, or the end of posting where the reply is an error or lacks the
/// token or the account.
pub open spec fn spec_logged_in(
    handle: Seq<char>,
    message: Seq<char>,
    created_at: Seq<char>,
    reply: ReplyView,
) -> StepView {
    match spec_success_body(reply, spec_unreachable()) {
        Err(e) => StepView::Done(Err(e)),
        Ok(body) => spec_record_step(
            handle,
            message,
            created_at,
            json_text_in(body, "accessJwt"@),
            json_text_in(body, "did"@),
        ),
    }
}

/// The address of a post, given the handle of its author and its record key.
pub open spec fn spec_post_url(handle: Seq<char>, key: Seq<char>) -> Seq<char> {
    "https://bsky.app/profile/"@ + handle + "/post/"@ + key
}

/// The result of posting, given the `uri` that the reply to the second
/// request holds (`None` where it holds none). The record key is what
/// follows the last `/` of the `uri`, and must not be empty.
pub open spec fn spec_post_outcome(handle: Seq<char>, uri: Option<Seq<char>>) -> Result<
    Seq<char>,
    PostErrorView,
> {
    match uri {
        Some(uri) if last_segment(uri).len() > 0 => Ok(spec_post_url(handle, last_segment(uri))),
        _ => Err(PostErrorView::MalformedResponse("uri"@)),
    }
}

/// What the reply to the second request means.
pub open spec fn spec_recorded(handle: Seq<char>, reply: ReplyView) -> Result<
    Seq<char>,
    PostErrorView,
> {
    match spec_success_body(reply, spec_unreachable()) {
        Err(e) => Err(e),
        Ok(body) => spec_post_outcome(handle, json_text_in(body, "uri"@)),
    }
}

/// Reads the handle and the app password from the environment.
pub fn credentials(env: &Environment) -> (r: Result<(String, String), PostError>)
    ensures
        match r {
            Ok(c) => spec_credentials(env@) == Ok::<(Seq<char>, Seq<char>), PostErrorView>(
                (c.0@, c.1@),
            ),
            Err(e) => spec_credentials(env@) == Err::<(Seq<char>, Seq<char>), PostErrorView>(e@),
        },
{
    let handle = match env.lookup("BLUESKY_HANDLE") {
        Some(v) => v,
        None => { return Err(PostError::MissingCredential("BLUESKY_HANDLE".to_owned())); },
    };
    let password = match env.lookup("BLUESKY_APP_PASSWORD") {
        Some(v) => v,
        None => { return Err(PostError::MissingCredential("BLUESKY_APP_PASSWORD".to_owned())); },
    };
    Ok((handle, password))
}

/// The request that opens a session.
pub fn login_request(handle: &str, password: &str) -> (r: HttpRequest)
    ensures
        r@ == spec_login_request(handle@, password@),
{
    let mut body = "{\"identifier\":".to_owned();
    body.append(handle);
    body.append(",\"password\":");
    body.append(password);
    body.append("}");
    HttpRequest {
        url: "https://bsky.social/xrpc/com.atproto.server.createSession".to_owned(),
        auth: Auth::Anonymous,
        payload: Payload::Json(body),
    }
}

/// The request that creates the post.
pub fn record_request(token: String, account: &str, message: &str, created_at: &str) -> (r:
    HttpRequest)
    ensures
        r@ == spec_record_request(token@, account@, message@, created_at@),
{
    let mut body = "{\"repo\":".to_owned();
    body.append(account);
    body.append(
        ",\"collection\":\"app.bsky.feed.post\",\"record\":{\"$type\":\"app.bsky.feed.post\",\"text\":",
    );
    body.append(message);
    body.append(",\"createdAt\":");
    body.append(created_at);
    body.append("}}");
    HttpRequest {
        url: "https://bsky.social/xrpc/com.atproto.repo.createRecord".to_owned(),
        auth: Auth::Bearer(token),
        payload: Payload::Json(body),
    }
}

/// Post a message to Bluesky: the first step. `created_at` is the time that
/// the post will carry.
pub fn post(message: &str, env: &Environment, created_at: &str) -> (r: Step)
    ensures
        r@ == spec_post(message@, env@, created_at@),
{
    match credentials(env) {
        Err(e) => Step::Done(Err(e)),
        Ok((handle, password)) => {
            let h = quote(handle.as_str());
            let p = quote(password.as_str());
            match (h, p) {
                (Some(h), Some(p)) => Step::Send {
                    request: login_request(h.as_str(), p.as_str()),
                    stage: Stage::Login {
                        handle,
                        message: message.to_owned(),
                        created_at: created_at.to_owned(),
                    },
                },
                _ => Step::Done(Err(encoding_error())),
            }
        },
    }
}

/// The second step, given what the session reply holds.
pub fn record_step(
    handle: String,
    message: &str,
    created_at: &str,
    token: Option<String>,
    account: Option<String>,
) -> (r: Step)
    ensures
        r@ == spec_record_step(handle@, message@, created_at@, text_of(token), text_of(account)),
{
    match token {
        None => Step::Done(Err(PostError::MalformedResponse("accessJwt".to_owned()))),
        Some(token) => match account {
            None => Step::Done(Err(PostError::MalformedResponse("did".to_owned()))),
            Some(account) => {
                let a = quote(account.as_str());
                let m = quote(message);
                let c = quote(created_at);
                match (a, m, c) {
                    (Some(a), Some(m), Some(c)) => Step::Send {
                        request: record_request(token, a.as_str(), m.as_str(), c.as_str()),
                        stage: Stage::Record { handle },
                    },
                    _ => Step::Done(Err(encoding_error())),
                }
            },
        },
    }
}

/// Goes on after the reply to the session request.
pub fn logged_in(handle: String, message: String, created_at: String, reply: Reply) -> (r: Step)
    ensures
        r@ == spec_logged_in(handle@, message@, created_at@, reply@),
{
    match success_body(reply, "Failed to send request to Bluesky API") {
        Err(e) => Step::Done(Err(e)),
        Ok(body) => {
            let token = text_in(&body, "accessJwt");
            let account = text_in(&body, "did");
            record_step(handle, message.as_str(), created_at.as_str(), token, account)
        },
    }
}

/// The address of a post.
pub fn post_url(handle: &str, key: &str) -> (r: String)
    ensures
        r@ == spec_post_url(handle@, key@),
{
    let mut url = "https://bsky.app/profile/".to_owned();
    url.append(handle);
    url.append("/post/");
    url.append(key);
    url
}

/// The result of posting, given the `uri` of the new record.
pub fn post_outcome(handle: &str, uri: Option<String>) -> (r: Result<String, PostError>)
    ensures
        outcome_view(r) == spec_post_outcome(handle@, text_of(uri)),
{
    match uri {
        Some(uri) => {
            let key = last_segment_of(uri.as_str());
            if key.as_str().unicode_len() > 0 {
                Ok(post_url(handle, key.as_str()))
            } else {
                Err(PostError::MalformedResponse("uri".to_owned()))
            }
        },
        None => Err(PostError::MalformedResponse("uri".to_owned())),
    }
}

/// Reads the reply to the request that creates the post.
pub fn recorded(handle: String, reply: Reply) -> (r: Result<String, PostError>)
    ensures
        outcome_view(r) == spec_recorded(handle@, reply@),
{
    match success_body(reply, "Failed to send request to Bluesky API") {
        Err(e) => Err(e),
        Ok(body) => post_outcome(handle.as_str(), text_in(&body, "uri")),
    }
}

} // verus!
