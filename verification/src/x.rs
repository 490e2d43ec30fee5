//! Posting to X: one signed request that creates a tweet.

use vstd::prelude::*;
use vstd::string::StringExecFns;
use crate::environment::{spec_lookup, Environment};
use crate::error::{
    encoding_error, outcome_view, spec_encoding_error, PostError, PostErrorView,
};
use crate::http::{
    body_or_unknown, is_success, spec_body_or_unknown, spec_is_success, Auth, AuthView,
    HttpRequest, HttpRequestView, Payload, PayloadView, Reply, ReplyView,
};
use crate::json::{json_string_literal, json_text_at, quote, text_at, text_of};
use crate::step::{Stage, StageView, Step, StepView};

verus! {

/// The four values that sign a request to X.
#[derive(Debug, PartialEq, Eq)]
pub struct Credentials {
    pub consumer_key: String,
    pub consumer_secret: String,
    pub access_token: String,
    pub access_token_secret: String,
}

pub struct CredentialsView {
    pub consumer_key: Seq<char>,
    pub consumer_secret: Seq<char>,
    pub access_token: Seq<char>,
    pub access_token_secret: Seq<char>,
}

impl View for Credentials {
    type V = CredentialsView;

    open spec fn view(&self) -> CredentialsView {
        CredentialsView {
            consumer_key: self.consumer_key@,
            consumer_secret: self.consumer_secret@,
            access_token: self.access_token@,
            access_token_secret: self.access_token_secret@,
        }
    }
}

/// The credentials that the environment holds for X. The four variables are
/// looked up in a fixed order, and the first that is not set is reported.
pub open spec fn spec_credentials(env: Seq<(Seq<char>, Seq<char>)>) -> Result<
    CredentialsView,
    PostErrorView,
> {
    match spec_lookup(env, "X_CONSUMER_KEY"@) {
        None => Err(PostErrorView::MissingCredential("X_CONSUMER_KEY"@)),
        Some(consumer_key) => match spec_lookup(env, "X_CONSUMER_SECRET"@) {
            None => Err(PostErrorView::MissingCredential("X_CONSUMER_SECRET"@)),
            Some(consumer_secret) => match spec_lookup(env, "X_ACCESS_TOKEN"@) {
                None => Err(PostErrorView::MissingCredential("X_ACCESS_TOKEN"@)),
                Some(access_token) => match spec_lookup(env, "X_ACCESS_TOKEN_SECRET"@) {
                    None => Err(PostErrorView::MissingCredential("X_ACCESS_TOKEN_SECRET"@)),
                    Some(access_token_secret) => Ok(
                        CredentialsView {
                            consumer_key,
                            consumer_secret,
                            access_token,
                            access_token_secret,
                        },
                    ),
                },
            },
        },
    }
}

/// The request that creates a tweet: the JSON object whose one member `text`
/// is the message, given as a JSON string literal, sent to the tweet
/// endpoint and signed with the credentials.
pub open spec fn spec_request(credentials: CredentialsView, literal: Seq<char>) -> HttpRequestView {
    HttpRequestView {
        url: "https://api.twitter.com/2/tweets"@,
        auth: AuthView::OAuth1 {
            consumer_key: credentials.consumer_key,
            consumer_secret: credentials.consumer_secret,
            token: credentials.access_token,
            token_secret: credentials.access_token_secret,
        },
        payload: PayloadView::Json("{\"text\":"@ + literal + "}"@),
    }
}

/// The first step of posting `message` to X. Without the four credentials
/// nothing is sent. With them, the tweet request is sent, unless the message
/// cannot be written as JSON.
pub open spec fn spec_post(message: Seq<char>, env: Seq<(Seq<char>, Seq<char>)>) -> StepView {
    match spec_credentials(env) {
        Err(e) => StepView::Done(Err(e)),
        Ok(credentials) => match json_string_literal(message) {
            None => StepView::Done(Err(spec_encoding_error())),
            Some(literal) => StepView::Send {
                request: spec_request(credentials, literal),
                stage: StageView::Tweet,
            },
        },
    }
}

/// The address of the tweet with the given identifier.
pub open spec fn spec_tweet_url(id: Seq<char>) -> Seq<char> {
    "https://x.com/i/web/status/"@ + id
}

/// What a reply to the tweet request means, given the identifier found in
/// its body under `data.id` (`None` where the body could not be read or
/// holds no such text).
pub open spec fn spec_outcome(
    status: u16,
    body: Option<Seq<char>>,
    id: Option<Seq<char>>,
) -> Result<Seq<char>, PostErrorView> {
    if !spec_is_success(status) {
        Err(PostErrorView::ApiError { status, body: spec_body_or_unknown(body) })
    } else {
        match id {
            Some(id) => Ok(spec_tweet_url(id)),
            None => Err(PostErrorView::MalformedResponse("data.id"@)),
        }
    }
}

/// The identifier of the new tweet in the body of a reply.
pub open spec fn spec_tweet_id(body: Option<Seq<char>>) -> Option<Seq<char>> {
    match body {
        Some(doc) => json_text_at(doc, "data"@, "id"@),
        None => None,
    }
}

/// What the reply to the tweet request means: the address of the tweet for
/// a success status with an identifier, `ApiError` for any other status,
/// `MalformedResponse` for a success status without an identifier, and
/// `IOError` where no reply came.
pub open spec fn spec_receive(reply: ReplyView) -> Result<Seq<char>, PostErrorView> {
    match reply {
        ReplyView::Unreachable => Err(PostErrorView::IOError("Failed to send request to X API"@)),
        ReplyView::Answered(response) => spec_outcome(
            response.status,
            response.body,
            spec_tweet_id(response.body),
        ),
    }
}

/// Reads the credentials for X from the environment.
pub fn credentials(env: &Environment) -> (r: Result<Credentials, PostError>)
    ensures
        match r {
            Ok(c) => spec_credentials(env@) == Ok::<CredentialsView, PostErrorView>(c@),
            Err(e) => spec_credentials(env@) == Err::<CredentialsView, PostErrorView>(e@),
        },
{
    let consumer_key = match env.lookup("X_CONSUMER_KEY") {
        Some(v) => v,
        None => { return Err(PostError::MissingCredential("X_CONSUMER_KEY".to_owned())); },
    };
    let consumer_secret = match env.lookup("X_CONSUMER_SECRET") {
        Some(v) => v,
        None => { return Err(PostError::MissingCredential("X_CONSUMER_SECRET".to_owned())); },
    };
    let access_token = match env.lookup("X_ACCESS_TOKEN") {
        Some(v) => v,
        None => { return Err(PostError::MissingCredential("X_ACCESS_TOKEN".to_owned())); },
    };
    let access_token_secret = match env.lookup("X_ACCESS_TOKEN_SECRET") {
        Some(v) => v,
        None => { return Err(PostError::MissingCredential("X_ACCESS_TOKEN_SECRET".to_owned())); },
    };
    Ok(Credentials { consumer_key, consumer_secret, access_token, access_token_secret })
}

/// The request that creates a tweet whose text is the given JSON string
/// literal.
pub fn request(credentials: Credentials, literal: &str) -> (r: HttpRequest)
    ensures
        r@ == spec_request(credentials@, literal@),
{
    let mut body = "{\"text\":".to_owned();
    body.append(literal);
    body.append("}");
    HttpRequest {
        url: "https://api.twitter.com/2/tweets".to_owned(),
        auth: Auth::OAuth1 {
            consumer_key: credentials.consumer_key,
            consumer_secret: credentials.consumer_secret,
            token: credentials.access_token,
            token_secret: credentials.access_token_secret,
        },
        payload: Payload::Json(body),
    }
}

/// Post a message to X: the first step. The address of the created tweet
/// comes from `receive`, once the request of this step has been answered.
pub fn post(message: &str, env: &Environment) -> (r: Step)
    ensures
        r@ == spec_post(message@, env@),
{
    match credentials(env) {
        Err(e) => Step::Done(Err(e)),
        Ok(c) => match quote(message) {
            None => Step::Done(Err(encoding_error())),
            Some(literal) => Step::Send {
                request: request(c, literal.as_str()),
                stage: Stage::Tweet,
            },
        },
    }
}

/// The address of the tweet with the given identifier.
pub fn tweet_url(id: &str) -> (r: String)
    ensures
        r@ == spec_tweet_url(id@),
{
    let mut url = "https://x.com/i/web/status/".to_owned();
    url.append(id);
    url
}

/// What a reply with the given status and body means, where `id` is the
/// identifier that was found in the body, if any.
pub fn outcome(status: u16, body: Option<String>, id: Option<String>) -> (r: Result<
    String,
    PostError,
>)
    ensures
        outcome_view(r) == spec_outcome(
            status,
            text_of(body),
            text_of(id),
        ),
{
    if !is_success(status) {
        Err(PostError::ApiError { status, body: body_or_unknown(body) })
    } else {
        match id {
            Some(id) => Ok(tweet_url(id.as_str())),
            None => Err(PostError::MalformedResponse("data.id".to_owned())),
        }
    }
}

/// Reads the reply to the tweet request.
pub fn receive(reply: Reply) -> (r: Result<String, PostError>)
    ensures
        outcome_view(r) == spec_receive(reply@),
{
    match reply {
        Reply::Unreachable => Err(
            PostError::IOError("Failed to send request to X API".to_owned()),
        ),
        Reply::Answered(response) => {
            let id = match &response.body {
                Some(doc) => text_at(doc.as_str(), "data", "id"),
                None => None,
            };
            outcome(response.status, response.body, id)
        },
    }
}

} // verus!
