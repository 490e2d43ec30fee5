//! Requests and replies as plain values. The library decides what is sent
//! and reads what came back; sending is left to the caller.

use vstd::prelude::*;
use crate::error::{PostError, PostErrorView};
use crate::json::text_of;
use crate::text::{decimal, push_decimal};

verus! {

/// How a request proves who sends it.
#[derive(Debug, PartialEq, Eq)]
pub enum Auth {
    /// Nothing is added to the request.
    Anonymous,
    /// The token goes into the `Authorization` header as a bearer token.
    Bearer(String),
    /// The request is signed with OAuth 1.0a by these four values.
    OAuth1 { consumer_key: String, consumer_secret: String, token: String, token_secret: String },
}

/// What a request carries.
#[derive(Debug, PartialEq, Eq)]
pub enum Payload {
    /// A JSON document, sent with the content type `application/json`.
    Json(String),
    /// Named values, sent as a form.
    Form(Vec<(String, String)>),
}

/// One HTTP `POST` request.
#[derive(Debug, PartialEq, Eq)]
pub struct HttpRequest {
    pub url: String,
    pub auth: Auth,
    pub payload: Payload,
}

/// What came back for a request: the status, and the body where it could be
/// read.
#[derive(Debug, PartialEq, Eq)]
pub struct HttpResponse {
    pub status: u16,
    pub body: Option<String>,
}

/// The outcome of sending a request.
#[derive(Debug, PartialEq, Eq)]
pub enum Reply {
    /// The platform answered.
    Answered(HttpResponse),
    /// The request could not be sent, or no answer came.
    Unreachable,
}

pub enum AuthView {
    Anonymous,
    Bearer(Seq<char>),
    OAuth1 {
        consumer_key: Seq<char>,
        consumer_secret: Seq<char>,
        token: Seq<char>,
        token_secret: Seq<char>,
    },
}

pub enum PayloadView {
    Json(Seq<char>),
    Form(Seq<(Seq<char>, Seq<char>)>),
}

pub struct HttpRequestView {
    pub url: Seq<char>,
    pub auth: AuthView,
    pub payload: PayloadView,
}

pub struct HttpResponseView {
    pub status: u16,
    pub body: Option<Seq<char>>,
}

pub enum ReplyView {
    Answered(HttpResponseView),
    Unreachable,
}

impl View for Auth {
    type V = AuthView;

    open spec fn view(&self) -> AuthView {
        match self {
            Auth::Anonymous => AuthView::Anonymous,
            Auth::Bearer(token) => AuthView::Bearer(token@),
            Auth::OAuth1 { consumer_key, consumer_secret, token, token_secret } => {
                AuthView::OAuth1 {
                    consumer_key: consumer_key@,
                    consumer_secret: consumer_secret@,
                    token: token@,
                    token_secret: token_secret@,
                }
            },
        }
    }
}

impl View for Payload {
    type V = PayloadView;

    open spec fn view(&self) -> PayloadView {
        match self {
            Payload::Json(document) => PayloadView::Json(document@),
            Payload::Form(fields) => PayloadView::Form(fields.deep_view()),
        }
    }
}

impl View for HttpRequest {
    type V = HttpRequestView;

    open spec fn view(&self) -> HttpRequestView {
        HttpRequestView { url: self.url@, auth: self.auth@, payload: self.payload@ }
    }
}

impl View for HttpResponse {
    type V = HttpResponseView;

    open spec fn view(&self) -> HttpResponseView {
        HttpResponseView { status: self.status, body: text_of(self.body) }
    }
}

impl View for Reply {
    type V = ReplyView;

    open spec fn view(&self) -> ReplyView {
        match self {
            Reply::Answered(response) => ReplyView::Answered(response@),
            Reply::Unreachable => ReplyView::Unreachable,
        }
    }
}

/// A status from 200 to 299 reports success.
pub open spec fn spec_is_success(status: u16) -> bool {
    200 <= status <= 299
}

/// The body that stands for one that could not be read.
pub open spec fn spec_unknown_body() -> Seq<char> {
    "Unknown error"@
}

/// The body of a reply as far as it could be read: a body that could not be
/// read counts as the fixed text `Unknown error`.
pub open spec fn spec_body_or_unknown(body: Option<Seq<char>>) -> Seq<char> {
    match body {
        Some(text) => text,
        None => spec_unknown_body(),
    }
}

/// The status line that `reqwest` prints for a status code: the number and
/// its reason phrase. `None` for a number that `reqwest` takes for no status
/// code.
pub uninterp spec fn status_line(status: u16) -> Option<Seq<char>>;

/// How a status is shown: as `reqwest` prints it, or as the bare number
/// where `reqwest` has nothing to print.
pub open spec fn spec_show_status(status: u16) -> Seq<char> {
    match status_line(status) {
        Some(line) => line,
        None => decimal(status as nat),
    }
}

/// Makes a `reqwest::StatusCode` of the number with `StatusCode::from_u16`
/// and prints it with its `to_string`; `None` where `from_u16` refuses the
/// number. The contract claims only that the outcome depends on the number
/// alone.
#[verifier::external_body]
fn print_status(status: u16) -> (r: Option<String>)
    ensures
        text_of(r) == status_line(status),
{
    reqwest::StatusCode::from_u16(status).ok().map(|code| code.to_string())
}

/// Whether a status reports success.
pub fn is_success(status: u16) -> (r: bool)
    ensures
        r == spec_is_success(status),
{
    200 <= status && status <= 299
}

/// How a status is shown in a message, for example `401 Unauthorized`.
pub fn show_status(status: u16) -> (r: String)
    ensures
        r@ == spec_show_status(status),
{
    match print_status(status) {
        Some(line) => line,
        None => {
            let mut s = String::new();
            push_decimal(&mut s, status as u64);
            assert(s@ =~= decimal(status as nat));
            s
        },
    }
}

/// The body of a reply, or `Unknown error` where it could not be read.
pub fn body_or_unknown(body: Option<String>) -> (r: String)
    ensures
        r@ == spec_body_or_unknown(text_of(body)),
{
    match body {
        Some(text) => text,
        None => "Unknown error".to_owned(),
    }
}

/// The body of a reply that reports success, as far as it could be read.
/// Where no reply came the result is `IOError` with the given context, and
/// where the status reports no success it is `ApiError` with the status and
/// the body.
pub open spec fn spec_success_body(reply: ReplyView, context: Seq<char>) -> Result<
    Option<Seq<char>>,
    PostErrorView,
> {
    match reply {
        ReplyView::Unreachable => Err(PostErrorView::IOError(context)),
        ReplyView::Answered(response) => if spec_is_success(response.status) {
            Ok(response.body)
        } else {
            Err(
                PostErrorView::ApiError {
                    status: response.status,
                    body: spec_body_or_unknown(response.body),
                },
            )
        },
    }
}

/// The body of a reply that reports success; the error that the reply stands
/// for where it does not.
pub fn success_body(reply: Reply, context: &str) -> (r: Result<Option<String>, PostError>)
    ensures
        match r {
            Ok(body) => spec_success_body(reply@, context@) == Ok::<
                Option<Seq<char>>,
                PostErrorView,
            >(text_of(body)),
            Err(e) => spec_success_body(reply@, context@) == Err::<
                Option<Seq<char>>,
                PostErrorView,
            >(e@),
        },
{
    match reply {
        Reply::Unreachable => Err(PostError::IOError(context.to_owned())),
        Reply::Answered(response) => if is_success(response.status) {
            Ok(response.body)
        } else {
            Err(
                PostError::ApiError {
                    status: response.status,
                    body: body_or_unknown(response.body),
                },
            )
        },
    }
}

} // verus!
