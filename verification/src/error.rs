//! The ways in which resolving or posting a message can fail.

use vstd::prelude::*;
use vstd::string::StringExecFns;
use crate::http::{show_status, spec_show_status};

verus! {

/// Why an operation failed. Every failure ends the operation that raised it;
/// nothing is retried.
#[derive(Debug, PartialEq, Eq)]
pub enum PostError {
    /// A required credential is not in the environment; the field is the
    /// name of the variable.
    MissingCredential(String),
    /// The editor exited with a status other than zero.
    EditorAborted,
    /// Nothing is left of the composed text once comments and surrounding
    /// white space are removed.
    EmptyMessage,
    /// The draft file, the editor or the connection failed; the field says
    /// what was being done.
    IOError(String),
    /// The platform answered with a status outside 200..=299.
    ApiError { status: u16, body: String },
    /// A reply with a success status lacks the named part.
    MalformedResponse(String),
}

/// A `PostError` with its texts as sequences of characters.
pub enum PostErrorView {
    MissingCredential(Seq<char>),
    EditorAborted,
    EmptyMessage,
    IOError(Seq<char>),
    ApiError { status: u16, body: Seq<char> },
    MalformedResponse(Seq<char>),
}

impl View for PostError {
    type V = PostErrorView;

    open spec fn view(&self) -> PostErrorView {
        match self {
            PostError::MissingCredential(name) => PostErrorView::MissingCredential(name@),
            PostError::EditorAborted => PostErrorView::EditorAborted,
            PostError::EmptyMessage => PostErrorView::EmptyMessage,
            PostError::IOError(context) => PostErrorView::IOError(context@),
            PostError::ApiError { status, body } => PostErrorView::ApiError {
                status: *status,
                body: body@,
            },
            PostError::MalformedResponse(part) => PostErrorView::MalformedResponse(part@),
        }
    }
}

/// The view of the result of an operation that yields a text.
pub open spec fn outcome_view(r: Result<String, PostError>) -> Result<Seq<char>, PostErrorView> {
    match r {
        Ok(text) => Ok(text@),
        Err(e) => Err(e@),
    }
}

/// The error for a text that cannot be written as JSON.
pub open spec fn spec_encoding_error() -> PostErrorView {
    PostErrorView::IOError("Failed to encode the request"@)
}

/// The error for a text that cannot be written as JSON.
pub fn encoding_error() -> (r: PostError)
    ensures
        r@ == spec_encoding_error(),
{
    PostError::IOError("Failed to encode the request".to_owned())
}

/// The text that tells a user what went wrong.
pub open spec fn spec_describe(e: PostErrorView) -> Seq<char> {
    match e {
        PostErrorView::MissingCredential(name) => name + " not set in .env file"@,
        PostErrorView::EditorAborted => "Editor exited with non-zero status. Post aborted."@,
        PostErrorView::EmptyMessage => "Empty message. Post aborted."@,
        PostErrorView::IOError(context) => context,
        PostErrorView::ApiError { status, body } => "API returned error "@ + spec_show_status(
            status,
        ) + ": "@ + body,
        PostErrorView::MalformedResponse(part) => "Failed to extract "@ + part
            + " from response"@,
    }
}

impl PostError {
    /// The text that tells a user what went wrong.
    pub fn describe(&self) -> (r: String)
        ensures
            r@ == spec_describe(self@),
    {
        match self {
            PostError::MissingCredential(name) => {
                let mut text = name.clone();
                text.append(" not set in .env file");
                text
            },
            PostError::EditorAborted => {
                "Editor exited with non-zero status. Post aborted.".to_owned()
            },
            PostError::EmptyMessage => "Empty message. Post aborted.".to_owned(),
            PostError::IOError(context) => context.clone(),
            PostError::ApiError { status, body } => {
                let mut text = "API returned error ".to_owned();
                text.append(show_status(*status).as_str());
                text.append(": ");
                text.append(body.as_str());
                text
            },
            PostError::MalformedResponse(part) => {
                let mut text = "Failed to extract ".to_owned();
                text.append(part.as_str());
                text.append(" from response");
                text
            },
        }
    }
}

} // verus!
