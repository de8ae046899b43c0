//! What a handler answers: a status with a body, or a status with a
//! message under a key.

use crate::errors::{AppError, AppErrorView};
use crate::text::join3;
use vstd::prelude::*;

verus! {

/// The answer to a request that failed: the HTTP status, and the message
/// that the body holds under the key.
#[derive(Debug)]
pub struct ErrorReply {
    pub status: u16,
    pub key: String,
    pub message: String,
}

/// An [`ErrorReply`] with its texts as sequences of characters.
pub struct ErrorReplyView {
    pub status: u16,
    pub key: Seq<char>,
    pub message: Seq<char>,
}

impl View for ErrorReply {
    type V = ErrorReplyView;

    open spec fn view(&self) -> ErrorReplyView {
        ErrorReplyView { status: self.status, key: self.key@, message: self.message@ }
    }
}

/// The answer to a request: the HTTP status with the body, or the failure.
#[derive(Debug)]
pub enum Reply<T> {
    Success { status: u16, body: T },
    Failure(ErrorReply),
}

/// The failure with this status and this message under the key `error`.
pub open spec fn error_reply(status: u16, message: Seq<char>) -> ErrorReplyView {
    ErrorReplyView { status, key: "error"@, message }
}

/// Whether `r` answers `outcome`: a success with the status `ok` and the
/// outcome's value as the body, and for an error the failure that
/// `failure` gives for it.
pub open spec fn is_reply<T>(
    r: Reply<T>,
    outcome: Result<T, AppError>,
    ok: u16,
    failure: spec_fn(AppErrorView) -> ErrorReplyView,
) -> bool {
    match outcome {
        Ok(body) => r == (Reply::<T>::Success { status: ok, body }),
        Err(e) => r is Failure && r->Failure_0@ == failure(e@),
    }
}

/// Every error is answered with the same status and the error's text.
pub open spec fn plain_failure(status: u16, e: AppErrorView) -> ErrorReplyView {
    error_reply(status, e.text())
}

/// A record that the store does not give is answered with 404 and the
/// text `missing`, an input that does not parse with 400 and the parser's
/// message, everything else with 500 and the error's text.
pub open spec fn lookup_failure(missing: Seq<char>, e: AppErrorView) -> ErrorReplyView {
    match e {
        AppErrorView::DatabaseError(_) => error_reply(404, missing),
        AppErrorView::ParsingError(why) => error_reply(400, why),
        _ => error_reply(500, e.text()),
    }
}

/// As [`lookup_failure`], and an input that cannot be processed is
/// answered with 422, the field and the message.
pub open spec fn input_failure(missing: Seq<char>, e: AppErrorView) -> ErrorReplyView {
    match e {
        AppErrorView::UnProcessableEntity { field, message } => error_reply(
            422,
            field + ": "@ + message,
        ),
        _ => lookup_failure(missing, e),
    }
}

/// The failure with this status and this message under the key `error`.
pub fn fail(status: u16, message: String) -> (r: ErrorReply)
    ensures
        r@ == error_reply(status, message@),
{
    ErrorReply { status, key: "error".to_owned(), message }
}

/// The failure for any error: the status, and the error's text.
pub fn fail_plainly(status: u16, e: &AppError) -> (r: ErrorReply)
    ensures
        r@ == plain_failure(status, e@),
{
    fail(status, e.to_string())
}

/// The failure for an error of a lookup, see [`lookup_failure`].
pub fn fail_lookup(missing: &str, e: AppError) -> (r: ErrorReply)
    ensures
        r@ == lookup_failure(missing@, e@),
{
    match e {
        AppError::DatabaseError(_) => fail(404, missing.to_owned()),
        AppError::ParsingError(why) => fail(400, why),
        other => fail(500, other.to_string()),
    }
}

/// The failure for an error of a request with input, see
/// [`input_failure`].
pub fn fail_input(missing: &str, e: AppError) -> (r: ErrorReply)
    ensures
        r@ == input_failure(missing@, e@),
{
    match e {
        AppError::UnProcessableEntity { field, message } => fail(
            422,
            join3(field.as_str(), ": ", message.as_str()),
        ),
        other => fail_lookup(missing, other),
    }
}

} // verus!
