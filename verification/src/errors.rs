//! The error kinds of the service, their text and their HTTP rendering.

use crate::text::{join2, join3};
use vstd::prelude::*;

verus! {

/// What can go wrong in the service. Callers branch on the kind.
#[derive(Debug)]
pub enum AppError {
    NotFound(String),
    InternalServerError(String),
    UnProcessableEntity { field: String, message: String },
    MissingEnvironmentVarible(String),
    ParsingError(String),
    DatabaseError(String),
    Unauthorized(String),
}

/// An [`AppError`] with its texts as sequences of characters.
pub enum AppErrorView {
    NotFound(Seq<char>),
    InternalServerError(Seq<char>),
    UnProcessableEntity { field: Seq<char>, message: Seq<char> },
    MissingEnvironmentVarible(Seq<char>),
    ParsingError(Seq<char>),
    DatabaseError(Seq<char>),
    Unauthorized(Seq<char>),
}

impl View for AppError {
    type V = AppErrorView;

    open spec fn view(&self) -> AppErrorView {
        match self {
            AppError::NotFound(m) => AppErrorView::NotFound(m@),
            AppError::InternalServerError(m) => AppErrorView::InternalServerError(m@),
            AppError::UnProcessableEntity { field, message } => AppErrorView::UnProcessableEntity {
                field: field@,
                message: message@,
            },
            AppError::MissingEnvironmentVarible(m) => AppErrorView::MissingEnvironmentVarible(m@),
            AppError::ParsingError(m) => AppErrorView::ParsingError(m@),
            AppError::DatabaseError(m) => AppErrorView::DatabaseError(m@),
            AppError::Unauthorized(m) => AppErrorView::Unauthorized(m@),
        }
    }
}

impl AppErrorView {
    /// The one-line description of the error.
    pub open spec fn text(self) -> Seq<char> {
        match self {
            AppErrorView::NotFound(m) => "Resource not found: "@ + m,
            AppErrorView::InternalServerError(m) => "Internal Server Error: "@ + m,
            AppErrorView::UnProcessableEntity { field, message } =>
                "Invalid Input, cannot be processed: "@ + field + " - "@ + message,
            AppErrorView::MissingEnvironmentVarible(m) => "Environement Variable is missing: "@ + m,
            AppErrorView::ParsingError(m) => "Failed to Parse: "@ + m,
            AppErrorView::DatabaseError(m) => "Database Error: "@ + m,
            AppErrorView::Unauthorized(m) => "Unauthorized: "@ + m,
        }
    }

    /// The HTTP status the error is answered with when nothing more specific
    /// is known about the request.
    pub open spec fn status(self) -> int {
        match self {
            AppErrorView::NotFound(_) => 404,
            AppErrorView::Unauthorized(_) => 401,
            AppErrorView::UnProcessableEntity { .. } => 422,
            _ => 500,
        }
    }

    /// The message that goes with [`AppErrorView::status`].
    pub open spec fn answer(self) -> Seq<char> {
        match self {
            AppErrorView::NotFound(m) => m,
            AppErrorView::InternalServerError(m) => m,
            AppErrorView::UnProcessableEntity { field, message } => field + " - "@ + message,
            AppErrorView::MissingEnvironmentVarible(m) => m,
            AppErrorView::ParsingError(m) => m,
            AppErrorView::DatabaseError(m) => m,
            AppErrorView::Unauthorized(m) => m,
        }
    }
}

impl AppError {
    /// The one-line description of the error, kind first.
    pub fn to_string(&self) -> (r: String)
        ensures
            r@ == self@.text(),
    {
        match self {
            AppError::NotFound(m) => join2("Resource not found: ", m.as_str()),
            AppError::InternalServerError(m) => join2("Internal Server Error: ", m.as_str()),
            AppError::UnProcessableEntity { field, message } => {
                let head = join3("Invalid Input, cannot be processed: ", field.as_str(), " - ");
                join2(head.as_str(), message.as_str())
            },
            AppError::MissingEnvironmentVarible(m) => join2(
                "Environement Variable is missing: ",
                m.as_str(),
            ),
            AppError::ParsingError(m) => join2("Failed to Parse: ", m.as_str()),
            AppError::DatabaseError(m) => join2("Database Error: ", m.as_str()),
            AppError::Unauthorized(m) => join2("Unauthorized: ", m.as_str()),
        }
    }

    /// The HTTP status for this error: 404 for a missing resource, 401 for a
    /// refused caller, 422 for an input that cannot be processed, 500 for
    /// the rest.
    pub fn status_code(&self) -> (r: u16)
        ensures
            r == self@.status(),
    {
        match self {
            AppError::NotFound(_) => 404,
            AppError::Unauthorized(_) => 401,
            AppError::UnProcessableEntity { .. } => 422,
            _ => 500,
        }
    }

    /// The message sent with [`AppError::status_code`]: the error's own
    /// text, and for an input that cannot be processed the field and the
    /// message joined by `" - "`.
    pub fn response_message(&self) -> (r: String)
        ensures
            r@ == self@.answer(),
    {
        match self {
            AppError::UnProcessableEntity { field, message } => join3(
                field.as_str(),
                " - ",
                message.as_str(),
            ),
            AppError::NotFound(m) => m.clone(),
            AppError::InternalServerError(m) => m.clone(),
            AppError::MissingEnvironmentVarible(m) => m.clone(),
            AppError::ParsingError(m) => m.clone(),
            AppError::DatabaseError(m) => m.clone(),
            AppError::Unauthorized(m) => m.clone(),
        }
    }
}

/// A failure that is known by its message only, as a `ParsingError`.
pub fn or_parsing_error<T>(outcome: Result<T, String>) -> (r: Result<T, AppError>)
    ensures
        match outcome {
            Ok(value) => r == Ok::<T, AppError>(value),
            Err(why) => r is Err && r->Err_0@ == AppErrorView::ParsingError(why@),
        },
{
    match outcome {
        Ok(value) => Ok(value),
        Err(why) => Err(AppError::ParsingError(why)),
    }
}

/// A failure that is known by its message only, as an
/// `InternalServerError`.
pub fn or_internal_error<T>(outcome: Result<T, String>) -> (r: Result<T, AppError>)
    ensures
        match outcome {
            Ok(value) => r == Ok::<T, AppError>(value),
            Err(why) => r is Err && r->Err_0@ == AppErrorView::InternalServerError(why@),
        },
{
    match outcome {
        Ok(value) => Ok(value),
        Err(why) => Err(AppError::InternalServerError(why)),
    }
}

} // verus!
