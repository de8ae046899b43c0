//! The answers to the login and to the question who the caller is.

use crate::admin::models::User;
use crate::auth::models::LoginResponse;
use crate::errors::{AppError, AppErrorView};
use crate::reply::{error_reply, fail, fail_plainly, is_reply, plain_failure, ErrorReplyView, Reply};
use vstd::prelude::*;

verus! {

/// A refused caller is answered with 401 and the reason, every other error
/// with 500 and its text.
pub open spec fn caller_failure(e: AppErrorView) -> ErrorReplyView {
    match e {
        AppErrorView::Unauthorized(why) => error_reply(401, why),
        _ => error_reply(500, e.text()),
    }
}

/// Answers a login: 200 with the token, and 401 with the error's text for
/// every failure.
pub fn login_handler(outcome: Result<LoginResponse, AppError>) -> (r: Reply<LoginResponse>)
    ensures
        is_reply(r, outcome, 200, |e: AppErrorView| plain_failure(401, e)),
{
    match outcome {
        Ok(body) => Reply::Success { status: 200, body },
        Err(e) => Reply::Failure(fail_plainly(401, &e)),
    }
}

/// Answers the question who the caller is: 200 with the user, 401 for a
/// refused caller, 500 for every other failure.
pub fn get_user_info_handler(outcome: Result<User, AppError>) -> (r: Reply<User>)
    ensures
        is_reply(r, outcome, 200, |e: AppErrorView| caller_failure(e)),
{
    match outcome {
        Ok(body) => Reply::Success { status: 200, body },
        Err(AppError::Unauthorized(why)) => Reply::Failure(fail(401, why)),
        Err(e) => Reply::Failure(fail_plainly(500, &e)),
    }
}

} // verus!
