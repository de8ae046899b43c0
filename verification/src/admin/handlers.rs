//! The answers to the requests about hospitals.

use crate::admin::models::{Hospital, HospitalWithAdminEmail};
use crate::errors::{AppError, AppErrorView};
use crate::outside::ids::{parse_uuid, uuid_reading};
use crate::reply::{
    error_reply, fail, fail_plainly, is_reply, plain_failure, ErrorReply, ErrorReplyView, Reply,
};
use crate::text::join2;
use vstd::prelude::*;

verus! {

/// A hospital that is not there is answered with 404 and the reason, every
/// other error with 500 and its text.
pub open spec fn hospital_failure(e: AppErrorView) -> ErrorReplyView {
    match e {
        AppErrorView::NotFound(why) => error_reply(404, why),
        _ => error_reply(500, e.text()),
    }
}

/// As [`hospital_failure`], and a refused caller is answered with 401 and
/// the reason.
pub open spec fn change_failure(e: AppErrorView) -> ErrorReplyView {
    match e {
        AppErrorView::Unauthorized(why) => error_reply(401, why),
        _ => hospital_failure(e),
    }
}

/// What reading a hospital's identifier came to: the identifier, or the
/// answer 400 with the reader's message.
pub fn hospital_id_or_refusal(read: Result<u128, String>) -> (r: Result<u128, ErrorReply>)
    ensures
        match read {
            Ok(id) => r == Ok::<u128, ErrorReply>(id),
            Err(why) => r is Err && r->Err_0@ == error_reply(400, "Invalid hospital_id: "@ + why@),
        },
{
    match read {
        Ok(id) => Ok(id),
        Err(why) => Err(fail(400, join2("Invalid hospital_id: ", why.as_str()))),
    }
}

/// The hospital that a path names: its identifier, or the answer 400 with
/// the reader's message for a text that is none.
pub fn hospital_id_param(hospital_id: &str) -> (r: Result<u128, ErrorReply>)
    ensures
        match uuid_reading(hospital_id@) {
            Ok(id) => r == Ok::<u128, ErrorReply>(id),
            Err(why) => r is Err && r->Err_0@ == error_reply(400, "Invalid hospital_id: "@ + why),
        },
{
    hospital_id_or_refusal(parse_uuid(hospital_id))
}

/// Answers the registration of a hospital: 200 with the hospital and its
/// administrator's address, and 500 with the error's text for every
/// failure.
pub fn create_hospital_and_admin_handler(outcome: Result<HospitalWithAdminEmail, AppError>) -> (r:
    Reply<HospitalWithAdminEmail>)
    ensures
        is_reply(r, outcome, 200, |e: AppErrorView| plain_failure(500, e)),
{
    match outcome {
        Ok(body) => Reply::Success { status: 200, body },
        Err(e) => Reply::Failure(fail_plainly(500, &e)),
    }
}

/// Answers the request for a hospital: 200 with the hospital, 404 where
/// there is none, 500 for every other failure.
pub fn get_hospital_info_handler(outcome: Result<Hospital, AppError>) -> (r: Reply<Hospital>)
    ensures
        is_reply(r, outcome, 200, |e: AppErrorView| hospital_failure(e)),
{
    match outcome {
        Ok(body) => Reply::Success { status: 200, body },
        Err(AppError::NotFound(why)) => Reply::Failure(fail(404, why)),
        Err(e) => Reply::Failure(fail_plainly(500, &e)),
    }
}

/// Answers a change of a hospital's details: 200 with the hospital, 401
/// for a refused caller, 404 where there is no such hospital, 500 for
/// every other failure.
pub fn update_hospital_info_handler(outcome: Result<Hospital, AppError>) -> (r: Reply<Hospital>)
    ensures
        is_reply(r, outcome, 200, |e: AppErrorView| change_failure(e)),
{
    match outcome {
        Ok(body) => Reply::Success { status: 200, body },
        Err(AppError::Unauthorized(why)) => Reply::Failure(fail(401, why)),
        Err(AppError::NotFound(why)) => Reply::Failure(fail(404, why)),
        Err(e) => Reply::Failure(fail_plainly(500, &e)),
    }
}

} // verus!
