//! The answers to the requests about practitioners.

use crate::doctor::models::{Doctor, DoctorList};
use crate::errors::{AppError, AppErrorView};
use crate::reply::{
    error_reply, fail, fail_plainly, is_reply, plain_failure, ErrorReply, ErrorReplyView, Reply,
};
use vstd::prelude::*;

verus! {

/// A practitioner that the store does not give is answered with 404, an
/// identifier that does not parse with 400, every other error with 500 and
/// its text.
pub open spec fn doctor_failure(e: AppErrorView) -> ErrorReplyView {
    match e {
        AppErrorView::DatabaseError(_) => error_reply(404, "Doctor not found"@),
        AppErrorView::ParsingError(_) => error_reply(400, "Invalid doctor ID format"@),
        _ => error_reply(500, e.text()),
    }
}

/// The day that a query names, or the answer 400 where the parameter is
/// missing.
pub fn day_param(day: Option<String>) -> (r: Result<String, ErrorReply>)
    ensures
        match day {
            Some(day) => r == Ok::<String, ErrorReply>(day),
            None => r is Err && r->Err_0@ == error_reply(400, "Missing 'day' query parameter"@),
        },
{
    match day {
        Some(day) => Ok(day),
        None => Err(fail(400, "Missing 'day' query parameter".to_owned())),
    }
}

/// Answers a listing of practitioners: 200 with the list, and 500 with the
/// error's text for every failure.
pub fn get_all_doctors_handler(outcome: Result<DoctorList, AppError>) -> (r: Reply<DoctorList>)
    ensures
        is_reply(r, outcome, 200, |e: AppErrorView| plain_failure(500, e)),
{
    match outcome {
        Ok(body) => Reply::Success { status: 200, body },
        Err(e) => Reply::Failure(fail_plainly(500, &e)),
    }
}

/// Answers the request for a practitioner: 200 with the practitioner, 404
/// for a failure of the store, 400 for an identifier that does not parse,
/// 500 for every other failure.
pub fn get_doctor_by_id_handler(outcome: Result<Doctor, AppError>) -> (r: Reply<Doctor>)
    ensures
        is_reply(r, outcome, 200, |e: AppErrorView| doctor_failure(e)),
{
    match outcome {
        Ok(body) => Reply::Success { status: 200, body },
        Err(AppError::DatabaseError(_)) => Reply::Failure(fail(404, "Doctor not found".to_owned())),
        Err(AppError::ParsingError(_)) => Reply::Failure(
            fail(400, "Invalid doctor ID format".to_owned()),
        ),
        Err(e) => Reply::Failure(fail_plainly(500, &e)),
    }
}

/// Answers the registration of a practitioner: 201 with the practitioner,
/// and 500 with the error's text for every failure.
pub fn create_doctor_handler(outcome: Result<Doctor, AppError>) -> (r: Reply<Doctor>)
    ensures
        is_reply(r, outcome, 201, |e: AppErrorView| plain_failure(500, e)),
{
    match outcome {
        Ok(body) => Reply::Success { status: 201, body },
        Err(e) => Reply::Failure(fail_plainly(500, &e)),
    }
}

/// Answers the question who is available on a day: 200 with the list, and
/// 500 with the error's text for every failure, a day that is no day name
/// too.
pub fn get_available_doctors_handler(outcome: Result<DoctorList, AppError>) -> (r: Reply<
    DoctorList,
>)
    ensures
        is_reply(r, outcome, 200, |e: AppErrorView| plain_failure(500, e)),
{
    match outcome {
        Ok(body) => Reply::Success { status: 200, body },
        Err(e) => Reply::Failure(fail_plainly(500, &e)),
    }
}

} // verus!
