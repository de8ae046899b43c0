//! The answers to the requests about appointments.

use crate::appointments::models::{Appointment, AppointmentList};
use crate::errors::{AppError, AppErrorView};
use crate::outside::ids::{parse_uuid, uuid_reading};
use crate::reply::{
    error_reply, fail, fail_input, fail_lookup, fail_plainly, input_failure, is_reply,
    lookup_failure, plain_failure, ErrorReply, ErrorReplyView, Reply,
};
use vstd::prelude::*;

verus! {

/// The identifier in a query parameter that may be absent, and for a text
/// that is none the reader's message.
pub open spec fn filter_read(text: Option<String>) -> Result<Option<u128>, Seq<char>> {
    match text {
        None => Ok(None),
        Some(text) => match uuid_reading(text@) {
            Ok(id) => Ok(Some(id)),
            Err(why) => Err(why),
        },
    }
}

/// The answer 400 that holds the message under the key.
pub open spec fn bad_filter(key: Seq<char>, why: Seq<char>) -> ErrorReplyView {
    ErrorReplyView { status: 400, key, message: why }
}

/// What reading a filter came to: the identifier, or the answer 400 that
/// holds the reader's message under the key.
pub fn filter_or_refusal(read: Result<u128, String>, key: &str) -> (r: Result<
    Option<u128>,
    ErrorReply,
>)
    ensures
        match read {
            Ok(id) => r == Ok::<Option<u128>, ErrorReply>(Some(id)),
            Err(why) => r is Err && r->Err_0@ == bad_filter(key@, why@),
        },
{
    match read {
        Ok(id) => Ok(Some(id)),
        Err(why) => Err(ErrorReply { status: 400, key: key.to_owned(), message: why }),
    }
}

/// Reads a query parameter that holds an identifier.
fn read_filter(text: &Option<String>, key: &str) -> (r: Result<Option<u128>, ErrorReply>)
    ensures
        match filter_read(*text) {
            Ok(id) => r == Ok::<Option<u128>, ErrorReply>(id),
            Err(why) => r is Err && r->Err_0@ == bad_filter(key@, why),
        },
{
    match text {
        None => Ok(None),
        Some(text) => filter_or_refusal(parse_uuid(text.as_str()), key),
    }
}

/// The filters of a listing: the patient and the practitioner that the
/// query parameters `patient_id` and `doctor_id` name, each if given.
///
/// A parameter that is no identifier is answered with 400 and the reader's
/// message under the key `Invalid patient_id` or `Invalid doctor_id`; the
/// patient is looked at first.
pub fn appointment_filters(patient_id: &Option<String>, doctor_id: &Option<String>) -> (r: Result<
    (Option<u128>, Option<u128>),
    ErrorReply,
>)
    ensures
        match filter_read(*patient_id) {
            Err(why) => r is Err && r->Err_0@ == bad_filter("Invalid patient_id"@, why),
            Ok(patient) => match filter_read(*doctor_id) {
                Err(why) => r is Err && r->Err_0@ == bad_filter("Invalid doctor_id"@, why),
                Ok(doctor) => r == Ok::<(Option<u128>, Option<u128>), ErrorReply>(
                    (patient, doctor),
                ),
            },
        },
{
    let patient = match read_filter(patient_id, "Invalid patient_id") {
        Ok(patient) => patient,
        Err(reply) => {
            return Err(reply);
        },
    };
    match read_filter(doctor_id, "Invalid doctor_id") {
        Ok(doctor) => Ok((patient, doctor)),
        Err(reply) => Err(reply),
    }
}

/// The status that a query names, or the answer 400 where the parameter
/// is missing.
pub fn status_param(status: Option<String>) -> (r: Result<String, ErrorReply>)
    ensures
        match status {
            Some(status) => r == Ok::<String, ErrorReply>(status),
            None => r is Err && r->Err_0@ == error_reply(400, "Missing status parameter"@),
        },
{
    match status {
        Some(status) => Ok(status),
        None => Err(fail(400, "Missing status parameter".to_owned())),
    }
}

/// Answers a listing of appointments: 200 with the list, and 500 with the
/// error's text for every failure.
pub fn get_appointments_handler(outcome: Result<AppointmentList, AppError>) -> (r: Reply<
    AppointmentList,
>)
    ensures
        is_reply(r, outcome, 200, |e: AppErrorView| plain_failure(500, e)),
{
    match outcome {
        Ok(body) => Reply::Success { status: 200, body },
        Err(e) => Reply::Failure(fail_plainly(500, &e)),
    }
}

/// Answers a booking: 201 with the appointment; 404 for a failure of the
/// store, 400 for an input that does not parse, 422 for a day or a time
/// that cannot be processed, 500 for every other failure.
pub fn create_appointment_handler(outcome: Result<Appointment, AppError>) -> (r: Reply<Appointment>)
    ensures
        is_reply(
            r,
            outcome,
            201,
            |e: AppErrorView| input_failure("Appointment not found"@, e),
        ),
{
    match outcome {
        Ok(body) => Reply::Success { status: 201, body },
        Err(e) => Reply::Failure(fail_input("Appointment not found", e)),
    }
}

/// Answers the request for an appointment: 200 with the appointment; 404
/// for a failure of the store, 400 for an identifier that does not parse,
/// 500 for every other failure.
pub fn get_appointment_by_id_handler(outcome: Result<Appointment, AppError>) -> (r: Reply<
    Appointment,
>)
    ensures
        is_reply(
            r,
            outcome,
            200,
            |e: AppErrorView| lookup_failure("Appointment not found"@, e),
        ),
{
    match outcome {
        Ok(body) => Reply::Success { status: 200, body },
        Err(e) => Reply::Failure(fail_lookup("Appointment not found", e)),
    }
}

/// Answers a change of an appointment's status: 200 with the appointment;
/// 404 for a failure of the store, 400 for a status or an identifier that
/// does not parse, 422 for a change that is no transition, 500 for every
/// other failure.
pub fn update_appointment_status_handler(outcome: Result<Appointment, AppError>) -> (r: Reply<
    Appointment,
>)
    ensures
        is_reply(
            r,
            outcome,
            200,
            |e: AppErrorView| input_failure("Appointment not found"@, e),
        ),
{
    match outcome {
        Ok(body) => Reply::Success { status: 200, body },
        Err(e) => Reply::Failure(fail_input("Appointment not found", e)),
    }
}

} // verus!
