//! The answers to the requests about patients.

use crate::errors::{AppError, AppErrorView};
use crate::patient::models::{Patient, PatientList};
use crate::reply::{fail_plainly, is_reply, plain_failure, Reply};
use vstd::prelude::*;

verus! {

/// Answers a listing of patients: 200 with the list, and 500 with the
/// error's text for every failure.
pub fn get_patients_handler(outcome: Result<PatientList, AppError>) -> (r: Reply<PatientList>)
    ensures
        is_reply(r, outcome, 200, |e: AppErrorView| plain_failure(500, e)),
{
    match outcome {
        Ok(body) => Reply::Success { status: 200, body },
        Err(e) => Reply::Failure(fail_plainly(500, &e)),
    }
}

/// Answers the registration of a patient: 201 with the patient, and 500
/// with the error's text for every failure.
pub fn create_patient_handler(outcome: Result<Patient, AppError>) -> (r: Reply<Patient>)
    ensures
        is_reply(r, outcome, 201, |e: AppErrorView| plain_failure(500, e)),
{
    match outcome {
        Ok(body) => Reply::Success { status: 201, body },
        Err(e) => Reply::Failure(fail_plainly(500, &e)),
    }
}

} // verus!
