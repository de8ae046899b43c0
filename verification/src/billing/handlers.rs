//! The answers to the requests about bills.

use crate::billing::models::{AuthorizationResponse, Bill};
use crate::errors::{AppError, AppErrorView};
use crate::reply::{fail_input, input_failure, is_reply, Reply};
use vstd::prelude::*;

verus! {

/// Answers the issue of a bill: 201 with the bill; 404 for a failure of
/// the store, 400 for an identifier that does not parse, 422 for an input
/// that cannot be processed, 500 for every other failure.
pub fn issue_bill_handler(outcome: Result<Bill, AppError>) -> (r: Reply<Bill>)
    ensures
        is_reply(
            r,
            outcome,
            201,
            |e: AppErrorView| input_failure("Appointment not found"@, e),
        ),
{
    match outcome {
        Ok(body) => Reply::Success { status: 201, body },
        Err(e) => Reply::Failure(fail_input("Appointment not found", e)),
    }
}

/// Answers the payment of a bill: 200 with the address at which the payer
/// authorizes it; 404 for a failure of the store and for a bill that is
/// paid already, 400 for an input that does not parse, 422 for an input
/// that cannot be processed, 500 for every other failure.
pub fn pay_bill_handler(outcome: Result<AuthorizationResponse, AppError>) -> (r: Reply<
    AuthorizationResponse,
>)
    ensures
        is_reply(r, outcome, 200, |e: AppErrorView| input_failure("Bill not found"@, e)),
{
    match outcome {
        Ok(body) => Reply::Success { status: 200, body },
        Err(e) => Reply::Failure(fail_input("Bill not found", e)),
    }
}

} // verus!
