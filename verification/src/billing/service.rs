//! Issuing a bill and paying it through Paystack.

use crate::appointments::models::Appointment;
use crate::billing::models::{
    currency_or_naira, AuthorizationResponse, Bill, BillStatus, CreateBillRequest, PayBillRequest,
    PayStackRequest,
};
use crate::config::{config_read, Environment};
use crate::errors::{AppError, AppErrorView};
use crate::text::join2;
use crate::utils::{get_paystack_config, id_read, is_alphanumeric, parse_id};
use vstd::prelude::*;

verus! {

/// The identifier of the appointment that a bill is asked for, and
/// `ParsingError` where the request's text is none.
pub fn billed_appointment(payload: &CreateBillRequest) -> (r: Result<u128, AppError>)
    ensures
        match r {
            Ok(id) => id_read(payload.appointment_id@) == Ok::<u128, AppErrorView>(id),
            Err(e) => id_read(payload.appointment_id@) == Err::<u128, AppErrorView>(e@),
        },
{
    parse_id(payload.appointment_id.as_str())
}

/// The amount of a bill: the one asked for, else the appointment's price.
pub open spec fn billed_amount(asked: Option<u64>, price: u64) -> u64 {
    match asked {
        Some(amount) => amount,
        None => price,
    }
}

/// Issues the bill for the appointment with the identifier `app_id`, where
/// `found` is what the appointment store gave for it.
///
/// The bill is pending, for the amount asked for or else the appointment's
/// price, in the currency asked for or else naira. Where the store gave no
/// appointment the failure is a `DatabaseError` that quotes the store's.
pub fn issue_bill(app_id: u128, payload: CreateBillRequest, found: Result<Appointment, AppError>) -> (r:
    Result<Bill, AppError>)
    ensures
        match found {
            Ok(appointment) => r is Ok && {
                let bill = r->Ok_0;
                &&& bill.appointment_id == app_id
                &&& bill.amount == billed_amount(payload.amount, appointment.price)
                &&& bill.currency@ == currency_or_naira(payload.currency)
                &&& bill.status == BillStatus::Pending
                &&& bill.reference@.len() == 10
                &&& forall|i: int| 0 <= i < 10 ==> is_alphanumeric(#[trigger] bill.reference@[i])
            },
            Err(e) => r is Err && r->Err_0@ == AppErrorView::DatabaseError(
                "Appointment not found: "@ + e@.text(),
            ),
        },
{
    match found {
        Ok(appointment) => {
            let amount = match payload.amount {
                Some(amount) => amount,
                None => appointment.price,
            };
            Ok(Bill::new(app_id, amount, payload.currency))
        },
        Err(e) => {
            let why = e.to_string();
            Err(AppError::DatabaseError(join2("Appointment not found: ", why.as_str())))
        },
    }
}

/// The identifier of the bill to pay, and `ParsingError` where the
/// request's text is none.
pub fn get_bill_by_id(bill_id: &str) -> (r: Result<u128, AppError>)
    ensures
        match r {
            Ok(id) => id_read(bill_id@) == Ok::<u128, AppErrorView>(id),
            Err(e) => id_read(bill_id@) == Err::<u128, AppErrorView>(e@),
        },
{
    parse_id(bill_id)
}

/// The call that initializes a payment at Paystack.
pub struct PaymentCall {
    /// The address to post to.
    pub url: String,
    /// The value of the `Authorization` header.
    pub authorization: String,
    pub request: PayStackRequest,
}

/// Whether `r` is the call for paying `bill`, or the reason why there is
/// none: the error of the configuration, else `DatabaseError` for a bill
/// that is paid already.
pub open spec fn is_payment_call(
    r: Result<PaymentCall, AppError>,
    bill: Bill,
    email: String,
    env: Environment,
) -> bool {
    match config_read(env) {
        Err(e) => r is Err && r->Err_0@ == e,
        Ok(config) => if bill.status == BillStatus::Paid {
            r is Err && r->Err_0@ == AppErrorView::DatabaseError("Bill has already been paid"@)
        } else {
            r is Ok && {
                let call = r->Ok_0;
                &&& call.url@ == config.paystack_url + "/transaction/initialize"@
                &&& call.authorization@ == "Bearer "@ + config.paystack_secret_key
                &&& call.request.email == email
                &&& call.request.amount == bill.amount
                &&& call.request.reference@ == bill.reference@
                &&& call.request.callback_url@ == "https://yourapp.com/payment/callback"@
            }
        },
    }
}

/// Prepares the payment of a bill: the call to make at Paystack, for the
/// bill's amount under the bill's reference.
///
/// Fails with the error of the configuration where the environment gives
/// none, and with `DatabaseError` where the bill is paid already.
pub fn pay_bill(bill: &Bill, payload: PayBillRequest, env: &Environment) -> (r: Result<
    PaymentCall,
    AppError,
>)
    ensures
        is_payment_call(r, *bill, payload.email, *env),
{
    let (paystack_url, paystack_secret_key) = match get_paystack_config(env) {
        Ok(pair) => pair,
        Err(e) => {
            return Err(e);
        },
    };
    match bill.status {
        BillStatus::Paid => {
            return Err(AppError::DatabaseError("Bill has already been paid".to_owned()));
        },
        _ => {},
    }
    let paystack_request = PayStackRequest {
        email: payload.email,
        amount: bill.amount,
        reference: bill.reference.clone(),
        callback_url: "https://yourapp.com/payment/callback".to_owned(),
    };
    Ok(
        PaymentCall {
            url: join2(paystack_url.as_str(), "/transaction/initialize"),
            authorization: join2("Bearer ", paystack_secret_key.as_str()),
            request: paystack_request,
        },
    )
}

/// What came of the call to Paystack.
pub enum PaystackReply {
    /// The request could not be sent; the text says why.
    Unsent(String),
    /// Paystack accepted the request, but its answer is no JSON; the text
    /// says why.
    Unreadable(String),
    /// Paystack accepted the request; its answer holds this text at
    /// `data.authorization_url`, if any.
    Accepted(Option<String>),
    /// Paystack refused the request, with this body.
    Refused(String),
}

/// Whether `r` is what the reply comes to for the bill with this
/// reference.
pub open spec fn is_payment_outcome(
    r: Result<AuthorizationResponse, AppError>,
    reply: PaystackReply,
    reference: Seq<char>,
) -> bool {
    match reply {
        PaystackReply::Unsent(why) => r is Err && r->Err_0@ == AppErrorView::InternalServerError(
            "Failed to send request to Paystack: "@ + why@,
        ),
        PaystackReply::Unreadable(why) => r is Err && r->Err_0@ == AppErrorView::ParsingError(
            "Failed to parse Paystack response: "@ + why@,
        ),
        PaystackReply::Accepted(None) => r is Err && r->Err_0@ == AppErrorView::ParsingError(
            "Missing 'authorization_url' in Paystack response"@,
        ),
        PaystackReply::Accepted(Some(url)) => r is Ok && r->Ok_0.authorization_url == url
            && r->Ok_0.reference@ == reference,
        PaystackReply::Refused(body) => r is Err && r->Err_0@ == AppErrorView::InternalServerError(
            "Paystack API returned an error: "@ + body@,
        ),
    }
}

/// Reads Paystack's reply: the address at which the payer authorizes the
/// payment, with the bill's reference, or the error that the reply
/// amounts to.
pub fn payment_outcome(reply: PaystackReply, reference: &str) -> (r: Result<
    AuthorizationResponse,
    AppError,
>)
    ensures
        is_payment_outcome(r, reply, reference@),
{
    match reply {
        PaystackReply::Unsent(why) => Err(
            AppError::InternalServerError(
                join2("Failed to send request to Paystack: ", why.as_str()),
            ),
        ),
        PaystackReply::Unreadable(why) => Err(
            AppError::ParsingError(join2("Failed to parse Paystack response: ", why.as_str())),
        ),
        PaystackReply::Accepted(None) => Err(
            AppError::ParsingError("Missing 'authorization_url' in Paystack response".to_owned()),
        ),
        PaystackReply::Accepted(Some(authorization_url)) => Ok(
            AuthorizationResponse { authorization_url, reference: reference.to_owned() },
        ),
        PaystackReply::Refused(body) => Err(
            AppError::InternalServerError(join2("Paystack API returned an error: ", body.as_str())),
        ),
    }
}

} // verus!
