//! Bills and the messages of their payment.

use crate::outside::ids::random_uuid;
use crate::utils::{create_random_string, is_alphanumeric};
use vstd::prelude::*;

verus! {

/// The state of a bill.
#[derive(Clone, Copy, Debug, PartialEq, Eq, Structural)]
pub enum BillStatus {
    Pending,
    Paid,
    Cancelled,
}

/// A bill for an appointment.
#[derive(Debug)]
pub struct Bill {
    pub id: u128,
    /// The reference under which the bill is paid: ten letters and digits.
    pub reference: String,
    pub appointment_id: u128,
    /// The amount in the currency's smallest unit, kobo for naira.
    pub amount: u64,
    pub currency: String,
    pub status: BillStatus,
}

/// The request to bill an appointment. Without an amount the bill is for
/// the appointment's price, without a currency it is in naira.
pub struct CreateBillRequest {
    pub appointment_id: String,
    pub amount: Option<u64>,
    pub currency: Option<String>,
}

/// The request to pay a bill.
pub struct PayBillRequest {
    pub bill_id: String,
    pub email: String,
}

/// What Paystack is asked to initialize.
pub struct PayStackRequest {
    pub email: String,
    /// The amount in kobo.
    pub amount: u64,
    pub reference: String,
    pub callback_url: String,
}

/// Where the payer authorizes the payment.
pub struct AuthorizationResponse {
    pub authorization_url: String,
    pub reference: String,
}

/// The currency of a bill: the one asked for, else naira.
pub open spec fn currency_or_naira(currency: Option<String>) -> Seq<char> {
    match currency {
        Some(currency) => currency@,
        None => "NGN"@,
    }
}

impl Bill {
    /// A pending bill for the appointment, with a fresh identifier and a
    /// reference of ten random letters and digits. Without a currency the
    /// bill is in `NGN`.
    pub fn new(appointment_id: u128, amount: u64, currency: Option<String>) -> (r: Bill)
        ensures
            r.appointment_id == appointment_id,
            r.amount == amount,
            r.currency@ == currency_or_naira(currency),
            r.status == BillStatus::Pending,
            r.reference@.len() == 10,
            forall|i: int| 0 <= i < 10 ==> is_alphanumeric(#[trigger] r.reference@[i]),
    {
        let currency = match currency {
            Some(currency) => currency,
            None => "NGN".to_owned(),
        };
        Bill {
            id: random_uuid(),
            reference: create_random_string(10),
            appointment_id,
            amount,
            currency,
            status: BillStatus::Pending,
        }
    }
}

} // verus!
