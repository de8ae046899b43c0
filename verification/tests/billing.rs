use hospital_portal::appointments::models::{Appointment, AppointmentStatus};
use hospital_portal::billing::models::{
    Bill, BillStatus, CreateBillRequest, PayBillRequest,
};
use hospital_portal::billing::service::{
    billed_appointment, get_bill_by_id, issue_bill, pay_bill, payment_outcome, PaystackReply,
};
use hospital_portal::config::Environment;
use hospital_portal::errors::AppError;
use hospital_portal::utils::Instant;

fn environment() -> Environment {
    Environment {
        database_url: Some("postgres://localhost/hospital".to_string()),
        server_port: Some("8080".to_string()),
        paystack_payment_url: Some("https://api.paystack.co".to_string()),
        paystack_secret_key: Some("sk_test".to_string()),
        secret_key: Some("secret".to_string()),
    }
}

fn appointment(price: u64) -> Appointment {
    Appointment {
        id: 1,
        patient_id: 2,
        doctor_id: 3,
        purpose: "Visit".to_string(),
        time: Instant { seconds: 1_800_000_000, nanos: 0 },
        status: AppointmentStatus::Scheduled,
        price,
    }
}

fn bill(status: BillStatus) -> Bill {
    Bill {
        id: 9,
        reference: "abc123XYZ0".to_string(),
        appointment_id: 1,
        amount: 1_000_000,
        currency: "NGN".to_string(),
        status,
    }
}

fn request(amount: Option<u64>, currency: Option<&str>) -> CreateBillRequest {
    CreateBillRequest {
        appointment_id: "550e8400-e29b-41d4-a716-446655440000".to_string(),
        amount,
        currency: currency.map(|c| c.to_string()),
    }
}

fn payer() -> PayBillRequest {
    PayBillRequest { bill_id: "9".to_string(), email: "ada@example.org".to_string() }
}

#[test]
fn a_new_bill_is_pending_in_naira() {
    let made = Bill::new(5, 1200, None);
    assert_eq!((made.appointment_id, made.amount, made.currency.as_str()), (5, 1200, "NGN"));
    assert_eq!(made.status, BillStatus::Pending);
    assert_eq!(made.reference.len(), 10);
    assert!(made.reference.chars().all(|c| c.is_ascii_alphanumeric()));
    let other = Bill::new(5, 1200, Some("USD".to_string()));
    assert_eq!(other.currency, "USD");
    assert_ne!(made.id, other.id);
    assert_ne!(made.reference, other.reference);
}

#[test]
fn a_bill_is_for_the_appointment_named() {
    assert_eq!(
        billed_appointment(&request(None, None)).unwrap(),
        0x550e8400_e29b_41d4_a716_446655440000
    );
    let mut bad = request(None, None);
    bad.appointment_id = "12".to_string();
    assert!(matches!(billed_appointment(&bad), Err(AppError::ParsingError(_))));
    assert!(matches!(get_bill_by_id("12"), Err(AppError::ParsingError(_))));
    assert_eq!(get_bill_by_id("00000000-0000-0000-0000-000000000009").unwrap(), 9);
}

#[test]
fn a_bill_without_an_amount_is_for_the_price() {
    let made = issue_bill(77, request(None, None), Ok(appointment(1_000_000))).unwrap();
    assert_eq!((made.appointment_id, made.amount, made.currency.as_str()), (77, 1_000_000, "NGN"));
    assert_eq!(made.status, BillStatus::Pending);
}

#[test]
fn a_bill_with_an_amount_is_for_that_amount() {
    let made = issue_bill(77, request(Some(5), Some("GHS")), Ok(appointment(1_000_000))).unwrap();
    assert_eq!((made.amount, made.currency.as_str()), (5, "GHS"));
}

#[test]
fn a_bill_for_a_missing_appointment_is_a_database_error() {
    let found = Err(AppError::DatabaseError("no rows".to_string()));
    match issue_bill(77, request(None, None), found) {
        Err(AppError::DatabaseError(why)) => {
            assert_eq!(why, "Appointment not found: Database Error: no rows")
        }
        _ => panic!("a missing appointment was not reported"),
    }
}

#[test]
fn paying_a_bill_calls_paystack_for_its_amount() {
    let call = pay_bill(&bill(BillStatus::Pending), payer(), &environment()).unwrap();
    assert_eq!(call.url, "https://api.paystack.co/transaction/initialize");
    assert_eq!(call.authorization, "Bearer sk_test");
    assert_eq!(call.request.email, "ada@example.org");
    assert_eq!(call.request.amount, 1_000_000);
    assert_eq!(call.request.reference, "abc123XYZ0");
    assert_eq!(call.request.callback_url, "https://yourapp.com/payment/callback");
    assert!(pay_bill(&bill(BillStatus::Cancelled), payer(), &environment()).is_ok());
}

#[test]
fn a_paid_bill_is_not_paid_again() {
    match pay_bill(&bill(BillStatus::Paid), payer(), &environment()) {
        Err(AppError::DatabaseError(why)) => assert_eq!(why, "Bill has already been paid"),
        _ => panic!("a paid bill was not refused"),
    }
}

#[test]
fn paying_needs_the_configuration_first() {
    let mut env = environment();
    env.paystack_payment_url = None;
    match pay_bill(&bill(BillStatus::Paid), payer(), &env) {
        Err(AppError::MissingEnvironmentVarible(key)) => assert_eq!(key, "PAYSTACK_PAYMENT_URL"),
        _ => panic!("a missing variable was not reported"),
    }
}

#[test]
fn an_accepted_payment_gives_the_address_to_authorize_it() {
    let reply = PaystackReply::Accepted(Some("https://checkout.paystack.com/x".to_string()));
    let response = payment_outcome(reply, "abc123XYZ0").unwrap();
    assert_eq!(response.authorization_url, "https://checkout.paystack.com/x");
    assert_eq!(response.reference, "abc123XYZ0");
}

#[test]
fn every_other_reply_is_an_error() {
    match payment_outcome(PaystackReply::Accepted(None), "r") {
        Err(AppError::ParsingError(why)) => {
            assert_eq!(why, "Missing 'authorization_url' in Paystack response")
        }
        _ => panic!("a reply without an address was not reported"),
    }
    match payment_outcome(PaystackReply::Unreadable("eof".to_string()), "r") {
        Err(AppError::ParsingError(why)) => {
            assert_eq!(why, "Failed to parse Paystack response: eof")
        }
        _ => panic!("an unreadable reply was not reported"),
    }
    match payment_outcome(PaystackReply::Unsent("timeout".to_string()), "r") {
        Err(AppError::InternalServerError(why)) => {
            assert_eq!(why, "Failed to send request to Paystack: timeout")
        }
        _ => panic!("an unsent request was not reported"),
    }
    match payment_outcome(PaystackReply::Refused("denied".to_string()), "r") {
        Err(AppError::InternalServerError(why)) => {
            assert_eq!(why, "Paystack API returned an error: denied")
        }
        _ => panic!("a refused request was not reported"),
    }
}
