use hospital_portal::admin::handlers::{
    create_hospital_and_admin_handler, get_hospital_info_handler, hospital_id_or_refusal,
    hospital_id_param, update_hospital_info_handler,
};
use hospital_portal::admin::models::Hospital;
use hospital_portal::appointments::handlers::{
    appointment_filters, create_appointment_handler, filter_or_refusal,
    get_appointment_by_id_handler, get_appointments_handler, status_param,
    update_appointment_status_handler,
};
use hospital_portal::appointments::models::{Appointment, AppointmentList, AppointmentStatus};
use hospital_portal::auth::handlers::{get_user_info_handler, login_handler};
use hospital_portal::auth::models::LoginResponse;
use hospital_portal::billing::handlers::{issue_bill_handler, pay_bill_handler};
use hospital_portal::doctor::handlers::{
    create_doctor_handler, day_param, get_all_doctors_handler, get_available_doctors_handler,
    get_doctor_by_id_handler,
};
use hospital_portal::doctor::models::DoctorList;
use hospital_portal::errors::AppError;
use hospital_portal::patient::handler::{create_patient_handler, get_patients_handler};
use hospital_portal::patient::models::PatientList;
use hospital_portal::reply::{fail, Reply};
use hospital_portal::utils::Instant;

fn errors() -> Vec<AppError> {
    vec![
        AppError::NotFound("a".to_string()),
        AppError::InternalServerError("b".to_string()),
        AppError::UnProcessableEntity { field: "day".to_string(), message: "c".to_string() },
        AppError::MissingEnvironmentVarible("d".to_string()),
        AppError::ParsingError("e".to_string()),
        AppError::DatabaseError("f".to_string()),
        AppError::Unauthorized("g".to_string()),
    ]
}

fn texts() -> Vec<String> {
    errors().iter().map(|e| e.to_string()).collect()
}

fn failure<T>(reply: Reply<T>) -> (u16, String, String) {
    match reply {
        Reply::Failure(f) => (f.status, f.key, f.message),
        Reply::Success { .. } => panic!("an error was answered as a success"),
    }
}

fn status<T>(reply: Reply<T>) -> u16 {
    match reply {
        Reply::Success { status, .. } => status,
        Reply::Failure(f) => f.status,
    }
}

fn answers<T>(handler: fn(Result<T, AppError>) -> Reply<T>) -> Vec<(u16, String)> {
    errors()
        .into_iter()
        .map(|e| {
            let (status, key, message) = failure(handler(Err(e)));
            assert_eq!(key, "error");
            (status, message)
        })
        .collect()
}

fn plain(status: u16) -> Vec<(u16, String)> {
    texts().into_iter().map(|text| (status, text)).collect()
}

fn with(base: Vec<(u16, String)>, changes: &[(usize, u16, &str)]) -> Vec<(u16, String)> {
    let mut out = base;
    for (at, status, message) in changes {
        out[*at] = (*status, message.to_string());
    }
    out
}

fn appointment() -> Appointment {
    Appointment {
        id: 1,
        patient_id: 2,
        doctor_id: 3,
        purpose: "Visit".to_string(),
        time: Instant { seconds: 0, nanos: 0 },
        status: AppointmentStatus::Scheduled,
        price: 1,
    }
}

#[test]
fn a_failure_is_a_status_and_a_message_under_error() {
    let made = fail(418, "teapot".to_string());
    assert_eq!((made.status, made.key.as_str(), made.message.as_str()), (418, "error", "teapot"));
}

#[test]
fn a_login_is_answered_with_200_or_401() {
    let ok = login_handler(Ok(LoginResponse { token: "t".to_string() }));
    match ok {
        Reply::Success { status, body } => assert_eq!((status, body.token.as_str()), (200, "t")),
        Reply::Failure(_) => panic!("a login was answered as a failure"),
    }
    assert_eq!(answers(login_handler), plain(401));
}

#[test]
fn the_caller_is_answered_with_401_when_refused() {
    assert_eq!(answers(get_user_info_handler), with(plain(500), &[(6, 401, "g")]));
}

#[test]
fn hospitals_are_answered_with_404_when_missing() {
    assert_eq!(answers(create_hospital_and_admin_handler), plain(500));
    assert_eq!(answers(get_hospital_info_handler), with(plain(500), &[(0, 404, "a")]));
    assert_eq!(
        answers(update_hospital_info_handler),
        with(plain(500), &[(0, 404, "a"), (6, 401, "g")])
    );
    let hospital = Hospital {
        id: 1,
        name: "General".to_string(),
        address: String::new(),
        phone: String::new(),
        created_at: Instant { seconds: 0, nanos: 0 },
    };
    assert_eq!(status(get_hospital_info_handler(Ok(hospital))), 200);
}

#[test]
fn a_hospital_is_named_by_its_identifier() {
    assert_eq!(hospital_id_param("00000000-0000-0000-0000-000000000005").unwrap(), 5);
    let refused = hospital_id_param("five").unwrap_err();
    let why = uuid::Uuid::parse_str("five").unwrap_err().to_string();
    assert_eq!(
        (refused.status, refused.key, refused.message),
        (400, "error".to_string(), format!("Invalid hospital_id: {why}"))
    );
}

#[test]
fn an_identifier_that_was_not_read_is_answered_with_400() {
    assert_eq!(hospital_id_or_refusal(Ok(5)).unwrap(), 5);
    let refused = hospital_id_or_refusal(Err("bad".to_string())).unwrap_err();
    assert_eq!(
        (refused.status, refused.key.as_str(), refused.message.as_str()),
        (400, "error", "Invalid hospital_id: bad")
    );
    assert_eq!(filter_or_refusal(Ok(5), "Invalid doctor_id").unwrap(), Some(5));
    let refused = filter_or_refusal(Err("bad".to_string()), "Invalid doctor_id").unwrap_err();
    assert_eq!(
        (refused.status, refused.key.as_str(), refused.message.as_str()),
        (400, "Invalid doctor_id", "bad")
    );
}

#[test]
fn appointments_are_answered_by_the_kind_of_failure() {
    assert_eq!(answers(get_appointments_handler), plain(500));
    let lookup = with(plain(500), &[(4, 400, "e"), (5, 404, "Appointment not found")]);
    assert_eq!(answers(get_appointment_by_id_handler), lookup);
    let input =
        with(plain(500), &[(2, 422, "day: c"), (4, 400, "e"), (5, 404, "Appointment not found")]);
    assert_eq!(answers(update_appointment_status_handler), input);
    assert_eq!(answers(create_appointment_handler), input);
    assert_eq!(status(create_appointment_handler(Ok(appointment()))), 201);
    assert_eq!(status(get_appointment_by_id_handler(Ok(appointment()))), 200);
    assert_eq!(status(update_appointment_status_handler(Ok(appointment()))), 200);
    assert_eq!(status(get_appointments_handler(Ok(AppointmentList { appointments: Vec::new() }))), 200);
}

#[test]
fn the_filters_of_a_listing_are_identifiers() {
    let five = Some("00000000-0000-0000-0000-000000000005".to_string());
    let six = Some("00000000-0000-0000-0000-000000000006".to_string());
    let bad = Some("x".to_string());
    let why = uuid::Uuid::parse_str("x").unwrap_err().to_string();
    assert_eq!(appointment_filters(&None, &None).unwrap(), (None, None));
    assert_eq!(appointment_filters(&five, &None).unwrap(), (Some(5), None));
    assert_eq!(appointment_filters(&five, &six).unwrap(), (Some(5), Some(6)));
    let refused = appointment_filters(&bad, &bad).unwrap_err();
    assert_eq!(
        (refused.status, refused.key.as_str(), refused.message.as_str()),
        (400, "Invalid patient_id", why.as_str())
    );
    let refused = appointment_filters(&five, &bad).unwrap_err();
    assert_eq!(
        (refused.status, refused.key.as_str(), refused.message.as_str()),
        (400, "Invalid doctor_id", why.as_str())
    );
}

#[test]
fn a_missing_parameter_is_answered_with_400() {
    assert_eq!(status_param(Some("Done".to_string())).unwrap(), "Done");
    let refused = status_param(None).unwrap_err();
    assert_eq!((refused.status, refused.message.as_str()), (400, "Missing status parameter"));
    assert_eq!(day_param(Some("Monday".to_string())).unwrap(), "Monday");
    let refused = day_param(None).unwrap_err();
    assert_eq!((refused.status, refused.message.as_str()), (400, "Missing 'day' query parameter"));
}

#[test]
fn bills_are_answered_by_the_kind_of_failure() {
    assert_eq!(
        answers(issue_bill_handler),
        with(plain(500), &[(2, 422, "day: c"), (4, 400, "e"), (5, 404, "Appointment not found")])
    );
    assert_eq!(
        answers(pay_bill_handler),
        with(plain(500), &[(2, 422, "day: c"), (4, 400, "e"), (5, 404, "Bill not found")])
    );
}

#[test]
fn doctors_are_answered_by_the_kind_of_failure() {
    assert_eq!(answers(get_all_doctors_handler), plain(500));
    assert_eq!(answers(create_doctor_handler), plain(500));
    assert_eq!(answers(get_available_doctors_handler), plain(500));
    assert_eq!(
        answers(get_doctor_by_id_handler),
        with(plain(500), &[(4, 400, "Invalid doctor ID format"), (5, 404, "Doctor not found")])
    );
    assert_eq!(status(get_all_doctors_handler(Ok(DoctorList { doctors: Vec::new() }))), 200);
}

#[test]
fn patients_are_answered_with_500_on_failure() {
    assert_eq!(answers(get_patients_handler), plain(500));
    assert_eq!(answers(create_patient_handler), plain(500));
    assert_eq!(status(get_patients_handler(Ok(PatientList { patients: Vec::new() }))), 200);
}
