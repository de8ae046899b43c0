use chrono::{Datelike, NaiveDate, TimeZone, Utc};
use hospital_portal::appointments::models::{
    Appointment, AppointmentStatus, CreateAppointmentRequest,
};
use hospital_portal::appointments::service::{
    assign, assigned, checked_status_update, create_appointment, get_appointment_by_id,
    get_appointments, plan_appointment, plan_appointment_on, update_appointment_status,
    StatusUpdate,
};
use hospital_portal::config::DEFAULT_APPOINTMENT_PRICE;
use hospital_portal::doctor::models::{CreateDoctor, Doctor};
use hospital_portal::doctor::service::{
    available_doctors, get_available_doctors, get_doctor_by_id, is_doctor_available,
    AvailabilityQuery,
};
use hospital_portal::errors::AppError;
use hospital_portal::utils::{Date, Instant, Today, Weekday};

fn doctor(id: u128, name: &str, days: &[&str]) -> Doctor {
    Doctor {
        id,
        name: name.to_string(),
        specialization: "General".to_string(),
        visiting_hours: "09:00-17:00".to_string(),
        available_days: days.iter().map(|day| day.to_string()).collect(),
    }
}

fn wednesday_28_october() -> Today {
    let date = NaiveDate::from_ymd_opt(2026, 10, 28).unwrap();
    assert_eq!(date.weekday(), chrono::Weekday::Wed);
    Today { date: Date { days_from_ce: date.num_days_from_ce() }, weekday: Weekday::Wed }
}

fn request(day: &str, time: &str) -> CreateAppointmentRequest {
    CreateAppointmentRequest {
        patient_id: 42,
        day: day.to_string(),
        time: time.to_string(),
        purpose: "Check-up".to_string(),
    }
}

#[test]
fn availability_refuses_an_unknown_day_before_the_directory_is_asked() {
    for day in ["Funday", "monday", "Mon", "", "Sunday "] {
        match get_available_doctors(day.to_string()) {
            Err(AppError::ParsingError(why)) => assert_eq!(why, "Invalid day format"),
            _ => panic!("an unknown day was not refused"),
        }
    }
}

#[test]
fn availability_asks_the_directory_about_a_day_name() {
    for day in ["Monday", "Tuesday", "Wednesday", "Thursday", "Friday", "Saturday", "Sunday"] {
        assert_eq!(get_available_doctors(day.to_string()).unwrap().day, day);
    }
}

#[test]
fn availability_keeps_those_who_accept_the_day() {
    let query = get_available_doctors("Wednesday".to_string()).unwrap();
    let found = vec![
        doctor(1, "A", &["Monday", "Wednesday"]),
        doctor(2, "B", &["Tuesday"]),
        doctor(3, "C", &["Wednesday"]),
        doctor(4, "D", &[]),
        doctor(5, "E", &["wednesday"]),
    ];
    let list = available_doctors(&query, found);
    let ids: Vec<u128> = list.doctors.iter().map(|d| d.id).collect();
    assert_eq!(ids, vec![1, 3]);
}

#[test]
fn availability_of_nobody_is_an_empty_list() {
    let query = get_available_doctors("Sunday".to_string()).unwrap();
    assert!(available_doctors(&query, vec![doctor(1, "A", &["Monday"])]).doctors.is_empty());
    assert!(available_doctors(&query, Vec::new()).doctors.is_empty());
}

#[test]
fn a_doctor_is_available_on_the_days_listed() {
    let a = doctor(1, "A", &["Monday", "Friday"]);
    assert!(a.is_available_on("Monday"));
    assert!(a.is_available_on("Friday"));
    assert!(!a.is_available_on("Tuesday"));
    assert!(!a.is_available_on("friday"));
    assert!(!doctor(2, "B", &[]).is_available_on("Monday"));
}

#[test]
fn the_question_about_one_doctor_checks_the_day_first() {
    let id = "550e8400-e29b-41d4-a716-446655440000";
    assert_eq!(is_doctor_available(id, "Monday").unwrap(), 0x550e8400_e29b_41d4_a716_446655440000);
    match is_doctor_available("nobody", "Funday") {
        Err(AppError::ParsingError(why)) => assert_eq!(why, "Invalid day format"),
        _ => panic!("an unknown day was not refused"),
    }
    assert_eq!(get_doctor_by_id(id).unwrap(), 0x550e8400_e29b_41d4_a716_446655440000);
    assert!(matches!(get_doctor_by_id("nobody"), Err(AppError::ParsingError(_))));
    match is_doctor_available("nobody", "Monday") {
        Err(AppError::ParsingError(why)) => assert_ne!(why, "Invalid day format"),
        _ => panic!("a malformed identifier was not refused"),
    }
}

#[test]
fn a_new_doctor_has_the_details_asked_for() {
    let data = CreateDoctor {
        name: "A".to_string(),
        specialization: "Cardiology".to_string(),
        visiting_hours: "10-12".to_string(),
        available_days: vec!["Monday".to_string()],
    };
    let made = Doctor::new(data);
    assert_eq!(made.name, "A");
    assert_eq!(made.specialization, "Cardiology");
    assert_eq!(made.visiting_hours, "10-12");
    assert_eq!(made.available_days, vec!["Monday".to_string()]);
    let other = Doctor::new(CreateDoctor {
        name: "B".to_string(),
        specialization: String::new(),
        visiting_hours: String::new(),
        available_days: Vec::new(),
    });
    assert_ne!(made.id, other.id);
}

#[test]
fn assign_of_no_candidate_is_not_found() {
    match assign(Vec::new()) {
        Err(AppError::NotFound(why)) => assert_eq!(why, "No doctors available on the requested day"),
        _ => panic!("an empty candidate set was not refused"),
    }
}

#[test]
fn assign_of_one_candidate_is_that_candidate() {
    for _ in 0..20 {
        let picked = assign(vec![doctor(9, "Ada", &["Monday"])]).unwrap();
        assert_eq!(picked.id, 9);
        assert_eq!(picked.name, "Ada");
    }
}

#[test]
fn assign_picks_a_member_of_the_candidates() {
    let mut seen = [false; 4];
    for _ in 0..400 {
        let candidates =
            vec![doctor(0, "A", &[]), doctor(1, "B", &[]), doctor(2, "C", &[]), doctor(3, "D", &[])];
        let picked = assign(candidates).unwrap();
        assert!(picked.id < 4);
        seen[picked.id as usize] = true;
    }
    assert_eq!(seen, [true; 4]);
}

#[test]
fn a_choice_of_nobody_is_not_found() {
    assert!(matches!(assigned(None), Err(AppError::NotFound(_))));
    assert_eq!(assigned(Some(doctor(5, "E", &[]))).unwrap().id, 5);
}

#[test]
fn a_booking_is_scheduled_with_an_available_doctor_at_the_resolved_instant() {
    let plan =
        plan_appointment_on(wednesday_28_october(), request("Wednesday", "10:00 WAT")).unwrap();
    let nine_utc = Utc.with_ymd_and_hms(2026, 11, 4, 9, 0, 0).unwrap();
    assert_eq!(plan.time, Instant { seconds: nine_utc.timestamp(), nanos: 0 });
    assert_eq!(plan.query.day, "Wednesday");
    let found = vec![doctor(1, "A", &["Wednesday"]), doctor(2, "B", &["Wednesday", "Friday"])];
    let made = create_appointment(plan, found).unwrap();
    assert!(made.doctor_id == 1 || made.doctor_id == 2);
    assert_eq!(made.status, AppointmentStatus::Scheduled);
    assert_eq!(made.patient_id, 42);
    assert_eq!(made.purpose, "Check-up");
    assert_eq!(made.time.seconds, nine_utc.timestamp());
    assert_eq!(made.price, DEFAULT_APPOINTMENT_PRICE);
    assert_eq!(made.price, 1_000_000);
}

#[test]
fn a_booking_never_takes_a_doctor_who_is_away_that_day() {
    for _ in 0..50 {
        let plan =
            plan_appointment_on(wednesday_28_october(), request("Friday", "08:15:00Z")).unwrap();
        let found = vec![
            doctor(1, "A", &["Wednesday"]),
            doctor(2, "B", &["Wednesday", "Friday"]),
            doctor(3, "C", &["Monday"]),
        ];
        assert_eq!(create_appointment(plan, found).unwrap().doctor_id, 2);
    }
}

#[test]
fn a_booking_without_an_available_doctor_is_not_found() {
    let plan = plan_appointment_on(wednesday_28_october(), request("Sunday", "08:15:00Z")).unwrap();
    match create_appointment(plan, vec![doctor(1, "A", &["Wednesday"])]) {
        Err(AppError::NotFound(why)) => assert_eq!(why, "No doctors available on the requested day"),
        _ => panic!("a booking without a doctor was not refused"),
    }
    let plan = plan_appointment_on(wednesday_28_october(), request("Sunday", "08:15:00Z")).unwrap();
    assert!(matches!(create_appointment(plan, Vec::new()), Err(AppError::NotFound(_))));
}

#[test]
fn a_booking_for_an_unknown_day_or_time_cannot_be_processed() {
    match plan_appointment_on(wednesday_28_october(), request("Funday", "10:00:00WAT")) {
        Err(AppError::UnProcessableEntity { field, .. }) => assert_eq!(field, "day"),
        _ => panic!("an unknown day was not refused"),
    }
    match plan_appointment_on(wednesday_28_october(), request("Monday", "10:00 XYZ")) {
        Err(AppError::UnProcessableEntity { field, .. }) => assert_eq!(field, "time"),
        _ => panic!("an unknown zone was not refused"),
    }
    match plan_appointment(request("Funday", "10:00:00WAT")) {
        Err(AppError::UnProcessableEntity { field, .. }) => assert_eq!(field, "day"),
        _ => panic!("an unknown day was not refused"),
    }
}

#[test]
fn a_booking_by_the_clock_is_planned_for_the_future() {
    let now = Utc::now().timestamp();
    let plan = plan_appointment(request("Tuesday", "23:59:59-12:00")).unwrap();
    assert!(plan.time.seconds > now);
    assert_eq!(plan.patient_id, 42);
    assert_eq!(plan.query.day, "Tuesday");
}

#[test]
fn a_new_appointment_is_scheduled() {
    let at = Instant { seconds: 1_800_000_000, nanos: 5 };
    let made = Appointment::new(1, 2, "Visit".to_string(), at, 250);
    assert_eq!(
        (made.patient_id, made.doctor_id, made.purpose.as_str(), made.time, made.price),
        (1, 2, "Visit", at, 250)
    );
    assert_eq!(made.status, AppointmentStatus::Scheduled);
    assert_ne!(made.id, Appointment::new(1, 2, "Visit".to_string(), at, 250).id);
}

#[test]
fn only_a_scheduled_appointment_changes_its_status() {
    let scheduled = AppointmentStatus::Scheduled;
    let all = [scheduled, AppointmentStatus::Done, AppointmentStatus::Cancelled];
    for from in all {
        for to in all {
            let allowed = from == scheduled && to != scheduled;
            assert_eq!(from.can_become(to), allowed);
            let at = Instant { seconds: 0, nanos: 0 };
            let mut appointment = Appointment::new(1, 2, "Visit".to_string(), at, 250);
            appointment.status = from;
            assert_eq!(appointment.transition(to), allowed);
            assert_eq!(appointment.status, if allowed { to } else { from });
            assert_eq!(appointment.purpose, "Visit");
        }
    }
    assert!(!scheduled.is_terminal());
    assert!(AppointmentStatus::Done.is_terminal());
    assert!(AppointmentStatus::Cancelled.is_terminal());
}

#[test]
fn a_status_is_written_by_its_name() {
    assert_eq!(AppointmentStatus::Scheduled.as_str(), "Scheduled");
    assert_eq!(AppointmentStatus::Done.as_str(), "Done");
    assert_eq!(AppointmentStatus::Cancelled.as_str(), "Cancelled");
    for status in
        [AppointmentStatus::Scheduled, AppointmentStatus::Done, AppointmentStatus::Cancelled]
    {
        assert_eq!(AppointmentStatus::parse(status.as_str()).unwrap(), status);
    }
    match AppointmentStatus::parse("Postponed") {
        Err(AppError::ParsingError(why)) => assert_eq!(why, "Invalid status value: Postponed"),
        _ => panic!("an unknown status was not refused"),
    }
}

#[test]
fn a_final_status_is_never_written_over() {
    let all = [AppointmentStatus::Scheduled, AppointmentStatus::Done, AppointmentStatus::Cancelled];
    for stored in all {
        for to in all {
            let update = StatusUpdate { id: 7, status: to };
            let checked = checked_status_update(stored, update);
            if stored == AppointmentStatus::Scheduled && to != AppointmentStatus::Scheduled {
                assert_eq!(checked.unwrap(), update);
            } else {
                match checked {
                    Err(AppError::UnProcessableEntity { field, message }) => {
                        assert_eq!(field, "status");
                        assert_eq!(
                            message,
                            format!(
                                "An appointment that is {} cannot become {}",
                                stored.as_str(),
                                to.as_str()
                            )
                        );
                    }
                    _ => panic!("a change that is no transition was not refused"),
                }
            }
        }
    }
    match checked_status_update(
        AppointmentStatus::Done,
        StatusUpdate { id: 7, status: AppointmentStatus::Scheduled },
    ) {
        Err(AppError::UnProcessableEntity { message, .. }) => {
            assert_eq!(message, "An appointment that is Done cannot become Scheduled")
        }
        _ => panic!("a done appointment was scheduled again"),
    }
}

#[test]
fn a_status_update_reads_the_status_first() {
    let id = "550e8400-e29b-41d4-a716-446655440000";
    let update = update_appointment_status(id, "Done").unwrap();
    assert_eq!(update.id, 0x550e8400_e29b_41d4_a716_446655440000);
    assert_eq!(update.status, AppointmentStatus::Done);
    match update_appointment_status("nothing", "done") {
        Err(AppError::ParsingError(why)) => assert_eq!(why, "Invalid status value: done"),
        _ => panic!("an unknown status was not refused"),
    }
    match update_appointment_status("nothing", "Cancelled") {
        Err(AppError::ParsingError(why)) => {
            assert_eq!(why, uuid::Uuid::parse_str("nothing").unwrap_err().to_string())
        }
        _ => panic!("a malformed identifier was not refused"),
    }
}

#[test]
fn an_appointment_is_looked_up_by_its_identifier() {
    assert_eq!(
        get_appointment_by_id("a1a2a3a4-b1b2-c1c2-d1d2-d3d4d5d6d7d8").unwrap(),
        0xa1a2a3a4_b1b2_c1c2_d1d2_d3d4d5d6d7d8
    );
    assert_eq!(get_appointment_by_id("a1a2a3a4b1b2c1c2d1d2d3d4d5d6d7d8").unwrap(), 0xa1a2a3a4_b1b2_c1c2_d1d2_d3d4d5d6d7d8);
    assert!(matches!(get_appointment_by_id("a1a2"), Err(AppError::ParsingError(_))));
}

#[test]
fn the_listing_query_filters_by_what_is_given() {
    let select = "SELECT id, patient_id, doctor_id, purpose, time, status, price FROM appointments";
    let all = get_appointments(None, None);
    assert_eq!(all.sql, select);
    assert!(all.binds.is_empty());
    let of_patient = get_appointments(Some(7), None);
    assert_eq!(of_patient.sql, format!("{select} WHERE patient_id = $1"));
    assert_eq!(of_patient.binds, vec![7]);
    let of_doctor = get_appointments(None, Some(8));
    assert_eq!(of_doctor.sql, format!("{select} WHERE doctor_id = $1"));
    assert_eq!(of_doctor.binds, vec![8]);
    let of_both = get_appointments(Some(7), Some(8));
    assert_eq!(of_both.sql, format!("{select} WHERE patient_id = $1 AND doctor_id = $2"));
    assert_eq!(of_both.binds, vec![7, 8]);
}

#[test]
fn a_query_may_be_built_by_hand() {
    let query = AvailabilityQuery { day: "Monday".to_string() };
    let list = available_doctors(&query, vec![doctor(1, "A", &["Monday"])]);
    assert_eq!(list.doctors.len(), 1);
}
