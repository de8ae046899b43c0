//! Booking an appointment and the questions put to the appointment store.

use crate::appointments::models::{
    may_become, status_name, status_named, Appointment, AppointmentStatus,
    CreateAppointmentRequest,
};
use crate::config::DEFAULT_APPOINTMENT_PRICE;
use crate::doctor::models::Doctor;
use crate::doctor::service::{
    accepting, available_doctors, get_available_doctors, AvailabilityQuery,
};
use crate::errors::{AppError, AppErrorView};
use crate::outside::calendar::today_utc;
use crate::outside::chance::choose_one;
use crate::text::{join2, join3};
use crate::utils::{
    combine_day_and_time_on, id_read, invalid_day_name, is_day_name, lemma_day_validators_agree,
    parse_id, resolved, Instant, Today,
};
use vstd::prelude::*;

verus! {

/// The columns read of an appointment, and the table.
pub open spec fn select_appointments() -> Seq<char> {
    "SELECT id, patient_id, doctor_id, purpose, time, status, price FROM appointments"@
}

/// The query that lists appointments, with the identifiers to bind to its
/// placeholders in their order.
pub struct AppointmentQuery {
    pub sql: String,
    pub binds: Vec<u128>,
}

/// The text of the query that lists appointments, all or those of one
/// patient, of one practitioner or of both.
pub open spec fn listing_sql(patient_id: Option<u128>, doctor_id: Option<u128>) -> Seq<char> {
    match (patient_id, doctor_id) {
        (None, None) => select_appointments(),
        (Some(_), None) => select_appointments() + " WHERE patient_id = $1"@,
        (None, Some(_)) => select_appointments() + " WHERE doctor_id = $1"@,
        (Some(_), Some(_)) => select_appointments() + " WHERE patient_id = $1"@
            + " AND doctor_id = $2"@,
    }
}

/// The identifiers that go with [`listing_sql`].
pub open spec fn listing_binds(patient_id: Option<u128>, doctor_id: Option<u128>) -> Seq<u128> {
    match (patient_id, doctor_id) {
        (None, None) => seq![],
        (Some(p), None) => seq![p],
        (None, Some(d)) => seq![d],
        (Some(p), Some(d)) => seq![p, d],
    }
}

/// The query that lists the appointments, all of them or those of the
/// given patient, of the given practitioner, or of both.
pub fn get_appointments(patient_id: Option<u128>, doctor_id: Option<u128>) -> (r: AppointmentQuery)
    ensures
        r.sql@ == listing_sql(patient_id, doctor_id),
        r.binds@ == listing_binds(patient_id, doctor_id),
{
    let mut sql =
        "SELECT id, patient_id, doctor_id, purpose, time, status, price FROM appointments".to_owned();
    let mut binds: Vec<u128> = Vec::new();
    let mut where_added = false;
    if let Some(pid) = patient_id {
        sql.append(" WHERE patient_id = $1");
        binds.push(pid);
        where_added = true;
    }
    if let Some(did) = doctor_id {
        if where_added {
            sql.append(" AND doctor_id = $2");
        } else {
            sql.append(" WHERE doctor_id = $1");
        }
        binds.push(did);
    }
    proof {
        assert(binds@ =~= listing_binds(patient_id, doctor_id));
    }
    AppointmentQuery { sql, binds }
}

/// The identifier of the appointment to look up, and `ParsingError` for a
/// text that is none.
pub fn get_appointment_by_id(appointment_id: &str) -> (r: Result<u128, AppError>)
    ensures
        match r {
            Ok(id) => id_read(appointment_id@) == Ok::<u128, AppErrorView>(id),
            Err(e) => id_read(appointment_id@) == Err::<u128, AppErrorView>(e@),
        },
{
    parse_id(appointment_id)
}

/// The error for a day on which no practitioner is available.
pub open spec fn no_doctor() -> AppErrorView {
    AppErrorView::NotFound("No doctors available on the requested day"@)
}

/// What a choice among the candidates comes to: the practitioner chosen,
/// or `NotFound` where there was none to choose.
pub fn assigned(choice: Option<Doctor>) -> (r: Result<Doctor, AppError>)
    ensures
        match choice {
            Some(doctor) => r == Ok::<Doctor, AppError>(doctor),
            None => r is Err && r->Err_0@ == no_doctor(),
        },
{
    match choice {
        Some(doctor) => Ok(doctor),
        None => Err(AppError::NotFound("No doctors available on the requested day".to_owned())),
    }
}

/// Picks the practitioner for a booking among the candidates, each with
/// the same chance, whatever was booked before.
///
/// Fails with `NotFound` exactly when there is no candidate. Otherwise the
/// practitioner is one of the candidates; a single candidate is always the
/// one picked.
pub fn assign(candidates: Vec<Doctor>) -> (r: Result<Doctor, AppError>)
    ensures
        candidates@.len() == 0 <==> r is Err,
        r is Err ==> r->Err_0@ == no_doctor(),
        r is Ok ==> candidates@.contains(r->Ok_0),
        candidates@.len() == 1 ==> r is Ok && r->Ok_0 == candidates@[0],
{
    assigned(choose_one(candidates))
}

/// A booking whose time is resolved and whose day is known to be a day
/// name: what is left is to ask the directory who is available.
pub struct PlannedAppointment {
    pub patient_id: u128,
    pub purpose: String,
    /// The instant of the appointment, in UTC.
    pub time: Instant,
    pub query: AvailabilityQuery,
}

/// Whether `r` is the plan for `payload` when the clock reads `today`: the
/// request's patient and purpose, the resolved instant, and the question
/// for the request's day; or the error of the time resolution.
pub open spec fn is_plan(
    r: Result<PlannedAppointment, AppError>,
    payload: CreateAppointmentRequest,
    today: Today,
) -> bool {
    match r {
        Ok(plan) => {
            &&& resolved(today, payload.day@, payload.time@) == Ok::<(int, int), AppErrorView>(
                (plan.time.seconds as int, plan.time.nanos as int),
            )
            &&& plan.patient_id == payload.patient_id
            &&& plan.purpose == payload.purpose
            &&& plan.query.day@ == payload.day@
            &&& is_day_name(payload.day@)
        },
        Err(e) => resolved(today, payload.day@, payload.time@) == Err::<(int, int), AppErrorView>(
            e@,
        ),
    }
}

/// Plans a booking when the clock reads `today`: resolves the request's
/// day and time to an instant and prepares the question for the
/// directory. A day that is no day name and a time that does not read are
/// refused as `UnProcessableEntity`, before the directory is asked.
pub fn plan_appointment_on(today: Today, payload: CreateAppointmentRequest) -> (r: Result<
    PlannedAppointment,
    AppError,
>)
    ensures
        is_plan(r, payload, today),
{
    let time = match combine_day_and_time_on(today, payload.day.as_str(), payload.time.as_str()) {
        Ok(time) => time,
        Err(e) => {
            return Err(e);
        },
    };
    proof {
        lemma_day_validators_agree(payload.day@);
    }
    match get_available_doctors(payload.day) {
        Ok(query) => Ok(
            PlannedAppointment {
                patient_id: payload.patient_id,
                purpose: payload.purpose,
                time,
                query,
            },
        ),
        Err(e) => Err(e),
    }
}

/// Plans a booking by the system clock: the outcome is that of
/// [`plan_appointment_on`] for the date that the clock gave. A day that is
/// no day name is refused whatever the clock reads, and a plan is made
/// only from a date and a weekday that belong together.
pub fn plan_appointment(payload: CreateAppointmentRequest) -> (r: Result<
    PlannedAppointment,
    AppError,
>)
    ensures
        exists|today: Today|
            #[trigger] is_plan(r, payload, today) && (r is Ok ==> today.is_calendar_day()),
        !is_day_name(payload.day@) ==> r is Err && r->Err_0@ == invalid_day_name(),
{
    let today = today_utc();
    proof {
        lemma_day_validators_agree(payload.day@);
    }
    let r = plan_appointment_on(today, payload);
    assert(is_plan(r, payload, today) && (r is Ok ==> today.is_calendar_day()));
    r
}

/// Books the planned appointment with one of the practitioners that the
/// directory found.
///
/// The practitioner is picked at random among those of `found` that accept
/// bookings on the planned day. Where there is none the booking fails with
/// `NotFound`. Otherwise the appointment is scheduled, for the planned
/// patient, purpose and instant, at the default price.
pub fn create_appointment(plan: PlannedAppointment, found: Vec<Doctor>) -> (r: Result<
    Appointment,
    AppError,
>)
    ensures
        accepting(found@, plan.query.day@).len() == 0 <==> r is Err,
        r is Err ==> r->Err_0@ == no_doctor(),
        r is Ok ==> {
            let made = r->Ok_0;
            &&& exists|i: int|
                0 <= i < found@.len() && #[trigger] found@[i].accepts(plan.query.day@)
                    && found@[i].id == made.doctor_id
            &&& made.patient_id == plan.patient_id
            &&& made.purpose == plan.purpose
            &&& made.time == plan.time
            &&& made.status == AppointmentStatus::Scheduled
            &&& made.price == DEFAULT_APPOINTMENT_PRICE
        },
{
    let available = available_doctors(&plan.query, found);
    let ghost candidates = available.doctors@;
    let doctor = match assign(available.doctors) {
        Ok(doctor) => doctor,
        Err(e) => {
            return Err(e);
        },
    };
    proof {
        let k = choose|k: int| 0 <= k < candidates.len() && candidates[k] == doctor;
        assert(candidates.contains(candidates[k]));
        found@.lemma_filter_contains_rev(|d: Doctor| d.accepts(plan.query.day@), doctor);
        let i = choose|i: int| 0 <= i < found@.len() && found@[i] == doctor;
        assert(found@[i].accepts(plan.query.day@));
    }
    Ok(Appointment::new(plan.patient_id, doctor.id, plan.purpose, plan.time, DEFAULT_APPOINTMENT_PRICE))
}

/// A change of status to write to the appointment store.
#[derive(Clone, Copy, Debug, PartialEq, Eq, Structural)]
pub struct StatusUpdate {
    pub id: u128,
    pub status: AppointmentStatus,
}

/// The change of status that a request asks for. The status is read first,
/// then the identifier; either failure is a `ParsingError`. Whether the
/// change is a transition is for [`checked_status_update`] to say, once the
/// appointment's state is known.
pub fn update_appointment_status(appointment_id: &str, status: &str) -> (r: Result<
    StatusUpdate,
    AppError,
>)
    ensures
        match r {
            Ok(update) => status_named(status@) == Ok::<AppointmentStatus, AppErrorView>(
                update.status,
            ) && id_read(appointment_id@) == Ok::<u128, AppErrorView>(update.id),
            Err(e) => match status_named(status@) {
                Err(refusal) => e@ == refusal,
                Ok(_) => id_read(appointment_id@) == Err::<u128, AppErrorView>(e@),
            },
        },
{
    let status = match AppointmentStatus::parse(status) {
        Ok(status) => status,
        Err(e) => {
            return Err(e);
        },
    };
    match parse_id(appointment_id) {
        Ok(id) => Ok(StatusUpdate { id, status }),
        Err(e) => Err(e),
    }
}

/// The error for a change of status that is no transition: the
/// appointment's state and the state asked for, by their names.
pub open spec fn no_transition(stored: AppointmentStatus, to: AppointmentStatus) -> AppErrorView {
    AppErrorView::UnProcessableEntity {
        field: "status"@,
        message: "An appointment that is "@ + status_name(stored) + " cannot become "@
            + status_name(to),
    }
}

/// Holds a change of status against the state that the store has for the
/// appointment.
///
/// Only a scheduled appointment changes, to `Done` or to `Cancelled`; that
/// change is handed back to be written. Every other change is refused as
/// `UnProcessableEntity` for the field `status`, so that a final state is
/// never written over.
pub fn checked_status_update(stored: AppointmentStatus, update: StatusUpdate) -> (r: Result<
    StatusUpdate,
    AppError,
>)
    ensures
        may_become(stored, update.status) ==> r == Ok::<StatusUpdate, AppError>(update),
        !may_become(stored, update.status) ==> r is Err && r->Err_0@ == no_transition(
            stored,
            update.status,
        ),
{
    if stored.can_become(update.status) {
        Ok(update)
    } else {
        let head = join3("An appointment that is ", stored.as_str(), " cannot become ");
        Err(
            AppError::UnProcessableEntity {
                field: "status".to_owned(),
                message: join2(head.as_str(), update.status.as_str()),
            },
        )
    }
}

} // verus!
