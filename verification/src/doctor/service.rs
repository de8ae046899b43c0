//! Which practitioners are available on a day.

use crate::doctor::models::{Doctor, DoctorList};
use crate::errors::{AppError, AppErrorView};
use crate::utils::{id_read, is_day_name, is_valid_day, parse_id};
use vstd::prelude::*;

verus! {

/// The question put to the practitioner directory: who accepts bookings on
/// this day. The day is one of the seven day names.
pub struct AvailabilityQuery {
    pub day: String,
}

/// The error for a text that is no day name.
pub open spec fn invalid_day() -> AppErrorView {
    AppErrorView::ParsingError("Invalid day format"@)
}

/// Those of `found` that accept bookings on `day`, in their order.
pub open spec fn accepting(found: Seq<Doctor>, day: Seq<char>) -> Seq<Doctor> {
    found.filter(|doctor: Doctor| doctor.accepts(day))
}

/// Prepares the question for the practitioner directory.
///
/// A text that is not one of the seven day names is refused with
/// `ParsingError`, so that the directory is never asked about it.
pub fn get_available_doctors(day: String) -> (r: Result<AvailabilityQuery, AppError>)
    ensures
        match r {
            Ok(query) => is_day_name(day@) && query.day@ == day@,
            Err(e) => !is_day_name(day@) && e@ == invalid_day(),
        },
{
    if !is_valid_day(day.as_str()) {
        return Err(AppError::ParsingError("Invalid day format".to_owned()));
    }
    Ok(AvailabilityQuery { day })
}

/// The practitioners among `found` that accept bookings on the day asked
/// about, in their order. The list is empty where there is none; that is
/// no error.
pub fn available_doctors(query: &AvailabilityQuery, found: Vec<Doctor>) -> (r: DoctorList)
    ensures
        r.doctors@ == accepting(found@, query.day@),
{
    let mut doctors: Vec<Doctor> = Vec::new();
    let ghost all = found@;
    proof {
        assert(all.take(0) =~= Seq::<Doctor>::empty());
        reveal(Seq::filter);
    }
    for doctor in it: found
        invariant
            it.seq() == all,
            doctors@ == accepting(all.take(it.index() as int), query.day@),
    {
        proof {
            assert(all.take(it.index() + 1).drop_last() =~= all.take(it.index() as int));
            reveal(Seq::filter);
        }
        if doctor.is_available_on(query.day.as_str()) {
            doctors.push(doctor);
        }
    }
    proof {
        assert(all.take(all.len() as int) =~= all);
    }
    DoctorList { doctors }
}

/// The identifier of the practitioner to look up, and `ParsingError` for a
/// text that is none.
pub fn get_doctor_by_id(doctor_id: &str) -> (r: Result<u128, AppError>)
    ensures
        match r {
            Ok(id) => id_read(doctor_id@) == Ok::<u128, AppErrorView>(id),
            Err(e) => id_read(doctor_id@) == Err::<u128, AppErrorView>(e@),
        },
{
    parse_id(doctor_id)
}

/// Prepares the question whether one practitioner is available on a day:
/// the practitioner's identifier. The day name is checked first, then the
/// identifier; either failure is a `ParsingError`.
pub fn is_doctor_available(doctor_id: &str, day: &str) -> (r: Result<u128, AppError>)
    ensures
        match r {
            Ok(id) => is_day_name(day@) && id_read(doctor_id@) == Ok::<u128, AppErrorView>(id),
            Err(e) => if is_day_name(day@) {
                id_read(doctor_id@) == Err::<u128, AppErrorView>(e@)
            } else {
                e@ == invalid_day()
            },
        },
{
    if !is_valid_day(day) {
        return Err(AppError::ParsingError("Invalid day format".to_owned()));
    }
    parse_id(doctor_id)
}

} // verus!
