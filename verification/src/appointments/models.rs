//! Appointment records and their status.

use crate::errors::{AppError, AppErrorView};
use crate::outside::ids::random_uuid;
use crate::text::{join2, same_text};
use crate::utils::Instant;
use vstd::prelude::*;

verus! {

/// The state of an appointment. An appointment starts as `Scheduled`;
/// `Done` and `Cancelled` are final.
#[derive(Clone, Copy, Debug, PartialEq, Eq, Structural)]
pub enum AppointmentStatus {
    Scheduled,
    Done,
    Cancelled,
}

/// An appointment of a patient with a practitioner.
#[derive(Debug)]
pub struct Appointment {
    pub id: u128,
    pub patient_id: u128,
    pub doctor_id: u128,
    pub purpose: String,
    /// When the appointment takes place, in UTC.
    pub time: Instant,
    pub status: AppointmentStatus,
    /// The price in kobo.
    pub price: u64,
}

/// The request to book an appointment on the next day with the given name,
/// at the given local time.
pub struct CreateAppointmentRequest {
    pub patient_id: u128,
    pub day: String,
    pub time: String,
    pub purpose: String,
}

/// A list of appointments.
pub struct AppointmentList {
    pub appointments: Vec<Appointment>,
}

/// The name under which a status is written.
pub open spec fn status_name(status: AppointmentStatus) -> Seq<char> {
    match status {
        AppointmentStatus::Scheduled => "Scheduled"@,
        AppointmentStatus::Done => "Done"@,
        AppointmentStatus::Cancelled => "Cancelled"@,
    }
}

/// The status that a name stands for, and `ParsingError` for a text that
/// names none.
pub open spec fn status_named(name: Seq<char>) -> Result<AppointmentStatus, AppErrorView> {
    if name == "Scheduled"@ {
        Ok(AppointmentStatus::Scheduled)
    } else if name == "Done"@ {
        Ok(AppointmentStatus::Done)
    } else if name == "Cancelled"@ {
        Ok(AppointmentStatus::Cancelled)
    } else {
        Err(AppErrorView::ParsingError("Invalid status value: "@ + name))
    }
}

/// Whether an appointment in the state `from` may pass to the state `to`:
/// only a scheduled appointment changes, to `Done` or to `Cancelled`.
pub open spec fn may_become(from: AppointmentStatus, to: AppointmentStatus) -> bool {
    from == AppointmentStatus::Scheduled && (to == AppointmentStatus::Done || to
        == AppointmentStatus::Cancelled)
}

/// `Done` and `Cancelled` are final: no state follows them, and nothing
/// leads back to `Scheduled`.
pub proof fn lemma_final_states_stay(from: AppointmentStatus, to: AppointmentStatus)
    ensures
        from != AppointmentStatus::Scheduled ==> !may_become(from, to),
        !may_become(from, AppointmentStatus::Scheduled),
{
}

/// A status's name stands for that status.
pub proof fn lemma_status_name_reads_back(status: AppointmentStatus)
    ensures
        status_named(status_name(status)) == Ok::<AppointmentStatus, AppErrorView>(status),
{
    reveal_strlit("Scheduled");
    reveal_strlit("Done");
    reveal_strlit("Cancelled");
    assert("Scheduled"@.len() == 9 && "Done"@.len() == 4 && "Cancelled"@.len() == 9);
    assert("Scheduled"@[0] != "Cancelled"@[0]);
}

impl AppointmentStatus {
    /// The name under which the status is written.
    pub fn as_str(&self) -> (r: &'static str)
        ensures
            r@ == status_name(*self),
    {
        match self {
            AppointmentStatus::Scheduled => "Scheduled",
            AppointmentStatus::Done => "Done",
            AppointmentStatus::Cancelled => "Cancelled",
        }
    }

    /// The status that a name stands for.
    pub fn parse(name: &str) -> (r: Result<AppointmentStatus, AppError>)
        ensures
            match r {
                Ok(status) => status_named(name@) == Ok::<AppointmentStatus, AppErrorView>(
                    status,
                ),
                Err(e) => status_named(name@) == Err::<AppointmentStatus, AppErrorView>(e@),
            },
    {
        if same_text(name, "Scheduled") {
            Ok(AppointmentStatus::Scheduled)
        } else if same_text(name, "Done") {
            Ok(AppointmentStatus::Done)
        } else if same_text(name, "Cancelled") {
            Ok(AppointmentStatus::Cancelled)
        } else {
            Err(AppError::ParsingError(join2("Invalid status value: ", name)))
        }
    }

    /// Whether the status is final.
    pub fn is_terminal(&self) -> (r: bool)
        ensures
            r == (*self != AppointmentStatus::Scheduled),
            r ==> forall|to: AppointmentStatus| !may_become(*self, to),
    {
        match self {
            AppointmentStatus::Scheduled => false,
            _ => true,
        }
    }

    /// Whether an appointment in this state may pass to the state `to`.
    pub fn can_become(&self, to: AppointmentStatus) -> (r: bool)
        ensures
            r == may_become(*self, to),
    {
        match (self, to) {
            (AppointmentStatus::Scheduled, AppointmentStatus::Done) => true,
            (AppointmentStatus::Scheduled, AppointmentStatus::Cancelled) => true,
            _ => false,
        }
    }
}

impl Appointment {
    /// A scheduled appointment with a fresh identifier.
    pub fn new(patient_id: u128, doctor_id: u128, purpose: String, time: Instant, price: u64) -> (r:
        Appointment)
        ensures
            r.patient_id == patient_id,
            r.doctor_id == doctor_id,
            r.purpose == purpose,
            r.time == time,
            r.status == AppointmentStatus::Scheduled,
            r.price == price,
    {
        Appointment {
            id: random_uuid(),
            patient_id,
            doctor_id,
            purpose,
            time,
            status: AppointmentStatus::Scheduled,
            price,
        }
    }

    /// Moves the appointment to the state `to` where that is a defined
    /// transition, and says whether it was. Otherwise the appointment stays
    /// as it is.
    pub fn transition(&mut self, to: AppointmentStatus) -> (r: bool)
        ensures
            r == may_become(old(self).status, to),
            final(self).status == (if r {
                to
            } else {
                old(self).status
            }),
            final(self).id == old(self).id,
            final(self).patient_id == old(self).patient_id,
            final(self).doctor_id == old(self).doctor_id,
            final(self).purpose == old(self).purpose,
            final(self).time == old(self).time,
            final(self).price == old(self).price,
    {
        if self.status.can_become(to) {
            self.status = to;
            true
        } else {
            false
        }
    }
}

} // verus!
