//! Practitioners.

use crate::outside::ids::random_uuid;
use vstd::prelude::*;

verus! {

/// A practitioner, as the directory holds it.
#[derive(Debug)]
pub struct Doctor {
    pub id: u128,
    pub name: String,
    pub specialization: String,
    pub visiting_hours: String,
    /// The names of the weekdays on which the practitioner accepts
    /// bookings.
    pub available_days: Vec<String>,
}

/// The request to register a practitioner.
pub struct CreateDoctor {
    pub name: String,
    pub specialization: String,
    pub visiting_hours: String,
    pub available_days: Vec<String>,
}

/// A list of practitioners.
pub struct DoctorList {
    pub doctors: Vec<Doctor>,
}

impl Doctor {
    /// Whether the practitioner accepts bookings on the day with this
    /// name.
    pub open spec fn accepts(self, day: Seq<char>) -> bool {
        exists|i: int| 0 <= i < self.available_days@.len() && #[trigger] self.available_days@[i]@
            == day
    }

    /// A practitioner with the request's details and a fresh identifier.
    pub fn new(data: CreateDoctor) -> (r: Doctor)
        ensures
            r.name == data.name,
            r.specialization == data.specialization,
            r.visiting_hours == data.visiting_hours,
            r.available_days == data.available_days,
    {
        Doctor {
            id: random_uuid(),
            name: data.name,
            specialization: data.specialization,
            visiting_hours: data.visiting_hours,
            available_days: data.available_days,
        }
    }

    /// Whether the practitioner accepts bookings on the day with this
    /// name.
    pub fn is_available_on(&self, day: &str) -> (r: bool)
        ensures
            r == self.accepts(day@),
    {
        let wanted = day.to_owned();
        let n = self.available_days.len();
        let mut i: usize = 0;
        while i < n
            invariant
                n == self.available_days@.len(),
                i <= n,
                wanted@ == day@,
                forall|j: int| 0 <= j < i ==> self.available_days@[j]@ != day@,
            decreases n - i,
        {
            if self.available_days[i] == wanted {
                return true;
            }
            i = i + 1;
        }
        false
    }
}

} // verus!
