//! Patients.

use crate::outside::ids::random_uuid;
use crate::utils::{create_random_string, is_alphanumeric};
use vstd::prelude::*;

verus! {

/// A patient.
#[derive(Debug)]
pub struct Patient {
    pub id: u128,
    pub name: String,
    pub age: i32,
    /// The number of the patient's card: ten letters and digits.
    pub card_id: String,
    pub gender: String,
    pub hospital_id: Option<u128>,
    pub user_id: Option<u128>,
}

/// The request to register a patient.
pub struct CreatePatient {
    pub name: String,
    pub age: i32,
    pub gender: String,
    pub hospital_id: Option<u128>,
    pub user_id: Option<u128>,
}

/// A list of patients.
pub struct PatientList {
    pub patients: Vec<Patient>,
}

impl Patient {
    /// A patient with the request's details, a fresh identifier and a card
    /// number of ten random letters and digits.
    pub fn new(data: CreatePatient) -> (r: Patient)
        ensures
            r.name == data.name,
            r.age == data.age,
            r.gender == data.gender,
            r.hospital_id == data.hospital_id,
            r.user_id == data.user_id,
            r.card_id@.len() == 10,
            forall|i: int| 0 <= i < 10 ==> is_alphanumeric(#[trigger] r.card_id@[i]),
    {
        Patient {
            id: random_uuid(),
            name: data.name,
            age: data.age,
            card_id: create_random_string(10),
            hospital_id: data.hospital_id,
            gender: data.gender,
            user_id: data.user_id,
        }
    }
}

} // verus!
