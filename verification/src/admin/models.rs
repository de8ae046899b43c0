//! Hospitals and users.

use crate::errors::AppError;
use crate::outside::calendar::utc_now;
use crate::outside::ids::random_uuid;
use crate::outside::passwords::bcrypt_verdict;
use crate::text::same_text;
use crate::utils::{hash_password, Instant};
use vstd::prelude::*;

verus! {

/// A hospital: the tenant that users and data belong to.
#[derive(Clone, Debug)]
pub struct Hospital {
    pub id: u128,
    pub name: String,
    pub address: String,
    pub phone: String,
    pub created_at: Instant,
}

/// What a user may do. Every user has exactly one role.
#[derive(Clone, Copy, Debug, PartialEq, Eq, Structural)]
pub enum UserRole {
    Admin,
    Doctor,
    Patient,
}

/// A user of the service, as the credential store holds it.
#[derive(Debug)]
pub struct User {
    pub id: u128,
    pub name: String,
    pub email: String,
    pub password_hash: String,
    pub role: UserRole,
    pub hospital_id: u128,
    pub created_at: Instant,
}

/// A new hospital with its first administrator.
pub struct HospitalData {
    pub hospital: Hospital,
    pub admin: User,
}

/// The request to register a hospital and its administrator.
pub struct CreateHospital {
    pub name: String,
    pub address: String,
    pub phone: String,
    pub admin_name: String,
    pub admin_email: String,
    pub admin_password: String,
}

/// The request to change a hospital's details. A field that is `None`
/// stays as it is.
pub struct UpdateHospital {
    pub name: Option<String>,
    pub address: Option<String>,
    pub phone: Option<String>,
}

/// A hospital with the e-mail address of its administrator.
pub struct HospitalWithAdminEmail {
    pub hospital: Hospital,
    pub admin_email: String,
}

/// The name under which a role is written in tokens and in the store.
pub open spec fn role_name(role: UserRole) -> Seq<char> {
    match role {
        UserRole::Admin => "Admin"@,
        UserRole::Doctor => "Doctor"@,
        UserRole::Patient => "Patient"@,
    }
}

/// The role that a name stands for.
pub open spec fn role_named(name: Seq<char>) -> Option<UserRole> {
    if name == "Admin"@ {
        Some(UserRole::Admin)
    } else if name == "Doctor"@ {
        Some(UserRole::Doctor)
    } else if name == "Patient"@ {
        Some(UserRole::Patient)
    } else {
        None
    }
}

/// A role's name stands for that role.
pub proof fn lemma_role_name_reads_back(role: UserRole)
    ensures
        role_named(role_name(role)) == Some(role),
{
    reveal_strlit("Admin");
    reveal_strlit("Doctor");
    reveal_strlit("Patient");
    assert("Admin"@.len() == 5);
    assert("Doctor"@.len() == 6);
    assert("Patient"@.len() == 7);
}

impl HospitalData {
    /// A new hospital and its administrator, each with a fresh identifier.
    ///
    /// The administrator belongs to the hospital, has the role `Admin` and
    /// a password hash that the request's password verifies against. The
    /// only failure is that of the hasher, an `InternalServerError`.
    pub fn new(data: CreateHospital) -> (r: Result<HospitalData, AppError>)
        ensures
            match r {
                Ok(made) => {
                    &&& made.hospital.name == data.name
                    &&& made.hospital.address == data.address
                    &&& made.hospital.phone == data.phone
                    &&& made.admin.name == data.admin_name
                    &&& made.admin.email == data.admin_email
                    &&& made.admin.role == UserRole::Admin
                    &&& made.admin.hospital_id == made.hospital.id
                    &&& bcrypt_verdict(data.admin_password@, made.admin.password_hash@) == Ok::<
                        bool,
                        Seq<char>,
                    >(true)
                },
                Err(e) => e@ is InternalServerError,
            },
    {
        let password_hash = match hash_password(data.admin_password.as_str()) {
            Ok(hashed) => hashed,
            Err(e) => {
                return Err(e);
            },
        };
        let hospital = Hospital {
            id: random_uuid(),
            name: data.name,
            address: data.address,
            phone: data.phone,
            created_at: utc_now(),
        };
        let admin = User {
            id: random_uuid(),
            name: data.admin_name,
            email: data.admin_email,
            password_hash,
            role: UserRole::Admin,
            hospital_id: hospital.id,
            created_at: utc_now(),
        };
        Ok(HospitalData { hospital, admin })
    }
}

impl UserRole {
    /// The name under which the role is written.
    pub fn as_str(&self) -> (r: &'static str)
        ensures
            r@ == role_name(*self),
    {
        match self {
            UserRole::Admin => "Admin",
            UserRole::Doctor => "Doctor",
            UserRole::Patient => "Patient",
        }
    }

    /// The role that a name stands for, if it is the name of one.
    pub fn parse(name: &str) -> (r: Option<UserRole>)
        ensures
            r == role_named(name@),
    {
        if same_text(name, "Admin") {
            Some(UserRole::Admin)
        } else if same_text(name, "Doctor") {
            Some(UserRole::Doctor)
        } else if same_text(name, "Patient") {
            Some(UserRole::Patient)
        } else {
            None
        }
    }
}

} // verus!
