//! Who may change a hospital's details, and what a failed change means.

use crate::admin::models::{HospitalData, HospitalWithAdminEmail, UserRole};
use crate::auth::guard::{access, authorize, Access, Denial};
use crate::auth::models::Claims;
use crate::errors::{AppError, AppErrorView};
use crate::outside::ids::{uuid_string, uuid_text};
use crate::text::join3;
use vstd::prelude::*;

verus! {

/// What is answered for a hospital that was registered: the hospital and
/// the e-mail address of its administrator.
pub fn create_new_hospital_and_admin(data: HospitalData) -> (r: HospitalWithAdminEmail)
    ensures
        r.hospital == data.hospital,
        r.admin_email == data.admin.email,
{
    HospitalWithAdminEmail { hospital: data.hospital, admin_email: data.admin.email }
}

/// What the guard's decision means for a change of a hospital's details.
pub open spec fn update_permission(decision: Access) -> Result<(), AppErrorView> {
    match decision {
        Access::Allow => Ok(()),
        Access::Deny(Denial::RoleMismatch) => Err(
            AppErrorView::Unauthorized("Only admin users can update hospital information"@),
        ),
        Access::Deny(Denial::TenantMismatch) => Err(
            AppErrorView::Unauthorized(
                "You cannot update information for a hospital you do not belong to"@,
            ),
        ),
    }
}

/// Decides whether the caller may change the details of the hospital
/// `hospital_id`: only an administrator of that very hospital may. A
/// caller in another role, and an administrator of another hospital, are
/// refused as `Unauthorized`, before anything is written.
pub fn update_hospital_info(hospital_id: u128, claim: &Claims) -> (r: Result<(), AppError>)
    ensures
        match r {
            Ok(_) => update_permission(access(*claim, UserRole::Admin, hospital_id)) is Ok,
            Err(e) => update_permission(access(*claim, UserRole::Admin, hospital_id)) == Err::<
                (),
                AppErrorView,
            >(e@),
        },
        r is Ok <==> claim.role == UserRole::Admin && claim.hospital_id == hospital_id,
{
    match authorize(claim, UserRole::Admin, hospital_id) {
        Access::Allow => Ok(()),
        Access::Deny(Denial::RoleMismatch) => Err(
            AppError::Unauthorized("Only admin users can update hospital information".to_owned()),
        ),
        Access::Deny(Denial::TenantMismatch) => Err(
            AppError::Unauthorized(
                "You cannot update information for a hospital you do not belong to".to_owned(),
            ),
        ),
    }
}

/// Why the store did not change a hospital.
pub enum StoreFailure {
    /// There is no row for the identifier.
    RowNotFound,
    /// Anything else, with the store's message.
    Other(String),
}

/// The error for a change that the store did not make, where `id` is the
/// hospital's identifier as it is written: `NotFound` where the store has
/// no such hospital, else `DatabaseError` with the store's message.
pub fn update_failure_for(id: &str, failure: StoreFailure) -> (r: AppError)
    ensures
        r@ == (match failure {
            StoreFailure::RowNotFound => AppErrorView::NotFound(
                "Hospital with id "@ + id@ + " not found"@,
            ),
            StoreFailure::Other(why) => AppErrorView::DatabaseError(why@),
        }),
{
    match failure {
        StoreFailure::RowNotFound => AppError::NotFound(
            join3("Hospital with id ", id, " not found"),
        ),
        StoreFailure::Other(why) => AppError::DatabaseError(why),
    }
}

/// The error for a change of the hospital `hospital_id` that the store did
/// not make: `NotFound` where it has no such hospital, else
/// `DatabaseError` with the store's message.
pub fn update_failure(hospital_id: u128, failure: StoreFailure) -> (r: AppError)
    ensures
        r@ == (match failure {
            StoreFailure::RowNotFound => AppErrorView::NotFound(
                "Hospital with id "@ + uuid_text(hospital_id) + " not found"@,
            ),
            StoreFailure::Other(why) => AppErrorView::DatabaseError(why@),
        }),
{
    let id = uuid_string(hospital_id);
    update_failure_for(id.as_str(), failure)
}

} // verus!
