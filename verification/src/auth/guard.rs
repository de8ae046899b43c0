//! The guard that decides whether a caller may act on a tenant.

use crate::admin::models::UserRole;
use crate::auth::models::Claims;
use crate::errors::{AppError, AppErrorView};
use vstd::prelude::*;

verus! {

/// Why the guard refused a caller.
#[derive(Clone, Copy, Debug, PartialEq, Eq, Structural)]
pub enum Denial {
    /// The caller's role is not the role that the action requires.
    RoleMismatch,
    /// The caller belongs to another tenant than the one acted on.
    TenantMismatch,
}

/// The guard's decision.
#[derive(Clone, Copy, Debug, PartialEq, Eq, Structural)]
pub enum Access {
    Allow,
    Deny(Denial),
}

/// The guard's rule: an action on a tenant is allowed to a caller that has
/// the required role and belongs to that tenant. The role is looked at
/// first.
pub open spec fn access(claims: Claims, required_role: UserRole, target_tenant: u128) -> Access {
    if claims.role != required_role {
        Access::Deny(Denial::RoleMismatch)
    } else if claims.hospital_id != target_tenant {
        Access::Deny(Denial::TenantMismatch)
    } else {
        Access::Allow
    }
}

/// The reason that goes with a denial, for a reader.
pub open spec fn denial_text(denial: Denial) -> Seq<char> {
    match denial {
        Denial::RoleMismatch => "The caller does not have the required role"@,
        Denial::TenantMismatch => "The caller does not belong to the target hospital"@,
    }
}

/// The guard allows exactly the callers whose role and tenant both match:
/// another role is refused even where the tenant matches, and another
/// tenant even where the role matches.
pub proof fn lemma_access_needs_role_and_tenant(
    claims: Claims,
    required_role: UserRole,
    target_tenant: u128,
)
    ensures
        access(claims, required_role, target_tenant) is Allow <==> claims.role == required_role
            && claims.hospital_id == target_tenant,
        claims.role != required_role ==> access(claims, required_role, target_tenant) is Deny,
        claims.hospital_id != target_tenant ==> access(
            claims,
            required_role,
            target_tenant,
        ) is Deny,
{
}

/// Decides whether the caller with these claims may perform an action that
/// requires `required_role` on the tenant `target_tenant`. Nothing is
/// changed.
pub fn authorize(claims: &Claims, required_role: UserRole, target_tenant: u128) -> (r: Access)
    ensures
        r == access(*claims, required_role, target_tenant),
{
    if claims.role != required_role {
        Access::Deny(Denial::RoleMismatch)
    } else if claims.hospital_id != target_tenant {
        Access::Deny(Denial::TenantMismatch)
    } else {
        Access::Allow
    }
}

impl Denial {
    /// The reason for the denial, for a reader.
    pub fn reason(&self) -> (r: String)
        ensures
            r@ == denial_text(*self),
    {
        match self {
            Denial::RoleMismatch => "The caller does not have the required role".to_owned(),
            Denial::TenantMismatch => "The caller does not belong to the target hospital".to_owned(),
        }
    }
}

impl Access {
    /// The decision as a result: nothing for an allowed caller, and for a
    /// refused one `Unauthorized` with the reason.
    pub fn into_result(self) -> (r: Result<(), AppError>)
        ensures
            match self {
                Access::Allow => r is Ok,
                Access::Deny(denial) => r is Err && r->Err_0@ == AppErrorView::Unauthorized(
                    denial_text(denial),
                ),
            },
    {
        match self {
            Access::Allow => Ok(()),
            Access::Deny(denial) => Err(AppError::Unauthorized(denial.reason())),
        }
    }
}

} // verus!
