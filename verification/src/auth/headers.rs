//! Reading the claims out of a request's bearer token.

use crate::admin::models::UserRole;
use crate::auth::models::{
    accepted_at, claims_of_parts, claims_read, id_member, is_validation, validated, Claims,
};
use crate::errors::{AppError, AppErrorView};
use crate::outside::ids::parse_uuid;
use crate::outside::token::{
    hs256_claims, json_fields, json_number, json_text, open_hs256, JsonObject,
};
use crate::utils::current_timestamp;
use vstd::prelude::*;

verus! {

/// The characters of a text that may be absent.
pub open spec fn text_of(text: Option<&str>) -> Option<Seq<char>> {
    match text {
        Some(text) => Some(text@),
        None => None,
    }
}

/// The characters of an owned text that may be absent.
pub open spec fn text_of_owned(text: Option<String>) -> Option<Seq<char>> {
    match text {
        Some(text) => Some(text@),
        None => None,
    }
}

/// The identifier in the member `key` of a JSON object, where that member
/// is the text of one.
fn read_id(payload: &JsonObject, key: &str) -> (r: Option<u128>)
    ensures
        r == id_member(json_fields(*payload), key@),
{
    match json_text(payload, key) {
        Some(text) => match parse_uuid(text.as_str()) {
            Ok(id) => Some(id),
            Err(_) => None,
        },
        None => None,
    }
}

/// The error for a token that does not hold.
fn refused() -> (r: AppError)
    ensures
        r@ == AppErrorView::Unauthorized("Invalid or expired token"@),
{
    AppError::Unauthorized("Invalid or expired token".to_owned())
}

/// Every refusal of a token is `Unauthorized`, and no token is accepted
/// after its expiry: whatever the signature, accepted claims hold at the
/// second of validation.
pub proof fn lemma_expired_token_is_refused(token: Option<Seq<char>>, secret: Seq<char>, now: u64)
    ensures
        match validated(token, secret, now) {
            Ok(claims) => claims.exp >= now,
            Err(e) => e is Unauthorized,
        },
{
}

impl Claims {
    /// The claims that the four members of a payload make up: two
    /// identifiers, the name of a role and the second of expiry. `None`
    /// where one is missing or the role is the name of none.
    pub fn from_parts(
        sub: Option<u128>,
        hospital_id: Option<u128>,
        role: Option<String>,
        exp: Option<u64>,
    ) -> (r: Option<Claims>)
        ensures
            r == claims_of_parts(sub, hospital_id, text_of_owned(role), exp),
    {
        match (sub, hospital_id, role, exp) {
            (Some(sub), Some(hospital_id), Some(role), Some(exp)) => match UserRole::parse(
                role.as_str(),
            ) {
                Some(role) => Some(Claims { sub, hospital_id, role, exp }),
                None => None,
            },
            _ => None,
        }
    }

    /// Accepts the claims read from a token at the second `now`, unless
    /// there are none or they have expired: a token holds up to and
    /// including the second of its expiry.
    pub fn accepted(read: Option<Claims>, now: u64) -> (r: Result<Claims, AppError>)
        ensures
            match accepted_at(read, now) {
                Ok(claims) => r == Ok::<Claims, AppError>(claims),
                Err(e) => r is Err && r->Err_0@ == e,
            },
    {
        match read {
            Some(claims) => {
                if claims.exp >= now {
                    Ok(claims)
                } else {
                    Err(refused())
                }
            },
            None => Err(refused()),
        }
    }

    /// The claims that a token's payload carries: the members `sub` and
    /// `hospital_id` as identifiers, `role` as the name of a role and `exp`
    /// as a whole number. `None` where one is missing or malformed.
    fn from_payload(payload: &JsonObject) -> (r: Option<Claims>)
        ensures
            r == claims_read(json_fields(*payload)),
    {
        let sub = read_id(payload, "sub");
        let hospital_id = read_id(payload, "hospital_id");
        let role = json_text(payload, "role");
        let exp = json_number(payload, "exp");
        Claims::from_parts(sub, hospital_id, role, exp)
    }

    /// Validates a request's bearer token at the second `now`.
    ///
    /// Gives the claims of a token that is signed with `secret`, carries
    /// well-formed claims and has not expired. An absent token, a malformed
    /// one, one with another signature and one whose expiry lies before
    /// `now` are all refused as `Unauthorized`.
    pub fn validate_at(token: Option<&str>, secret: &str, now: u64) -> (r: Result<
        Claims,
        AppError,
    >)
        ensures
            is_validation(r, validated(text_of(token), secret@, now)),
    {
        let token = match token {
            Some(token) => token,
            None => {
                return Err(AppError::Unauthorized("Missing authorization header".to_owned()));
            },
        };
        let read = match open_hs256(token, secret) {
            Some(payload) => Claims::from_payload(&payload),
            None => None,
        };
        Claims::accepted(read, now)
    }

    /// Validates a request's bearer token against the system clock.
    ///
    /// An absent token is refused whatever the clock reads, and so is one
    /// that is malformed or signed otherwise. For the rest the outcome is
    /// that of [`Claims::validate_at`] at the second that the clock gave.
    pub fn validate(token: Option<&str>, secret: &str) -> (r: Result<Claims, AppError>)
        ensures
            exists|now: u64| is_validation(r, validated(text_of(token), secret@, now)),
            r is Err ==> r->Err_0@ is Unauthorized,
            token is None ==> r is Err && r->Err_0@ == AppErrorView::Unauthorized(
                "Missing authorization header"@,
            ),
            token is Some && (hs256_claims(token->0@, secret@) is None || claims_read(
                hs256_claims(token->0@, secret@)->0,
            ) is None) ==> r is Err && r->Err_0@ == AppErrorView::Unauthorized(
                "Invalid or expired token"@,
            ),
    {
        let now = current_timestamp();
        Claims::validate_at(token, secret, now)
    }
}

} // verus!
