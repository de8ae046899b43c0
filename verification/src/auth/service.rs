//! The login decision.

use crate::admin::models::User;
use crate::auth::models::{
    claims_payload, validated, Claims, LoginRequest, LoginResponse, TOKEN_LIFETIME,
};
use crate::errors::{AppError, AppErrorView};
use crate::outside::passwords::bcrypt_verdict;
use crate::outside::token::hs256_token;
use crate::utils::{current_timestamp, verify_password};
use vstd::prelude::*;

verus! {

/// The claims issued to `user` at the second `now`.
pub open spec fn claims_at(user: User, now: u64) -> Claims {
    Claims {
        sub: user.id,
        hospital_id: user.hospital_id,
        role: user.role,
        exp: (now + TOKEN_LIFETIME) as u64,
    }
}

/// The error for a login that is refused. It does not say whether the
/// user or the password was wrong.
pub open spec fn invalid_login() -> AppErrorView {
    AppErrorView::Unauthorized("Invalid email or password"@)
}

/// Whether `r` is what the check of a login comes to, where `found` is
/// what the credential store gave for the e-mail address: the user where
/// the password matches the stored hash, `Unauthorized` where there is no
/// user or the password does not match, `InternalServerError` where the
/// hash cannot be read.
pub open spec fn is_login_check(
    r: Result<User, AppError>,
    found: Result<User, AppError>,
    password: Seq<char>,
) -> bool {
    match found {
        Err(_) => r is Err && r->Err_0@ == invalid_login(),
        Ok(user) => match bcrypt_verdict(password, user.password_hash@) {
            Err(why) => r is Err && r->Err_0@ == AppErrorView::InternalServerError(why),
            Ok(false) => r is Err && r->Err_0@ == invalid_login(),
            Ok(true) => r == Ok::<User, AppError>(user),
        },
    }
}

/// Whether `response` answers the login of `user` at the second `now`: it
/// carries the token for the user's claims, which validates, up to its
/// expiry, to those claims.
pub open spec fn is_token_issue(
    response: LoginResponse,
    user: User,
    secret: Seq<char>,
    now: u64,
) -> bool {
    &&& response.token@ == hs256_token(claims_payload(claims_at(user, now)), secret)
    &&& forall|later: u64|
        later <= now + TOKEN_LIFETIME ==> #[trigger] validated(
            Some(response.token@),
            secret,
            later,
        ) == Ok::<Claims, AppErrorView>(claims_at(user, now))
}

/// Whether `r` is what a login at the second `now` comes to: the outcome
/// of the check, and for a user that passed it the token issued.
pub open spec fn is_login_outcome(
    r: Result<LoginResponse, AppError>,
    found: Result<User, AppError>,
    password: Seq<char>,
    secret: Seq<char>,
    now: u64,
) -> bool {
    match found {
        Err(_) => r is Err && r->Err_0@ == invalid_login(),
        Ok(user) => match bcrypt_verdict(password, user.password_hash@) {
            Err(why) => r is Err && r->Err_0@ == AppErrorView::InternalServerError(why),
            Ok(false) => r is Err && r->Err_0@ == invalid_login(),
            Ok(true) => r is Ok && is_token_issue(r->Ok_0, user, secret, now),
        },
    }
}

/// What the password check comes to for a user that was found: the user
/// where the password matched, `Unauthorized` where it did not, and the
/// error of the check itself.
pub fn checked_user(user: User, verdict: Result<bool, AppError>) -> (r: Result<User, AppError>)
    ensures
        match verdict {
            Ok(true) => r == Ok::<User, AppError>(user),
            Ok(false) => r is Err && r->Err_0@ == invalid_login(),
            Err(e) => r == Err::<User, AppError>(e),
        },
{
    match verdict {
        Ok(true) => Ok(user),
        Ok(false) => Err(AppError::Unauthorized("Invalid email or password".to_owned())),
        Err(e) => Err(e),
    }
}

/// Checks a login against what the credential store gave for the
/// request's e-mail address.
///
/// A user that was not found and a password that does not match are both
/// refused as `Unauthorized`, with the same message. A hash that cannot be
/// read is an `InternalServerError`.
pub fn verified_user(found: Result<User, AppError>, login_request: &LoginRequest) -> (r: Result<
    User,
    AppError,
>)
    ensures
        is_login_check(r, found, login_request.password@),
{
    match found {
        Ok(user) => {
            let verdict = verify_password(
                login_request.password.as_str(),
                user.password_hash.as_str(),
            );
            checked_user(user, verdict)
        },
        Err(_) => Err(AppError::Unauthorized("Invalid email or password".to_owned())),
    }
}

/// Answers the login of a user whose password was verified at the second
/// `now`: a token for the user that holds for 24 hours.
pub fn issue_token_at(user: &User, secret: &str, now: u64) -> (r: LoginResponse)
    requires
        now + TOKEN_LIFETIME <= u64::MAX,
    ensures
        is_token_issue(r, *user, secret@, now),
{
    let user_claims = Claims::issued_at(user, now);
    LoginResponse { token: user_claims.generate_token(secret) }
}

/// Answers the login of a user whose password was just verified, by the
/// system clock: the answer is that of [`issue_token_at`] at the second
/// that the clock gave.
pub fn issue_token(user: &User, secret: &str) -> (r: LoginResponse)
    ensures
        exists|now: u64| is_token_issue(r, *user, secret@, now),
{
    issue_token_at(user, secret, current_timestamp())
}

/// Decides a login at the second `now`.
///
/// `found` is what the credential store gave for the request's e-mail
/// address. A user that was not found and a password that does not match
/// are both refused as `Unauthorized`, with the same message. A hash that
/// cannot be read is an `InternalServerError`. Every other login succeeds:
/// the answer carries a token for the user that holds for 24 hours.
pub fn verify_login_at(
    found: Result<User, AppError>,
    login_request: LoginRequest,
    secret: &str,
    now: u64,
) -> (r: Result<LoginResponse, AppError>)
    requires
        now + TOKEN_LIFETIME <= u64::MAX,
    ensures
        is_login_outcome(r, found, login_request.password@, secret@, now),
{
    match verified_user(found, &login_request) {
        Ok(user) => Ok(issue_token_at(&user, secret, now)),
        Err(e) => Err(e),
    }
}

/// Decides a login by the system clock: the outcome is that of
/// [`verify_login_at`] at the second that the clock gave. A user that was
/// not found and a password that does not match are refused whatever the
/// clock reads.
pub fn verify_login(found: Result<User, AppError>, login_request: LoginRequest, secret: &str) -> (r:
    Result<LoginResponse, AppError>)
    ensures
        exists|now: u64| is_login_outcome(r, found, login_request.password@, secret@, now),
{
    let now = current_timestamp();
    verify_login_at(found, login_request, secret, now)
}

} // verus!
