//! Login messages and the claims that a token carries.

use crate::admin::models::{
    lemma_role_name_reads_back, role_name, role_named, User, UserRole,
};
use crate::errors::{AppError, AppErrorView};
use crate::outside::ids::{uuid_reading, uuid_string, uuid_text};
use crate::outside::token::{
    hs256_claims, hs256_token, is_plain, json_object, json_put_number, json_put_text, sign_hs256,
    JsonField,
};
use crate::utils::current_timestamp;
use vstd::prelude::*;

verus! {

/// The request to log in.
pub struct LoginRequest {
    pub email: String,
    pub password: String,
}

/// The answer to a successful login.
pub struct LoginResponse {
    pub token: String,
}

/// What a token asserts: who the user is, which hospital the user belongs
/// to, in which role, and until when the token holds.
#[derive(Clone, Copy, Debug, PartialEq, Eq, Structural)]
pub struct Claims {
    /// The user's identifier.
    pub sub: u128,
    pub hospital_id: u128,
    pub role: UserRole,
    /// The last second, counted from the Unix epoch, at which the token
    /// holds.
    pub exp: u64,
}

/// For how many seconds a token holds from its issue: 24 hours.
pub const TOKEN_LIFETIME: u64 = 86400;

/// The members of the JSON object that carries the claims in a token.
pub open spec fn claims_payload(claims: Claims) -> Map<Seq<char>, JsonField> {
    Map::<Seq<char>, JsonField>::empty().insert(
        "sub"@,
        JsonField::Text(uuid_text(claims.sub)),
    ).insert("hospital_id"@, JsonField::Text(uuid_text(claims.hospital_id))).insert(
        "role"@,
        JsonField::Text(role_name(claims.role)),
    ).insert("exp"@, JsonField::Number(claims.exp))
}

/// The text of the member `key`, where it is a text.
pub open spec fn text_member(fields: Map<Seq<char>, JsonField>, key: Seq<char>) -> Option<
    Seq<char>,
> {
    if fields.contains_key(key) && fields[key] is Text {
        Some(fields[key]->Text_0)
    } else {
        None
    }
}

/// The number of the member `key`, where it is a whole number.
pub open spec fn number_member(fields: Map<Seq<char>, JsonField>, key: Seq<char>) -> Option<u64> {
    if fields.contains_key(key) && fields[key] is Number {
        Some(fields[key]->Number_0)
    } else {
        None
    }
}

/// The identifier in the member `key`, where it is the text of one.
pub open spec fn id_member(fields: Map<Seq<char>, JsonField>, key: Seq<char>) -> Option<u128> {
    match text_member(fields, key) {
        Some(text) => match uuid_reading(text) {
            Ok(id) => Some(id),
            Err(_) => None,
        },
        None => None,
    }
}

/// The claims that four members make up, where all are there and the role
/// is the name of one.
pub open spec fn claims_of_parts(
    sub: Option<u128>,
    hospital_id: Option<u128>,
    role: Option<Seq<char>>,
    exp: Option<u64>,
) -> Option<Claims> {
    match (sub, hospital_id, role, exp) {
        (Some(sub), Some(hospital_id), Some(role), Some(exp)) => match role_named(role) {
            Some(role) => Some(Claims { sub, hospital_id, role, exp }),
            None => None,
        },
        _ => None,
    }
}

/// What is made of the claims read from a token at the second `now`: the
/// claims where they were read and have not expired, else `Unauthorized`.
pub open spec fn accepted_at(read: Option<Claims>, now: u64) -> Result<Claims, AppErrorView> {
    match read {
        Some(claims) if claims.exp >= now => Ok(claims),
        _ => Err(AppErrorView::Unauthorized("Invalid or expired token"@)),
    }
}

/// The claims that the members of a token's payload make up, where all four
/// are there and well formed. Other members are ignored.
pub open spec fn claims_read(fields: Map<Seq<char>, JsonField>) -> Option<Claims> {
    claims_of_parts(
        id_member(fields, "sub"@),
        id_member(fields, "hospital_id"@),
        text_member(fields, "role"@),
        number_member(fields, "exp"@),
    )
}

/// What validating a bearer token at the second `now` gives: the claims of
/// a token that is present, signed with the secret, well formed and not
/// expired, and `Unauthorized` for every other.
pub open spec fn validated(token: Option<Seq<char>>, secret: Seq<char>, now: u64) -> Result<
    Claims,
    AppErrorView,
> {
    match token {
        None => Err(AppErrorView::Unauthorized("Missing authorization header"@)),
        Some(token) => match hs256_claims(token, secret) {
            None => accepted_at(None, now),
            Some(fields) => accepted_at(claims_read(fields), now),
        },
    }
}

/// Whether `r` is the outcome that `model` describes.
pub open spec fn is_validation(
    r: Result<Claims, AppError>,
    model: Result<Claims, AppErrorView>,
) -> bool {
    match r {
        Ok(claims) => model == Ok::<Claims, AppErrorView>(claims),
        Err(e) => model == Err::<Claims, AppErrorView>(e@),
    }
}

/// The claims read from the payload that carries them are those claims,
/// where the identifiers read back from their texts.
proof fn lemma_payload_reads_back(claims: Claims)
    requires
        (uuid_reading(uuid_text(claims.sub)) == Ok::<u128, Seq<char>>(claims.sub)),
        (uuid_reading(uuid_text(claims.hospital_id)) == Ok::<u128, Seq<char>>(claims.hospital_id)),
    ensures
        claims_read(claims_payload(claims)) == Some(claims),
        is_plain(claims_payload(claims)),
        !claims_payload(claims).contains_key("aud"@),
{
    reveal_strlit("aud");
    reveal_strlit("sub");
    reveal_strlit("hospital_id");
    reveal_strlit("role");
    reveal_strlit("exp");
    assert("sub"@.len() == 3 && "exp"@.len() == 3 && "role"@.len() == 4 && "hospital_id"@.len()
        == 11);
    assert("sub"@[0] != "exp"@[0]);
    assert("aud"@.len() == 3 && "aud"@[0] != "sub"@[0] && "aud"@[0] != "exp"@[0]);
    lemma_role_name_reads_back(claims.role);
}

impl Claims {
    /// The claims for a user whose login was verified at the second `now`:
    /// the user's identifier, hospital and role, holding for 24 hours.
    pub fn issued_at(user: &User, now: u64) -> (r: Claims)
        requires
            now + TOKEN_LIFETIME <= u64::MAX,
        ensures
            r == (Claims {
                sub: user.id,
                hospital_id: user.hospital_id,
                role: user.role,
                exp: (now + TOKEN_LIFETIME) as u64,
            }),
            r.exp > now,
    {
        Claims {
            sub: user.id,
            hospital_id: user.hospital_id,
            role: user.role,
            exp: now + TOKEN_LIFETIME,
        }
    }

    /// The claims for a user whose login was just verified: the user's
    /// identifier, hospital and role, holding for 24 hours from now by the
    /// system clock.
    pub fn new(user: User) -> (r: Claims)
        ensures
            r.sub == user.id,
            r.hospital_id == user.hospital_id,
            r.role == user.role,
            r.exp >= TOKEN_LIFETIME,
    {
        let now = current_timestamp();
        Claims::issued_at(&user, now)
    }

    /// Writes the claims into a token signed with `secret`.
    ///
    /// The token carries the four claims as a JSON object and depends on
    /// the claims and the secret alone. Validated with the same secret at
    /// any second up to its expiry, it gives these claims back.
    pub fn generate_token(&self, secret: &str) -> (token: String)
        ensures
            token@ == hs256_token(claims_payload(*self), secret@),
            forall|now: u64|
                now <= self.exp ==> #[trigger] validated(Some(token@), secret@, now) == Ok::<
                    Claims,
                    AppErrorView,
                >(*self),
    {
        let mut payload = json_object();
        let sub = uuid_string(self.sub);
        let hospital_id = uuid_string(self.hospital_id);
        json_put_text(&mut payload, "sub", sub.as_str());
        json_put_text(&mut payload, "hospital_id", hospital_id.as_str());
        json_put_text(&mut payload, "role", self.role.as_str());
        json_put_number(&mut payload, "exp", self.exp);
        proof {
            lemma_payload_reads_back(*self);
        }
        sign_hs256(&payload, secret).unwrap()
    }
}

} // verus!
