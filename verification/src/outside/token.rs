//! JSON objects from `serde_json` and signed tokens from `jsonwebtoken`.

use vstd::prelude::*;

verus! {

/// `serde_json::Map`, declared so that a value of it can be held and handed
/// on. What it holds is seen through [`json_fields`] only.
#[verifier::external_type_specification]
#[verifier::external_body]
#[verifier::reject_recursive_types(K)]
#[verifier::reject_recursive_types(V)]
pub struct ExJsonMap<K, V>(serde_json::Map<K, V>);

/// `serde_json::Value`, declared because [`JsonObject`] names it. Nothing is
/// known of a value of it.
#[verifier::external_type_specification]
#[verifier::external_body]
pub struct ExJsonValue(serde_json::Value);

/// A JSON object.
pub type JsonObject = serde_json::Map<String, serde_json::Value>;

/// What a member of a JSON object holds, as far as this library reads it:
/// a text, a whole number that fits a `u64`, or something else.
pub enum JsonField {
    Text(Seq<char>),
    Number(u64),
    Other,
}

/// The members of a JSON object, by their keys.
pub uninterp spec fn json_fields(object: serde_json::Map<String, serde_json::Value>) -> Map<
    Seq<char>,
    JsonField,
>;

/// Whether every member is a text or a whole number.
pub open spec fn is_plain(fields: Map<Seq<char>, JsonField>) -> bool {
    forall|key: Seq<char>| fields.contains_key(key) ==> !(#[trigger] fields[key] is Other)
}

/// The token that `jsonwebtoken::encode` writes for a JSON object of texts
/// and whole numbers with the algorithm HS256 and the secret as its key.
///
/// The crate signs with the provider that its features select, here the
/// one of `rust_crypto`; nothing in this library installs another.
pub uninterp spec fn hs256_token(claims: Map<Seq<char>, JsonField>, secret: Seq<char>) -> Seq<char>;

/// The claims that `jsonwebtoken::decode` reads from a token with the
/// algorithm HS256 and the secret as its key, where header, signature and
/// payload are in order and the payload carries no audience. Expiry is not
/// looked at. The provider is the one named at [`hs256_token`].
pub uninterp spec fn hs256_claims(token: Seq<char>, secret: Seq<char>) -> Option<
    Map<Seq<char>, JsonField>,
>;

/// Calls `serde_json::Map::new`: an object without members.
#[verifier::external_body]
pub(crate) fn json_object() -> (r: JsonObject)
    ensures
        (json_fields(r) == Map::<Seq<char>, JsonField>::empty()),
{
    serde_json::Map::new()
}

/// Calls `serde_json::Map::insert` with a `Value::String`: the member
/// `key` now holds the text, the other members are as before.
#[verifier::external_body]
pub(crate) fn json_put_text(object: &mut JsonObject, key: &str, value: &str)
    ensures
        json_fields(*final(object)) == json_fields(*old(object)).insert(
            key@,
            JsonField::Text(value@),
        ),
{
    object.insert(key.to_string(), serde_json::Value::String(value.to_string()));
}

/// Calls `serde_json::Map::insert` with a `Value::Number`: the member
/// `key` now holds the number, the other members are as before.
#[verifier::external_body]
pub(crate) fn json_put_number(object: &mut JsonObject, key: &str, value: u64)
    ensures
        json_fields(*final(object)) == json_fields(*old(object)).insert(
            key@,
            JsonField::Number(value),
        ),
{
    object.insert(key.to_string(), serde_json::Value::from(value));
}

/// Calls `serde_json::Map::get` and `Value::as_str`: the text of the member
/// `key`, where there is such a member and it is a text.
#[verifier::external_body]
pub(crate) fn json_text(object: &JsonObject, key: &str) -> (r: Option<String>)
    ensures
        match r {
            Some(text) => json_fields(*object).contains_key(key@) && json_fields(*object)[key@]
                == JsonField::Text(text@),
            None => !(json_fields(*object).contains_key(key@) && json_fields(
                *object,
            )[key@] is Text),
        },
{
    object.get(key).and_then(|value| value.as_str()).map(|text| text.to_string())
}

/// Calls `serde_json::Map::get` and `Value::as_u64`: the number of the
/// member `key`, where there is such a member and it is a whole number that
/// fits a `u64`.
#[verifier::external_body]
pub(crate) fn json_number(object: &JsonObject, key: &str) -> (r: Option<u64>)
    ensures
        match r {
            Some(number) => json_fields(*object).contains_key(key@) && json_fields(
                *object,
            )[key@] == JsonField::Number(number),
            None => !(json_fields(*object).contains_key(key@) && json_fields(
                *object,
            )[key@] is Number),
        },
{
    object.get(key).and_then(|value| value.as_u64())
}

/// Calls `jsonwebtoken::encode` with a header for HS256 and the secret's
/// bytes as the key. For this algorithm, a secret as the key and an object
/// of texts and whole numbers the crate's source shows no failing path, so
/// the contract claims that there is a token. It names the token,
/// [`hs256_token`] of the members and the secret, and claims that
/// `jsonwebtoken::decode` reads the same members back from it with the
/// same secret, where none of them is called `aud`.
#[verifier::external_body]
pub(crate) fn sign_hs256(claims: &JsonObject, secret: &str) -> (r: Option<String>)
    requires
        is_plain(json_fields(*claims)),
    ensures
        r is Some,
        r->0@ == hs256_token(json_fields(*claims), secret@),
        !json_fields(*claims).contains_key("aud"@) ==> hs256_claims(r->0@, secret@) == Some(
            json_fields(*claims),
        ),
{
    let header = jsonwebtoken::Header::new(jsonwebtoken::Algorithm::HS256);
    let key = jsonwebtoken::EncodingKey::from_secret(secret.as_bytes());
    jsonwebtoken::encode(&header, claims, &key).ok()
}

/// Calls `jsonwebtoken::decode` for HS256 with the secret's bytes as the
/// key. The crate's check of the expiry is switched off and no claim is
/// required, so that the outcome depends on the token and the secret alone
/// and not on the clock: the header must name HS256, the signature must be
/// that of header and payload under the key, and the payload must be a
/// JSON object. The crate's other checks stay as they are by default: a
/// payload that carries an audience is refused, since none is expected.
/// The contract only names the result: it is [`hs256_claims`] of the token
/// and the secret.
#[verifier::external_body]
pub(crate) fn open_hs256(token: &str, secret: &str) -> (r: Option<JsonObject>)
    ensures
        match r {
            Some(claims) => hs256_claims(token@, secret@) == Some(json_fields(claims)),
            None => hs256_claims(token@, secret@) is None,
        },
{
    let mut checks = jsonwebtoken::Validation::new(jsonwebtoken::Algorithm::HS256);
    checks.validate_exp = false;
    checks.required_spec_claims.clear();
    let key = jsonwebtoken::DecodingKey::from_secret(secret.as_bytes());
    jsonwebtoken::decode::<JsonObject>(token, &key, &checks).ok().map(|data| data.claims)
}

} // verus!
