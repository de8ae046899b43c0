//! Identifiers, from `uuid`. The library holds an identifier as the `u128`
//! of its sixteen bytes, most significant byte first.

use vstd::prelude::*;

verus! {

/// What `uuid::Uuid::parse_str` makes of a text: the identifier it denotes,
/// or the message of the parse error.
pub uninterp spec fn uuid_reading(text: Seq<char>) -> Result<u128, Seq<char>>;

/// The text `uuid` displays for an identifier: 32 lower-case hexadecimal
/// digits in five groups, with hyphens between.
pub uninterp spec fn uuid_text(id: u128) -> Seq<char>;

/// Calls `uuid::Uuid::parse_str` and takes the identifier by `as_u128`, or
/// the error by its message. The contract only names the result: it is
/// [`uuid_reading`] of the text.
#[verifier::external_body]
pub(crate) fn parse_uuid(text: &str) -> (r: Result<u128, String>)
    ensures
        match r {
            Ok(id) => uuid_reading(text@) == Ok::<u128, Seq<char>>(id),
            Err(message) => uuid_reading(text@) == Err::<u128, Seq<char>>(message@),
        },
{
    match uuid::Uuid::parse_str(text) {
        Ok(id) => Ok(id.as_u128()),
        Err(e) => Err(e.to_string()),
    }
}

/// Displays `uuid::Uuid::from_u128(id)`. The contract names the result,
/// [`uuid_text`] of the identifier, and claims that `parse_str` reads that
/// text back as the same identifier: it accepts every format that the crate
/// writes.
#[verifier::external_body]
pub(crate) fn uuid_string(id: u128) -> (r: String)
    ensures
        r@ == uuid_text(id),
        (uuid_reading(r@) == Ok::<u128, Seq<char>>(id)),
{
    uuid::Uuid::from_u128(id).to_string()
}

/// Calls `uuid::Uuid::new_v4`: a fresh random identifier. Nothing is
/// claimed of the value.
#[verifier::external_body]
pub(crate) fn random_uuid() -> (r: u128) {
    uuid::Uuid::new_v4().as_u128()
}

} // verus!
