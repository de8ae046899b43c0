//! Two functions of the standard library that come without a verified
//! specification.

use vstd::prelude::*;

verus! {

/// The number that a text of decimal digits denotes.
pub open spec fn decimal_value(digits: Seq<char>) -> nat
    decreases digits.len(),
{
    if digits.len() == 0 {
        0
    } else {
        decimal_value(digits.drop_last()) * 10 + (digits.last() as nat - '0' as nat) as nat
    }
}

/// Whether a text is made of decimal digits, at least one.
pub open spec fn is_digits(text: Seq<char>) -> bool {
    text.len() > 0 && forall|i: int| 0 <= i < text.len() ==> '0' <= #[trigger] text[i] <= '9'
}

/// The `u16` that a text denotes: an optional `+`, then decimal digits
/// only, of a number up to 65535.
pub open spec fn u16_reading(text: Seq<char>) -> Option<u16> {
    let digits = if text.len() > 0 && text[0] == '+' {
        text.skip(1)
    } else {
        text
    };
    if is_digits(digits) && decimal_value(digits) <= u16::MAX {
        Some(decimal_value(digits) as u16)
    } else {
        None
    }
}

/// The message of the error that `str::parse::<u16>` gives for a text that
/// denotes no `u16`.
pub uninterp spec fn u16_parse_error(text: Seq<char>) -> Seq<char>;

/// Calls `String::push`: the character is appended.
#[verifier::external_body]
pub(crate) fn push_char(text: &mut String, c: char)
    ensures
        final(text)@ == old(text)@.push(c),
{
    text.push(c);
}

/// Calls `str::parse::<u16>`. As the standard library documents it, the
/// text must be an optional `+` sign followed by decimal digits only, and
/// the number must fit. A failure is handed out by the error's message,
/// which the contract only names.
#[verifier::external_body]
pub(crate) fn parse_u16(text: &str) -> (r: Result<u16, String>)
    ensures
        match r {
            Ok(number) => u16_reading(text@) == Some(number),
            Err(message) => u16_reading(text@) is None && message@ == u16_parse_error(text@),
        },
{
    match text.parse::<u16>() {
        Ok(number) => Ok(number),
        Err(e) => Err(e.to_string()),
    }
}

} // verus!
