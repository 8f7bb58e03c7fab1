use crate::shared::text::{chars_of, decimal_string, decimal_text, is_digit};
use vstd::prelude::*;
use vstd::string::StringExecFns;

verus! {

/// Why a value is not accepted as a phone number.
#[derive(Debug, PartialEq, Eq, Structural, Clone, Copy)]
pub enum PhoneValidationError {
    /// The value is longer than `MAX_PHONE_LENGTH` characters; the payload is
    /// its length.
    InvalidLength(usize),
    /// The value holds a character outside the accepted set.
    SpecialCharacters,
}

/// The longest phone number that is accepted, in characters.
pub const MAX_PHONE_LENGTH: usize = 20;

/// Whether `c` may occur in a phone number.
pub open spec fn is_phone_char(c: char) -> bool {
    is_digit(c) || c == '+' || c == '-' || c == '(' || c == ')' || c == ' '
}

/// The verdict on a phone number: it must have at most `MAX_PHONE_LENGTH`
/// characters and hold nothing but digits, `+`, `-`, parentheses and
/// spaces. A value is refused for the first of these that it fails.
pub open spec fn phone_verdict(s: Seq<char>) -> Result<(), PhoneValidationError> {
    if s.len() > MAX_PHONE_LENGTH {
        Err(PhoneValidationError::InvalidLength(s.len() as usize))
    } else if exists|i: int| 0 <= i < s.len() && !is_phone_char(#[trigger] s[i]) {
        Err(PhoneValidationError::SpecialCharacters)
    } else {
        Ok(())
    }
}

/// Whether `c` may occur in a phone number.
pub fn phone_char_allowed(c: char) -> (allowed: bool)
    ensures
        allowed == is_phone_char(c),
{
    ('0' <= c && c <= '9') || c == '+' || c == '-' || c == '(' || c == ')' || c == ' '
}

/// Validates a phone number.
pub fn validate_phone(phone: &str) -> (verdict: Result<(), PhoneValidationError>)
    ensures
        verdict == phone_verdict(phone@),
{
    let chars = chars_of(phone);
    if chars.len() > MAX_PHONE_LENGTH {
        return Err(PhoneValidationError::InvalidLength(chars.len()));
    }
    let mut i: usize = 0;
    while i < chars.len()
        invariant
            i <= chars.len(),
            chars@ == phone@,
            chars@.len() <= MAX_PHONE_LENGTH,
            forall|j: int| 0 <= j < i ==> is_phone_char(#[trigger] chars@[j]),
        decreases chars.len() - i,
    {
        if !phone_char_allowed(chars[i]) {
            return Err(PhoneValidationError::SpecialCharacters);
        }
        i += 1;
    }
    Ok(())
}

/// What a caller is told about a rejected phone number.
pub open spec fn phone_error_text(error: PhoneValidationError) -> Seq<char> {
    match error {
        PhoneValidationError::InvalidLength(len) =>
            "Phone number must be at most 20 characters (got "@ + decimal_text(len as nat)
                + ")"@,
        PhoneValidationError::SpecialCharacters =>
            "Phone number cannot contain special characters"@,
    }
}

impl PhoneValidationError {
    /// What a caller is told about this error.
    pub fn message(&self) -> (text: String)
        ensures
            text@ == phone_error_text(*self),
    {
        match self {
            PhoneValidationError::InvalidLength(len) => {
                let mut text = String::from_str(
                    "Phone number must be at most 20 characters (got ",
                );
                let count = decimal_string(*len);
                text.append(count.as_str());
                text.append(")");
                text
            },
            PhoneValidationError::SpecialCharacters => String::from_str(
                "Phone number cannot contain special characters",
            ),
        }
    }
}

} // verus!
