use crate::shared::text::{chars_of, decimal_string, decimal_text, is_digit};
use vstd::prelude::*;
use vstd::string::StringExecFns;

verus! {

/// Why a value is not accepted as an e-mail address.
#[derive(Debug, PartialEq, Eq, Structural, Clone, Copy)]
pub enum EmailValidationError {
    /// The value is longer than `MAX_EMAIL_LENGTH` characters; the payload is
    /// its length.
    InvalidLength(usize),
    /// The value holds no `@`.
    MissingAtSymbol,
    /// The value holds a character outside the accepted set.
    SpecialCharacters,
}

/// The longest e-mail address that is accepted, in characters.
pub const MAX_EMAIL_LENGTH: usize = 100;

/// Whether `c` is an ASCII letter or digit.
pub open spec fn is_ascii_alphanumeric(c: char) -> bool {
    ('a' <= c && c <= 'z') || ('A' <= c && c <= 'Z') || is_digit(c)
}

/// Whether `c` may occur in an e-mail address.
pub open spec fn is_email_char(c: char) -> bool {
    is_ascii_alphanumeric(c) || c == '.' || c == '_' || c == '-' || c == '@'
}

/// The verdict on an e-mail address: it must have at most
/// `MAX_EMAIL_LENGTH` characters, hold an `@`, and hold nothing but ASCII
/// letters, digits, `.`, `_`, `-` and `@`. A value is refused for the first
/// of these that it fails.
pub open spec fn email_verdict(s: Seq<char>) -> Result<(), EmailValidationError> {
    if s.len() > MAX_EMAIL_LENGTH {
        Err(EmailValidationError::InvalidLength(s.len() as usize))
    } else if !s.contains('@') {
        Err(EmailValidationError::MissingAtSymbol)
    } else if exists|i: int| 0 <= i < s.len() && !is_email_char(#[trigger] s[i]) {
        Err(EmailValidationError::SpecialCharacters)
    } else {
        Ok(())
    }
}

/// Whether `c` may occur in an e-mail address.
pub fn email_char_allowed(c: char) -> (allowed: bool)
    ensures
        allowed == is_email_char(c),
{
    ('a' <= c && c <= 'z') || ('A' <= c && c <= 'Z') || ('0' <= c && c <= '9') || c == '.' || c
        == '_' || c == '-' || c == '@'
}

/// Validates an e-mail address.
pub fn validate_email(email: &str) -> (verdict: Result<(), EmailValidationError>)
    ensures
        verdict == email_verdict(email@),
{
    let chars = chars_of(email);
    if chars.len() > MAX_EMAIL_LENGTH {
        return Err(EmailValidationError::InvalidLength(chars.len()));
    }
    let mut has_at = false;
    let mut all_allowed = true;
    let mut i: usize = 0;
    while i < chars.len()
        invariant
            i <= chars.len(),
            has_at == chars@.take(i as int).contains('@'),
            all_allowed == (forall|j: int| 0 <= j < i ==> is_email_char(#[trigger] chars@[j])),
        decreases chars.len() - i,
    {
        let c = chars[i];
        proof {
            let before = chars@.take(i as int);
            let after = chars@.take(i + 1);
            assert(after =~= before.push(c));
            if before.contains('@') {
                let k = choose|k: int| 0 <= k < before.len() && before[k] == '@';
                assert(after[k] == '@');
            }
            if c == '@' {
                assert(after[i as int] == '@');
            }
        }
        if c == '@' {
            has_at = true;
        }
        if !email_char_allowed(c) {
            all_allowed = false;
        }
        i += 1;
    }
    proof {
        assert(chars@.take(chars@.len() as int) =~= chars@);
    }
    if !has_at {
        return Err(EmailValidationError::MissingAtSymbol);
    }
    if !all_allowed {
        return Err(EmailValidationError::SpecialCharacters);
    }
    Ok(())
}

/// What a caller is told about a rejected e-mail address.
pub open spec fn email_error_text(error: EmailValidationError) -> Seq<char> {
    match error {
        EmailValidationError::InvalidLength(len) => "Email must be at most 100 characters (got "@
            + decimal_text(len as nat) + ")"@,
        EmailValidationError::MissingAtSymbol => "Email must contain the '@' character"@,
        EmailValidationError::SpecialCharacters => "Email cannot contain special characters"@,
    }
}

impl EmailValidationError {
    /// What a caller is told about this error.
    pub fn message(&self) -> (text: String)
        ensures
            text@ == email_error_text(*self),
    {
        match self {
            EmailValidationError::InvalidLength(len) => {
                let mut text = String::from_str("Email must be at most 100 characters (got ");
                let count = decimal_string(*len);
                text.append(count.as_str());
                text.append(")");
                text
            },
            EmailValidationError::MissingAtSymbol => String::from_str(
                "Email must contain the '@' character",
            ),
            EmailValidationError::SpecialCharacters => String::from_str(
                "Email cannot contain special characters",
            ),
        }
    }
}

} // verus!
