use customer_onboarding::shared::email::{validate_email, EmailValidationError};

#[test]
fn test_valid_email() {
    assert_eq!(validate_email("usuario@email.com"), Ok(()));
    assert_eq!(validate_email("nome.sobrenome-123@email.com"), Ok(()));
    assert_eq!(validate_email("a@b.co"), Ok(()));
}

#[test]
fn email_test_invalid_length() {
    let long_email = format!("{}@email.com", "a".repeat(95));
    assert_eq!(
        validate_email(&long_email),
        Err(EmailValidationError::InvalidLength(long_email.len()))
    );
}

#[test]
fn test_missing_at_symbol() {
    assert_eq!(
        validate_email("usuarioemail.com"),
        Err(EmailValidationError::MissingAtSymbol)
    );
}

#[test]
fn email_test_special_characters() {
    assert_eq!(
        validate_email("user!@email.com"),
        Err(EmailValidationError::SpecialCharacters)
    );
    assert_eq!(
        validate_email("user#email@email.com"),
        Err(EmailValidationError::SpecialCharacters)
    );
    assert_eq!(
        validate_email("user$email@email.com"),
        Err(EmailValidationError::SpecialCharacters)
    );
}

#[test]
fn email_length_is_counted_in_characters() {
    let at_limit = format!("{}@email.com", "a".repeat(90));
    assert_eq!(at_limit.chars().count(), 100);
    assert_eq!(validate_email(&at_limit), Ok(()));
    let over = format!("{}@email.com", "a".repeat(91));
    assert_eq!(
        validate_email(&over),
        Err(EmailValidationError::InvalidLength(101))
    );
    let accented = format!("{}@email.com", "é".repeat(60));
    assert_eq!(
        validate_email(&accented),
        Err(EmailValidationError::SpecialCharacters)
    );
}

#[test]
fn email_checks_come_in_order() {
    assert_eq!(validate_email(""), Err(EmailValidationError::MissingAtSymbol));
    assert_eq!(
        validate_email("user!email.com"),
        Err(EmailValidationError::MissingAtSymbol)
    );
    let long_without_at = "a!".repeat(60);
    assert_eq!(
        validate_email(&long_without_at),
        Err(EmailValidationError::InvalidLength(120))
    );
    assert_eq!(validate_email("@"), Ok(()));
    assert_eq!(validate_email("A_b-c.D9@x"), Ok(()));
    assert_eq!(
        validate_email("a b@x.com"),
        Err(EmailValidationError::SpecialCharacters)
    );
}
