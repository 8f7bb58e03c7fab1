use customer_onboarding::shared::phone::{validate_phone, PhoneValidationError};

#[test]
fn test_valid_phone() {
    assert_eq!(validate_phone("+55 11 91234-5678"), Ok(()));
    assert_eq!(validate_phone("(11)91234-5678"), Ok(()));
    assert_eq!(validate_phone("11912345678"), Ok(()));
}

#[test]
fn phone_test_invalid_length() {
    let long_phone = format!("+55 {}", "1".repeat(20));
    assert_eq!(
        validate_phone(&long_phone),
        Err(PhoneValidationError::InvalidLength(long_phone.len()))
    );
}

#[test]
fn phone_test_special_characters() {
    assert_eq!(
        validate_phone("11@91234-5678"),
        Err(PhoneValidationError::SpecialCharacters)
    );
    assert_eq!(
        validate_phone("11#91234-5678"),
        Err(PhoneValidationError::SpecialCharacters)
    );
    assert_eq!(
        validate_phone("11$91234-5678"),
        Err(PhoneValidationError::SpecialCharacters)
    );
}

#[test]
fn phone_checks_come_in_order() {
    assert_eq!(validate_phone(""), Ok(()));
    assert_eq!(validate_phone("12345678901234567890"), Ok(()));
    assert_eq!(
        validate_phone("123456789012345678901"),
        Err(PhoneValidationError::InvalidLength(21))
    );
    assert_eq!(
        validate_phone("abc abc abc abc abc abc"),
        Err(PhoneValidationError::InvalidLength(23))
    );
    assert_eq!(
        validate_phone("11.91234"),
        Err(PhoneValidationError::SpecialCharacters)
    );
}
