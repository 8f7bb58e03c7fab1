use customer_onboarding::application::dto::customer_dto::CustomerResponse;
use customer_onboarding::application::dto::pix_key_dto::PixKeyResponse;
use customer_onboarding::domain::customer::Customer;
use customer_onboarding::domain::enums::AccountType;
use customer_onboarding::domain::pix_key::PixKeyType;
use customer_onboarding::domain::values::{Amount, EntityId, Timestamp};
use customer_onboarding::shared::cnpj::CnpjValidationError;
use customer_onboarding::shared::cpf::CpfValidationError;
use customer_onboarding::shared::email::{EmailValidationError, MAX_EMAIL_LENGTH};
use customer_onboarding::shared::phone::{PhoneValidationError, MAX_PHONE_LENGTH};
use customer_onboarding::shared::text::{
    chars_of, decimal_string, digit_of, digit_str, is_digit_char, is_whitespace_char, keep_digits,
    same_text, scan_digits, starts_with, trim,
};

#[test]
fn account_types_have_their_names() {
    assert_eq!(AccountType::CHECKING.name(), "CHECKING");
    assert_eq!(AccountType::SAVINGS.name(), "SAVINGS");
    assert_eq!(AccountType::PAYMENT.name(), "PAYMENT");
}

#[test]
fn pix_key_types_have_their_names() {
    assert_eq!(PixKeyType::CPF.name(), "CPF");
    assert_eq!(PixKeyType::CNPJ.name(), "CNPJ");
    assert_eq!(PixKeyType::EMAIL.name(), "EMAIL");
    assert_eq!(PixKeyType::PHONE.name(), "PHONE");
    assert_eq!(PixKeyType::RANDOM.name(), "RANDOM");
}

#[test]
fn zero_amount_is_zero() {
    assert_eq!(Amount::zero(), Amount { mantissa: 0, scale: 0 });
}

#[test]
fn customer_response_shows_the_customer() {
    let customer = Customer {
        id: EntityId { bits: 3 },
        full_name: "Carla Dias".to_string(),
        email: "carla@email.com".to_string(),
        cpf: "11144477735".to_string(),
        phone: None,
        is_active: true,
        created_at: Timestamp { micros: 42 },
        updated_at: Timestamp { micros: 43 },
    };
    assert_eq!(
        CustomerResponse::from(customer),
        CustomerResponse {
            id: EntityId { bits: 3 },
            full_name: "Carla Dias".to_string(),
            email: "carla@email.com".to_string(),
            cpf: "11144477735".to_string(),
            is_active: true,
            created_at: Timestamp { micros: 42 },
        }
    );
}

#[test]
fn cpf_errors_have_their_messages() {
    assert_eq!(
        CpfValidationError::InvalidLength(3).message(),
        "CPF deve ter 11 dígitos (recebido 3)"
    );
    assert_eq!(
        CpfValidationError::InvalidLength(0).message(),
        "CPF deve ter 11 dígitos (recebido 0)"
    );
    assert_eq!(
        CpfValidationError::InvalidLength(1234567890).message(),
        "CPF deve ter 11 dígitos (recebido 1234567890)"
    );
    assert_eq!(
        CpfValidationError::NonDigitCharacters.message(),
        "CPF deve conter apenas dígitos"
    );
    assert_eq!(
        CpfValidationError::AllDigitsEqual.message(),
        "CPF não pode ter todos dígitos iguais"
    );
    assert_eq!(
        CpfValidationError::InvalidCheckDigits.message(),
        "Dígitos verificadores inválidos"
    );
}

#[test]
fn cnpj_errors_have_their_messages() {
    assert_eq!(
        CnpjValidationError::InvalidLength(12).message(),
        "CNPJ deve ter 14 dígitos (recebido 12)"
    );
    assert_eq!(
        CnpjValidationError::NonDigitCharacters.message(),
        "CNPJ deve conter apenas dígitos"
    );
    assert_eq!(
        CnpjValidationError::AllDigitsEqual.message(),
        "CNPJ não pode ter todos dígitos iguais"
    );
    assert_eq!(
        CnpjValidationError::InvalidCheckDigits.message(),
        "Dígitos verificadores inválidos"
    );
}

#[test]
fn email_errors_have_their_messages() {
    assert_eq!(
        EmailValidationError::InvalidLength(101).message(),
        "Email must be at most 100 characters (got 101)"
    );
    assert_eq!(
        EmailValidationError::MissingAtSymbol.message(),
        "Email must contain the '@' character"
    );
    assert_eq!(
        EmailValidationError::SpecialCharacters.message(),
        "Email cannot contain special characters"
    );
    assert_eq!(MAX_EMAIL_LENGTH, 100);
}

#[test]
fn phone_errors_have_their_messages() {
    assert_eq!(
        PhoneValidationError::InvalidLength(21).message(),
        "Phone number must be at most 20 characters (got 21)"
    );
    assert_eq!(
        PhoneValidationError::SpecialCharacters.message(),
        "Phone number cannot contain special characters"
    );
    assert_eq!(MAX_PHONE_LENGTH, 20);
}

#[test]
fn decimal_string_writes_numbers() {
    assert_eq!(decimal_string(0), "0");
    assert_eq!(decimal_string(9), "9");
    assert_eq!(decimal_string(10), "10");
    assert_eq!(decimal_string(105), "105");
    assert_eq!(decimal_string(usize::MAX), usize::MAX.to_string());
    assert_eq!(digit_str(7), "7");
}

#[test]
fn digits_are_recognised_and_read() {
    assert!(is_digit_char('0'));
    assert!(is_digit_char('9'));
    assert!(!is_digit_char('a'));
    assert!(!is_digit_char('٣'));
    assert_eq!(digit_of('0'), 0);
    assert_eq!(digit_of('7'), 7);
    assert_eq!(keep_digits("a1b2-3.4/5 ٣"), "12345");
    assert_eq!(keep_digits(""), "");
}

#[test]
fn scan_keeps_digits_and_notes_foreign_characters() {
    let scan = scan_digits("12.345/6-7");
    assert_eq!(scan.digits, vec!['1', '2', '3', '4', '5', '6', '7']);
    assert!(!scan.foreign);
    let scan = scan_digits("12 3");
    assert_eq!(scan.digits, vec!['1', '2', '3']);
    assert!(scan.foreign);
    let scan = scan_digits("");
    assert!(scan.digits.is_empty());
    assert!(!scan.foreign);
}

#[test]
fn trim_drops_white_space_at_both_ends() {
    assert_eq!(trim("  a b  "), "a b");
    assert_eq!(trim("\t\r\na\u{2003}"), "a");
    assert_eq!(trim(""), "");
    assert_eq!(trim(" \u{85}\u{1680}\u{2028}\u{2029}\u{202f}\u{205f} "), "");
    assert_eq!(trim("é "), "é");
    assert_eq!(trim("\u{200b}a"), "\u{200b}a");
    for text in ["  x ", "\u{c}y\u{b}", " \u{a0}z", "a\u{1c}"] {
        assert_eq!(trim(text), text.trim());
    }
    assert!(is_whitespace_char(' '));
    assert!(!is_whitespace_char('a'));
}

#[test]
fn white_space_is_what_the_standard_library_says() {
    for code in 0u32..0x11000 {
        if let Some(c) = char::from_u32(code) {
            assert_eq!(is_whitespace_char(c), c.is_whitespace(), "U+{:04X}", code);
        }
    }
}

#[test]
fn texts_are_compared_by_their_characters() {
    assert!(same_text("abc", "abc"));
    assert!(same_text("", ""));
    assert!(!same_text("abc", "abd"));
    assert!(!same_text("abc", "ab"));
    assert!(!same_text("", "a"));
    assert_eq!(chars_of("añb"), vec!['a', 'ñ', 'b']);
    assert!(starts_with(&chars_of("Bearer x"), "Bearer "));
    assert!(starts_with(&chars_of("abc"), ""));
    assert!(!starts_with(&chars_of("Bear"), "Bearer "));
    assert!(!starts_with(&chars_of("bearer x"), "Bearer "));
}

#[test]
fn locations_name_the_record_by_its_written_identifier() {
    let customer = CustomerResponse {
        id: EntityId {
            bits: 0x550e8400_e29b_41d4_a716_446655440000,
        },
        full_name: String::new(),
        email: String::new(),
        cpf: String::new(),
        is_active: true,
        created_at: Timestamp { micros: 0 },
    };
    assert_eq!(
        customer.location(),
        "/customers/550e8400-e29b-41d4-a716-446655440000"
    );
    let key = PixKeyResponse {
        id: EntityId { bits: 0xABCDEF },
        account_id: EntityId { bits: 1 },
        key_type: PixKeyType::RANDOM,
        key_value: String::new(),
        is_active: true,
        created_at: Timestamp { micros: 0 },
        deactivated_at: None,
    };
    assert_eq!(
        key.location(),
        "/pix-keys/00000000-0000-0000-0000-000000abcdef"
    );
}
