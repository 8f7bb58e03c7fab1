use crate::shared::cpf::all_digits_equal;
use crate::shared::text::{
    all_same, decimal_string, decimal_text, digit_of, digit_value, digits_of, has_foreign_char,
    is_digit, lemma_digits_of_digits, scan_digits, weighted_sum, DigitScan,
};
use vstd::prelude::*;
use vstd::string::StringExecFns;

verus! {

/// Why a value is not a valid CNPJ.
#[derive(Debug, PartialEq, Eq, Structural, Clone, Copy)]
pub enum CnpjValidationError {
    /// The value does not hold exactly fourteen digits; the payload is the
    /// number of digits it does hold.
    InvalidLength(usize),
    /// The value holds a character that is neither a digit nor a separator.
    NonDigitCharacters,
    /// All fourteen digits are the same.
    AllDigitsEqual,
    /// One of the two check digits disagrees with the digits before it.
    InvalidCheckDigits,
}

/// The weights of a CNPJ check digit computed over the first `length`
/// digits: one vector for the first check digit, which covers twelve digits,
/// and one for the second, which covers thirteen.
pub open spec fn cnpj_weights(length: nat) -> Seq<nat> {
    if length == 12 {
        seq![5, 4, 3, 2, 9, 8, 7, 6, 5, 4, 3, 2]
    } else {
        seq![6, 5, 4, 3, 2, 9, 8, 7, 6, 5, 4, 3, 2]
    }
}

/// The check digit that follows the first `length` digits of `digits`:
/// eleven less the remainder of their weighted sum modulo eleven, and zero
/// where that remainder is below two. Where `length` exceeds the weights,
/// the digits beyond them do not count.
pub open spec fn cnpj_verifier(digits: Seq<char>, length: nat) -> nat {
    let weights = cnpj_weights(length);
    let covered = if length <= weights.len() {
        length
    } else {
        weights.len()
    };
    let remainder = weighted_sum(digits, weights.take(covered as int)) % 11;
    if remainder < 2 {
        0
    } else {
        (11 - remainder) as nat
    }
}

/// Whether the thirteenth and fourteenth digits are the check digits of
/// those before them.
pub open spec fn cnpj_check_digits_hold(digits: Seq<char>) -> bool {
    &&& digit_value(digits[12]) == cnpj_verifier(digits, 12)
    &&& digit_value(digits[13]) == cnpj_verifier(digits, 13)
}

/// The verdict on a written CNPJ. The dots, hyphens and slashes that group
/// its digits are passed over; any other character that is not a digit makes
/// the value malformed. Its digits must be fourteen, not all of them the
/// same, and the last two must be the check digits of those before them. A
/// value is refused for the first of these that it fails.
pub open spec fn cnpj_verdict(s: Seq<char>) -> Result<(), CnpjValidationError> {
    let digits = digits_of(s);
    if has_foreign_char(s) {
        Err(CnpjValidationError::NonDigitCharacters)
    } else if digits.len() != 14 {
        Err(CnpjValidationError::InvalidLength(digits.len() as usize))
    } else if all_same(digits) {
        Err(CnpjValidationError::AllDigitsEqual)
    } else if !cnpj_check_digits_hold(digits) {
        Err(CnpjValidationError::InvalidCheckDigits)
    } else {
        Ok(())
    }
}

/// Validates a CNPJ, written with or without the punctuation that groups its
/// digits.
pub fn validate_cnpj(cnpj: &str) -> (verdict: Result<(), CnpjValidationError>)
    ensures
        verdict == cnpj_verdict(cnpj@),
{
    let DigitScan { digits, foreign } = scan_digits(cnpj);
    if foreign {
        return Err(CnpjValidationError::NonDigitCharacters);
    }
    if digits.len() != 14 {
        return Err(CnpjValidationError::InvalidLength(digits.len()));
    }
    if all_digits_equal(digits.as_slice()) {
        return Err(CnpjValidationError::AllDigitsEqual);
    }
    let first_verifier = calculate_verifier(digits.as_slice(), 12);
    let second_verifier = calculate_verifier(digits.as_slice(), 13);
    if digit_of(digits[12]) != first_verifier || digit_of(digits[13]) != second_verifier {
        return Err(CnpjValidationError::InvalidCheckDigits);
    }
    Ok(())
}

/// The check digit that follows the first `length` digits.
pub fn calculate_verifier(digits: &[char], length: usize) -> (verifier: u32)
    requires
        length <= digits@.len(),
        forall|i: int| 0 <= i < length ==> is_digit(#[trigger] digits@[i]),
    ensures
        verifier == cnpj_verifier(digits@, length as nat),
        verifier <= 9,
{
    let weights: Vec<u32> = if length == 12 {
        vec![5, 4, 3, 2, 9, 8, 7, 6, 5, 4, 3, 2]
    } else {
        vec![6, 5, 4, 3, 2, 9, 8, 7, 6, 5, 4, 3, 2]
    };
    let covered: usize = if length <= weights.len() {
        length
    } else {
        weights.len()
    };
    let ghost spec_weights = cnpj_weights(length as nat);
    let mut sum: u32 = 0;
    let mut i: usize = 0;
    while i < covered
        invariant
            i <= covered <= length <= digits@.len(),
            covered <= weights@.len() <= 13,
            spec_weights.len() == weights@.len(),
            forall|j: int| 0 <= j < weights@.len() ==> weights@[j] == #[trigger] spec_weights[j],
            forall|j: int| 0 <= j < weights@.len() ==> #[trigger] weights@[j] <= 9,
            forall|j: int| 0 <= j < length ==> is_digit(#[trigger] digits@[j]),
            sum <= 81 * i,
            sum == weighted_sum(digits@, spec_weights.take(i as int)),
        decreases covered - i,
    {
        let digit: u32 = digit_of(digits[i]);
        let weight: u32 = weights[i];
        proof {
            assert(spec_weights.take(i + 1).drop_last() =~= spec_weights.take(i as int));
            assert(digit * weight <= 81) by (nonlinear_arith)
                requires
                    digit <= 9,
                    weight <= 9,
            ;
        }
        sum = sum + digit * weight;
        i += 1;
    }
    let remainder: u32 = sum % 11;
    if remainder < 2 {
        0
    } else {
        11 - remainder
    }
}

/// What a caller is told about a rejected CNPJ.
pub open spec fn cnpj_error_text(error: CnpjValidationError) -> Seq<char> {
    match error {
        CnpjValidationError::InvalidLength(len) => "CNPJ deve ter 14 dígitos (recebido "@
            + decimal_text(len as nat) + ")"@,
        CnpjValidationError::NonDigitCharacters => "CNPJ deve conter apenas dígitos"@,
        CnpjValidationError::AllDigitsEqual => "CNPJ não pode ter todos dígitos iguais"@,
        CnpjValidationError::InvalidCheckDigits => "Dígitos verificadores inválidos"@,
    }
}

impl CnpjValidationError {
    /// What a caller is told about this error.
    pub fn message(&self) -> (text: String)
        ensures
            text@ == cnpj_error_text(*self),
    {
        match self {
            CnpjValidationError::InvalidLength(len) => {
                let mut text = String::from_str("CNPJ deve ter 14 dígitos (recebido ");
                let count = decimal_string(*len);
                text.append(count.as_str());
                text.append(")");
                text
            },
            CnpjValidationError::NonDigitCharacters => String::from_str(
                "CNPJ deve conter apenas dígitos",
            ),
            CnpjValidationError::AllDigitsEqual => String::from_str(
                "CNPJ não pode ter todos dígitos iguais",
            ),
            CnpjValidationError::InvalidCheckDigits => String::from_str(
                "Dígitos verificadores inválidos",
            ),
        }
    }
}

/// Of a value made of digits alone: it is accepted exactly if it has
/// fourteen digits, not all of them the same, of which the last two are the
/// check digits of those before them; otherwise it is refused for the first
/// of these that it lacks.
pub proof fn law_cnpj_of_digits(s: Seq<char>)
    requires
        forall|i: int| 0 <= i < s.len() ==> is_digit(#[trigger] s[i]),
    ensures
        cnpj_verdict(s) == if s.len() != 14 {
            Err::<(), CnpjValidationError>(CnpjValidationError::InvalidLength(s.len() as usize))
        } else if all_same(s) {
            Err(CnpjValidationError::AllDigitsEqual)
        } else if !cnpj_check_digits_hold(s) {
            Err(CnpjValidationError::InvalidCheckDigits)
        } else {
            Ok(())
        },
{
    lemma_digits_of_digits(s);
}

} // verus!
