use crate::shared::text::{
    all_same, decimal_string, decimal_text, digit_of, digit_value, digits_of, has_foreign_char,
    is_digit, lemma_digits_of_digits, scan_digits, weighted_sum, DigitScan,
};
use vstd::arithmetic::div_mod::{lemma_add_mod_noop, lemma_mul_mod_noop_right};
use vstd::prelude::*;
use vstd::string::StringExecFns;

verus! {

/// Why a value is not a valid CPF.
#[derive(Debug, PartialEq, Eq, Structural, Clone, Copy)]
pub enum CpfValidationError {
    /// The value does not hold exactly eleven digits; the payload is the
    /// number of digits it does hold.
    InvalidLength(usize),
    /// The value holds a character that is neither a digit nor a separator.
    NonDigitCharacters,
    /// All eleven digits are the same.
    AllDigitsEqual,
    /// One of the two check digits disagrees with the digits before it.
    InvalidCheckDigits,
}

/// The weights of a CPF check digit computed over the first `length` digits:
/// `length + 1` for the first digit, down to 2 for the last.
pub open spec fn cpf_weights(length: nat) -> Seq<nat> {
    Seq::new(length, |i: int| (length + 1 - i) as nat)
}

/// The check digit that follows the first `length` digits of `digits`: ten
/// times their weighted sum, modulo eleven, with ten written as zero.
pub open spec fn cpf_verifier(digits: Seq<char>, length: nat) -> nat {
    let raw = (weighted_sum(digits, cpf_weights(length)) * 10) % 11;
    if raw == 10 {
        0
    } else {
        raw
    }
}

/// Whether the tenth and eleventh digits are the check digits of those
/// before them.
pub open spec fn cpf_check_digits_hold(digits: Seq<char>) -> bool {
    &&& digit_value(digits[9]) == cpf_verifier(digits, 9)
    &&& digit_value(digits[10]) == cpf_verifier(digits, 10)
}

/// The verdict on a written CPF. The dots, hyphens and slashes that group
/// its digits are passed over; any other character that is not a digit makes
/// the value malformed. Its digits must be eleven, not all of them the same,
/// and the last two must be the check digits of those before them. A value
/// is refused for the first of these that it fails.
pub open spec fn cpf_verdict(s: Seq<char>) -> Result<(), CpfValidationError> {
    let digits = digits_of(s);
    if has_foreign_char(s) {
        Err(CpfValidationError::NonDigitCharacters)
    } else if digits.len() != 11 {
        Err(CpfValidationError::InvalidLength(digits.len() as usize))
    } else if all_same(digits) {
        Err(CpfValidationError::AllDigitsEqual)
    } else if !cpf_check_digits_hold(digits) {
        Err(CpfValidationError::InvalidCheckDigits)
    } else {
        Ok(())
    }
}

/// Validates a CPF, written with or without the punctuation that groups its
/// digits.
pub fn validate_cpf(cpf: &str) -> (verdict: Result<(), CpfValidationError>)
    ensures
        verdict == cpf_verdict(cpf@),
{
    let DigitScan { digits, foreign } = scan_digits(cpf);
    if foreign {
        return Err(CpfValidationError::NonDigitCharacters);
    }
    if digits.len() != 11 {
        return Err(CpfValidationError::InvalidLength(digits.len()));
    }
    if all_digits_equal(digits.as_slice()) {
        return Err(CpfValidationError::AllDigitsEqual);
    }
    let first_verifier = calculate_verifier(digits.as_slice(), 9);
    if digit_of(digits[9]) != first_verifier {
        return Err(CpfValidationError::InvalidCheckDigits);
    }
    let second_verifier = calculate_verifier(digits.as_slice(), 10);
    if digit_of(digits[10]) != second_verifier {
        return Err(CpfValidationError::InvalidCheckDigits);
    }
    Ok(())
}

/// Whether every digit equals the first one.
pub fn all_digits_equal(digits: &[char]) -> (same: bool)
    ensures
        same == all_same(digits@),
{
    let mut i: usize = 0;
    while i < digits.len()
        invariant
            i <= digits.len(),
            forall|j: int| 0 <= j < i ==> #[trigger] digits@[j] == digits@[0],
        decreases digits.len() - i,
    {
        if digits[i] != digits[0] {
            return false;
        }
        i += 1;
    }
    true
}

/// The check digit that follows the first `length` digits.
pub fn calculate_verifier(digits: &[char], length: usize) -> (verifier: u32)
    requires
        length <= digits@.len(),
        forall|i: int| 0 <= i < length ==> is_digit(#[trigger] digits@[i]),
    ensures
        verifier == cpf_verifier(digits@, length as nat),
        verifier <= 9,
{
    let ghost weights = cpf_weights(length as nat);
    let mut sum: u32 = 0;
    let mut i: usize = 0;
    while i < length
        invariant
            i <= length <= digits@.len(),
            weights == cpf_weights(length as nat),
            forall|j: int| 0 <= j < length ==> is_digit(#[trigger] digits@[j]),
            sum < 11,
            sum == weighted_sum(digits@, weights.take(i as int)) % 11,
        decreases length - i,
    {
        let digit: u32 = digit_of(digits[i]);
        let weight: u32 = (((length - i) % 11) as u32 + 1) % 11;
        proof {
            let total = weighted_sum(digits@, weights.take(i as int));
            let full = weights[i as int];
            assert(weights.take(i + 1).drop_last() =~= weights.take(i as int));
            assert(weight == full % 11);
            assert(digit * weight <= 90) by (nonlinear_arith)
                requires
                    digit <= 9,
                    weight <= 10,
            ;
            lemma_mul_mod_noop_right(digit as int, full as int, 11);
            lemma_add_mod_noop(total as int, (digit * full) as int, 11);
            lemma_add_mod_noop((total % 11) as int, (digit * weight) as int, 11);
        }
        sum = (sum + digit * weight) % 11;
        i += 1;
    }
    proof {
        assert(weights.take(length as int) =~= weights);
        let total = weighted_sum(digits@, weights);
        lemma_mul_mod_noop_right(10, total as int, 11);
    }
    let raw: u32 = (sum * 10) % 11;
    if raw == 10 {
        0
    } else {
        raw
    }
}

/// What a caller is told about a rejected CPF.
pub open spec fn cpf_error_text(error: CpfValidationError) -> Seq<char> {
    match error {
        CpfValidationError::InvalidLength(len) => "CPF deve ter 11 dígitos (recebido "@
            + decimal_text(len as nat) + ")"@,
        CpfValidationError::NonDigitCharacters => "CPF deve conter apenas dígitos"@,
        CpfValidationError::AllDigitsEqual => "CPF não pode ter todos dígitos iguais"@,
        CpfValidationError::InvalidCheckDigits => "Dígitos verificadores inválidos"@,
    }
}

impl CpfValidationError {
    /// What a caller is told about this error.
    pub fn message(&self) -> (text: String)
        ensures
            text@ == cpf_error_text(*self),
    {
        match self {
            CpfValidationError::InvalidLength(len) => {
                let mut text = String::from_str("CPF deve ter 11 dígitos (recebido ");
                let count = decimal_string(*len);
                text.append(count.as_str());
                text.append(")");
                text
            },
            CpfValidationError::NonDigitCharacters => String::from_str(
                "CPF deve conter apenas dígitos",
            ),
            CpfValidationError::AllDigitsEqual => String::from_str(
                "CPF não pode ter todos dígitos iguais",
            ),
            CpfValidationError::InvalidCheckDigits => String::from_str(
                "Dígitos verificadores inválidos",
            ),
        }
    }
}

/// Of a value made of digits alone: it is accepted exactly if it has eleven
/// digits, not all of them the same, of which the last two are the check
/// digits of those before them; otherwise it is refused for the first of
/// these that it lacks.
pub proof fn law_cpf_of_digits(s: Seq<char>)
    requires
        forall|i: int| 0 <= i < s.len() ==> is_digit(#[trigger] s[i]),
    ensures
        cpf_verdict(s) == if s.len() != 11 {
            Err::<(), CpfValidationError>(CpfValidationError::InvalidLength(s.len() as usize))
        } else if all_same(s) {
            Err(CpfValidationError::AllDigitsEqual)
        } else if !cpf_check_digits_hold(s) {
            Err(CpfValidationError::InvalidCheckDigits)
        } else {
            Ok(())
        },
{
    lemma_digits_of_digits(s);
}

/// A value is accepted exactly if nothing but digits and separators stands
/// in it and its digits are eleven, not all the same, with the last two the
/// check digits of those before them; and each reason for refusing a value
/// is given exactly where it is the first that applies.
pub proof fn law_cpf_verdict(s: Seq<char>)
    ensures
        cpf_verdict(s) is Ok <==> !has_foreign_char(s) && digits_of(s).len() == 11 && !all_same(
            digits_of(s),
        ) && cpf_check_digits_hold(digits_of(s)),
        cpf_verdict(s) == Err::<(), CpfValidationError>(CpfValidationError::NonDigitCharacters)
            <==> has_foreign_char(s),
        cpf_verdict(s) is Err && cpf_verdict(s)->Err_0 is InvalidLength <==> !has_foreign_char(s)
            && digits_of(s).len() != 11,
        cpf_verdict(s) == Err::<(), CpfValidationError>(CpfValidationError::AllDigitsEqual)
            <==> !has_foreign_char(s) && digits_of(s).len() == 11 && all_same(digits_of(s)),
        cpf_verdict(s) == Err::<(), CpfValidationError>(CpfValidationError::InvalidCheckDigits)
            <==> !has_foreign_char(s) && digits_of(s).len() == 11 && !all_same(digits_of(s))
            && !cpf_check_digits_hold(digits_of(s)),
{
}

/// The weights of the two check digits, written out: ten down to two for
/// the first, eleven down to two for the second.
pub proof fn law_cpf_weights()
    ensures
        cpf_weights(9) == seq![10nat, 9, 8, 7, 6, 5, 4, 3, 2],
        cpf_weights(10) == seq![11nat, 10, 9, 8, 7, 6, 5, 4, 3, 2],
{
}

} // verus!
