use crate::domain::values::EntityId;
use vstd::arithmetic::power::pow;
use vstd::prelude::*;

verus! {

/// The lower-case character that writes the number `value`, which is below
/// sixteen, in hexadecimal.
pub open spec fn hex_char(value: nat) -> char
    recommends
        value < 16,
{
    if value < 10 {
        ('0' as int + value) as char
    } else {
        ('a' as int + value - 10) as char
    }
}

/// The hexadecimal digit of `bits` at `position`, counted from the most
/// significant of its thirty-two.
pub open spec fn hex_digit_at(bits: u128, position: nat) -> nat
    recommends
        position < 32,
{
    ((bits as int / pow(16, (31 - position) as nat)) % 16) as nat
}

/// Which hexadecimal digit stands at place `i` of the written form, where
/// `i` is not the place of a hyphen.
pub open spec fn hex_position(i: int) -> nat {
    if i < 8 {
        i as nat
    } else if i < 13 {
        (i - 1) as nat
    } else if i < 18 {
        (i - 2) as nat
    } else if i < 23 {
        (i - 3) as nat
    } else {
        (i - 4) as nat
    }
}

/// An identifier in its written form: thirty-two lower-case hexadecimal
/// digits, most significant first, in groups of 8, 4, 4, 4 and 12 with a
/// hyphen between them.
pub open spec fn hyphenated_text(bits: u128) -> Seq<char> {
    Seq::new(
        36,
        |i: int|
            if i == 8 || i == 13 || i == 18 || i == 23 {
                '-'
            } else {
                hex_char(hex_digit_at(bits, hex_position(i)))
            },
    )
}

/// Whether `bits` carries the marks of an identifier drawn at random: the
/// version digit 4 and the variant bits `10`.
pub open spec fn is_random_id(bits: u128) -> bool {
    hex_digit_at(bits, 12) == 4 && 8 <= hex_digit_at(bits, 16) <= 11
}

/// The identifier that `uuid::Uuid::parse_str` reads from a text, and `None`
/// for a text that it refuses.
pub uninterp spec fn parsed_uuid(text: Seq<char>) -> Option<u128>;

/// The identifier that a text stands for, if it stands for one.
pub open spec fn parsed_entity_id(text: Seq<char>) -> Option<EntityId> {
    match parsed_uuid(text) {
        Some(bits) => Some(EntityId { bits }),
        None => None,
    }
}

/// Writes an identifier as `uuid::Uuid` displays it: `Uuid::from_u128` keeps
/// the 128 bits, and the display is the hyphenated lower-case form. The
/// parser of the same crate reads every text that the crate writes back to
/// the identifier it was written from.
#[verifier::external_body]
pub(crate) fn entity_id_text(id: EntityId) -> (text: String)
    ensures
        text@ == hyphenated_text(id.bits),
        parsed_uuid(text@) == Some(id.bits),
{
    uuid::Uuid::from_u128(id.bits).to_string()
}

/// Reads an identifier with `uuid::Uuid::parse_str`; `Uuid::as_u128` gives
/// its 128 bits. A text that the parser refuses gives `None`.
#[verifier::external_body]
pub(crate) fn parse_entity_id(text: &str) -> (id: Option<EntityId>)
    ensures
        id == parsed_entity_id(text@),
{
    match uuid::Uuid::parse_str(text) {
        Ok(parsed) => Some(EntityId { bits: parsed.as_u128() }),
        Err(_) => None,
    }
}

/// Draws an identifier with `uuid::Uuid::new_v4`, which takes 128 bits from
/// the operating system's generator and sets the version and variant marks.
/// Two calls need not agree.
#[verifier::external_body]
pub(crate) fn random_entity_id() -> (id: EntityId)
    ensures
        is_random_id(id.bits),
{
    EntityId { bits: uuid::Uuid::new_v4().as_u128() }
}

} // verus!
