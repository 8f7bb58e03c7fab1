use crate::domain::values::{EntityId, Timestamp};
use vstd::prelude::*;
use vstd::string::StringExecFns;

verus! {

/// The kind of value that a PIX key holds.
#[allow(non_camel_case_types)]
#[derive(Debug, Clone, Copy, PartialEq, Eq, Structural, Hash)]
pub enum PixKeyType {
    /// The customer's own CPF.
    CPF,
    /// A CNPJ.
    CNPJ,
    /// The customer's own e-mail address.
    EMAIL,
    /// The customer's own phone number.
    PHONE,
    /// A value that the system draws at random.
    RANDOM,
}

/// The name under which a key type is stored and shown.
pub open spec fn pix_key_type_name(key_type: PixKeyType) -> Seq<char> {
    match key_type {
        PixKeyType::CPF => "CPF"@,
        PixKeyType::CNPJ => "CNPJ"@,
        PixKeyType::EMAIL => "EMAIL"@,
        PixKeyType::PHONE => "PHONE"@,
        PixKeyType::RANDOM => "RANDOM"@,
    }
}

impl PixKeyType {
    /// The name under which this key type is stored and shown.
    pub fn name(&self) -> (text: String)
        ensures
            text@ == pix_key_type_name(*self),
    {
        match self {
            PixKeyType::CPF => String::from_str("CPF"),
            PixKeyType::CNPJ => String::from_str("CNPJ"),
            PixKeyType::EMAIL => String::from_str("EMAIL"),
            PixKeyType::PHONE => String::from_str("PHONE"),
            PixKeyType::RANDOM => String::from_str("RANDOM"),
        }
    }
}

/// A registered PIX key, as the store holds it.
#[derive(Debug, Clone, PartialEq, Eq)]
pub struct PixKey {
    pub id: EntityId,
    pub account_id: EntityId,
    pub key_type: PixKeyType,
    pub key_value: String,
    pub is_active: bool,
    pub created_at: Timestamp,
    pub deactivated_at: Option<Timestamp>,
}

/// What a `PixKey` holds, with its text as a sequence of characters.
pub struct PixKeyView {
    pub id: EntityId,
    pub account_id: EntityId,
    pub key_type: PixKeyType,
    pub key_value: Seq<char>,
    pub is_active: bool,
    pub created_at: Timestamp,
    pub deactivated_at: Option<Timestamp>,
}

impl View for PixKey {
    type V = PixKeyView;

    open spec fn view(&self) -> PixKeyView {
        PixKeyView {
            id: self.id,
            account_id: self.account_id,
            key_type: self.key_type,
            key_value: self.key_value@,
            is_active: self.is_active,
            created_at: self.created_at,
            deactivated_at: self.deactivated_at,
        }
    }
}

} // verus!
