use crate::domain::values::{optional_text, EntityId, Timestamp};
use vstd::prelude::*;

verus! {

/// A customer, as the store holds it.
#[derive(Debug, Clone, PartialEq, Eq)]
pub struct Customer {
    pub id: EntityId,
    pub full_name: String,
    pub email: String,
    /// The customer's CPF, digits only.
    pub cpf: String,
    pub phone: Option<String>,
    pub is_active: bool,
    pub created_at: Timestamp,
    pub updated_at: Timestamp,
}

/// What a `Customer` holds, with its text as sequences of characters.
pub struct CustomerView {
    pub id: EntityId,
    pub full_name: Seq<char>,
    pub email: Seq<char>,
    pub cpf: Seq<char>,
    pub phone: Option<Seq<char>>,
    pub is_active: bool,
    pub created_at: Timestamp,
    pub updated_at: Timestamp,
}

impl View for Customer {
    type V = CustomerView;

    open spec fn view(&self) -> CustomerView {
        CustomerView {
            id: self.id,
            full_name: self.full_name@,
            email: self.email@,
            cpf: self.cpf@,
            phone: optional_text(self.phone),
            is_active: self.is_active,
            created_at: self.created_at,
            updated_at: self.updated_at,
        }
    }
}

} // verus!
