use crate::domain::customer::Customer;
use crate::domain::ids::{entity_id_text, hyphenated_text};
use crate::domain::values::{EntityId, Timestamp};
use crate::shared::text::{digits_of, keep_digits, trim, trimmed};
use vstd::prelude::*;
use vstd::string::StringExecFns;

verus! {

/// What a caller sends to have a customer created.
#[derive(Debug, Clone, PartialEq, Eq)]
pub struct CreateCustomerRequest {
    pub full_name: String,
    pub email: String,
    pub cpf: String,
}

/// What a `CreateCustomerRequest` holds, with its text as sequences of
/// characters.
pub struct CreateCustomerRequestView {
    pub full_name: Seq<char>,
    pub email: Seq<char>,
    pub cpf: Seq<char>,
}

impl View for CreateCustomerRequest {
    type V = CreateCustomerRequestView;

    open spec fn view(&self) -> CreateCustomerRequestView {
        CreateCustomerRequestView {
            full_name: self.full_name@,
            email: self.email@,
            cpf: self.cpf@,
        }
    }
}

/// A request in the form in which it is validated and stored: name and
/// e-mail address without white space around them, the CPF as digits only.
pub open spec fn sanitized(request: CreateCustomerRequestView) -> CreateCustomerRequestView {
    CreateCustomerRequestView {
        full_name: trimmed(request.full_name),
        email: trimmed(request.email),
        cpf: digits_of(request.cpf),
    }
}

impl CreateCustomerRequest {
    /// Brings every field into the form in which it is validated and stored.
    pub fn sanitize_fields(&mut self)
        ensures
            final(self)@ == sanitized(old(self)@),
    {
        self.sanitize_cpf();
        self.full_name = trim(self.full_name.as_str());
        self.email = trim(self.email.as_str());
    }

    /// Drops every character of the CPF that is not a digit.
    pub fn sanitize_cpf(&mut self)
        ensures
            final(self).cpf@ == digits_of(old(self).cpf@),
            final(self).full_name == old(self).full_name,
            final(self).email == old(self).email,
    {
        self.cpf = keep_digits(self.cpf.as_str());
    }
}

/// What a caller is shown of a customer.
#[derive(Debug, Clone, PartialEq, Eq)]
pub struct CustomerResponse {
    pub id: EntityId,
    pub full_name: String,
    pub email: String,
    pub cpf: String,
    pub is_active: bool,
    pub created_at: Timestamp,
}

impl From<Customer> for CustomerResponse {
    fn from(c: Customer) -> (response: Self) {
        Self {
            id: c.id,
            full_name: c.full_name,
            email: c.email,
            cpf: c.cpf,
            is_active: c.is_active,
            created_at: c.created_at,
        }
    }
}

impl vstd::std_specs::convert::FromSpecImpl<Customer> for CustomerResponse {
    open spec fn obeys_from_spec() -> bool {
        true
    }

    open spec fn from_spec(c: Customer) -> Self {
        Self {
            id: c.id,
            full_name: c.full_name,
            email: c.email,
            cpf: c.cpf,
            is_active: c.is_active,
            created_at: c.created_at,
        }
    }
}

/// Where a customer can be read, as a path of the service.
pub open spec fn customer_location_of(id: EntityId) -> Seq<char> {
    "/customers/"@ + hyphenated_text(id.bits)
}

impl CustomerResponse {
    /// Where this customer can be read, as a path of the service.
    pub fn location(&self) -> (path: String)
        ensures
            path@ == customer_location_of(self.id),
    {
        let mut path = String::from_str("/customers/");
        let id = entity_id_text(self.id);
        path.append(id.as_str());
        path
    }
}

} // verus!
