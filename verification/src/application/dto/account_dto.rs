use crate::domain::enums::AccountType;
use crate::domain::values::EntityId;
use vstd::prelude::*;

verus! {

/// What the store is asked to create an account from.
#[derive(Debug, Clone, PartialEq, Eq)]
pub struct AccountCreateRequest {
    pub customer_id: EntityId,
    pub account_type: AccountType,
    pub currency: String,
}

/// What an `AccountCreateRequest` holds, with its text as a sequence of
/// characters.
pub struct AccountCreateRequestView {
    pub customer_id: EntityId,
    pub account_type: AccountType,
    pub currency: Seq<char>,
}

impl View for AccountCreateRequest {
    type V = AccountCreateRequestView;

    open spec fn view(&self) -> AccountCreateRequestView {
        AccountCreateRequestView {
            customer_id: self.customer_id,
            account_type: self.account_type,
            currency: self.currency@,
        }
    }
}

} // verus!
