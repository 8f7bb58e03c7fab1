use crate::domain::enums::AccountType;
use crate::domain::values::{Amount, EntityId, Timestamp};
use vstd::prelude::*;

verus! {

/// An account, as the store holds it.
#[derive(Debug, Clone, PartialEq, Eq)]
pub struct Account {
    pub id: EntityId,
    pub customer_id: EntityId,
    pub account_type: AccountType,
    pub currency: String,
    pub available_balance: Amount,
    pub ledger_balance: Amount,
    pub created_at: Timestamp,
    pub updated_at: Timestamp,
}

/// What an `Account` holds, with its text as a sequence of characters.
pub struct AccountView {
    pub id: EntityId,
    pub customer_id: EntityId,
    pub account_type: AccountType,
    pub currency: Seq<char>,
    pub available_balance: Amount,
    pub ledger_balance: Amount,
    pub created_at: Timestamp,
    pub updated_at: Timestamp,
}

impl View for Account {
    type V = AccountView;

    open spec fn view(&self) -> AccountView {
        AccountView {
            id: self.id,
            customer_id: self.customer_id,
            account_type: self.account_type,
            currency: self.currency@,
            available_balance: self.available_balance,
            ledger_balance: self.ledger_balance,
            created_at: self.created_at,
            updated_at: self.updated_at,
        }
    }
}

} // verus!
