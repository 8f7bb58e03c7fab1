use crate::application::dto::account_dto::{AccountCreateRequest, AccountCreateRequestView};
use crate::application::store::{
    lookup_failure, lookup_failure_of, StoreCommand, StoreCommandView, StoreReply, StoreReplyView,
};
use crate::domain::account::{Account, AccountView};
use crate::domain::enums::AccountType;
use crate::domain::values::EntityId;
use crate::infrastructure::error::{MyError, MyErrorView};
use vstd::prelude::*;
use vstd::string::StringExecFns;

verus! {

/// The currency that every new account is held in.
pub const ACCOUNT_CURRENCY: &'static str = "R$";

/// The account that is opened for a new customer: a payment account in the
/// one currency, owned by that customer.
pub open spec fn payment_account_for(customer_id: EntityId) -> AccountCreateRequestView {
    AccountCreateRequestView {
        customer_id,
        account_type: AccountType::PAYMENT,
        currency: ACCOUNT_CURRENCY@,
    }
}

/// The command that opens the account of a new customer.
pub fn create_account(customer_id: &EntityId) -> (command: StoreCommand)
    ensures
        command@ == StoreCommandView::InsertAccount(payment_account_for(*customer_id)),
{
    let new_account = AccountCreateRequest {
        customer_id: *customer_id,
        account_type: AccountType::PAYMENT,
        currency: String::from_str(ACCOUNT_CURRENCY),
    };
    StoreCommand::InsertAccount(new_account)
}

/// The command that reads the account of a customer.
pub fn get_account_by_customer_id(id: EntityId) -> (command: StoreCommand)
    ensures
        command@ == StoreCommandView::FindAccountByCustomer(id),
{
    StoreCommand::FindAccountByCustomer(id)
}

/// What a lookup of an account ends in, on the store's reply to it.
pub open spec fn account_lookup_outcome(reply: StoreReplyView) -> Result<AccountView, MyErrorView> {
    match reply {
        StoreReplyView::Account(account) => Ok(account),
        _ => Err(lookup_failure_of(reply)),
    }
}

/// The account that the store found, or why there is none: `NotFound` where
/// the store holds no such account.
pub fn account_from_reply(reply: StoreReply) -> (outcome: Result<Account, MyError>)
    ensures
        match account_lookup_outcome(reply@) {
            Ok(account) => outcome matches Ok(found) && found@ == account,
            Err(error) => outcome matches Err(failure) && failure@ == error,
        },
{
    match reply {
        StoreReply::Account(account) => Ok(account),
        other => Err(lookup_failure(other)),
    }
}

} // verus!
