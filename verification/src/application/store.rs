use crate::application::dto::account_dto::{AccountCreateRequest, AccountCreateRequestView};
use crate::application::dto::customer_dto::{CreateCustomerRequest, CreateCustomerRequestView};
use crate::application::dto::pix_key_dto::{CreatePixKeyRequest, CreatePixKeyRequestView};
use crate::domain::account::{Account, AccountView};
use crate::domain::customer::{Customer, CustomerView};
use crate::domain::pix_key::{PixKey, PixKeyView};
use crate::domain::values::EntityId;
use crate::infrastructure::error::{
    map_db_error, mapped_db_error, InternalError, MyError, MyErrorView, StoreError,
    StoreErrorView,
};
use vstd::prelude::*;
use vstd::string::StringExecFns;

verus! {

/// One thing that a workflow asks of the store. A workflow hands out one
/// command at a time and waits for the reply to it.
#[derive(Debug, Clone, PartialEq, Eq)]
pub enum StoreCommand {
    /// Open an atomic unit.
    Begin,
    /// Insert a customer, inside the open unit.
    InsertCustomer(CreateCustomerRequest),
    /// Insert an account, inside the open unit.
    InsertAccount(AccountCreateRequest),
    /// Make the writes of the open unit lasting, and close it.
    Commit,
    /// Drop the writes of the open unit, and close it.
    Rollback,
    /// Read the customer with this identifier.
    FindCustomer(EntityId),
    /// Read the account of the customer with this identifier.
    FindAccountByCustomer(EntityId),
    /// Insert a PIX key that belongs to the account with this identifier.
    InsertPixKey { request: CreatePixKeyRequest, account_id: EntityId },
}

/// What the store answers to a command.
#[derive(Debug, Clone, PartialEq, Eq)]
pub enum StoreReply {
    /// The unit was opened, committed or rolled back.
    Done,
    /// The customer that was read or inserted.
    Customer(Customer),
    /// The account that was read or inserted.
    Account(Account),
    /// The PIX key that was inserted.
    PixKey(PixKey),
    /// The statement ran and returned no row.
    NoRow,
    /// The statement returned a row that could not be read into a record;
    /// the payload says why.
    Unmapped(String),
    /// The store's client failed.
    Failed(StoreError),
}

/// What a `StoreCommand` holds, with its text as sequences of characters.
pub enum StoreCommandView {
    Begin,
    InsertCustomer(CreateCustomerRequestView),
    InsertAccount(AccountCreateRequestView),
    Commit,
    Rollback,
    FindCustomer(EntityId),
    FindAccountByCustomer(EntityId),
    InsertPixKey { request: CreatePixKeyRequestView, account_id: EntityId },
}

/// What a `StoreReply` holds, with its text as sequences of characters.
pub enum StoreReplyView {
    Done,
    Customer(CustomerView),
    Account(AccountView),
    PixKey(PixKeyView),
    NoRow,
    Unmapped(Seq<char>),
    Failed(StoreErrorView),
}

impl View for StoreCommand {
    type V = StoreCommandView;

    open spec fn view(&self) -> StoreCommandView {
        match self {
            StoreCommand::Begin => StoreCommandView::Begin,
            StoreCommand::InsertCustomer(request) => StoreCommandView::InsertCustomer(request@),
            StoreCommand::InsertAccount(request) => StoreCommandView::InsertAccount(request@),
            StoreCommand::Commit => StoreCommandView::Commit,
            StoreCommand::Rollback => StoreCommandView::Rollback,
            StoreCommand::FindCustomer(id) => StoreCommandView::FindCustomer(*id),
            StoreCommand::FindAccountByCustomer(id) => StoreCommandView::FindAccountByCustomer(
                *id,
            ),
            StoreCommand::InsertPixKey { request, account_id } => StoreCommandView::InsertPixKey {
                request: request@,
                account_id: *account_id,
            },
        }
    }
}

impl View for StoreReply {
    type V = StoreReplyView;

    open spec fn view(&self) -> StoreReplyView {
        match self {
            StoreReply::Done => StoreReplyView::Done,
            StoreReply::Customer(customer) => StoreReplyView::Customer(customer@),
            StoreReply::Account(account) => StoreReplyView::Account(account@),
            StoreReply::PixKey(pix_key) => StoreReplyView::PixKey(pix_key@),
            StoreReply::NoRow => StoreReplyView::NoRow,
            StoreReply::Unmapped(text) => StoreReplyView::Unmapped(text@),
            StoreReply::Failed(error) => StoreReplyView::Failed(error@),
        }
    }
}

/// What a caller is told where an insert returned no row.
pub const NO_ROW_RETURNED: &'static str = "Nenhum registro retornado";

/// What a caller is told where the store answered a command with a reply
/// that belongs to another command.
pub const UNEXPECTED_REPLY: &'static str = "Unexpected reply from the store";

/// Why a lookup that was answered with `reply` found no record to hand on:
/// no row means that the record does not exist.
pub open spec fn lookup_failure_of(reply: StoreReplyView) -> MyErrorView {
    match reply {
        StoreReplyView::NoRow => MyErrorView::NotFound,
        StoreReplyView::Failed(error) => MyErrorView::PGError(error),
        StoreReplyView::Unmapped(text) => MyErrorView::Internal(text),
        _ => MyErrorView::Internal(UNEXPECTED_REPLY@),
    }
}

/// Why an insert that was answered with `reply` gave no record to hand on.
pub open spec fn insert_failure_of(reply: StoreReplyView) -> MyErrorView {
    match reply {
        StoreReplyView::NoRow => MyErrorView::Internal(NO_ROW_RETURNED@),
        StoreReplyView::Failed(error) => mapped_db_error(error),
        StoreReplyView::Unmapped(text) => MyErrorView::Internal(text),
        _ => MyErrorView::Internal(UNEXPECTED_REPLY@),
    }
}

/// Why opening or committing a unit that was answered with `reply` did not
/// succeed.
pub open spec fn unit_failure_of(reply: StoreReplyView) -> MyErrorView {
    match reply {
        StoreReplyView::Failed(error) => MyErrorView::PGError(error),
        _ => MyErrorView::Internal(UNEXPECTED_REPLY@),
    }
}

/// The error of a lookup that was not answered with the record asked for.
pub fn lookup_failure(reply: StoreReply) -> (error: MyError)
    ensures
        error@ == lookup_failure_of(reply@),
{
    match reply {
        StoreReply::NoRow => MyError::NotFound,
        StoreReply::Failed(error) => MyError::PGError(error),
        StoreReply::Unmapped(text) => MyError::Internal(InternalError { msg: text }),
        _ => MyError::Internal(InternalError { msg: String::from_str(UNEXPECTED_REPLY) }),
    }
}

/// The error of an insert that was not answered with the record inserted.
pub fn insert_failure(reply: StoreReply) -> (error: MyError)
    ensures
        error@ == insert_failure_of(reply@),
{
    match reply {
        StoreReply::NoRow => MyError::Internal(
            InternalError { msg: String::from_str(NO_ROW_RETURNED) },
        ),
        StoreReply::Failed(error) => map_db_error(error),
        StoreReply::Unmapped(text) => MyError::Internal(InternalError { msg: text }),
        _ => MyError::Internal(InternalError { msg: String::from_str(UNEXPECTED_REPLY) }),
    }
}

/// The error of opening or committing a unit that was not answered with
/// `Done`.
pub fn unit_failure(reply: StoreReply) -> (error: MyError)
    ensures
        error@ == unit_failure_of(reply@),
{
    match reply {
        StoreReply::Failed(error) => MyError::PGError(error),
        _ => MyError::Internal(InternalError { msg: String::from_str(UNEXPECTED_REPLY) }),
    }
}

} // verus!
