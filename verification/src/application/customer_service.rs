use crate::application::account_service::{create_account, payment_account_for};
use crate::application::dto::customer_dto::{
    sanitized, CreateCustomerRequest, CreateCustomerRequestView,
};
use crate::application::store::{
    insert_failure, insert_failure_of, lookup_failure, lookup_failure_of, unit_failure,
    unit_failure_of, StoreCommand, StoreCommandView, StoreReply, StoreReplyView,
};
use crate::domain::customer::{Customer, CustomerView};
use crate::domain::values::EntityId;
use crate::infrastructure::error::{ApiError, InternalError, MyError, MyErrorView};
use crate::shared::cpf::{cpf_error_text, cpf_verdict, validate_cpf};
use vstd::prelude::*;
use vstd::string::StringExecFns;

verus! {

/// What a caller is told where a provisioning is driven on after its end.
pub const PROVISIONING_FINISHED: &'static str = "The provisioning has already finished";

/// How far the creation of a customer and its account has come.
#[derive(Debug, Clone, PartialEq, Eq)]
pub enum Provisioning {
    /// The request is valid; the atomic unit is being opened.
    Opening { request: CreateCustomerRequest },
    /// The unit is open; the customer is being inserted.
    InsertingCustomer,
    /// The customer is inserted; its account is being inserted.
    InsertingAccount { customer: Customer },
    /// Both are inserted; the unit is being committed.
    Committing { customer: Customer },
    /// An insert failed; the unit is being rolled back.
    RollingBack { error: MyError },
    /// The outcome has been handed out.
    Finished,
}

/// What a provisioning asks for next: a command for the store, or nothing
/// more, with the outcome.
#[derive(Debug, PartialEq, Eq)]
pub enum ProvisioningStep {
    Perform(StoreCommand),
    Finish(Result<Customer, MyError>),
}

/// What a `Provisioning` holds, with its text as sequences of characters.
pub enum ProvisioningView {
    Opening { request: CreateCustomerRequestView },
    InsertingCustomer,
    InsertingAccount { customer: CustomerView },
    Committing { customer: CustomerView },
    RollingBack { error: MyErrorView },
    Finished,
}

/// What a `ProvisioningStep` holds, with its text as sequences of
/// characters.
pub enum ProvisioningStepView {
    Perform(StoreCommandView),
    Finish(Result<CustomerView, MyErrorView>),
}

impl View for Provisioning {
    type V = ProvisioningView;

    open spec fn view(&self) -> ProvisioningView {
        match self {
            Provisioning::Opening { request } => ProvisioningView::Opening { request: request@ },
            Provisioning::InsertingCustomer => ProvisioningView::InsertingCustomer,
            Provisioning::InsertingAccount { customer } => ProvisioningView::InsertingAccount {
                customer: customer@,
            },
            Provisioning::Committing { customer } => ProvisioningView::Committing {
                customer: customer@,
            },
            Provisioning::RollingBack { error } => ProvisioningView::RollingBack { error: error@ },
            Provisioning::Finished => ProvisioningView::Finished,
        }
    }
}

impl View for ProvisioningStep {
    type V = ProvisioningStepView;

    open spec fn view(&self) -> ProvisioningStepView {
        match self {
            ProvisioningStep::Perform(command) => ProvisioningStepView::Perform(command@),
            ProvisioningStep::Finish(Ok(customer)) => ProvisioningStepView::Finish(Ok(customer@)),
            ProvisioningStep::Finish(Err(error)) => ProvisioningStepView::Finish(Err(error@)),
        }
    }
}

/// How the creation of a customer starts. The request is brought into its
/// stored form and its CPF is validated. A CPF that is refused ends the
/// workflow at once, with the validator's message and before the store is
/// asked anything; otherwise the first thing to do is to open the atomic
/// unit.
pub open spec fn provisioning_start(request: CreateCustomerRequestView) -> (
    ProvisioningView,
    ProvisioningStepView,
) {
    let clean = sanitized(request);
    match cpf_verdict(clean.cpf) {
        Err(error) => (
            ProvisioningView::Finished,
            ProvisioningStepView::Finish(Err(MyErrorView::ApiError(cpf_error_text(error)))),
        ),
        Ok(_) => (
            ProvisioningView::Opening { request: clean },
            ProvisioningStepView::Perform(StoreCommandView::Begin),
        ),
    }
}

/// Where a provisioning goes on a reply of the store, and what it asks for
/// next. The customer is inserted first and its account second, both inside
/// the unit; the unit is committed only after both inserts returned their
/// rows, and rolled back as soon as one of them did not.
pub open spec fn provisioning_advance(state: ProvisioningView, reply: StoreReplyView) -> (
    ProvisioningView,
    ProvisioningStepView,
) {
    match state {
        ProvisioningView::Opening { request } => match reply {
            StoreReplyView::Done => (
                ProvisioningView::InsertingCustomer,
                ProvisioningStepView::Perform(StoreCommandView::InsertCustomer(request)),
            ),
            _ => (
                ProvisioningView::Finished,
                ProvisioningStepView::Finish(Err(unit_failure_of(reply))),
            ),
        },
        ProvisioningView::InsertingCustomer => match reply {
            StoreReplyView::Customer(customer) => (
                ProvisioningView::InsertingAccount { customer },
                ProvisioningStepView::Perform(
                    StoreCommandView::InsertAccount(payment_account_for(customer.id)),
                ),
            ),
            _ => (
                ProvisioningView::RollingBack { error: insert_failure_of(reply) },
                ProvisioningStepView::Perform(StoreCommandView::Rollback),
            ),
        },
        ProvisioningView::InsertingAccount { customer } => match reply {
            StoreReplyView::Account(_) => (
                ProvisioningView::Committing { customer },
                ProvisioningStepView::Perform(StoreCommandView::Commit),
            ),
            _ => (
                ProvisioningView::RollingBack { error: insert_failure_of(reply) },
                ProvisioningStepView::Perform(StoreCommandView::Rollback),
            ),
        },
        ProvisioningView::Committing { customer } => match reply {
            StoreReplyView::Done => (
                ProvisioningView::Finished,
                ProvisioningStepView::Finish(Ok(customer)),
            ),
            _ => (
                ProvisioningView::Finished,
                ProvisioningStepView::Finish(Err(unit_failure_of(reply))),
            ),
        },
        ProvisioningView::RollingBack { error } => (
            ProvisioningView::Finished,
            ProvisioningStepView::Finish(Err(error)),
        ),
        ProvisioningView::Finished => (
            ProvisioningView::Finished,
            ProvisioningStepView::Finish(Err(MyErrorView::Internal(PROVISIONING_FINISHED@))),
        ),
    }
}

/// Starts the creation of a customer and its account.
pub fn create_customer(create_customer_request: CreateCustomerRequest) -> (start: (
    Provisioning,
    ProvisioningStep,
))
    ensures
        start@ == provisioning_start(create_customer_request@),
{
    let mut request = create_customer_request;
    request.sanitize_fields();
    match validate_cpf(request.cpf.as_str()) {
        Err(error) => (
            Provisioning::Finished,
            ProvisioningStep::Finish(Err(MyError::ApiError(ApiError { msg: error.message() }))),
        ),
        Ok(_) => (
            Provisioning::Opening { request },
            ProvisioningStep::Perform(StoreCommand::Begin),
        ),
    }
}

impl Provisioning {
    /// Takes the step that follows `reply`.
    pub fn advance(self, reply: StoreReply) -> (next: (Provisioning, ProvisioningStep))
        ensures
            next@ == provisioning_advance(self@, reply@),
    {
        match self {
            Provisioning::Opening { request } => match reply {
                StoreReply::Done => (
                    Provisioning::InsertingCustomer,
                    ProvisioningStep::Perform(StoreCommand::InsertCustomer(request)),
                ),
                other => (
                    Provisioning::Finished,
                    ProvisioningStep::Finish(Err(unit_failure(other))),
                ),
            },
            Provisioning::InsertingCustomer => match reply {
                StoreReply::Customer(customer) => {
                    let command = create_account(&customer.id);
                    (Provisioning::InsertingAccount { customer }, ProvisioningStep::Perform(command))
                },
                other => (
                    Provisioning::RollingBack { error: insert_failure(other) },
                    ProvisioningStep::Perform(StoreCommand::Rollback),
                ),
            },
            Provisioning::InsertingAccount { customer } => match reply {
                StoreReply::Account(_) => (
                    Provisioning::Committing { customer },
                    ProvisioningStep::Perform(StoreCommand::Commit),
                ),
                other => (
                    Provisioning::RollingBack { error: insert_failure(other) },
                    ProvisioningStep::Perform(StoreCommand::Rollback),
                ),
            },
            Provisioning::Committing { customer } => match reply {
                StoreReply::Done => (Provisioning::Finished, ProvisioningStep::Finish(Ok(customer))),
                other => (
                    Provisioning::Finished,
                    ProvisioningStep::Finish(Err(unit_failure(other))),
                ),
            },
            Provisioning::RollingBack { error } => (
                Provisioning::Finished,
                ProvisioningStep::Finish(Err(error)),
            ),
            Provisioning::Finished => (
                Provisioning::Finished,
                ProvisioningStep::Finish(
                    Err(
                        MyError::Internal(
                            InternalError { msg: String::from_str(PROVISIONING_FINISHED) },
                        ),
                    ),
                ),
            ),
        }
    }
}

/// The command that reads a customer.
pub fn get_customer_by_id(id: EntityId) -> (command: StoreCommand)
    ensures
        command@ == StoreCommandView::FindCustomer(id),
{
    StoreCommand::FindCustomer(id)
}

/// What a lookup of a customer ends in, on the store's reply to it.
pub open spec fn customer_lookup_outcome(reply: StoreReplyView) -> Result<
    CustomerView,
    MyErrorView,
> {
    match reply {
        StoreReplyView::Customer(customer) => Ok(customer),
        _ => Err(lookup_failure_of(reply)),
    }
}

/// The customer that the store found, or why there is none: `NotFound` where
/// the store holds no such customer.
pub fn customer_from_reply(reply: StoreReply) -> (outcome: Result<Customer, MyError>)
    ensures
        match customer_lookup_outcome(reply@) {
            Ok(customer) => outcome matches Ok(found) && found@ == customer,
            Err(error) => outcome matches Err(failure) && failure@ == error,
        },
{
    match reply {
        StoreReply::Customer(customer) => Ok(customer),
        other => Err(lookup_failure(other)),
    }
}

} // verus!
