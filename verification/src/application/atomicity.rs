use crate::application::account_service::{payment_account_for, ACCOUNT_CURRENCY};
use crate::application::customer_service::{
    customer_lookup_outcome, provisioning_advance, provisioning_start, ProvisioningStepView,
    ProvisioningView,
};
use crate::application::dto::account_dto::AccountCreateRequestView;
use crate::application::dto::customer_dto::{sanitized, CreateCustomerRequestView};
use crate::application::store::{insert_failure_of, StoreCommandView, StoreReplyView};
use crate::domain::account::AccountView;
use crate::domain::customer::CustomerView;
use crate::domain::enums::AccountType;
use crate::domain::values::EntityId;
use crate::infrastructure::error::MyErrorView;
use crate::shared::cpf::{cpf_error_text, cpf_verdict};
use crate::shared::text::{digits_of, is_digit, lemma_digits_of_is_digits};
use vstd::prelude::*;

verus! {

/// The customers and accounts that a store holds.
pub struct Rows {
    pub customers: Seq<CustomerView>,
    pub accounts: Seq<AccountView>,
}

/// A store with atomic units: the rows that every reader sees, and the rows
/// that the open unit has written and not yet committed, where a unit is
/// open.
pub struct StoreModel {
    pub lasting: Rows,
    pub pending: Option<Rows>,
}

/// The store after it has answered `command` with `reply`. A unit starts
/// with nothing written. An insert that returns its row writes it to the
/// open unit, or to the lasting rows where none is open. A commit that
/// succeeds makes the unit's rows lasting; a commit that fails, and every
/// rollback, drops them. Nothing else changes the store.
pub open spec fn store_after(store: StoreModel, command: StoreCommandView, reply: StoreReplyView)
    -> StoreModel {
    match command {
        StoreCommandView::Begin => match reply {
            StoreReplyView::Done => StoreModel {
                lasting: store.lasting,
                pending: Some(Rows { customers: Seq::empty(), accounts: Seq::empty() }),
            },
            _ => store,
        },
        StoreCommandView::InsertCustomer(_) => match reply {
            StoreReplyView::Customer(customer) => match store.pending {
                Some(rows) => StoreModel {
                    lasting: store.lasting,
                    pending: Some(
                        Rows { customers: rows.customers.push(customer), accounts: rows.accounts },
                    ),
                },
                None => StoreModel {
                    lasting: Rows {
                        customers: store.lasting.customers.push(customer),
                        accounts: store.lasting.accounts,
                    },
                    pending: None,
                },
            },
            _ => store,
        },
        StoreCommandView::InsertAccount(_) => match reply {
            StoreReplyView::Account(account) => match store.pending {
                Some(rows) => StoreModel {
                    lasting: store.lasting,
                    pending: Some(
                        Rows { customers: rows.customers, accounts: rows.accounts.push(account) },
                    ),
                },
                None => StoreModel {
                    lasting: Rows {
                        customers: store.lasting.customers,
                        accounts: store.lasting.accounts.push(account),
                    },
                    pending: None,
                },
            },
            _ => store,
        },
        StoreCommandView::Commit => match (reply, store.pending) {
            (StoreReplyView::Done, Some(rows)) => StoreModel {
                lasting: Rows {
                    customers: store.lasting.customers + rows.customers,
                    accounts: store.lasting.accounts + rows.accounts,
                },
                pending: None,
            },
            _ => StoreModel { lasting: store.lasting, pending: None },
        },
        StoreCommandView::Rollback => StoreModel { lasting: store.lasting, pending: None },
        _ => store,
    }
}

/// Where a provisioning that stands at `state` and asks for `step` ends, if
/// the store answers its commands with `replies` one after the other: the
/// store then, and the outcome, if the replies reach as far as one.
pub open spec fn provisioning_run(
    state: ProvisioningView,
    step: ProvisioningStepView,
    replies: Seq<StoreReplyView>,
    store: StoreModel,
) -> (StoreModel, Option<Result<CustomerView, MyErrorView>>)
    decreases replies.len(),
{
    match step {
        ProvisioningStepView::Finish(outcome) => (store, Some(outcome)),
        ProvisioningStepView::Perform(command) => if replies.len() == 0 {
            (store, None)
        } else {
            let next = provisioning_advance(state, replies.first());
            provisioning_run(
                next.0,
                next.1,
                replies.drop_first(),
                store_after(store, command, replies.first()),
            )
        },
    }
}

/// Whether `customer` stands among the lasting rows of `store`.
pub open spec fn holds_customer(store: StoreModel, customer: CustomerView) -> bool {
    store.lasting.customers.contains(customer)
}

/// Whether `store` is what a provisioning that stands at `state` and asks
/// for `step` has made of the store `before`: the lasting rows are
/// untouched, and the open unit holds what was inserted so far.
spec fn in_step(
    state: ProvisioningView,
    step: ProvisioningStepView,
    store: StoreModel,
    before: StoreModel,
) -> bool {
    match (state, step) {
        (
            ProvisioningView::Opening { request },
            ProvisioningStepView::Perform(StoreCommandView::Begin),
        ) => store == before,
        (
            ProvisioningView::InsertingCustomer,
            ProvisioningStepView::Perform(StoreCommandView::InsertCustomer(_)),
        ) => store.lasting == before.lasting && store.pending == Some(
            Rows { customers: Seq::empty(), accounts: Seq::empty() },
        ),
        (
            ProvisioningView::InsertingAccount { customer },
            ProvisioningStepView::Perform(StoreCommandView::InsertAccount(request)),
        ) => store.lasting == before.lasting && store.pending == Some(
            Rows { customers: seq![customer], accounts: Seq::empty() },
        ) && request == payment_account_for(customer.id),
        (
            ProvisioningView::Committing { customer },
            ProvisioningStepView::Perform(StoreCommandView::Commit),
        ) => store.lasting == before.lasting && exists|account: AccountView|
            store.pending == Some(
                Rows { customers: seq![customer], accounts: seq![account] },
            ),
        (
            ProvisioningView::RollingBack { error },
            ProvisioningStepView::Perform(StoreCommandView::Rollback),
        ) => store.lasting == before.lasting,
        (ProvisioningView::Finished, ProvisioningStepView::Finish(outcome)) => ends_as(
            store,
            outcome,
            before,
        ),
        _ => false,
    }
}

/// Whether `store` is what `before` becomes by a provisioning with the
/// given outcome: with exactly one customer and one account more where it
/// succeeded, and unchanged where it failed. Either way no unit is open.
pub open spec fn ends_as(
    store: StoreModel,
    outcome: Result<CustomerView, MyErrorView>,
    before: StoreModel,
) -> bool {
    match outcome {
        Ok(customer) => {
            &&& store.pending is None
            &&& store.lasting.customers == before.lasting.customers.push(customer)
            &&& exists|account: AccountView|
                store.lasting.accounts == #[trigger] before.lasting.accounts.push(account)
        },
        Err(_) => store == before,
    }
}

proof fn lemma_run_keeps_units_whole(
    state: ProvisioningView,
    step: ProvisioningStepView,
    replies: Seq<StoreReplyView>,
    store: StoreModel,
    before: StoreModel,
)
    requires
        before.pending is None,
        in_step(state, step, store, before),
    ensures
        ({
            let end = provisioning_run(state, step, replies, store);
            match end.1 {
                Some(outcome) => ends_as(end.0, outcome, before),
                None => end.0.lasting == before.lasting,
            }
        }),
    decreases replies.len(),
{
    match step {
        ProvisioningStepView::Finish(outcome) => {},
        ProvisioningStepView::Perform(command) => {
            if replies.len() > 0 {
                let reply = replies.first();
                let next = provisioning_advance(state, reply);
                let then = store_after(store, command, reply);
                match state {
                    ProvisioningView::InsertingCustomer => {
                        if let StoreReplyView::Customer(customer) = reply {
                            assert(Seq::<CustomerView>::empty().push(customer) =~= seq![customer]);
                        }
                    },
                    ProvisioningView::InsertingAccount { customer } => {
                        if let StoreReplyView::Account(account) = reply {
                            assert(Seq::<AccountView>::empty().push(account) =~= seq![account]);
                        }
                    },
                    ProvisioningView::Committing { customer } => {
                        if reply is Done {
                            let account = choose|account: AccountView|
                                store.pending == Some(
                                    Rows { customers: seq![customer], accounts: seq![account] },
                                );
                            assert(before.lasting.customers + seq![customer]
                                =~= before.lasting.customers.push(customer));
                            assert(before.lasting.accounts + seq![account]
                                =~= before.lasting.accounts.push(account));
                        }
                    },
                    _ => {},
                }
                assert(in_step(next.0, next.1, then, before));
                lemma_run_keeps_units_whole(next.0, next.1, replies.drop_first(), then, before);
            }
        },
    }
}

/// The creation of a customer is all or nothing. Whatever the store
/// answers, and however far its answers reach: where the provisioning ends
/// in success, the lasting rows are those from before with the customer and
/// one account more; where it ends in an error, and as long as it has not
/// ended, they are those from before. No unit stays open once it has ended.
/// So a customer whose account could not be inserted is not found
/// afterwards.
pub proof fn law_provisioning_is_atomic(
    request: CreateCustomerRequestView,
    replies: Seq<StoreReplyView>,
    store: StoreModel,
)
    requires
        store.pending is None,
    ensures
        ({
            let start = provisioning_start(request);
            let end = provisioning_run(start.0, start.1, replies, store);
            match end.1 {
                Some(outcome) => ends_as(end.0, outcome, store),
                None => end.0.lasting == store.lasting,
            }
        }),
{
    let start = provisioning_start(request);
    lemma_run_keeps_units_whole(start.0, start.1, replies, store, store);
}

/// Whether `reply` is a true answer of `store` to a lookup of the customer
/// with the identifier `id`: a customer among the lasting rows with that
/// identifier, or no row where there is none. A failure is always a
/// possible answer.
pub open spec fn answers_customer_lookup(store: StoreModel, id: EntityId, reply: StoreReplyView)
    -> bool {
    match reply {
        StoreReplyView::Customer(customer) => customer.id == id && holds_customer(store, customer),
        StoreReplyView::NoRow => forall|customer: CustomerView| #[trigger]
            holds_customer(store, customer) ==> customer.id != id,
        StoreReplyView::Failed(_) => true,
        StoreReplyView::Unmapped(_) => true,
        _ => false,
    }
}

/// A customer whose account the store did not insert leaves no trace. The
/// unit is rolled back, the outcome is an error, and the store is as it was
/// before. So where the identifier that the store gave the customer was not
/// in use before, a lookup of it that the store answers without failing
/// ends in `NotFound`.
pub proof fn law_failed_account_leaves_no_customer(
    request: CreateCustomerRequestView,
    customer: CustomerView,
    failure: StoreReplyView,
    rollback_reply: StoreReplyView,
    lookup_reply: StoreReplyView,
    store: StoreModel,
)
    requires
        store.pending is None,
        provisioning_start(request).1 == ProvisioningStepView::Perform(StoreCommandView::Begin),
        !(failure is Account),
    ensures
        ({
            let start = provisioning_start(request);
            let replies = seq![
                StoreReplyView::Done,
                StoreReplyView::Customer(customer),
                failure,
                rollback_reply,
            ];
            let end = provisioning_run(start.0, start.1, replies, store);
            &&& end.1 == Some(Err::<CustomerView, MyErrorView>(insert_failure_of(failure)))
            &&& end.0 == store
            &&& (forall|other: CustomerView| #[trigger]
                holds_customer(store, other) ==> other.id != customer.id)
                && answers_customer_lookup(end.0, customer.id, lookup_reply)
                && !(lookup_reply is Failed) && !(lookup_reply is Unmapped)
                ==> customer_lookup_outcome(lookup_reply) == Err::<CustomerView, MyErrorView>(
                MyErrorView::NotFound,
            )
        }),
{
    let start = provisioning_start(request);
    let replies = seq![
        StoreReplyView::Done,
        StoreReplyView::Customer(customer),
        failure,
        rollback_reply,
    ];
    lemma_run_keeps_units_whole(start.0, start.1, replies, store, store);
    reveal_with_fuel(provisioning_run, 6);
    let r1 = replies.drop_first();
    let r2 = r1.drop_first();
    let r3 = r2.drop_first();
    let r4 = r3.drop_first();
    assert(replies.first() == StoreReplyView::Done);
    assert(r1.first() == StoreReplyView::Customer(customer));
    assert(r2.first() == failure);
    assert(r3.first() == rollback_reply);
    assert(r4.len() == 0);
    if let StoreReplyView::Customer(found) = lookup_reply {
        if answers_customer_lookup(store, customer.id, lookup_reply) {
            assert(holds_customer(store, found));
        }
    }
}

/// A request whose CPF is refused asks nothing of the store: the workflow
/// ends at once, with the validator's message.
pub proof fn law_refused_cpf_asks_nothing(request: CreateCustomerRequestView)
    requires
        cpf_verdict(digits_of(request.cpf)) is Err,
    ensures
        provisioning_start(request) == (
            ProvisioningView::Finished,
            ProvisioningStepView::Finish(
                Err(MyErrorView::ApiError(cpf_error_text(cpf_verdict(digits_of(request.cpf))->Err_0))),
            ),
        ),
        forall|replies: Seq<StoreReplyView>, store: StoreModel|
            (#[trigger] provisioning_run(
                provisioning_start(request).0,
                provisioning_start(request).1,
                replies,
                store,
            )).0 == store,
{
}

/// The customer that a provisioning asks the store to insert has a valid
/// CPF, written as its eleven digits and nothing else.
pub proof fn law_inserted_cpf_is_normalized(request: CreateCustomerRequestView)
    ensures
        provisioning_start(request).0 matches ProvisioningView::Opening { request: clean } ==> {
            &&& clean == sanitized(request)
            &&& clean.cpf.len() == 11
            &&& forall|i: int| 0 <= i < clean.cpf.len() ==> is_digit(#[trigger] clean.cpf[i])
            &&& cpf_verdict(clean.cpf) is Ok
            &&& provisioning_advance(provisioning_start(request).0, StoreReplyView::Done).1
                == ProvisioningStepView::Perform(StoreCommandView::InsertCustomer(clean))
        },
{
    lemma_digits_of_is_digits(request.cpf);
}

/// The account of a new customer is asked for right after the customer was
/// inserted, inside the same unit: a payment account in the one currency,
/// owned by the customer that the store returned.
pub proof fn law_account_is_opened_for_the_inserted_customer(customer: CustomerView)
    ensures
        provisioning_advance(
            ProvisioningView::InsertingCustomer,
            StoreReplyView::Customer(customer),
        ) == (
            ProvisioningView::InsertingAccount { customer },
            ProvisioningStepView::Perform(
                StoreCommandView::InsertAccount(
                    AccountCreateRequestView {
                        customer_id: customer.id,
                        account_type: AccountType::PAYMENT,
                        currency: ACCOUNT_CURRENCY@,
                    },
                ),
            ),
        ),
{
}

} // verus!
