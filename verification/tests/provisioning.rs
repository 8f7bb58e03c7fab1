use customer_onboarding::application::account_service::{
    account_from_reply, create_account, get_account_by_customer_id, ACCOUNT_CURRENCY,
};
use customer_onboarding::application::customer_service::{
    create_customer, customer_from_reply, get_customer_by_id, Provisioning, ProvisioningStep,
};
use customer_onboarding::application::dto::account_dto::AccountCreateRequest;
use customer_onboarding::application::dto::customer_dto::CreateCustomerRequest;
use customer_onboarding::application::store::{StoreCommand, StoreReply};
use customer_onboarding::domain::account::Account;
use customer_onboarding::domain::customer::Customer;
use customer_onboarding::domain::enums::AccountType;
use customer_onboarding::domain::values::{Amount, EntityId, Timestamp};
use customer_onboarding::infrastructure::error::{
    ApiError, ConflictError, DbError, InternalError, MyError, StoreError,
};

/// A store in memory, with one atomic unit at a time.
struct MemoryStore {
    customers: Vec<Customer>,
    accounts: Vec<Account>,
    pending: Option<(Vec<Customer>, Vec<Account>)>,
    account_inserts_fail: bool,
    commits_fail: bool,
    next_id: u128,
    log: Vec<&'static str>,
}

fn unique_violation() -> StoreError {
    StoreError {
        db_error: Some(DbError {
            code: "23505".to_string(),
            message: "duplicate key value violates unique constraint \"customers_email_key\""
                .to_string(),
            detail: Some("Key (email)=(ana@email.com) already exists.".to_string()),
        }),
        text: "db error".to_string(),
    }
}

fn connection_lost() -> StoreError {
    StoreError {
        db_error: None,
        text: "connection closed".to_string(),
    }
}

impl MemoryStore {
    fn new() -> Self {
        MemoryStore {
            customers: Vec::new(),
            accounts: Vec::new(),
            pending: None,
            account_inserts_fail: false,
            commits_fail: false,
            next_id: 1,
            log: Vec::new(),
        }
    }

    fn fresh_id(&mut self) -> EntityId {
        let id = EntityId { bits: self.next_id };
        self.next_id += 1;
        id
    }

    fn perform(&mut self, command: StoreCommand) -> StoreReply {
        match command {
            StoreCommand::Begin => {
                self.log.push("begin");
                self.pending = Some((Vec::new(), Vec::new()));
                StoreReply::Done
            }
            StoreCommand::InsertCustomer(request) => {
                self.log.push("insert customer");
                let taken = self
                    .customers
                    .iter()
                    .any(|c| c.email == request.email || c.cpf == request.cpf);
                if taken {
                    return StoreReply::Failed(unique_violation());
                }
                let customer = Customer {
                    id: self.fresh_id(),
                    full_name: request.full_name,
                    email: request.email,
                    cpf: request.cpf,
                    phone: None,
                    is_active: true,
                    created_at: Timestamp { micros: 1_000 },
                    updated_at: Timestamp { micros: 1_000 },
                };
                match &mut self.pending {
                    Some(rows) => rows.0.push(customer.clone()),
                    None => self.customers.push(customer.clone()),
                }
                StoreReply::Customer(customer)
            }
            StoreCommand::InsertAccount(request) => {
                self.log.push("insert account");
                if self.account_inserts_fail {
                    return StoreReply::Failed(connection_lost());
                }
                let account = Account {
                    id: self.fresh_id(),
                    customer_id: request.customer_id,
                    account_type: request.account_type,
                    currency: request.currency,
                    available_balance: Amount::zero(),
                    ledger_balance: Amount::zero(),
                    created_at: Timestamp { micros: 2_000 },
                    updated_at: Timestamp { micros: 2_000 },
                };
                match &mut self.pending {
                    Some(rows) => rows.1.push(account.clone()),
                    None => self.accounts.push(account.clone()),
                }
                StoreReply::Account(account)
            }
            StoreCommand::Commit => {
                self.log.push("commit");
                let rows = self.pending.take();
                if self.commits_fail {
                    return StoreReply::Failed(connection_lost());
                }
                if let Some((customers, accounts)) = rows {
                    self.customers.extend(customers);
                    self.accounts.extend(accounts);
                }
                StoreReply::Done
            }
            StoreCommand::Rollback => {
                self.log.push("rollback");
                self.pending = None;
                StoreReply::Done
            }
            StoreCommand::FindCustomer(id) => {
                self.log.push("find customer");
                match self.customers.iter().find(|c| c.id == id) {
                    Some(customer) => StoreReply::Customer(customer.clone()),
                    None => StoreReply::NoRow,
                }
            }
            StoreCommand::FindAccountByCustomer(id) => {
                self.log.push("find account");
                match self.accounts.iter().find(|a| a.customer_id == id) {
                    Some(account) => StoreReply::Account(account.clone()),
                    None => StoreReply::NoRow,
                }
            }
            StoreCommand::InsertPixKey { .. } => StoreReply::NoRow,
        }
    }

    fn provision(&mut self, request: CreateCustomerRequest) -> Result<Customer, MyError> {
        let (mut state, mut step) = create_customer(request);
        loop {
            match step {
                ProvisioningStep::Finish(outcome) => return outcome,
                ProvisioningStep::Perform(command) => {
                    let reply = self.perform(command);
                    let next = state.advance(reply);
                    state = next.0;
                    step = next.1;
                }
            }
        }
    }

    fn customer(&mut self, id: EntityId) -> Result<Customer, MyError> {
        let reply = self.perform(get_customer_by_id(id));
        customer_from_reply(reply)
    }

    fn account_of(&mut self, id: EntityId) -> Result<Account, MyError> {
        let reply = self.perform(get_account_by_customer_id(id));
        account_from_reply(reply)
    }
}

fn ana() -> CreateCustomerRequest {
    CreateCustomerRequest {
        full_name: "  Ana Souza ".to_string(),
        email: " ana@email.com\n".to_string(),
        cpf: "529.982.247-25".to_string(),
    }
}

fn stored_ana(id: u128) -> Customer {
    Customer {
        id: EntityId { bits: id },
        full_name: "Ana Souza".to_string(),
        email: "ana@email.com".to_string(),
        cpf: "52998224725".to_string(),
        phone: None,
        is_active: true,
        created_at: Timestamp { micros: 1_000 },
        updated_at: Timestamp { micros: 1_000 },
    }
}

#[test]
fn sanitize_fields_trims_and_keeps_digits() {
    let mut request = ana();
    request.sanitize_fields();
    assert_eq!(
        request,
        CreateCustomerRequest {
            full_name: "Ana Souza".to_string(),
            email: "ana@email.com".to_string(),
            cpf: "52998224725".to_string(),
        }
    );
}

#[test]
fn sanitize_fields_handles_empty_and_blank_fields() {
    let mut request = CreateCustomerRequest {
        full_name: " \t\u{a0}\u{3000} ".to_string(),
        email: String::new(),
        cpf: "abc".to_string(),
    };
    request.sanitize_fields();
    assert_eq!(
        request,
        CreateCustomerRequest {
            full_name: String::new(),
            email: String::new(),
            cpf: String::new(),
        }
    );
}

#[test]
fn sanitize_cpf_leaves_the_other_fields() {
    let mut request = ana();
    request.sanitize_cpf();
    assert_eq!(request.cpf, "52998224725");
    assert_eq!(request.full_name, "  Ana Souza ");
    assert_eq!(request.email, " ana@email.com\n");
}

#[test]
fn provisioning_creates_customer_and_account_in_one_unit() {
    let mut store = MemoryStore::new();
    let customer = store.provision(ana()).expect("the customer is created");
    assert_eq!(customer, stored_ana(1));
    assert_eq!(
        store.log,
        vec!["begin", "insert customer", "insert account", "commit"]
    );
    assert_eq!(store.customers, vec![stored_ana(1)]);
    assert_eq!(store.accounts.len(), 1);
    let account = store.account_of(customer.id).expect("the account exists");
    assert_eq!(account.customer_id, customer.id);
    assert_eq!(account.account_type, AccountType::PAYMENT);
    assert_eq!(account.currency, "R$");
    assert_eq!(account.available_balance, Amount { mantissa: 0, scale: 0 });
    assert_eq!(account.ledger_balance, Amount { mantissa: 0, scale: 0 });
    assert_eq!(store.customer(customer.id), Ok(stored_ana(1)));
    assert!(store.pending.is_none());
}

#[test]
fn provisioning_steps_are_the_documented_ones() {
    let (state, step) = create_customer(ana());
    let sanitized = CreateCustomerRequest {
        full_name: "Ana Souza".to_string(),
        email: "ana@email.com".to_string(),
        cpf: "52998224725".to_string(),
    };
    assert_eq!(
        state,
        Provisioning::Opening {
            request: sanitized.clone()
        }
    );
    assert_eq!(step, ProvisioningStep::Perform(StoreCommand::Begin));
    let (state, step) = state.advance(StoreReply::Done);
    assert_eq!(state, Provisioning::InsertingCustomer);
    assert_eq!(
        step,
        ProvisioningStep::Perform(StoreCommand::InsertCustomer(sanitized))
    );
    let (state, step) = state.advance(StoreReply::Customer(stored_ana(9)));
    assert_eq!(
        state,
        Provisioning::InsertingAccount {
            customer: stored_ana(9)
        }
    );
    assert_eq!(
        step,
        ProvisioningStep::Perform(StoreCommand::InsertAccount(AccountCreateRequest {
            customer_id: EntityId { bits: 9 },
            account_type: AccountType::PAYMENT,
            currency: "R$".to_string(),
        }))
    );
    let account = Account {
        id: EntityId { bits: 10 },
        customer_id: EntityId { bits: 9 },
        account_type: AccountType::PAYMENT,
        currency: "R$".to_string(),
        available_balance: Amount::zero(),
        ledger_balance: Amount::zero(),
        created_at: Timestamp { micros: 5 },
        updated_at: Timestamp { micros: 5 },
    };
    let (state, step) = state.advance(StoreReply::Account(account));
    assert_eq!(
        state,
        Provisioning::Committing {
            customer: stored_ana(9)
        }
    );
    assert_eq!(step, ProvisioningStep::Perform(StoreCommand::Commit));
    let (state, step) = state.advance(StoreReply::Done);
    assert_eq!(state, Provisioning::Finished);
    assert_eq!(step, ProvisioningStep::Finish(Ok(stored_ana(9))));
    let (state, step) = state.advance(StoreReply::Done);
    assert_eq!(state, Provisioning::Finished);
    assert_eq!(
        step,
        ProvisioningStep::Finish(Err(MyError::Internal(InternalError {
            msg: "The provisioning has already finished".to_string()
        })))
    );
}

#[test]
fn invalid_cpf_is_refused_before_the_store_is_touched() {
    let mut store = MemoryStore::new();
    let mut request = ana();
    request.cpf = "529.982.247-26".to_string();
    assert_eq!(
        store.provision(request),
        Err(MyError::ApiError(ApiError {
            msg: "Dígitos verificadores inválidos".to_string()
        }))
    );
    let mut request = ana();
    request.cpf = "123".to_string();
    assert_eq!(
        store.provision(request),
        Err(MyError::ApiError(ApiError {
            msg: "CPF deve ter 11 dígitos (recebido 3)".to_string()
        }))
    );
    let mut request = ana();
    request.cpf = "111.111.111-11".to_string();
    assert_eq!(
        store.provision(request),
        Err(MyError::ApiError(ApiError {
            msg: "CPF não pode ter todos dígitos iguais".to_string()
        }))
    );
    assert!(store.log.is_empty());
    assert!(store.customers.is_empty());
}

#[test]
fn letters_in_the_cpf_are_dropped_before_validation() {
    let mut store = MemoryStore::new();
    let mut request = ana();
    request.cpf = "CPF 529.982.247-25 (titular)".to_string();
    let customer = store.provision(request).expect("the customer is created");
    assert_eq!(customer.cpf, "52998224725");
}

#[test]
fn failed_account_insert_leaves_no_customer() {
    let mut store = MemoryStore::new();
    store.account_inserts_fail = true;
    assert_eq!(
        store.provision(ana()),
        Err(MyError::Internal(InternalError {
            msg: "connection closed".to_string()
        }))
    );
    assert_eq!(
        store.log,
        vec!["begin", "insert customer", "insert account", "rollback"]
    );
    assert!(store.customers.is_empty());
    assert!(store.accounts.is_empty());
    assert!(store.pending.is_none());
    assert_eq!(store.customer(EntityId { bits: 1 }), Err(MyError::NotFound));
    assert!(!store
        .customers
        .iter()
        .any(|c| c.email == "ana@email.com" || c.cpf == "52998224725"));
    store.account_inserts_fail = false;
    let customer = store.provision(ana()).expect("the customer is created");
    assert_eq!(store.customer(customer.id), Ok(customer));
}

#[test]
fn duplicate_customer_is_a_conflict_and_is_rolled_back() {
    let mut store = MemoryStore::new();
    store.provision(ana()).expect("the customer is created");
    store.log.clear();
    assert_eq!(
        store.provision(ana()),
        Err(MyError::Conflict(ConflictError {
            msg: "Unique constraint violation: duplicate key value violates unique constraint \"customers_email_key\"".to_string()
        }))
    );
    assert_eq!(store.log, vec!["begin", "insert customer", "rollback"]);
    assert_eq!(store.customers.len(), 1);
    assert_eq!(store.accounts.len(), 1);
    assert!(store.pending.is_none());
}

#[test]
fn failed_commit_is_reported() {
    let mut store = MemoryStore::new();
    store.commits_fail = true;
    assert_eq!(
        store.provision(ana()),
        Err(MyError::PGError(connection_lost()))
    );
    assert!(store.customers.is_empty());
    assert!(store.accounts.is_empty());
}

#[test]
fn unit_that_cannot_be_opened_ends_the_provisioning() {
    let (state, _) = create_customer(ana());
    let (state, step) = state.advance(StoreReply::Failed(connection_lost()));
    assert_eq!(state, Provisioning::Finished);
    assert_eq!(
        step,
        ProvisioningStep::Finish(Err(MyError::PGError(connection_lost())))
    );
}

#[test]
fn insert_without_a_row_is_internal_and_rolled_back() {
    let (state, _) = create_customer(ana());
    let (state, _) = state.advance(StoreReply::Done);
    let (state, step) = state.advance(StoreReply::NoRow);
    assert_eq!(step, ProvisioningStep::Perform(StoreCommand::Rollback));
    let (state, step) = state.advance(StoreReply::Done);
    assert_eq!(state, Provisioning::Finished);
    assert_eq!(
        step,
        ProvisioningStep::Finish(Err(MyError::Internal(InternalError {
            msg: "Nenhum registro retornado".to_string()
        })))
    );
}

#[test]
fn unreadable_row_is_internal_and_rolled_back() {
    let (state, _) = create_customer(ana());
    let (state, _) = state.advance(StoreReply::Done);
    let (state, _) = state.advance(StoreReply::Customer(stored_ana(3)));
    let (state, step) = state.advance(StoreReply::Unmapped("column \"currency\" missing".to_string()));
    assert_eq!(step, ProvisioningStep::Perform(StoreCommand::Rollback));
    let (_, step) = state.advance(StoreReply::Failed(connection_lost()));
    assert_eq!(
        step,
        ProvisioningStep::Finish(Err(MyError::Internal(InternalError {
            msg: "column \"currency\" missing".to_string()
        })))
    );
}

#[test]
fn reply_of_the_wrong_kind_is_internal() {
    let (state, _) = create_customer(ana());
    let (state, step) = state.advance(StoreReply::NoRow);
    assert_eq!(state, Provisioning::Finished);
    assert_eq!(
        step,
        ProvisioningStep::Finish(Err(MyError::Internal(InternalError {
            msg: "Unexpected reply from the store".to_string()
        })))
    );
}

#[test]
fn lookups_report_not_found() {
    let mut store = MemoryStore::new();
    assert_eq!(store.customer(EntityId { bits: 77 }), Err(MyError::NotFound));
    assert_eq!(store.account_of(EntityId { bits: 77 }), Err(MyError::NotFound));
    assert_eq!(
        get_customer_by_id(EntityId { bits: 77 }),
        StoreCommand::FindCustomer(EntityId { bits: 77 })
    );
    assert_eq!(
        get_account_by_customer_id(EntityId { bits: 77 }),
        StoreCommand::FindAccountByCustomer(EntityId { bits: 77 })
    );
}

#[test]
fn lookups_report_store_failures() {
    assert_eq!(
        customer_from_reply(StoreReply::Failed(connection_lost())),
        Err(MyError::PGError(connection_lost()))
    );
    assert_eq!(
        account_from_reply(StoreReply::Unmapped("bad row".to_string())),
        Err(MyError::Internal(InternalError {
            msg: "bad row".to_string()
        }))
    );
    assert_eq!(
        customer_from_reply(StoreReply::Done),
        Err(MyError::Internal(InternalError {
            msg: "Unexpected reply from the store".to_string()
        }))
    );
    assert_eq!(customer_from_reply(StoreReply::Customer(stored_ana(4))), Ok(stored_ana(4)));
}

#[test]
fn new_accounts_are_payment_accounts_in_reais() {
    assert_eq!(
        create_account(&EntityId { bits: 5 }),
        StoreCommand::InsertAccount(AccountCreateRequest {
            customer_id: EntityId { bits: 5 },
            account_type: AccountType::PAYMENT,
            currency: "R$".to_string(),
        })
    );
    assert_eq!(ACCOUNT_CURRENCY, "R$");
}
