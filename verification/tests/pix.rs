use customer_onboarding::application::dto::pix_key_dto::{CreatePixKeyRequest, PixKeyResponse};
use customer_onboarding::application::pix_service::{
    check_pix_request, create_pix_key, PixRegistration, PixStep,
};
use customer_onboarding::application::store::{StoreCommand, StoreReply};
use customer_onboarding::domain::account::Account;
use customer_onboarding::domain::customer::Customer;
use customer_onboarding::domain::enums::AccountType;
use customer_onboarding::domain::pix_key::{PixKey, PixKeyType};
use customer_onboarding::domain::values::{Amount, EntityId, Timestamp};
use customer_onboarding::infrastructure::error::{
    ApiError, ConflictError, DbError, InternalError, MyError, StoreError,
};

fn bruno() -> Customer {
    Customer {
        id: EntityId { bits: 21 },
        full_name: "Bruno Lima".to_string(),
        email: "bruno@email.com".to_string(),
        cpf: "52998224725".to_string(),
        phone: Some("+55 11 91234-5678".to_string()),
        is_active: true,
        created_at: Timestamp { micros: 10 },
        updated_at: Timestamp { micros: 10 },
    }
}

fn account_of_bruno() -> Account {
    Account {
        id: EntityId { bits: 22 },
        customer_id: EntityId { bits: 21 },
        account_type: AccountType::PAYMENT,
        currency: "R$".to_string(),
        available_balance: Amount::zero(),
        ledger_balance: Amount::zero(),
        created_at: Timestamp { micros: 11 },
        updated_at: Timestamp { micros: 11 },
    }
}

fn request(key_type: PixKeyType, key_value: &str) -> CreatePixKeyRequest {
    CreatePixKeyRequest {
        key_type,
        key_value: key_value.to_string(),
    }
}

fn refused(message: &str) -> Result<(), MyError> {
    Err(MyError::ApiError(ApiError {
        msg: message.to_string(),
    }))
}

fn stored_key(request: &CreatePixKeyRequest, account_id: EntityId) -> PixKey {
    PixKey {
        id: EntityId { bits: 23 },
        account_id,
        key_type: request.key_type,
        key_value: request.key_value.clone(),
        is_active: true,
        created_at: Timestamp { micros: 12 },
        deactivated_at: None,
    }
}

/// Drives a registration against a store that holds Bruno and his account.
fn register(request: CreatePixKeyRequest, customer_id: EntityId) -> Result<PixKey, MyError> {
    let (mut state, mut step) = create_pix_key(request, customer_id);
    loop {
        match step {
            PixStep::Finish(outcome) => return outcome,
            PixStep::Perform(command) => {
                let reply = match command {
                    StoreCommand::FindCustomer(id) if id == bruno().id => {
                        StoreReply::Customer(bruno())
                    }
                    StoreCommand::FindAccountByCustomer(id) if id == bruno().id => {
                        StoreReply::Account(account_of_bruno())
                    }
                    StoreCommand::InsertPixKey {
                        request,
                        account_id,
                    } => StoreReply::PixKey(stored_key(&request, account_id)),
                    _ => StoreReply::NoRow,
                };
                let next = state.advance(reply);
                state = next.0;
                step = next.1;
            }
        }
    }
}

fn is_drawn_value(text: &str) -> bool {
    let chars: Vec<char> = text.chars().collect();
    chars.len() == 36
        && chars.iter().enumerate().all(|(i, c)| match i {
            8 | 13 | 18 | 23 => *c == '-',
            _ => c.is_ascii_digit() || ('a'..='f').contains(c),
        })
        && chars[14] == '4'
        && matches!(chars[19], '8' | '9' | 'a' | 'b')
}

#[test]
fn email_key_of_the_customer_is_registered() {
    let key = register(request(PixKeyType::EMAIL, "bruno@email.com"), bruno().id)
        .expect("the key is registered");
    assert_eq!(
        key,
        stored_key(&request(PixKeyType::EMAIL, "bruno@email.com"), EntityId { bits: 22 })
    );
}

#[test]
fn email_mismatch_is_not_a_malformed_email() {
    let mismatch = check_pix_request(&bruno(), &request(PixKeyType::EMAIL, "outro@email.com"));
    assert_eq!(mismatch, refused("Email does not match the customer's email"));
    let without_at = check_pix_request(&bruno(), &request(PixKeyType::EMAIL, "brunoemail.com"));
    assert_eq!(without_at, refused("Email must contain the '@' character"));
    let special = check_pix_request(&bruno(), &request(PixKeyType::EMAIL, "bruno!@email.com"));
    assert_eq!(special, refused("Email cannot contain special characters"));
    let long = format!("{}@email.com", "a".repeat(95));
    let too_long = check_pix_request(&bruno(), &request(PixKeyType::EMAIL, &long));
    assert_eq!(
        too_long,
        refused("Email must be at most 100 characters (got 105)")
    );
    assert_ne!(mismatch, without_at);
    assert_ne!(mismatch, special);
    assert_ne!(mismatch, too_long);
    assert_eq!(
        check_pix_request(&bruno(), &request(PixKeyType::EMAIL, "bruno@email.com")),
        Ok(())
    );
}

#[test]
fn email_mismatch_ends_the_registration() {
    assert_eq!(
        register(request(PixKeyType::EMAIL, "outro@email.com"), bruno().id),
        Err(MyError::ApiError(ApiError {
            msg: "Email does not match the customer's email".to_string()
        }))
    );
}

#[test]
fn cpf_key_must_be_valid_and_the_customers_own() {
    assert_eq!(
        check_pix_request(&bruno(), &request(PixKeyType::CPF, "52998224725")),
        Ok(())
    );
    assert_eq!(
        check_pix_request(&bruno(), &request(PixKeyType::CPF, "11144477735")),
        refused("CPF does not match the customer's CPF")
    );
    assert_eq!(
        check_pix_request(&bruno(), &request(PixKeyType::CPF, "529.982.247-25")),
        refused("CPF does not match the customer's CPF")
    );
    assert_eq!(
        check_pix_request(&bruno(), &request(PixKeyType::CPF, "52998224726")),
        refused("Dígitos verificadores inválidos")
    );
    assert_eq!(
        check_pix_request(&bruno(), &request(PixKeyType::CPF, "5299822472")),
        refused("CPF deve ter 11 dígitos (recebido 10)")
    );
    assert_eq!(
        check_pix_request(&bruno(), &request(PixKeyType::CPF, "5299822472X")),
        refused("CPF deve conter apenas dígitos")
    );
    assert_eq!(
        check_pix_request(&bruno(), &request(PixKeyType::CPF, "00000000000")),
        refused("CPF não pode ter todos dígitos iguais")
    );
}

#[test]
fn cnpj_key_is_only_validated() {
    assert_eq!(
        check_pix_request(&bruno(), &request(PixKeyType::CNPJ, "04252011000110")),
        Ok(())
    );
    assert_eq!(
        check_pix_request(&bruno(), &request(PixKeyType::CNPJ, "04.252.011/0001-10")),
        Ok(())
    );
    assert_eq!(
        check_pix_request(&bruno(), &request(PixKeyType::CNPJ, "04252011000100")),
        refused("Dígitos verificadores inválidos")
    );
    assert_eq!(
        check_pix_request(&bruno(), &request(PixKeyType::CNPJ, "0425201100011")),
        refused("CNPJ deve ter 14 dígitos (recebido 13)")
    );
    assert_eq!(
        check_pix_request(&bruno(), &request(PixKeyType::CNPJ, "0425201100011A")),
        refused("CNPJ deve conter apenas dígitos")
    );
    assert_eq!(
        check_pix_request(&bruno(), &request(PixKeyType::CNPJ, "11111111111111")),
        refused("CNPJ não pode ter todos dígitos iguais")
    );
}

#[test]
fn phone_key_needs_a_stored_phone_that_matches() {
    assert_eq!(
        check_pix_request(&bruno(), &request(PixKeyType::PHONE, "+55 11 91234-5678")),
        Ok(())
    );
    assert_eq!(
        check_pix_request(&bruno(), &request(PixKeyType::PHONE, "+55 11 90000-0000")),
        refused("Phone number does not match the customer's phone number")
    );
    assert_eq!(
        check_pix_request(&bruno(), &request(PixKeyType::PHONE, "11@91234-5678")),
        refused("Phone number cannot contain special characters")
    );
    assert_eq!(
        check_pix_request(&bruno(), &request(PixKeyType::PHONE, "+55 11 91234-5678 000")),
        refused("Phone number must be at most 20 characters (got 21)")
    );
    let mut without_phone = bruno();
    without_phone.phone = None;
    assert_eq!(
        check_pix_request(&without_phone, &request(PixKeyType::PHONE, "+55 11 91234-5678")),
        refused("Customer does not have a phone number")
    );
    assert_eq!(
        check_pix_request(&without_phone, &request(PixKeyType::PHONE, "11@91234-5678")),
        refused("Customer does not have a phone number")
    );
}

#[test]
fn random_key_ignores_the_value_in_the_request() {
    let sent = "whatever the caller sent";
    let key = register(request(PixKeyType::RANDOM, sent), bruno().id)
        .expect("the key is registered");
    assert_eq!(key.key_type, PixKeyType::RANDOM);
    assert_eq!(key.account_id, EntityId { bits: 22 });
    assert_ne!(key.key_value, sent);
    assert!(is_drawn_value(&key.key_value));
    let again = register(request(PixKeyType::RANDOM, sent), bruno().id)
        .expect("the key is registered");
    assert!(is_drawn_value(&again.key_value));
    assert_ne!(again.key_value, key.key_value);
    let empty = register(request(PixKeyType::RANDOM, ""), bruno().id)
        .expect("the key is registered");
    assert!(is_drawn_value(&empty.key_value));
}

#[test]
fn random_key_is_accepted_whatever_the_request_holds() {
    assert_eq!(
        check_pix_request(&bruno(), &request(PixKeyType::RANDOM, "!!!")),
        Ok(())
    );
    assert_eq!(
        check_pix_request(&bruno(), &request(PixKeyType::RANDOM, "")),
        Ok(())
    );
}

#[test]
fn given_value_is_stored_for_a_random_key() {
    let state = PixRegistration::FindingAccount {
        customer: bruno(),
        request: request(PixKeyType::RANDOM, "sent"),
    };
    assert!(state.needs_generated_key(&StoreReply::Account(account_of_bruno())));
    assert!(!state.needs_generated_key(&StoreReply::NoRow));
    let (state, step) = state.advance_with(
        StoreReply::Account(account_of_bruno()),
        "6f1c2b1e-0d3a-4c55-9f0e-2a6b8f1d3c4e".to_string(),
    );
    assert_eq!(state, PixRegistration::Inserting);
    assert_eq!(
        step,
        PixStep::Perform(StoreCommand::InsertPixKey {
            request: request(PixKeyType::RANDOM, "6f1c2b1e-0d3a-4c55-9f0e-2a6b8f1d3c4e"),
            account_id: EntityId { bits: 22 },
        })
    );
}

#[test]
fn given_value_is_not_used_for_other_keys() {
    let state = PixRegistration::FindingAccount {
        customer: bruno(),
        request: request(PixKeyType::EMAIL, "bruno@email.com"),
    };
    assert!(!state.needs_generated_key(&StoreReply::Account(account_of_bruno())));
    let (_, step) = state.advance_with(
        StoreReply::Account(account_of_bruno()),
        "6f1c2b1e-0d3a-4c55-9f0e-2a6b8f1d3c4e".to_string(),
    );
    assert_eq!(
        step,
        PixStep::Perform(StoreCommand::InsertPixKey {
            request: request(PixKeyType::EMAIL, "bruno@email.com"),
            account_id: EntityId { bits: 22 },
        })
    );
}

#[test]
fn registration_steps_are_the_documented_ones() {
    let (state, step) = create_pix_key(request(PixKeyType::CPF, "52998224725"), bruno().id);
    assert_eq!(
        state,
        PixRegistration::FindingCustomer {
            customer_id: EntityId { bits: 21 },
            request: request(PixKeyType::CPF, "52998224725"),
        }
    );
    assert_eq!(
        step,
        PixStep::Perform(StoreCommand::FindCustomer(EntityId { bits: 21 }))
    );
    let (state, step) = state.advance(StoreReply::Customer(bruno()));
    assert_eq!(
        state,
        PixRegistration::FindingAccount {
            customer: bruno(),
            request: request(PixKeyType::CPF, "52998224725"),
        }
    );
    assert_eq!(
        step,
        PixStep::Perform(StoreCommand::FindAccountByCustomer(EntityId { bits: 21 }))
    );
    let (state, step) = state.advance(StoreReply::Account(account_of_bruno()));
    assert_eq!(state, PixRegistration::Inserting);
    assert_eq!(
        step,
        PixStep::Perform(StoreCommand::InsertPixKey {
            request: request(PixKeyType::CPF, "52998224725"),
            account_id: EntityId { bits: 22 },
        })
    );
    let key = stored_key(&request(PixKeyType::CPF, "52998224725"), EntityId { bits: 22 });
    let (state, step) = state.advance(StoreReply::PixKey(key.clone()));
    assert_eq!(state, PixRegistration::Finished);
    assert_eq!(step, PixStep::Finish(Ok(key)));
    let (state, step) = state.advance(StoreReply::Done);
    assert_eq!(state, PixRegistration::Finished);
    assert_eq!(
        step,
        PixStep::Finish(Err(MyError::Internal(InternalError {
            msg: "The registration has already finished".to_string()
        })))
    );
}

#[test]
fn unknown_customer_is_not_found() {
    assert_eq!(
        register(request(PixKeyType::RANDOM, ""), EntityId { bits: 404 }),
        Err(MyError::NotFound)
    );
}

#[test]
fn customer_without_account_is_not_found() {
    let (state, _) = create_pix_key(request(PixKeyType::RANDOM, ""), bruno().id);
    let (state, _) = state.advance(StoreReply::Customer(bruno()));
    let (state, step) = state.advance(StoreReply::NoRow);
    assert_eq!(state, PixRegistration::Finished);
    assert_eq!(step, PixStep::Finish(Err(MyError::NotFound)));
}

#[test]
fn key_insert_failures_are_classified() {
    let inserting = || PixRegistration::Inserting;
    let duplicate = StoreError {
        db_error: Some(DbError {
            code: "23505".to_string(),
            message: "duplicate key".to_string(),
            detail: None,
        }),
        text: "db error".to_string(),
    };
    assert_eq!(
        inserting().advance(StoreReply::Failed(duplicate)).1,
        PixStep::Finish(Err(MyError::Conflict(ConflictError {
            msg: "Unique constraint violation: duplicate key".to_string()
        })))
    );
    assert_eq!(
        inserting().advance(StoreReply::NoRow).1,
        PixStep::Finish(Err(MyError::Internal(InternalError {
            msg: "Nenhum registro retornado".to_string()
        })))
    );
    assert_eq!(
        inserting().advance(StoreReply::Unmapped("bad row".to_string())).1,
        PixStep::Finish(Err(MyError::Internal(InternalError {
            msg: "bad row".to_string()
        })))
    );
}

#[test]
fn lookup_failures_end_the_registration() {
    let lost = StoreError {
        db_error: None,
        text: "connection closed".to_string(),
    };
    let (state, _) = create_pix_key(request(PixKeyType::RANDOM, ""), bruno().id);
    let (state, step) = state.advance(StoreReply::Failed(lost.clone()));
    assert_eq!(state, PixRegistration::Finished);
    assert_eq!(step, PixStep::Finish(Err(MyError::PGError(lost))));
}

#[test]
fn pix_key_response_shows_the_key() {
    let key = stored_key(&request(PixKeyType::PHONE, "+55 11 91234-5678"), EntityId { bits: 22 });
    assert_eq!(
        PixKeyResponse::from(key),
        PixKeyResponse {
            id: EntityId { bits: 23 },
            account_id: EntityId { bits: 22 },
            key_type: PixKeyType::PHONE,
            key_value: "+55 11 91234-5678".to_string(),
            is_active: true,
            created_at: Timestamp { micros: 12 },
            deactivated_at: None,
        }
    );
}
