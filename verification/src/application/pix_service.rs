use crate::application::dto::pix_key_dto::{CreatePixKeyRequest, CreatePixKeyRequestView};
use crate::application::store::{
    insert_failure, insert_failure_of, lookup_failure, lookup_failure_of, StoreCommand,
    StoreCommandView, StoreReply, StoreReplyView,
};
use crate::domain::account::AccountView;
use crate::domain::customer::{Customer, CustomerView};
use crate::domain::ids::{entity_id_text, hyphenated_text, is_random_id, random_entity_id};
use crate::domain::pix_key::{PixKey, PixKeyType, PixKeyView};
use crate::domain::values::EntityId;
use crate::infrastructure::error::{
    error_response_of, ApiError, InternalError, MyError, MyErrorView, STATUS_BAD_REQUEST,
};
use crate::shared::cnpj::{cnpj_error_text, cnpj_verdict, validate_cnpj};
use crate::shared::cpf::{cpf_error_text, cpf_verdict, validate_cpf, CpfValidationError};
use crate::shared::email::{
    email_error_text, email_verdict, validate_email, EmailValidationError,
};
use crate::shared::phone::{
    phone_error_text, phone_verdict, validate_phone, PhoneValidationError,
};
use crate::shared::text::same_text;
use vstd::prelude::*;
use vstd::string::StringExecFns;

verus! {

/// What a caller is told where a CPF key is well formed but is not the
/// customer's CPF.
pub const CPF_MISMATCH: &'static str = "CPF does not match the customer's CPF";

/// What a caller is told where an e-mail key is well formed but is not the
/// customer's e-mail address.
pub const EMAIL_MISMATCH: &'static str = "Email does not match the customer's email";

/// What a caller is told where a phone key is well formed but is not the
/// customer's phone number.
pub const PHONE_MISMATCH: &'static str =
    "Phone number does not match the customer's phone number";

/// What a caller is told where a phone key is asked for a customer of whom
/// no phone number is known.
pub const PHONE_MISSING: &'static str = "Customer does not have a phone number";

/// What a caller is told where a registration is driven on after its end.
pub const REGISTRATION_FINISHED: &'static str = "The registration has already finished";

/// Why a key is refused for a customer, as the message that the caller is
/// told; `None` where it is accepted. A malformed value of a kind is refused
/// with the validator's message; a well-formed value that is not the
/// customer's own is refused with the mismatch message of its kind. A CNPJ
/// is only validated, and a random key is accepted whatever the request
/// holds.
pub open spec fn pix_request_fault(
    customer: CustomerView,
    request: CreatePixKeyRequestView,
) -> Option<Seq<char>> {
    match request.key_type {
        PixKeyType::CNPJ => match cnpj_verdict(request.key_value) {
            Err(error) => Some(cnpj_error_text(error)),
            Ok(_) => None,
        },
        PixKeyType::CPF => match cpf_verdict(request.key_value) {
            Err(error) => Some(cpf_error_text(error)),
            Ok(_) => if customer.cpf != request.key_value {
                Some(CPF_MISMATCH@)
            } else {
                None
            },
        },
        PixKeyType::EMAIL => match email_verdict(request.key_value) {
            Err(error) => Some(email_error_text(error)),
            Ok(_) => if customer.email != request.key_value {
                Some(EMAIL_MISMATCH@)
            } else {
                None
            },
        },
        PixKeyType::PHONE => match customer.phone {
            None => Some(PHONE_MISSING@),
            Some(phone) => match phone_verdict(request.key_value) {
                Err(error) => Some(phone_error_text(error)),
                Ok(_) => if phone != request.key_value {
                    Some(PHONE_MISMATCH@)
                } else {
                    None
                },
            },
        },
        PixKeyType::RANDOM => None,
    }
}

/// The value under which an accepted key is stored: the one that the system
/// drew for a random key, the caller's own for every other kind.
pub open spec fn stored_key_value(
    request: CreatePixKeyRequestView,
    generated: Seq<char>,
) -> Seq<char> {
    if request.key_type == PixKeyType::RANDOM {
        generated
    } else {
        request.key_value
    }
}

/// A refusal with the given message.
fn refusal(message: String) -> (verdict: Result<(), MyError>)
    ensures
        verdict matches Err(error) && error@ == MyErrorView::ApiError(message@),
{
    Err(MyError::ApiError(ApiError { msg: message }))
}

/// Decides whether a key may be registered for a customer.
pub fn check_pix_request(customer: &Customer, request: &CreatePixKeyRequest) -> (verdict: Result<
    (),
    MyError,
>)
    ensures
        match pix_request_fault(customer@, request@) {
            Some(message) => verdict matches Err(error) && error@ == MyErrorView::ApiError(
                message,
            ),
            None => verdict is Ok,
        },
{
    match request.key_type {
        PixKeyType::CNPJ => match validate_cnpj(request.key_value.as_str()) {
            Err(error) => refusal(error.message()),
            Ok(_) => Ok(()),
        },
        PixKeyType::CPF => match validate_cpf(request.key_value.as_str()) {
            Err(error) => refusal(error.message()),
            Ok(_) => if !same_text(customer.cpf.as_str(), request.key_value.as_str()) {
                refusal(String::from_str(CPF_MISMATCH))
            } else {
                Ok(())
            },
        },
        PixKeyType::EMAIL => match validate_email(request.key_value.as_str()) {
            Err(error) => refusal(error.message()),
            Ok(_) => if !same_text(customer.email.as_str(), request.key_value.as_str()) {
                refusal(String::from_str(EMAIL_MISMATCH))
            } else {
                Ok(())
            },
        },
        PixKeyType::PHONE => match &customer.phone {
            None => refusal(String::from_str(PHONE_MISSING)),
            Some(phone) => match validate_phone(request.key_value.as_str()) {
                Err(error) => refusal(error.message()),
                Ok(_) => if !same_text(phone.as_str(), request.key_value.as_str()) {
                    refusal(String::from_str(PHONE_MISMATCH))
                } else {
                    Ok(())
                },
            },
        },
        PixKeyType::RANDOM => Ok(()),
    }
}

/// How far the registration of a PIX key has come.
#[derive(Debug, Clone, PartialEq, Eq)]
pub enum PixRegistration {
    /// The customer is being looked up.
    FindingCustomer { customer_id: EntityId, request: CreatePixKeyRequest },
    /// The customer was found; the account is being looked up.
    FindingAccount { customer: Customer, request: CreatePixKeyRequest },
    /// The key was accepted and is being inserted.
    Inserting,
    /// The outcome has been handed out.
    Finished,
}

/// What a registration asks for next: a command for the store, or nothing
/// more, with the outcome.
#[derive(Debug, PartialEq, Eq)]
pub enum PixStep {
    Perform(StoreCommand),
    Finish(Result<PixKey, MyError>),
}

/// What a `PixRegistration` holds, with its text as sequences of characters.
pub enum PixRegistrationView {
    FindingCustomer { customer_id: EntityId, request: CreatePixKeyRequestView },
    FindingAccount { customer: CustomerView, request: CreatePixKeyRequestView },
    Inserting,
    Finished,
}

/// What a `PixStep` holds, with its text as sequences of characters.
pub enum PixStepView {
    Perform(StoreCommandView),
    Finish(Result<PixKeyView, MyErrorView>),
}

impl View for PixRegistration {
    type V = PixRegistrationView;

    open spec fn view(&self) -> PixRegistrationView {
        match self {
            PixRegistration::FindingCustomer { customer_id, request } =>
                PixRegistrationView::FindingCustomer {
                    customer_id: *customer_id,
                    request: request@,
                },
            PixRegistration::FindingAccount { customer, request } =>
                PixRegistrationView::FindingAccount { customer: customer@, request: request@ },
            PixRegistration::Inserting => PixRegistrationView::Inserting,
            PixRegistration::Finished => PixRegistrationView::Finished,
        }
    }
}

impl View for PixStep {
    type V = PixStepView;

    open spec fn view(&self) -> PixStepView {
        match self {
            PixStep::Perform(command) => PixStepView::Perform(command@),
            PixStep::Finish(Ok(pix_key)) => PixStepView::Finish(Ok(pix_key@)),
            PixStep::Finish(Err(error)) => PixStepView::Finish(Err(error@)),
        }
    }
}

/// Where a registration goes on a reply of the store, and what it asks for
/// next. `generated` is the value that the system drew, in case the key is a
/// random one.
pub open spec fn pix_advance(
    state: PixRegistrationView,
    reply: StoreReplyView,
    generated: Seq<char>,
) -> (PixRegistrationView, PixStepView) {
    match state {
        PixRegistrationView::FindingCustomer { customer_id, request } => match reply {
            StoreReplyView::Customer(customer) => (
                PixRegistrationView::FindingAccount { customer, request },
                PixStepView::Perform(StoreCommandView::FindAccountByCustomer(customer_id)),
            ),
            _ => (
                PixRegistrationView::Finished,
                PixStepView::Finish(Err(lookup_failure_of(reply))),
            ),
        },
        PixRegistrationView::FindingAccount { customer, request } => match reply {
            StoreReplyView::Account(account) => match pix_request_fault(customer, request) {
                Some(message) => (
                    PixRegistrationView::Finished,
                    PixStepView::Finish(Err(MyErrorView::ApiError(message))),
                ),
                None => (
                    PixRegistrationView::Inserting,
                    PixStepView::Perform(
                        StoreCommandView::InsertPixKey {
                            request: CreatePixKeyRequestView {
                                key_type: request.key_type,
                                key_value: stored_key_value(request, generated),
                            },
                            account_id: account.id,
                        },
                    ),
                ),
            },
            _ => (
                PixRegistrationView::Finished,
                PixStepView::Finish(Err(lookup_failure_of(reply))),
            ),
        },
        PixRegistrationView::Inserting => match reply {
            StoreReplyView::PixKey(pix_key) => (
                PixRegistrationView::Finished,
                PixStepView::Finish(Ok(pix_key)),
            ),
            _ => (
                PixRegistrationView::Finished,
                PixStepView::Finish(Err(insert_failure_of(reply))),
            ),
        },
        PixRegistrationView::Finished => (
            PixRegistrationView::Finished,
            PixStepView::Finish(Err(MyErrorView::Internal(REGISTRATION_FINISHED@))),
        ),
    }
}

/// Whether `text` is a value that the system can draw: the written form of
/// an identifier that carries the marks of a random one.
pub open spec fn is_drawn_key(text: Seq<char>) -> bool {
    exists|bits: u128| is_random_id(bits) && text == #[trigger] hyphenated_text(bits)
}

/// Whether the step that `state` takes on `reply` stores a value that the
/// system draws.
pub open spec fn draws_key(state: PixRegistrationView, reply: StoreReplyView) -> bool {
    match state {
        PixRegistrationView::FindingAccount { customer, request } => reply is Account
            && request.key_type == PixKeyType::RANDOM,
        _ => false,
    }
}

/// Starts the registration of a PIX key for a customer: the first thing to
/// do is to look the customer up.
pub fn create_pix_key(request: CreatePixKeyRequest, customer_id: EntityId) -> (start: (
    PixRegistration,
    PixStep,
))
    ensures
        start.0@ == (PixRegistrationView::FindingCustomer { customer_id, request: request@ }),
        start.1@ == PixStepView::Perform(StoreCommandView::FindCustomer(customer_id)),
{
    (
        PixRegistration::FindingCustomer { customer_id, request },
        PixStep::Perform(StoreCommand::FindCustomer(customer_id)),
    )
}

impl PixRegistration {
    /// Whether the step that this registration takes on `reply` stores a
    /// value that the system draws.
    pub fn needs_generated_key(&self, reply: &StoreReply) -> (needed: bool)
        ensures
            needed == draws_key(self@, reply@),
    {
        match self {
            PixRegistration::FindingAccount { customer, request } => match reply {
                StoreReply::Account(_) => match request.key_type {
                    PixKeyType::RANDOM => true,
                    _ => false,
                },
                _ => false,
            },
            _ => false,
        }
    }

    /// Takes the step that follows `reply`, with `generated` as the value to
    /// store in case the key is a random one.
    pub fn advance_with(self, reply: StoreReply, generated: String) -> (next: (
        PixRegistration,
        PixStep,
    ))
        ensures
            next@ == pix_advance(self@, reply@, generated@),
    {
        match self {
            PixRegistration::FindingCustomer { customer_id, request } => match reply {
                StoreReply::Customer(customer) => (
                    PixRegistration::FindingAccount { customer, request },
                    PixStep::Perform(StoreCommand::FindAccountByCustomer(customer_id)),
                ),
                other => (PixRegistration::Finished, PixStep::Finish(Err(lookup_failure(other)))),
            },
            PixRegistration::FindingAccount { customer, request } => match reply {
                StoreReply::Account(account) => match check_pix_request(&customer, &request) {
                    Err(error) => (PixRegistration::Finished, PixStep::Finish(Err(error))),
                    Ok(_) => {
                        let key_type = request.key_type;
                        let key_value = match key_type {
                            PixKeyType::RANDOM => generated,
                            _ => request.key_value,
                        };
                        (
                            PixRegistration::Inserting,
                            PixStep::Perform(
                                StoreCommand::InsertPixKey {
                                    request: CreatePixKeyRequest { key_type, key_value },
                                    account_id: account.id,
                                },
                            ),
                        )
                    },
                },
                other => (PixRegistration::Finished, PixStep::Finish(Err(lookup_failure(other)))),
            },
            PixRegistration::Inserting => match reply {
                StoreReply::PixKey(pix_key) => (
                    PixRegistration::Finished,
                    PixStep::Finish(Ok(pix_key)),
                ),
                other => (PixRegistration::Finished, PixStep::Finish(Err(insert_failure(other)))),
            },
            PixRegistration::Finished => (
                PixRegistration::Finished,
                PixStep::Finish(
                    Err(
                        MyError::Internal(
                            InternalError { msg: String::from_str(REGISTRATION_FINISHED) },
                        ),
                    ),
                ),
            ),
        }
    }

    /// Takes the step that follows `reply`. Where the key is a random one,
    /// its value is drawn here, and the value in the request is dropped.
    pub fn advance(self, reply: StoreReply) -> (next: (PixRegistration, PixStep))
        ensures
            exists|generated: Seq<char>|
                {
                    &&& next@ == #[trigger] pix_advance(self@, reply@, generated)
                    &&& draws_key(self@, reply@) ==> is_drawn_key(generated)
                },
    {
        let generated = if self.needs_generated_key(&reply) {
            entity_id_text(random_entity_id())
        } else {
            String::new()
        };
        self.advance_with(reply, generated)
    }
}

/// No message of the e-mail validator is the message of an e-mail mismatch.
pub proof fn lemma_email_messages_differ(error: EmailValidationError)
    ensures
        email_error_text(error) != EMAIL_MISMATCH@,
{
    reveal_strlit("Email does not match the customer's email");
    reveal_strlit("Email must be at most 100 characters (got ");
    reveal_strlit("Email must contain the '@' character");
    reveal_strlit("Email cannot contain special characters");
    assert(EMAIL_MISMATCH@[6] == 'd');
    match error {
        EmailValidationError::InvalidLength(_) => {
            assert(email_error_text(error)[6] == 'm');
        },
        EmailValidationError::MissingAtSymbol => {
            assert(email_error_text(error)[6] == 'm');
        },
        EmailValidationError::SpecialCharacters => {
            assert(email_error_text(error)[6] == 'c');
        },
    }
}

/// No message of the CPF validator is the message of a CPF mismatch.
pub proof fn lemma_cpf_messages_differ(error: CpfValidationError)
    ensures
        cpf_error_text(error) != CPF_MISMATCH@,
{
    reveal_strlit("CPF does not match the customer's CPF");
    reveal_strlit("CPF deve ter 11 dígitos (recebido ");
    reveal_strlit("CPF deve conter apenas dígitos");
    reveal_strlit("CPF não pode ter todos dígitos iguais");
    reveal_strlit("Dígitos verificadores inválidos");
    assert(CPF_MISMATCH@[0] == 'C');
    assert(CPF_MISMATCH@[5] == 'o');
    match error {
        CpfValidationError::InvalidLength(_) => {
            assert(cpf_error_text(error)[5] == 'e');
        },
        CpfValidationError::NonDigitCharacters => {
            assert(cpf_error_text(error)[5] == 'e');
        },
        CpfValidationError::AllDigitsEqual => {
            assert(cpf_error_text(error)[5] == 'ã');
        },
        CpfValidationError::InvalidCheckDigits => {
            assert(cpf_error_text(error)[0] == 'D');
        },
    }
}

/// No message of the phone validator is the message of a phone mismatch or
/// of a missing phone number.
pub proof fn lemma_phone_messages_differ(error: PhoneValidationError)
    ensures
        phone_error_text(error) != PHONE_MISMATCH@,
        phone_error_text(error) != PHONE_MISSING@,
{
    reveal_strlit("Phone number does not match the customer's phone number");
    reveal_strlit("Customer does not have a phone number");
    reveal_strlit("Phone number must be at most 20 characters (got ");
    reveal_strlit("Phone number cannot contain special characters");
    assert(PHONE_MISMATCH@[13] == 'd');
    assert(PHONE_MISSING@[0] == 'C');
    match error {
        PhoneValidationError::InvalidLength(_) => {
            assert(phone_error_text(error)[0] == 'P');
            assert(phone_error_text(error)[13] == 'm');
        },
        PhoneValidationError::SpecialCharacters => {
            assert(phone_error_text(error)[0] == 'P');
            assert(phone_error_text(error)[13] == 'c');
        },
    }
}

/// A key that is well formed for its kind and is not the customer's own is
/// refused with the mismatch message of its kind, which is the message of
/// no malformed value of that kind.
pub proof fn law_mismatch_is_told_apart(customer: CustomerView, request: CreatePixKeyRequestView)
    ensures
        request.key_type == PixKeyType::EMAIL && email_verdict(request.key_value) is Ok
            && request.key_value != customer.email ==> pix_request_fault(customer, request)
            == Some(EMAIL_MISMATCH@),
        request.key_type == PixKeyType::CPF && cpf_verdict(request.key_value) is Ok
            && request.key_value != customer.cpf ==> pix_request_fault(customer, request) == Some(
            CPF_MISMATCH@,
        ),
        request.key_type == PixKeyType::PHONE && phone_verdict(request.key_value) is Ok
            && customer.phone is Some && customer.phone != Some(request.key_value)
            ==> pix_request_fault(customer, request) == Some(PHONE_MISMATCH@),
        forall|error: EmailValidationError| #[trigger] email_error_text(error) != EMAIL_MISMATCH@,
        forall|error: CpfValidationError| #[trigger] cpf_error_text(error) != CPF_MISMATCH@,
        forall|error: PhoneValidationError| #[trigger]
            phone_error_text(error) != PHONE_MISMATCH@,
{
    assert forall|error: EmailValidationError| #[trigger]
        email_error_text(error) != EMAIL_MISMATCH@ by {
        lemma_email_messages_differ(error);
    }
    assert forall|error: CpfValidationError| #[trigger] cpf_error_text(error) != CPF_MISMATCH@ by {
        lemma_cpf_messages_differ(error);
    }
    assert forall|error: PhoneValidationError| #[trigger]
        phone_error_text(error) != PHONE_MISMATCH@ by {
        lemma_phone_messages_differ(error);
    }
}

/// A malformed key is refused with the message of the validator of its
/// kind, whatever the customer holds.
pub proof fn law_malformed_key_is_refused(customer: CustomerView, request: CreatePixKeyRequestView)
    ensures
        request.key_type == PixKeyType::EMAIL ==> (email_verdict(request.key_value) matches Err(
            error,
        ) ==> pix_request_fault(customer, request) == Some(email_error_text(error))),
        request.key_type == PixKeyType::CPF ==> (cpf_verdict(request.key_value) matches Err(error)
            ==> pix_request_fault(customer, request) == Some(cpf_error_text(error))),
        request.key_type == PixKeyType::CNPJ ==> (cnpj_verdict(request.key_value) matches Err(
            error,
        ) ==> pix_request_fault(customer, request) == Some(cnpj_error_text(error))),
        request.key_type == PixKeyType::PHONE && customer.phone is Some ==> (phone_verdict(
            request.key_value,
        ) matches Err(error) ==> pix_request_fault(customer, request) == Some(
            phone_error_text(error),
        )),
{
}

/// A random key is accepted whatever the request holds, and is stored under
/// the value that the system drew: what the caller sent has no part in it.
pub proof fn law_random_key_ignores_request(
    customer: CustomerView,
    sent: Seq<char>,
    generated: Seq<char>,
    account: AccountView,
)
    ensures
        ({
            let request = CreatePixKeyRequestView { key_type: PixKeyType::RANDOM, key_value: sent };
            &&& pix_request_fault(customer, request) is None
            &&& stored_key_value(request, generated) == generated
            &&& pix_advance(
                PixRegistrationView::FindingAccount { customer, request },
                StoreReplyView::Account(account),
                generated,
            ) == (
                PixRegistrationView::Inserting,
                PixStepView::Perform(
                    StoreCommandView::InsertPixKey {
                        request: CreatePixKeyRequestView {
                            key_type: PixKeyType::RANDOM,
                            key_value: generated,
                        },
                        account_id: account.id,
                    },
                ),
            )
        }),
{
}

/// The value under which a random key is stored differs from every value
/// that a caller sent and that is not the drawn one itself; so from every
/// value that has not the thirty-six characters of a drawn one.
pub proof fn law_random_key_is_not_the_request(sent: Seq<char>, generated: Seq<char>)
    requires
        is_drawn_key(generated),
        sent.len() != 36,
    ensures
        stored_key_value(
            CreatePixKeyRequestView { key_type: PixKeyType::RANDOM, key_value: sent },
            generated,
        ) != sent,
{
}

/// A key that is refused ends the registration before anything is written,
/// and is answered as a bad request, whether it was malformed or not the
/// customer's own.
pub proof fn law_refused_key_is_a_bad_request(
    customer: CustomerView,
    request: CreatePixKeyRequestView,
    account: AccountView,
    generated: Seq<char>,
)
    requires
        pix_request_fault(customer, request) is Some,
    ensures
        ({
            let message = pix_request_fault(customer, request)->Some_0;
            &&& pix_advance(
                PixRegistrationView::FindingAccount { customer, request },
                StoreReplyView::Account(account),
                generated,
            ) == (
                PixRegistrationView::Finished,
                PixStepView::Finish(Err(MyErrorView::ApiError(message))),
            )
            &&& error_response_of(MyErrorView::ApiError(message)).status == STATUS_BAD_REQUEST
        }),
{
}

/// The key that a registration asks the store to insert belongs to the
/// account that was found, and its value is bound to its kind: the
/// customer's own CPF, e-mail address or phone number, a valid CNPJ, or the
/// value that the system drew.
pub proof fn law_inserted_key_is_bound(
    customer: CustomerView,
    request: CreatePixKeyRequestView,
    account: AccountView,
    generated: Seq<char>,
)
    ensures
        pix_advance(
            PixRegistrationView::FindingAccount { customer, request },
            StoreReplyView::Account(account),
            generated,
        ).1 matches PixStepView::Perform(command) ==> {
            &&& command matches StoreCommandView::InsertPixKey { request: stored, account_id }
            &&& account_id == account.id
            &&& stored.key_type == request.key_type
            &&& match stored.key_type {
                PixKeyType::CPF => stored.key_value == customer.cpf && cpf_verdict(
                    stored.key_value,
                ) is Ok,
                PixKeyType::CNPJ => stored.key_value == request.key_value && cnpj_verdict(
                    stored.key_value,
                ) is Ok,
                PixKeyType::EMAIL => stored.key_value == customer.email && email_verdict(
                    stored.key_value,
                ) is Ok,
                PixKeyType::PHONE => customer.phone == Some(stored.key_value) && phone_verdict(
                    stored.key_value,
                ) is Ok,
                PixKeyType::RANDOM => stored.key_value == generated,
            }
        },
{
}

/// A registration for a customer that the store does not hold, or whose
/// account it does not hold, ends in `NotFound`, and nothing is written.
pub proof fn law_missing_records_are_not_found(
    customer_id: EntityId,
    customer: CustomerView,
    request: CreatePixKeyRequestView,
    generated: Seq<char>,
)
    ensures
        pix_advance(
            PixRegistrationView::FindingCustomer { customer_id, request },
            StoreReplyView::NoRow,
            generated,
        ) == (PixRegistrationView::Finished, PixStepView::Finish(Err(MyErrorView::NotFound))),
        pix_advance(
            PixRegistrationView::FindingAccount { customer, request },
            StoreReplyView::NoRow,
            generated,
        ) == (PixRegistrationView::Finished, PixStepView::Finish(Err(MyErrorView::NotFound))),
{
}

} // verus!
