use crate::domain::ids::{entity_id_text, hyphenated_text, parse_entity_id, parsed_entity_id};
use crate::domain::values::{optional_text, EntityId};
use crate::shared::text::{chars_of, starts_with};
use vstd::prelude::*;
use vstd::string::{StrSliceExecFns, StringExecFns};

verus! {

/// What a credential states: the customer it was issued for, in written
/// form, and the second at which it expires.
#[derive(Debug, Clone, PartialEq, Eq)]
pub struct Claims {
    pub sub: String,
    pub exp: usize,
}

/// What was read from a credential whose signature and expiry were accepted:
/// the subject, where it holds one that is text, and the expiry, where it
/// holds one that is a whole number below two to the sixty-fourth.
#[derive(Debug, Clone, PartialEq, Eq)]
pub struct RawClaims {
    pub sub: Option<String>,
    pub exp: Option<u64>,
}

/// Why a credential does not identify a customer.
#[derive(Debug, Clone, PartialEq, Eq)]
pub enum JwtError {
    /// No credential was supplied.
    MissingToken,
    /// The carrier of the credential does not begin with `Bearer `.
    InvalidFormat,
    /// The subject of the credential is not an identifier.
    InvalidCustomerId,
    /// The credential was not accepted; the payload says why.
    ValidationError(String),
}

/// Issues and verifies the credentials of customers, under one secret.
#[derive(Clone)]
pub struct JwtService {
    secret: String,
}

/// What a `Claims` holds, with its text as a sequence of characters.
pub struct ClaimsView {
    pub sub: Seq<char>,
    pub exp: usize,
}

/// What a `JwtError` holds, with its text as a sequence of characters.
pub enum JwtErrorView {
    MissingToken,
    InvalidFormat,
    InvalidCustomerId,
    ValidationError(Seq<char>),
}

impl View for Claims {
    type V = ClaimsView;

    open spec fn view(&self) -> ClaimsView {
        ClaimsView { sub: self.sub@, exp: self.exp }
    }
}

impl View for RawClaims {
    type V = (Option<Seq<char>>, Option<u64>);

    open spec fn view(&self) -> (Option<Seq<char>>, Option<u64>) {
        (optional_text(self.sub), self.exp)
    }
}

impl View for JwtError {
    type V = JwtErrorView;

    open spec fn view(&self) -> JwtErrorView {
        match self {
            JwtError::MissingToken => JwtErrorView::MissingToken,
            JwtError::InvalidFormat => JwtErrorView::InvalidFormat,
            JwtError::InvalidCustomerId => JwtErrorView::InvalidCustomerId,
            JwtError::ValidationError(text) => JwtErrorView::ValidationError(text@),
        }
    }
}

impl View for JwtService {
    type V = Seq<char>;

    /// The secret under which the service signs and verifies.
    closed spec fn view(&self) -> Seq<char> {
        self.secret@
    }
}

/// The secret that is used where none is configured.
pub const DEFAULT_SECRET: &'static str = "uma_chave_super_secreta_que_ninguem_sabe";

/// For how many seconds a credential is valid from its issuance.
pub const TOKEN_LIFETIME_SECONDS: usize = 3600;

/// What the carrier of a credential begins with.
pub const BEARER_PREFIX: &'static str = "Bearer ";

/// What a caller is told of a credential without a subject that is text.
pub const MISSING_SUBJECT: &'static str = "missing field `sub`";

/// What a caller is told of a credential without an expiry that is a whole
/// number within the range of this machine.
pub const MISSING_EXPIRY: &'static str = "missing field `exp`";

/// The credential that `jsonwebtoken::encode` makes for a subject and an
/// expiry under a secret, with the HS256 header; `None` where it fails.
pub uninterp spec fn signed_token(subject: Seq<char>, expiry: u64, secret: Seq<char>) -> Option<
    Seq<char>,
>;

/// What `jsonwebtoken::decode` reads from a credential that it accepts under
/// a secret: the subject, if there is one that is text, and the expiry, if
/// there is one that is a whole number below two to the sixty-fourth. Which
/// credentials it accepts depends on the time of the call; what it reads
/// from one does not.
pub uninterp spec fn carried_claims(token: Seq<char>, secret: Seq<char>) -> (
    Option<Seq<char>>,
    Option<u64>,
);

/// The customer that a credential names under a secret, if it names one.
pub open spec fn token_customer(token: Seq<char>, secret: Seq<char>) -> Option<EntityId> {
    match carried_claims(token, secret).0 {
        Some(subject) => parsed_entity_id(subject),
        None => None,
    }
}

/// Whether `token` is a credential that was issued under `secret` for a
/// customer at the second `issued_at`: it was signed for that customer's
/// written identifier and for the expiry one lifetime later, and whoever
/// accepts it under the same secret reads that customer from it.
pub open spec fn issued_for(
    token: Seq<char>,
    secret: Seq<char>,
    customer_id: EntityId,
    issued_at: usize,
) -> bool {
    &&& signed_token(
        hyphenated_text(customer_id.bits),
        (issued_at + TOKEN_LIFETIME_SECONDS) as u64,
        secret,
    ) == Some(token)
    &&& carried_claims(token, secret) == (
        Some(hyphenated_text(customer_id.bits)),
        Some((issued_at + TOKEN_LIFETIME_SECONDS) as u64),
    )
    &&& token_customer(token, secret) == Some(customer_id)
}

/// Signs a subject and an expiry with `jsonwebtoken::encode`, under the
/// HS256 header and with the secret as the key, and hands its error on as
/// text. The claims are a JSON object with the members `sub` and `exp`.
/// Whenever `jsonwebtoken::decode` accepts the credential made here under
/// the same secret, it reads the same subject and expiry from it.
#[verifier::external_body]
pub(crate) fn encode_hs256(subject: &str, expiry: u64, secret: &str) -> (token: Result<
    String,
    String,
>)
    ensures
        match signed_token(subject@, expiry, secret@) {
            Some(text) => token matches Ok(made) && made@ == text,
            None => token is Err,
        },
        token matches Ok(made) ==> carried_claims(made@, secret@) == (
            Some(subject@),
            Some(expiry),
        ),
{
    let mut claims = serde_json::Map::new();
    claims.insert("sub".to_string(), serde_json::Value::from(subject));
    claims.insert("exp".to_string(), serde_json::Value::from(expiry));
    let header = jsonwebtoken::Header::new(jsonwebtoken::Algorithm::HS256);
    let key = jsonwebtoken::EncodingKey::from_secret(secret.as_bytes());
    match jsonwebtoken::encode(&header, &claims, &key) {
        Ok(token) => Ok(token),
        Err(error) => Err(error.to_string()),
    }
}

/// Verifies a credential with `jsonwebtoken::decode`, with the secret as the
/// key and the default validation for HS256, which checks the signature and
/// refuses a credential whose expiry lies more than a minute before the
/// time of the call. So the same credential may be accepted now and refused
/// later. The error comes back as text.
#[verifier::external_body]
pub(crate) fn decode_hs256(token: &str, secret: &str) -> (decoded: Result<RawClaims, String>)
    ensures
        decoded matches Ok(raw) ==> raw@ == carried_claims(token@, secret@),
{
    let key = jsonwebtoken::DecodingKey::from_secret(secret.as_bytes());
    let validation = jsonwebtoken::Validation::new(jsonwebtoken::Algorithm::HS256);
    match jsonwebtoken::decode::<serde_json::Value>(token, &key, &validation) {
        Ok(data) => Ok(
            RawClaims {
                sub: data.claims.get("sub").and_then(|v| v.as_str()).map(|s| s.to_string()),
                exp: data.claims.get("exp").and_then(|v| v.as_u64()),
            },
        ),
        Err(error) => Err(error.to_string()),
    }
}

/// What the decoding of a credential gives, as the contracts see it: the
/// subject and the expiry that were read from an accepted credential, or
/// the reason for which it was refused.
pub type DecodedView = Result<(Option<Seq<char>>, Option<u64>), Seq<char>>;

/// What the verification of a credential ends in, given what its decoding
/// gave: the claims, where the credential was accepted and states both a
/// subject and an expiry.
pub open spec fn claims_outcome(decoded: DecodedView) -> Result<ClaimsView, JwtErrorView> {
    match decoded {
        Err(text) => Err(JwtErrorView::ValidationError(text)),
        Ok((None, _)) => Err(JwtErrorView::ValidationError(MISSING_SUBJECT@)),
        Ok((Some(_), None)) => Err(JwtErrorView::ValidationError(MISSING_EXPIRY@)),
        Ok((Some(sub), Some(exp))) => if exp <= usize::MAX {
            Ok(ClaimsView { sub, exp: exp as usize })
        } else {
            Err(JwtErrorView::ValidationError(MISSING_EXPIRY@))
        },
    }
}

/// The customer that claims name: the identifier that their subject is the
/// written form of.
pub open spec fn customer_outcome(claims: Result<ClaimsView, JwtErrorView>) -> Result<
    EntityId,
    JwtErrorView,
> {
    match claims {
        Err(error) => Err(error),
        Ok(claims) => match parsed_entity_id(claims.sub) {
            Some(id) => Ok(id),
            None => Err(JwtErrorView::InvalidCustomerId),
        },
    }
}

/// The credential that a carrier holds: what follows `Bearer `.
pub open spec fn bearer_token_of(auth_header: Option<Seq<char>>) -> Result<
    Seq<char>,
    JwtErrorView,
> {
    match auth_header {
        None => Err(JwtErrorView::MissingToken),
        Some(header) => if BEARER_PREFIX@.is_prefix_of(header) {
            Ok(header.subrange(BEARER_PREFIX@.len() as int, header.len() as int))
        } else {
            Err(JwtErrorView::InvalidFormat)
        },
    }
}

/// Whether `decoded` can be what decoding `token` under `secret` gave: an
/// accepted credential gives the claims that it carries.
pub open spec fn decodes_to(
    token: Seq<char>,
    secret: Seq<char>,
    decoded: DecodedView,
) -> bool {
    decoded matches Ok(raw) ==> raw == carried_claims(token, secret)
}

/// The view of what a decoding gave.
pub open spec fn decoded_view(decoded: Result<RawClaims, String>) -> DecodedView {
    match decoded {
        Ok(raw) => Ok(raw@),
        Err(text) => Err(text@),
    }
}

/// The claims of a credential, given what its decoding gave.
pub fn claims_from_decoded(decoded: Result<RawClaims, String>) -> (outcome: Result<
    Claims,
    JwtError,
>)
    ensures
        match claims_outcome(decoded_view(decoded)) {
            Ok(claims) => outcome matches Ok(found) && found@ == claims,
            Err(error) => outcome matches Err(failure) && failure@ == error,
        },
{
    match decoded {
        Err(text) => Err(JwtError::ValidationError(text)),
        Ok(raw) => match raw.sub {
            None => Err(JwtError::ValidationError(String::from_str(MISSING_SUBJECT))),
            Some(sub) => match raw.exp {
                None => Err(JwtError::ValidationError(String::from_str(MISSING_EXPIRY))),
                Some(exp) => if exp <= usize::MAX as u64 {
                    Ok(Claims { sub, exp: exp as usize })
                } else {
                    Err(JwtError::ValidationError(String::from_str(MISSING_EXPIRY)))
                },
            },
        },
    }
}

/// The customer that claims name.
pub fn customer_from_claims(claims: &Claims) -> (outcome: Result<EntityId, JwtError>)
    ensures
        match parsed_entity_id(claims.sub@) {
            Some(id) => outcome == Ok::<EntityId, JwtError>(id),
            None => outcome == Err::<EntityId, JwtError>(JwtError::InvalidCustomerId),
        },
{
    match parse_entity_id(claims.sub.as_str()) {
        Some(id) => Ok(id),
        None => Err(JwtError::InvalidCustomerId),
    }
}

/// The credential that a carrier holds: what follows `Bearer `. No carrier
/// is a missing credential; a carrier that begins otherwise has an invalid
/// format.
pub fn bearer_token<'a>(auth_header: Option<&'a str>) -> (outcome: Result<&'a str, JwtError>)
    ensures
        match bearer_token_of(
            match auth_header {
                Some(header) => Some(header@),
                None => None,
            },
        ) {
            Ok(token) => outcome matches Ok(found) && found@ == token,
            Err(error) => outcome matches Err(failure) && failure@ == error,
        },
{
    match auth_header {
        None => Err(JwtError::MissingToken),
        Some(header_value) => {
            let chars = chars_of(header_value);
            if !starts_with(&chars, BEARER_PREFIX) {
                return Err(JwtError::InvalidFormat);
            }
            proof {
                reveal_strlit("Bearer ");
            }
            Ok(header_value.substring_char(7, chars.len()))
        },
    }
}

impl JwtService {
    /// A service that signs and verifies under the configured secret, or
    /// under `DEFAULT_SECRET` where none is configured.
    pub fn new(configured: Option<String>) -> (service: Self)
        ensures
            service@ == match configured {
                Some(secret) => secret@,
                None => DEFAULT_SECRET@,
            },
    {
        let secret = match configured {
            Some(secret) => secret,
            None => String::from_str(DEFAULT_SECRET),
        };
        Self { secret }
    }

    /// Issues a credential for a customer at the second `issued_at`. Its
    /// subject is the customer's identifier in written form, and it expires
    /// `TOKEN_LIFETIME_SECONDS` later. Whenever this service accepts the
    /// credential, it reads the same customer from it.
    pub fn issue(&self, customer_id: EntityId, issued_at: usize) -> (outcome: Result<
        String,
        JwtError,
    >)
        requires
            issued_at + TOKEN_LIFETIME_SECONDS <= usize::MAX,
        ensures
            match signed_token(
                hyphenated_text(customer_id.bits),
                (issued_at + TOKEN_LIFETIME_SECONDS) as u64,
                self@,
            ) {
                Some(text) => outcome matches Ok(token) && token@ == text,
                None => outcome matches Err(JwtError::ValidationError(_)),
            },
            outcome matches Ok(token) ==> issued_for(token@, self@, customer_id, issued_at),
    {
        let subject = entity_id_text(customer_id);
        let expiry = issued_at + TOKEN_LIFETIME_SECONDS;
        match encode_hs256(subject.as_str(), expiry as u64, self.secret.as_str()) {
            Ok(token) => Ok(token),
            Err(text) => Err(JwtError::ValidationError(text)),
        }
    }

    /// Verifies a credential and hands out its claims. Whether a credential
    /// is accepted is decided by the verifier that is called for it, by its
    /// signature under this service's secret and by its expiry against the
    /// clock. A credential that is not accepted is a `ValidationError`, and
    /// so is an accepted one that lacks a subject or an expiry.
    pub fn validate_token(&self, token: &str) -> (outcome: Result<Claims, JwtError>)
        ensures
            exists|decoded: DecodedView|
                {
                    &&& decodes_to(token@, self@, decoded)
                    &&& match #[trigger] claims_outcome(decoded) {
                        Ok(claims) => outcome matches Ok(found) && found@ == claims,
                        Err(error) => outcome matches Err(failure) && failure@ == error,
                    }
                },
    {
        let decoded = decode_hs256(token, self.secret.as_str());
        let ghost seen = decoded_view(decoded);
        let outcome = claims_from_decoded(decoded);
        proof {
            assert(match claims_outcome(seen) {
                Ok(claims) => outcome matches Ok(found) && found@ == claims,
                Err(error) => outcome matches Err(failure) && failure@ == error,
            });
        }
        outcome
    }

    /// The customer that a credential identifies. A credential that is not
    /// accepted is a `ValidationError`; one whose subject is not an
    /// identifier is an `InvalidCustomerId`.
    pub fn extract_customer_uuid(&self, token: &str) -> (outcome: Result<EntityId, JwtError>)
        ensures
            exists|decoded: DecodedView|
                {
                    &&& decodes_to(token@, self@, decoded)
                    &&& match #[trigger] customer_outcome(claims_outcome(decoded)) {
                        Ok(id) => outcome == Ok::<EntityId, JwtError>(id),
                        Err(error) => outcome matches Err(failure) && failure@ == error,
                    }
                },
            outcome matches Ok(id) ==> token_customer(token@, self@) == Some(id),
    {
        let validated = self.validate_token(token);
        let ghost decoded = choose|decoded: DecodedView|
            {
                &&& decodes_to(token@, self@, decoded)
                &&& match #[trigger] claims_outcome(decoded) {
                    Ok(claims) => validated matches Ok(found) && found@ == claims,
                    Err(error) => validated matches Err(failure) && failure@ == error,
                }
            };
        let outcome = match validated {
            Err(error) => Err(error),
            Ok(claims) => customer_from_claims(&claims),
        };
        proof {
            assert(match customer_outcome(claims_outcome(decoded)) {
                Ok(id) => outcome == Ok::<EntityId, JwtError>(id),
                Err(error) => outcome matches Err(failure) && failure@ == error,
            });
        }
        outcome
    }

    /// The customer that the credential in a carrier identifies.
    pub fn extract_uuid_from_header(&self, auth_header: Option<&str>) -> (outcome: Result<
        EntityId,
        JwtError,
    >)
        ensures
            match bearer_token_of(
                match auth_header {
                    Some(header) => Some(header@),
                    None => None,
                },
            ) {
                Err(error) => outcome matches Err(failure) && failure@ == error,
                Ok(token) => {
                    &&& exists|decoded: DecodedView|
                        {
                            &&& decodes_to(token, self@, decoded)
                            &&& match #[trigger] customer_outcome(claims_outcome(decoded)) {
                                Ok(id) => outcome == Ok::<EntityId, JwtError>(id),
                                Err(error) => outcome matches Err(failure) && failure@ == error,
                            }
                        }
                    &&& outcome matches Ok(id) ==> token_customer(token, self@) == Some(id)
                },
            },
    {
        match bearer_token(auth_header) {
            Err(error) => Err(error),
            Ok(token) => self.extract_customer_uuid(token),
        }
    }
}

/// What a caller is told about a credential that does not identify a
/// customer.
pub open spec fn jwt_error_text(error: JwtErrorView) -> Seq<char> {
    match error {
        JwtErrorView::MissingToken => "Token não fornecido"@,
        JwtErrorView::InvalidFormat => "Formato de token inválido"@,
        JwtErrorView::InvalidCustomerId => "Customer ID inválido no token"@,
        JwtErrorView::ValidationError(text) => "Erro na validação do token: "@ + text,
    }
}

impl JwtError {
    /// What a caller is told about this error.
    pub fn message(&self) -> (text: String)
        ensures
            text@ == jwt_error_text(self@),
    {
        match self {
            JwtError::MissingToken => String::from_str("Token não fornecido"),
            JwtError::InvalidFormat => String::from_str("Formato de token inválido"),
            JwtError::InvalidCustomerId => String::from_str("Customer ID inválido no token"),
            JwtError::ValidationError(detail) => {
                let mut text = String::from_str("Erro na validação do token: ");
                text.append(detail.as_str());
                text
            },
        }
    }
}

/// Issuing and verifying agree. Whenever a credential that was issued for a
/// customer is accepted under the same secret, its verification gives that
/// customer, and its claims are the customer's written identifier and the
/// expiry one lifetime after the issuance.
pub proof fn law_issued_token_verifies_to_its_customer(
    token: Seq<char>,
    secret: Seq<char>,
    customer_id: EntityId,
    issued_at: usize,
    decoded: DecodedView,
)
    requires
        issued_at + TOKEN_LIFETIME_SECONDS <= usize::MAX,
        issued_for(token, secret, customer_id, issued_at),
        decodes_to(token, secret, decoded),
        decoded is Ok,
    ensures
        claims_outcome(decoded) == Ok::<ClaimsView, JwtErrorView>(
            ClaimsView {
                sub: hyphenated_text(customer_id.bits),
                exp: (issued_at + TOKEN_LIFETIME_SECONDS) as usize,
            },
        ),
        customer_outcome(claims_outcome(decoded)) == Ok::<EntityId, JwtErrorView>(customer_id),
{
}

/// A carrier that does not begin with `Bearer ` has an invalid format,
/// whatever follows; no carrier is a missing credential. Neither depends on
/// the secret or on the time.
pub proof fn law_carrier_without_prefix_is_invalid(auth_header: Option<Seq<char>>)
    ensures
        match auth_header {
            None => bearer_token_of(auth_header) == Err::<Seq<char>, JwtErrorView>(
                JwtErrorView::MissingToken,
            ),
            Some(header) => if BEARER_PREFIX@.is_prefix_of(header) {
                bearer_token_of(auth_header) matches Ok(token) && BEARER_PREFIX@ + token
                    == header
            } else {
                bearer_token_of(auth_header) == Err::<Seq<char>, JwtErrorView>(
                    JwtErrorView::InvalidFormat,
                )
            },
        },
{
    if let Some(header) = auth_header {
        if BEARER_PREFIX@.is_prefix_of(header) {
            let rest = header.subrange(BEARER_PREFIX@.len() as int, header.len() as int);
        }
    }
}

} // verus!
