use crate::application::jwt_service::{
    bearer_token, bearer_token_of, claims_outcome, customer_outcome, decodes_to, token_customer,
    Claims, DecodedView, JwtError, JwtService,
};
use crate::domain::values::EntityId;
use crate::infrastructure::error::{ApiError, MyError, MyErrorView};
use vstd::prelude::*;
use vstd::string::StringExecFns;

verus! {

/// What a caller is told where the carrier holds no credential.
pub const MISSING_OR_INVALID_TOKEN: &'static str = "Missing or invalid JWT token";

/// What a caller is told where the credential in the carrier is refused.
pub const INVALID_TOKEN: &'static str = "Invalid JWT";

/// A request that is turned away for want of an accepted credential.
#[derive(Debug, Clone, PartialEq, Eq)]
pub struct Unauthorized {
    pub message: String,
}

impl View for Unauthorized {
    type V = Seq<char>;

    open spec fn view(&self) -> Seq<char> {
        self.message@
    }
}

/// Guards a route: a request passes only with a credential that the service
/// accepts.
#[derive(Clone)]
pub struct JwtMiddleware {
    pub service: JwtService,
}

impl JwtMiddleware {
    /// A guard that accepts what `service` accepts.
    pub fn new(service: JwtService) -> (guard: Self)
        ensures
            guard.service == service,
    {
        Self { service }
    }

    /// Decides on a request by the carrier of its credential. A request
    /// without a carrier that begins with `Bearer ` is turned away as
    /// missing its credential; one whose credential is refused is turned
    /// away as holding an invalid one; every other request passes, with the
    /// claims of its credential.
    pub fn authorize(&self, auth_header: Option<&str>) -> (outcome: Result<Claims, Unauthorized>)
        ensures
            match bearer_token_of(
                match auth_header {
                    Some(header) => Some(header@),
                    None => None,
                },
            ) {
                Err(_) => outcome matches Err(refusal) && refusal@ == MISSING_OR_INVALID_TOKEN@,
                Ok(token) => exists|
                    decoded: DecodedView,
                |
                    {
                        &&& decodes_to(token, self.service@, decoded)
                        &&& match #[trigger] claims_outcome(decoded) {
                            Ok(claims) => outcome matches Ok(found) && found@ == claims,
                            Err(_) => outcome matches Err(refusal) && refusal@ == INVALID_TOKEN@,
                        }
                    },
            },
    {
        match bearer_token(auth_header) {
            Err(_) => Err(Unauthorized { message: String::from_str(MISSING_OR_INVALID_TOKEN) }),
            Ok(token) => {
                let validated = self.service.validate_token(token);
                let ghost decoded = choose|
                    decoded: DecodedView,
                |
                    {
                        &&& decodes_to(token@, self.service@, decoded)
                        &&& match #[trigger] claims_outcome(decoded) {
                            Ok(claims) => validated matches Ok(found) && found@ == claims,
                            Err(error) => validated matches Err(failure) && failure@ == error,
                        }
                    };
                let outcome = match validated {
                    Ok(claims) => Ok(claims),
                    Err(_) => Err(Unauthorized { message: String::from_str(INVALID_TOKEN) }),
                };
                proof {
                    assert(match claims_outcome(decoded) {
                        Ok(claims) => outcome matches Ok(found) && found@ == claims,
                        Err(_) => outcome matches Err(refusal) && refusal@ == INVALID_TOKEN@,
                    });
                }
                outcome
            },
        }
    }
}

/// What a caller is told where a request does not identify its customer.
pub const INVALID_OR_MISSING_TOKEN: &'static str = "Invalid or missing JWT token";

/// The customer that a request is made for, by the carrier of its
/// credential. A request that does not identify a customer, for whatever
/// reason, is refused as it stands, with one message.
pub fn authenticated_customer(service: &JwtService, auth_header: Option<&str>) -> (outcome: Result<
    EntityId,
    MyError,
>)
    ensures
        match bearer_token_of(
            match auth_header {
                Some(header) => Some(header@),
                None => None,
            },
        ) {
            Err(_) => outcome matches Err(refusal) && refusal@ == MyErrorView::ApiError(
                INVALID_OR_MISSING_TOKEN@,
            ),
            Ok(token) => {
                &&& exists|decoded: DecodedView|
                    {
                        &&& decodes_to(token, service@, decoded)
                        &&& match #[trigger] customer_outcome(claims_outcome(decoded)) {
                            Ok(id) => outcome matches Ok(found) && found == id,
                            Err(_) => outcome matches Err(refusal) && refusal@
                                == MyErrorView::ApiError(INVALID_OR_MISSING_TOKEN@),
                        }
                    }
                &&& outcome matches Ok(id) ==> token_customer(token, service@) == Some(id)
            },
        },
{
    let extracted = service.extract_uuid_from_header(auth_header);
    let ghost carrier = bearer_token_of(
        match auth_header {
            Some(header) => Some(header@),
            None => None,
        },
    );
    let outcome = match extracted {
        Ok(id) => Ok(id),
        Err(_) => Err(
            MyError::ApiError(ApiError { msg: String::from_str(INVALID_OR_MISSING_TOKEN) }),
        ),
    };
    proof {
        if let Ok(token) = carrier {
            let decoded = choose|decoded: DecodedView|
                {
                    &&& decodes_to(token, service@, decoded)
                    &&& match #[trigger] customer_outcome(claims_outcome(decoded)) {
                        Ok(id) => extracted == Ok::<EntityId, JwtError>(id),
                        Err(error) => extracted matches Err(failure) && failure@ == error,
                    }
                };
            assert(match customer_outcome(claims_outcome(decoded)) {
                Ok(id) => outcome matches Ok(found) && found == id,
                Err(_) => outcome matches Err(refusal) && refusal@ == MyErrorView::ApiError(
                    INVALID_OR_MISSING_TOKEN@,
                ),
            });
        }
    }
    outcome
}

} // verus!
