use crate::domain::ids::{entity_id_text, hyphenated_text};
use crate::domain::pix_key::{PixKey, PixKeyType};
use crate::domain::values::{EntityId, Timestamp};
use vstd::prelude::*;
use vstd::string::StringExecFns;

verus! {

/// What a caller sends to have a PIX key registered.
#[derive(Debug, Clone, PartialEq, Eq)]
pub struct CreatePixKeyRequest {
    pub key_type: PixKeyType,
    pub key_value: String,
}

/// What a `CreatePixKeyRequest` holds, with its text as a sequence of
/// characters.
pub struct CreatePixKeyRequestView {
    pub key_type: PixKeyType,
    pub key_value: Seq<char>,
}

impl View for CreatePixKeyRequest {
    type V = CreatePixKeyRequestView;

    open spec fn view(&self) -> CreatePixKeyRequestView {
        CreatePixKeyRequestView { key_type: self.key_type, key_value: self.key_value@ }
    }
}

/// What a caller is shown of a PIX key.
#[derive(Debug, Clone, PartialEq, Eq)]
pub struct PixKeyResponse {
    pub id: EntityId,
    pub account_id: EntityId,
    pub key_type: PixKeyType,
    pub key_value: String,
    pub is_active: bool,
    pub created_at: Timestamp,
    pub deactivated_at: Option<Timestamp>,
}

impl From<PixKey> for PixKeyResponse {
    fn from(pix_key: PixKey) -> (response: Self) {
        PixKeyResponse {
            id: pix_key.id,
            account_id: pix_key.account_id,
            key_type: pix_key.key_type,
            key_value: pix_key.key_value,
            is_active: pix_key.is_active,
            created_at: pix_key.created_at,
            deactivated_at: pix_key.deactivated_at,
        }
    }
}

impl vstd::std_specs::convert::FromSpecImpl<PixKey> for PixKeyResponse {
    open spec fn obeys_from_spec() -> bool {
        true
    }

    open spec fn from_spec(pix_key: PixKey) -> Self {
        PixKeyResponse {
            id: pix_key.id,
            account_id: pix_key.account_id,
            key_type: pix_key.key_type,
            key_value: pix_key.key_value,
            is_active: pix_key.is_active,
            created_at: pix_key.created_at,
            deactivated_at: pix_key.deactivated_at,
        }
    }
}

/// Where a PIX key can be read, as a path of the service.
pub open spec fn pix_key_location_of(id: EntityId) -> Seq<char> {
    "/pix-keys/"@ + hyphenated_text(id.bits)
}

impl PixKeyResponse {
    /// Where this key can be read, as a path of the service.
    pub fn location(&self) -> (path: String)
        ensures
            path@ == pix_key_location_of(self.id),
    {
        let mut path = String::from_str("/pix-keys/");
        let id = entity_id_text(self.id);
        path.append(id.as_str());
        path
    }
}

} // verus!
