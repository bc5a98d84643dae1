use vstd::prelude::*;

use crate::enrollment::hash_token;
use crate::models::{DbError, FederatedRegistrationRow};
use crate::text::trim_trailing_slashes;

verus! {

/// The registration of this controller with a cloud controller.
pub struct FederatedRegistration {
    pub id: String,
    pub cloud_controller_id: String,
    pub tenant_id: String,
    pub cloud_base_url: String,
    pub registered_at: String,
}

pub struct RegisterFromCloudRequest {
    pub token: String,
    pub tenant_id: String,
    pub cloud_base_url: String,
}

/// What a registration from the cloud stores: the fingerprint of the
/// federation secret and the cloud's base URL without trailing slashes.
pub struct RegistrationPlan {
    pub token_hash: String,
    pub cloud_base_url: String,
}

/// Checks a registration from the cloud and prepares what it stores; an empty
/// token, tenant or base URL is refused.
pub fn plan_registration(token: &str, tenant_id: &str, cloud_base_url: &str) -> (r: Result<
    RegistrationPlan,
    DbError,
>)
    ensures
        (token@.len() == 0 || tenant_id@.len() == 0 || cloud_base_url@.len() == 0) ==> (r matches Err(
            DbError::NotFound(m)) && m@ == "invalid federation registration payload"@),
        (token@.len() > 0 && tenant_id@.len() > 0 && cloud_base_url@.len() > 0) ==> (r matches Ok(p)
            && p.token_hash@ == crate::enrollment::hex_of(
            crate::enrollment::sha256_of(vstd::utf8::encode_utf8(token@)),
        ) && p.cloud_base_url@ == crate::text::trim_slashes(cloud_base_url@)),
{
    if token.is_empty() || tenant_id.is_empty() || cloud_base_url.is_empty() {
        return Err(DbError::NotFound(String::from_str("invalid federation registration payload")));
    }
    Ok(
        RegistrationPlan {
            token_hash: hash_token(token),
            cloud_base_url: trim_trailing_slashes(cloud_base_url),
        },
    )
}

/// The registration record of a stored row.
pub fn row_to_registration(row: FederatedRegistrationRow) -> (r: FederatedRegistration)
    ensures
        r.id == row.id,
        r.cloud_controller_id == row.cloud_controller_id,
        r.tenant_id == row.tenant_id,
        r.cloud_base_url == row.cloud_base_url,
        r.registered_at == row.registered_at,
{
    FederatedRegistration {
        id: row.id,
        cloud_controller_id: row.cloud_controller_id,
        tenant_id: row.tenant_id,
        cloud_base_url: row.cloud_base_url,
        registered_at: row.registered_at,
    }
}

} // verus!
