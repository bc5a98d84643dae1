use vstd::prelude::*;

use crate::json::{fields_get, fields_insert, JsonValue};
use crate::text::trim_trailing_slashes;

verus! {

/// How many pending records of each kind one push cycle forwarded.
pub struct CloudReporterPushSummary {
    pub usage_forwarded: usize,
    pub health_forwarded: usize,
    pub logs_forwarded: usize,
}

impl CloudReporterPushSummary {
    pub fn empty() -> (r: CloudReporterPushSummary)
        ensures
            r.usage_forwarded == 0 && r.health_forwarded == 0 && r.logs_forwarded == 0,
    {
        CloudReporterPushSummary { usage_forwarded: 0, health_forwarded: 0, logs_forwarded: 0 }
    }

    /// Whether the cycle forwarded anything at all.
    pub fn forwarded_any(&self) -> (r: bool)
        ensures
            r == (self.usage_forwarded + self.health_forwarded + self.logs_forwarded > 0),
    {
        self.usage_forwarded > 0 || self.health_forwarded > 0 || self.logs_forwarded > 0
    }
}

/// Where and how pending records are forwarded to the cloud.
pub struct FederationOutbound {
    pub tenant_id: String,
    pub cloud_base_url: String,
    pub cloud_controller_id: String,
    pub federation_token: String,
}

/// The forwarding target of the latest registration (tenant, base URL, cloud
/// controller id, outbound token): none without a registration, without an
/// outbound token, or with an empty token or URL.
pub fn federation_outbound(row: Option<(String, String, String, Option<String>)>) -> (r: Option<
    FederationOutbound,
>)
    ensures
        match row {
            Some((tenant, url, ctrl, Some(token))) => if token@.len() > 0 && url@.len() > 0 {
                r matches Some(f) && f.tenant_id == tenant && f.cloud_base_url@
                    == crate::text::trim_slashes(url@) && f.cloud_controller_id == ctrl
                    && f.federation_token == token
            } else {
                r is None
            },
            _ => r is None,
        },
{
    match row {
        Some((tenant_id, cloud_base_url, cloud_controller_id, Some(federation_token))) => {
            if federation_token.as_str().is_empty() || cloud_base_url.as_str().is_empty() {
                return None;
            }
            let url = trim_trailing_slashes(cloud_base_url.as_str());
            Some(
                FederationOutbound {
                    tenant_id,
                    cloud_base_url: url,
                    cloud_controller_id,
                    federation_token,
                },
            )
        },
        _ => None,
    }
}

/// The cloud took a forwarded record when it answered with a success status.
pub fn push_accepted(code: u16) -> (r: bool)
    ensures
        r == ((200 <= code && code <= 299) || code == 202),
{
    (200 <= code && code <= 299) || code == 202
}

/// At most this many pending usage records are forwarded per cycle.
pub const USAGE_BATCH: i64 = 50;

/// At most this many pending health records are forwarded per cycle.
pub const HEALTH_BATCH: i64 = 10;

/// At most this many pending log records are forwarded per cycle.
pub const LOGS_BATCH: i64 = 20;

/// A health or log record as it is forwarded: an object gains a
/// `controller_id` member naming the cloud controller unless it has one.
pub fn with_controller_id(body: JsonValue, controller_id: String) -> (r: JsonValue)
    ensures
        match body {
            JsonValue::Object(f) => if crate::json::fields_map(f).contains_key("controller_id"@) {
                r == body
            } else {
                crate::json::object_map(r) == Some(
                    crate::json::fields_map(f).insert(
                        "controller_id"@,
                        JsonValue::String(controller_id),
                    ),
                )
            },
            _ => r == body,
        },
{
    match body {
        JsonValue::Object(f) => {
            if fields_get(&f, "controller_id").is_some() {
                JsonValue::Object(f)
            } else {
                JsonValue::Object(
                    fields_insert(f, String::from_str("controller_id"), JsonValue::String(controller_id)),
                )
            }
        },
        other => other,
    }
}

/// The cycle interval of the reporter: at least thirty seconds.
pub fn reporter_interval_secs(requested: u64) -> (r: u64)
    ensures
        r == if requested < 30 {
            30
        } else {
            requested
        },
{
    if requested < 30 {
        30
    } else {
        requested
    }
}

/// Where records of a kind are forwarded: `<base>/api/v1/cloud/<kind>`.
pub fn forward_url(cloud_base_url: &str, kind: &str) -> (r: String)
    ensures
        r@ == cloud_base_url@ + "/api/v1/cloud/"@ + kind@,
{
    String::from_str(cloud_base_url).concat("/api/v1/cloud/").concat(kind)
}

} // verus!
