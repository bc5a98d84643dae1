use vstd::prelude::*;

use crate::json::JsonValue;
use crate::models::{DbError, DeviceRow};
use crate::text::text_eq;

verus! {

/// Lifecycle status of an enrolled device.
#[derive(Debug, Clone, Copy, PartialEq, Eq, Structural)]
pub enum DeviceStatus {
    Pending,
    Active,
    Revoked,
}

pub open spec fn status_name(s: DeviceStatus) -> Seq<char> {
    match s {
        DeviceStatus::Pending => "pending"@,
        DeviceStatus::Active => "active"@,
        DeviceStatus::Revoked => "revoked"@,
    }
}

pub open spec fn status_named(s: Seq<char>) -> Option<DeviceStatus> {
    if s == "pending"@ {
        Some(DeviceStatus::Pending)
    } else if s == "active"@ {
        Some(DeviceStatus::Active)
    } else if s == "revoked"@ {
        Some(DeviceStatus::Revoked)
    } else {
        None
    }
}

impl DeviceStatus {
    pub fn as_str(self) -> (r: &'static str)
        ensures
            r@ == status_name(self),
    {
        match self {
            DeviceStatus::Pending => "pending",
            DeviceStatus::Active => "active",
            DeviceStatus::Revoked => "revoked",
        }
    }

    pub fn from_str(s: &str) -> (r: Option<DeviceStatus>)
        ensures
            r == status_named(s@),
    {
        if text_eq(s, "pending") {
            Some(DeviceStatus::Pending)
        } else if text_eq(s, "active") {
            Some(DeviceStatus::Active)
        } else if text_eq(s, "revoked") {
            Some(DeviceStatus::Revoked)
        } else {
            None
        }
    }
}

pub struct Device {
    pub id: String,
    pub name: String,
    pub hostname: Option<String>,
    pub os: Option<String>,
    pub agent_version: Option<String>,
    pub enrollment_token_id: Option<String>,
    pub status: DeviceStatus,
    pub last_heartbeat_at: Option<String>,
    pub created_at: String,
    pub metadata: JsonValue,
}

pub struct RegisterDeviceRequest {
    pub enrollment_token: String,
    pub name: String,
    pub hostname: Option<String>,
    pub os: Option<String>,
    pub agent_version: Option<String>,
    pub metadata: Option<JsonValue>,
}

pub struct DeviceHeartbeat {
    pub agent_version: Option<String>,
    pub metadata: Option<JsonValue>,
}

/// The metadata a device is registered with: what it sent, or an empty object.
pub fn registration_metadata(metadata: Option<JsonValue>) -> (r: JsonValue)
    ensures
        match metadata {
            Some(m) => r == m,
            None => crate::json::object_map(r) == Some(Map::<Seq<char>, JsonValue>::empty()),
        },
{
    match metadata {
        Some(m) => m,
        None => JsonValue::empty_object(),
    }
}

/// Builds a device from its stored row and its parsed metadata; a row whose
/// status is not a known status name is refused.
pub fn row_to_device(row: DeviceRow, metadata: JsonValue) -> (r: Result<Device, DbError>)
    ensures
        match status_named(row.status@) {
            None => r matches Err(DbError::NotFound(m)) && m@ == "unknown status "@ + row.status@,
            Some(s) => r matches Ok(d) && d.status == s && d.id == row.id && d.name == row.name
                && d.hostname == row.hostname && d.os == row.os && d.agent_version
                == row.agent_version && d.enrollment_token_id == row.enrollment_token_id
                && d.last_heartbeat_at == row.last_heartbeat_at && d.created_at == row.created_at
                && d.metadata == metadata,
        },
{
    match DeviceStatus::from_str(row.status.as_str()) {
        None => Err(DbError::NotFound(String::from_str("unknown status ").concat(row.status.as_str()))),
        Some(status) => Ok(
            Device {
                id: row.id,
                name: row.name,
                hostname: row.hostname,
                os: row.os,
                agent_version: row.agent_version,
                enrollment_token_id: row.enrollment_token_id,
                status,
                last_heartbeat_at: row.last_heartbeat_at,
                created_at: row.created_at,
                metadata,
            },
        ),
    }
}

/// Every device status reads back from its stored name.
pub proof fn lemma_status_round_trip(s: DeviceStatus)
    ensures
        status_named(status_name(s)) == Some(s),
{
    reveal_strlit("pending");
    reveal_strlit("active");
    reveal_strlit("revoked");
    assert("pending"@ != "active"@ && "pending"@ != "revoked"@ && "active"@ != "revoked"@) by {
        assert("pending"@.len() != "active"@.len());
        assert("pending"@[0] != "revoked"@[0]);
        assert("active"@.len() != "revoked"@.len());
    }
}

/// A device looked up by id: built from its row and parsed metadata, or
/// `NotFound` with `device <id>` where there is no row.
pub fn device_lookup(id: &str, found: Option<(DeviceRow, JsonValue)>) -> (r: Result<Device, DbError>)
    ensures
        match found {
            None => r matches Err(DbError::NotFound(m)) && m@ == "device "@ + id@,
            Some((row, metadata)) => match status_named(row.status@) {
                None => r matches Err(DbError::NotFound(m)) && m@ == "unknown status "@ + row.status@,
                Some(s) => r matches Ok(d) && d.status == s && d.id == row.id && d.name == row.name
                    && d.hostname == row.hostname && d.os == row.os && d.agent_version
                    == row.agent_version && d.enrollment_token_id == row.enrollment_token_id
                    && d.last_heartbeat_at == row.last_heartbeat_at && d.created_at == row.created_at
                    && d.metadata == metadata,
            },
        },
{
    match found {
        None => Err(DbError::NotFound(String::from_str("device ").concat(id))),
        Some((row, metadata)) => row_to_device(row, metadata),
    }
}

} // verus!
