use controller::api::{bearer_token, federation_access, ApiError};
use controller::audit::{agent_source, event_from_ingest, list_plan, login_event, AuditQuery, IngestAuditEvent};
use controller::devices::{registration_metadata, row_to_device, DeviceStatus};
use controller::json::{JsonFields, JsonValue};
use controller::metrics::{to_prometheus, MetricsSnapshot};
use controller::models::{DbError, DeviceRow};

fn device_row(status: &str) -> DeviceRow {
    DeviceRow {
        id: "dev-1".to_string(),
        name: "workstation-1".to_string(),
        hostname: Some("ws1".to_string()),
        os: Some("linux".to_string()),
        agent_version: Some("0.1.0".to_string()),
        enrollment_token_id: Some("tok".to_string()),
        status: status.to_string(),
        last_heartbeat_at: None,
        created_at: "now".to_string(),
        metadata: "{}".to_string(),
    }
}

#[test]
fn device_status_names_round_trip() {
    for s in [DeviceStatus::Pending, DeviceStatus::Active, DeviceStatus::Revoked] {
        assert!(DeviceStatus::from_str(s.as_str()) == Some(s));
    }
    assert_eq!(DeviceStatus::Active.as_str(), "active");
    assert!(DeviceStatus::from_str("deleted").is_none());
}

#[test]
fn device_from_row() {
    match row_to_device(device_row("active"), JsonValue::Object(JsonFields::Empty)) {
        Ok(d) => {
            assert!(d.status == DeviceStatus::Active);
            assert_eq!(d.name, "workstation-1");
        }
        Err(_) => panic!("known status"),
    }
    match row_to_device(device_row("weird"), JsonValue::Null) {
        Err(DbError::NotFound(m)) => assert_eq!(m, "unknown status weird"),
        _ => panic!("unknown status must be refused"),
    }
}

#[test]
fn missing_metadata_is_empty_object() {
    match registration_metadata(None) {
        JsonValue::Object(JsonFields::Empty) => {}
        _ => panic!("empty object expected"),
    }
    assert!(matches!(registration_metadata(Some(JsonValue::Bool(true))), JsonValue::Bool(true)));
}

#[test]
fn audit_listing_plan() {
    let plan = list_plan(AuditQuery { limit: None, offset: None, action: None, source: None });
    assert_eq!(plan.limit, 100);
    assert_eq!(plan.offset, 0);
    assert!(plan.sql.ends_with("ORDER BY created_at DESC LIMIT ? OFFSET ?"));
    assert!(!plan.sql.contains("WHERE"));
    let plan = list_plan(AuditQuery {
        limit: Some(5000),
        offset: Some(-3),
        action: Some("policy.applied".to_string()),
        source: None,
    });
    assert_eq!(plan.limit, 1000);
    assert_eq!(plan.offset, 0);
    assert!(plan.sql.contains("WHERE 1=1 AND action = ? ORDER BY"));
    let plan = list_plan(AuditQuery { limit: Some(0), offset: Some(7), action: None, source: Some("agent".to_string()) });
    assert_eq!(plan.limit, 1);
    assert_eq!(plan.offset, 7);
    assert!(plan.sql.contains("WHERE 1=1 AND source = ? ORDER BY"));
}

#[test]
fn ingested_event_defaults_details() {
    let e = event_from_ingest(
        IngestAuditEvent {
            source: "agent".to_string(),
            actor: None,
            action: "policy.applied".to_string(),
            resource_type: None,
            resource_id: None,
            details: None,
        },
        "id".to_string(),
        "now".to_string(),
    );
    assert!(matches!(e.details, JsonValue::Object(JsonFields::Empty)));
    assert_eq!(e.action, "policy.applied");
    assert_eq!(agent_source("dev-9"), "agent:dev-9");
    let l = login_event("alice".to_string());
    assert_eq!(l.source, "controller");
    assert_eq!(l.action, "auth.login");
    assert_eq!(l.actor, Some("alice".to_string()));
}

#[test]
fn prometheus_exposition() {
    let text = to_prometheus(&MetricsSnapshot {
        devices_active: 3,
        devices_pending: 1,
        devices_revoked: 0,
        policies_active: 2,
        audit_events_total: 10,
        enrollment_tokens_total: 4,
        uptime_seconds: 42,
    });
    assert!(text.starts_with(
        "# HELP ws_controller_devices_active Active enrolled devices\n# TYPE ws_controller_devices_active gauge\nws_controller_devices_active 3\n"
    ));
    assert!(text.contains("ws_controller_audit_events_total 10\n"));
    assert!(text.contains("# TYPE ws_controller_audit_events_total counter\n"));
    assert!(text.ends_with("ws_controller_uptime_seconds 42\n"));
    let negative = to_prometheus(&MetricsSnapshot {
        devices_active: -5,
        devices_pending: 0,
        devices_revoked: 0,
        policies_active: 0,
        audit_events_total: 0,
        enrollment_tokens_total: 0,
        uptime_seconds: 0,
    });
    assert!(negative.contains("ws_controller_devices_active -5\n"));
}

#[test]
fn bearer_tokens() {
    assert!(matches!(bearer_token(Some("Bearer abc.def")), Ok("abc.def")));
    assert!(matches!(bearer_token(Some("Basic abc")), Err(ApiError::Unauthorized)));
    assert!(matches!(bearer_token(Some("Bearer")), Err(ApiError::Unauthorized)));
    assert!(matches!(bearer_token(None), Err(ApiError::Unauthorized)));
    assert!(matches!(bearer_token(Some("Bearer ")), Ok("")));
}

#[test]
fn federation_access_decisions() {
    assert!(matches!(federation_access::<()>(false, Ok(())), Err(ApiError::Unauthorized)));
    assert!(federation_access::<()>(true, Ok(())).is_ok());
    assert!(matches!(
        federation_access::<()>(true, Err(DbError::NotFound("x".to_string()))),
        Err(ApiError::Unauthorized)
    ));
    match federation_access::<()>(true, Err(DbError::Sqlx("boom".to_string()))) {
        Err(ApiError::Internal(m)) => assert_eq!(m, "boom"),
        _ => panic!("storage errors pass through"),
    }
}
