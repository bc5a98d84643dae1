use controller::json::{JsonFields, JsonValue};
use controller::models::{ConnectorRow, DeviceTrustRow, PublishedResourceRow, ZtnaPolicyRow};
use controller::sse::{
    alerting_devices, casb_summary, dlp_summary, high_risk_devices, incident_from_input, risk_record,
    snapshot_from_row, swg_summary, telemetry_snapshot, threat_match_from_input, SseIncidentInput,
    SseThreatMatchInput,
};
use controller::ztna::{
    connector_from_registration, connector_row, row_to_connector, row_to_policy, row_to_resource,
    row_to_trust, trust_update, ConnectorRegistration, PolicyCache, ZtnaPolicyRecord,
};

fn incident_input(action: Option<&str>) -> SseIncidentInput {
    SseIncidentInput {
        severity: None,
        title: "Unauthorized cloud upload".to_string(),
        description: None,
        resource: Some("dropbox.com".to_string()),
        action_taken: action.map(|a| a.to_string()),
        details: None,
        detected_at: None,
    }
}

#[test]
fn sse_incident_defaults() {
    let i = incident_from_input("i1".to_string(), "dev", "casb", &incident_input(None), "now");
    assert_eq!(i.severity, "medium");
    assert_eq!(i.action_taken, "blocked");
    assert_eq!(i.status, "open");
    assert_eq!(i.detected_at, "now");
    assert_eq!(i.incident_kind, "casb");
}

#[test]
fn sse_threat_defaults() {
    let t = threat_match_from_input(
        "t1".to_string(),
        "dev",
        &SseThreatMatchInput {
            threat_kind: None,
            category: None,
            url: Some("https://evil.example/malware".to_string()),
            signature: None,
            severity: Some("high".to_string()),
            action: None,
            matched_at: None,
        },
        "now",
    );
    assert_eq!(t.threat_kind, "malware");
    assert_eq!(t.category, "web");
    assert_eq!(t.severity, "high");
    assert_eq!(t.action, "blocked");
    assert_eq!(t.matched_at, "now");
}

#[test]
fn sse_casb_and_dlp_counts() {
    let allowed = incident_from_input("i2".to_string(), "dev", "casb", &incident_input(Some("allowed")), "now");
    let blocked = incident_from_input("i1".to_string(), "dev", "casb", &incident_input(None), "now");
    let s = casb_summary(vec![blocked, allowed]);
    assert_eq!(s.incident_count, 2);
    assert_eq!(s.open_incidents, 2);
    assert_eq!(s.blocked_actions, 1);
    let d = dlp_summary(vec![]);
    assert_eq!(d.incident_count, 0);
    assert_eq!(d.blocked_actions, 0);
}

#[test]
fn sse_telemetry_snapshot_counts() {
    let s = telemetry_snapshot("s".to_string(), "dev", (Some(1000), Some(42), Some(958)), 1, 1, 1, Some(65), 1, None, "now");
    assert_eq!(s.swg_requests, 1000);
    assert_eq!(s.swg_blocked, 42);
    assert_eq!(s.swg_allowed, 958);
    assert_eq!(s.threat_count, 1);
    assert_eq!(s.risk_score, 65);
    assert_eq!(s.ueba_alerts, 1);
    assert_eq!(s.reported_at, "now");
    let e = telemetry_snapshot("s".to_string(), "dev", (None, None, None), 0, 0, 0, None, 0, Some("t".to_string()), "now");
    assert_eq!(e.swg_requests, 0);
    assert_eq!(e.risk_score, 0);
    assert_eq!(e.reported_at, "t");
}

#[test]
fn sse_rows_clamp() {
    let s = snapshot_from_row(("id".into(), "d".into(), -1, 5, 7, -2, 3, 4, 180, 9, "t".into()));
    assert_eq!(s.swg_requests, 0);
    assert_eq!(s.swg_blocked, 5);
    assert_eq!(s.threat_count, 0);
    assert_eq!(s.risk_score, 100);
    assert_eq!(s.ueba_alerts, 9);
}

#[test]
fn sse_swg_sums() {
    let a = telemetry_snapshot("a".to_string(), "d1", (Some(1000), Some(42), Some(958)), 0, 0, 0, None, 0, None, "now");
    let b = telemetry_snapshot("b".to_string(), "d2", (Some(10), Some(1), Some(9)), 0, 0, 0, None, 0, None, "now");
    let s = swg_summary(3, 7, vec![a, b], vec![]);
    assert_eq!(s.total_requests, 1010);
    assert_eq!(s.blocked_count, 43);
    assert_eq!(s.allowed_count, 967);
    assert_eq!(s.reporting_devices, 2);
    assert_eq!(s.policy_count, 3);
    assert_eq!(s.threat_match_count, 7);
}

#[test]
fn sse_risk_and_ueba() {
    let r1 = risk_record("r".to_string(), "d", 82, None, None, "t");
    assert_eq!(r1.risk_level, "medium");
    assert!(matches!(r1.factors, JsonValue::Object(JsonFields::Empty)));
    let r2 = risk_record("r".to_string(), "d", 70, Some("high".to_string()), None, "t");
    let r3 = risk_record("r".to_string(), "d", 69, None, None, "t");
    assert_eq!(high_risk_devices(&vec![r1, r2, r3]), 2);
    let ids = vec!["d1".to_string(), "d2".to_string(), "d1".to_string()];
    assert_eq!(alerting_devices(&ids), 2);
    assert_eq!(alerting_devices(&vec![]), 0);
}

fn policy_row(score: i64) -> ZtnaPolicyRow {
    ZtnaPolicyRow {
        id: "p".to_string(),
        name: "Default".to_string(),
        enabled: 1,
        min_trust_level: "medium".to_string(),
        min_trust_score: score,
        conditions_json: "[]".to_string(),
        default_action: "deny".to_string(),
        content_json: "{}".to_string(),
        created_at: "t".to_string(),
        updated_at: "t".to_string(),
    }
}

#[test]
fn ztna_rows() {
    match row_to_policy(policy_row(150), vec![]) {
        Ok(p) => {
            assert_eq!(p.min_trust_score, 100);
            assert!(p.enabled);
        }
        Err(_) => panic!("policy rows read"),
    }
    let res = row_to_resource(PublishedResourceRow {
        id: "r".to_string(),
        name: "n".to_string(),
        resource_type: "https".to_string(),
        host: "internal.example".to_string(),
        port: -1,
        path_prefix: Some("/".to_string()),
        tags_json: "[\"a\",\"b\"]".to_string(),
        published: 1,
        access_policy_id: None,
        published_at: None,
        created_at: "t".to_string(),
        updated_at: "t".to_string(),
    });
    match res {
        Ok(r) => {
            assert_eq!(r.port, 0);
            assert_eq!(r.tags, vec!["a".to_string(), "b".to_string()]);
        }
        Err(_) => panic!("resource rows read"),
    }
    let trust = row_to_trust(
        DeviceTrustRow {
            id: "t".to_string(),
            device_id: "d".to_string(),
            trust_level: "high".to_string(),
            trust_score: -3,
            posture_json: "oops".to_string(),
            certificate_fingerprint: None,
            last_evaluated_at: "t".to_string(),
            created_at: "t".to_string(),
            updated_at: "t".to_string(),
        },
        None,
    );
    match trust {
        Ok(t) => {
            assert_eq!(t.trust_score, 0);
            assert!(matches!(t.posture, JsonValue::Object(JsonFields::Empty)));
        }
        Err(_) => panic!("trust rows read"),
    }
}

#[test]
fn ztna_connectors() {
    let reg = ConnectorRegistration {
        connector_id: "conn-1".to_string(),
        name: "Edge Connector".to_string(),
        endpoint: "https://edge.local:8443".to_string(),
        resource_ids: vec!["res-1".to_string()],
        healthy: None,
        latency_ms: Some(12),
    };
    let c = connector_from_registration("row".to_string(), "dev", &reg, "now".to_string());
    assert!(c.healthy);
    assert_eq!(c.latency_ms, Some(12));
    assert_eq!(c.registered_at, "now");
    let row = connector_row(&c);
    assert_eq!(row.resource_ids_json, "[\"res-1\"]");
    assert_eq!(row.healthy, 1);
    let back = match row_to_connector(row) {
        Ok(x) => x,
        Err(_) => panic!("connector rows read"),
    };
    assert_eq!(back.resource_ids, vec!["res-1".to_string()]);
    let neg = ConnectorRow {
        id: "i".to_string(),
        device_id: "d".to_string(),
        connector_id: "c".to_string(),
        name: "n".to_string(),
        endpoint: "e".to_string(),
        resource_ids_json: "bad".to_string(),
        healthy: 0,
        latency_ms: Some(-5),
        last_seen_at: "t".to_string(),
        registered_at: "t".to_string(),
        created_at: "t".to_string(),
        updated_at: "t".to_string(),
    };
    match row_to_connector(neg) {
        Ok(x) => {
            assert_eq!(x.latency_ms, Some(0));
            assert!(x.resource_ids.is_empty());
            assert!(!x.healthy);
        }
        Err(_) => panic!("connector rows read"),
    }
}

#[test]
fn ztna_trust_update_needs_both() {
    assert_eq!(trust_update(Some("high".to_string()), Some(78)), Some(("high".to_string(), 78)));
    assert_eq!(trust_update(Some("high".to_string()), None), None);
    assert_eq!(trust_update(None, Some(78)), None);
}

fn ztna_policy(id: &str, name: &str) -> ZtnaPolicyRecord {
    ZtnaPolicyRecord {
        id: id.to_string(),
        name: name.to_string(),
        enabled: true,
        min_trust_level: "medium".to_string(),
        min_trust_score: 50,
        conditions: vec![JsonValue::Bool(true)],
        default_action: "deny".to_string(),
        created_at: "t".to_string(),
        updated_at: "t".to_string(),
    }
}

#[test]
fn policy_cache_reads_back() {
    let mut cache = PolicyCache::new();
    assert!(cache.cached_policy("p1").is_none());
    cache.cache_policy(ztna_policy("p1", "first"));
    cache.cache_policy(ztna_policy("p2", "second"));
    cache.cache_policy(ztna_policy("p1", "replaced"));
    match cache.cached_policy("p1") {
        Some(p) => {
            assert_eq!(p.name, "replaced");
            assert_eq!(p.conditions.len(), 1);
        }
        None => panic!("cached policy expected"),
    }
    match cache.cached_policy("p2") {
        Some(p) => assert_eq!(p.name, "second"),
        None => panic!("cached policy expected"),
    }
    assert!(cache.cached_policy("p3").is_none());
}
