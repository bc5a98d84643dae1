use controller::json::JsonValue;
use controller::models::DbError;
use controller::split_templates::{
    create_template, get_template, mode_after_delete, mode_from_row, row_to_template, summary,
    template_write_outcome, update_template, CreateSplitTemplateInput, SplitTemplateModeSettings,
    TemplateMode, UpdateSplitTemplateInput,
};
use controller::stored::{read_instant, read_uuid};
use controller::tcp_termination::{
    create_rule, get_rule, row_to_rule, rule_write_outcome, rules_summary, settings_from_row, update_rule,
    CreateTcpTerminationRuleInput, TcpTerminationMode, UpdateTcpTerminationRuleInput,
};
use controller::xdr::{
    edr_event_record, itdr_threat_record, ndr_event_record, XdrEdrEventInput, XdrItdrThreatInput,
    XdrNdrEventInput,
};
use controller::xdr::{
    attribute_device, cases_summary, hunts_summary, incidents_summary, new_case, new_hunt, new_incident,
    new_playbook, response_message, soar_summary, telemetry_snapshot, XdrCaseInput, XdrHuntInput,
    XdrIncidentInput, XdrPlaybookInput,
};

const ID: u128 = 0x67e55044_10b1_426f_9247_bb680e5fe0c8;
const NOW: (i64, u32) = (1_700_000_000, 5);

fn input(name: &str, enabled: bool) -> CreateSplitTemplateInput {
    CreateSplitTemplateInput {
        name: name.to_string(),
        description: "Route work apps via VPN".to_string(),
        default_route: JsonValue::Null,
        app_rules: vec![],
        domain_rules: vec![],
        enabled,
    }
}

#[test]
fn template_modes_round_trip() {
    for m in [TemplateMode::Disabled, TemplateMode::Merge, TemplateMode::Override] {
        assert!(matches!(TemplateMode::from_str(m.as_str()), Ok(x) if x == m));
    }
    match TemplateMode::from_str("sometimes") {
        Err(DbError::NotFound(msg)) => assert_eq!(msg, "unknown template mode: sometimes"),
        _ => panic!("unknown mode"),
    }
    assert!(TemplateMode::default() == TemplateMode::Disabled);
}

#[test]
fn uuid_text_and_parse() {
    match template_write_outcome(0, ID) {
        Err(DbError::NotFound(m)) => assert_eq!(m, "split template 67e55044-10b1-426f-9247-bb680e5fe0c8"),
        _ => panic!("missing template"),
    }
    assert!(matches!(read_uuid("67e55044-10b1-426f-9247-bb680e5fe0c8"), Ok(v) if v == ID));
    match read_uuid("nope") {
        Err(DbError::Sqlx(m)) => assert!(m.starts_with("error occurred while decoding: ")),
        _ => panic!("bad uuid"),
    }
    assert!(matches!(read_instant("2023-11-14T22:13:20.000000005Z"), Ok(t) if t == NOW));
    assert!(read_instant("yesterday").is_err());
}

#[test]
fn template_lifecycle() {
    let t = create_template(input("Office VPN", true), ID, NOW);
    assert_eq!(t.created_at, NOW);
    let s = summary(vec![t, create_template(input("Other", false), 7, NOW)], SplitTemplateModeSettings::default_at(NOW));
    assert_eq!(s.template_count, 2);
    assert_eq!(s.enabled_count, 1);
    let found = match get_template(s.templates, ID) {
        Ok(t) => t,
        Err(_) => panic!("template exists"),
    };
    assert_eq!(found.name, "Office VPN");
    let later = (NOW.0 + 10, 0);
    let updated = update_template(
        found,
        UpdateSplitTemplateInput {
            name: Some("Updated template".to_string()),
            description: None,
            default_route: None,
            app_rules: None,
            domain_rules: None,
            enabled: Some(false),
        },
        later,
    );
    assert_eq!(updated.name, "Updated template");
    assert_eq!(updated.description, "Route work apps via VPN");
    assert!(!updated.enabled);
    assert_eq!(updated.created_at, NOW);
    assert_eq!(updated.updated_at, later);
    match get_template(vec![], ID) {
        Err(DbError::NotFound(m)) => assert_eq!(m, "split template 67e55044-10b1-426f-9247-bb680e5fe0c8"),
        _ => panic!("missing template"),
    }
    assert!(template_write_outcome(1, ID).is_ok());
    assert!(matches!(template_write_outcome(0, ID), Err(DbError::NotFound(_))));
}

#[test]
fn deleting_active_template_clears_it() {
    let mode = SplitTemplateModeSettings { mode: TemplateMode::Merge, active_template_id: Some(ID), updated_at: NOW };
    match mode_after_delete(&mode, ID) {
        Some(u) => {
            assert!(u.mode == TemplateMode::Merge);
            assert!(u.active_template_id.is_none());
        }
        None => panic!("active template cleared"),
    }
    assert!(mode_after_delete(&mode, 5).is_none());
}

#[test]
fn mode_rows() {
    match mode_from_row(None, NOW) {
        Ok(s) => {
            assert!(s.mode == TemplateMode::Disabled);
            assert_eq!(s.updated_at, NOW);
        }
        Err(_) => panic!("default mode"),
    }
    let row = Some((
        "merge".to_string(),
        Some("67e55044-10b1-426f-9247-bb680e5fe0c8".to_string()),
        "2023-11-14T22:13:20.000000005Z".to_string(),
    ));
    match mode_from_row(row, (0, 0)) {
        Ok(s) => {
            assert!(s.mode == TemplateMode::Merge);
            assert_eq!(s.active_template_id, Some(ID));
            assert_eq!(s.updated_at, NOW);
        }
        Err(_) => panic!("stored mode"),
    }
    assert!(matches!(
        mode_from_row(Some(("bogus".to_string(), None, "x".to_string())), NOW),
        Err(DbError::NotFound(_))
    ));
    assert!(matches!(
        mode_from_row(Some(("merge".to_string(), Some("x".to_string()), "2023-11-14T22:13:20Z".to_string())), NOW),
        Err(DbError::Sqlx(_))
    ));
}

#[test]
fn template_rows() {
    let row = (
        "67e55044-10b1-426f-9247-bb680e5fe0c8".to_string(),
        "n".to_string(),
        "d".to_string(),
        1,
        "2023-11-14T22:13:20.000000005Z".to_string(),
        "2023-11-14T22:13:20.000000005Z".to_string(),
    );
    match row_to_template(row, Ok(JsonValue::Null), None, None) {
        Ok(t) => {
            assert_eq!(t.id, ID);
            assert!(t.enabled);
            assert!(t.app_rules.is_empty());
        }
        Err(_) => panic!("row reads"),
    }
    let row = ("x".to_string(), "n".to_string(), "d".to_string(), 1, "t".to_string(), "t".to_string());
    assert!(matches!(row_to_template(row, Ok(JsonValue::Null), None, None), Err(DbError::Sqlx(_))));
    let row = (
        "67e55044-10b1-426f-9247-bb680e5fe0c8".to_string(),
        "n".to_string(),
        "d".to_string(),
        0,
        "2023-11-14T22:13:20Z".to_string(),
        "2023-11-14T22:13:20Z".to_string(),
    );
    match row_to_template(row, Err("expected value".to_string()), None, None) {
        Err(DbError::Sqlx(m)) => assert_eq!(m, "error occurred while decoding: expected value"),
        _ => panic!("bad route"),
    }
}

#[test]
fn termination_modes_and_settings() {
    for m in [
        TcpTerminationMode::Disabled,
        TcpTerminationMode::OnVpnConnect,
        TcpTerminationMode::OnVpnDisconnect,
        TcpTerminationMode::OnRouteChange,
        TcpTerminationMode::Always,
    ] {
        assert!(matches!(TcpTerminationMode::from_str(m.as_str()), Ok(x) if x == m));
    }
    assert_eq!(TcpTerminationMode::OnRouteChange.as_str(), "on_route_change");
    match TcpTerminationMode::from_str("never") {
        Err(DbError::NotFound(msg)) => assert_eq!(msg, "unknown tcp termination mode: never"),
        _ => panic!("unknown mode"),
    }
    match settings_from_row(Some(("always".to_string(), "2023-11-14T22:13:20.000000005Z".to_string())), (0, 0)) {
        Ok(s) => {
            assert!(s.mode == TcpTerminationMode::Always);
            assert_eq!(s.updated_at, NOW);
        }
        Err(_) => panic!("settings read"),
    }
    match settings_from_row(None, NOW) {
        Ok(s) => assert!(s.mode == TcpTerminationMode::Disabled),
        Err(_) => panic!("default settings"),
    }
}

#[test]
fn termination_rules() {
    let rule = create_rule(
        CreateTcpTerminationRuleInput {
            process_path: Some("/usr/bin/curl".to_string()),
            process_name: None,
            profile_id: None,
            route: None,
            enabled: true,
        },
        ID,
        NOW,
    );
    let s = rules_summary(vec![rule]);
    assert_eq!(s.rule_count, 1);
    assert_eq!(s.enabled_count, 1);
    let rule = match get_rule(s.rules, ID) {
        Ok(r) => r,
        Err(_) => panic!("rule exists"),
    };
    let updated = update_rule(
        rule,
        UpdateTcpTerminationRuleInput {
            process_path: Some(None),
            process_name: Some(Some("curl".to_string())),
            profile_id: None,
            route: None,
            enabled: None,
        },
        (NOW.0 + 1, 0),
    );
    assert!(updated.process_path.is_none());
    assert_eq!(updated.process_name, Some("curl".to_string()));
    assert!(updated.enabled);
    match get_rule(vec![], ID) {
        Err(DbError::NotFound(m)) => assert_eq!(m, "tcp termination rule 67e55044-10b1-426f-9247-bb680e5fe0c8"),
        _ => panic!("missing rule"),
    }
    assert!(rule_write_outcome(2, ID).is_ok());
    assert!(matches!(rule_write_outcome(0, ID), Err(DbError::NotFound(_))));
    let row = (
        "67e55044-10b1-426f-9247-bb680e5fe0c8".to_string(),
        None,
        Some("curl".to_string()),
        Some("bad".to_string()),
        1,
        "2023-11-14T22:13:20Z".to_string(),
        "2023-11-14T22:13:20Z".to_string(),
    );
    assert!(matches!(row_to_rule(row, None), Err(DbError::Sqlx(_))));
    let row = (
        "67e55044-10b1-426f-9247-bb680e5fe0c8".to_string(),
        None,
        None,
        None,
        0,
        "2023-11-14T22:13:20Z".to_string(),
        "2023-11-14T22:13:20Z".to_string(),
    );
    match row_to_rule(row, Some(Ok(JsonValue::Bool(true)))) {
        Ok(r) => {
            assert!(!r.enabled);
            assert!(matches!(r.route, Some(JsonValue::Bool(true))));
        }
        Err(_) => panic!("rule row reads"),
    }
}

fn incident(severity: Option<&str>, status: Option<&str>) -> XdrIncidentInput {
    XdrIncidentInput {
        device_id: None,
        title: "Potential compromise".to_string(),
        description: None,
        severity: severity.map(|s| s.to_string()),
        status: status.map(|s| s.to_string()),
        source: None,
        mitre_techniques: None,
        details: None,
        detected_at: None,
    }
}

#[test]
fn xdr_records_and_summaries() {
    let a = new_incident(incident(Some("critical"), None), "a".to_string(), "now".to_string());
    assert_eq!(a.status, "open");
    assert_eq!(a.source, "xdr");
    let b = new_incident(incident(None, Some("closed")), "b".to_string(), "now".to_string());
    assert_eq!(b.severity, "medium");
    let s = incidents_summary(vec![a, b]);
    assert_eq!(s.incident_count, 2);
    assert_eq!(s.open_incidents, 1);
    assert_eq!(s.high_severity, 1);
    let c = new_case(
        XdrCaseInput {
            title: "Investigate lateral movement".to_string(),
            description: None,
            status: None,
            priority: Some("high".to_string()),
            assignee: None,
            incident_ids: None,
            details: None,
        },
        "c".to_string(),
        "now".to_string(),
    );
    assert_eq!(c.priority, "high");
    assert_eq!(cases_summary(vec![c]).open_cases, 1);
    let h = new_hunt(
        XdrHuntInput {
            name: "SMB lateral scan".to_string(),
            description: None,
            query_kind: None,
            query_text: Some("DeviceNetworkEvents | where RemotePort == 445".to_string()),
            status: None,
            owner: None,
            details: None,
        },
        "h".to_string(),
        "now".to_string(),
    );
    assert_eq!(h.query_kind, "kql");
    assert_eq!(h.status, "draft");
    let hs = hunts_summary(vec![h], 3);
    assert_eq!(hs.active_hunts, 0);
    assert_eq!(hs.result_count, 3);
    let p = new_playbook(
        XdrPlaybookInput { name: "p".to_string(), playbook_kind: None, enabled: None, steps: None, triggers: None },
        "p".to_string(),
        "now".to_string(),
    );
    assert!(p.enabled);
    assert_eq!(soar_summary(vec![p], 4).enabled_playbooks, 1);
    assert_eq!(attribute_device(None, "dev"), Some("dev".to_string()));
    assert_eq!(attribute_device(Some("x".to_string()), "dev"), Some("x".to_string()));
    assert_eq!(response_message("isolate"), "Action isolate executed");
    let t = telemetry_snapshot("t".to_string(), "dev".to_string(), 1, 1, 1, 1, 1, "now".to_string());
    assert_eq!(t.open_incident_count, 1);
}

#[test]
fn xdr_event_defaults() {
    let e = edr_event_record(
        XdrEdrEventInput {
            event_kind: None,
            process_name: Some("powershell.exe".to_string()),
            process_id: Some(4242),
            parent_process_id: None,
            user_name: None,
            file_path: None,
            command_line: Some("-enc AAAA".to_string()),
            hash_sha256: None,
            severity: None,
            details: None,
            observed_at: None,
        },
        "e1".to_string(),
        "dev-1",
        "2024-01-01T00:00:00Z",
    );
    assert_eq!(e.event_kind, "process");
    assert_eq!(e.severity, "info");
    assert_eq!(e.observed_at, "2024-01-01T00:00:00Z");
    assert_eq!(e.device_id, "dev-1");
    assert_eq!(e.process_id, Some(4242));
    let n = ndr_event_record(
        XdrNdrEventInput {
            event_kind: None,
            src_ip: Some("10.0.0.5".to_string()),
            dst_ip: Some("203.0.113.9".to_string()),
            src_port: Some(51515),
            dst_port: Some(443),
            protocol: Some("tcp".to_string()),
            bytes: Some(2048),
            severity: Some("high".to_string()),
            details: None,
            observed_at: Some("2024-01-02T00:00:00Z".to_string()),
        },
        "n1".to_string(),
        "dev-1",
        "2024-01-01T00:00:00Z",
    );
    assert_eq!(n.event_kind, "flow");
    assert_eq!(n.severity, "high");
    assert_eq!(n.observed_at, "2024-01-02T00:00:00Z");
    assert_eq!(n.dst_port, Some(443));
    let t = itdr_threat_record(
        XdrItdrThreatInput {
            threat_kind: None,
            user_id: Some("alice".to_string()),
            identity_provider: None,
            severity: None,
            title: "Impossible travel".to_string(),
            description: None,
            details: None,
            detected_at: None,
        },
        "t1".to_string(),
        "dev-1",
        "2024-01-01T00:00:00Z",
    );
    assert_eq!(t.threat_kind, "credential");
    assert_eq!(t.severity, "medium");
    assert_eq!(t.title, "Impossible travel");
    assert_eq!(t.detected_at, "2024-01-01T00:00:00Z");
}
