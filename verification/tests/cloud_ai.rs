use controller::ai_security::{
    copilot_result, detection_rule, high_risk_count, investigation_for_device, investigation_from_row,
    investigation_record, investigations_summary, kg_node_record, lower_hex, md5_hash, opening_timeline,
    playbook_suggestion, playbooks_summary, policy_suggestion, prompt_hash, seed_defaults, suggested_policy,
    tags_text, token_estimate, AiCopilotQueryInput, AiGenerateInput, AiInvestigationInput, AiKgNodeInput,
    AiRiskScoreRecord,
};
use controller::cnapp::{scan_counts, CnappIacScanInput};
use controller::cnapp::{
    affected_asset_record, cloud_resource_record, containers_summary, dependency_record, posture_finding_record,
    sbom_document_record, scan_reply, secret_finding_record, secrets_summary, seed_controls,
    seed_remediation_plans, supply_chain_summary, telemetry_snapshot, workload_record, workloads_summary,
    CnappCloudResourceInput, CnappContainerFindingInput, CnappDependencyInput, CnappPostureFindingInput,
    CnappScanCounts, CnappSbomComponentInput, CnappSbomDocumentInput, CnappSecretFindingInput,
    CnappTelemetryIngest, CnappWorkloadInput,
};
use controller::json::JsonValue;
use controller::models::DbError;

fn generate(context: Option<&str>) -> AiGenerateInput {
    AiGenerateInput {
        device_id: Some("dev".to_string()),
        investigation_id: None,
        context: context.map(|c| c.to_string()),
        threat_ref: None,
        details: None,
    }
}

#[test]
fn prompt_hash_is_djb2() {
    assert_eq!(md5_hash(""), 5381);
    assert_eq!(md5_hash("a"), 5381 * 33 + 97);
    assert_eq!(md5_hash("ab"), (5381u64 * 33 + 97) * 33 + 98);
    let long = "x".repeat(100);
    let mut h: u64 = 5381;
    for b in long.bytes() {
        h = h.wrapping_mul(33).wrapping_add(b as u64);
    }
    assert_eq!(md5_hash(&long), h);
    assert_eq!(prompt_hash("a"), format!("{:x}", 5381u64 * 33 + 97));
    assert_eq!(lower_hex(0), "0");
    assert_eq!(lower_hex(255), "ff");
    assert_eq!(lower_hex(u64::MAX), "ffffffffffffffff");
}

#[test]
fn token_estimates() {
    assert_eq!(token_estimate(""), 0);
    assert_eq!(token_estimate("abcdefgh"), 2);
    assert_eq!(token_estimate("abcdefg"), 1);
    assert_eq!(token_estimate("éé"), 1);
}

#[test]
fn copilot_answers_query() {
    let r = copilot_result(
        "q".to_string(),
        "r".to_string(),
        None,
        Some("admin"),
        &AiCopilotQueryInput {
            query_text: "Summarize open credential abuse investigations".to_string(),
            session_id: None,
            context: None,
            details: None,
        },
        "now".to_string(),
    );
    assert_eq!(r.query.status, "completed");
    assert_eq!(r.query.user_id, Some("admin".to_string()));
    assert!(r.query.device_id.is_none());
    assert_eq!(r.response.query_id, "q");
    assert_eq!(r.response.model_id, "wiresentinel-copilot");
    assert_eq!(r.response.latency_ms, 120);
    assert_eq!(r.response.tokens_used, 0);
    assert_eq!(
        r.response.response_text,
        "Analysis for: Summarize open credential abuse investigations. Correlated threats and investigation context were evaluated. Recommended next steps: review detections, validate identity signals, and isolate affected endpoints if confidence exceeds threshold."
    );
}

fn investigation_input() -> AiInvestigationInput {
    AiInvestigationInput {
        device_id: None,
        title: "Agent-reported anomaly".to_string(),
        description: Some("d".to_string()),
        status: None,
        severity: Some("high".to_string()),
        priority: None,
        owner: Some("soc".to_string()),
        source: None,
        tags: None,
        details: None,
        opened_at: None,
    }
}

#[test]
fn investigation_defaults_and_timeline() {
    let i = investigation_record("inv".to_string(), &investigation_input(), "now".to_string());
    assert_eq!(i.status, "open");
    assert_eq!(i.severity, "high");
    assert_eq!(i.priority, "medium");
    assert_eq!(i.source, "ai");
    assert_eq!(i.opened_at, "now");
    assert!(i.closed_at.is_none());
    let t = opening_timeline("tl".to_string(), &i);
    assert_eq!(t.event_kind, "opened");
    assert_eq!(t.title, "Investigation opened");
    assert_eq!(t.investigation_id, "inv");
    assert_eq!(t.actor, Some("soc".to_string()));
    let attributed = investigation_for_device(investigation_input(), "dev-7");
    assert_eq!(attributed.device_id, Some("dev-7".to_string()));
    let mut named = investigation_input();
    named.device_id = Some("dev-1".to_string());
    assert_eq!(investigation_for_device(named, "dev-7").device_id, Some("dev-1".to_string()));
    assert_eq!(tags_text(&None), "[]");
    assert_eq!(tags_text(&Some(vec!["identity".to_string()])), "[\"identity\"]");
}

#[test]
fn investigation_lookup() {
    match investigation_from_row("abc", None) {
        Err(DbError::NotFound(m)) => assert_eq!(m, "investigation abc"),
        _ => panic!("missing investigation"),
    }
    let row = (
        "abc".to_string(),
        None,
        "t".to_string(),
        None,
        "open".to_string(),
        "high".to_string(),
        "high".to_string(),
        None,
        "ai".to_string(),
        "o".to_string(),
        None,
        "c".to_string(),
        "u".to_string(),
    );
    match investigation_from_row("abc", Some(row)) {
        Ok(r) => assert_eq!(r.severity, "high"),
        Err(_) => panic!("row present"),
    }
}

#[test]
fn ai_summaries() {
    let a = investigation_record("a".to_string(), &investigation_input(), "now".to_string());
    let mut low = investigation_input();
    low.severity = None;
    low.status = Some("closed".to_string());
    let b = investigation_record("b".to_string(), &low, "now".to_string());
    let s = investigations_summary(vec![a, b], vec![], vec![]);
    assert_eq!(s.investigation_count, 2);
    assert_eq!(s.open_investigations, 1);
    assert_eq!(s.high_severity, 1);
    let p = playbook_suggestion("p".to_string(), &generate(None), "now".to_string());
    let ps = playbooks_summary(vec![p]);
    assert_eq!(ps.pending_suggestions, 1);
    let risk = |level: &str| AiRiskScoreRecord {
        id: "r".to_string(),
        device_id: None,
        scope_kind: "organization".to_string(),
        risk_score: 62,
        risk_level: level.to_string(),
        evaluated_at: "t".to_string(),
    };
    assert_eq!(high_risk_count(&vec![risk("medium"), risk("high"), risk("critical")]), 2);
}

#[test]
fn generated_suggestions() {
    let (title, logic) = detection_rule(&Some("privilege escalation".to_string()));
    assert_eq!(title, "AI suggested detection for privilege escalation");
    assert_eq!(
        logic,
        "event.severity >= 'medium' AND correlation.confidence >= 0.7 AND context == 'privilege escalation'"
    );
    let (title, _) = detection_rule(&None);
    assert_eq!(title, "AI suggested detection for general");
    let p = playbook_suggestion("p".to_string(), &generate(Some("contain endpoint")), "now".to_string());
    assert_eq!(p.name, "AI response playbook — contain endpoint");
    assert_eq!(p.playbook_kind, "response");
    assert_eq!(p.status, "suggested");
    let q = policy_suggestion("q".to_string(), &generate(None), "now".to_string());
    assert_eq!(q.title, "AI policy recommendation — access");
    assert_eq!(q.rationale, Some("Generated from AI correlation context: access".to_string()));
    let doc = suggested_policy(&Some("restrict lateral movement".to_string()));
    assert!(matches!(doc.get("effect"), Some(JsonValue::String(e)) if e == "deny"));
    assert!(matches!(doc.get("scope"), Some(JsonValue::String(s)) if s == "restrict lateral movement"));
    let gte = doc.get("conditions").and_then(|c| c.get("risk_score")).and_then(|r| r.get("gte"));
    assert_eq!(gte.and_then(|g| g.as_i64()), Some(70));
}

#[test]
fn kg_and_seed() {
    let n = kg_node_record("n".to_string(), "dev", &AiKgNodeInput { node_kind: None, label: "l".to_string(), entity_ref: None, properties: None });
    assert_eq!(n.node_kind, "entity");
    assert!(seed_defaults(1, ("a".into(), "b".into(), "c".into(), "d".into(), "e".into(), "f".into()), "now").is_none());
    match seed_defaults(0, ("a".into(), "b".into(), "c".into(), "d".into(), "e".into(), "f".into()), "now") {
        Some(s) => {
            assert_eq!(s.investigation.title, "Suspicious lateral movement");
            assert_eq!(s.risk_score.risk_score, 62);
            assert_eq!(s.user_node.entity_ref, Some("user:alice".to_string()));
            assert_eq!(s.executive_report.period_end, Some("now".to_string()));
        }
        None => panic!("seed expected"),
    }
}

#[test]
fn cnapp_record_defaults() {
    let f = posture_finding_record(
        "f".to_string(),
        "dev",
        &CnappPostureFindingInput {
            resource_id: None,
            finding_kind: None,
            severity: Some("high".to_string()),
            title: "S3 bucket public access".to_string(),
            description: None,
            status: None,
            framework: Some("cis".to_string()),
            details: None,
            detected_at: None,
        },
        "now",
    );
    assert_eq!(f.finding_kind, "misconfiguration");
    assert_eq!(f.status, "open");
    assert_eq!(f.device_id, Some("dev".to_string()));
    let r = cloud_resource_record(
        "r".to_string(),
        "dev",
        &CnappCloudResourceInput {
            provider: None,
            resource_type: "s3_bucket".to_string(),
            resource_arn: None,
            name: "logs-bucket".to_string(),
            region: None,
            account_id: None,
            tags: None,
            risk_score: Some(75),
            details: None,
            discovered_at: None,
        },
        "now",
    );
    assert_eq!(r.provider, "aws");
    assert_eq!(r.status, "active");
    assert_eq!(r.risk_score, 75);
    let w = workload_record(
        "w".to_string(),
        "dev",
        &CnappWorkloadInput {
            workload_kind: None,
            name: "api-server".to_string(),
            namespace: Some("prod".to_string()),
            cluster_id: None,
            status: None,
            image_ref: None,
            labels: None,
            details: None,
            discovered_at: None,
        },
        "now",
    );
    assert_eq!(w.workload_kind, "pod");
    assert_eq!(w.status, "running");
    let s = secret_finding_record(
        "s".to_string(),
        "dev",
        &CnappSecretFindingInput {
            secret_kind: None,
            severity: None,
            source: None,
            file_path: None,
            redacted_preview: None,
            details: None,
            detected_at: None,
        },
        "now",
    );
    assert_eq!(s.secret_kind, "api_key");
    assert_eq!(s.severity, "high");
    let d = dependency_record(
        "d".to_string(),
        "dev",
        &CnappDependencyInput {
            ecosystem: None,
            package_name: "openssl".to_string(),
            version: None,
            license: None,
            direct: None,
            details: None,
            discovered_at: None,
        },
        "now",
    );
    assert_eq!(d.ecosystem, "npm");
    assert!(d.direct);
    let ws = workloads_summary(vec![w], vec![]);
    assert_eq!(ws.active_workloads, 1);
    let ss = secrets_summary(vec![s]);
    assert_eq!(ss.high_severity, 1);
    assert_eq!(ss.open_findings, 1);
    let sc = supply_chain_summary(vec![d], vec![]);
    assert_eq!(sc.direct_dependencies, 1);
    let cs = containers_summary(vec![], vec![]);
    assert_eq!(cs.image_count, 0);
}

#[test]
fn cnapp_sbom_and_assets() {
    let doc = sbom_document_record(
        "doc".to_string(),
        "dev",
        &CnappSbomDocumentInput {
            format: None,
            name: "api-server".to_string(),
            version: None,
            source: None,
            components: Some(vec![CnappSbomComponentInput {
                name: "openssl".to_string(),
                version: Some("3.0.12".to_string()),
                purl: None,
                license: None,
                kind: None,
                details: None,
            }]),
            details: None,
            generated_at: None,
        },
        "now",
    );
    assert_eq!(doc.format, "cyclonedx");
    assert_eq!(doc.component_count, 1);
    let comp = controller::cnapp::sbom_component_record(
        "c".to_string(),
        "doc",
        &CnappSbomComponentInput { name: "openssl".to_string(), version: None, purl: None, license: None, kind: None, details: None },
    );
    assert_eq!(comp.kind, "library");
    assert!(affected_asset_record("a".to_string(), "v", "dev", &None, &None, "now").is_none());
    match affected_asset_record("a".to_string(), "v", "dev", &None, &Some("nginx:1.25".to_string()), "now") {
        Some(a) => {
            assert_eq!(a.asset_kind, "container");
            assert_eq!(a.status, "open");
            assert_eq!(a.asset_ref, "nginx:1.25");
        }
        None => panic!("asset expected"),
    }
}

#[test]
fn cnapp_telemetry_counts() {
    let payload = CnappTelemetryIngest {
        posture_findings: None,
        cloud_resources: None,
        workloads: None,
        workload_threats: None,
        k8s_clusters: None,
        k8s_findings: None,
        container_findings: Some(vec![CnappContainerFindingInput {
            image_id: None,
            finding_kind: None,
            severity: None,
            title: "t".to_string(),
            cve_id: None,
            package_name: None,
            details: None,
            detected_at: None,
        }]),
        secret_findings: None,
        compliance_violations: None,
        reported_at: None,
    };
    let s = telemetry_snapshot("s".to_string(), "dev", &payload, "now");
    assert_eq!(s.container_finding_count, 1);
    assert_eq!(s.posture_finding_count, 0);
    assert_eq!(s.iac_finding_count, 0);
    assert_eq!(s.vulnerability_count, 0);
    assert_eq!(s.reported_at, "now");
}

#[test]
fn cnapp_scan_reply_counts() {
    let counts = CnappScanCounts {
        iac_scans: 1,
        iac_findings: 1,
        container_images: 1,
        container_findings: 0,
        sbom_documents: 1,
        dependencies: 0,
        supply_chain_threats: 0,
        vulnerabilities: 1,
        attack_paths: 0,
    };
    let reply = scan_reply(&counts, None, "now");
    assert_eq!(reply.get("iac_scans").and_then(|v| v.as_i64()), Some(1));
    assert_eq!(reply.get("attack_paths").and_then(|v| v.as_i64()), Some(0));
    assert!(matches!(reply.get("scanned_at"), Some(JsonValue::String(s)) if s == "now"));
}

#[test]
fn cnapp_seeds() {
    let c = seed_controls(0, ("a".into(), "b".into(), "c".into(), "d".into(), "e".into()));
    assert_eq!(c.len(), 5);
    assert_eq!(c[3].control_id, "1.2.1");
    assert!(seed_controls(5, ("a".into(), "b".into(), "c".into(), "d".into(), "e".into())).is_empty());
    let p = seed_remediation_plans(0, ("a".into(), "b".into(), "c".into()));
    assert_eq!(p[1].priority, "critical");
    assert_eq!(p[0].status, "pending");
    assert!(seed_remediation_plans(1, ("a".into(), "b".into(), "c".into())).is_empty());
}

#[test]
fn cnapp_scan_counts_follow_the_report() {
    let scan = || CnappIacScanInput {
        scan_kind: None,
        repository: Some("infra".to_string()),
        branch: None,
        commit_sha: None,
        status: None,
        details: None,
        scanned_at: None,
    };
    let c = scan_counts(&Some(vec![scan(), scan()]), &None, &None, &None, &None, &None, &Some(vec![]), 3, &None);
    assert_eq!(c.iac_scans, 2);
    assert_eq!(c.iac_findings, 0);
    assert_eq!(c.supply_chain_threats, 0);
    assert_eq!(c.vulnerabilities, 3);
    assert_eq!(c.attack_paths, 0);
}
