use controller::cloud_controllers::{
    backup_status, diagnostics_notes, health_url, new_link, provision_name, provision_outcome,
    provision_url, restore_status, restore_url, sync_upload_url, upload_accepted, usable_token,
    CloudReply, CreateCloudControllerRequest, RestoreReply,
};
use controller::cloud_reporter::{
    federation_outbound, forward_url, push_accepted, reporter_interval_secs, with_controller_id,
    CloudReporterPushSummary,
};
use controller::enrollment::hash_token;
use controller::federation::plan_registration;
use controller::json::{JsonFields, JsonValue};
use controller::models::DbError;
use controller::text::trim_trailing_slashes;

#[test]
fn registration_hashes_token_and_trims_url() {
    match plan_registration("cloud-reg-token-abc", "tenant-acme", "https://cloud.example.com//") {
        Ok(p) => {
            assert_eq!(p.token_hash, hash_token("cloud-reg-token-abc"));
            assert_eq!(p.cloud_base_url, "https://cloud.example.com");
        }
        Err(_) => panic!("valid registration"),
    }
}

#[test]
fn registration_refuses_empty_fields() {
    for (t, ten, url) in [("", "t", "u"), ("x", "", "u"), ("x", "t", "")] {
        match plan_registration(t, ten, url) {
            Err(DbError::NotFound(m)) => assert_eq!(m, "invalid federation registration payload"),
            _ => panic!("empty field must be refused"),
        }
    }
}

#[test]
fn trim_removes_only_trailing_slashes() {
    assert_eq!(trim_trailing_slashes("a/b///"), "a/b");
    assert_eq!(trim_trailing_slashes("///"), "");
    assert_eq!(trim_trailing_slashes("/a"), "/a");
}

#[test]
fn new_link_trims_url() {
    let link = new_link(
        "id".to_string(),
        CreateCloudControllerRequest {
            tenant_id: "t".to_string(),
            cloud_base_url: "https://c.example/".to_string(),
            federation_token: "tok".to_string(),
        },
        "now".to_string(),
    );
    assert_eq!(link.cloud_base_url, "https://c.example");
    assert_eq!(link.tenant_id, "t");
}

#[test]
fn empty_token_is_not_usable() {
    assert_eq!(usable_token(Some(String::new())), None);
    assert_eq!(usable_token(None), None);
    assert_eq!(usable_token(Some("tok".to_string())), Some("tok".to_string()));
}

#[test]
fn provision_name_takes_eight_characters() {
    assert_eq!(provision_name("0123456789abcdef"), "controller-01234567");
    assert_eq!(provision_name("abc"), "controller-abc");
    assert_eq!(provision_name("aaaaaaéxyz"), "controller-aaaaaaé");
}

#[test]
fn provision_outcomes() {
    assert_eq!(
        provision_outcome(None),
        ("queued".to_string(), "no federation token \u{2014} provision not sent to cloud".to_string())
    );
    assert_eq!(
        provision_outcome(Some(CloudReply::Status(201, "201 Created".to_string()))),
        ("submitted".to_string(), "provision request accepted by cloud".to_string())
    );
    assert_eq!(
        provision_outcome(Some(CloudReply::Status(500, "500 Internal Server Error".to_string()))),
        ("queued".to_string(), "cloud provision returned 500 Internal Server Error".to_string())
    );
    assert_eq!(
        provision_outcome(Some(CloudReply::Unreachable("timeout".to_string()))),
        ("queued".to_string(), "cloud provision unreachable: timeout".to_string())
    );
}

#[test]
fn cloud_urls() {
    assert_eq!(provision_url("https://c"), "https://c/api/v1/federation/controllers");
    assert_eq!(health_url("https://c"), "https://c/health");
    assert_eq!(sync_upload_url("https://c"), "https://c/api/v1/cloud/sync");
    assert_eq!(restore_url("https://c", "t1"), "https://c/api/v1/federation/sync?tenant_id=t1");
    assert_eq!(forward_url("https://c", "usage"), "https://c/api/v1/cloud/usage");
}

#[test]
fn diagnostics_and_backup_texts() {
    assert_eq!(diagnostics_notes(true, "https://c/health"), "cloud health endpoint reachable");
    assert_eq!(
        diagnostics_notes(false, "https://c/health"),
        "cloud health check failed for https://c/health"
    );
    assert!(upload_accepted(204));
    assert!(upload_accepted(200));
    assert!(!upload_accepted(404));
    assert_eq!(backup_status(true), "uploaded");
    assert_eq!(backup_status(false), "queued");
}

#[test]
fn restore_statuses() {
    assert_eq!(restore_status(None), "queued");
    assert_eq!(restore_status(Some(RestoreReply::Answered(200, true))), "restored");
    assert_eq!(restore_status(Some(RestoreReply::Answered(200, false))), "queued");
    assert_eq!(restore_status(Some(RestoreReply::Answered(404, false))), "cloud_restore_404");
    assert_eq!(restore_status(Some(RestoreReply::Unreachable)), "cloud_unreachable");
}

#[test]
fn outbound_needs_token_and_url() {
    assert!(federation_outbound(None).is_none());
    assert!(federation_outbound(Some(("t".into(), "u".into(), "c".into(), None))).is_none());
    assert!(federation_outbound(Some(("t".into(), "u".into(), "c".into(), Some(String::new())))).is_none());
    assert!(federation_outbound(Some(("t".into(), String::new(), "c".into(), Some("k".into())))).is_none());
    match federation_outbound(Some(("t".into(), "https://c/".into(), "c1".into(), Some("k".into())))) {
        Some(f) => {
            assert_eq!(f.cloud_base_url, "https://c");
            assert_eq!(f.tenant_id, "t");
            assert_eq!(f.cloud_controller_id, "c1");
            assert_eq!(f.federation_token, "k");
        }
        None => panic!("complete registration forwards"),
    }
}

#[test]
fn reporter_settings() {
    assert!(push_accepted(202));
    assert!(!push_accepted(500));
    assert_eq!(reporter_interval_secs(5), 30);
    assert_eq!(reporter_interval_secs(120), 120);
    let s = CloudReporterPushSummary::empty();
    assert!(!s.forwarded_any());
    let s = CloudReporterPushSummary { usage_forwarded: 0, health_forwarded: 2, logs_forwarded: 0 };
    assert!(s.forwarded_any());
}

#[test]
fn controller_id_added_unless_present() {
    let body = JsonValue::Object(JsonFields::Empty);
    let out = with_controller_id(body, "c1".to_string());
    match out.get("controller_id") {
        Some(JsonValue::String(s)) => assert_eq!(s, "c1"),
        _ => panic!("controller_id added"),
    }
    let kept = with_controller_id(out, "c2".to_string());
    match kept.get("controller_id") {
        Some(JsonValue::String(s)) => assert_eq!(s, "c1"),
        _ => panic!("controller_id kept"),
    }
    let not_object = with_controller_id(JsonValue::Null, "c1".to_string());
    assert!(matches!(not_object, JsonValue::Null));
}
