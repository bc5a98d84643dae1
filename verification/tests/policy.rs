use controller::json::{JsonFields, JsonItems, JsonNumber, JsonValue};
use controller::models::DbError;
use controller::policy::{
    build_bundle, device_bundle, effective_for_device, global_bundle, merge_policy_content,
    validate_create, CreatePolicyRequest, Policy, PolicyScope,
};

fn text(s: &str) -> JsonValue {
    JsonValue::String(s.to_string())
}

fn object(members: Vec<(&str, JsonValue)>) -> JsonValue {
    let mut f = JsonFields::Empty;
    for (k, v) in members.into_iter().rev() {
        f = JsonFields::Field(k.to_string(), Box::new(v), Box::new(f));
    }
    JsonValue::Object(f)
}

fn array(items: Vec<JsonValue>) -> JsonValue {
    let mut a = JsonItems::Empty;
    for v in items.into_iter().rev() {
        a = JsonItems::Item(Box::new(v), Box::new(a));
    }
    JsonValue::Array(a)
}

fn policy(id: &str, scope: PolicyScope, target: Option<&str>, pushed: bool, content: JsonValue, version: i64) -> Policy {
    Policy {
        id: id.to_string(),
        name: id.to_string(),
        scope,
        scope_target: target.map(|t| t.to_string()),
        content,
        version,
        pushed_at: if pushed { Some("2024-01-01T00:00:00Z".to_string()) } else { None },
        revoked_at: None,
        created_at: "2024-01-01T00:00:00Z".to_string(),
    }
}

fn member<'a>(v: &'a JsonValue, key: &str) -> Option<&'a JsonValue> {
    v.get(key)
}

fn as_text(v: Option<&JsonValue>) -> Option<String> {
    match v {
        Some(JsonValue::String(s)) => Some(s.clone()),
        _ => None,
    }
}

#[test]
fn scope_strings() {
    assert_eq!(PolicyScope::Global.as_str(), "global");
}

#[test]
fn scope_names_round_trip() {
    for s in [PolicyScope::Global, PolicyScope::Group, PolicyScope::Device] {
        assert!(PolicyScope::from_str(s.as_str()) == Some(s));
    }
    assert_eq!(PolicyScope::Group.as_str(), "group");
    assert_eq!(PolicyScope::Device.as_str(), "device");
    assert!(PolicyScope::from_str("tenant").is_none());
}

#[test]
fn group_policy_needs_target() {
    let req = CreatePolicyRequest {
        name: "p".to_string(),
        scope: PolicyScope::Group,
        scope_target: None,
        content: object(vec![]),
    };
    match validate_create(&req) {
        Err(DbError::NotFound(m)) => assert_eq!(m, "scope_target required for group/device policies"),
        _ => panic!("group policy without target must be refused"),
    }
    let ok = CreatePolicyRequest {
        name: "p".to_string(),
        scope: PolicyScope::Global,
        scope_target: None,
        content: object(vec![]),
    };
    assert!(validate_create(&ok).is_ok());
}

#[test]
fn effective_policies_are_pushed_global_or_targeted() {
    let all = vec![
        policy("g", PolicyScope::Global, None, true, object(vec![]), 1),
        policy("unpushed", PolicyScope::Global, None, false, object(vec![]), 1),
        policy("mine", PolicyScope::Device, Some("dev-1"), true, object(vec![]), 1),
        policy("other", PolicyScope::Device, Some("dev-2"), true, object(vec![]), 1),
        policy("group", PolicyScope::Group, Some("dev-1"), true, object(vec![]), 1),
    ];
    let eff = effective_for_device(all, "dev-1");
    let ids: Vec<String> = eff.iter().map(|p| p.id.clone()).collect();
    assert_eq!(ids, vec!["g".to_string(), "mine".to_string()]);
}

#[test]
fn later_policies_override_earlier_members() {
    let all = vec![
        policy("a", PolicyScope::Global, None, true, object(vec![("dns", text("lenient")), ("vpn", text("on"))]), 1),
        policy("b", PolicyScope::Device, Some("dev-1"), true, object(vec![("dns", text("strict"))]), 2),
    ];
    let bundle = device_bundle("dev-1", all);
    assert_eq!(bundle.device_id, "dev-1");
    assert_eq!(as_text(member(&bundle.policy_json, "dns")), Some("strict".to_string()));
    assert_eq!(as_text(member(&bundle.policy_json, "vpn")), Some("on".to_string()));
    assert_eq!(bundle.version, 3);
}

#[test]
fn bundle_merges_policy_json_and_skips_reserved_keys() {
    let content = object(vec![
        ("policy_json", object(vec![("mode", text("split"))])),
        ("locked_keys", array(vec![text("mode"), text("dns")])),
        ("dns", text("strict")),
    ]);
    let merged = merge_policy_content(object(vec![]), &content);
    assert_eq!(as_text(member(&merged, "mode")), Some("split".to_string()));
    assert_eq!(as_text(member(&merged, "dns")), Some("strict".to_string()));
    assert!(member(&merged, "locked_keys").is_none());
    assert!(member(&merged, "policy_json").is_none());
}

#[test]
fn locked_keys_listed_once_in_first_order() {
    let p1 = policy("a", PolicyScope::Global, None, true, object(vec![("locked_keys", array(vec![text("dns"), text("vpn")]))]), 1);
    let p2 = policy("b", PolicyScope::Global, None, true, object(vec![("locked_keys", array(vec![text("vpn"), text("kill_switch"), text("dns")]))]), 1);
    let bundle = build_bundle("dev".to_string(), vec![p1, p2]);
    assert_eq!(bundle.locked_keys, vec!["dns".to_string(), "vpn".to_string(), "kill_switch".to_string()]);
}

#[test]
fn empty_bundle_has_version_one() {
    let bundle = build_bundle("dev".to_string(), vec![]);
    assert_eq!(bundle.version, 1);
    assert!(bundle.policies.is_empty());
    assert!(bundle.locked_keys.is_empty());
}

#[test]
fn bundle_version_saturates() {
    let p1 = policy("a", PolicyScope::Global, None, true, object(vec![]), 4_000_000_000);
    let p2 = policy("b", PolicyScope::Global, None, true, object(vec![]), 4_000_000_000);
    let bundle = build_bundle("dev".to_string(), vec![p1, p2]);
    assert_eq!(bundle.version, u32::MAX);
}

#[test]
fn non_object_content_replaces_document() {
    let merged = merge_policy_content(object(vec![("a", text("x"))]), &JsonValue::Number(JsonNumber::PosInt(7)));
    assert!(matches!(merged, JsonValue::Number(JsonNumber::PosInt(7))));
    let again = merge_policy_content(merged, &object(vec![("b", text("y"))]));
    assert_eq!(as_text(member(&again, "b")), Some("y".to_string()));
    assert!(member(&again, "a").is_none());
}

#[test]
fn global_bundle_takes_unrevoked_global_policies() {
    let mut revoked = policy("r", PolicyScope::Global, None, true, object(vec![("x", text("1"))]), 1);
    revoked.revoked_at = Some("now".to_string());
    let all = vec![
        policy("g", PolicyScope::Global, None, false, object(vec![("x", text("2"))]), 5),
        revoked,
        policy("d", PolicyScope::Device, Some("dev"), true, object(vec![("x", text("3"))]), 1),
    ];
    let bundle = global_bundle(all);
    assert_eq!(bundle.device_id, "global");
    assert_eq!(bundle.policies.len(), 1);
    assert_eq!(as_text(member(&bundle.policy_json, "x")), Some("2".to_string()));
    assert_eq!(bundle.version, 5);
}
