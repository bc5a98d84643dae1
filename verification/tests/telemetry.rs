use controller::anonymity::{
    active_count, anonymity_healthy, clamp_score, federation_summary, AnonymityHeartbeatFederationPeer,
};
use controller::json::{read_string_list, string_list_text, JsonFields, JsonNumber, JsonValue};
use controller::kernel::{
    flow_stat_row, route_from_row, route_stat_row, snapshot_from_heartbeat, snapshot_limit,
    status_summary, telemetry_summary, telemetry_value, KernelHeartbeat, KernelHeartbeatFlowStat,
    KernelHeartbeatRoute, KernelHeartbeatTelemetry, KernelSnapshot,
};
use controller::mixnet::{
    health_summary, inventory_summary, node_value, route_row, row_to_route, MixnetHealthSnapshot,
    MixnetHeartbeat, MixnetHeartbeatNode, MixnetHeartbeatRoute, MixnetNodeRecord, MixnetRouteRecord,
};

fn telemetry() -> KernelHeartbeatTelemetry {
    KernelHeartbeatTelemetry {
        classify_count: Some(1000),
        block_count: Some(12),
        route_count: Some(88),
        permit_count: Some(900),
        observe_count: Some(50),
        error_count: Some(1),
        avg_classify_latency_ns: Some(1200),
        max_classify_latency_ns: Some(9000),
        packets_per_sec: Some(250),
        ndis_classify_count: None,
        ndis_redirect_count: None,
        ndis_transform_count: None,
    }
}

fn heartbeat() -> KernelHeartbeat {
    KernelHeartbeat {
        guardian_mode: Some("kernel".to_string()),
        driver_connected: true,
        lifecycle_state: Some("running".to_string()),
        kill_switch_mode: Some("off".to_string()),
        stub_mode: false,
        wfp_engine: Some("kernel".to_string()),
        ndis_enabled: true,
        filter_count: Some(12),
        callouts_registered: Some(4),
        transform_profile: None,
        cover_traffic_profile: None,
        telemetry: Some(telemetry()),
        routes: vec![KernelHeartbeatRoute {
            route_id: "route-1".to_string(),
            app_id: "app-1".to_string(),
            route_kind: "vpn".to_string(),
            profile_id: Some(42),
            interface_luid: None,
            socks_port: None,
            label: Some("default-vpn".to_string()),
            active: true,
        }],
        flow_stats: vec![KernelHeartbeatFlowStat {
            flow_id: "flow-1".to_string(),
            process_id: Some(1234),
            protocol: Some(6),
            bytes: Some(4096),
            direction: Some("outbound".to_string()),
            route_kind: Some("vpn".to_string()),
        }],
        reported_at: None,
    }
}

fn num(v: Option<&JsonValue>) -> Option<i64> {
    v.and_then(|x| x.as_i64())
}

#[test]
fn kernel_heartbeat_snapshot() {
    let hb = heartbeat();
    let s = snapshot_from_heartbeat("snap-1".to_string(), "dev-1", &hb, "2024-01-01T00:00:00Z".to_string());
    assert!(s.healthy);
    assert_eq!(s.guardian_mode, "kernel");
    assert_eq!(s.wfp_engine, "kernel");
    assert_eq!(s.lifecycle_state, "running");
    assert_eq!(s.filter_count, 12);
    assert_eq!(s.callouts_registered, 4);
    assert_eq!(s.active_route_count, 1);
    assert_eq!(s.reported_at, "2024-01-01T00:00:00Z");
    let t = s.telemetry.as_ref().expect("telemetry kept");
    assert_eq!(num(t.get("classify_count")), Some(1000));
    assert!(matches!(t.get("ndis_classify_count"), Some(JsonValue::Null)));
}

#[test]
fn kernel_defaults_fill_each_other() {
    let mut hb = heartbeat();
    hb.guardian_mode = None;
    hb.lifecycle_state = None;
    hb.telemetry = None;
    hb.routes[0].active = false;
    let s = snapshot_from_heartbeat("s".to_string(), "d", &hb, "now".to_string());
    assert_eq!(s.guardian_mode, "kernel");
    assert_eq!(s.lifecycle_state, "stopped");
    assert!(!s.healthy);
    assert!(s.telemetry.is_none());
    assert_eq!(s.active_route_count, 0);
    hb.wfp_engine = None;
    let s = snapshot_from_heartbeat("s".to_string(), "d", &hb, "now".to_string());
    assert_eq!(s.guardian_mode, "userspace");
    assert_eq!(s.wfp_engine, "userspace");
    hb.lifecycle_state = Some("recovering".to_string());
    hb.stub_mode = true;
    let s = snapshot_from_heartbeat("s".to_string(), "d", &hb, "now".to_string());
    assert!(!s.healthy);
    hb.stub_mode = false;
    let s = snapshot_from_heartbeat("s".to_string(), "d", &hb, "now".to_string());
    assert!(s.healthy);
}

#[test]
fn kernel_route_and_flow_rows() {
    let hb = heartbeat();
    let r = route_stat_row("r1".to_string(), "dev-1", &hb.routes[0], "t", "n");
    assert_eq!(r.stat_type, "route");
    assert_eq!(r.label, Some("default-vpn".to_string()));
    assert_eq!(r.profile_id, Some(42));
    assert_eq!(r.active, 1);
    let mut unlabelled = hb.routes[0].clone_route();
    unlabelled.label = None;
    let r2 = route_stat_row("r2".to_string(), "dev-1", &unlabelled, "t", "n");
    assert_eq!(r2.label, Some("app-1".to_string()));
    let listed = route_from_row(r2);
    assert_eq!(listed.app_id, "app-1");
    assert_eq!(listed.route_kind, "vpn");
    let f = flow_stat_row("f1".to_string(), "dev-1", &hb.flow_stats[0], "t", "n");
    assert_eq!(f.stat_type, "flow");
    assert_eq!(f.bytes, 4096);
    assert_eq!(f.process_id, Some(1234));
    assert_eq!(f.active, 1);
}

trait CloneRoute {
    fn clone_route(&self) -> KernelHeartbeatRoute;
}

impl CloneRoute for KernelHeartbeatRoute {
    fn clone_route(&self) -> KernelHeartbeatRoute {
        KernelHeartbeatRoute {
            route_id: self.route_id.clone(),
            app_id: self.app_id.clone(),
            route_kind: self.route_kind.clone(),
            profile_id: self.profile_id,
            interface_luid: self.interface_luid,
            socks_port: self.socks_port,
            label: self.label.clone(),
            active: self.active,
        }
    }
}

#[test]
fn unlisted_route_defaults() {
    let row = controller::models::KernelFlowStatRow {
        id: "i".to_string(),
        device_id: "d".to_string(),
        stat_type: "route".to_string(),
        flow_id: "r".to_string(),
        process_id: None,
        protocol: None,
        bytes: 0,
        direction: None,
        route_kind: None,
        profile_id: None,
        label: None,
        active: 0,
        last_seen_at: "t".to_string(),
        created_at: "t".to_string(),
        updated_at: "t".to_string(),
    };
    let r = route_from_row(row);
    assert_eq!(r.app_id, "unknown");
    assert_eq!(r.route_kind, "direct");
    assert!(!r.active);
}

fn snap(healthy: bool, guardian: &str, engine: &str, routes: i64, telemetry: Option<JsonValue>) -> KernelSnapshot {
    KernelSnapshot {
        id: "s".to_string(),
        device_id: "d".to_string(),
        guardian_mode: guardian.to_string(),
        driver_connected: true,
        lifecycle_state: "running".to_string(),
        kill_switch_mode: None,
        stub_mode: !healthy,
        wfp_engine: engine.to_string(),
        ndis_enabled: healthy,
        healthy,
        filter_count: 0,
        callouts_registered: 0,
        transform_profile: None,
        cover_traffic_profile: None,
        telemetry,
        active_route_count: routes,
        reported_at: "t".to_string(),
        created_at: "t".to_string(),
    }
}

#[test]
fn kernel_status_counts() {
    let s = status_summary(vec![
        snap(true, "kernel", "userspace", 2, None),
        snap(false, "userspace", "kernel", 3, None),
        snap(false, "userspace", "userspace", 0, None),
    ]);
    assert_eq!(s.reporting_devices, 3);
    assert_eq!(s.healthy_devices, 1);
    assert_eq!(s.kernel_devices, 2);
    assert_eq!(s.ndis_devices, 1);
    assert_eq!(s.stub_devices, 2);
    assert_eq!(s.total_active_routes, 5);
    assert_eq!(snapshot_limit(None), 50);
    assert_eq!(snapshot_limit(Some(7)), 7);
}

#[test]
fn kernel_telemetry_sums_and_peak() {
    let a = telemetry_value(&telemetry());
    let mut t2 = telemetry();
    t2.classify_count = Some(5);
    t2.max_classify_latency_ns = Some(100);
    let b = telemetry_value(&t2);
    let not_object = JsonValue::Number(JsonNumber::PosInt(3));
    let s = telemetry_summary(vec![
        snap(true, "k", "k", 0, Some(a)),
        snap(true, "k", "k", 0, Some(b)),
        snap(true, "k", "k", 0, Some(not_object)),
        snap(true, "k", "k", 0, None),
    ]);
    assert_eq!(s.classify_count, 1005);
    assert_eq!(s.block_count, 24);
    assert_eq!(s.max_classify_latency_ns, 9000);
    assert_eq!(s.packets_per_sec, 500);
    let empty = telemetry_summary(vec![]);
    assert_eq!(empty.max_classify_latency_ns, 0);
    assert_eq!(empty.classify_count, 0);
}

#[test]
fn huge_counters_read_as_zero() {
    let mut t = telemetry();
    t.classify_count = Some(u64::MAX);
    let s = telemetry_summary(vec![snap(true, "k", "k", 0, Some(telemetry_value(&t)))]);
    assert_eq!(s.classify_count, 0);
    assert_eq!(s.block_count, 12);
}

fn mixnet_hb(selected_healthy: Option<bool>) -> MixnetHeartbeat {
    MixnetHeartbeat {
        mixnet_connected: true,
        stub_mode: false,
        selected_node: selected_healthy.map(|h| MixnetHeartbeatNode {
            id: "node-1".to_string(),
            gateway_id: "gw-1".to_string(),
            country: Some("NL".to_string()),
            latency_ms: Some(40),
            healthy: h,
        }),
        active_routes: vec![
            MixnetHeartbeatRoute {
                route_id: "r1".to_string(),
                label: "chain".to_string(),
                hops: vec!["entry".to_string(), "mix".to_string(), "exit".to_string()],
                socks_port: Some(9050),
                cover_traffic_profile: None,
                active: true,
            },
            MixnetHeartbeatRoute {
                route_id: "r2".to_string(),
                label: "idle".to_string(),
                hops: vec![],
                socks_port: None,
                cover_traffic_profile: None,
                active: false,
            },
        ],
        cover_traffic_profile: Some("low".to_string()),
        reported_at: Some("2024-02-02T00:00:00Z".to_string()),
    }
}

#[test]
fn mixnet_health_follows_selected_node() {
    let s = controller::mixnet::snapshot_from_heartbeat("id".to_string(), "dev", &mixnet_hb(Some(true)), "now".to_string());
    assert!(s.healthy);
    assert_eq!(s.active_route_count, 1);
    assert_eq!(s.reported_at, "2024-02-02T00:00:00Z");
    let node = s.selected_node.as_ref().expect("node kept");
    assert!(matches!(node.get("healthy"), Some(JsonValue::Bool(true))));
    assert_eq!(num(node.get("latency_ms")), Some(40));
    let s = controller::mixnet::snapshot_from_heartbeat("id".to_string(), "dev", &mixnet_hb(Some(false)), "now".to_string());
    assert!(!s.healthy);
    let s = controller::mixnet::snapshot_from_heartbeat("id".to_string(), "dev", &mixnet_hb(None), "now".to_string());
    assert!(!s.healthy);
    assert!(s.selected_node.is_none());
    let n = node_value(&MixnetHeartbeatNode {
        id: "n".to_string(),
        gateway_id: "g".to_string(),
        country: None,
        latency_ms: None,
        healthy: false,
    });
    assert!(matches!(n.get("country"), Some(JsonValue::Null)));
}

#[test]
fn mixnet_route_hops_read_back() {
    let hb = mixnet_hb(Some(true));
    let row = route_row("row".to_string(), "dev", &hb.active_routes[0], "t", "n");
    assert_eq!(row.hops_json, "[\"entry\",\"mix\",\"exit\"]");
    assert_eq!(row.socks_port, Some(9050));
    let listed = match row_to_route(row) {
        Ok(r) => r,
        Err(_) => panic!("route rows always read"),
    };
    assert_eq!(listed.hops, vec!["entry".to_string(), "mix".to_string(), "exit".to_string()]);
    assert!(listed.active);
}

#[test]
fn string_lists_round_trip() {
    let items = vec!["a\"b".to_string(), "ünïcode".to_string(), "line\nbreak".to_string()];
    let text = string_list_text(&items);
    assert_eq!(read_string_list(&text), items);
    assert!(read_string_list("not json").is_empty());
    assert!(read_string_list("[1,2]").is_empty());
}

fn mixnet_snap(connected: bool, healthy: bool, stub: bool, routes: i64) -> MixnetHealthSnapshot {
    MixnetHealthSnapshot {
        id: "s".to_string(),
        device_id: "d".to_string(),
        mixnet_connected: connected,
        stub_mode: stub,
        healthy,
        selected_node: None,
        active_route_count: routes,
        cover_traffic_profile: None,
        reported_at: "t".to_string(),
        created_at: "t".to_string(),
    }
}

#[test]
fn mixnet_summaries() {
    let h = health_summary(vec![mixnet_snap(true, true, false, 2), mixnet_snap(true, false, true, 1), mixnet_snap(false, false, false, 0)]);
    assert_eq!(h.connected_devices, 2);
    assert_eq!(h.healthy_devices, 1);
    assert_eq!(h.stub_devices, 1);
    assert_eq!(h.total_active_routes, 3);
    let route = |active: bool| MixnetRouteRecord {
        id: "i".to_string(),
        device_id: "d".to_string(),
        route_id: "r".to_string(),
        label: "l".to_string(),
        hops: vec![],
        socks_port: None,
        cover_traffic_profile: None,
        active,
        last_seen_at: "t".to_string(),
        created_at: "t".to_string(),
        updated_at: "t".to_string(),
    };
    let node = MixnetNodeRecord {
        id: "i".to_string(),
        device_id: "d".to_string(),
        node_id: "n".to_string(),
        gateway_id: "g".to_string(),
        country: None,
        latency_ms: None,
        healthy: true,
        last_seen_at: "t".to_string(),
        created_at: "t".to_string(),
        updated_at: "t".to_string(),
    };
    let inv = inventory_summary(vec![node], vec![route(true), route(false), route(true)], 4);
    assert_eq!(inv.node_count, 1);
    assert_eq!(inv.route_count, 3);
    assert_eq!(inv.active_route_count, 2);
    assert_eq!(inv.devices_reporting, 4);
}

fn peer(id: &str, healthy: bool) -> AnonymityHeartbeatFederationPeer {
    AnonymityHeartbeatFederationPeer { peer_id: id.to_string(), region: Some("eu-west".to_string()), healthy }
}

#[test]
fn anonymity_health_rule() {
    assert!(anonymity_healthy(true, false, Some(88), &vec![peer("a", true)]));
    assert!(anonymity_healthy(true, false, Some(50), &vec![peer("a", true), peer("b", false)]));
    assert!(!anonymity_healthy(true, false, Some(50), &vec![peer("a", false), peer("b", false)]));
    assert!(anonymity_healthy(true, false, Some(50), &vec![]));
    assert!(!anonymity_healthy(true, false, Some(49), &vec![]));
    assert!(!anonymity_healthy(true, false, None, &vec![]));
    assert!(!anonymity_healthy(false, false, Some(90), &vec![]));
    assert!(!anonymity_healthy(true, true, Some(90), &vec![]));
    assert!(anonymity_healthy(true, false, Some(90), &vec![peer("a", false)]));
}

#[test]
fn anonymity_counts_and_clamps() {
    assert_eq!(active_count(&vec![true, false, true]), 2);
    assert_eq!(clamp_score(-4), 0);
    assert_eq!(clamp_score(250), 100);
    assert_eq!(clamp_score(77), 77);
}

#[test]
fn federation_peers_deduplicated() {
    let s = federation_summary(vec![
        (2, vec![peer("peer-eu-1", true), peer("peer-us-1", false)]),
        (0, vec![peer("ignored", true)]),
        (2, vec![peer("peer-eu-1", false), peer("peer-ap-1", true)]),
    ]);
    assert_eq!(s.devices_with_federation, 2);
    assert_eq!(s.total_peers, 3);
    assert_eq!(s.healthy_peers, 2);
    let ids: Vec<String> = s.peers.iter().map(|p| p.peer_id.clone()).collect();
    assert_eq!(ids, vec!["peer-eu-1".to_string(), "peer-us-1".to_string(), "peer-ap-1".to_string()]);
    assert!(s.peers[0].healthy);
    let empty = federation_summary(vec![]);
    assert_eq!(empty.total_peers, 0);
}

#[test]
fn non_object_helper_values() {
    let v = JsonValue::Object(JsonFields::Empty);
    assert!(v.get("x").is_none());
}
