use vstd::prelude::*;

use crate::json::{JsonFields, JsonNumber, JsonValue};
use crate::models::{KernelFlowStatRow, KernelSnapshotRow};
use crate::text::{copy_opt_text, or_text};

verus! {

pub struct KernelSnapshot {
    pub id: String,
    pub device_id: String,
    pub guardian_mode: String,
    pub driver_connected: bool,
    pub lifecycle_state: String,
    pub kill_switch_mode: Option<String>,
    pub stub_mode: bool,
    pub wfp_engine: String,
    pub ndis_enabled: bool,
    pub healthy: bool,
    pub filter_count: i64,
    pub callouts_registered: i64,
    pub transform_profile: Option<String>,
    pub cover_traffic_profile: Option<String>,
    pub telemetry: Option<JsonValue>,
    pub active_route_count: i64,
    pub reported_at: String,
    pub created_at: String,
}

pub struct KernelRouteRecord {
    pub id: String,
    pub device_id: String,
    pub route_id: String,
    pub app_id: String,
    pub route_kind: String,
    pub profile_id: Option<i64>,
    pub interface_luid: Option<i64>,
    pub socks_port: Option<i32>,
    pub label: Option<String>,
    pub active: bool,
    pub last_seen_at: String,
}

pub struct KernelFlowStatRecord {
    pub id: String,
    pub device_id: String,
    pub flow_id: String,
    pub process_id: Option<i64>,
    pub protocol: Option<i64>,
    pub bytes: i64,
    pub direction: Option<String>,
    pub route_kind: Option<String>,
    pub last_seen_at: String,
}

pub struct KernelStatusSummary {
    pub reporting_devices: i64,
    pub healthy_devices: i64,
    pub kernel_devices: i64,
    pub ndis_devices: i64,
    pub stub_devices: i64,
    pub total_active_routes: i64,
    pub snapshots: Vec<KernelSnapshot>,
}

pub struct KernelTelemetrySummary {
    pub classify_count: i64,
    pub block_count: i64,
    pub route_count: i64,
    pub permit_count: i64,
    pub observe_count: i64,
    pub error_count: i64,
    pub avg_classify_latency_ns: i64,
    pub max_classify_latency_ns: i64,
    pub packets_per_sec: i64,
    pub snapshots: Vec<KernelSnapshot>,
}

pub struct KernelHeartbeatTelemetry {
    pub classify_count: Option<u64>,
    pub block_count: Option<u64>,
    pub route_count: Option<u64>,
    pub permit_count: Option<u64>,
    pub observe_count: Option<u64>,
    pub error_count: Option<u64>,
    pub avg_classify_latency_ns: Option<u64>,
    pub max_classify_latency_ns: Option<u64>,
    pub packets_per_sec: Option<u64>,
    pub ndis_classify_count: Option<u64>,
    pub ndis_redirect_count: Option<u64>,
    pub ndis_transform_count: Option<u64>,
}

pub struct KernelHeartbeatRoute {
    pub route_id: String,
    pub app_id: String,
    pub route_kind: String,
    pub profile_id: Option<u64>,
    pub interface_luid: Option<u64>,
    pub socks_port: Option<u16>,
    pub label: Option<String>,
    pub active: bool,
}

pub struct KernelHeartbeatFlowStat {
    pub flow_id: String,
    pub process_id: Option<u32>,
    pub protocol: Option<u32>,
    pub bytes: Option<u64>,
    pub direction: Option<String>,
    pub route_kind: Option<String>,
}

pub struct KernelHeartbeat {
    pub guardian_mode: Option<String>,
    pub driver_connected: bool,
    pub lifecycle_state: Option<String>,
    pub kill_switch_mode: Option<String>,
    pub stub_mode: bool,
    pub wfp_engine: Option<String>,
    pub ndis_enabled: bool,
    pub filter_count: Option<u32>,
    pub callouts_registered: Option<u32>,
    pub transform_profile: Option<String>,
    pub cover_traffic_profile: Option<String>,
    pub telemetry: Option<KernelHeartbeatTelemetry>,
    pub routes: Vec<KernelHeartbeatRoute>,
    pub flow_stats: Vec<KernelHeartbeatFlowStat>,
    pub reported_at: Option<String>,
}

/// How many snapshots a listing returns when no limit is given.
pub fn snapshot_limit(limit: Option<i64>) -> (r: i64)
    ensures
        r == match limit {
            Some(l) => l,
            None => 50,
        },
{
    match limit {
        Some(l) => l,
        None => 50,
    }
}

/// The guardian mode a heartbeat reports: its own, else its filtering engine,
/// else `userspace`.
pub open spec fn guardian_mode_of(hb: KernelHeartbeat) -> Seq<char> {
    match hb.guardian_mode {
        Some(g) => g@,
        None => match hb.wfp_engine {
            Some(w) => w@,
            None => "userspace"@,
        },
    }
}

/// The filtering engine a heartbeat reports: its own, else its guardian mode.
pub open spec fn wfp_engine_of(hb: KernelHeartbeat) -> Seq<char> {
    match hb.wfp_engine {
        Some(w) => w@,
        None => guardian_mode_of(hb),
    }
}

/// A kernel guardian is healthy when its driver is connected, it is not a
/// stub, and it is running or recovering.
pub open spec fn kernel_healthy(driver_connected: bool, stub_mode: bool, lifecycle: Seq<char>) -> bool {
    driver_connected && !stub_mode && (lifecycle == "running"@ || lifecycle == "recovering"@)
}

/// How many of the reported routes are active.
pub open spec fn count_active_routes(s: Seq<KernelHeartbeatRoute>) -> nat
    decreases s.len(),
{
    if s.len() == 0 {
        0
    } else {
        count_active_routes(s.drop_last()) + if s.last().active {
            1nat
        } else {
            0nat
        }
    }
}

/// The JSON form of an optional counter.
pub open spec fn counter_json(c: Option<u64>) -> JsonValue {
    match c {
        Some(u) => JsonValue::Number(JsonNumber::PosInt(u)),
        None => JsonValue::Null,
    }
}

/// The members of the JSON form of kernel telemetry: one per counter.
pub open spec fn telemetry_members(t: KernelHeartbeatTelemetry) -> Map<Seq<char>, JsonValue> {
    Map::empty().insert("classify_count"@, counter_json(t.classify_count)).insert(
        "block_count"@,
        counter_json(t.block_count),
    ).insert("route_count"@, counter_json(t.route_count)).insert(
        "permit_count"@,
        counter_json(t.permit_count),
    ).insert("observe_count"@, counter_json(t.observe_count)).insert(
        "error_count"@,
        counter_json(t.error_count),
    ).insert("avg_classify_latency_ns"@, counter_json(t.avg_classify_latency_ns)).insert(
        "max_classify_latency_ns"@,
        counter_json(t.max_classify_latency_ns),
    ).insert("packets_per_sec"@, counter_json(t.packets_per_sec)).insert(
        "ndis_classify_count"@,
        counter_json(t.ndis_classify_count),
    ).insert("ndis_redirect_count"@, counter_json(t.ndis_redirect_count)).insert(
        "ndis_transform_count"@,
        counter_json(t.ndis_transform_count),
    )
}

fn counter_value(c: Option<u64>) -> (r: JsonValue)
    ensures
        r == counter_json(c),
{
    match c {
        Some(u) => JsonValue::Number(JsonNumber::PosInt(u)),
        None => JsonValue::Null,
    }
}

fn push_member(f: JsonFields, key: &str, value: JsonValue) -> (r: JsonFields)
    ensures
        crate::json::fields_map(r) == crate::json::fields_map(f).insert(key@, value),
{
    JsonFields::Field(String::from_str(key), Box::new(value), Box::new(f))
}

/// The JSON object that stores a heartbeat's telemetry: every counter under its
/// own name, `null` where the agent sent none.
pub fn telemetry_value(t: &KernelHeartbeatTelemetry) -> (r: JsonValue)
    ensures
        crate::json::object_map(r) == Some(telemetry_members(*t)),
{
    let mut f = JsonFields::Empty;
    f = push_member(f, "classify_count", counter_value(t.classify_count));
    f = push_member(f, "block_count", counter_value(t.block_count));
    f = push_member(f, "route_count", counter_value(t.route_count));
    f = push_member(f, "permit_count", counter_value(t.permit_count));
    f = push_member(f, "observe_count", counter_value(t.observe_count));
    f = push_member(f, "error_count", counter_value(t.error_count));
    f = push_member(f, "avg_classify_latency_ns", counter_value(t.avg_classify_latency_ns));
    f = push_member(f, "max_classify_latency_ns", counter_value(t.max_classify_latency_ns));
    f = push_member(f, "packets_per_sec", counter_value(t.packets_per_sec));
    f = push_member(f, "ndis_classify_count", counter_value(t.ndis_classify_count));
    f = push_member(f, "ndis_redirect_count", counter_value(t.ndis_redirect_count));
    f = push_member(f, "ndis_transform_count", counter_value(t.ndis_transform_count));
    JsonValue::Object(f)
}

/// An optional 32-bit count widened, or 0.
pub open spec fn count_or_zero(c: Option<u32>) -> i64 {
    match c {
        Some(v) => v as i64,
        None => 0,
    }
}

fn widen_count(c: Option<u32>) -> (r: i64)
    ensures
        r == count_or_zero(c),
{
    match c {
        Some(v) => v as i64,
        None => 0,
    }
}

fn active_route_total(routes: &Vec<KernelHeartbeatRoute>) -> (r: i64)
    requires
        routes@.len() <= i64::MAX,
    ensures
        r == count_active_routes(routes@),
{
    let mut n: i64 = 0;
    let mut i: usize = 0;
    while i < routes.len()
        invariant
            i <= routes@.len(),
            routes@.len() <= i64::MAX,
            n == count_active_routes(routes@.take(i as int)),
            n <= i,
        decreases routes@.len() - i,
    {
        proof {
            assert(routes@.take(i + 1).drop_last() =~= routes@.take(i as int));
        }
        if routes[i].active {
            n = n + 1;
        }
        i = i + 1;
    }
    assert(routes@.take(i as int) =~= routes@);
    n
}

fn guardian_mode_text(hb: &KernelHeartbeat) -> (r: String)
    ensures
        r@ == guardian_mode_of(*hb),
{
    match &hb.guardian_mode {
        Some(g) => g.clone(),
        None => match &hb.wfp_engine {
            Some(w) => w.clone(),
            None => String::from_str("userspace"),
        },
    }
}

/// The snapshot that a kernel heartbeat records: modes and engine filled in
/// from each other, lifecycle `stopped` unless told, health by the kernel
/// health rule, the active routes counted, the telemetry in its JSON form, and
/// reported now unless the agent says when.
pub fn snapshot_from_heartbeat(id: String, device_id: &str, hb: &KernelHeartbeat, now: String) -> (r:
    KernelSnapshot)
    requires
        hb.routes@.len() <= i64::MAX,
    ensures
        r.id == id,
        r.device_id@ == device_id@,
        r.guardian_mode@ == guardian_mode_of(*hb),
        r.driver_connected == hb.driver_connected,
        r.lifecycle_state@ == crate::text::text_or(hb.lifecycle_state, "stopped"@),
        r.kill_switch_mode == hb.kill_switch_mode,
        r.stub_mode == hb.stub_mode,
        r.wfp_engine@ == wfp_engine_of(*hb),
        r.ndis_enabled == hb.ndis_enabled,
        r.healthy == kernel_healthy(hb.driver_connected, hb.stub_mode, r.lifecycle_state@),
        r.filter_count == count_or_zero(hb.filter_count),
        r.callouts_registered == count_or_zero(hb.callouts_registered),
        r.transform_profile == hb.transform_profile,
        r.cover_traffic_profile == hb.cover_traffic_profile,
        match hb.telemetry {
            Some(t) => r.telemetry matches Some(v) && crate::json::object_map(v) == Some(
                telemetry_members(t),
            ),
            None => r.telemetry is None,
        },
        r.active_route_count == count_active_routes(hb.routes@),
        r.reported_at@ == crate::text::text_or(hb.reported_at, now@),
        r.created_at == now,
{
    let reported_at = or_text(copy_opt_text(&hb.reported_at), now.as_str());
    let guardian_mode = guardian_mode_text(hb);
    let lifecycle_state = or_text(copy_opt_text(&hb.lifecycle_state), "stopped");
    let wfp_engine = match &hb.wfp_engine {
        Some(w) => w.clone(),
        None => guardian_mode.clone(),
    };
    let running = crate::text::text_eq(lifecycle_state.as_str(), "running");
    let recovering = crate::text::text_eq(lifecycle_state.as_str(), "recovering");
    let healthy = hb.driver_connected && !hb.stub_mode && (running || recovering);
    let active_route_count = active_route_total(&hb.routes);
    let telemetry = match &hb.telemetry {
        Some(t) => Some(telemetry_value(t)),
        None => None,
    };
    KernelSnapshot {
        id,
        device_id: String::from_str(device_id),
        guardian_mode,
        driver_connected: hb.driver_connected,
        lifecycle_state,
        kill_switch_mode: copy_opt_text(&hb.kill_switch_mode),
        stub_mode: hb.stub_mode,
        wfp_engine,
        ndis_enabled: hb.ndis_enabled,
        healthy,
        filter_count: widen_count(hb.filter_count),
        callouts_registered: widen_count(hb.callouts_registered),
        transform_profile: copy_opt_text(&hb.transform_profile),
        cover_traffic_profile: copy_opt_text(&hb.cover_traffic_profile),
        telemetry,
        active_route_count,
        reported_at,
        created_at: now,
    }
}

/// The stored row for a reported route: keyed by its route id, labelled by its
/// label or else its application, seen at the heartbeat's time.
pub fn route_stat_row(row_id: String, device_id: &str, route: &KernelHeartbeatRoute, reported_at: &str, now: &str) -> (r:
    KernelFlowStatRow)
    ensures
        r.id == row_id,
        r.device_id@ == device_id@,
        r.stat_type@ == "route"@,
        r.flow_id == route.route_id,
        r.process_id is None,
        r.protocol is None,
        r.bytes == 0,
        r.direction is None,
        r.route_kind == Some(route.route_kind),
        r.profile_id == match route.profile_id {
            Some(p) => Some(p as i64),
            None => None::<i64>,
        },
        r.label matches Some(l) && l@ == crate::text::text_or(route.label, route.app_id@),
        r.active == (if route.active {
            1i64
        } else {
            0i64
        }),
        r.last_seen_at@ == reported_at@,
        r.created_at@ == now@,
        r.updated_at@ == now@,
{
    let label = match &route.label {
        Some(l) => l.clone(),
        None => route.app_id.clone(),
    };
    KernelFlowStatRow {
        id: row_id,
        device_id: String::from_str(device_id),
        stat_type: String::from_str("route"),
        flow_id: route.route_id.clone(),
        process_id: None,
        protocol: None,
        bytes: 0,
        direction: None,
        route_kind: Some(route.route_kind.clone()),
        profile_id: match route.profile_id {
            Some(p) => Some(p as i64),
            None => None,
        },
        label: Some(label),
        active: if route.active {
            1
        } else {
            0
        },
        last_seen_at: String::from_str(reported_at),
        created_at: String::from_str(now),
        updated_at: String::from_str(now),
    }
}

/// The stored row for a reported flow: keyed by its flow id, 0 bytes unless
/// told, always active.
pub fn flow_stat_row(row_id: String, device_id: &str, flow: &KernelHeartbeatFlowStat, reported_at: &str, now: &str) -> (r:
    KernelFlowStatRow)
    ensures
        r.id == row_id,
        r.device_id@ == device_id@,
        r.stat_type@ == "flow"@,
        r.flow_id == flow.flow_id,
        r.process_id == match flow.process_id {
            Some(p) => Some(p as i64),
            None => None::<i64>,
        },
        r.protocol == match flow.protocol {
            Some(p) => Some(p as i64),
            None => None::<i64>,
        },
        r.bytes == match flow.bytes {
            Some(b) => b as i64,
            None => 0i64,
        },
        r.direction == flow.direction,
        r.route_kind == flow.route_kind,
        r.profile_id is None,
        r.label is None,
        r.active == 1,
        r.last_seen_at@ == reported_at@,
        r.created_at@ == now@,
        r.updated_at@ == now@,
{
    KernelFlowStatRow {
        id: row_id,
        device_id: String::from_str(device_id),
        stat_type: String::from_str("flow"),
        flow_id: flow.flow_id.clone(),
        process_id: match flow.process_id {
            Some(p) => Some(p as i64),
            None => None,
        },
        protocol: match flow.protocol {
            Some(p) => Some(p as i64),
            None => None,
        },
        bytes: match flow.bytes {
            Some(b) => b as i64,
            None => 0,
        },
        direction: copy_opt_text(&flow.direction),
        route_kind: copy_opt_text(&flow.route_kind),
        profile_id: None,
        label: None,
        active: 1,
        last_seen_at: String::from_str(reported_at),
        created_at: String::from_str(now),
        updated_at: String::from_str(now),
    }
}

/// A route as listed: the application is the stored label (or `unknown`), the
/// kind `direct` unless stored.
pub fn route_from_row(row: KernelFlowStatRow) -> (r: KernelRouteRecord)
    ensures
        r.id == row.id,
        r.device_id == row.device_id,
        r.route_id == row.flow_id,
        r.app_id@ == crate::text::text_or(row.label, "unknown"@),
        r.route_kind@ == crate::text::text_or(row.route_kind, "direct"@),
        r.profile_id == row.profile_id,
        r.interface_luid is None,
        r.socks_port is None,
        r.label == row.label,
        r.active == (row.active != 0),
        r.last_seen_at == row.last_seen_at,
{
    let app_id = or_text(copy_opt_text(&row.label), "unknown");
    KernelRouteRecord {
        id: row.id,
        device_id: row.device_id,
        route_id: row.flow_id,
        app_id,
        route_kind: or_text(row.route_kind, "direct"),
        profile_id: row.profile_id,
        interface_luid: None,
        socks_port: None,
        label: row.label,
        active: row.active != 0,
        last_seen_at: row.last_seen_at,
    }
}

/// A flow as listed, field for field.
pub fn flow_from_row(row: KernelFlowStatRow) -> (r: KernelFlowStatRecord)
    ensures
        r.id == row.id,
        r.device_id == row.device_id,
        r.flow_id == row.flow_id,
        r.process_id == row.process_id,
        r.protocol == row.protocol,
        r.bytes == row.bytes,
        r.direction == row.direction,
        r.route_kind == row.route_kind,
        r.last_seen_at == row.last_seen_at,
{
    KernelFlowStatRecord {
        id: row.id,
        device_id: row.device_id,
        flow_id: row.flow_id,
        process_id: row.process_id,
        protocol: row.protocol,
        bytes: row.bytes,
        direction: row.direction,
        route_kind: row.route_kind,
        last_seen_at: row.last_seen_at,
    }
}

/// A snapshot from its stored row and its parsed telemetry; flags are stored as
/// integers, non-zero meaning set.
pub fn row_to_snapshot(row: KernelSnapshotRow, telemetry: Option<JsonValue>) -> (r: Result<
    KernelSnapshot,
    crate::models::DbError,
>)
    ensures
        r matches Ok(s) && s.id == row.id && s.device_id == row.device_id && s.guardian_mode
            == row.guardian_mode && s.driver_connected == (row.driver_connected != 0)
            && s.lifecycle_state == row.lifecycle_state && s.kill_switch_mode == row.kill_switch_mode
            && s.stub_mode == (row.stub_mode != 0) && s.wfp_engine == row.wfp_engine && s.ndis_enabled
            == (row.ndis_enabled != 0) && s.healthy == (row.healthy != 0) && s.filter_count
            == row.filter_count && s.callouts_registered == row.callouts_registered
            && s.transform_profile == row.transform_profile && s.cover_traffic_profile
            == row.cover_traffic_profile && s.telemetry == telemetry && s.active_route_count
            == row.active_route_count && s.reported_at == row.reported_at && s.created_at
            == row.created_at,
{
    Ok(
        KernelSnapshot {
            id: row.id,
            device_id: row.device_id,
            guardian_mode: row.guardian_mode,
            driver_connected: row.driver_connected != 0,
            lifecycle_state: row.lifecycle_state,
            kill_switch_mode: row.kill_switch_mode,
            stub_mode: row.stub_mode != 0,
            wfp_engine: row.wfp_engine,
            ndis_enabled: row.ndis_enabled != 0,
            healthy: row.healthy != 0,
            filter_count: row.filter_count,
            callouts_registered: row.callouts_registered,
            transform_profile: row.transform_profile,
            cover_traffic_profile: row.cover_traffic_profile,
            telemetry,
            active_route_count: row.active_route_count,
            reported_at: row.reported_at,
            created_at: row.created_at,
        },
    )
}

/// Whether a snapshot runs the kernel guardian or the kernel filtering engine.
pub open spec fn runs_kernel(s: KernelSnapshot) -> bool {
    s.guardian_mode@ == "kernel"@ || s.wfp_engine@ == "kernel"@
}

/// How many snapshots satisfy each status flag, and the sum of their active routes.
pub open spec fn count_healthy(s: Seq<KernelSnapshot>) -> nat
    decreases s.len(),
{
    if s.len() == 0 {
        0
    } else {
        count_healthy(s.drop_last()) + if s.last().healthy {
            1nat
        } else {
            0nat
        }
    }
}

pub open spec fn count_kernel(s: Seq<KernelSnapshot>) -> nat
    decreases s.len(),
{
    if s.len() == 0 {
        0
    } else {
        count_kernel(s.drop_last()) + if runs_kernel(s.last()) {
            1nat
        } else {
            0nat
        }
    }
}

pub open spec fn count_ndis(s: Seq<KernelSnapshot>) -> nat
    decreases s.len(),
{
    if s.len() == 0 {
        0
    } else {
        count_ndis(s.drop_last()) + if s.last().ndis_enabled {
            1nat
        } else {
            0nat
        }
    }
}

pub open spec fn count_stub(s: Seq<KernelSnapshot>) -> nat
    decreases s.len(),
{
    if s.len() == 0 {
        0
    } else {
        count_stub(s.drop_last()) + if s.last().stub_mode {
            1nat
        } else {
            0nat
        }
    }
}

pub open spec fn route_total(s: Seq<KernelSnapshot>) -> int
    decreases s.len(),
{
    if s.len() == 0 {
        0
    } else {
        route_total(s.drop_last()) + s.last().active_route_count
    }
}

/// Every running total of the active routes fits in `i64`, as summing them
/// step by step requires.
pub open spec fn route_totals_fit(s: Seq<KernelSnapshot>) -> bool {
    forall|k: int| 0 <= k <= s.len() ==> i64::MIN <= #[trigger] route_total(s.take(k)) <= i64::MAX
}

/// Fleet status from the latest snapshots: how many report, are healthy, run
/// the kernel guardian or engine, use NDIS, are stubs, and their active routes.
pub fn status_summary(snapshots: Vec<KernelSnapshot>) -> (r: KernelStatusSummary)
    requires
        snapshots@.len() <= i64::MAX,
        route_totals_fit(snapshots@),
    ensures
        r.reporting_devices == snapshots@.len(),
        r.healthy_devices == count_healthy(snapshots@),
        r.kernel_devices == count_kernel(snapshots@),
        r.ndis_devices == count_ndis(snapshots@),
        r.stub_devices == count_stub(snapshots@),
        r.total_active_routes == route_total(snapshots@),
        r.snapshots@ == snapshots@,
{
    let ghost s = snapshots@;
    let mut healthy: i64 = 0;
    let mut kernel: i64 = 0;
    let mut ndis: i64 = 0;
    let mut stub: i64 = 0;
    let mut routes: i64 = 0;
    let mut i: usize = 0;
    while i < snapshots.len()
        invariant
            s == snapshots@,
            i <= s.len(),
            s.len() <= i64::MAX,
            route_totals_fit(s),
            healthy == count_healthy(s.take(i as int)),
            kernel == count_kernel(s.take(i as int)),
            ndis == count_ndis(s.take(i as int)),
            stub == count_stub(s.take(i as int)),
            routes == route_total(s.take(i as int)),
            healthy <= i,
            kernel <= i,
            ndis <= i,
            stub <= i,
        decreases s.len() - i,
    {
        let snap = &snapshots[i];
        proof {
            assert(s.take(i + 1).drop_last() =~= s.take(i as int));
            assert(s.take(i + 1).last() == s[i as int]);
            assert(i64::MIN <= route_total(s.take(i + 1)) <= i64::MAX);
        }
        if snap.healthy {
            healthy = healthy + 1;
        }
        let on_kernel = crate::text::text_eq(snap.guardian_mode.as_str(), "kernel")
            || crate::text::text_eq(snap.wfp_engine.as_str(), "kernel");
        if on_kernel {
            kernel = kernel + 1;
        }
        if snap.ndis_enabled {
            ndis = ndis + 1;
        }
        if snap.stub_mode {
            stub = stub + 1;
        }
        routes = routes + snap.active_route_count;
        i = i + 1;
    }
    assert(s.take(i as int) =~= s);
    KernelStatusSummary {
        reporting_devices: snapshots.len() as i64,
        healthy_devices: healthy,
        kernel_devices: kernel,
        ndis_devices: ndis,
        stub_devices: stub,
        total_active_routes: routes,
        snapshots,
    }
}

/// The integer a snapshot's telemetry holds under `key`, or 0 where it holds
/// none (no telemetry, not an object, no such member, not an `i64`).
pub open spec fn telemetry_num(s: KernelSnapshot, key: Seq<char>) -> i64 {
    match s.telemetry {
        Some(v) => match crate::json::member(v, key) {
            Some(JsonValue::Number(n)) => match crate::json::number_as_i64(n) {
                Some(x) => x,
                None => 0,
            },
            _ => 0,
        },
        None => 0,
    }
}

/// The sum over snapshots of the telemetry counter `key`.
pub open spec fn telemetry_total(s: Seq<KernelSnapshot>, key: Seq<char>) -> int
    decreases s.len(),
{
    if s.len() == 0 {
        0
    } else {
        telemetry_total(s.drop_last(), key) + telemetry_num(s.last(), key)
    }
}

/// The largest value of the telemetry counter `key`, and at least 0.
pub open spec fn telemetry_peak(s: Seq<KernelSnapshot>, key: Seq<char>) -> i64
    decreases s.len(),
{
    if s.len() == 0 {
        0
    } else {
        let before = telemetry_peak(s.drop_last(), key);
        let here = telemetry_num(s.last(), key);
        if here > before {
            here
        } else {
            before
        }
    }
}

/// Every running total of the counter `key` fits in `i64`.
pub open spec fn telemetry_totals_fit(s: Seq<KernelSnapshot>, key: Seq<char>) -> bool {
    forall|k: int|
        0 <= k <= s.len() ==> i64::MIN <= #[trigger] telemetry_total(s.take(k), key) <= i64::MAX
}

fn telemetry_i64(snap: &KernelSnapshot, key: &str) -> (r: i64)
    ensures
        r == telemetry_num(*snap, key@),
{
    match &snap.telemetry {
        Some(v) => match v.get(key) {
            Some(x) => match x.as_i64() {
                Some(n) => n,
                None => 0,
            },
            None => 0,
        },
        None => 0,
    }
}

fn add_counter(acc: i64, snapshots: &Vec<KernelSnapshot>, i: usize, key: &str) -> (r: i64)
    requires
        i < snapshots@.len(),
        acc == telemetry_total(snapshots@.take(i as int), key@),
        telemetry_totals_fit(snapshots@, key@),
    ensures
        r == telemetry_total(snapshots@.take(i + 1), key@),
{
    proof {
        assert(snapshots@.take(i + 1).drop_last() =~= snapshots@.take(i as int));
        assert(snapshots@.take(i + 1).last() == snapshots@[i as int]);
        assert(i64::MIN <= telemetry_total(snapshots@.take(i + 1), key@) <= i64::MAX);
    }
    acc + telemetry_i64(&snapshots[i], key)
}

/// Telemetry across the latest snapshots: each counter summed over the
/// snapshots whose telemetry is an object, and the largest maximum latency.
pub fn telemetry_summary(snapshots: Vec<KernelSnapshot>) -> (r: KernelTelemetrySummary)
    requires
        telemetry_totals_fit(snapshots@, "classify_count"@),
        telemetry_totals_fit(snapshots@, "block_count"@),
        telemetry_totals_fit(snapshots@, "route_count"@),
        telemetry_totals_fit(snapshots@, "permit_count"@),
        telemetry_totals_fit(snapshots@, "observe_count"@),
        telemetry_totals_fit(snapshots@, "error_count"@),
        telemetry_totals_fit(snapshots@, "avg_classify_latency_ns"@),
        telemetry_totals_fit(snapshots@, "packets_per_sec"@),
    ensures
        r.classify_count == telemetry_total(snapshots@, "classify_count"@),
        r.block_count == telemetry_total(snapshots@, "block_count"@),
        r.route_count == telemetry_total(snapshots@, "route_count"@),
        r.permit_count == telemetry_total(snapshots@, "permit_count"@),
        r.observe_count == telemetry_total(snapshots@, "observe_count"@),
        r.error_count == telemetry_total(snapshots@, "error_count"@),
        r.avg_classify_latency_ns == telemetry_total(snapshots@, "avg_classify_latency_ns"@),
        r.max_classify_latency_ns == telemetry_peak(snapshots@, "max_classify_latency_ns"@),
        r.packets_per_sec == telemetry_total(snapshots@, "packets_per_sec"@),
        r.snapshots@ == snapshots@,
{
    let ghost s = snapshots@;
    let mut classify: i64 = 0;
    let mut block: i64 = 0;
    let mut route: i64 = 0;
    let mut permit: i64 = 0;
    let mut observe: i64 = 0;
    let mut error: i64 = 0;
    let mut avg: i64 = 0;
    let mut peak: i64 = 0;
    let mut pps: i64 = 0;
    let mut i: usize = 0;
    while i < snapshots.len()
        invariant
            s == snapshots@,
            i <= s.len(),
            telemetry_totals_fit(s, "classify_count"@),
            telemetry_totals_fit(s, "block_count"@),
            telemetry_totals_fit(s, "route_count"@),
            telemetry_totals_fit(s, "permit_count"@),
            telemetry_totals_fit(s, "observe_count"@),
            telemetry_totals_fit(s, "error_count"@),
            telemetry_totals_fit(s, "avg_classify_latency_ns"@),
            telemetry_totals_fit(s, "packets_per_sec"@),
            classify == telemetry_total(s.take(i as int), "classify_count"@),
            block == telemetry_total(s.take(i as int), "block_count"@),
            route == telemetry_total(s.take(i as int), "route_count"@),
            permit == telemetry_total(s.take(i as int), "permit_count"@),
            observe == telemetry_total(s.take(i as int), "observe_count"@),
            error == telemetry_total(s.take(i as int), "error_count"@),
            avg == telemetry_total(s.take(i as int), "avg_classify_latency_ns"@),
            peak == telemetry_peak(s.take(i as int), "max_classify_latency_ns"@),
            pps == telemetry_total(s.take(i as int), "packets_per_sec"@),
        decreases s.len() - i,
    {
        classify = add_counter(classify, &snapshots, i, "classify_count");
        block = add_counter(block, &snapshots, i, "block_count");
        route = add_counter(route, &snapshots, i, "route_count");
        permit = add_counter(permit, &snapshots, i, "permit_count");
        observe = add_counter(observe, &snapshots, i, "observe_count");
        error = add_counter(error, &snapshots, i, "error_count");
        avg = add_counter(avg, &snapshots, i, "avg_classify_latency_ns");
        pps = add_counter(pps, &snapshots, i, "packets_per_sec");
        let here = telemetry_i64(&snapshots[i], "max_classify_latency_ns");
        proof {
            assert(s.take(i + 1).drop_last() =~= s.take(i as int));
            assert(s.take(i + 1).last() == s[i as int]);
        }
        if here > peak {
            peak = here;
        }
        i = i + 1;
    }
    assert(s.take(i as int) =~= s);
    KernelTelemetrySummary {
        classify_count: classify,
        block_count: block,
        route_count: route,
        permit_count: permit,
        observe_count: observe,
        error_count: error,
        avg_classify_latency_ns: avg,
        max_classify_latency_ns: peak,
        packets_per_sec: pps,
        snapshots,
    }
}

/// The value a reported counter is read back as: the counter itself where it
/// fits in `i64`, else 0.
pub open spec fn counter_reading(c: Option<u64>) -> i64 {
    match c {
        Some(u) => if u <= i64::MAX {
            u as i64
        } else {
            0
        },
        None => 0,
    }
}

/// A guardian counts as healthy only with its driver connected, outside stub
/// mode, and running or recovering; with all three it is healthy. A heartbeat
/// that names no lifecycle (read as `stopped`) is never healthy.
pub proof fn lemma_health_needs_live_driver(driver_connected: bool, stub_mode: bool, lifecycle: Seq<char>)
    ensures
        kernel_healthy(driver_connected, stub_mode, lifecycle) ==> driver_connected,
        kernel_healthy(driver_connected, stub_mode, lifecycle) ==> !stub_mode,
        kernel_healthy(driver_connected, stub_mode, lifecycle) ==> (lifecycle == "running"@ || lifecycle
            == "recovering"@),
        driver_connected && !stub_mode && lifecycle == "running"@ ==> kernel_healthy(
            driver_connected,
            stub_mode,
            lifecycle,
        ),
        driver_connected && !stub_mode && lifecycle == "recovering"@ ==> kernel_healthy(
            driver_connected,
            stub_mode,
            lifecycle,
        ),
        !kernel_healthy(driver_connected, stub_mode, crate::text::text_or(None, "stopped"@)),
{
    reveal_strlit("stopped");
    reveal_strlit("running");
    reveal_strlit("recovering");
    assert("stopped"@ != "running"@ && "stopped"@ != "recovering"@) by {
        assert("stopped"@[1] != "running"@[1]);
        assert("stopped"@.len() != "recovering"@.len());
    }
}

/// What a heartbeat reports is what the telemetry figures read: for a
/// snapshot recorded from a heartbeat with telemetry `t`, each summed counter
/// reads back as `t` reported it (0 where it was absent or too large).
pub proof fn lemma_reported_telemetry_reads_back(s: KernelSnapshot, t: KernelHeartbeatTelemetry)
    requires
        s.telemetry is Some,
        crate::json::object_map(s.telemetry->Some_0) == Some(telemetry_members(t)),
    ensures
        telemetry_num(s, "classify_count"@) == counter_reading(t.classify_count),
        telemetry_num(s, "block_count"@) == counter_reading(t.block_count),
        telemetry_num(s, "route_count"@) == counter_reading(t.route_count),
        telemetry_num(s, "permit_count"@) == counter_reading(t.permit_count),
        telemetry_num(s, "observe_count"@) == counter_reading(t.observe_count),
        telemetry_num(s, "error_count"@) == counter_reading(t.error_count),
        telemetry_num(s, "avg_classify_latency_ns"@) == counter_reading(t.avg_classify_latency_ns),
        telemetry_num(s, "max_classify_latency_ns"@) == counter_reading(t.max_classify_latency_ns),
        telemetry_num(s, "packets_per_sec"@) == counter_reading(t.packets_per_sec),
{
    reveal_strlit("classify_count");
    reveal_strlit("block_count");
    reveal_strlit("route_count");
    reveal_strlit("permit_count");
    reveal_strlit("observe_count");
    reveal_strlit("error_count");
    reveal_strlit("avg_classify_latency_ns");
    reveal_strlit("max_classify_latency_ns");
    reveal_strlit("packets_per_sec");
    reveal_strlit("ndis_classify_count");
    reveal_strlit("ndis_redirect_count");
    reveal_strlit("ndis_transform_count");
    assert("block_count"@[0] != "route_count"@[0]);
    assert("block_count"@[0] != "error_count"@[0]);
    assert("route_count"@[0] != "error_count"@[0]);
    assert("avg_classify_latency_ns"@[0] != "max_classify_latency_ns"@[0]);
    assert("ndis_classify_count"@[5] != "ndis_redirect_count"@[5]);
    let keys = seq![
        "classify_count"@,
        "block_count"@,
        "route_count"@,
        "permit_count"@,
        "observe_count"@,
        "error_count"@,
        "avg_classify_latency_ns"@,
        "max_classify_latency_ns"@,
        "packets_per_sec"@,
        "ndis_classify_count"@,
        "ndis_redirect_count"@,
        "ndis_transform_count"@,
    ];
    assert forall|i: int, j: int| 0 <= i < j < 12 implies #[trigger] keys[i] != #[trigger] keys[j] by {
        if keys[i].len() == keys[j].len() {
            assert(keys[i][0] != keys[j][0] || keys[i][5] != keys[j][5]);
        }
    }
    let m = telemetry_members(t);
    assert(m["classify_count"@] == counter_json(t.classify_count)) by {
        assert(keys[0] != keys[1] && keys[0] != keys[2] && keys[0] != keys[3] && keys[0] != keys[4]
            && keys[0] != keys[5] && keys[0] != keys[6] && keys[0] != keys[7] && keys[0] != keys[8]
            && keys[0] != keys[9] && keys[0] != keys[10] && keys[0] != keys[11]);
    }
    assert(m["block_count"@] == counter_json(t.block_count)) by {
        assert(keys[1] != keys[2] && keys[1] != keys[3] && keys[1] != keys[4] && keys[1] != keys[5]
            && keys[1] != keys[6] && keys[1] != keys[7] && keys[1] != keys[8] && keys[1] != keys[9]
            && keys[1] != keys[10] && keys[1] != keys[11]);
    }
    assert(m["route_count"@] == counter_json(t.route_count)) by {
        assert(keys[2] != keys[3] && keys[2] != keys[4] && keys[2] != keys[5] && keys[2] != keys[6]
            && keys[2] != keys[7] && keys[2] != keys[8] && keys[2] != keys[9] && keys[2] != keys[10]
            && keys[2] != keys[11]);
    }
    assert(m["permit_count"@] == counter_json(t.permit_count)) by {
        assert(keys[3] != keys[4] && keys[3] != keys[5] && keys[3] != keys[6] && keys[3] != keys[7]
            && keys[3] != keys[8] && keys[3] != keys[9] && keys[3] != keys[10] && keys[3] != keys[11]);
    }
    assert(m["observe_count"@] == counter_json(t.observe_count)) by {
        assert(keys[4] != keys[5] && keys[4] != keys[6] && keys[4] != keys[7] && keys[4] != keys[8]
            && keys[4] != keys[9] && keys[4] != keys[10] && keys[4] != keys[11]);
    }
    assert(m["error_count"@] == counter_json(t.error_count)) by {
        assert(keys[5] != keys[6] && keys[5] != keys[7] && keys[5] != keys[8] && keys[5] != keys[9]
            && keys[5] != keys[10] && keys[5] != keys[11]);
    }
    assert(m["avg_classify_latency_ns"@] == counter_json(t.avg_classify_latency_ns)) by {
        assert(keys[6] != keys[7] && keys[6] != keys[8] && keys[6] != keys[9] && keys[6] != keys[10]
            && keys[6] != keys[11]);
    }
    assert(m["max_classify_latency_ns"@] == counter_json(t.max_classify_latency_ns)) by {
        assert(keys[7] != keys[8] && keys[7] != keys[9] && keys[7] != keys[10] && keys[7] != keys[11]);
    }
    assert(m["packets_per_sec"@] == counter_json(t.packets_per_sec)) by {
        assert(keys[8] != keys[9] && keys[8] != keys[10] && keys[8] != keys[11]);
    }
}

} // verus!
