use vstd::prelude::*;

use crate::json::{JsonFields, JsonNumber, JsonValue};
use crate::models::{DbError, MixnetHealthSnapshotRow, MixnetNodeRow, MixnetRouteRow};
use crate::text::{copy_opt_text, or_text};

verus! {

pub struct MixnetNodeRecord {
    pub id: String,
    pub device_id: String,
    pub node_id: String,
    pub gateway_id: String,
    pub country: Option<String>,
    pub latency_ms: Option<i64>,
    pub healthy: bool,
    pub last_seen_at: String,
    pub created_at: String,
    pub updated_at: String,
}

pub struct MixnetRouteRecord {
    pub id: String,
    pub device_id: String,
    pub route_id: String,
    pub label: String,
    pub hops: Vec<String>,
    pub socks_port: Option<i32>,
    pub cover_traffic_profile: Option<String>,
    pub active: bool,
    pub last_seen_at: String,
    pub created_at: String,
    pub updated_at: String,
}

pub struct MixnetHealthSnapshot {
    pub id: String,
    pub device_id: String,
    pub mixnet_connected: bool,
    pub stub_mode: bool,
    pub healthy: bool,
    pub selected_node: Option<JsonValue>,
    pub active_route_count: i64,
    pub cover_traffic_profile: Option<String>,
    pub reported_at: String,
    pub created_at: String,
}

pub struct MixnetInventorySummary {
    pub node_count: i64,
    pub route_count: i64,
    pub active_route_count: i64,
    pub devices_reporting: i64,
    pub nodes: Vec<MixnetNodeRecord>,
}

pub struct MixnetHealthSummary {
    pub connected_devices: i64,
    pub healthy_devices: i64,
    pub stub_devices: i64,
    pub total_active_routes: i64,
    pub snapshots: Vec<MixnetHealthSnapshot>,
}

pub struct MixnetHeartbeatNode {
    pub id: String,
    pub gateway_id: String,
    pub country: Option<String>,
    pub latency_ms: Option<u64>,
    pub healthy: bool,
}

pub struct MixnetHeartbeatRoute {
    pub route_id: String,
    pub label: String,
    pub hops: Vec<String>,
    pub socks_port: Option<u16>,
    pub cover_traffic_profile: Option<String>,
    pub active: bool,
}

pub struct MixnetHeartbeat {
    pub mixnet_connected: bool,
    pub stub_mode: bool,
    pub selected_node: Option<MixnetHeartbeatNode>,
    pub active_routes: Vec<MixnetHeartbeatRoute>,
    pub cover_traffic_profile: Option<String>,
    pub reported_at: Option<String>,
}

/// How many of the reported routes are active.
pub open spec fn count_active(s: Seq<MixnetHeartbeatRoute>) -> nat
    decreases s.len(),
{
    if s.len() == 0 {
        0
    } else {
        count_active(s.drop_last()) + if s.last().active {
            1nat
        } else {
            0nat
        }
    }
}

/// How many listed routes are active.
pub open spec fn count_active_records(s: Seq<MixnetRouteRecord>) -> nat
    decreases s.len(),
{
    if s.len() == 0 {
        0
    } else {
        count_active_records(s.drop_last()) + if s.last().active {
            1nat
        } else {
            0nat
        }
    }
}

/// The members of the JSON form of a selected node.
pub open spec fn node_members(n: MixnetHeartbeatNode) -> Map<Seq<char>, JsonValue> {
    Map::empty().insert("id"@, JsonValue::String(n.id)).insert(
        "gateway_id"@,
        JsonValue::String(n.gateway_id),
    ).insert(
        "country"@,
        match n.country {
            Some(c) => JsonValue::String(c),
            None => JsonValue::Null,
        },
    ).insert(
        "latency_ms"@,
        match n.latency_ms {
            Some(l) => JsonValue::Number(JsonNumber::PosInt(l)),
            None => JsonValue::Null,
        },
    ).insert("healthy"@, JsonValue::Bool(n.healthy))
}

fn push_member(f: JsonFields, key: &str, value: JsonValue) -> (r: JsonFields)
    ensures
        crate::json::fields_map(r) == crate::json::fields_map(f).insert(key@, value),
{
    JsonFields::Field(String::from_str(key), Box::new(value), Box::new(f))
}

/// The JSON object that stores the node a device selected.
pub fn node_value(n: &MixnetHeartbeatNode) -> (r: JsonValue)
    ensures
        crate::json::object_map(r) == Some(node_members(*n)),
{
    let mut f = JsonFields::Empty;
    f = push_member(f, "id", JsonValue::String(n.id.clone()));
    f = push_member(f, "gateway_id", JsonValue::String(n.gateway_id.clone()));
    let country = match &n.country {
        Some(c) => JsonValue::String(c.clone()),
        None => JsonValue::Null,
    };
    f = push_member(f, "country", country);
    let latency = match n.latency_ms {
        Some(l) => JsonValue::Number(JsonNumber::PosInt(l)),
        None => JsonValue::Null,
    };
    f = push_member(f, "latency_ms", latency);
    f = push_member(f, "healthy", JsonValue::Bool(n.healthy));
    JsonValue::Object(f)
}

fn active_total(routes: &Vec<MixnetHeartbeatRoute>) -> (r: i64)
    requires
        routes@.len() <= i64::MAX,
    ensures
        r == count_active(routes@),
{
    let mut n: i64 = 0;
    let mut i: usize = 0;
    while i < routes.len()
        invariant
            i <= routes@.len(),
            routes@.len() <= i64::MAX,
            n == count_active(routes@.take(i as int)),
            n <= i,
        decreases routes@.len() - i,
    {
        proof {
            assert(routes@.take(i + 1).drop_last() =~= routes@.take(i as int));
        }
        if routes[i].active {
            n = n + 1;
        }
        i = i + 1;
    }
    assert(routes@.take(i as int) =~= routes@);
    n
}

/// The health snapshot a mixnet heartbeat records: healthy exactly when a node
/// is selected and that node is healthy, the active routes counted, the node
/// kept in its JSON form, and reported now unless the agent says when.
pub fn snapshot_from_heartbeat(id: String, device_id: &str, hb: &MixnetHeartbeat, now: String) -> (r:
    MixnetHealthSnapshot)
    requires
        hb.active_routes@.len() <= i64::MAX,
    ensures
        r.id == id,
        r.device_id@ == device_id@,
        r.mixnet_connected == hb.mixnet_connected,
        r.stub_mode == hb.stub_mode,
        r.healthy == (hb.selected_node matches Some(n) && n.healthy),
        match hb.selected_node {
            Some(n) => r.selected_node matches Some(v) && crate::json::object_map(v) == Some(
                node_members(n),
            ),
            None => r.selected_node is None,
        },
        r.active_route_count == count_active(hb.active_routes@),
        r.cover_traffic_profile == hb.cover_traffic_profile,
        r.reported_at@ == crate::text::text_or(hb.reported_at, now@),
        r.created_at == now,
{
    let reported_at = or_text(copy_opt_text(&hb.reported_at), now.as_str());
    let (healthy, selected_node) = match &hb.selected_node {
        Some(n) => (n.healthy, Some(node_value(n))),
        None => (false, None),
    };
    MixnetHealthSnapshot {
        id,
        device_id: String::from_str(device_id),
        mixnet_connected: hb.mixnet_connected,
        stub_mode: hb.stub_mode,
        healthy,
        selected_node,
        active_route_count: active_total(&hb.active_routes),
        cover_traffic_profile: copy_opt_text(&hb.cover_traffic_profile),
        reported_at,
        created_at: now,
    }
}

/// The stored row for the node a device selected, seen at the heartbeat's time.
pub fn node_row(row_id: String, device_id: &str, node: &MixnetHeartbeatNode, reported_at: &str, now: &str) -> (r:
    MixnetNodeRow)
    ensures
        r.id == row_id,
        r.device_id@ == device_id@,
        r.node_id == node.id,
        r.gateway_id == node.gateway_id,
        r.country == node.country,
        r.latency_ms == match node.latency_ms {
            Some(l) => Some(l as i64),
            None => None::<i64>,
        },
        r.healthy == (if node.healthy {
            1i64
        } else {
            0i64
        }),
        r.last_seen_at@ == reported_at@,
        r.created_at@ == now@,
        r.updated_at@ == now@,
{
    MixnetNodeRow {
        id: row_id,
        device_id: String::from_str(device_id),
        node_id: node.id.clone(),
        gateway_id: node.gateway_id.clone(),
        country: copy_opt_text(&node.country),
        latency_ms: match node.latency_ms {
            Some(l) => Some(l as i64),
            None => None,
        },
        healthy: if node.healthy {
            1
        } else {
            0
        },
        last_seen_at: String::from_str(reported_at),
        created_at: String::from_str(now),
        updated_at: String::from_str(now),
    }
}

/// The stored row for a reported route, its hops kept as JSON text.
pub fn route_row(row_id: String, device_id: &str, route: &MixnetHeartbeatRoute, reported_at: &str, now: &str) -> (r:
    MixnetRouteRow)
    ensures
        r.id == row_id,
        r.device_id@ == device_id@,
        r.route_id == route.route_id,
        r.label == route.label,
        r.hops_json@ == crate::json::string_list_json(route.hops@),
        r.socks_port == match route.socks_port {
            Some(p) => Some(p as i32),
            None => None::<i32>,
        },
        r.cover_traffic_profile == route.cover_traffic_profile,
        r.active == (if route.active {
            1i64
        } else {
            0i64
        }),
        r.last_seen_at@ == reported_at@,
        r.created_at@ == now@,
        r.updated_at@ == now@,
{
    MixnetRouteRow {
        id: row_id,
        device_id: String::from_str(device_id),
        route_id: route.route_id.clone(),
        label: route.label.clone(),
        hops_json: crate::json::string_list_text(&route.hops),
        socks_port: match route.socks_port {
            Some(p) => Some(p as i32),
            None => None,
        },
        cover_traffic_profile: copy_opt_text(&route.cover_traffic_profile),
        active: if route.active {
            1
        } else {
            0
        },
        last_seen_at: String::from_str(reported_at),
        created_at: String::from_str(now),
        updated_at: String::from_str(now),
    }
}

/// A node as listed, its healthy flag read from the stored integer.
pub fn row_to_node(row: MixnetNodeRow) -> (r: Result<MixnetNodeRecord, DbError>)
    ensures
        r matches Ok(n) && n.id == row.id && n.device_id == row.device_id && n.node_id == row.node_id
            && n.gateway_id == row.gateway_id && n.country == row.country && n.latency_ms
            == row.latency_ms && n.healthy == (row.healthy != 0) && n.last_seen_at
            == row.last_seen_at && n.created_at == row.created_at && n.updated_at == row.updated_at,
{
    Ok(
        MixnetNodeRecord {
            id: row.id,
            device_id: row.device_id,
            node_id: row.node_id,
            gateway_id: row.gateway_id,
            country: row.country,
            latency_ms: row.latency_ms,
            healthy: row.healthy != 0,
            last_seen_at: row.last_seen_at,
            created_at: row.created_at,
            updated_at: row.updated_at,
        },
    )
}

/// A route as listed: its hops parsed from the stored text, none where that
/// text does not parse.
pub fn row_to_route(row: MixnetRouteRow) -> (r: Result<MixnetRouteRecord, DbError>)
    ensures
        r matches Ok(t) && t.id == row.id && t.device_id == row.device_id && t.route_id
            == row.route_id && t.label == row.label && t.hops@ == crate::json::stored_strings(row.hops_json@)
            && t.socks_port == row.socks_port && t.cover_traffic_profile == row.cover_traffic_profile
            && t.active == (row.active != 0) && t.last_seen_at == row.last_seen_at && t.created_at
            == row.created_at && t.updated_at == row.updated_at,
        forall|h: Seq<String>| row.hops_json@ == crate::json::string_list_json(h) ==> (r matches Ok(t) && t.hops@ == h),
{
    let hops = crate::json::read_string_list(row.hops_json.as_str());
    Ok(
        MixnetRouteRecord {
            id: row.id,
            device_id: row.device_id,
            route_id: row.route_id,
            label: row.label,
            hops,
            socks_port: row.socks_port,
            cover_traffic_profile: row.cover_traffic_profile,
            active: row.active != 0,
            last_seen_at: row.last_seen_at,
            created_at: row.created_at,
            updated_at: row.updated_at,
        },
    )
}

/// A health snapshot from its stored row and its parsed selected node.
pub fn row_to_snapshot(row: MixnetHealthSnapshotRow, selected_node: Option<JsonValue>) -> (r: Result<
    MixnetHealthSnapshot,
    DbError,
>)
    ensures
        r matches Ok(s) && s.id == row.id && s.device_id == row.device_id && s.mixnet_connected == (
        row.mixnet_connected != 0) && s.stub_mode == (row.stub_mode != 0) && s.healthy == (row.healthy
            != 0) && s.selected_node == selected_node && s.active_route_count == row.active_route_count
            && s.cover_traffic_profile == row.cover_traffic_profile && s.reported_at == row.reported_at
            && s.created_at == row.created_at,
{
    Ok(
        MixnetHealthSnapshot {
            id: row.id,
            device_id: row.device_id,
            mixnet_connected: row.mixnet_connected != 0,
            stub_mode: row.stub_mode != 0,
            healthy: row.healthy != 0,
            selected_node,
            active_route_count: row.active_route_count,
            cover_traffic_profile: row.cover_traffic_profile,
            reported_at: row.reported_at,
            created_at: row.created_at,
        },
    )
}

/// Inventory figures: how many nodes and routes, how many routes are active,
/// and how many devices have reported health.
pub fn inventory_summary(nodes: Vec<MixnetNodeRecord>, routes: Vec<MixnetRouteRecord>, devices_reporting: i64) -> (r:
    MixnetInventorySummary)
    requires
        nodes@.len() <= i64::MAX,
        routes@.len() <= i64::MAX,
    ensures
        r.node_count == nodes@.len(),
        r.route_count == routes@.len(),
        r.active_route_count == count_active_records(routes@),
        r.devices_reporting == devices_reporting,
        r.nodes@ == nodes@,
{
    let mut active: i64 = 0;
    let mut i: usize = 0;
    while i < routes.len()
        invariant
            i <= routes@.len(),
            routes@.len() <= i64::MAX,
            active == count_active_records(routes@.take(i as int)),
            active <= i,
        decreases routes@.len() - i,
    {
        proof {
            assert(routes@.take(i + 1).drop_last() =~= routes@.take(i as int));
        }
        if routes[i].active {
            active = active + 1;
        }
        i = i + 1;
    }
    assert(routes@.take(i as int) =~= routes@);
    MixnetInventorySummary {
        node_count: nodes.len() as i64,
        route_count: routes.len() as i64,
        active_route_count: active,
        devices_reporting,
        nodes,
    }
}

/// How many snapshots are connected, healthy and stubs, and their active routes.
pub open spec fn count_connected(s: Seq<MixnetHealthSnapshot>) -> nat
    decreases s.len(),
{
    if s.len() == 0 {
        0
    } else {
        count_connected(s.drop_last()) + if s.last().mixnet_connected {
            1nat
        } else {
            0nat
        }
    }
}

pub open spec fn count_healthy(s: Seq<MixnetHealthSnapshot>) -> nat
    decreases s.len(),
{
    if s.len() == 0 {
        0
    } else {
        count_healthy(s.drop_last()) + if s.last().healthy {
            1nat
        } else {
            0nat
        }
    }
}

pub open spec fn count_stub(s: Seq<MixnetHealthSnapshot>) -> nat
    decreases s.len(),
{
    if s.len() == 0 {
        0
    } else {
        count_stub(s.drop_last()) + if s.last().stub_mode {
            1nat
        } else {
            0nat
        }
    }
}

pub open spec fn route_total(s: Seq<MixnetHealthSnapshot>) -> int
    decreases s.len(),
{
    if s.len() == 0 {
        0
    } else {
        route_total(s.drop_last()) + s.last().active_route_count
    }
}

/// Every running total of the active routes fits in `i64`.
pub open spec fn route_totals_fit(s: Seq<MixnetHealthSnapshot>) -> bool {
    forall|k: int| 0 <= k <= s.len() ==> i64::MIN <= #[trigger] route_total(s.take(k)) <= i64::MAX
}

/// Health figures from the latest snapshots.
pub fn health_summary(snapshots: Vec<MixnetHealthSnapshot>) -> (r: MixnetHealthSummary)
    requires
        snapshots@.len() <= i64::MAX,
        route_totals_fit(snapshots@),
    ensures
        r.connected_devices == count_connected(snapshots@),
        r.healthy_devices == count_healthy(snapshots@),
        r.stub_devices == count_stub(snapshots@),
        r.total_active_routes == route_total(snapshots@),
        r.snapshots@ == snapshots@,
{
    let ghost s = snapshots@;
    let mut connected: i64 = 0;
    let mut healthy: i64 = 0;
    let mut stub: i64 = 0;
    let mut routes: i64 = 0;
    let mut i: usize = 0;
    while i < snapshots.len()
        invariant
            s == snapshots@,
            i <= s.len(),
            s.len() <= i64::MAX,
            route_totals_fit(s),
            connected == count_connected(s.take(i as int)),
            healthy == count_healthy(s.take(i as int)),
            stub == count_stub(s.take(i as int)),
            routes == route_total(s.take(i as int)),
            connected <= i,
            healthy <= i,
            stub <= i,
        decreases s.len() - i,
    {
        let snap = &snapshots[i];
        proof {
            assert(s.take(i + 1).drop_last() =~= s.take(i as int));
            assert(s.take(i + 1).last() == s[i as int]);
            assert(i64::MIN <= route_total(s.take(i + 1)) <= i64::MAX);
        }
        if snap.mixnet_connected {
            connected = connected + 1;
        }
        if snap.healthy {
            healthy = healthy + 1;
        }
        if snap.stub_mode {
            stub = stub + 1;
        }
        routes = routes + snap.active_route_count;
        i = i + 1;
    }
    assert(s.take(i as int) =~= s);
    MixnetHealthSummary {
        connected_devices: connected,
        healthy_devices: healthy,
        stub_devices: stub,
        total_active_routes: routes,
        snapshots,
    }
}

} // verus!
