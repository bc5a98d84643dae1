use vstd::prelude::*;

use crate::json::{clone_json, JsonValue};
use crate::models::{ConnectorRow, DbError, DeviceTrustRow, PublishedResourceRow, ZtnaPolicyRow};
use crate::text::{copy_opt_text, text_eq};

verus! {

pub struct ZtnaPolicyRecord {
    pub id: String,
    pub name: String,
    pub enabled: bool,
    pub min_trust_level: String,
    pub min_trust_score: u8,
    pub conditions: Vec<JsonValue>,
    pub default_action: String,
    pub created_at: String,
    pub updated_at: String,
}

pub struct PublishedResourceRecord {
    pub id: String,
    pub name: String,
    pub resource_type: String,
    pub host: String,
    pub port: u16,
    pub path_prefix: Option<String>,
    pub tags: Vec<String>,
    pub published: bool,
    pub access_policy_id: Option<String>,
    pub published_at: Option<String>,
    pub created_at: String,
    pub updated_at: String,
}

pub struct DeviceTrustRecord {
    pub id: String,
    pub device_id: String,
    pub trust_level: String,
    pub trust_score: u8,
    pub posture: JsonValue,
    pub certificate_fingerprint: Option<String>,
    pub last_evaluated_at: String,
    pub created_at: String,
    pub updated_at: String,
}

pub struct ConnectorRecord {
    pub id: String,
    pub device_id: String,
    pub connector_id: String,
    pub name: String,
    pub endpoint: String,
    pub resource_ids: Vec<String>,
    pub healthy: bool,
    pub latency_ms: Option<u64>,
    pub last_seen_at: String,
    pub registered_at: String,
}

pub struct ConnectorRegistration {
    pub connector_id: String,
    pub name: String,
    pub endpoint: String,
    pub resource_ids: Vec<String>,
    pub healthy: Option<bool>,
    pub latency_ms: Option<u64>,
}

/// A stored score held to 0..=100.
pub open spec fn clamped_score(v: i64) -> u8 {
    if v < 0 {
        0
    } else if v > 100 {
        100
    } else {
        v as u8
    }
}

fn clamp_score(v: i64) -> (r: u8)
    ensures
        r == clamped_score(v),
{
    if v < 0 {
        0
    } else if v > 100 {
        100
    } else {
        v as u8
    }
}

/// A policy from its stored row and its parsed conditions.
pub fn row_to_policy(row: ZtnaPolicyRow, conditions: Vec<JsonValue>) -> (r: Result<ZtnaPolicyRecord, DbError>)
    ensures
        r matches Ok(p) && p.id == row.id && p.name == row.name && p.enabled == (row.enabled != 0)
            && p.min_trust_level == row.min_trust_level && p.min_trust_score == clamped_score(
            row.min_trust_score,
        ) && p.conditions == conditions && p.default_action == row.default_action && p.created_at
            == row.created_at && p.updated_at == row.updated_at,
{
    Ok(
        ZtnaPolicyRecord {
            id: row.id,
            name: row.name,
            enabled: row.enabled != 0,
            min_trust_level: row.min_trust_level,
            min_trust_score: clamp_score(row.min_trust_score),
            conditions,
            default_action: row.default_action,
            created_at: row.created_at,
            updated_at: row.updated_at,
        },
    )
}

/// A stored port: negative ports read as 0, others keep their low 16 bits.
pub open spec fn stored_port(v: i64) -> u16 {
    if v < 0 {
        0
    } else {
        v as u16
    }
}

/// A published resource from its stored row, its tags parsed from their text.
pub fn row_to_resource(row: PublishedResourceRow) -> (r: Result<PublishedResourceRecord, DbError>)
    ensures
        r matches Ok(p) && p.id == row.id && p.name == row.name && p.resource_type
            == row.resource_type && p.host == row.host && p.port == stored_port(row.port)
            && p.path_prefix == row.path_prefix && p.tags@ == crate::json::stored_strings(
            row.tags_json@,
        ) && p.published == (row.published != 0) && p.access_policy_id == row.access_policy_id
            && p.published_at == row.published_at && p.created_at == row.created_at && p.updated_at
            == row.updated_at,
{
    let port: u16 = if row.port < 0 {
        0
    } else {
        row.port as u16
    };
    Ok(
        PublishedResourceRecord {
            id: row.id,
            name: row.name,
            resource_type: row.resource_type,
            host: row.host,
            port,
            path_prefix: row.path_prefix,
            tags: crate::json::read_string_list(row.tags_json.as_str()),
            published: row.published != 0,
            access_policy_id: row.access_policy_id,
            published_at: row.published_at,
            created_at: row.created_at,
            updated_at: row.updated_at,
        },
    )
}

/// A trust record from its stored row and its parsed posture; a posture that
/// did not parse reads as an empty object.
pub fn row_to_trust(row: DeviceTrustRow, posture: Option<JsonValue>) -> (r: Result<DeviceTrustRecord, DbError>)
    ensures
        r matches Ok(t) && t.id == row.id && t.device_id == row.device_id && t.trust_level
            == row.trust_level && t.trust_score == clamped_score(row.trust_score) && match posture {
            Some(p) => t.posture == p,
            None => crate::json::object_map(t.posture) == Some(Map::<Seq<char>, JsonValue>::empty()),
        } && t.certificate_fingerprint == row.certificate_fingerprint && t.last_evaluated_at
            == row.last_evaluated_at && t.created_at == row.created_at && t.updated_at
            == row.updated_at,
{
    let posture = match posture {
        Some(p) => p,
        None => JsonValue::empty_object(),
    };
    Ok(
        DeviceTrustRecord {
            id: row.id,
            device_id: row.device_id,
            trust_level: row.trust_level,
            trust_score: clamp_score(row.trust_score),
            posture,
            certificate_fingerprint: row.certificate_fingerprint,
            last_evaluated_at: row.last_evaluated_at,
            created_at: row.created_at,
            updated_at: row.updated_at,
        },
    )
}

/// A connector from its stored row: resource ids parsed from their text, a
/// negative latency read as 0.
pub fn row_to_connector(row: ConnectorRow) -> (r: Result<ConnectorRecord, DbError>)
    ensures
        r matches Ok(c) && c.id == row.id && c.device_id == row.device_id && c.connector_id
            == row.connector_id && c.name == row.name && c.endpoint == row.endpoint
            && c.resource_ids@ == crate::json::stored_strings(row.resource_ids_json@) && c.healthy == (
        row.healthy != 0) && c.latency_ms == match row.latency_ms {
            Some(v) => Some(
                if v < 0 {
                    0u64
                } else {
                    v as u64
                },
            ),
            None => None::<u64>,
        } && c.last_seen_at == row.last_seen_at && c.registered_at == row.registered_at,
{
    let latency_ms = match row.latency_ms {
        Some(v) => Some(
            if v < 0 {
                0u64
            } else {
                v as u64
            },
        ),
        None => None,
    };
    Ok(
        ConnectorRecord {
            id: row.id,
            device_id: row.device_id,
            connector_id: row.connector_id,
            name: row.name,
            endpoint: row.endpoint,
            resource_ids: crate::json::read_string_list(row.resource_ids_json.as_str()),
            healthy: row.healthy != 0,
            latency_ms,
            last_seen_at: row.last_seen_at,
            registered_at: row.registered_at,
        },
    )
}

fn copy_texts(v: &Vec<String>) -> (r: Vec<String>)
    ensures
        r@ == v@,
{
    let mut out: Vec<String> = Vec::new();
    let mut i: usize = 0;
    while i < v.len()
        invariant
            i <= v@.len(),
            out@ == v@.take(i as int),
        decreases v@.len() - i,
    {
        out.push(v[i].clone());
        proof {
            assert(out@ =~= v@.take(i + 1));
        }
        i = i + 1;
    }
    assert(v@.take(i as int) =~= v@);
    out
}

/// A connector as registered now: healthy unless the registration says not.
pub fn connector_from_registration(row_id: String, device_id: &str, reg: &ConnectorRegistration, now: String) -> (r:
    ConnectorRecord)
    ensures
        r.id == row_id,
        r.device_id@ == device_id@,
        r.connector_id == reg.connector_id,
        r.name == reg.name,
        r.endpoint == reg.endpoint,
        r.resource_ids@ == reg.resource_ids@,
        r.healthy == match reg.healthy {
            Some(h) => h,
            None => true,
        },
        r.latency_ms == reg.latency_ms,
        r.last_seen_at == now,
        r.registered_at == now,
{
    let healthy = match reg.healthy {
        Some(h) => h,
        None => true,
    };
    ConnectorRecord {
        id: row_id,
        device_id: String::from_str(device_id),
        connector_id: reg.connector_id.clone(),
        name: reg.name.clone(),
        endpoint: reg.endpoint.clone(),
        resource_ids: copy_texts(&reg.resource_ids),
        healthy,
        latency_ms: reg.latency_ms,
        last_seen_at: now.clone(),
        registered_at: now,
    }
}

/// The stored row of a registered connector, its resource ids kept as JSON text.
pub fn connector_row(c: &ConnectorRecord) -> (r: ConnectorRow)
    requires
        c.latency_ms matches Some(l) ==> l <= i64::MAX,
    ensures
        r.id == c.id,
        r.device_id == c.device_id,
        r.connector_id == c.connector_id,
        r.name == c.name,
        r.endpoint == c.endpoint,
        r.resource_ids_json@ == crate::json::string_list_json(c.resource_ids@),
        r.healthy == (if c.healthy {
            1i64
        } else {
            0i64
        }),
        r.latency_ms == match c.latency_ms {
            Some(l) => Some(l as i64),
            None => None::<i64>,
        },
        r.last_seen_at == c.last_seen_at,
        r.registered_at == c.registered_at,
        r.created_at == c.registered_at,
        r.updated_at == c.registered_at,
{
    ConnectorRow {
        id: c.id.clone(),
        device_id: c.device_id.clone(),
        connector_id: c.connector_id.clone(),
        name: c.name.clone(),
        endpoint: c.endpoint.clone(),
        resource_ids_json: crate::json::string_list_text(&c.resource_ids),
        healthy: if c.healthy {
            1
        } else {
            0
        },
        latency_ms: match c.latency_ms {
            Some(l) => Some(l as i64),
            None => None,
        },
        last_seen_at: c.last_seen_at.clone(),
        registered_at: c.registered_at.clone(),
        created_at: c.registered_at.clone(),
        updated_at: c.registered_at.clone(),
    }
}

/// The trust evaluation a heartbeat carries: only where it states both a level
/// and a score.
pub fn trust_update(trust_level: Option<String>, trust_score: Option<u8>) -> (r: Option<(String, u8)>)
    ensures
        r == match (trust_level, trust_score) {
            (Some(l), Some(s)) => Some((l, s)),
            _ => None,
        },
{
    match (trust_level, trust_score) {
        (Some(l), Some(s)) => Some((l, s)),
        _ => None,
    }
}

fn copy_values(v: &Vec<JsonValue>) -> (r: Vec<JsonValue>)
    ensures
        r@ == v@,
{
    let mut out: Vec<JsonValue> = Vec::new();
    let mut i: usize = 0;
    while i < v.len()
        invariant
            i <= v@.len(),
            out@ == v@.take(i as int),
        decreases v@.len() - i,
    {
        out.push(clone_json(&v[i]));
        proof {
            assert(out@ =~= v@.take(i + 1));
        }
        i = i + 1;
    }
    assert(v@.take(i as int) =~= v@);
    out
}

/// The abstract content of a policy: every field, conditions by their sequence.
pub open spec fn policy_view(p: ZtnaPolicyRecord) -> (
    Seq<char>,
    Seq<char>,
    bool,
    Seq<char>,
    u8,
    Seq<JsonValue>,
    Seq<char>,
    Seq<char>,
    Seq<char>,
) {
    (
        p.id@,
        p.name@,
        p.enabled,
        p.min_trust_level@,
        p.min_trust_score,
        p.conditions@,
        p.default_action@,
        p.created_at@,
        p.updated_at@,
    )
}

fn copy_policy(p: &ZtnaPolicyRecord) -> (r: ZtnaPolicyRecord)
    ensures
        policy_view(r) == policy_view(*p),
{
    ZtnaPolicyRecord {
        id: p.id.clone(),
        name: p.name.clone(),
        enabled: p.enabled,
        min_trust_level: p.min_trust_level.clone(),
        min_trust_score: p.min_trust_score,
        conditions: copy_values(&p.conditions),
        default_action: p.default_action.clone(),
        created_at: p.created_at.clone(),
        updated_at: p.updated_at.clone(),
    }
}

/// Policies held in memory by id; no id occurs twice.
pub struct PolicyCache {
    policies: Vec<ZtnaPolicyRecord>,
}

impl PolicyCache {
    /// The cached policies, keyed by id.
    pub closed spec fn entries(&self) -> Map<Seq<char>, ZtnaPolicyRecord> {
        Map::new(
            |k: Seq<char>| exists|i: int| 0 <= i < self.policies@.len() && self.policies@[i].id@ == k,
            |k: Seq<char>|
                self.policies@[choose|i: int| 0 <= i < self.policies@.len() && self.policies@[i].id@ == k],
        )
    }

    /// No id occurs twice.
    pub closed spec fn wf(&self) -> bool {
        forall|i: int, j: int|
            0 <= i < j < self.policies@.len() ==> (#[trigger] self.policies@[i]).id@
                != (#[trigger] self.policies@[j]).id@
    }

    /// An empty cache.
    pub fn new() -> (r: PolicyCache)
        ensures
            r.wf(),
            r.entries() == Map::<Seq<char>, ZtnaPolicyRecord>::empty(),
    {
        let r = PolicyCache { policies: Vec::new() };
        assert(r.entries() =~= Map::<Seq<char>, ZtnaPolicyRecord>::empty());
        r
    }

    fn position(&self, id: &str) -> (r: Option<usize>)
        requires
            self.wf(),
        ensures
            match r {
                Some(i) => i < self.policies@.len() && self.policies@[i as int].id@ == id@,
                None => forall|i: int| 0 <= i < self.policies@.len() ==> self.policies@[i].id@ != id@,
            },
    {
        let mut i: usize = 0;
        while i < self.policies.len()
            invariant
                i <= self.policies@.len(),
                forall|k: int| 0 <= k < i ==> self.policies@[k].id@ != id@,
            decreases self.policies@.len() - i,
        {
            if text_eq(self.policies[i].id.as_str(), id) {
                return Some(i);
            }
            i = i + 1;
        }
        None
    }

    /// Keeps a policy under its id, replacing any policy kept under that id.
    pub fn cache_policy(&mut self, policy: ZtnaPolicyRecord)
        requires
            old(self).wf(),
        ensures
            final(self).wf(),
            final(self).entries() == old(self).entries().insert(policy.id@, policy),
    {
        let ghost id = policy.id@;
        let ghost before = self.policies@;
        match self.position(policy.id.as_str()) {
            Some(i) => {
                self.policies.set(i, policy);
                proof {
                    let after = self.policies@;
                    assert forall|a: int, b: int| 0 <= a < b < after.len() implies (#[trigger] after[a]).id@
                        != (#[trigger] after[b]).id@ by {
                        if a != i && b != i {
                            assert(after[a] == before[a] && after[b] == before[b]);
                        } else if a == i {
                            assert(after[b] == before[b]);
                            assert(before[a].id@ == id);
                        } else {
                            assert(after[a] == before[a]);
                            assert(before[b].id@ == id);
                        }
                    }
                    assert(self.entries() =~= old(self).entries().insert(id, policy)) by {
                        assert forall|k: Seq<char>| #[trigger] self.entries().contains_key(k)
                            <==> old(self).entries().insert(id, policy).contains_key(k) by {
                            if k == id {
                                assert(after[i as int].id@ == k);
                            } else {
                                if exists|x: int| 0 <= x < after.len() && after[x].id@ == k {
                                    let x = choose|x: int| 0 <= x < after.len() && after[x].id@ == k;
                                    assert(before[x] == after[x]);
                                }
                                if exists|x: int| 0 <= x < before.len() && before[x].id@ == k {
                                    let x = choose|x: int| 0 <= x < before.len() && before[x].id@ == k;
                                    assert(before[x] == after[x]);
                                }
                            }
                        }
                        assert forall|k: Seq<char>| #[trigger] self.entries().contains_key(k) implies self.entries()[k]
                            == old(self).entries().insert(id, policy)[k] by {
                            let x = choose|x: int| 0 <= x < after.len() && after[x].id@ == k;
                            if k == id {
                                assert(x == i);
                            } else {
                                assert(before[x] == after[x]);
                                let y = choose|y: int| 0 <= y < before.len() && before[y].id@ == k;
                                assert(before[y].id@ == before[x].id@);
                                assert(x == y);
                            }
                        }
                    }
                }
            },
            None => {
                self.policies.push(policy);
                proof {
                    let after = self.policies@;
                    assert(after == before.push(policy));
                    assert forall|a: int, b: int| 0 <= a < b < after.len() implies (#[trigger] after[a]).id@
                        != (#[trigger] after[b]).id@ by {
                        if b == before.len() {
                            assert(after[a] == before[a]);
                        } else {
                            assert(after[a] == before[a] && after[b] == before[b]);
                        }
                    }
                    assert(self.entries() =~= old(self).entries().insert(id, policy)) by {
                        assert forall|k: Seq<char>| #[trigger] self.entries().contains_key(k)
                            <==> old(self).entries().insert(id, policy).contains_key(k) by {
                            if k == id {
                                assert(after[before.len() as int].id@ == k);
                            } else {
                                if exists|x: int| 0 <= x < after.len() && after[x].id@ == k {
                                    let x = choose|x: int| 0 <= x < after.len() && after[x].id@ == k;
                                    assert(x < before.len());
                                    assert(before[x] == after[x]);
                                }
                                if exists|x: int| 0 <= x < before.len() && before[x].id@ == k {
                                    let x = choose|x: int| 0 <= x < before.len() && before[x].id@ == k;
                                    assert(before[x] == after[x]);
                                }
                            }
                        }
                        assert forall|k: Seq<char>| #[trigger] self.entries().contains_key(k) implies self.entries()[k]
                            == old(self).entries().insert(id, policy)[k] by {
                            let x = choose|x: int| 0 <= x < after.len() && after[x].id@ == k;
                            if k == id {
                                assert(x == before.len());
                            } else {
                                assert(x < before.len());
                                assert(before[x] == after[x]);
                                let y = choose|y: int| 0 <= y < before.len() && before[y].id@ == k;
                                assert(after[y] == before[y]);
                                assert(x == y);
                            }
                        }
                    }
                }
            },
        }
    }

    /// A copy of the policy kept under `id`, if any.
    pub fn cached_policy(&self, id: &str) -> (r: Option<ZtnaPolicyRecord>)
        requires
            self.wf(),
        ensures
            match r {
                Some(p) => self.entries().contains_key(id@) && policy_view(p) == policy_view(
                    self.entries()[id@],
                ),
                None => !self.entries().contains_key(id@),
            },
    {
        match self.position(id) {
            Some(i) => {
                proof {
                    let x = choose|x: int|
                        0 <= x < self.policies@.len() && self.policies@[x].id@ == id@;
                    assert(x == i as int);
                }
                Some(copy_policy(&self.policies[i]))
            },
            None => None,
        }
    }
}

/// A policy kept in the cache is what a lookup by its id gives back.
pub proof fn lemma_cache_reads_back(
    before: PolicyCache,
    after: PolicyCache,
    policy: ZtnaPolicyRecord,
    other: Seq<char>,
)
    requires
        before.wf(),
        after.entries() == before.entries().insert(policy.id@, policy),
    ensures
        after.entries().contains_key(policy.id@),
        after.entries()[policy.id@] == policy,
        other != policy.id@ ==> (after.entries().contains_key(other) == before.entries().contains_key(
            other,
        ) && (before.entries().contains_key(other) ==> after.entries()[other]
            == before.entries()[other])),
{
}

/// The connector figures of one heartbeat: connectors, healthy connectors,
/// recent denials, and whether its gateway is active.
pub struct ZtnaCounts {
    pub connector_count: u32,
    pub healthy_connectors: u32,
    pub recent_denials: u32,
    pub gateway_active: bool,
}

/// The sum over heartbeats of the figure picked by `which` (0 connectors,
/// 1 healthy connectors, 2 denials, 3 active gateways).
pub open spec fn ztna_total(s: Seq<ZtnaCounts>, which: int) -> int
    decreases s.len(),
{
    if s.len() == 0 {
        0
    } else {
        let c = s.last();
        ztna_total(s.drop_last(), which) + if which == 0 {
            c.connector_count as int
        } else if which == 1 {
            c.healthy_connectors as int
        } else if which == 2 {
            c.recent_denials as int
        } else if c.gateway_active {
            1int
        } else {
            0int
        }
    }
}

proof fn lemma_ztna_total_bound(s: Seq<ZtnaCounts>, which: int)
    ensures
        0 <= ztna_total(s, which) <= s.len() * 0xffff_ffff,
    decreases s.len(),
{
    if s.len() > 0 {
        lemma_ztna_total_bound(s.drop_last(), which);
        assert((s.len() - 1) * 0xffff_ffff + 0xffff_ffff == s.len() * 0xffff_ffff) by (nonlinear_arith);
    }
}

/// Connector figures across the latest heartbeats: total connectors, healthy
/// connectors, denials, and how many devices have an active gateway.
pub fn connector_totals(counts: &Vec<ZtnaCounts>) -> (r: (i64, i64, i64, i64))
    requires
        counts@.len() <= 0x8000_0000,
    ensures
        r.0 == ztna_total(counts@, 0),
        r.1 == ztna_total(counts@, 1),
        r.2 == ztna_total(counts@, 2),
        r.3 == ztna_total(counts@, 3),
{
    let ghost s = counts@;
    let mut total: i64 = 0;
    let mut healthy: i64 = 0;
    let mut denials: i64 = 0;
    let mut gateways: i64 = 0;
    let mut i: usize = 0;
    while i < counts.len()
        invariant
            s == counts@,
            i <= s.len(),
            s.len() <= 0x8000_0000,
            total == ztna_total(s.take(i as int), 0),
            healthy == ztna_total(s.take(i as int), 1),
            denials == ztna_total(s.take(i as int), 2),
            gateways == ztna_total(s.take(i as int), 3),
        decreases s.len() - i,
    {
        proof {
            assert(s.take(i + 1).drop_last() =~= s.take(i as int));
            assert(s.take(i + 1).last() == s[i as int]);
            lemma_ztna_total_bound(s.take(i + 1), 0);
            lemma_ztna_total_bound(s.take(i + 1), 1);
            lemma_ztna_total_bound(s.take(i + 1), 2);
            lemma_ztna_total_bound(s.take(i + 1), 3);
            assert((i + 1) * 0xffff_ffff <= 0x8000_0000 * 0xffff_ffff) by (nonlinear_arith)
                requires
                    i + 1 <= 0x8000_0000,
            ;
        }
        let c = &counts[i];
        total = total + c.connector_count as i64;
        healthy = healthy + c.healthy_connectors as i64;
        denials = denials + c.recent_denials as i64;
        if c.gateway_active {
            gateways = gateways + 1;
        }
        i = i + 1;
    }
    assert(s.take(i as int) =~= s);
    (total, healthy, denials, gateways)
}

} // verus!
