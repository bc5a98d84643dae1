use vstd::prelude::*;

use crate::json::JsonValue;
use crate::tally::{count_of, tally_status, HasStatus};
use crate::text::{copy_opt_text, or_text, text_eq};

verus! {

pub struct SsePolicyRecord {
    pub id: String,
    pub name: String,
    pub policy_kind: String,
    pub enabled: bool,
    pub rules: Vec<JsonValue>,
    pub default_action: String,
    pub created_at: String,
    pub updated_at: String,
}

pub struct SseIncidentRecord {
    pub id: String,
    pub device_id: String,
    pub incident_kind: String,
    pub severity: String,
    pub title: String,
    pub description: Option<String>,
    pub resource: Option<String>,
    pub action_taken: String,
    pub status: String,
    pub detected_at: String,
}

pub struct SseThreatMatchRecord {
    pub id: String,
    pub device_id: String,
    pub threat_kind: String,
    pub category: String,
    pub url: Option<String>,
    pub signature: Option<String>,
    pub severity: String,
    pub action: String,
    pub matched_at: String,
}

pub struct SseRiskRecord {
    pub id: String,
    pub device_id: String,
    pub risk_score: u8,
    pub risk_level: String,
    pub factors: JsonValue,
    pub evaluated_at: String,
}

pub struct SseTelemetrySnapshot {
    pub id: String,
    pub device_id: String,
    pub swg_requests: u64,
    pub swg_blocked: u64,
    pub swg_allowed: u64,
    pub threat_count: u32,
    pub casb_incidents: u32,
    pub dlp_incidents: u32,
    pub risk_score: u8,
    pub ueba_alerts: u32,
    pub reported_at: String,
}

pub struct SwgSummary {
    pub policy_count: i64,
    pub total_requests: i64,
    pub blocked_count: i64,
    pub allowed_count: i64,
    pub threat_match_count: i64,
    pub reporting_devices: i64,
    pub recent_threats: Vec<SseThreatMatchRecord>,
    pub snapshots: Vec<SseTelemetrySnapshot>,
}

pub struct CasbSummary {
    pub incident_count: i64,
    pub open_incidents: i64,
    pub blocked_actions: i64,
    pub incidents: Vec<SseIncidentRecord>,
}

pub struct DlpSummary {
    pub incident_count: i64,
    pub open_incidents: i64,
    pub blocked_actions: i64,
    pub incidents: Vec<SseIncidentRecord>,
}

pub struct SseIncidentInput {
    pub severity: Option<String>,
    pub title: String,
    pub description: Option<String>,
    pub resource: Option<String>,
    pub action_taken: Option<String>,
    pub details: Option<JsonValue>,
    pub detected_at: Option<String>,
}

pub struct SseThreatMatchInput {
    pub threat_kind: Option<String>,
    pub category: Option<String>,
    pub url: Option<String>,
    pub signature: Option<String>,
    pub severity: Option<String>,
    pub action: Option<String>,
    pub matched_at: Option<String>,
}

impl HasStatus for SseIncidentRecord {
    open spec fn status_view(&self) -> Seq<char> {
        self.status@
    }

    fn status_text(&self) -> (r: &str) {
        self.status.as_str()
    }
}

/// A policy from its stored columns and its parsed rules.
pub fn policy_from_row(
    row: (String, String, String, i64, String, String, String),
    rules: Vec<JsonValue>,
) -> (r: SsePolicyRecord)
    ensures
        r.id == row.0,
        r.name == row.1,
        r.policy_kind == row.2,
        r.enabled == (row.3 != 0),
        r.rules == rules,
        r.default_action == row.4,
        r.created_at == row.5,
        r.updated_at == row.6,
{
    let (id, name, policy_kind, enabled, default_action, created_at, updated_at) = row;
    SsePolicyRecord {
        id,
        name,
        policy_kind,
        enabled: enabled != 0,
        rules,
        default_action,
        created_at,
        updated_at,
    }
}

/// An incident as recorded from a report: severity `medium` and action
/// `blocked` unless told, always `open`, detected now unless told.
pub fn incident_from_input(id: String, device_id: &str, kind: &str, input: &SseIncidentInput, now: &str) -> (r:
    SseIncidentRecord)
    ensures
        r.id == id,
        r.device_id@ == device_id@,
        r.incident_kind@ == kind@,
        r.severity@ == crate::text::text_or(input.severity, "medium"@),
        r.title == input.title,
        r.description == input.description,
        r.resource == input.resource,
        r.action_taken@ == crate::text::text_or(input.action_taken, "blocked"@),
        r.status@ == "open"@,
        r.detected_at@ == crate::text::text_or(input.detected_at, now@),
{
    SseIncidentRecord {
        id,
        device_id: String::from_str(device_id),
        incident_kind: String::from_str(kind),
        severity: or_text(copy_opt_text(&input.severity), "medium"),
        title: input.title.clone(),
        description: copy_opt_text(&input.description),
        resource: copy_opt_text(&input.resource),
        action_taken: or_text(copy_opt_text(&input.action_taken), "blocked"),
        status: String::from_str("open"),
        detected_at: or_text(copy_opt_text(&input.detected_at), now),
    }
}

/// A threat match as recorded from a report: kind `malware`, category `web`,
/// severity `medium` and action `blocked` unless told, matched now unless told.
pub fn threat_match_from_input(id: String, device_id: &str, input: &SseThreatMatchInput, now: &str) -> (r:
    SseThreatMatchRecord)
    ensures
        r.id == id,
        r.device_id@ == device_id@,
        r.threat_kind@ == crate::text::text_or(input.threat_kind, "malware"@),
        r.category@ == crate::text::text_or(input.category, "web"@),
        r.url == input.url,
        r.signature == input.signature,
        r.severity@ == crate::text::text_or(input.severity, "medium"@),
        r.action@ == crate::text::text_or(input.action, "blocked"@),
        r.matched_at@ == crate::text::text_or(input.matched_at, now@),
{
    SseThreatMatchRecord {
        id,
        device_id: String::from_str(device_id),
        threat_kind: or_text(copy_opt_text(&input.threat_kind), "malware"),
        category: or_text(copy_opt_text(&input.category), "web"),
        url: copy_opt_text(&input.url),
        signature: copy_opt_text(&input.signature),
        severity: or_text(copy_opt_text(&input.severity), "medium"),
        action: or_text(copy_opt_text(&input.action), "blocked"),
        matched_at: or_text(copy_opt_text(&input.matched_at), now),
    }
}

/// A device's risk evaluation as stored: level `medium` and no factors unless told.
pub fn risk_record(
    id: String,
    device_id: &str,
    score: u8,
    level: Option<String>,
    factors: Option<JsonValue>,
    evaluated_at: &str,
) -> (r: SseRiskRecord)
    ensures
        r.id == id,
        r.device_id@ == device_id@,
        r.risk_score == score,
        r.risk_level@ == crate::text::text_or(level, "medium"@),
        match factors {
            Some(f) => r.factors == f,
            None => crate::json::object_map(r.factors) == Some(Map::<Seq<char>, JsonValue>::empty()),
        },
        r.evaluated_at@ == evaluated_at@,
{
    SseRiskRecord {
        id,
        device_id: String::from_str(device_id),
        risk_score: score,
        risk_level: or_text(level, "medium"),
        factors: match factors {
            Some(f) => f,
            None => JsonValue::empty_object(),
        },
        evaluated_at: String::from_str(evaluated_at),
    }
}

/// The snapshot recorded for one telemetry report: the web gateway counters
/// (0 unless told), how many threat matches, CASB and DLP incidents and UEBA
/// anomalies it carried, the risk score (0 unless told), reported now unless
/// told.
pub fn telemetry_snapshot(
    id: String,
    device_id: &str,
    swg: (Option<u64>, Option<u64>, Option<u64>),
    threat_count: usize,
    casb_incidents: usize,
    dlp_incidents: usize,
    risk_score: Option<u8>,
    ueba_alerts: usize,
    reported_at: Option<String>,
    now: &str,
) -> (r: SseTelemetrySnapshot)
    requires
        threat_count <= u32::MAX,
        casb_incidents <= u32::MAX,
        dlp_incidents <= u32::MAX,
        ueba_alerts <= u32::MAX,
    ensures
        r.id == id,
        r.device_id@ == device_id@,
        r.swg_requests == match swg.0 {
            Some(v) => v,
            None => 0u64,
        },
        r.swg_blocked == match swg.1 {
            Some(v) => v,
            None => 0u64,
        },
        r.swg_allowed == match swg.2 {
            Some(v) => v,
            None => 0u64,
        },
        r.threat_count == threat_count,
        r.casb_incidents == casb_incidents,
        r.dlp_incidents == dlp_incidents,
        r.risk_score == match risk_score {
            Some(s) => s,
            None => 0u8,
        },
        r.ueba_alerts == ueba_alerts,
        r.reported_at@ == crate::text::text_or(reported_at, now@),
{
    let (requests, blocked, allowed) = swg;
    SseTelemetrySnapshot {
        id,
        device_id: String::from_str(device_id),
        swg_requests: match requests {
            Some(v) => v,
            None => 0,
        },
        swg_blocked: match blocked {
            Some(v) => v,
            None => 0,
        },
        swg_allowed: match allowed {
            Some(v) => v,
            None => 0,
        },
        threat_count: threat_count as u32,
        casb_incidents: casb_incidents as u32,
        dlp_incidents: dlp_incidents as u32,
        risk_score: match risk_score {
            Some(s) => s,
            None => 0,
        },
        ueba_alerts: ueba_alerts as u32,
        reported_at: or_text(reported_at, now),
    }
}

/// A stored count that cannot be negative.
pub open spec fn stored_u64(v: i64) -> u64 {
    if v < 0 {
        0
    } else {
        v as u64
    }
}

/// A stored count held to 32 bits (its low bits, as a cast keeps them).
pub open spec fn stored_u32(v: i64) -> u32 {
    if v < 0 {
        0
    } else {
        v as u32
    }
}

/// A snapshot from its stored columns: negative counts read as 0, the risk
/// score held to 0..=100.
pub fn snapshot_from_row(row: (String, String, i64, i64, i64, i64, i64, i64, i64, i64, String)) -> (r:
    SseTelemetrySnapshot)
    ensures
        r.id == row.0,
        r.device_id == row.1,
        r.swg_requests == stored_u64(row.2),
        r.swg_blocked == stored_u64(row.3),
        r.swg_allowed == stored_u64(row.4),
        r.threat_count == stored_u32(row.5),
        r.casb_incidents == stored_u32(row.6),
        r.dlp_incidents == stored_u32(row.7),
        r.risk_score == crate::ztna::clamped_score(row.8),
        r.ueba_alerts == stored_u32(row.9),
        r.reported_at == row.10,
{
    let (id, device_id, req, blk, alw, thr, casb, dlp, risk, ueba, reported_at) = row;
    SseTelemetrySnapshot {
        id,
        device_id,
        swg_requests: if req < 0 {
            0
        } else {
            req as u64
        },
        swg_blocked: if blk < 0 {
            0
        } else {
            blk as u64
        },
        swg_allowed: if alw < 0 {
            0
        } else {
            alw as u64
        },
        threat_count: if thr < 0 {
            0
        } else {
            thr as u32
        },
        casb_incidents: if casb < 0 {
            0
        } else {
            casb as u32
        },
        dlp_incidents: if dlp < 0 {
            0
        } else {
            dlp as u32
        },
        risk_score: if risk < 0 {
            0
        } else if risk > 100 {
            100
        } else {
            risk as u8
        },
        ueba_alerts: if ueba < 0 {
            0
        } else {
            ueba as u32
        },
        reported_at,
    }
}

/// How many incidents ended in a block.
pub open spec fn count_blocked(s: Seq<SseIncidentRecord>) -> nat
    decreases s.len(),
{
    if s.len() == 0 {
        0
    } else {
        count_blocked(s.drop_last()) + if s.last().action_taken@ == "blocked"@ {
            1nat
        } else {
            0nat
        }
    }
}

fn tally_blocked(items: &Vec<SseIncidentRecord>) -> (n: i64)
    requires
        items@.len() <= i64::MAX,
    ensures
        n == count_blocked(items@),
{
    let mut n: i64 = 0;
    let mut i: usize = 0;
    while i < items.len()
        invariant
            i <= items@.len(),
            items@.len() <= i64::MAX,
            n == count_blocked(items@.take(i as int)),
            n <= i,
        decreases items@.len() - i,
    {
        proof {
            assert(items@.take(i + 1).drop_last() =~= items@.take(i as int));
        }
        if text_eq(items[i].action_taken.as_str(), "blocked") {
            n = n + 1;
        }
        i = i + 1;
    }
    assert(items@.take(i as int) =~= items@);
    n
}

/// CASB figures from the latest CASB incidents: how many, how many open, how
/// many blocked.
pub fn casb_summary(incidents: Vec<SseIncidentRecord>) -> (r: CasbSummary)
    requires
        incidents@.len() <= i64::MAX,
    ensures
        r.incident_count == incidents@.len(),
        r.open_incidents == crate::tally::count_status(incidents@, "open"@),
        r.blocked_actions == count_blocked(incidents@),
        r.incidents@ == incidents@,
{
    let incident_count = count_of(&incidents);
    let open_incidents = tally_status(&incidents, "open");
    let blocked_actions = tally_blocked(&incidents);
    CasbSummary { incident_count, open_incidents, blocked_actions, incidents }
}

/// DLP figures from the latest DLP incidents: how many, how many open, how
/// many blocked.
pub fn dlp_summary(incidents: Vec<SseIncidentRecord>) -> (r: DlpSummary)
    requires
        incidents@.len() <= i64::MAX,
    ensures
        r.incident_count == incidents@.len(),
        r.open_incidents == crate::tally::count_status(incidents@, "open"@),
        r.blocked_actions == count_blocked(incidents@),
        r.incidents@ == incidents@,
{
    let incident_count = count_of(&incidents);
    let open_incidents = tally_status(&incidents, "open");
    let blocked_actions = tally_blocked(&incidents);
    DlpSummary { incident_count, open_incidents, blocked_actions, incidents }
}

/// How many devices score 70 or more.
pub open spec fn count_high_risk(s: Seq<SseRiskRecord>) -> nat
    decreases s.len(),
{
    if s.len() == 0 {
        0
    } else {
        count_high_risk(s.drop_last()) + if s.last().risk_score >= 70 {
            1nat
        } else {
            0nat
        }
    }
}

/// The number of high-risk devices (a score of 70 or more).
pub fn high_risk_devices(scores: &Vec<SseRiskRecord>) -> (n: i64)
    requires
        scores@.len() <= i64::MAX,
    ensures
        n == count_high_risk(scores@),
{
    let mut n: i64 = 0;
    let mut i: usize = 0;
    while i < scores.len()
        invariant
            i <= scores@.len(),
            scores@.len() <= i64::MAX,
            n == count_high_risk(scores@.take(i as int)),
            n <= i,
        decreases scores@.len() - i,
    {
        proof {
            assert(scores@.take(i + 1).drop_last() =~= scores@.take(i as int));
        }
        if scores[i].risk_score >= 70 {
            n = n + 1;
        }
        i = i + 1;
    }
    assert(scores@.take(i as int) =~= scores@);
    n
}

/// The distinct texts of `s`, each at its first occurrence.
pub open spec fn distinct_texts(s: Seq<Seq<char>>) -> Seq<Seq<char>>
    decreases s.len(),
{
    if s.len() == 0 {
        Seq::empty()
    } else {
        let before = distinct_texts(s.drop_last());
        if before.contains(s.last()) {
            before
        } else {
            before.push(s.last())
        }
    }
}

proof fn lemma_distinct_texts_bound(s: Seq<Seq<char>>)
    ensures
        distinct_texts(s).len() <= s.len(),
    decreases s.len(),
{
    if s.len() > 0 {
        lemma_distinct_texts_bound(s.drop_last());
    }
}

/// How many different devices raised the listed anomalies.
pub fn alerting_devices(device_ids: &Vec<String>) -> (n: i64)
    requires
        device_ids@.len() <= i64::MAX,
    ensures
        n == distinct_texts(crate::policy::texts(device_ids@)).len(),
{
    let ghost ids = crate::policy::texts(device_ids@);
    let mut seen: Vec<String> = Vec::new();
    let mut i: usize = 0;
    while i < device_ids.len()
        invariant
            i <= device_ids@.len(),
            device_ids@.len() <= i64::MAX,
            ids == crate::policy::texts(device_ids@),
            crate::policy::texts(seen@) == distinct_texts(ids.take(i as int)),
        decreases device_ids@.len() - i,
    {
        proof {
            assert(ids.take(i + 1).drop_last() =~= ids.take(i as int));
            assert(ids.take(i + 1).last() == device_ids@[i as int]@);
        }
        let id = &device_ids[i];
        let mut found = false;
        let mut j: usize = 0;
        while j < seen.len()
            invariant
                j <= seen@.len(),
                found ==> crate::policy::texts(seen@).contains(id@),
                !found ==> forall|k: int| 0 <= k < j ==> seen@[k]@ != id@,
            decreases seen@.len() - j,
        {
            if text_eq(seen[j].as_str(), id.as_str()) {
                found = true;
                assert(crate::policy::texts(seen@)[j as int] == id@);
            }
            j = j + 1;
        }
        proof {
            if !found {
                assert forall|k: int| 0 <= k < seen@.len() implies #[trigger] crate::policy::texts(
                    seen@,
                )[k] != id@ by {}
            }
        }
        if !found {
            seen.push(id.clone());
            proof {
                assert(crate::policy::texts(seen@) =~= distinct_texts(ids.take(i as int)).push(
                    id@,
                ));
            }
        }
        i = i + 1;
    }
    assert(ids.take(i as int) =~= ids);
    proof {
        lemma_distinct_texts_bound(ids);
    }
    seen.len() as i64
}

/// A running total of the web gateway counter picked by `which`
/// (0 requests, 1 blocked, 2 allowed), each read as `i64` as a cast does.
pub open spec fn swg_total(s: Seq<SseTelemetrySnapshot>, which: int) -> int
    decreases s.len(),
{
    if s.len() == 0 {
        0
    } else {
        let last = s.last();
        let v: u64 = if which == 0 {
            last.swg_requests
        } else if which == 1 {
            last.swg_blocked
        } else {
            last.swg_allowed
        };
        swg_total(s.drop_last(), which) + (v as i64)
    }
}

/// Every running total of the counter `which` fits in `i64`.
pub open spec fn swg_totals_fit(s: Seq<SseTelemetrySnapshot>, which: int) -> bool {
    forall|k: int| 0 <= k <= s.len() ==> i64::MIN <= #[trigger] swg_total(s.take(k), which) <= i64::MAX
}

fn add_swg(acc: i64, snapshots: &Vec<SseTelemetrySnapshot>, i: usize, which: u8) -> (r: i64)
    requires
        i < snapshots@.len(),
        which <= 2,
        acc == swg_total(snapshots@.take(i as int), which as int),
        swg_totals_fit(snapshots@, which as int),
    ensures
        r == swg_total(snapshots@.take(i + 1), which as int),
{
    proof {
        assert(snapshots@.take(i + 1).drop_last() =~= snapshots@.take(i as int));
        assert(snapshots@.take(i + 1).last() == snapshots@[i as int]);
        assert(i64::MIN <= swg_total(snapshots@.take(i + 1), which as int) <= i64::MAX);
    }
    let s = &snapshots[i];
    let v: u64 = if which == 0 {
        s.swg_requests
    } else if which == 1 {
        s.swg_blocked
    } else {
        s.swg_allowed
    };
    acc + (v as i64)
}

/// Web gateway figures: the counts the store gives, and the request, block
/// and allow counters summed over the latest snapshots.
pub fn swg_summary(
    policy_count: i64,
    threat_match_count: i64,
    snapshots: Vec<SseTelemetrySnapshot>,
    recent_threats: Vec<SseThreatMatchRecord>,
) -> (r: SwgSummary)
    requires
        snapshots@.len() <= i64::MAX,
        swg_totals_fit(snapshots@, 0),
        swg_totals_fit(snapshots@, 1),
        swg_totals_fit(snapshots@, 2),
    ensures
        r.policy_count == policy_count,
        r.total_requests == swg_total(snapshots@, 0),
        r.blocked_count == swg_total(snapshots@, 1),
        r.allowed_count == swg_total(snapshots@, 2),
        r.threat_match_count == threat_match_count,
        r.reporting_devices == snapshots@.len(),
        r.recent_threats@ == recent_threats@,
        r.snapshots@ == snapshots@,
{
    let ghost s = snapshots@;
    let mut requests: i64 = 0;
    let mut blocked: i64 = 0;
    let mut allowed: i64 = 0;
    let mut i: usize = 0;
    while i < snapshots.len()
        invariant
            s == snapshots@,
            i <= s.len(),
            swg_totals_fit(s, 0),
            swg_totals_fit(s, 1),
            swg_totals_fit(s, 2),
            requests == swg_total(s.take(i as int), 0),
            blocked == swg_total(s.take(i as int), 1),
            allowed == swg_total(s.take(i as int), 2),
        decreases s.len() - i,
    {
        requests = add_swg(requests, &snapshots, i, 0);
        blocked = add_swg(blocked, &snapshots, i, 1);
        allowed = add_swg(allowed, &snapshots, i, 2);
        i = i + 1;
    }
    assert(s.take(i as int) =~= s);
    SwgSummary {
        policy_count,
        total_requests: requests,
        blocked_count: blocked,
        allowed_count: allowed,
        threat_match_count,
        reporting_devices: count_of(&snapshots),
        recent_threats,
        snapshots,
    }
}

} // verus!
