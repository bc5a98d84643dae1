use vstd::prelude::*;

use crate::json::JsonValue;
use crate::tally::{count_of, tally_high, tally_status, HasSeverity, HasStatus};
use crate::text::{or_text, text_eq};

verus! {

pub struct XdrIncidentRecord {
    pub id: String,
    pub device_id: Option<String>,
    pub title: String,
    pub description: Option<String>,
    pub severity: String,
    pub status: String,
    pub source: String,
    pub mitre_techniques: Vec<String>,
    pub detected_at: String,
    pub created_at: String,
    pub updated_at: String,
}

pub struct XdrCaseRecord {
    pub id: String,
    pub title: String,
    pub description: Option<String>,
    pub status: String,
    pub priority: String,
    pub assignee: Option<String>,
    pub incident_ids: Vec<String>,
    pub opened_at: String,
    pub closed_at: Option<String>,
    pub created_at: String,
    pub updated_at: String,
}

pub struct XdrHuntRecord {
    pub id: String,
    pub name: String,
    pub description: Option<String>,
    pub query_kind: String,
    pub query_text: String,
    pub status: String,
    pub owner: Option<String>,
    pub started_at: Option<String>,
    pub completed_at: Option<String>,
    pub created_at: String,
    pub updated_at: String,
}

pub struct XdrPlaybookRecord {
    pub id: String,
    pub name: String,
    pub playbook_kind: String,
    pub enabled: bool,
    pub steps: Vec<JsonValue>,
    pub triggers: Vec<JsonValue>,
    pub created_at: String,
    pub updated_at: String,
}

pub struct XdrAttackGraphNode {
    pub id: String,
    pub incident_id: Option<String>,
    pub node_kind: String,
    pub label: String,
    pub entity_id: Option<String>,
}

pub struct XdrAttackGraphEdge {
    pub id: String,
    pub incident_id: Option<String>,
    pub source_node_id: String,
    pub target_node_id: String,
    pub edge_kind: String,
    pub label: Option<String>,
}

pub struct XdrMitreTechnique {
    pub id: String,
    pub technique_id: String,
    pub name: String,
    pub tactic: String,
    pub description: Option<String>,
    pub url: Option<String>,
}

pub struct XdrResponseActionRecord {
    pub id: String,
    pub device_id: Option<String>,
    pub incident_id: Option<String>,
    pub action_kind: String,
    pub status: String,
    pub requested_by: Option<String>,
    pub parameters: JsonValue,
    pub result: JsonValue,
    pub requested_at: String,
    pub completed_at: Option<String>,
}

pub struct XdrTelemetrySnapshot {
    pub id: String,
    pub device_id: String,
    pub edr_event_count: u32,
    pub ndr_event_count: u32,
    pub itdr_threat_count: u32,
    pub detection_count: u32,
    pub open_incident_count: u32,
    pub reported_at: String,
}

pub struct IncidentsSummary {
    pub incident_count: i64,
    pub open_incidents: i64,
    pub high_severity: i64,
    pub incidents: Vec<XdrIncidentRecord>,
}

pub struct CasesSummary {
    pub case_count: i64,
    pub open_cases: i64,
    pub cases: Vec<XdrCaseRecord>,
}

pub struct HuntsSummary {
    pub hunt_count: i64,
    pub active_hunts: i64,
    pub result_count: i64,
    pub hunts: Vec<XdrHuntRecord>,
}

pub struct AttackGraphSummary {
    pub node_count: i64,
    pub edge_count: i64,
    pub nodes: Vec<XdrAttackGraphNode>,
    pub edges: Vec<XdrAttackGraphEdge>,
}

pub struct SoarSummary {
    pub playbook_count: i64,
    pub enabled_playbooks: i64,
    pub execution_count: i64,
    pub playbooks: Vec<XdrPlaybookRecord>,
}

pub struct XdrIncidentInput {
    pub device_id: Option<String>,
    pub title: String,
    pub description: Option<String>,
    pub severity: Option<String>,
    pub status: Option<String>,
    pub source: Option<String>,
    pub mitre_techniques: Option<Vec<String>>,
    pub details: Option<JsonValue>,
    pub detected_at: Option<String>,
}

pub struct XdrCaseInput {
    pub title: String,
    pub description: Option<String>,
    pub status: Option<String>,
    pub priority: Option<String>,
    pub assignee: Option<String>,
    pub incident_ids: Option<Vec<String>>,
    pub details: Option<JsonValue>,
}

pub struct XdrHuntInput {
    pub name: String,
    pub description: Option<String>,
    pub query_kind: Option<String>,
    pub query_text: Option<String>,
    pub status: Option<String>,
    pub owner: Option<String>,
    pub details: Option<JsonValue>,
}

pub struct XdrPlaybookInput {
    pub name: String,
    pub playbook_kind: Option<String>,
    pub enabled: Option<bool>,
    pub steps: Option<Vec<JsonValue>>,
    pub triggers: Option<Vec<JsonValue>>,
}

pub struct XdrResponseExecuteInput {
    pub device_id: Option<String>,
    pub incident_id: Option<String>,
    pub action_kind: String,
    pub requested_by: Option<String>,
    pub parameters: Option<JsonValue>,
}

impl HasStatus for XdrIncidentRecord {
    open spec fn status_view(&self) -> Seq<char> {
        self.status@
    }

    fn status_text(&self) -> (r: &str) {
        self.status.as_str()
    }
}

impl HasSeverity for XdrIncidentRecord {
    open spec fn severity_view(&self) -> Seq<char> {
        self.severity@
    }

    fn severity_text(&self) -> (r: &str) {
        self.severity.as_str()
    }
}

impl HasStatus for XdrCaseRecord {
    open spec fn status_view(&self) -> Seq<char> {
        self.status@
    }

    fn status_text(&self) -> (r: &str) {
        self.status.as_str()
    }
}

impl HasStatus for XdrHuntRecord {
    open spec fn status_view(&self) -> Seq<char> {
        self.status@
    }

    fn status_text(&self) -> (r: &str) {
        self.status.as_str()
    }
}

/// Incident figures: how many, how many open, how many high or critical.
pub fn incidents_summary(incidents: Vec<XdrIncidentRecord>) -> (r: IncidentsSummary)
    requires
        incidents@.len() <= i64::MAX,
    ensures
        r.incident_count == incidents@.len(),
        r.open_incidents == crate::tally::count_status(incidents@, "open"@),
        r.high_severity == crate::tally::count_high(incidents@),
        r.incidents@ == incidents@,
{
    let incident_count = count_of(&incidents);
    let open_incidents = tally_status(&incidents, "open");
    let high_severity = tally_high(&incidents);
    IncidentsSummary { incident_count, open_incidents, high_severity, incidents }
}

/// Case figures: how many, how many open.
pub fn cases_summary(cases: Vec<XdrCaseRecord>) -> (r: CasesSummary)
    requires
        cases@.len() <= i64::MAX,
    ensures
        r.case_count == cases@.len(),
        r.open_cases == crate::tally::count_status(cases@, "open"@),
        r.cases@ == cases@,
{
    let case_count = count_of(&cases);
    let open_cases = tally_status(&cases, "open");
    CasesSummary { case_count, open_cases, cases }
}

/// Hunt figures: how many, how many running or active, and the stored number of results.
pub fn hunts_summary(hunts: Vec<XdrHuntRecord>, result_count: i64) -> (r: HuntsSummary)
    requires
        hunts@.len() <= i64::MAX,
    ensures
        r.hunt_count == hunts@.len(),
        r.active_hunts == crate::tally::count_status(hunts@, "running"@)
            + crate::tally::count_status(hunts@, "active"@),
        r.result_count == result_count,
        r.hunts@ == hunts@,
{
    let hunt_count = count_of(&hunts);
    let running = tally_status(&hunts, "running");
    let active = tally_status(&hunts, "active");
    proof {
        lemma_running_active_bound(hunts@);
    }
    HuntsSummary { hunt_count, active_hunts: running + active, result_count, hunts }
}

proof fn lemma_running_active_bound(s: Seq<XdrHuntRecord>)
    ensures
        crate::tally::count_status(s, "running"@) + crate::tally::count_status(s, "active"@) <= s.len(),
    decreases s.len(),
{
    reveal_strlit("running");
    reveal_strlit("active");
    assert("running"@.len() != "active"@.len());
    if s.len() > 0 {
        lemma_running_active_bound(s.drop_last());
    }
}

/// Attack graph figures: how many nodes and edges.
pub fn attack_graph_summary(nodes: Vec<XdrAttackGraphNode>, edges: Vec<XdrAttackGraphEdge>) -> (r:
    AttackGraphSummary)
    requires
        nodes@.len() <= i64::MAX,
        edges@.len() <= i64::MAX,
    ensures
        r.node_count == nodes@.len(),
        r.edge_count == edges@.len(),
        r.nodes@ == nodes@,
        r.edges@ == edges@,
{
    let node_count = count_of(&nodes);
    let edge_count = count_of(&edges);
    AttackGraphSummary { node_count, edge_count, nodes, edges }
}

/// How many playbooks of `s` are enabled.
pub open spec fn count_enabled(s: Seq<XdrPlaybookRecord>) -> nat
    decreases s.len(),
{
    if s.len() == 0 {
        0
    } else {
        count_enabled(s.drop_last()) + if s.last().enabled {
            1nat
        } else {
            0nat
        }
    }
}

/// Response automation figures: how many playbooks, how many enabled, and the
/// stored number of executions.
pub fn soar_summary(playbooks: Vec<XdrPlaybookRecord>, execution_count: i64) -> (r: SoarSummary)
    requires
        playbooks@.len() <= i64::MAX,
    ensures
        r.playbook_count == playbooks@.len(),
        r.enabled_playbooks == count_enabled(playbooks@),
        r.execution_count == execution_count,
        r.playbooks@ == playbooks@,
{
    let mut enabled: i64 = 0;
    let mut i: usize = 0;
    while i < playbooks.len()
        invariant
            i <= playbooks@.len(),
            playbooks@.len() <= i64::MAX,
            enabled == count_enabled(playbooks@.take(i as int)),
            enabled <= i,
        decreases playbooks@.len() - i,
    {
        proof {
            assert(playbooks@.take(i + 1).drop_last() =~= playbooks@.take(i as int));
            assert(playbooks@.take(i + 1).last() == playbooks@[i as int]);
        }
        if playbooks[i].enabled {
            enabled = enabled + 1;
        }
        i = i + 1;
    }
    assert(playbooks@.take(i as int) =~= playbooks@);
    SoarSummary {
        playbook_count: count_of(&playbooks),
        enabled_playbooks: enabled,
        execution_count,
        playbooks,
    }
}

/// A new incident with the defaults filled in: detected now unless told,
/// severity `medium`, status `open`, source `xdr`, no techniques.
pub fn new_incident(input: XdrIncidentInput, id: String, now: String) -> (r: XdrIncidentRecord)
    ensures
        r.id == id,
        r.device_id == input.device_id,
        r.title == input.title,
        r.description == input.description,
        r.severity@ == crate::text::text_or(input.severity, "medium"@),
        r.status@ == crate::text::text_or(input.status, "open"@),
        r.source@ == crate::text::text_or(input.source, "xdr"@),
        match input.mitre_techniques {
            Some(t) => r.mitre_techniques == t,
            None => r.mitre_techniques@.len() == 0,
        },
        r.detected_at@ == crate::text::text_or(input.detected_at, now@),
        r.created_at == now,
        r.updated_at == now,
{
    let detected_at = or_text(input.detected_at, now.as_str());
    let mitre = match input.mitre_techniques {
        Some(t) => t,
        None => Vec::new(),
    };
    XdrIncidentRecord {
        id,
        device_id: input.device_id,
        title: input.title,
        description: input.description,
        severity: or_text(input.severity, "medium"),
        status: or_text(input.status, "open"),
        source: or_text(input.source, "xdr"),
        mitre_techniques: mitre,
        detected_at,
        created_at: now.clone(),
        updated_at: now,
    }
}

/// A new case with the defaults filled in: status `open`, priority `medium`,
/// no linked incidents, opened now.
pub fn new_case(input: XdrCaseInput, id: String, now: String) -> (r: XdrCaseRecord)
    ensures
        r.id == id,
        r.title == input.title,
        r.description == input.description,
        r.status@ == crate::text::text_or(input.status, "open"@),
        r.priority@ == crate::text::text_or(input.priority, "medium"@),
        r.assignee == input.assignee,
        match input.incident_ids {
            Some(t) => r.incident_ids == t,
            None => r.incident_ids@.len() == 0,
        },
        r.opened_at == now,
        r.closed_at is None,
        r.created_at == now,
        r.updated_at == now,
{
    let ids = match input.incident_ids {
        Some(t) => t,
        None => Vec::new(),
    };
    XdrCaseRecord {
        id,
        title: input.title,
        description: input.description,
        status: or_text(input.status, "open"),
        priority: or_text(input.priority, "medium"),
        assignee: input.assignee,
        incident_ids: ids,
        opened_at: now.clone(),
        closed_at: None,
        created_at: now.clone(),
        updated_at: now,
    }
}

/// A new hunt with the defaults filled in: a `kql` query, empty unless given,
/// status `draft`, not started.
pub fn new_hunt(input: XdrHuntInput, id: String, now: String) -> (r: XdrHuntRecord)
    ensures
        r.id == id,
        r.name == input.name,
        r.description == input.description,
        r.query_kind@ == crate::text::text_or(input.query_kind, "kql"@),
        r.query_text@ == crate::text::text_or(input.query_text, ""@),
        r.status@ == crate::text::text_or(input.status, "draft"@),
        r.owner == input.owner,
        r.started_at is None,
        r.completed_at is None,
        r.created_at == now,
        r.updated_at == now,
{
    XdrHuntRecord {
        id,
        name: input.name,
        description: input.description,
        query_kind: or_text(input.query_kind, "kql"),
        query_text: or_text(input.query_text, ""),
        status: or_text(input.status, "draft"),
        owner: input.owner,
        started_at: None,
        completed_at: None,
        created_at: now.clone(),
        updated_at: now,
    }
}

/// A new playbook with the defaults filled in: kind `response`, enabled, no
/// steps or triggers unless given.
pub fn new_playbook(input: XdrPlaybookInput, id: String, now: String) -> (r: XdrPlaybookRecord)
    ensures
        r.id == id,
        r.name == input.name,
        r.playbook_kind@ == crate::text::text_or(input.playbook_kind, "response"@),
        r.enabled == match input.enabled {
            Some(b) => b,
            None => true,
        },
        match input.steps {
            Some(s) => r.steps == s,
            None => r.steps@.len() == 0,
        },
        match input.triggers {
            Some(t) => r.triggers == t,
            None => r.triggers@.len() == 0,
        },
        r.created_at == now,
        r.updated_at == now,
{
    let enabled = match input.enabled {
        Some(b) => b,
        None => true,
    };
    let steps = match input.steps {
        Some(s) => s,
        None => Vec::new(),
    };
    let triggers = match input.triggers {
        Some(t) => t,
        None => Vec::new(),
    };
    XdrPlaybookRecord {
        id,
        name: input.name,
        playbook_kind: or_text(input.playbook_kind, "response"),
        enabled,
        steps,
        triggers,
        created_at: now.clone(),
        updated_at: now,
    }
}

/// An endpoint (EDR) event as an agent reports it.
pub struct XdrEdrEventInput {
    pub event_kind: Option<String>,
    pub process_name: Option<String>,
    pub process_id: Option<i64>,
    pub parent_process_id: Option<i64>,
    pub user_name: Option<String>,
    pub file_path: Option<String>,
    pub command_line: Option<String>,
    pub hash_sha256: Option<String>,
    pub severity: Option<String>,
    pub details: Option<JsonValue>,
    pub observed_at: Option<String>,
}

/// An endpoint event as stored.
pub struct XdrEdrEventRecord {
    pub id: String,
    pub device_id: String,
    pub event_kind: String,
    pub process_name: Option<String>,
    pub process_id: Option<i64>,
    pub parent_process_id: Option<i64>,
    pub user_name: Option<String>,
    pub file_path: Option<String>,
    pub command_line: Option<String>,
    pub hash_sha256: Option<String>,
    pub severity: String,
    pub observed_at: String,
}

/// A network (NDR) event as an agent reports it.
pub struct XdrNdrEventInput {
    pub event_kind: Option<String>,
    pub src_ip: Option<String>,
    pub dst_ip: Option<String>,
    pub src_port: Option<i64>,
    pub dst_port: Option<i64>,
    pub protocol: Option<String>,
    pub bytes: Option<i64>,
    pub severity: Option<String>,
    pub details: Option<JsonValue>,
    pub observed_at: Option<String>,
}

/// A network event as stored.
pub struct XdrNdrEventRecord {
    pub id: String,
    pub device_id: String,
    pub event_kind: String,
    pub src_ip: Option<String>,
    pub dst_ip: Option<String>,
    pub src_port: Option<i64>,
    pub dst_port: Option<i64>,
    pub protocol: Option<String>,
    pub bytes: Option<i64>,
    pub severity: String,
    pub observed_at: String,
}

/// An identity (ITDR) threat as an agent reports it.
pub struct XdrItdrThreatInput {
    pub threat_kind: Option<String>,
    pub user_id: Option<String>,
    pub identity_provider: Option<String>,
    pub severity: Option<String>,
    pub title: String,
    pub description: Option<String>,
    pub details: Option<JsonValue>,
    pub detected_at: Option<String>,
}

/// An identity threat as stored.
pub struct XdrItdrThreatRecord {
    pub id: String,
    pub device_id: String,
    pub threat_kind: String,
    pub user_id: Option<String>,
    pub identity_provider: Option<String>,
    pub severity: String,
    pub title: String,
    pub description: Option<String>,
    pub detected_at: String,
}

/// An endpoint event as stored for the reporting device: kind `process` and
/// severity `info` unless given, observed now unless a time is given.
pub fn edr_event_record(input: XdrEdrEventInput, id: String, device_id: &str, now: &str) -> (r: XdrEdrEventRecord)
    ensures
        r.id == id,
        r.device_id@ == device_id@,
        r.event_kind@ == crate::text::text_or(input.event_kind, "process"@),
        r.process_name == input.process_name,
        r.process_id == input.process_id,
        r.parent_process_id == input.parent_process_id,
        r.user_name == input.user_name,
        r.file_path == input.file_path,
        r.command_line == input.command_line,
        r.hash_sha256 == input.hash_sha256,
        r.severity@ == crate::text::text_or(input.severity, "info"@),
        r.observed_at@ == crate::text::text_or(input.observed_at, now@),
{
    XdrEdrEventRecord {
        id,
        device_id: String::from_str(device_id),
        event_kind: or_text(input.event_kind, "process"),
        process_name: input.process_name,
        process_id: input.process_id,
        parent_process_id: input.parent_process_id,
        user_name: input.user_name,
        file_path: input.file_path,
        command_line: input.command_line,
        hash_sha256: input.hash_sha256,
        severity: or_text(input.severity, "info"),
        observed_at: or_text(input.observed_at, now),
    }
}

/// A network event as stored for the reporting device: kind `flow` and
/// severity `info` unless given, observed now unless a time is given.
pub fn ndr_event_record(input: XdrNdrEventInput, id: String, device_id: &str, now: &str) -> (r: XdrNdrEventRecord)
    ensures
        r.id == id,
        r.device_id@ == device_id@,
        r.event_kind@ == crate::text::text_or(input.event_kind, "flow"@),
        r.src_ip == input.src_ip,
        r.dst_ip == input.dst_ip,
        r.src_port == input.src_port,
        r.dst_port == input.dst_port,
        r.protocol == input.protocol,
        r.bytes == input.bytes,
        r.severity@ == crate::text::text_or(input.severity, "info"@),
        r.observed_at@ == crate::text::text_or(input.observed_at, now@),
{
    XdrNdrEventRecord {
        id,
        device_id: String::from_str(device_id),
        event_kind: or_text(input.event_kind, "flow"),
        src_ip: input.src_ip,
        dst_ip: input.dst_ip,
        src_port: input.src_port,
        dst_port: input.dst_port,
        protocol: input.protocol,
        bytes: input.bytes,
        severity: or_text(input.severity, "info"),
        observed_at: or_text(input.observed_at, now),
    }
}

/// An identity threat as stored for the reporting device: kind `credential`
/// and severity `medium` unless given, detected now unless a time is given.
pub fn itdr_threat_record(input: XdrItdrThreatInput, id: String, device_id: &str, now: &str) -> (r: XdrItdrThreatRecord)
    ensures
        r.id == id,
        r.device_id@ == device_id@,
        r.threat_kind@ == crate::text::text_or(input.threat_kind, "credential"@),
        r.user_id == input.user_id,
        r.identity_provider == input.identity_provider,
        r.severity@ == crate::text::text_or(input.severity, "medium"@),
        r.title == input.title,
        r.description == input.description,
        r.detected_at@ == crate::text::text_or(input.detected_at, now@),
{
    XdrItdrThreatRecord {
        id,
        device_id: String::from_str(device_id),
        threat_kind: or_text(input.threat_kind, "credential"),
        user_id: input.user_id,
        identity_provider: input.identity_provider,
        severity: or_text(input.severity, "medium"),
        title: input.title,
        description: input.description,
        detected_at: or_text(input.detected_at, now),
    }
}

/// Detections and incidents that a device reports without naming a device are
/// attributed to it.
pub fn attribute_device(device_id: Option<String>, reporter: &str) -> (r: Option<String>)
    ensures
        match device_id {
            Some(d) => r == Some(d),
            None => r matches Some(d) && d@ == reporter@,
        },
{
    match device_id {
        Some(d) => Some(d),
        None => Some(String::from_str(reporter)),
    }
}

/// The message recorded when a response action completes.
pub fn response_message(action_kind: &str) -> (r: String)
    ensures
        r@ == "Action "@ + action_kind@ + " executed"@,
{
    String::from_str("Action ").concat(action_kind).concat(" executed")
}

/// The snapshot that a telemetry report leaves, from the number of each kind of
/// item it carried; incidents reported count as open.
pub fn telemetry_snapshot(
    id: String,
    device_id: String,
    edr: usize,
    ndr: usize,
    itdr: usize,
    detections: usize,
    incidents: usize,
    reported_at: String,
) -> (r: XdrTelemetrySnapshot)
    requires
        edr <= u32::MAX,
        ndr <= u32::MAX,
        itdr <= u32::MAX,
        detections <= u32::MAX,
        incidents <= u32::MAX,
    ensures
        r.id == id,
        r.device_id == device_id,
        r.edr_event_count == edr,
        r.ndr_event_count == ndr,
        r.itdr_threat_count == itdr,
        r.detection_count == detections,
        r.open_incident_count == incidents,
        r.reported_at == reported_at,
{
    XdrTelemetrySnapshot {
        id,
        device_id,
        edr_event_count: edr as u32,
        ndr_event_count: ndr as u32,
        itdr_threat_count: itdr as u32,
        detection_count: detections as u32,
        open_incident_count: incidents as u32,
        reported_at,
    }
}

/// The record of an executed response action: `completed` now, with its
/// parameters (an empty object unless given) and a result object whose
/// `status` is `completed` and whose `message` names the action.
pub fn response_record(id: String, input: XdrResponseExecuteInput, now: String) -> (r: XdrResponseActionRecord)
    ensures
        r.id == id,
        r.device_id == input.device_id,
        r.incident_id == input.incident_id,
        r.action_kind == input.action_kind,
        r.status@ == "completed"@,
        r.requested_by == input.requested_by,
        match input.parameters {
            Some(p) => r.parameters == p,
            None => crate::json::object_map(r.parameters) == Some(Map::<Seq<char>, JsonValue>::empty()),
        },
        crate::json::object_map(r.result) matches Some(m) && m.dom() == set!["status"@, "message"@] && (
        m["status"@] matches JsonValue::String(s) && s@ == "completed"@) && (m["message"@] matches JsonValue::String(
            t,
        ) && t@ == "Action "@ + input.action_kind@ + " executed"@),
        r.requested_at == now,
        r.completed_at == Some(now),
{
    let message = response_message(input.action_kind.as_str());
    let f = crate::json::JsonFields::Field(
        String::from_str("message"),
        Box::new(JsonValue::String(message)),
        Box::new(crate::json::JsonFields::Empty),
    );
    let f = crate::json::JsonFields::Field(
        String::from_str("status"),
        Box::new(JsonValue::String(String::from_str("completed"))),
        Box::new(f),
    );
    proof {
        reveal_with_fuel(crate::json::fields_map, 3);
        reveal_strlit("status");
        reveal_strlit("message");
        assert("status"@.len() != "message"@.len());
        assert(crate::json::fields_map(f).dom() =~= set!["status"@, "message"@]);
    }
    let parameters = match input.parameters {
        Some(p) => p,
        None => JsonValue::empty_object(),
    };
    XdrResponseActionRecord {
        id,
        device_id: input.device_id,
        incident_id: input.incident_id,
        action_kind: input.action_kind,
        status: String::from_str("completed"),
        requested_by: input.requested_by,
        parameters,
        result: JsonValue::Object(f),
        requested_at: now.clone(),
        completed_at: Some(now),
    }
}

/// The detection rules seeded while none exist (none otherwise), as name,
/// rule kind and severity.
pub fn seed_detection_rules(existing: i64) -> (r: Vec<(&'static str, &'static str, &'static str)>)
    ensures
        existing != 0 ==> r@.len() == 0,
        existing == 0 ==> r@.len() == 3 && r@[0].0@ == "Suspicious PowerShell"@ && r@[0].1@ == "sigma"@
            && r@[0].2@ == "high"@ && r@[1].0@ == "Lateral SMB Movement"@ && r@[1].1@ == "sigma"@
            && r@[1].2@ == "medium"@ && r@[2].0@ == "Beaconing Detection"@ && r@[2].1@ == "behavioral"@
            && r@[2].2@ == "high"@,
{
    let mut v = Vec::new();
    if existing == 0 {
        v.push(("Suspicious PowerShell", "sigma", "high"));
        v.push(("Lateral SMB Movement", "sigma", "medium"));
        v.push(("Beaconing Detection", "behavioral", "high"));
    }
    v
}

/// The MITRE techniques seeded while none exist (none otherwise).
pub fn seed_mitre_techniques(existing: i64, ids: (String, String, String)) -> (r: Vec<XdrMitreTechnique>)
    ensures
        existing != 0 ==> r@.len() == 0,
        existing == 0 ==> r@.len() == 3 && r@[0].id == ids.0 && r@[0].technique_id@ == "T1059"@
            && r@[0].name@ == "Command and Scripting Interpreter"@ && r@[0].tactic@ == "execution"@
            && r@[1].id == ids.1 && r@[1].technique_id@ == "T1071"@ && r@[1].name@
            == "Application Layer Protocol"@ && r@[1].tactic@ == "command-and-control"@ && r@[2].id
            == ids.2 && r@[2].technique_id@ == "T1021"@ && r@[2].name@ == "Remote Services"@
            && r@[2].tactic@ == "lateral-movement"@ && r@[0].description is None && r@[0].url is None
            && r@[1].description is None && r@[1].url is None && r@[2].description is None
            && r@[2].url is None,
{
    let mut v: Vec<XdrMitreTechnique> = Vec::new();
    if existing != 0 {
        return v;
    }
    let (a, b, c) = ids;
    v.push(
        XdrMitreTechnique {
            id: a,
            technique_id: String::from_str("T1059"),
            name: String::from_str("Command and Scripting Interpreter"),
            tactic: String::from_str("execution"),
            description: None,
            url: None,
        },
    );
    v.push(
        XdrMitreTechnique {
            id: b,
            technique_id: String::from_str("T1071"),
            name: String::from_str("Application Layer Protocol"),
            tactic: String::from_str("command-and-control"),
            description: None,
            url: None,
        },
    );
    v.push(
        XdrMitreTechnique {
            id: c,
            technique_id: String::from_str("T1021"),
            name: String::from_str("Remote Services"),
            tactic: String::from_str("lateral-movement"),
            description: None,
            url: None,
        },
    );
    v
}

/// The playbooks seeded while none exist (none otherwise), each enabled and
/// with no steps or triggers.
pub fn seed_playbooks(existing: i64, ids: (String, String, String), now: &str) -> (r: Vec<XdrPlaybookRecord>)
    ensures
        existing != 0 ==> r@.len() == 0,
        existing == 0 ==> r@.len() == 3 && r@[0].id == ids.0 && r@[0].name@ == "Isolate Host"@
            && r@[0].playbook_kind@ == "response"@ && r@[1].id == ids.1 && r@[1].name@
            == "Collect Forensics"@ && r@[1].playbook_kind@ == "investigation"@ && r@[2].id == ids.2
            && r@[2].name@ == "Reset Credentials"@ && r@[2].playbook_kind@ == "remediation"@
            && forall|i: int|
            0 <= i < 3 ==> #[trigger] r@[i].enabled && r@[i].steps@.len() == 0 && r@[i].triggers@.len()
                == 0 && r@[i].created_at@ == now@ && r@[i].updated_at@ == now@,
{
    let mut v: Vec<XdrPlaybookRecord> = Vec::new();
    if existing != 0 {
        return v;
    }
    let (a, b, c) = ids;
    v.push(seed_playbook(a, "Isolate Host", "response", now));
    v.push(seed_playbook(b, "Collect Forensics", "investigation", now));
    v.push(seed_playbook(c, "Reset Credentials", "remediation", now));
    v
}

fn seed_playbook(id: String, name: &str, kind: &str, now: &str) -> (r: XdrPlaybookRecord)
    ensures
        r.id == id,
        r.name@ == name@,
        r.playbook_kind@ == kind@,
        r.enabled,
        r.steps@.len() == 0,
        r.triggers@.len() == 0,
        r.created_at@ == now@,
        r.updated_at@ == now@,
{
    XdrPlaybookRecord {
        id,
        name: String::from_str(name),
        playbook_kind: String::from_str(kind),
        enabled: true,
        steps: Vec::new(),
        triggers: Vec::new(),
        created_at: String::from_str(now),
        updated_at: String::from_str(now),
    }
}

} // verus!
