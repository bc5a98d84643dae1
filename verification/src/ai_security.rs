use vstd::prelude::*;

use crate::json::{fields_map, object_map, JsonFields, JsonNumber, JsonValue};
use crate::models::DbError;
use crate::tally::{count_high, count_of, count_status, tally_high, tally_status, HasSeverity, HasStatus};
use crate::text::{copy_opt_text, or_text, text_or};

verus! {

pub struct AiCopilotQueryRecord {
    pub id: String,
    pub device_id: Option<String>,
    pub user_id: Option<String>,
    pub session_id: Option<String>,
    pub query_text: String,
    pub status: String,
    pub created_at: String,
}

pub struct AiCopilotResponseRecord {
    pub id: String,
    pub query_id: String,
    pub response_text: String,
    pub model_id: String,
    pub tokens_used: u32,
    pub latency_ms: u32,
    pub created_at: String,
}

pub struct AiCopilotQueryResult {
    pub query: AiCopilotQueryRecord,
    pub response: AiCopilotResponseRecord,
}

pub struct AiInvestigationRecord {
    pub id: String,
    pub device_id: Option<String>,
    pub title: String,
    pub description: Option<String>,
    pub status: String,
    pub severity: String,
    pub priority: String,
    pub owner: Option<String>,
    pub source: String,
    pub opened_at: String,
    pub closed_at: Option<String>,
    pub created_at: String,
    pub updated_at: String,
}

pub struct AiInvestigationArtifactRecord {
    pub id: String,
    pub investigation_id: String,
    pub artifact_kind: String,
    pub name: String,
    pub uri: Option<String>,
    pub collected_at: String,
}

pub struct AiInvestigationTimelineRecord {
    pub id: String,
    pub investigation_id: String,
    pub event_kind: String,
    pub title: String,
    pub description: Option<String>,
    pub actor: Option<String>,
    pub occurred_at: String,
}

pub struct AiKgNodeRecord {
    pub id: String,
    pub device_id: Option<String>,
    pub node_kind: String,
    pub label: String,
    pub entity_ref: Option<String>,
}

pub struct AiPlaybookSuggestionRecord {
    pub id: String,
    pub device_id: Option<String>,
    pub investigation_id: Option<String>,
    pub name: String,
    pub playbook_kind: String,
    pub status: String,
    pub generated_at: String,
}

pub struct AiPolicySuggestionRecord {
    pub id: String,
    pub device_id: Option<String>,
    pub investigation_id: Option<String>,
    pub policy_kind: String,
    pub title: String,
    pub status: String,
    pub rationale: Option<String>,
    pub generated_at: String,
}

pub struct AiIntelReportRecord {
    pub id: String,
    pub device_id: Option<String>,
    pub report_kind: String,
    pub title: String,
    pub summary: Option<String>,
    pub published_at: String,
}

pub struct AiExecutiveReportRecord {
    pub id: String,
    pub report_kind: String,
    pub title: String,
    pub summary: Option<String>,
    pub period_start: Option<String>,
    pub period_end: Option<String>,
    pub published_at: String,
}

pub struct AiRiskScoreRecord {
    pub id: String,
    pub device_id: Option<String>,
    pub scope_kind: String,
    pub risk_score: u8,
    pub risk_level: String,
    pub evaluated_at: String,
}

pub struct AiTelemetrySnapshot {
    pub id: String,
    pub device_id: String,
    pub investigation_count: u32,
    pub threat_count: u32,
    pub suggestion_count: u32,
    pub kg_node_count: u32,
    pub reported_at: String,
}

pub struct InvestigationsSummary {
    pub investigation_count: i64,
    pub open_investigations: i64,
    pub high_severity: i64,
    pub investigations: Vec<AiInvestigationRecord>,
    pub artifacts: Vec<AiInvestigationArtifactRecord>,
    pub timelines: Vec<AiInvestigationTimelineRecord>,
}

pub struct ReportsSummary {
    pub intel_count: i64,
    pub executive_count: i64,
    pub intel_reports: Vec<AiIntelReportRecord>,
    pub executive_reports: Vec<AiExecutiveReportRecord>,
}

pub struct PlaybooksSummary {
    pub suggestion_count: i64,
    pub pending_suggestions: i64,
    pub suggestions: Vec<AiPlaybookSuggestionRecord>,
}

pub struct PoliciesSummary {
    pub suggestion_count: i64,
    pub pending_suggestions: i64,
    pub suggestions: Vec<AiPolicySuggestionRecord>,
}

pub struct IntelligenceSummary {
    pub report_count: i64,
    pub reports: Vec<AiIntelReportRecord>,
}

pub struct AiCopilotQueryInput {
    pub query_text: String,
    pub session_id: Option<String>,
    pub context: Option<JsonValue>,
    pub details: Option<JsonValue>,
}

pub struct AiInvestigationInput {
    pub device_id: Option<String>,
    pub title: String,
    pub description: Option<String>,
    pub status: Option<String>,
    pub severity: Option<String>,
    pub priority: Option<String>,
    pub owner: Option<String>,
    pub source: Option<String>,
    pub tags: Option<Vec<String>>,
    pub details: Option<JsonValue>,
    pub opened_at: Option<String>,
}

pub struct AiKgNodeInput {
    pub node_kind: Option<String>,
    pub label: String,
    pub entity_ref: Option<String>,
    pub properties: Option<JsonValue>,
}

pub struct AiGenerateInput {
    pub device_id: Option<String>,
    pub investigation_id: Option<String>,
    pub context: Option<String>,
    pub threat_ref: Option<String>,
    pub details: Option<JsonValue>,
}

/// The prompt fingerprint of a byte string: start from 5381 and, for each
/// byte in order, multiply by 33 and add the byte, modulo 2^64.
pub open spec fn prompt_hash_value(bytes: Seq<u8>) -> u64
    decreases bytes.len(),
{
    if bytes.len() == 0 {
        5381
    } else {
        ((prompt_hash_value(bytes.drop_last()) as nat * 33 + bytes.last() as nat)
            % 0x1_0000_0000_0000_0000) as u64
    }
}

proof fn lemma_hash_step(h: u64, b: u8)
    ensures
        vstd::wrapping::u64_specs::wrapping_add(vstd::wrapping::u64_specs::wrapping_mul(h, 33), b as u64)
            == ((h as nat * 33 + b as nat) % 0x1_0000_0000_0000_0000) as u64,
{
    let m: int = 0x1_0000_0000_0000_0000;
    let p: int = h as int * 33;
    let q: int = p % m;
    assert(0 <= q < m) by (nonlinear_arith)
        requires
            m > 0,
            q == p % m,
    ;
    assert(p == (p / m) * m + q) by (nonlinear_arith)
        requires
            m > 0,
            q == p % m,
    ;
    if q + b > u64::MAX {
        assert((p + b) % m == q + b - m) by (nonlinear_arith)
            requires
                m > 0,
                p == (p / m) * m + q,
                0 <= q + b - m < m,
        ;
    } else {
        assert((p + b) % m == q + b) by (nonlinear_arith)
            requires
                m > 0,
                p == (p / m) * m + q,
                0 <= q + b < m,
        ;
    }
}

/// The prompt fingerprint of a text's UTF-8 bytes (see `prompt_hash_value`).
pub fn md5_hash(input: &str) -> (r: u64)
    ensures
        r == prompt_hash_value(vstd::utf8::encode_utf8(input@)),
{
    let bytes = input.as_bytes();
    let mut hash: u64 = 5381;
    let mut i: usize = 0;
    while i < bytes.len()
        invariant
            i <= bytes@.len(),
            bytes@ == vstd::utf8::encode_utf8(input@),
            hash == prompt_hash_value(bytes@.take(i as int)),
        decreases bytes@.len() - i,
    {
        proof {
            assert(bytes@.take(i + 1).drop_last() =~= bytes@.take(i as int));
            assert(bytes@.take(i + 1).last() == bytes@[i as int]);
            lemma_hash_step(hash, bytes@[i as int]);
        }
        hash = hash.wrapping_mul(33).wrapping_add(bytes[i] as u64);
        i = i + 1;
    }
    assert(bytes@.take(i as int) =~= bytes@);
    hash
}

/// Lowercase hexadecimal notation without leading zeros.
pub open spec fn hex_text(n: nat) -> Seq<char>
    decreases n,
{
    if n < 16 {
        seq![crate::enrollment::hex_char(n as int)]
    } else {
        hex_text(n / 16) + seq![crate::enrollment::hex_char((n % 16) as int)]
    }
}

/// The lowercase hexadecimal notation of a number.
pub fn lower_hex(n: u64) -> (r: String)
    ensures
        r@ == hex_text(n as nat),
    decreases n,
{
    if n < 16 {
        String::from_str(crate::enrollment::hex_digit(n as u8))
    } else {
        let head = lower_hex(n / 16);
        head.concat(crate::enrollment::hex_digit((n % 16) as u8))
    }
}

/// The fingerprint under which a copilot prompt is audited: its hash in
/// lowercase hexadecimal.
pub fn prompt_hash(query_text: &str) -> (r: String)
    ensures
        r@ == hex_text(prompt_hash_value(vstd::utf8::encode_utf8(query_text@)) as nat),
{
    lower_hex(md5_hash(query_text))
}

/// The token estimate of a text: a quarter of its UTF-8 length, the length
/// taken to 32 bits first.
pub open spec fn token_estimate_of(s: Seq<char>) -> i64 {
    ((vstd::utf8::encode_utf8(s).len() as u32) / 4) as i64
}

/// Estimates the tokens of a text as the prompt audit records them.
pub fn token_estimate(text: &str) -> (r: i64)
    ensures
        r == token_estimate_of(text@),
{
    let n: usize = text.as_bytes().len();
    ((n as u32) / 4) as i64
}

/// The copilot's answer to a query.
pub open spec fn copilot_answer(query_text: Seq<char>) -> Seq<char> {
    "Analysis for: "@ + query_text
        + ". Correlated threats and investigation context were evaluated. Recommended next steps: review detections, validate identity signals, and isolate affected endpoints if confidence exceeds threshold."@
}

fn opt_text(v: Option<&str>) -> (r: Option<String>)
    ensures
        match v {
            Some(s) => r matches Some(t) && t@ == s@,
            None => r is None,
        },
{
    match v {
        Some(s) => Some(String::from_str(s)),
        None => None,
    }
}

/// A copilot query and its answer: the query recorded as `completed`, the
/// answer from the `wiresentinel-copilot` model with no tokens counted and a
/// latency of 120 ms.
pub fn copilot_result(
    query_id: String,
    response_id: String,
    device_id: Option<&str>,
    user_id: Option<&str>,
    input: &AiCopilotQueryInput,
    now: String,
) -> (r: AiCopilotQueryResult)
    ensures
        r.query.id == query_id,
        match device_id {
            Some(d) => r.query.device_id matches Some(t) && t@ == d@,
            None => r.query.device_id is None,
        },
        match user_id {
            Some(u) => r.query.user_id matches Some(t) && t@ == u@,
            None => r.query.user_id is None,
        },
        r.query.session_id == input.session_id,
        r.query.query_text == input.query_text,
        r.query.status@ == "completed"@,
        r.query.created_at == now,
        r.response.id == response_id,
        r.response.query_id == query_id,
        r.response.response_text@ == copilot_answer(input.query_text@),
        r.response.model_id@ == "wiresentinel-copilot"@,
        r.response.tokens_used == 0,
        r.response.latency_ms == 120,
        r.response.created_at == now,
{
    let response_text = String::from_str("Analysis for: ").concat(input.query_text.as_str()).concat(
        ". Correlated threats and investigation context were evaluated. Recommended next steps: review detections, validate identity signals, and isolate affected endpoints if confidence exceeds threshold.",
    );
    AiCopilotQueryResult {
        query: AiCopilotQueryRecord {
            id: query_id.clone(),
            device_id: opt_text(device_id),
            user_id: opt_text(user_id),
            session_id: copy_opt_text(&input.session_id),
            query_text: input.query_text.clone(),
            status: String::from_str("completed"),
            created_at: now.clone(),
        },
        response: AiCopilotResponseRecord {
            id: response_id,
            query_id,
            response_text,
            model_id: String::from_str("wiresentinel-copilot"),
            tokens_used: 0,
            latency_ms: 120,
            created_at: now,
        },
    }
}

fn text_default(v: &Option<String>, d: &str) -> (r: String)
    ensures
        r@ == text_or(*v, d@),
{
    or_text(copy_opt_text(v), d)
}

/// An investigation as opened: status `open`, severity and priority
/// `medium`, source `ai` unless told, opened now unless told, not closed.
pub fn investigation_record(id: String, input: &AiInvestigationInput, now: String) -> (r: AiInvestigationRecord)
    ensures
        r.id == id,
        r.device_id == input.device_id,
        r.title == input.title,
        r.description == input.description,
        r.status@ == text_or(input.status, "open"@),
        r.severity@ == text_or(input.severity, "medium"@),
        r.priority@ == text_or(input.priority, "medium"@),
        r.owner == input.owner,
        r.source@ == text_or(input.source, "ai"@),
        r.opened_at@ == text_or(input.opened_at, now@),
        r.closed_at is None,
        r.created_at == now,
        r.updated_at == now,
{
    AiInvestigationRecord {
        id,
        device_id: copy_opt_text(&input.device_id),
        title: input.title.clone(),
        description: copy_opt_text(&input.description),
        status: text_default(&input.status, "open"),
        severity: text_default(&input.severity, "medium"),
        priority: text_default(&input.priority, "medium"),
        owner: copy_opt_text(&input.owner),
        source: text_default(&input.source, "ai"),
        opened_at: text_default(&input.opened_at, now.as_str()),
        closed_at: None,
        created_at: now.clone(),
        updated_at: now,
    }
}

/// The first timeline entry of an investigation: `opened`, titled
/// `Investigation opened`, by its owner, at its opening time.
pub fn opening_timeline(id: String, investigation: &AiInvestigationRecord) -> (r: AiInvestigationTimelineRecord)
    ensures
        r.id == id,
        r.investigation_id == investigation.id,
        r.event_kind@ == "opened"@,
        r.title@ == "Investigation opened"@,
        r.description == investigation.description,
        r.actor == investigation.owner,
        r.occurred_at == investigation.opened_at,
{
    AiInvestigationTimelineRecord {
        id,
        investigation_id: investigation.id.clone(),
        event_kind: String::from_str("opened"),
        title: String::from_str("Investigation opened"),
        description: copy_opt_text(&investigation.description),
        actor: copy_opt_text(&investigation.owner),
        occurred_at: investigation.opened_at.clone(),
    }
}

/// The stored text of an investigation's tags: none unless told.
pub fn tags_text(tags: &Option<Vec<String>>) -> (r: String)
    ensures
        r@ == crate::json::string_list_json(
            match *tags {
                Some(t) => t@,
                None => Seq::empty(),
            },
        ),
{
    match tags {
        Some(t) => crate::json::string_list_text(t),
        None => {
            let empty: Vec<String> = Vec::new();
            crate::json::string_list_text(&empty)
        },
    }
}

/// An investigation looked up by id: its stored columns, or `NotFound` with
/// `investigation <id>` where there is none.
pub fn investigation_from_row(
    id: &str,
    row: Option<
        (
            String,
            Option<String>,
            String,
            Option<String>,
            String,
            String,
            String,
            Option<String>,
            String,
            String,
            Option<String>,
            String,
            String,
        ),
    >,
) -> (r: Result<AiInvestigationRecord, DbError>)
    ensures
        match row {
            None => r matches Err(DbError::NotFound(m)) && m@ == "investigation "@ + id@,
            Some(t) => r matches Ok(x) && x.id == t.0 && x.device_id == t.1 && x.title == t.2
                && x.description == t.3 && x.status == t.4 && x.severity == t.5 && x.priority == t.6
                && x.owner == t.7 && x.source == t.8 && x.opened_at == t.9 && x.closed_at == t.10
                && x.created_at == t.11 && x.updated_at == t.12,
        },
{
    match row {
        None => Err(DbError::NotFound(String::from_str("investigation ").concat(id))),
        Some(t) => {
            let (
                id,
                device_id,
                title,
                description,
                status,
                severity,
                priority,
                owner,
                source,
                opened_at,
                closed_at,
                created_at,
                updated_at,
            ) = t;
            Ok(
                AiInvestigationRecord {
                    id,
                    device_id,
                    title,
                    description,
                    status,
                    severity,
                    priority,
                    owner,
                    source,
                    opened_at,
                    closed_at,
                    created_at,
                    updated_at,
                },
            )
        },
    }
}

impl HasStatus for AiInvestigationRecord {
    open spec fn status_view(&self) -> Seq<char> {
        self.status@
    }

    fn status_text(&self) -> (r: &str) {
        self.status.as_str()
    }
}

impl HasSeverity for AiInvestigationRecord {
    open spec fn severity_view(&self) -> Seq<char> {
        self.severity@
    }

    fn severity_text(&self) -> (r: &str) {
        self.severity.as_str()
    }
}

impl HasStatus for AiPlaybookSuggestionRecord {
    open spec fn status_view(&self) -> Seq<char> {
        self.status@
    }

    fn status_text(&self) -> (r: &str) {
        self.status.as_str()
    }
}

impl HasStatus for AiPolicySuggestionRecord {
    open spec fn status_view(&self) -> Seq<char> {
        self.status@
    }

    fn status_text(&self) -> (r: &str) {
        self.status.as_str()
    }
}

impl HasSeverity for AiRiskScoreRecord {
    open spec fn severity_view(&self) -> Seq<char> {
        self.risk_level@
    }

    fn severity_text(&self) -> (r: &str) {
        self.risk_level.as_str()
    }
}

/// Investigation figures: how many, how many open, how many high or critical.
pub fn investigations_summary(
    investigations: Vec<AiInvestigationRecord>,
    artifacts: Vec<AiInvestigationArtifactRecord>,
    timelines: Vec<AiInvestigationTimelineRecord>,
) -> (r: InvestigationsSummary)
    requires
        investigations@.len() <= i64::MAX,
    ensures
        r.investigation_count == investigations@.len(),
        r.open_investigations == count_status(investigations@, "open"@),
        r.high_severity == count_high(investigations@),
        r.investigations@ == investigations@,
        r.artifacts@ == artifacts@,
        r.timelines@ == timelines@,
{
    InvestigationsSummary {
        investigation_count: count_of(&investigations),
        open_investigations: tally_status(&investigations, "open"),
        high_severity: tally_high(&investigations),
        investigations,
        artifacts,
        timelines,
    }
}

/// Report figures: how many intelligence and executive reports.
pub fn reports_summary(intel_reports: Vec<AiIntelReportRecord>, executive_reports: Vec<AiExecutiveReportRecord>) -> (r:
    ReportsSummary)
    requires
        intel_reports@.len() <= i64::MAX,
        executive_reports@.len() <= i64::MAX,
    ensures
        r.intel_count == intel_reports@.len(),
        r.executive_count == executive_reports@.len(),
        r.intel_reports@ == intel_reports@,
        r.executive_reports@ == executive_reports@,
{
    ReportsSummary {
        intel_count: count_of(&intel_reports),
        executive_count: count_of(&executive_reports),
        intel_reports,
        executive_reports,
    }
}

/// Intelligence figures: how many reports.
pub fn intelligence_summary(reports: Vec<AiIntelReportRecord>) -> (r: IntelligenceSummary)
    requires
        reports@.len() <= i64::MAX,
    ensures
        r.report_count == reports@.len(),
        r.reports@ == reports@,
{
    IntelligenceSummary { report_count: count_of(&reports), reports }
}

/// Playbook suggestion figures: how many, how many still `suggested`.
pub fn playbooks_summary(suggestions: Vec<AiPlaybookSuggestionRecord>) -> (r: PlaybooksSummary)
    requires
        suggestions@.len() <= i64::MAX,
    ensures
        r.suggestion_count == suggestions@.len(),
        r.pending_suggestions == count_status(suggestions@, "suggested"@),
        r.suggestions@ == suggestions@,
{
    PlaybooksSummary {
        suggestion_count: count_of(&suggestions),
        pending_suggestions: tally_status(&suggestions, "suggested"),
        suggestions,
    }
}

/// Policy suggestion figures: how many, how many still `suggested`.
pub fn policies_summary(suggestions: Vec<AiPolicySuggestionRecord>) -> (r: PoliciesSummary)
    requires
        suggestions@.len() <= i64::MAX,
    ensures
        r.suggestion_count == suggestions@.len(),
        r.pending_suggestions == count_status(suggestions@, "suggested"@),
        r.suggestions@ == suggestions@,
{
    PoliciesSummary {
        suggestion_count: count_of(&suggestions),
        pending_suggestions: tally_status(&suggestions, "suggested"),
        suggestions,
    }
}

/// How many risk scores are at a high or critical level.
pub fn high_risk_count(scores: &Vec<AiRiskScoreRecord>) -> (r: i64)
    requires
        scores@.len() <= i64::MAX,
    ensures
        r == count_high(scores@),
{
    tally_high(scores)
}

/// The rule a detection suggestion proposes for a context (`general` unless
/// told): its title and its logic.
pub fn detection_rule(context: &Option<String>) -> (r: (String, String))
    ensures
        r.0@ == "AI suggested detection for "@ + text_or(*context, "general"@),
        r.1@ == "event.severity >= 'medium' AND correlation.confidence >= 0.7 AND context == '"@
            + text_or(*context, "general"@) + "'"@,
{
    let c = text_default(context, "general");
    let title = String::from_str("AI suggested detection for ").concat(c.as_str());
    let logic = String::from_str(
        "event.severity >= 'medium' AND correlation.confidence >= 0.7 AND context == '",
    ).concat(c.as_str()).concat("'");
    (title, logic)
}

/// A response playbook suggested for a context (`incident` unless told).
pub fn playbook_suggestion(id: String, input: &AiGenerateInput, now: String) -> (r: AiPlaybookSuggestionRecord)
    ensures
        r.id == id,
        r.device_id == input.device_id,
        r.investigation_id == input.investigation_id,
        r.name@ == "AI response playbook — "@ + text_or(input.context, "incident"@),
        r.playbook_kind@ == "response"@,
        r.status@ == "suggested"@,
        r.generated_at == now,
{
    let c = text_default(&input.context, "incident");
    AiPlaybookSuggestionRecord {
        id,
        device_id: copy_opt_text(&input.device_id),
        investigation_id: copy_opt_text(&input.investigation_id),
        name: String::from_str("AI response playbook — ").concat(c.as_str()),
        playbook_kind: String::from_str("response"),
        status: String::from_str("suggested"),
        generated_at: now,
    }
}

/// An access policy suggested for a context (`access` unless told), with the
/// reason it was generated.
pub fn policy_suggestion(id: String, input: &AiGenerateInput, now: String) -> (r: AiPolicySuggestionRecord)
    ensures
        r.id == id,
        r.device_id == input.device_id,
        r.investigation_id == input.investigation_id,
        r.policy_kind@ == "access"@,
        r.title@ == "AI policy recommendation — "@ + text_or(input.context, "access"@),
        r.status@ == "suggested"@,
        r.rationale matches Some(t) && t@ == "Generated from AI correlation context: "@ + text_or(
            input.context,
            "access"@,
        ),
        r.generated_at == now,
{
    let c = text_default(&input.context, "access");
    AiPolicySuggestionRecord {
        id,
        device_id: copy_opt_text(&input.device_id),
        investigation_id: copy_opt_text(&input.investigation_id),
        policy_kind: String::from_str("access"),
        title: String::from_str("AI policy recommendation — ").concat(c.as_str()),
        status: String::from_str("suggested"),
        rationale: Some(String::from_str("Generated from AI correlation context: ").concat(c.as_str())),
        generated_at: now,
    }
}

fn one_member(key: &str, value: JsonValue) -> (r: JsonValue)
    ensures
        object_map(r) == Some(Map::<Seq<char>, JsonValue>::empty().insert(key@, value)),
{
    let r = JsonValue::Object(JsonFields::Field(String::from_str(key), Box::new(value), Box::new(JsonFields::Empty)));
    proof {
        reveal_with_fuel(fields_map, 2);
    }
    r
}

/// The policy document a suggestion proposes for a context (`access` unless
/// told): `effect` is `deny`, `scope` the context, and `conditions` require a
/// `risk_score` of at least (`gte`) 70.
pub fn suggested_policy(context: &Option<String>) -> (r: JsonValue)
    ensures
        object_map(r) matches Some(m) && m.dom() == set!["effect"@, "scope"@, "conditions"@] && (
        m["effect"@] matches JsonValue::String(e) && e@ == "deny"@) && (m["scope"@] matches JsonValue::String(
            s,
        ) && s@ == text_or(*context, "access"@)) && (object_map(m["conditions"@]) matches Some(c)
            && c.dom() == set!["risk_score"@] && (object_map(c["risk_score"@]) matches Some(g) && g
            == Map::<Seq<char>, JsonValue>::empty().insert(
            "gte"@,
            JsonValue::Number(JsonNumber::PosInt(70)),
        ))),
{
    let gte = one_member("gte", JsonValue::Number(JsonNumber::PosInt(70)));
    let conditions = one_member("risk_score", gte);
    let c = text_default(context, "access");
    let f = JsonFields::Field(String::from_str("conditions"), Box::new(conditions), Box::new(JsonFields::Empty));
    let f = JsonFields::Field(String::from_str("scope"), Box::new(JsonValue::String(c)), Box::new(f));
    let f = JsonFields::Field(String::from_str("effect"), Box::new(JsonValue::String(String::from_str("deny"))), Box::new(f));
    let r = JsonValue::Object(f);
    proof {
        reveal_with_fuel(fields_map, 4);
        reveal_strlit("effect");
        reveal_strlit("scope");
        reveal_strlit("conditions");
        assert("effect"@ != "scope"@ && "effect"@ != "conditions"@ && "scope"@ != "conditions"@) by {
            assert("effect"@.len() != "scope"@.len());
            assert("effect"@.len() != "conditions"@.len());
            assert("scope"@.len() != "conditions"@.len());
        }
        let m = fields_map(f);
        assert(m.dom() =~= set!["effect"@, "scope"@, "conditions"@]);
        let cm = object_map(conditions)->0;
        assert(cm.dom() =~= set!["risk_score"@]);
    }
    r
}

/// An investigation reported by an agent, attributed to the reporting
/// device unless it names one.
pub fn investigation_for_device(input: AiInvestigationInput, device_id: &str) -> (r: AiInvestigationInput)
    ensures
        match input.device_id {
            Some(d) => r.device_id == Some(d),
            None => r.device_id matches Some(d) && d@ == device_id@,
        },
        r.title == input.title,
        r.description == input.description,
        r.status == input.status,
        r.severity == input.severity,
        r.priority == input.priority,
        r.owner == input.owner,
        r.source == input.source,
        r.tags == input.tags,
        r.details == input.details,
        r.opened_at == input.opened_at,
{
    let mut input = input;
    if input.device_id.is_none() {
        input.device_id = Some(String::from_str(device_id));
    }
    input
}

/// A knowledge-graph node as stored: kind `entity` unless told.
pub fn kg_node_record(id: String, device_id: &str, input: &AiKgNodeInput) -> (r: AiKgNodeRecord)
    ensures
        r.id == id,
        r.device_id matches Some(d) && d@ == device_id@,
        r.node_kind@ == text_or(input.node_kind, "entity"@),
        r.label == input.label,
        r.entity_ref == input.entity_ref,
{
    AiKgNodeRecord {
        id,
        device_id: Some(String::from_str(device_id)),
        node_kind: text_default(&input.node_kind, "entity"),
        label: input.label.clone(),
        entity_ref: copy_opt_text(&input.entity_ref),
    }
}

/// The snapshot one AI telemetry report records: how many investigations,
/// threats and graph nodes it carried, the device's stored number of
/// detection suggestions (kept to 32 bits), reported now unless told.
pub fn telemetry_snapshot(
    id: String,
    device_id: &str,
    investigation_count: usize,
    threat_count: usize,
    suggestion_count: i64,
    kg_node_count: usize,
    reported_at: Option<String>,
    now: &str,
) -> (r: AiTelemetrySnapshot)
    requires
        investigation_count <= u32::MAX,
        threat_count <= u32::MAX,
        kg_node_count <= u32::MAX,
    ensures
        r.id == id,
        r.device_id@ == device_id@,
        r.investigation_count == investigation_count,
        r.threat_count == threat_count,
        r.suggestion_count == suggestion_count as u32,
        r.kg_node_count == kg_node_count,
        r.reported_at@ == text_or(reported_at, now@),
{
    AiTelemetrySnapshot {
        id,
        device_id: String::from_str(device_id),
        investigation_count: investigation_count as u32,
        threat_count: threat_count as u32,
        suggestion_count: suggestion_count as u32,
        kg_node_count: kg_node_count as u32,
        reported_at: or_text(reported_at, now),
    }
}

/// The records an empty AI workspace is seeded with.
pub struct AiSeed {
    pub investigation: AiInvestigationRecord,
    pub user_node: AiKgNodeRecord,
    pub host_node: AiKgNodeRecord,
    pub intel_report: AiIntelReportRecord,
    pub executive_report: AiExecutiveReportRecord,
    pub risk_score: AiRiskScoreRecord,
}

/// What the seed records hold (see `seed_defaults`).
pub open spec fn is_ai_seed(s: AiSeed, ids: (String, String, String, String, String, String), now: Seq<char>) -> bool {
    &&& s.investigation.id == ids.0
    &&& s.investigation.title@ == "Suspicious lateral movement"@
    &&& (s.investigation.description matches Some(d) && d@ == "AI-correlated identity and network signals"@)
    &&& s.investigation.status@ == "open"@
    &&& s.investigation.severity@ == "high"@
    &&& s.investigation.priority@ == "high"@
    &&& (s.investigation.owner matches Some(o) && o@ == "soc-lead"@)
    &&& s.investigation.source@ == "ai"@
    &&& s.investigation.opened_at@ == now
    &&& s.investigation.created_at@ == now
    &&& s.investigation.updated_at@ == now
    &&& s.investigation.device_id is None
    &&& s.investigation.closed_at is None
    &&& s.user_node.id == ids.1
    &&& s.user_node.device_id is None
    &&& s.user_node.node_kind@ == "user"@
    &&& s.user_node.label@ == "compromised-user"@
    &&& (s.user_node.entity_ref matches Some(e) && e@ == "user:alice"@)
    &&& s.host_node.id == ids.2
    &&& s.host_node.device_id is None
    &&& s.host_node.node_kind@ == "host"@
    &&& s.host_node.label@ == "finance-server"@
    &&& (s.host_node.entity_ref matches Some(e) && e@ == "host:fin-01"@)
    &&& s.intel_report.id == ids.3
    &&& s.intel_report.device_id is None
    &&& s.intel_report.report_kind@ == "threat_intel"@
    &&& s.intel_report.title@ == "Weekly AI threat brief"@
    &&& (s.intel_report.summary matches Some(t) && t@ == "Summarized correlated campaigns"@)
    &&& s.intel_report.published_at@ == now
    &&& s.executive_report.id == ids.4
    &&& s.executive_report.report_kind@ == "executive"@
    &&& s.executive_report.title@ == "Security posture executive summary"@
    &&& (s.executive_report.summary matches Some(t) && t@ == "Risk trend and top AI investigations"@)
    &&& (s.executive_report.period_start matches Some(p) && p@ == now)
    &&& (s.executive_report.period_end matches Some(p) && p@ == now)
    &&& s.executive_report.published_at@ == now
    &&& s.risk_score.id == ids.5
    &&& s.risk_score.device_id is None
    &&& s.risk_score.scope_kind@ == "organization"@
    &&& s.risk_score.risk_score == 62
    &&& s.risk_score.risk_level@ == "medium"@
    &&& s.risk_score.evaluated_at@ == now
}

/// Whether seeding writes its records, given how many investigations exist:
/// only where there is none.
pub open spec fn seeds(existing_investigations: int) -> bool {
    existing_investigations == 0
}

/// How many investigations exist after a seeding: the seed's one
/// investigation where it wrote its records, the same number otherwise.
pub open spec fn investigations_after_seeding(existing_investigations: int) -> int {
    if seeds(existing_investigations) {
        existing_investigations + 1
    } else {
        existing_investigations
    }
}

/// Seeding twice leaves what seeding once leaves: the second seeding sees at
/// least one investigation (the seed's own, or those there before) and writes
/// nothing.
pub proof fn lemma_seeding_twice_is_seeding_once(existing_investigations: int)
    requires
        existing_investigations >= 0,
    ensures
        !seeds(investigations_after_seeding(existing_investigations)),
        investigations_after_seeding(investigations_after_seeding(existing_investigations))
            == investigations_after_seeding(existing_investigations),
{
}

/// The seed records, only where no investigation exists yet: an open,
/// high-severity lateral-movement investigation owned by `soc-lead`, a user
/// and a host node, a weekly threat brief, an executive summary over the
/// current moment, and an organization risk of 62 (`medium`).
pub fn seed_defaults(existing_investigations: i64, ids: (String, String, String, String, String, String), now: &str) -> (r:
    Option<AiSeed>)
    ensures
        r is Some <==> seeds(existing_investigations as int),
        r matches Some(s) ==> is_ai_seed(s, ids, now@),
{
    if existing_investigations != 0 {
        return None;
    }
    let (inv_id, node_a, node_b, intel_id, exec_id, risk_id) = ids;
    Some(
        AiSeed {
            investigation: AiInvestigationRecord {
                id: inv_id,
                device_id: None,
                title: String::from_str("Suspicious lateral movement"),
                description: Some(String::from_str("AI-correlated identity and network signals")),
                status: String::from_str("open"),
                severity: String::from_str("high"),
                priority: String::from_str("high"),
                owner: Some(String::from_str("soc-lead")),
                source: String::from_str("ai"),
                opened_at: String::from_str(now),
                closed_at: None,
                created_at: String::from_str(now),
                updated_at: String::from_str(now),
            },
            user_node: AiKgNodeRecord {
                id: node_a,
                device_id: None,
                node_kind: String::from_str("user"),
                label: String::from_str("compromised-user"),
                entity_ref: Some(String::from_str("user:alice")),
            },
            host_node: AiKgNodeRecord {
                id: node_b,
                device_id: None,
                node_kind: String::from_str("host"),
                label: String::from_str("finance-server"),
                entity_ref: Some(String::from_str("host:fin-01")),
            },
            intel_report: AiIntelReportRecord {
                id: intel_id,
                device_id: None,
                report_kind: String::from_str("threat_intel"),
                title: String::from_str("Weekly AI threat brief"),
                summary: Some(String::from_str("Summarized correlated campaigns")),
                published_at: String::from_str(now),
            },
            executive_report: AiExecutiveReportRecord {
                id: exec_id,
                report_kind: String::from_str("executive"),
                title: String::from_str("Security posture executive summary"),
                summary: Some(String::from_str("Risk trend and top AI investigations")),
                period_start: Some(String::from_str(now)),
                period_end: Some(String::from_str(now)),
                published_at: String::from_str(now),
            },
            risk_score: AiRiskScoreRecord {
                id: risk_id,
                device_id: None,
                scope_kind: String::from_str("organization"),
                risk_score: 62,
                risk_level: String::from_str("medium"),
                evaluated_at: String::from_str(now),
            },
        },
    )
}

} // verus!
