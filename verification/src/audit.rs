use vstd::prelude::*;

use crate::json::JsonValue;
use crate::models::AuditEventRow;

verus! {

pub struct AuditEvent {
    pub id: String,
    pub source: String,
    pub actor: Option<String>,
    pub action: String,
    pub resource_type: Option<String>,
    pub resource_id: Option<String>,
    pub details: JsonValue,
    pub created_at: String,
}

pub struct IngestAuditEvent {
    pub source: String,
    pub actor: Option<String>,
    pub action: String,
    pub resource_type: Option<String>,
    pub resource_id: Option<String>,
    pub details: Option<JsonValue>,
}

pub struct AuditQuery {
    pub limit: Option<i64>,
    pub offset: Option<i64>,
    pub action: Option<String>,
    pub source: Option<String>,
}

/// How a listing of audit events is run: its SQL text, the filters bound in
/// order (action, then source, where present), then the limit and offset.
pub struct AuditListPlan {
    pub sql: String,
    pub action: Option<String>,
    pub source: Option<String>,
    pub limit: i64,
    pub offset: i64,
}

/// Page size of a listing: 100 when not given, held between 1 and 1000.
pub open spec fn page_limit(limit: Option<i64>) -> i64 {
    let l = match limit {
        Some(l) => l,
        None => 100,
    };
    if l < 1 {
        1
    } else if l > 1000 {
        1000
    } else {
        l
    }
}

/// Offset of a listing: 0 when not given or negative.
pub open spec fn page_offset(offset: Option<i64>) -> i64 {
    match offset {
        Some(o) => if o < 0 {
            0
        } else {
            o
        },
        None => 0,
    }
}

pub open spec fn listing_sql(has_action: bool, has_source: bool) -> Seq<char> {
    if has_action || has_source {
        "SELECT id, source, actor, action, resource_type, resource_id, details, created_at\n                 FROM audit_events WHERE 1=1"@
            + (if has_action {
            " AND action = ?"@
        } else {
            ""@
        }) + (if has_source {
            " AND source = ?"@
        } else {
            ""@
        }) + " ORDER BY created_at DESC LIMIT ? OFFSET ?"@
    } else {
        "SELECT id, source, actor, action, resource_type, resource_id, details, created_at\n                 FROM audit_events ORDER BY created_at DESC LIMIT ? OFFSET ?"@
    }
}

/// Plans the listing of audit events for a query, newest first.
pub fn list_plan(query: AuditQuery) -> (r: AuditListPlan)
    ensures
        r.sql@ == listing_sql(query.action is Some, query.source is Some),
        r.action == query.action,
        r.source == query.source,
        r.limit == page_limit(query.limit),
        r.offset == page_offset(query.offset),
{
    let limit = match query.limit {
        Some(l) => l,
        None => 100,
    };
    let limit = if limit < 1 {
        1
    } else if limit > 1000 {
        1000
    } else {
        limit
    };
    let offset = match query.offset {
        Some(o) => if o < 0 {
            0
        } else {
            o
        },
        None => 0,
    };
    let sql = if query.action.is_some() || query.source.is_some() {
        let mut sql = String::from_str(
            "SELECT id, source, actor, action, resource_type, resource_id, details, created_at\n                 FROM audit_events WHERE 1=1",
        );
        if query.action.is_some() {
            sql.append(" AND action = ?");
        } else {
            sql.append("");
        }
        if query.source.is_some() {
            sql.append(" AND source = ?");
        } else {
            sql.append("");
        }
        sql.append(" ORDER BY created_at DESC LIMIT ? OFFSET ?");
        sql
    } else {
        String::from_str(
            "SELECT id, source, actor, action, resource_type, resource_id, details, created_at\n                 FROM audit_events ORDER BY created_at DESC LIMIT ? OFFSET ?",
        )
    };
    AuditListPlan { sql, action: query.action, source: query.source, limit, offset }
}

/// The stored form of an ingested event: its fields, an empty object when it
/// carries no details, and the id and time it was given.
pub fn event_from_ingest(event: IngestAuditEvent, id: String, created_at: String) -> (r: AuditEvent)
    ensures
        r.id == id,
        r.source == event.source,
        r.actor == event.actor,
        r.action == event.action,
        r.resource_type == event.resource_type,
        r.resource_id == event.resource_id,
        r.created_at == created_at,
        match event.details {
            Some(d) => r.details == d,
            None => crate::json::object_map(r.details) == Some(Map::<Seq<char>, JsonValue>::empty()),
        },
{
    let details = match event.details {
        Some(d) => d,
        None => JsonValue::empty_object(),
    };
    AuditEvent {
        id,
        source: event.source,
        actor: event.actor,
        action: event.action,
        resource_type: event.resource_type,
        resource_id: event.resource_id,
        details,
        created_at,
    }
}

/// An event built from its stored row and its parsed details.
pub fn row_to_event(row: AuditEventRow, details: JsonValue) -> (r: AuditEvent)
    ensures
        r.id == row.id,
        r.source == row.source,
        r.actor == row.actor,
        r.action == row.action,
        r.resource_type == row.resource_type,
        r.resource_id == row.resource_id,
        r.details == details,
        r.created_at == row.created_at,
{
    AuditEvent {
        id: row.id,
        source: row.source,
        actor: row.actor,
        action: row.action,
        resource_type: row.resource_type,
        resource_id: row.resource_id,
        details,
        created_at: row.created_at,
    }
}

/// An event that a device reports is recorded under the source `agent:<device id>`.
pub fn agent_source(device_id: &str) -> (r: String)
    ensures
        r@ == "agent:"@ + device_id@,
{
    String::from_str("agent:").concat(device_id)
}

/// The audit record of a successful login.
pub fn login_event(username: String) -> (r: IngestAuditEvent)
    ensures
        r.source@ == "controller"@,
        r.actor == Some(username),
        r.action@ == "auth.login"@,
        r.resource_type matches Some(t) && t@ == "user"@,
        r.resource_id is None,
        r.details is None,
{
    IngestAuditEvent {
        source: String::from_str("controller"),
        actor: Some(username),
        action: String::from_str("auth.login"),
        resource_type: Some(String::from_str("user")),
        resource_id: None,
        details: None,
    }
}

/// Whether `pat` occurs in `text` starting at position `i`.
pub open spec fn occurs_at(text: Seq<char>, pat: Seq<char>, i: int) -> bool {
    0 <= i && i + pat.len() <= text.len() && text.subrange(i, i + pat.len()) == pat
}

/// A piece of text split as `a`, then `b`, then `c` holds `b` right after `a`.
proof fn lemma_occurs_after(a: Seq<char>, b: Seq<char>, c: Seq<char>)
    ensures
        occurs_at(a + b + c, b, a.len() as int),
{
    assert((a + b + c).subrange(a.len() as int, (a.len() + b.len()) as int) =~= b);
}

/// The placeholders of a listing follow the order in which its values are
/// bound (action, then source, then limit and offset): each filter that is
/// given has its placeholder, the action's comes before the source's when
/// both are given, and the text ends with the limit and offset placeholders.
pub proof fn lemma_placeholders_follow_binding(has_action: bool, has_source: bool)
    ensures
        has_action ==> exists|i: int| occurs_at(listing_sql(has_action, has_source), " AND action = ?"@, i),
        has_source ==> exists|j: int| occurs_at(listing_sql(has_action, has_source), " AND source = ?"@, j),
        has_action && has_source ==> exists|i: int, j: int|
            i + " AND action = ?"@.len() <= j && occurs_at(listing_sql(true, true), " AND action = ?"@, i)
                && occurs_at(listing_sql(true, true), " AND source = ?"@, j),
        listing_sql(has_action, has_source).len() >= " LIMIT ? OFFSET ?"@.len() && listing_sql(
            has_action,
            has_source,
        ).subrange(
            listing_sql(has_action, has_source).len() - " LIMIT ? OFFSET ?"@.len(),
            listing_sql(has_action, has_source).len() as int,
        ) == " LIMIT ? OFFSET ?"@,
{
    let head = "SELECT id, source, actor, action, resource_type, resource_id, details, created_at\n                 FROM audit_events WHERE 1=1"@;
    let act = " AND action = ?"@;
    let src = " AND source = ?"@;
    let tail = " ORDER BY created_at DESC LIMIT ? OFFSET ?"@;
    let plain = "SELECT id, source, actor, action, resource_type, resource_id, details, created_at\n                 FROM audit_events ORDER BY created_at DESC LIMIT ? OFFSET ?"@;
    let lim = " LIMIT ? OFFSET ?"@;
    reveal_strlit(" ORDER BY created_at DESC LIMIT ? OFFSET ?");
    reveal_strlit(" LIMIT ? OFFSET ?");
    reveal_strlit("");
    reveal_strlit(
        "SELECT id, source, actor, action, resource_type, resource_id, details, created_at\n                 FROM audit_events ORDER BY created_at DESC LIMIT ? OFFSET ?",
    );
    let sql = listing_sql(has_action, has_source);
    if has_action && has_source {
        assert(sql =~= head + act + (src + tail));
        lemma_occurs_after(head, act, src + tail);
        assert(sql =~= (head + act) + src + tail);
        lemma_occurs_after(head + act, src, tail);
        assert(occurs_at(sql, act, head.len() as int));
        assert(occurs_at(sql, src, (head + act).len() as int));
    } else if has_action {
        assert(sql =~= head + act + tail);
        lemma_occurs_after(head, act, tail);
        assert(occurs_at(sql, act, head.len() as int));
    } else if has_source {
        assert(sql =~= head + src + tail);
        lemma_occurs_after(head, src, tail);
        assert(occurs_at(sql, src, head.len() as int));
    }
    if has_action || has_source {
        assert(sql.subrange(sql.len() - lim.len(), sql.len() as int) =~= lim);
    } else {
        assert(sql.subrange(sql.len() - lim.len(), sql.len() as int) =~= lim);
    }
}

/// Every listing asks for between 1 and 1000 events, from a non-negative offset.
pub proof fn lemma_page_bounds(limit: Option<i64>, offset: Option<i64>)
    ensures
        1 <= page_limit(limit) <= 1000,
        page_offset(offset) >= 0,
{
}

} // verus!
