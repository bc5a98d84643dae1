use vstd::prelude::*;

use crate::text::{i64_text, u64_text};

verus! {

/// Counts that the controller reports about itself.
pub struct MetricsSnapshot {
    pub devices_active: i64,
    pub devices_pending: i64,
    pub devices_revoked: i64,
    pub policies_active: i64,
    pub audit_events_total: i64,
    pub enrollment_tokens_total: i64,
    pub uptime_seconds: u64,
}

/// Counters that an agent pushes about itself.
pub struct AgentMetricsPayload {
    pub device_id: String,
    pub active_tunnels: u32,
    pub active_transports: u32,
    pub blocked_requests: u64,
    pub dns_queries: u64,
    pub open_leak_incidents: u32,
    pub route_changes_24h: u64,
}

/// One gauge or counter in the Prometheus text format: its help line, its type
/// line and its sample line.
pub open spec fn prom_metric(name: Seq<char>, help: Seq<char>, kind: Seq<char>, value: Seq<char>) -> Seq<char> {
    "# HELP "@ + name + " "@ + help + "\n# TYPE "@ + name + " "@ + kind + "\n"@ + name + " "@ + value
        + "\n"@
}

/// The Prometheus exposition of a snapshot.
pub open spec fn prometheus_text(s: MetricsSnapshot) -> Seq<char> {
    prom_metric(
        "ws_controller_devices_active"@,
        "Active enrolled devices"@,
        "gauge"@,
        crate::text::int_decimal(s.devices_active as int),
    ) + prom_metric(
        "ws_controller_devices_pending"@,
        "Pending devices"@,
        "gauge"@,
        crate::text::int_decimal(s.devices_pending as int),
    ) + prom_metric(
        "ws_controller_devices_revoked"@,
        "Revoked devices"@,
        "gauge"@,
        crate::text::int_decimal(s.devices_revoked as int),
    ) + prom_metric(
        "ws_controller_policies_active"@,
        "Active policies"@,
        "gauge"@,
        crate::text::int_decimal(s.policies_active as int),
    ) + prom_metric(
        "ws_controller_audit_events_total"@,
        "Total audit events"@,
        "counter"@,
        crate::text::int_decimal(s.audit_events_total as int),
    ) + prom_metric(
        "ws_controller_uptime_seconds"@,
        "Controller uptime"@,
        "gauge"@,
        crate::text::decimal(s.uptime_seconds as nat),
    )
}

fn push_metric(out: &mut String, name: &str, help: &str, kind: &str, value: &str)
    ensures
        final(out)@ == old(out)@ + prom_metric(name@, help@, kind@, value@),
{
    out.append("# HELP ");
    out.append(name);
    out.append(" ");
    out.append(help);
    out.append("\n# TYPE ");
    out.append(name);
    out.append(" ");
    out.append(kind);
    out.append("\n");
    out.append(name);
    out.append(" ");
    out.append(value);
    out.append("\n");
    assert(final(out)@ =~= old(out)@ + prom_metric(name@, help@, kind@, value@));
}

/// Renders a snapshot in the Prometheus text format (enrollment tokens are not exported).
pub fn to_prometheus(snapshot: &MetricsSnapshot) -> (r: String)
    ensures
        r@ == prometheus_text(*snapshot),
{
    let mut out = String::new();
    push_metric(
        &mut out,
        "ws_controller_devices_active",
        "Active enrolled devices",
        "gauge",
        i64_text(snapshot.devices_active).as_str(),
    );
    push_metric(
        &mut out,
        "ws_controller_devices_pending",
        "Pending devices",
        "gauge",
        i64_text(snapshot.devices_pending).as_str(),
    );
    push_metric(
        &mut out,
        "ws_controller_devices_revoked",
        "Revoked devices",
        "gauge",
        i64_text(snapshot.devices_revoked).as_str(),
    );
    push_metric(
        &mut out,
        "ws_controller_policies_active",
        "Active policies",
        "gauge",
        i64_text(snapshot.policies_active).as_str(),
    );
    push_metric(
        &mut out,
        "ws_controller_audit_events_total",
        "Total audit events",
        "counter",
        i64_text(snapshot.audit_events_total).as_str(),
    );
    push_metric(
        &mut out,
        "ws_controller_uptime_seconds",
        "Controller uptime",
        "gauge",
        u64_text(snapshot.uptime_seconds).as_str(),
    );
    assert(out@ =~= prometheus_text(*snapshot));
    out
}

/// The sample line of a metric: its name, a space and its value, on a line of
/// its own.
pub open spec fn sample_line(name: Seq<char>, value: Seq<char>) -> Seq<char> {
    "\n"@ + name + " "@ + value + "\n"@
}

/// A metric's block ends with its sample line.
proof fn lemma_metric_ends_with_sample(name: Seq<char>, help: Seq<char>, kind: Seq<char>, value: Seq<char>)
    ensures
        prom_metric(name, help, kind, value) == metric_head(name, help, kind) + sample_line(name, value),
{
    assert(prom_metric(name, help, kind, value) =~= metric_head(name, help, kind) + sample_line(name, value));
}

/// A block made of a head and a line, set between other text, holds the line.
proof fn lemma_line_in_block(x: Seq<char>, head: Seq<char>, line: Seq<char>, y: Seq<char>)
    ensures
        has_infix(x + (head + line) + y, line),
{
    let t = x + (head + line) + y;
    let at = x.len() + head.len();
    assert(t.subrange(at as int, (at + line.len()) as int) =~= line);
}

/// Six blocks in a row, read around each of them in turn.
proof fn lemma_six_blocks(a: Seq<char>, b: Seq<char>, c: Seq<char>, d: Seq<char>, e: Seq<char>, f: Seq<char>)
    ensures
        a + b + c + d + e + f == Seq::<char>::empty() + a + (b + c + d + e + f),
        a + b + c + d + e + f == a + b + (c + d + e + f),
        a + b + c + d + e + f == (a + b) + c + (d + e + f),
        a + b + c + d + e + f == (a + b + c) + d + (e + f),
        a + b + c + d + e + f == (a + b + c + d) + e + f,
        a + b + c + d + e + f == (a + b + c + d + e) + f + Seq::<char>::empty(),
{
    let t = a + b + c + d + e + f;
    assert(t =~= Seq::<char>::empty() + a + (b + c + d + e + f));
    assert(t =~= a + b + (c + d + e + f));
    assert(t =~= (a + b) + c + (d + e + f));
    assert(t =~= (a + b + c) + d + (e + f));
    assert(t =~= (a + b + c + d) + e + f);
    assert(t =~= (a + b + c + d + e) + f + Seq::<char>::empty());
}

/// The head of a metric's block: its help and type lines, up to the sample.
pub open spec fn metric_head(name: Seq<char>, help: Seq<char>, kind: Seq<char>) -> Seq<char> {
    "# HELP "@ + name + " "@ + help + "\n# TYPE "@ + name + " "@ + kind
}

/// Each exported sample carries its own count from the snapshot: the
/// exposition holds a line `ws_controller_devices_active <n>` with `n` the
/// active devices, and likewise for pending and revoked devices, active
/// policies, audit events and uptime.
pub proof fn lemma_samples_carry_their_counts(s: MetricsSnapshot)
    ensures
        has_infix(
            prometheus_text(s),
            sample_line("ws_controller_devices_active"@, crate::text::int_decimal(s.devices_active as int)),
        ),
        has_infix(
            prometheus_text(s),
            sample_line("ws_controller_devices_pending"@, crate::text::int_decimal(s.devices_pending as int)),
        ),
        has_infix(
            prometheus_text(s),
            sample_line("ws_controller_devices_revoked"@, crate::text::int_decimal(s.devices_revoked as int)),
        ),
        has_infix(
            prometheus_text(s),
            sample_line("ws_controller_policies_active"@, crate::text::int_decimal(s.policies_active as int)),
        ),
        has_infix(
            prometheus_text(s),
            sample_line("ws_controller_audit_events_total"@, crate::text::int_decimal(s.audit_events_total as int)),
        ),
        has_infix(
            prometheus_text(s),
            sample_line("ws_controller_uptime_seconds"@, crate::text::decimal(s.uptime_seconds as nat)),
        ),
{
    let n1 = "ws_controller_devices_active"@;
    let n2 = "ws_controller_devices_pending"@;
    let n3 = "ws_controller_devices_revoked"@;
    let n4 = "ws_controller_policies_active"@;
    let n5 = "ws_controller_audit_events_total"@;
    let n6 = "ws_controller_uptime_seconds"@;
    let v1 = crate::text::int_decimal(s.devices_active as int);
    let v2 = crate::text::int_decimal(s.devices_pending as int);
    let v3 = crate::text::int_decimal(s.devices_revoked as int);
    let v4 = crate::text::int_decimal(s.policies_active as int);
    let v5 = crate::text::int_decimal(s.audit_events_total as int);
    let v6 = crate::text::decimal(s.uptime_seconds as nat);
    let m1 = prom_metric(n1, "Active enrolled devices"@, "gauge"@, v1);
    let m2 = prom_metric(n2, "Pending devices"@, "gauge"@, v2);
    let m3 = prom_metric(n3, "Revoked devices"@, "gauge"@, v3);
    let m4 = prom_metric(n4, "Active policies"@, "gauge"@, v4);
    let m5 = prom_metric(n5, "Total audit events"@, "counter"@, v5);
    let m6 = prom_metric(n6, "Controller uptime"@, "gauge"@, v6);
    lemma_metric_ends_with_sample(n1, "Active enrolled devices"@, "gauge"@, v1);
    lemma_metric_ends_with_sample(n2, "Pending devices"@, "gauge"@, v2);
    lemma_metric_ends_with_sample(n3, "Revoked devices"@, "gauge"@, v3);
    lemma_metric_ends_with_sample(n4, "Active policies"@, "gauge"@, v4);
    lemma_metric_ends_with_sample(n5, "Total audit events"@, "counter"@, v5);
    lemma_metric_ends_with_sample(n6, "Controller uptime"@, "gauge"@, v6);
    lemma_six_blocks(m1, m2, m3, m4, m5, m6);
    lemma_line_in_block(Seq::<char>::empty(), metric_head(n1, "Active enrolled devices"@, "gauge"@), sample_line(n1, v1), m2 + m3 + m4 + m5 + m6);
    lemma_line_in_block(m1, metric_head(n2, "Pending devices"@, "gauge"@), sample_line(n2, v2), m3 + m4 + m5 + m6);
    lemma_line_in_block(m1 + m2, metric_head(n3, "Revoked devices"@, "gauge"@), sample_line(n3, v3), m4 + m5 + m6);
    lemma_line_in_block(m1 + m2 + m3, metric_head(n4, "Active policies"@, "gauge"@), sample_line(n4, v4), m5 + m6);
    lemma_line_in_block(m1 + m2 + m3 + m4, metric_head(n5, "Total audit events"@, "counter"@), sample_line(n5, v5), m6);
    lemma_line_in_block(m1 + m2 + m3 + m4 + m5, metric_head(n6, "Controller uptime"@, "gauge"@), sample_line(n6, v6), Seq::<char>::empty());
}

/// Whether `t` occurs in `s` as a contiguous run.
pub open spec fn has_infix(s: Seq<char>, t: Seq<char>) -> bool {
    exists|i: int| 0 <= i && i + t.len() <= s.len() && #[trigger] s.subrange(i, i + t.len()) == t
}

fn contains_text(s: &str, t: &str) -> (r: bool)
    ensures
        r == has_infix(s@, t@),
{
    let n = s.unicode_len();
    let m = t.unicode_len();
    if m > n {
        proof {
            assert forall|i: int| 0 <= i && i + t@.len() <= s@.len() implies #[trigger] s@.subrange(i, i + t@.len()) != t@ by {}
        }
        return false;
    }
    if m == 0 {
        assert(s@.subrange(0int, 0int + t@.len()) =~= t@);
        return true;
    }
    let count = n - m + 1;
    let mut i: usize = 0;
    while i < count
        invariant
            n == s@.len(),
            m == t@.len(),
            1 <= m <= n,
            count == n - m + 1,
            i <= count,
            forall|k: int| 0 <= k < i ==> #[trigger] s@.subrange(k, k + m) != t@,
        decreases count - i,
    {
        let mut j: usize = 0;
        let mut same = true;
        while j < m
            invariant
                n == s@.len(),
                m == t@.len(),
                i + m <= n,
                j <= m,
                same ==> forall|q: int| 0 <= q < j ==> s@[i + q] == t@[q],
                !same ==> s@.subrange(i as int, i + m) != t@,
            decreases m - j,
        {
            if same && s.get_char(i + j) != t.get_char(j) {
                same = false;
                assert(s@.subrange(i as int, i + m)[j as int] != t@[j as int]);
            }
            j = j + 1;
        }
        if same {
            assert(s@.subrange(i as int, i + m) =~= t@);
            return true;
        }
        i = i + 1;
    }
    proof {
        assert forall|k: int| 0 <= k && k + t@.len() <= s@.len() implies #[trigger] s@.subrange(k, k + t@.len()) != t@ by {
            assert(k < i);
        }
    }
    false
}

/// Whether a request asks for the Prometheus text format: its `Accept`
/// header (`application/json` when absent) names `text/plain` or
/// `application/openmetrics-text`.
pub fn wants_prometheus(accept: Option<&str>) -> (r: bool)
    ensures
        match accept {
            Some(a) => r == (has_infix(a@, "text/plain"@) || has_infix(a@, "application/openmetrics-text"@)),
            None => r == (has_infix("application/json"@, "text/plain"@) || has_infix(
                "application/json"@,
                "application/openmetrics-text"@,
            )),
        },
{
    let a = match accept {
        Some(a) => a,
        None => "application/json",
    };
    contains_text(a, "text/plain") || contains_text(a, "application/openmetrics-text")
}

} // verus!
