use vstd::prelude::*;

use crate::json::JsonValue;
use crate::models::DbError;
use crate::stored::{read_instant, read_uuid, uuid_display};

verus! {

/// When to terminate existing TCP sessions for route reconnect.
#[derive(Clone, Copy, PartialEq, Eq, Structural)]
pub enum TcpTerminationMode {
    Disabled,
    OnVpnConnect,
    OnVpnDisconnect,
    OnRouteChange,
    Always,
}

/// The stored name of a termination mode.
pub open spec fn termination_mode_name(m: TcpTerminationMode) -> Seq<char> {
    match m {
        TcpTerminationMode::Disabled => "disabled"@,
        TcpTerminationMode::OnVpnConnect => "on_vpn_connect"@,
        TcpTerminationMode::OnVpnDisconnect => "on_vpn_disconnect"@,
        TcpTerminationMode::OnRouteChange => "on_route_change"@,
        TcpTerminationMode::Always => "always"@,
    }
}

/// The termination mode a stored name denotes, if any.
pub open spec fn termination_mode_named(s: Seq<char>) -> Option<TcpTerminationMode> {
    if s == "disabled"@ {
        Some(TcpTerminationMode::Disabled)
    } else if s == "on_vpn_connect"@ {
        Some(TcpTerminationMode::OnVpnConnect)
    } else if s == "on_vpn_disconnect"@ {
        Some(TcpTerminationMode::OnVpnDisconnect)
    } else if s == "on_route_change"@ {
        Some(TcpTerminationMode::OnRouteChange)
    } else if s == "always"@ {
        Some(TcpTerminationMode::Always)
    } else {
        None
    }
}

impl TcpTerminationMode {
    /// The stored name of the mode.
    pub fn as_str(self) -> (r: &'static str)
        ensures
            r@ == termination_mode_name(self),
    {
        match self {
            TcpTerminationMode::Disabled => "disabled",
            TcpTerminationMode::OnVpnConnect => "on_vpn_connect",
            TcpTerminationMode::OnVpnDisconnect => "on_vpn_disconnect",
            TcpTerminationMode::OnRouteChange => "on_route_change",
            TcpTerminationMode::Always => "always",
        }
    }

    /// The mode a stored name denotes; any other name is refused.
    pub fn from_str(s: &str) -> (r: Result<TcpTerminationMode, DbError>)
        ensures
            match termination_mode_named(s@) {
                Some(m) => r == Ok::<TcpTerminationMode, DbError>(m),
                None => r matches Err(DbError::NotFound(msg)) && msg@ == "unknown tcp termination mode: "@
                    + s@,
            },
    {
        if crate::text::text_eq(s, "disabled") {
            Ok(TcpTerminationMode::Disabled)
        } else if crate::text::text_eq(s, "on_vpn_connect") {
            Ok(TcpTerminationMode::OnVpnConnect)
        } else if crate::text::text_eq(s, "on_vpn_disconnect") {
            Ok(TcpTerminationMode::OnVpnDisconnect)
        } else if crate::text::text_eq(s, "on_route_change") {
            Ok(TcpTerminationMode::OnRouteChange)
        } else if crate::text::text_eq(s, "always") {
            Ok(TcpTerminationMode::Always)
        } else {
            Err(DbError::NotFound(String::from_str("unknown tcp termination mode: ").concat(s)))
        }
    }
}

impl Default for TcpTerminationMode {
    fn default() -> (r: TcpTerminationMode)
        ensures
            r == TcpTerminationMode::Disabled,
    {
        TcpTerminationMode::Disabled
    }
}

/// Every termination mode reads back from its stored name.
pub proof fn lemma_termination_mode_round_trip(m: TcpTerminationMode)
    ensures
        termination_mode_named(termination_mode_name(m)) == Some(m),
{
    reveal_strlit("disabled");
    reveal_strlit("on_vpn_connect");
    reveal_strlit("on_vpn_disconnect");
    reveal_strlit("on_route_change");
    reveal_strlit("always");
    assert("disabled"@ != "on_vpn_connect"@ && "disabled"@ != "on_vpn_disconnect"@ && "disabled"@
        != "on_route_change"@ && "disabled"@ != "always"@) by {
        assert("disabled"@[0] != "on_vpn_connect"@[0]);
        assert("disabled"@[0] != "on_vpn_disconnect"@[0]);
        assert("disabled"@[0] != "on_route_change"@[0]);
        assert("disabled"@[0] != "always"@[0]);
    }
    assert("on_vpn_connect"@ != "on_vpn_disconnect"@ && "on_vpn_connect"@ != "on_route_change"@
        && "on_vpn_connect"@ != "always"@) by {
        assert("on_vpn_connect"@.len() != "on_vpn_disconnect"@.len());
        assert("on_vpn_connect"@[3] != "on_route_change"@[3]);
        assert("on_vpn_connect"@[0] != "always"@[0]);
    }
    assert("on_vpn_disconnect"@ != "on_route_change"@ && "on_vpn_disconnect"@ != "always"@) by {
        assert("on_vpn_disconnect"@.len() != "on_route_change"@.len());
        assert("on_vpn_disconnect"@[0] != "always"@[0]);
    }
    assert("on_route_change"@ != "always"@) by {
        assert("on_route_change"@[0] != "always"@[0]);
    }
}

/// Persisted TCP termination settings; times are instants since the Unix
/// epoch (seconds, nanoseconds).
pub struct TcpTerminationSettings {
    pub mode: TcpTerminationMode,
    pub updated_at: (i64, u32),
}

impl TcpTerminationSettings {
    /// The settings in force before any were stored: disabled, as of now.
    pub fn default_at(now: (i64, u32)) -> (r: TcpTerminationSettings)
        ensures
            r.mode == TcpTerminationMode::Disabled,
            r.updated_at == now,
    {
        TcpTerminationSettings { mode: TcpTerminationMode::Disabled, updated_at: now }
    }
}

/// Process-aware TCP reconnect rule.
pub struct TcpTerminationRule {
    pub id: u128,
    pub process_path: Option<String>,
    pub process_name: Option<String>,
    pub profile_id: Option<u128>,
    pub route: Option<JsonValue>,
    pub enabled: bool,
    pub created_at: (i64, u32),
    pub updated_at: (i64, u32),
}

/// Rules are enabled unless they say otherwise.
pub fn default_true() -> (r: bool)
    ensures
        r,
{
    true
}

pub struct TcpTerminationRulesSummary {
    pub rule_count: i64,
    pub enabled_count: i64,
    pub rules: Vec<TcpTerminationRule>,
}

pub struct UpdateTcpTerminationSettingsInput {
    pub mode: TcpTerminationMode,
}

pub struct CreateTcpTerminationRuleInput {
    pub process_path: Option<String>,
    pub process_name: Option<String>,
    pub profile_id: Option<u128>,
    pub route: Option<JsonValue>,
    pub enabled: bool,
}

/// An update of a rule: an outer `Some` replaces the field (with a value or
/// with nothing), `None` leaves it.
pub struct UpdateTcpTerminationRuleInput {
    pub process_path: Option<Option<String>>,
    pub process_name: Option<Option<String>>,
    pub profile_id: Option<Option<u128>>,
    pub route: Option<Option<JsonValue>>,
    pub enabled: Option<bool>,
}

/// The settings from the stored row (`None` before any were stored): an
/// unknown mode name is `NotFound`, an unreadable time a decoding error.
pub fn settings_from_row(row: Option<(String, String)>, now: (i64, u32)) -> (r: Result<TcpTerminationSettings, DbError>)
    ensures
        match row {
            None => r matches Ok(s) && s.mode == TcpTerminationMode::Disabled && s.updated_at == now,
            Some((mode, updated_at)) => match termination_mode_named(mode@) {
                None => r matches Err(DbError::NotFound(m)) && m@ == "unknown tcp termination mode: "@ + mode@,
                Some(md) => match crate::stored::stored_instant(updated_at@) {
                    Err(m) => r matches Err(DbError::Sqlx(e)) && e@ == m,
                    Ok(t) => r matches Ok(s) && s.mode == md && s.updated_at == t,
                },
            },
        },
{
    match row {
        None => Ok(TcpTerminationSettings::default_at(now)),
        Some((mode, updated_at)) => {
            let m = TcpTerminationMode::from_str(mode.as_str())?;
            let t = read_instant(updated_at.as_str())?;
            Ok(TcpTerminationSettings { mode: m, updated_at: t })
        },
    }
}

/// How many rules are enabled.
pub open spec fn count_enabled(s: Seq<TcpTerminationRule>) -> nat
    decreases s.len(),
{
    if s.len() == 0 {
        0
    } else {
        count_enabled(s.drop_last()) + if s.last().enabled {
            1nat
        } else {
            0nat
        }
    }
}

/// The enabled count is the number of rules whose `enabled` flag is set: it
/// equals the length of the list of enabled rules, so a list of disabled
/// rules counts 0, a list of enabled rules counts them all, and the count
/// never exceeds the number of rules.
pub proof fn lemma_enabled_count_counts_enabled_rules(s: Seq<TcpTerminationRule>)
    ensures
        count_enabled(s) == s.filter(|r: TcpTerminationRule| r.enabled).len(),
        count_enabled(s) <= s.len(),
        (forall|i: int| 0 <= i < s.len() ==> !(#[trigger] s[i]).enabled) ==> count_enabled(s) == 0,
        (forall|i: int| 0 <= i < s.len() ==> (#[trigger] s[i]).enabled) ==> count_enabled(s) == s.len(),
    decreases s.len(),
{
    reveal(Seq::filter);
    if s.len() > 0 {
        lemma_enabled_count_counts_enabled_rules(s.drop_last());
        assert forall|i: int| 0 <= i < s.drop_last().len() implies s.drop_last()[i] == s[i] by {}
        assert(s.last() == s[s.len() - 1]);
    }
}

/// Rule figures: how many and how many enabled.
pub fn rules_summary(rules: Vec<TcpTerminationRule>) -> (r: TcpTerminationRulesSummary)
    requires
        rules@.len() <= i64::MAX,
    ensures
        r.rule_count == rules@.len(),
        r.enabled_count == count_enabled(rules@),
        r.rules@ == rules@,
{
    let mut enabled: i64 = 0;
    let mut i: usize = 0;
    while i < rules.len()
        invariant
            i <= rules@.len(),
            rules@.len() <= i64::MAX,
            enabled == count_enabled(rules@.take(i as int)),
            enabled <= i,
        decreases rules@.len() - i,
    {
        proof {
            assert(rules@.take(i + 1).drop_last() =~= rules@.take(i as int));
        }
        if rules[i].enabled {
            enabled = enabled + 1;
        }
        i = i + 1;
    }
    assert(rules@.take(i as int) =~= rules@);
    TcpTerminationRulesSummary { rule_count: rules.len() as i64, enabled_count: enabled, rules }
}

/// The message for a rule that does not exist.
pub open spec fn missing_rule(id: u128) -> Seq<char> {
    "tcp termination rule "@ + crate::stored::uuid_text(id)
}

/// The first rule of `s` with id `id`, if any.
pub open spec fn first_rule(s: Seq<TcpTerminationRule>, id: u128) -> Option<TcpTerminationRule>
    decreases s.len(),
{
    if s.len() == 0 {
        None
    } else if s[0].id == id {
        Some(s[0])
    } else {
        first_rule(s.subrange(1, s.len() as int), id)
    }
}

/// The rule with id `id` among `rules` (the first, should two share it), or
/// `NotFound` where there is none.
pub fn get_rule(rules: Vec<TcpTerminationRule>, id: u128) -> (r: Result<TcpTerminationRule, DbError>)
    ensures
        match first_rule(rules@, id) {
            Some(t) => r == Ok::<TcpTerminationRule, DbError>(t),
            None => r matches Err(DbError::NotFound(m)) && m@ == missing_rule(id),
        },
{
    let ghost all = rules@;
    let mut list = rules;
    let mut i: usize = 0;
    assert(all.subrange(0, all.len() as int) =~= all);
    while i < list.len()
        invariant
            list@ == all,
            all == rules@,
            i <= all.len(),
            first_rule(all, id) == first_rule(all.subrange(i as int, all.len() as int), id),
        decreases all.len() - i,
    {
        proof {
            let rest = all.subrange(i as int, all.len() as int);
            assert(rest[0] == all[i as int]);
            assert(rest.subrange(1, rest.len() as int) =~= all.subrange(i + 1, all.len() as int));
        }
        if list[i].id == id {
            proof {
                let rest = all.subrange(i as int, all.len() as int);
                assert(first_rule(rest, id) == Some(all[i as int]));
            }
            let t = list.remove(i);
            return Ok(t);
        }
        i = i + 1;
    }
    proof {
        assert(all.subrange(i as int, all.len() as int).len() == 0);
    }
    Err(DbError::NotFound(String::from_str("tcp termination rule ").concat(uuid_display(id).as_str())))
}

/// A new rule from its input, created and last updated now.
pub fn create_rule(input: CreateTcpTerminationRuleInput, id: u128, now: (i64, u32)) -> (r: TcpTerminationRule)
    ensures
        r.id == id,
        r.process_path == input.process_path,
        r.process_name == input.process_name,
        r.profile_id == input.profile_id,
        r.route == input.route,
        r.enabled == input.enabled,
        r.created_at == now,
        r.updated_at == now,
{
    TcpTerminationRule {
        id,
        process_path: input.process_path,
        process_name: input.process_name,
        profile_id: input.profile_id,
        route: input.route,
        enabled: input.enabled,
        created_at: now,
        updated_at: now,
    }
}

/// A rule after an update: each field the update gives replaces the old one
/// (with a value or with nothing), the others stay, and it was last updated now.
pub fn update_rule(rule: TcpTerminationRule, input: UpdateTcpTerminationRuleInput, now: (i64, u32)) -> (r:
    TcpTerminationRule)
    ensures
        r.id == rule.id,
        r.process_path == match input.process_path {
            Some(v) => v,
            None => rule.process_path,
        },
        r.process_name == match input.process_name {
            Some(v) => v,
            None => rule.process_name,
        },
        r.profile_id == match input.profile_id {
            Some(v) => v,
            None => rule.profile_id,
        },
        r.route == match input.route {
            Some(v) => v,
            None => rule.route,
        },
        r.enabled == match input.enabled {
            Some(v) => v,
            None => rule.enabled,
        },
        r.created_at == rule.created_at,
        r.updated_at == now,
{
    let mut t = rule;
    if let Some(v) = input.process_path {
        t.process_path = v;
    }
    if let Some(v) = input.process_name {
        t.process_name = v;
    }
    if let Some(v) = input.profile_id {
        t.profile_id = v;
    }
    if let Some(v) = input.route {
        t.route = v;
    }
    if let Some(v) = input.enabled {
        t.enabled = v;
    }
    t.updated_at = now;
    t
}

/// The outcome of deleting or rewriting a rule, from the number of rows the
/// store touched: none means the rule did not exist.
pub fn rule_write_outcome(rows_affected: u64, id: u128) -> (r: Result<(), DbError>)
    ensures
        rows_affected == 0 ==> (r matches Err(DbError::NotFound(m)) && m@ == missing_rule(id)),
        rows_affected != 0 ==> r is Ok,
{
    if rows_affected == 0 {
        Err(DbError::NotFound(String::from_str("tcp termination rule ").concat(uuid_display(id).as_str())))
    } else {
        Ok(())
    }
}

/// A rule from its stored columns and its parsed route (`None` where none is
/// stored, else the value or the parser's complaint): an unreadable route, id,
/// profile id or time is a decoding error, checked in that order.
pub fn row_to_rule(
    row: (String, Option<String>, Option<String>, Option<String>, i32, String, String),
    route: Option<Result<JsonValue, String>>,
) -> (r: Result<TcpTerminationRule, DbError>)
    ensures
        match route {
            Some(Err(c)) => r matches Err(DbError::Sqlx(e)) && e@ == crate::stored::decode_failure_text(c@),
            _ => match crate::stored::stored_uuid(row.0@) {
                Err(m) => r matches Err(DbError::Sqlx(e)) && e@ == m,
                Ok(id) => match row.3 {
                    Some(p) if crate::stored::stored_uuid(p@) is Err => r matches Err(DbError::Sqlx(e))
                        && e@ == crate::stored::stored_uuid(p@)->Err_0,
                    _ => match (crate::stored::stored_instant(row.5@), crate::stored::stored_instant(
                        row.6@,
                    )) {
                        (Err(m), _) => r matches Err(DbError::Sqlx(e)) && e@ == m,
                        (Ok(_), Err(m)) => r matches Err(DbError::Sqlx(e)) && e@ == m,
                        (Ok(c), Ok(u)) => r matches Ok(t) && t.id == id && t.process_path == row.1
                            && t.process_name == row.2 && match row.3 {
                            Some(p) => t.profile_id == Some(crate::stored::stored_uuid(p@)->Ok_0),
                            None => t.profile_id is None,
                        } && match route {
                            Some(Ok(v)) => t.route == Some(v),
                            _ => t.route is None,
                        } && t.enabled == (row.4 != 0) && t.created_at == c && t.updated_at == u,
                    },
                },
            },
        },
{
    let (id, process_path, process_name, profile_id, enabled, created_at, updated_at) = row;
    let route = match route {
        None => None,
        Some(Ok(v)) => Some(v),
        Some(Err(c)) => {
            return Err(DbError::Sqlx(crate::stored::decode_failure(c.as_str())));
        },
    };
    let id = read_uuid(id.as_str())?;
    let profile_id = match profile_id {
        Some(p) => Some(read_uuid(p.as_str())?),
        None => None,
    };
    let created_at = read_instant(created_at.as_str())?;
    let updated_at = read_instant(updated_at.as_str())?;
    Ok(
        TcpTerminationRule {
            id,
            process_path,
            process_name,
            profile_id,
            route,
            enabled: enabled != 0,
            created_at,
            updated_at,
        },
    )
}

} // verus!
