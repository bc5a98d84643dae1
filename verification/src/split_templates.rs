use vstd::prelude::*;

use crate::json::JsonValue;
use crate::models::DbError;
use crate::stored::{read_instant, read_uuid, uuid_display};

verus! {

/// Global split-tunnel template application mode.
#[derive(Clone, Copy, PartialEq, Eq, Structural)]
pub enum TemplateMode {
    Disabled,
    Merge,
    Override,
}

/// The stored name of a template mode.
pub open spec fn template_mode_name(m: TemplateMode) -> Seq<char> {
    match m {
        TemplateMode::Disabled => "disabled"@,
        TemplateMode::Merge => "merge"@,
        TemplateMode::Override => "override"@,
    }
}

/// The template mode a stored name denotes, if any.
pub open spec fn template_mode_named(s: Seq<char>) -> Option<TemplateMode> {
    if s == "disabled"@ {
        Some(TemplateMode::Disabled)
    } else if s == "merge"@ {
        Some(TemplateMode::Merge)
    } else if s == "override"@ {
        Some(TemplateMode::Override)
    } else {
        None
    }
}

impl TemplateMode {
    /// The stored name of the mode.
    pub fn as_str(self) -> (r: &'static str)
        ensures
            r@ == template_mode_name(self),
    {
        match self {
            TemplateMode::Disabled => "disabled",
            TemplateMode::Merge => "merge",
            TemplateMode::Override => "override",
        }
    }

    /// The mode a stored name denotes; any other name is refused.
    pub fn from_str(s: &str) -> (r: Result<TemplateMode, DbError>)
        ensures
            match template_mode_named(s@) {
                Some(m) => r == Ok::<TemplateMode, DbError>(m),
                None => r matches Err(DbError::NotFound(msg)) && msg@ == "unknown template mode: "@ + s@,
            },
    {
        if crate::text::text_eq(s, "disabled") {
            Ok(TemplateMode::Disabled)
        } else if crate::text::text_eq(s, "merge") {
            Ok(TemplateMode::Merge)
        } else if crate::text::text_eq(s, "override") {
            Ok(TemplateMode::Override)
        } else {
            Err(DbError::NotFound(String::from_str("unknown template mode: ").concat(s)))
        }
    }
}

impl Default for TemplateMode {
    fn default() -> (r: TemplateMode)
        ensures
            r == TemplateMode::Disabled,
    {
        TemplateMode::Disabled
    }
}

/// Every template mode reads back from its stored name.
pub proof fn lemma_template_mode_round_trip(m: TemplateMode)
    ensures
        template_mode_named(template_mode_name(m)) == Some(m),
{
    reveal_strlit("disabled");
    reveal_strlit("merge");
    reveal_strlit("override");
    assert("disabled"@ != "merge"@ && "disabled"@ != "override"@ && "merge"@ != "override"@) by {
        assert("disabled"@.len() != "merge"@.len());
        assert("disabled"@[0] != "override"@[0]);
        assert("merge"@.len() != "override"@.len());
    }
}

/// Per-application split-tunnel rule within a template.
pub struct AppRule {
    pub id: u128,
    pub app_id: u128,
    pub route: JsonValue,
    pub enabled: bool,
    pub description: Option<String>,
}

/// Per-domain split-tunnel rule within a template.
pub struct DomainRule {
    pub id: u128,
    pub pattern: String,
    pub route: JsonValue,
    pub enabled: bool,
    pub description: Option<String>,
}

/// Rules and templates are enabled unless they say otherwise.
pub fn default_true() -> (r: bool)
    ensures
        r,
{
    true
}

/// Reusable global split-tunnel policy template; times are instants since
/// the Unix epoch (seconds, nanoseconds).
pub struct SplitTunnelTemplate {
    pub id: u128,
    pub name: String,
    pub description: String,
    pub default_route: JsonValue,
    pub app_rules: Vec<AppRule>,
    pub domain_rules: Vec<DomainRule>,
    pub enabled: bool,
    pub created_at: (i64, u32),
    pub updated_at: (i64, u32),
}

/// Active template mode configuration.
pub struct SplitTemplateModeSettings {
    pub mode: TemplateMode,
    pub active_template_id: Option<u128>,
    pub updated_at: (i64, u32),
}

impl SplitTemplateModeSettings {
    /// The settings in force before any were stored: disabled, no active
    /// template, as of now.
    pub fn default_at(now: (i64, u32)) -> (r: SplitTemplateModeSettings)
        ensures
            r.mode == TemplateMode::Disabled,
            r.active_template_id is None,
            r.updated_at == now,
    {
        SplitTemplateModeSettings { mode: TemplateMode::Disabled, active_template_id: None, updated_at: now }
    }
}

pub struct SplitTemplatesSummary {
    pub template_count: i64,
    pub enabled_count: i64,
    pub templates: Vec<SplitTunnelTemplate>,
    pub mode: SplitTemplateModeSettings,
}

pub struct CreateSplitTemplateInput {
    pub name: String,
    pub description: String,
    pub default_route: JsonValue,
    pub app_rules: Vec<AppRule>,
    pub domain_rules: Vec<DomainRule>,
    pub enabled: bool,
}

pub struct UpdateSplitTemplateInput {
    pub name: Option<String>,
    pub description: Option<String>,
    pub default_route: Option<JsonValue>,
    pub app_rules: Option<Vec<AppRule>>,
    pub domain_rules: Option<Vec<DomainRule>>,
    pub enabled: Option<bool>,
}

pub struct UpdateSplitTemplateModeInput {
    pub mode: TemplateMode,
    pub active_template_id: Option<u128>,
}

/// How many templates are enabled.
pub open spec fn count_enabled(s: Seq<SplitTunnelTemplate>) -> nat
    decreases s.len(),
{
    if s.len() == 0 {
        0
    } else {
        count_enabled(s.drop_last()) + if s.last().enabled {
            1nat
        } else {
            0nat
        }
    }
}

/// Template figures: how many and how many enabled, with the mode in force.
pub fn summary(templates: Vec<SplitTunnelTemplate>, mode: SplitTemplateModeSettings) -> (r: SplitTemplatesSummary)
    requires
        templates@.len() <= i64::MAX,
    ensures
        r.template_count == templates@.len(),
        r.enabled_count == count_enabled(templates@),
        r.templates@ == templates@,
        r.mode == mode,
{
    let mut enabled: i64 = 0;
    let mut i: usize = 0;
    while i < templates.len()
        invariant
            i <= templates@.len(),
            templates@.len() <= i64::MAX,
            enabled == count_enabled(templates@.take(i as int)),
            enabled <= i,
        decreases templates@.len() - i,
    {
        proof {
            assert(templates@.take(i + 1).drop_last() =~= templates@.take(i as int));
        }
        if templates[i].enabled {
            enabled = enabled + 1;
        }
        i = i + 1;
    }
    assert(templates@.take(i as int) =~= templates@);
    SplitTemplatesSummary { template_count: templates.len() as i64, enabled_count: enabled, templates, mode }
}

/// The message for a template that does not exist.
pub open spec fn missing_template(id: u128) -> Seq<char> {
    "split template "@ + crate::stored::uuid_text(id)
}

/// The first template of `s` with id `id`, if any.
pub open spec fn first_template(s: Seq<SplitTunnelTemplate>, id: u128) -> Option<SplitTunnelTemplate>
    decreases s.len(),
{
    if s.len() == 0 {
        None
    } else if s[0].id == id {
        Some(s[0])
    } else {
        first_template(s.subrange(1, s.len() as int), id)
    }
}

/// The template with id `id` among `templates` (the first, should two share
/// it), or `NotFound` where there is none.
pub fn get_template(templates: Vec<SplitTunnelTemplate>, id: u128) -> (r: Result<SplitTunnelTemplate, DbError>)
    ensures
        match first_template(templates@, id) {
            Some(t) => r == Ok::<SplitTunnelTemplate, DbError>(t),
            None => r matches Err(DbError::NotFound(m)) && m@ == missing_template(id),
        },
{
    let ghost all = templates@;
    let mut list = templates;
    let mut i: usize = 0;
    assert(all.subrange(0, all.len() as int) =~= all);
    while i < list.len()
        invariant
            list@ == all,
            all == templates@,
            i <= all.len(),
            first_template(all, id) == first_template(all.subrange(i as int, all.len() as int), id),
        decreases all.len() - i,
    {
        proof {
            let rest = all.subrange(i as int, all.len() as int);
            assert(rest[0] == all[i as int]);
            assert(rest.subrange(1, rest.len() as int) =~= all.subrange(i + 1, all.len() as int));
        }
        if list[i].id == id {
            proof {
                let rest = all.subrange(i as int, all.len() as int);
                assert(first_template(rest, id) == Some(all[i as int]));
            }
            let t = list.remove(i);
            return Ok(t);
        }
        i = i + 1;
    }
    proof {
        assert(all.subrange(i as int, all.len() as int).len() == 0);
    }
    Err(DbError::NotFound(String::from_str("split template ").concat(uuid_display(id).as_str())))
}

/// A new template from its input, created and last updated now.
pub fn create_template(input: CreateSplitTemplateInput, id: u128, now: (i64, u32)) -> (r: SplitTunnelTemplate)
    ensures
        r.id == id,
        r.name == input.name,
        r.description == input.description,
        r.default_route == input.default_route,
        r.app_rules == input.app_rules,
        r.domain_rules == input.domain_rules,
        r.enabled == input.enabled,
        r.created_at == now,
        r.updated_at == now,
{
    SplitTunnelTemplate {
        id,
        name: input.name,
        description: input.description,
        default_route: input.default_route,
        app_rules: input.app_rules,
        domain_rules: input.domain_rules,
        enabled: input.enabled,
        created_at: now,
        updated_at: now,
    }
}

/// A template after an update: each field the update gives replaces the old
/// one, the others stay, and it was last updated now.
pub fn update_template(template: SplitTunnelTemplate, input: UpdateSplitTemplateInput, now: (i64, u32)) -> (r:
    SplitTunnelTemplate)
    ensures
        r.id == template.id,
        r.name == match input.name {
            Some(v) => v,
            None => template.name,
        },
        r.description == match input.description {
            Some(v) => v,
            None => template.description,
        },
        r.default_route == match input.default_route {
            Some(v) => v,
            None => template.default_route,
        },
        r.app_rules == match input.app_rules {
            Some(v) => v,
            None => template.app_rules,
        },
        r.domain_rules == match input.domain_rules {
            Some(v) => v,
            None => template.domain_rules,
        },
        r.enabled == match input.enabled {
            Some(v) => v,
            None => template.enabled,
        },
        r.created_at == template.created_at,
        r.updated_at == now,
{
    let mut t = template;
    if let Some(v) = input.name {
        t.name = v;
    }
    if let Some(v) = input.description {
        t.description = v;
    }
    if let Some(v) = input.default_route {
        t.default_route = v;
    }
    if let Some(v) = input.app_rules {
        t.app_rules = v;
    }
    if let Some(v) = input.domain_rules {
        t.domain_rules = v;
    }
    if let Some(v) = input.enabled {
        t.enabled = v;
    }
    t.updated_at = now;
    t
}

/// The outcome of deleting or rewriting a template, from the number of rows
/// the store touched: none means the template did not exist.
pub fn template_write_outcome(rows_affected: u64, id: u128) -> (r: Result<(), DbError>)
    ensures
        rows_affected == 0 ==> (r matches Err(DbError::NotFound(m)) && m@ == missing_template(id)),
        rows_affected != 0 ==> r is Ok,
{
    if rows_affected == 0 {
        Err(DbError::NotFound(String::from_str("split template ").concat(uuid_display(id).as_str())))
    } else {
        Ok(())
    }
}

/// After a template is deleted, the mode change it calls for: where the
/// deleted template was the active one, keep the mode and clear the active
/// template; otherwise nothing.
pub fn mode_after_delete(mode: &SplitTemplateModeSettings, deleted: u128) -> (r: Option<
    UpdateSplitTemplateModeInput,
>)
    ensures
        mode.active_template_id == Some(deleted) ==> (r matches Some(u) && u.mode == mode.mode
            && u.active_template_id is None),
        mode.active_template_id != Some(deleted) ==> r is None,
{
    match mode.active_template_id {
        Some(a) => if a == deleted {
            Some(UpdateSplitTemplateModeInput { mode: mode.mode, active_template_id: None })
        } else {
            None
        },
        None => None,
    }
}

/// The mode settings from the stored row (`None` before any were stored): an
/// unknown mode name is `NotFound`, an unreadable id or time a decoding error,
/// checked in that order.
pub fn mode_from_row(row: Option<(String, Option<String>, String)>, now: (i64, u32)) -> (r: Result<
    SplitTemplateModeSettings,
    DbError,
>)
    ensures
        match row {
            None => r matches Ok(s) && s.mode == TemplateMode::Disabled && s.active_template_id is None
                && s.updated_at == now,
            Some((mode, active, updated_at)) => match template_mode_named(mode@) {
                None => r matches Err(DbError::NotFound(m)) && m@ == "unknown template mode: "@ + mode@,
                Some(md) => match active {
                    Some(a) if crate::stored::stored_uuid(a@) is Err => r matches Err(DbError::Sqlx(e))
                        && e@ == crate::stored::stored_uuid(a@)->Err_0,
                    _ => match crate::stored::stored_instant(updated_at@) {
                        Err(m) => r matches Err(DbError::Sqlx(e)) && e@ == m,
                        Ok(t) => r matches Ok(s) && s.mode == md && s.updated_at == t && match active {
                            Some(a) => s.active_template_id == Some(crate::stored::stored_uuid(a@)->Ok_0),
                            None => s.active_template_id is None,
                        },
                    },
                },
            },
        },
{
    match row {
        None => Ok(SplitTemplateModeSettings::default_at(now)),
        Some((mode, active, updated_at)) => {
            let m = TemplateMode::from_str(mode.as_str())?;
            let active_template_id = match active {
                Some(a) => Some(read_uuid(a.as_str())?),
                None => None,
            };
            let updated_at = read_instant(updated_at.as_str())?;
            Ok(SplitTemplateModeSettings { mode: m, active_template_id, updated_at })
        },
    }
}

/// A template from its stored columns, its parsed default route (or the
/// parser's complaint) and its parsed rules (none where they did not parse):
/// an unreadable id, route or time is a decoding error, checked in that order.
pub fn row_to_template(
    row: (String, String, String, i32, String, String),
    default_route: Result<JsonValue, String>,
    app_rules: Option<Vec<AppRule>>,
    domain_rules: Option<Vec<DomainRule>>,
) -> (r: Result<SplitTunnelTemplate, DbError>)
    ensures
        match crate::stored::stored_uuid(row.0@) {
            Err(m) => r matches Err(DbError::Sqlx(e)) && e@ == m,
            Ok(id) => match default_route {
                Err(c) => r matches Err(DbError::Sqlx(e)) && e@ == crate::stored::decode_failure_text(c@),
                Ok(route) => match (crate::stored::stored_instant(row.4@), crate::stored::stored_instant(
                    row.5@,
                )) {
                    (Err(m), _) => r matches Err(DbError::Sqlx(e)) && e@ == m,
                    (Ok(_), Err(m)) => r matches Err(DbError::Sqlx(e)) && e@ == m,
                    (Ok(c), Ok(u)) => r matches Ok(t) && t.id == id && t.name == row.1 && t.description
                        == row.2 && t.default_route == route && match app_rules {
                        Some(a) => t.app_rules == a,
                        None => t.app_rules@.len() == 0,
                    } && match domain_rules {
                        Some(d) => t.domain_rules == d,
                        None => t.domain_rules@.len() == 0,
                    } && t.enabled == (row.3 != 0) && t.created_at == c && t.updated_at == u,
                },
            },
        },
{
    let (id, name, description, enabled, created_at, updated_at) = row;
    let id = read_uuid(id.as_str())?;
    let default_route = match default_route {
        Ok(v) => v,
        Err(c) => {
            return Err(DbError::Sqlx(crate::stored::decode_failure(c.as_str())));
        },
    };
    let created_at = read_instant(created_at.as_str())?;
    let updated_at = read_instant(updated_at.as_str())?;
    Ok(
        SplitTunnelTemplate {
            id,
            name,
            description,
            default_route,
            app_rules: match app_rules {
                Some(a) => a,
                None => Vec::new(),
            },
            domain_rules: match domain_rules {
                Some(d) => d,
                None => Vec::new(),
            },
            enabled: enabled != 0,
            created_at,
            updated_at,
        },
    )
}

} // verus!
