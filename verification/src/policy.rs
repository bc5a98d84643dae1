use vstd::prelude::*;

use crate::json::{clone_json, fields_get, fields_insert, JsonFields, JsonItems, JsonValue};
use crate::models::{DbError, PolicyRow};
use crate::text::text_eq;

verus! {

/// Whom a policy applies to.
#[derive(Debug, Clone, Copy, PartialEq, Eq, Structural)]
pub enum PolicyScope {
    Global,
    Group,
    Device,
}

pub open spec fn scope_name(s: PolicyScope) -> Seq<char> {
    match s {
        PolicyScope::Global => "global"@,
        PolicyScope::Group => "group"@,
        PolicyScope::Device => "device"@,
    }
}

pub open spec fn scope_named(s: Seq<char>) -> Option<PolicyScope> {
    if s == "global"@ {
        Some(PolicyScope::Global)
    } else if s == "group"@ {
        Some(PolicyScope::Group)
    } else if s == "device"@ {
        Some(PolicyScope::Device)
    } else {
        None
    }
}

impl PolicyScope {
    pub fn as_str(self) -> (r: &'static str)
        ensures
            r@ == scope_name(self),
    {
        match self {
            PolicyScope::Global => "global",
            PolicyScope::Group => "group",
            PolicyScope::Device => "device",
        }
    }

    pub fn from_str(s: &str) -> (r: Option<PolicyScope>)
        ensures
            r == scope_named(s@),
    {
        if text_eq(s, "global") {
            Some(PolicyScope::Global)
        } else if text_eq(s, "group") {
            Some(PolicyScope::Group)
        } else if text_eq(s, "device") {
            Some(PolicyScope::Device)
        } else {
            None
        }
    }
}

/// A policy as the controller stores and distributes it.
pub struct Policy {
    pub id: String,
    pub name: String,
    pub scope: PolicyScope,
    pub scope_target: Option<String>,
    pub content: JsonValue,
    pub version: i64,
    pub pushed_at: Option<String>,
    pub revoked_at: Option<String>,
    pub created_at: String,
}

pub struct CreatePolicyRequest {
    pub name: String,
    pub scope: PolicyScope,
    pub scope_target: Option<String>,
    pub content: JsonValue,
}

pub struct PushPolicyRequest {
    pub policy_id: String,
}

pub struct RevokePolicyRequest {
    pub policy_id: String,
}

/// The merged policy document that a device (or the fleet) receives.
pub struct DevicePolicyBundle {
    pub device_id: String,
    pub policies: Vec<Policy>,
    pub policy_json: JsonValue,
    pub locked_keys: Vec<String>,
    pub version: u32,
}

/// Checks a request to create a policy: group and device policies must name
/// their target.
pub fn validate_create(req: &CreatePolicyRequest) -> (r: Result<(), DbError>)
    ensures
        r is Ok <==> (req.scope == PolicyScope::Global || req.scope_target is Some),
        r matches Err(e) ==> e matches DbError::NotFound(m) && m@
            == "scope_target required for group/device policies"@,
{
    if req.scope != PolicyScope::Global && req.scope_target.is_none() {
        return Err(
            DbError::NotFound(String::from_str("scope_target required for group/device policies")),
        );
    }
    Ok(())
}

/// Builds a policy from its stored row and its parsed content; a row whose
/// scope is not a known scope name is refused.
pub fn row_to_policy(row: PolicyRow, content: JsonValue) -> (r: Result<Policy, DbError>)
    ensures
        match scope_named(row.scope@) {
            None => r matches Err(DbError::NotFound(m)) && m@ == "unknown scope "@ + row.scope@,
            Some(s) => r matches Ok(p) && p.scope == s && p.id == row.id && p.name == row.name
                && p.scope_target == row.scope_target && p.content == content && p.version
                == row.version && p.pushed_at == row.pushed_at && p.revoked_at == row.revoked_at
                && p.created_at == row.created_at,
        },
{
    match PolicyScope::from_str(row.scope.as_str()) {
        None => {
            let m = String::from_str("unknown scope ").concat(row.scope.as_str());
            Err(DbError::NotFound(m))
        },
        Some(scope) => Ok(
            Policy {
                id: row.id,
                name: row.name,
                scope,
                scope_target: row.scope_target,
                content,
                version: row.version,
                pushed_at: row.pushed_at,
                revoked_at: row.revoked_at,
                created_at: row.created_at,
            },
        ),
    }
}

/// A policy reaches a device when it is pushed, not revoked, and either global or
/// targeted at that device.
pub open spec fn effective_for(p: Policy, device_id: Seq<char>) -> bool {
    &&& p.revoked_at is None
    &&& p.pushed_at is Some
    &&& (p.scope == PolicyScope::Global || (p.scope == PolicyScope::Device && (p.scope_target
        matches Some(t) && t@ == device_id)))
}

/// A policy belongs to the global bundle when it is global and not revoked.
pub open spec fn in_global_bundle(p: Policy) -> bool {
    p.revoked_at is None && p.scope == PolicyScope::Global
}

/// The policies of `s`, in order, that reach the device.
pub open spec fn effective_seq(s: Seq<Policy>, device_id: Seq<char>) -> Seq<Policy>
    decreases s.len(),
{
    if s.len() == 0 {
        Seq::empty()
    } else {
        let rest = effective_seq(s.drop_last(), device_id);
        if effective_for(s.last(), device_id) {
            rest.push(s.last())
        } else {
            rest
        }
    }
}

/// The policies of `s`, in order, that belong to the global bundle.
pub open spec fn global_seq(s: Seq<Policy>) -> Seq<Policy>
    decreases s.len(),
{
    if s.len() == 0 {
        Seq::empty()
    } else {
        let rest = global_seq(s.drop_last());
        if in_global_bundle(s.last()) {
            rest.push(s.last())
        } else {
            rest
        }
    }
}

fn is_effective_for(p: &Policy, device_id: &str) -> (r: bool)
    ensures
        r == effective_for(*p, device_id@),
{
    if p.revoked_at.is_some() || p.pushed_at.is_none() {
        return false;
    }
    match p.scope {
        PolicyScope::Global => true,
        PolicyScope::Device => match &p.scope_target {
            Some(t) => text_eq(t.as_str(), device_id),
            None => false,
        },
        PolicyScope::Group => false,
    }
}

/// The policies that reach a device, in the order given.
pub fn effective_for_device(all: Vec<Policy>, device_id: &str) -> (r: Vec<Policy>)
    ensures
        r@ == effective_seq(all@, device_id@),
{
    let mut rest = all;
    let ghost whole = rest@;
    let total = rest.len();
    let mut out: Vec<Policy> = Vec::new();
    let mut taken: usize = 0;
    while rest.len() > 0
        invariant
            taken + rest@.len() == whole.len(),
            whole.len() == total,
            rest@ == whole.subrange(taken as int, whole.len() as int),
            out@ == effective_seq(whole.take(taken as int), device_id@),
        decreases rest@.len(),
    {
        let p = rest.remove(0);
        proof {
            assert(whole.take(taken + 1).drop_last() =~= whole.take(taken as int));
            assert(whole.take(taken + 1).last() == p);
        }
        if is_effective_for(&p, device_id) {
            out.push(p);
        }
        taken = taken + 1;
        proof {
            assert(rest@ =~= whole.subrange(taken as int, whole.len() as int));
        }
    }
    assert(whole.take(taken as int) =~= whole);
    out
}

/// The policies of the global bundle, in the order given.
pub fn global_policies(all: Vec<Policy>) -> (r: Vec<Policy>)
    ensures
        r@ == global_seq(all@),
{
    let mut rest = all;
    let ghost whole = rest@;
    let total = rest.len();
    let mut out: Vec<Policy> = Vec::new();
    let mut taken: usize = 0;
    while rest.len() > 0
        invariant
            taken + rest@.len() == whole.len(),
            whole.len() == total,
            rest@ == whole.subrange(taken as int, whole.len() as int),
            out@ == global_seq(whole.take(taken as int)),
        decreases rest@.len(),
    {
        let p = rest.remove(0);
        proof {
            assert(whole.take(taken + 1).drop_last() =~= whole.take(taken as int));
            assert(whole.take(taken + 1).last() == p);
        }
        if p.revoked_at.is_none() && p.scope == PolicyScope::Global {
            out.push(p);
        }
        taken = taken + 1;
        proof {
            assert(rest@ =~= whole.subrange(taken as int, whole.len() as int));
        }
    }
    assert(whole.take(taken as int) =~= whole);
    out
}

// ---------------------------------------------------------------------------
// Merging policy content
// ---------------------------------------------------------------------------

/// The members that a policy's `policy_json` object contributes, if it has one.
pub open spec fn inner_policy_json(f: JsonFields) -> Map<Seq<char>, JsonValue> {
    let m = crate::json::fields_map(f);
    if m.contains_key("policy_json"@) {
        match m["policy_json"@] {
            JsonValue::Object(g) => crate::json::fields_map(g),
            _ => Map::empty(),
        }
    } else {
        Map::empty()
    }
}

/// The members of a policy's content that are copied as they are: all but the
/// reserved `locked_keys` and `policy_json`.
pub open spec fn plain_members(f: JsonFields) -> Map<Seq<char>, JsonValue> {
    crate::json::fields_map(f).remove("locked_keys"@).remove("policy_json"@)
}

/// The state of a merged document: the members of an object (`Ok`), or a
/// non-object value that replaced the document (`Err`).
pub open spec fn merge_step(
    st: Result<Map<Seq<char>, JsonValue>, JsonValue>,
    content: JsonValue,
) -> Result<Map<Seq<char>, JsonValue>, JsonValue> {
    match content {
        JsonValue::Object(f) => match st {
            Ok(m) => Ok(m.union_prefer_right(inner_policy_json(f)).union_prefer_right(plain_members(f))),
            Err(_) => Ok(crate::json::fields_map(f)),
        },
        _ => Err(content),
    }
}

/// The merge state of a document.
pub open spec fn merge_state(v: JsonValue) -> Result<Map<Seq<char>, JsonValue>, JsonValue> {
    match v {
        JsonValue::Object(f) => Ok(crate::json::fields_map(f)),
        _ => Err(v),
    }
}

/// The merged document of a sequence of policies, starting from an empty object.
pub open spec fn merged(s: Seq<Policy>) -> Result<Map<Seq<char>, JsonValue>, JsonValue>
    decreases s.len(),
{
    if s.len() == 0 {
        Ok(Map::empty())
    } else {
        merge_step(merged(s.drop_last()), s.last().content)
    }
}

pub open spec fn reserved_key(k: Seq<char>) -> bool {
    k == "locked_keys"@ || k == "policy_json"@
}

/// Copies the members of `f` into `dst`, skipping the reserved keys when asked.
fn insert_members(dst: JsonFields, f: &JsonFields, skip_reserved: bool) -> (r: JsonFields)
    ensures
        skip_reserved ==> crate::json::fields_map(r) == crate::json::fields_map(dst).union_prefer_right(
            crate::json::fields_map(*f).remove("locked_keys"@).remove("policy_json"@),
        ),
        !skip_reserved ==> crate::json::fields_map(r) == crate::json::fields_map(dst).union_prefer_right(
            crate::json::fields_map(*f),
        ),
    decreases *f,
{
    match f {
        JsonFields::Empty => {
            assert(crate::json::fields_map(dst).union_prefer_right(Map::empty()) =~= crate::json::fields_map(dst));
            assert(Map::<Seq<char>, JsonValue>::empty().remove("locked_keys"@).remove("policy_json"@) =~= Map::empty());
            dst
        },
        JsonFields::Field(k, v, rest) => {
            let d = insert_members(dst, &**rest, skip_reserved);
            let ghost dm = crate::json::fields_map(dst);
            let ghost rm = crate::json::fields_map(**rest);
            let skip = skip_reserved && (text_eq(k.as_str(), "locked_keys") || text_eq(
                k.as_str(),
                "policy_json",
            ));
            if skip {
                proof {
                    assert(rm.insert(k@, **v).remove("locked_keys"@).remove("policy_json"@) =~= rm.remove(
                        "locked_keys"@,
                    ).remove("policy_json"@));
                }
                d
            } else {
                let r = fields_insert(d, k.clone(), clone_json(&**v));
                proof {
                    if skip_reserved {
                        assert(dm.union_prefer_right(rm.remove("locked_keys"@).remove("policy_json"@)).insert(
                            k@,
                            **v,
                        ) =~= dm.union_prefer_right(
                            rm.insert(k@, **v).remove("locked_keys"@).remove("policy_json"@),
                        ));
                    } else {
                        assert(dm.union_prefer_right(rm).insert(k@, **v) =~= dm.union_prefer_right(
                            rm.insert(k@, **v),
                        ));
                    }
                }
                r
            }
        },
    }
}

/// Merges one policy's content into the document built so far: object content
/// adds the members of its `policy_json` object, then its own members other than
/// `locked_keys` and `policy_json`, each overriding what was there; content that
/// is not an object, or content merged into a document that is not an object,
/// replaces the document.
pub fn merge_policy_content(target: JsonValue, content: &JsonValue) -> (r: JsonValue)
    ensures
        merge_state(r) == merge_step(merge_state(target), *content),
{
    match content {
        JsonValue::Object(src) => match target {
            JsonValue::Object(dst) => {
                let ghost dm = crate::json::fields_map(dst);
                let d1 = match fields_get(src, "policy_json") {
                    Some(JsonValue::Object(inner)) => insert_members(dst, inner, false),
                    _ => {
                        assert(dm.union_prefer_right(Map::empty()) =~= dm);
                        dst
                    },
                };
                proof {
                    assert(crate::json::fields_map(d1) == dm.union_prefer_right(inner_policy_json(*src)));
                }
                let d2 = insert_members(d1, src, true);
                JsonValue::Object(d2)
            },
            _ => clone_json(content),
        },
        _ => clone_json(content),
    }
}

// ---------------------------------------------------------------------------
// Locked keys and bundle versions
// ---------------------------------------------------------------------------

/// The views of a list of strings.
pub open spec fn texts(v: Seq<String>) -> Seq<Seq<char>> {
    v.map_values(|s: String| s@)
}

/// Appends a key unless it is already present.
pub open spec fn add_key(acc: Seq<Seq<char>>, k: Seq<char>) -> Seq<Seq<char>> {
    if acc.contains(k) {
        acc
    } else {
        acc.push(k)
    }
}

/// Appends, in order, the string elements of an array that are not present yet.
pub open spec fn add_item_keys(acc: Seq<Seq<char>>, items: JsonItems) -> Seq<Seq<char>>
    decreases items,
{
    match items {
        JsonItems::Empty => acc,
        JsonItems::Item(v, rest) => add_item_keys(
            match *v {
                JsonValue::String(s) => add_key(acc, s@),
                _ => acc,
            },
            *rest,
        ),
    }
}

/// Appends the names listed under a policy content's `locked_keys` array.
pub open spec fn add_locked_keys(acc: Seq<Seq<char>>, content: JsonValue) -> Seq<Seq<char>> {
    match crate::json::member(content, "locked_keys"@) {
        Some(JsonValue::Array(items)) => add_item_keys(acc, items),
        _ => acc,
    }
}

/// The locked keys of a sequence of policies: every name listed under some
/// policy's `locked_keys`, once, in order of first appearance.
pub open spec fn locked_keys_of(s: Seq<Policy>) -> Seq<Seq<char>>
    decreases s.len(),
{
    if s.len() == 0 {
        Seq::empty()
    } else {
        add_locked_keys(locked_keys_of(s.drop_last()), s.last().content)
    }
}

/// `a + b`, held at `u32::MAX`.
pub open spec fn saturating_sum(a: u32, b: u32) -> u32 {
    if a + b > u32::MAX {
        u32::MAX
    } else {
        (a + b) as u32
    }
}

/// The saturating sum of the policies' versions, each taken modulo 2^32.
pub open spec fn version_sum(s: Seq<Policy>) -> u32
    decreases s.len(),
{
    if s.len() == 0 {
        0
    } else {
        saturating_sum(version_sum(s.drop_last()), s.last().version as u32)
    }
}

proof fn lemma_add_key_unique(acc: Seq<Seq<char>>, k: Seq<char>)
    requires
        acc.no_duplicates(),
    ensures
        add_key(acc, k).no_duplicates(),
        forall|x: Seq<char>| acc.contains(x) ==> add_key(acc, k).contains(x),
        add_key(acc, k).contains(k),
{
    if !acc.contains(k) {
        assert forall|i: int, j: int|
            0 <= i < acc.push(k).len() && 0 <= j < acc.push(k).len() && i != j implies acc.push(k)[i]
            != acc.push(k)[j] by {
            if i == acc.len() as int {
                assert(!acc.contains(acc[j]) ==> false);
            }
            if j == acc.len() as int {
                assert(!acc.contains(acc[i]) ==> false);
            }
        }
        assert forall|x: Seq<char>| acc.contains(x) implies acc.push(k).contains(x) by {
            let i = choose|i: int| 0 <= i < acc.len() && acc[i] == x;
            assert(acc.push(k)[i] == x);
        }
        assert(acc.push(k)[acc.len() as int] == k);
    }
}

proof fn lemma_add_item_keys_unique(acc: Seq<Seq<char>>, items: JsonItems)
    requires
        acc.no_duplicates(),
    ensures
        add_item_keys(acc, items).no_duplicates(),
    decreases items,
{
    match items {
        JsonItems::Empty => {},
        JsonItems::Item(v, rest) => {
            match *v {
                JsonValue::String(s) => {
                    lemma_add_key_unique(acc, s@);
                    lemma_add_item_keys_unique(add_key(acc, s@), *rest);
                },
                _ => {
                    lemma_add_item_keys_unique(acc, *rest);
                },
            }
        },
    }
}

/// The locked keys of any sequence of policies name no key twice.
pub proof fn lemma_locked_keys_unique(s: Seq<Policy>)
    ensures
        locked_keys_of(s).no_duplicates(),
    decreases s.len(),
{
    if s.len() > 0 {
        lemma_locked_keys_unique(s.drop_last());
        let acc = locked_keys_of(s.drop_last());
        match crate::json::member(s.last().content, "locked_keys"@) {
            Some(JsonValue::Array(items)) => lemma_add_item_keys_unique(acc, items),
            _ => {},
        }
    }
}

fn contains_text(v: &Vec<String>, k: &str) -> (r: bool)
    ensures
        r == texts(v@).contains(k@),
{
    let mut i: usize = 0;
    while i < v.len()
        invariant
            i <= v@.len(),
            forall|j: int| 0 <= j < i ==> v@[j]@ != k@,
        decreases v@.len() - i,
    {
        if text_eq(v[i].as_str(), k) {
            assert(texts(v@)[i as int] == k@);
            return true;
        }
        i = i + 1;
    }
    assert forall|j: int| 0 <= j < texts(v@).len() implies texts(v@)[j] != k@ by {
        assert(texts(v@)[j] == v@[j]@);
    }
    false
}

fn collect_item_keys(acc: &mut Vec<String>, items: &JsonItems)
    ensures
        texts(final(acc)@) == add_item_keys(texts(old(acc)@), *items),
    decreases *items,
{
    match items {
        JsonItems::Empty => {},
        JsonItems::Item(v, rest) => {
            match &**v {
                JsonValue::String(s) => {
                    if !contains_text(acc, s.as_str()) {
                        let ghost before = acc@;
                        acc.push(s.clone());
                        assert(texts(acc@) =~= texts(before).push(s@));
                    }
                },
                _ => {},
            }
            collect_item_keys(acc, &**rest);
        },
    }
}

/// Adds the names under `content`'s `locked_keys` array that are not listed yet.
fn collect_locked_keys(acc: &mut Vec<String>, content: &JsonValue)
    ensures
        texts(final(acc)@) == add_locked_keys(texts(old(acc)@), *content),
{
    match content.get("locked_keys") {
        Some(JsonValue::Array(items)) => collect_item_keys(acc, items),
        _ => {},
    }
}

/// Assembles the bundle of a device from the policies that reach it: the
/// policies themselves, their contents merged in order onto an empty object,
/// their locked keys once each in order of first appearance, and a version that
/// is the saturating sum of their versions, at least 1.
pub fn build_bundle(device_id: String, policies: Vec<Policy>) -> (r: DevicePolicyBundle)
    ensures
        r.device_id == device_id,
        r.policies@ == policies@,
        merge_state(r.policy_json) == merged(policies@),
        texts(r.locked_keys@) == locked_keys_of(policies@),
        texts(r.locked_keys@).no_duplicates(),
        r.version == if version_sum(policies@) == 0 {
            1u32
        } else {
            version_sum(policies@)
        },
{
    let mut policy_json = JsonValue::empty_object();
    let mut locked_keys: Vec<String> = Vec::new();
    let mut version: u32 = 0;
    let mut i: usize = 0;
    proof {
        assert(policies@.take(0) =~= Seq::<Policy>::empty());
        assert(texts(locked_keys@) =~= Seq::<Seq<char>>::empty());
        assert(crate::json::fields_map(JsonFields::Empty) =~= Map::empty());
    }
    while i < policies.len()
        invariant
            i <= policies@.len(),
            merge_state(policy_json) == merged(policies@.take(i as int)),
            texts(locked_keys@) == locked_keys_of(policies@.take(i as int)),
            version == version_sum(policies@.take(i as int)),
        decreases policies@.len() - i,
    {
        let p = &policies[i];
        proof {
            assert(policies@.take(i + 1).drop_last() =~= policies@.take(i as int));
            assert(policies@.take(i + 1).last() == policies@[i as int]);
        }
        version = version.saturating_add(p.version as u32);
        policy_json = merge_policy_content(policy_json, &p.content);
        collect_locked_keys(&mut locked_keys, &p.content);
        i = i + 1;
    }
    proof {
        assert(policies@.take(i as int) =~= policies@);
        lemma_locked_keys_unique(policies@);
    }
    let version = if version < 1 {
        1
    } else {
        version
    };
    DevicePolicyBundle { device_id, policies, policy_json, locked_keys, version }
}

/// The bundle of a device, from all stored policies: those that reach the device, merged.
pub fn device_bundle(device_id: &str, all: Vec<Policy>) -> (r: DevicePolicyBundle)
    ensures
        r.device_id@ == device_id@,
        r.policies@ == effective_seq(all@, device_id@),
        merge_state(r.policy_json) == merged(effective_seq(all@, device_id@)),
        texts(r.locked_keys@) == locked_keys_of(effective_seq(all@, device_id@)),
        r.version == if version_sum(effective_seq(all@, device_id@)) == 0 {
            1u32
        } else {
            version_sum(effective_seq(all@, device_id@))
        },
{
    let policies = effective_for_device(all, device_id);
    build_bundle(String::from_str(device_id), policies)
}

/// The fleet-wide bundle, from all stored policies: the global ones that are not
/// revoked, merged, under the device id `global`.
pub fn global_bundle(all: Vec<Policy>) -> (r: DevicePolicyBundle)
    ensures
        r.device_id@ == "global"@,
        r.policies@ == global_seq(all@),
        merge_state(r.policy_json) == merged(global_seq(all@)),
        texts(r.locked_keys@) == locked_keys_of(global_seq(all@)),
        r.version == if version_sum(global_seq(all@)) == 0 {
            1u32
        } else {
            version_sum(global_seq(all@))
        },
{
    let policies = global_policies(all);
    build_bundle(String::from_str("global"), policies)
}

/// Every policy scope reads back from its stored name.
pub proof fn lemma_scope_round_trip(s: PolicyScope)
    ensures
        scope_named(scope_name(s)) == Some(s),
{
    reveal_strlit("global");
    reveal_strlit("group");
    reveal_strlit("device");
    assert("global"@ != "group"@ && "global"@ != "device"@ && "group"@ != "device"@) by {
        assert("global"@.len() != "group"@.len());
        assert("global"@[0] != "device"@[0]);
        assert("group"@.len() != "device"@.len());
    }
}

/// A policy is in a device's bundle exactly when it is one of the stored
/// policies and it reaches that device.
pub proof fn lemma_effective_membership(s: Seq<Policy>, device_id: Seq<char>, p: Policy)
    ensures
        effective_seq(s, device_id).contains(p) <==> (s.contains(p) && effective_for(p, device_id)),
    decreases s.len(),
{
    if s.len() > 0 {
        lemma_effective_membership(s.drop_last(), device_id, p);
        let rest = effective_seq(s.drop_last(), device_id);
        assert(s =~= s.drop_last().push(s.last()));
        if effective_for(s.last(), device_id) {
            assert(rest.push(s.last()).contains(p) <==> (rest.contains(p) || p == s.last())) by {
                if rest.push(s.last()).contains(p) {
                    let i = choose|i: int| 0 <= i < rest.push(s.last()).len() && rest.push(s.last())[i] == p;
                    if i < rest.len() {
                        assert(rest[i] == p);
                    }
                }
                if rest.contains(p) {
                    let i = choose|i: int| 0 <= i < rest.len() && rest[i] == p;
                    assert(rest.push(s.last())[i] == p);
                }
                if p == s.last() {
                    assert(rest.push(s.last())[rest.len() as int] == p);
                }
            }
        }
        assert(s.contains(p) <==> (s.drop_last().contains(p) || p == s.last())) by {
            if s.contains(p) {
                let i = choose|i: int| 0 <= i < s.len() && s[i] == p;
                if i < s.len() - 1 {
                    assert(s.drop_last()[i] == p);
                }
            }
            if s.drop_last().contains(p) {
                let i = choose|i: int| 0 <= i < s.drop_last().len() && s.drop_last()[i] == p;
                assert(s[i] == p);
            }
            if p == s.last() {
                assert(s[s.len() - 1] == p);
            }
        }
    }
}

/// Only live policies reach a device, and every live one that targets it does:
/// a policy is in a device's bundle exactly when it is one of the stored
/// policies, it has been pushed, it has not been revoked, and it is either
/// global or aimed at that very device. A revoked policy is never delivered.
pub proof fn lemma_bundle_holds_live_policies(s: Seq<Policy>, device_id: Seq<char>, p: Policy)
    ensures
        effective_seq(s, device_id).contains(p) ==> p.revoked_at is None,
        effective_seq(s, device_id).contains(p) ==> p.pushed_at is Some,
        effective_seq(s, device_id).contains(p) ==> s.contains(p),
        effective_seq(s, device_id).contains(p) ==> (p.scope == PolicyScope::Global || (p.scope
            == PolicyScope::Device && p.scope_target is Some && p.scope_target->Some_0@ == device_id)),
        s.contains(p) && p.revoked_at is None && p.pushed_at is Some && p.scope == PolicyScope::Global
            ==> effective_seq(s, device_id).contains(p),
        s.contains(p) && p.revoked_at is None && p.pushed_at is Some && p.scope == PolicyScope::Device
            && p.scope_target is Some && p.scope_target->Some_0@ == device_id ==> effective_seq(
            s,
            device_id,
        ).contains(p),
        p.scope == PolicyScope::Group ==> !effective_seq(s, device_id).contains(p),
{
    lemma_effective_membership(s, device_id, p);
}

/// A device's bundle keeps the stored order: it is exactly the stored
/// policies that reach the device, in the order they were given.
pub proof fn lemma_bundle_keeps_stored_order(s: Seq<Policy>, device_id: Seq<char>)
    ensures
        effective_seq(s, device_id) == s.filter(|p: Policy| effective_for(p, device_id)),
    decreases s.len(),
{
    reveal(Seq::filter);
    if s.len() > 0 {
        lemma_bundle_keeps_stored_order(s.drop_last(), device_id);
    }
}

/// The policy that comes last decides: a member that the last policy's
/// object content sets (other than `locked_keys` and `policy_json`) has that
/// value in the merged document.
pub proof fn lemma_last_policy_member_wins(s: Seq<Policy>, k: Seq<char>)
    requires
        s.len() > 0,
        s.last().content is Object,
        crate::json::fields_map(s.last().content->Object_0).contains_key(k),
        !reserved_key(k),
    ensures
        merged(s) is Ok,
        merged(s)->Ok_0.contains_key(k),
        merged(s)->Ok_0[k] == crate::json::fields_map(s.last().content->Object_0)[k],
{
    let f = s.last().content->Object_0;
    let pm = plain_members(f);
    assert(pm.contains_key(k));
    assert(pm[k] == crate::json::fields_map(f)[k]);
}

} // verus!
