use vstd::prelude::*;

use crate::text::{copy_opt_text, text_eq};

verus! {

pub struct FederationPeerSummary {
    pub peer_id: String,
    pub region: Option<String>,
    pub healthy: bool,
}

pub struct FederationSummary {
    pub total_peers: i64,
    pub healthy_peers: i64,
    pub devices_with_federation: i64,
    pub peers: Vec<FederationPeerSummary>,
}

pub struct AnonymityHeartbeatFederationPeer {
    pub peer_id: String,
    pub region: Option<String>,
    pub healthy: bool,
}

/// How many of the reported federation peers are healthy.
pub open spec fn count_healthy_peers(s: Seq<AnonymityHeartbeatFederationPeer>) -> nat
    decreases s.len(),
{
    if s.len() == 0 {
        0
    } else {
        count_healthy_peers(s.drop_last()) + if s.last().healthy {
            1nat
        } else {
            0nat
        }
    }
}

/// The anonymity health rule: connected, not a stub, a score of at least 50,
/// and at most one federation peer unhealthy.
pub open spec fn anonymity_healthy_rule(
    connected: bool,
    stub_mode: bool,
    score: Option<u8>,
    peers: Seq<AnonymityHeartbeatFederationPeer>,
) -> bool {
    let s: u8 = match score {
        Some(v) => v,
        None => 0,
    };
    let allowed: int = if peers.len() == 0 {
        0
    } else {
        peers.len() - 1
    };
    connected && !stub_mode && s >= 50 && count_healthy_peers(peers) >= allowed
}

proof fn lemma_healthy_peers_bound(s: Seq<AnonymityHeartbeatFederationPeer>)
    ensures
        count_healthy_peers(s) <= s.len(),
    decreases s.len(),
{
    if s.len() > 0 {
        lemma_healthy_peers_bound(s.drop_last());
    }
}

/// Whether an anonymity heartbeat reports a healthy device.
pub fn anonymity_healthy(
    connected: bool,
    stub_mode: bool,
    score: Option<u8>,
    peers: &Vec<AnonymityHeartbeatFederationPeer>,
) -> (r: bool)
    ensures
        r == anonymity_healthy_rule(connected, stub_mode, score, peers@),
{
    let s: u8 = match score {
        Some(v) => v,
        None => 0,
    };
    let mut healthy: usize = 0;
    let mut i: usize = 0;
    while i < peers.len()
        invariant
            i <= peers@.len(),
            healthy == count_healthy_peers(peers@.take(i as int)),
            healthy <= i,
        decreases peers@.len() - i,
    {
        proof {
            assert(peers@.take(i + 1).drop_last() =~= peers@.take(i as int));
        }
        if peers[i].healthy {
            healthy = healthy + 1;
        }
        i = i + 1;
    }
    assert(peers@.take(i as int) =~= peers@);
    let allowed = peers.len().saturating_sub(1);
    connected && !stub_mode && s >= 50 && healthy >= allowed
}

/// A score read from storage, held to 0..=100.
pub fn clamp_score(stored: i64) -> (r: u8)
    ensures
        r == (if stored < 0 {
            0
        } else if stored > 100 {
            100
        } else {
            stored
        }),
{
    if stored < 0 {
        0
    } else if stored > 100 {
        100
    } else {
        stored as u8
    }
}

/// How many flags are set: the active routes of a heartbeat.
pub open spec fn count_set(s: Seq<bool>) -> nat
    decreases s.len(),
{
    if s.len() == 0 {
        0
    } else {
        count_set(s.drop_last()) + if s.last() {
            1nat
        } else {
            0nat
        }
    }
}

/// The number of active routes, given each route's active flag.
pub fn active_count(flags: &Vec<bool>) -> (r: i64)
    requires
        flags@.len() <= i64::MAX,
    ensures
        r == count_set(flags@),
{
    let mut n: i64 = 0;
    let mut i: usize = 0;
    while i < flags.len()
        invariant
            i <= flags@.len(),
            flags@.len() <= i64::MAX,
            n == count_set(flags@.take(i as int)),
            n <= i,
        decreases flags@.len() - i,
    {
        proof {
            assert(flags@.take(i + 1).drop_last() =~= flags@.take(i as int));
        }
        if flags[i] {
            n = n + 1;
        }
        i = i + 1;
    }
    assert(flags@.take(i as int) =~= flags@);
    n
}

/// Whether a peer with this id is already listed.
pub open spec fn lists_peer(acc: Seq<FederationPeerSummary>, id: Seq<char>) -> bool {
    exists|i: int| 0 <= i < acc.len() && (#[trigger] acc[i]).peer_id@ == id
}

/// The summary entry of a reported peer.
pub open spec fn peer_entry(p: AnonymityHeartbeatFederationPeer) -> FederationPeerSummary {
    FederationPeerSummary { peer_id: p.peer_id, region: p.region, healthy: p.healthy }
}

/// The peers listed after adding `peers` in order to `acc`: a peer whose id is
/// already listed is passed over, so the first report of an id is the one kept.
pub open spec fn add_peers(acc: Seq<FederationPeerSummary>, peers: Seq<AnonymityHeartbeatFederationPeer>) -> Seq<
    FederationPeerSummary,
>
    decreases peers.len(),
{
    if peers.len() == 0 {
        acc
    } else {
        let before = add_peers(acc, peers.drop_last());
        let p = peers.last();
        if lists_peer(before, p.peer_id@) {
            before
        } else {
            before.push(peer_entry(p))
        }
    }
}

/// The peers listed from the reports of several devices, each report being a
/// device's peer count and the peers it described; a device that reports no
/// peers contributes none.
pub open spec fn collected_peers(reports: Seq<(i64, Vec<AnonymityHeartbeatFederationPeer>)>) -> Seq<
    FederationPeerSummary,
>
    decreases reports.len(),
{
    if reports.len() == 0 {
        Seq::empty()
    } else {
        let before = collected_peers(reports.drop_last());
        let (count, peers) = reports.last();
        if count == 0 {
            before
        } else {
            add_peers(before, peers@)
        }
    }
}

/// How many reports name at least one peer.
pub open spec fn count_federated(reports: Seq<(i64, Vec<AnonymityHeartbeatFederationPeer>)>) -> nat
    decreases reports.len(),
{
    if reports.len() == 0 {
        0
    } else {
        count_federated(reports.drop_last()) + if reports.last().0 != 0 {
            1nat
        } else {
            0nat
        }
    }
}

/// How many listed peers are healthy.
pub open spec fn count_healthy_entries(s: Seq<FederationPeerSummary>) -> nat
    decreases s.len(),
{
    if s.len() == 0 {
        0
    } else {
        count_healthy_entries(s.drop_last()) + if s.last().healthy {
            1nat
        } else {
            0nat
        }
    }
}

/// No two listed peers share an id.
pub open spec fn distinct_peers(s: Seq<FederationPeerSummary>) -> bool {
    forall|i: int, j: int| 0 <= i < j < s.len() ==> (#[trigger] s[i]).peer_id@ != (#[trigger] s[j]).peer_id@
}

fn listed(acc: &Vec<FederationPeerSummary>, id: &str) -> (r: bool)
    ensures
        r == lists_peer(acc@, id@),
{
    let mut i: usize = 0;
    while i < acc.len()
        invariant
            i <= acc@.len(),
            forall|k: int| 0 <= k < i ==> (#[trigger] acc@[k]).peer_id@ != id@,
        decreases acc@.len() - i,
    {
        if text_eq(acc[i].peer_id.as_str(), id) {
            return true;
        }
        i = i + 1;
    }
    false
}

fn add_reported_peers(acc: &mut Vec<FederationPeerSummary>, peers: &Vec<AnonymityHeartbeatFederationPeer>)
    ensures
        final(acc)@ == add_peers(old(acc)@, peers@),
{
    let ghost start = acc@;
    let mut i: usize = 0;
    while i < peers.len()
        invariant
            i <= peers@.len(),
            acc@ == add_peers(start, peers@.take(i as int)),
        decreases peers@.len() - i,
    {
        let p = &peers[i];
        proof {
            assert(peers@.take(i + 1).drop_last() =~= peers@.take(i as int));
            assert(peers@.take(i + 1).last() == peers@[i as int]);
        }
        if !listed(acc, p.peer_id.as_str()) {
            acc.push(
                FederationPeerSummary {
                    peer_id: p.peer_id.clone(),
                    region: copy_opt_text(&p.region),
                    healthy: p.healthy,
                },
            );
        }
        i = i + 1;
    }
    assert(peers@.take(i as int) =~= peers@);
}

/// The federation figures across devices: how many devices report peers, the
/// distinct peers they name (first report of an id kept), and how many of
/// those are healthy.
pub fn federation_summary(reports: Vec<(i64, Vec<AnonymityHeartbeatFederationPeer>)>) -> (r: FederationSummary)
    requires
        reports@.len() <= i64::MAX,
    ensures
        r.peers@ == collected_peers(reports@),
        r.total_peers == r.peers@.len() as i64,
        r.healthy_peers == count_healthy_entries(r.peers@) as i64,
        r.devices_with_federation == count_federated(reports@),
{
    let mut peers: Vec<FederationPeerSummary> = Vec::new();
    let mut devices: i64 = 0;
    let mut i: usize = 0;
    while i < reports.len()
        invariant
            i <= reports@.len(),
            reports@.len() <= i64::MAX,
            peers@ == collected_peers(reports@.take(i as int)),
            devices == count_federated(reports@.take(i as int)),
            devices <= i,
        decreases reports@.len() - i,
    {
        proof {
            assert(reports@.take(i + 1).drop_last() =~= reports@.take(i as int));
            assert(reports@.take(i + 1).last() == reports@[i as int]);
        }
        let report = &reports[i];
        if report.0 != 0 {
            devices = devices + 1;
            add_reported_peers(&mut peers, &report.1);
        }
        i = i + 1;
    }
    assert(reports@.take(i as int) =~= reports@);
    let mut healthy: usize = 0;
    let mut k: usize = 0;
    while k < peers.len()
        invariant
            k <= peers@.len(),
            healthy == count_healthy_entries(peers@.take(k as int)),
            healthy <= k,
        decreases peers@.len() - k,
    {
        proof {
            assert(peers@.take(k + 1).drop_last() =~= peers@.take(k as int));
        }
        if peers[k].healthy {
            healthy = healthy + 1;
        }
        k = k + 1;
    }
    assert(peers@.take(k as int) =~= peers@);
    FederationSummary {
        total_peers: peers.len() as i64,
        healthy_peers: healthy as i64,
        devices_with_federation: devices,
        peers,
    }
}

proof fn lemma_add_peers_distinct(acc: Seq<FederationPeerSummary>, peers: Seq<AnonymityHeartbeatFederationPeer>)
    requires
        distinct_peers(acc),
    ensures
        distinct_peers(add_peers(acc, peers)),
    decreases peers.len(),
{
    if peers.len() > 0 {
        lemma_add_peers_distinct(acc, peers.drop_last());
        let before = add_peers(acc, peers.drop_last());
        let p = peers.last();
        if !lists_peer(before, p.peer_id@) {
            let after = before.push(peer_entry(p));
            assert forall|i: int, j: int| 0 <= i < j < after.len() implies (#[trigger] after[i]).peer_id@
                != (#[trigger] after[j]).peer_id@ by {
                if j == before.len() {
                    assert(after[i] == before[i]);
                    assert(!(before[i].peer_id@ == p.peer_id@));
                } else {
                    assert(after[i] == before[i] && after[j] == before[j]);
                }
            }
        }
    }
}

/// The federation summary never lists a peer twice: the peers collected from
/// any reports have distinct ids.
pub proof fn lemma_federation_peers_distinct(reports: Seq<(i64, Vec<AnonymityHeartbeatFederationPeer>)>)
    ensures
        distinct_peers(collected_peers(reports)),
    decreases reports.len(),
{
    if reports.len() > 0 {
        lemma_federation_peers_distinct(reports.drop_last());
        let (count, peers) = reports.last();
        if count != 0 {
            lemma_add_peers_distinct(collected_peers(reports.drop_last()), peers@);
        }
    }
}

/// The running total of the federation peers the snapshots report.
pub open spec fn peer_total(s: Seq<i64>) -> int
    decreases s.len(),
{
    if s.len() == 0 {
        0
    } else {
        peer_total(s.drop_last()) + s.last()
    }
}

/// Every running total of the peer counts fits in `i64`.
pub open spec fn peer_totals_fit(s: Seq<i64>) -> bool {
    forall|k: int| 0 <= k <= s.len() ==> i64::MIN <= #[trigger] peer_total(s.take(k)) <= i64::MAX
}

/// The total of the federation peers the latest snapshots report.
pub fn federation_peers_total(counts: &Vec<i64>) -> (r: i64)
    requires
        peer_totals_fit(counts@),
    ensures
        r == peer_total(counts@),
{
    let mut total: i64 = 0;
    let mut i: usize = 0;
    while i < counts.len()
        invariant
            i <= counts@.len(),
            peer_totals_fit(counts@),
            total == peer_total(counts@.take(i as int)),
        decreases counts@.len() - i,
    {
        proof {
            assert(counts@.take(i + 1).drop_last() =~= counts@.take(i as int));
            assert(counts@.take(i + 1).last() == counts@[i as int]);
            assert(i64::MIN <= peer_total(counts@.take(i + 1)) <= i64::MAX);
        }
        total = total + counts[i];
        i = i + 1;
    }
    assert(counts@.take(i as int) =~= counts@);
    total
}

/// The federation summary never lists more peers than it was told about, and
/// never more healthy ones than it lists.
pub proof fn lemma_healthy_entries_bound(s: Seq<FederationPeerSummary>)
    ensures
        count_healthy_entries(s) <= s.len(),
    decreases s.len(),
{
    if s.len() > 0 {
        lemma_healthy_entries_bound(s.drop_last());
    }
}

} // verus!
