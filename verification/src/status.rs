//! The status model: the normalized snapshot built from one successful
//! poll of the daemon, with its derived fields and its display order.
//!
//! Peers arrive keyed by the daemon's internal identifier and leave as
//! an ordered sequence: online peers first, then case-folded hostnames
//! ascending.  The exit-node bit of the snapshot is the disjunction of
//! the peers' own bits, recomputed on every build.

use vstd::prelude::*;
use crate::text::{lex_le, lemma_lex_le_total, lemma_lex_le_trans, lower_of, lowercase, str_lex_le};

verus! {

/// The local node as one poll reported it.
#[derive(Debug, Clone)]
pub struct NodeInfo {
    pub hostname: String,
    pub tailscale_ips: Vec<String>,
}

/// One peer as one poll reported it.
#[derive(Debug, Clone)]
pub struct PeerInfo {
    pub hostname: String,
    pub tailscale_ips: Vec<String>,
    pub os: String,
    pub online: bool,
    pub exit_node: bool,
}

/// The immutable snapshot one successful poll produces; replaced
/// wholesale, never mutated in place.
#[derive(Debug, Clone)]
pub struct TailscaleStatus {
    pub backend_state: String,
    pub self_node: NodeInfo,
    pub peers: Vec<PeerInfo>,
    pub tailnet_name: String,
    pub exit_node_active: bool,
}

/// The display order on peers: online before offline, and within each
/// group case-folded hostnames ascending.
pub open spec fn peer_le(a: PeerInfo, b: PeerInfo) -> bool {
    if a.online != b.online {
        a.online
    } else {
        lex_le(lower_of(a.hostname@), lower_of(b.hostname@))
    }
}

/// Any two peers are comparable in display order.
pub proof fn lemma_peer_le_total(a: PeerInfo, b: PeerInfo)
    ensures
        peer_le(a, b) || peer_le(b, a),
{
    if a.online == b.online {
        lemma_lex_le_total(lower_of(a.hostname@), lower_of(b.hostname@));
    }
}

/// The display order is transitive.
pub proof fn lemma_peer_le_trans(a: PeerInfo, b: PeerInfo, c: PeerInfo)
    requires
        peer_le(a, b),
        peer_le(b, c),
    ensures
        peer_le(a, c),
{
    if a.online == b.online && b.online == c.online {
        lemma_lex_le_trans(
            lower_of(a.hostname@),
            lower_of(b.hostname@),
            lower_of(c.hostname@),
        );
    }
}

/// Two peers each at or below the other in display order agree on
/// their online bit and their folded hostname.
proof fn lemma_peer_le_tie(x: PeerInfo, y: PeerInfo)
    requires
        peer_le(x, y),
        peer_le(y, x),
    ensures
        x.online == y.online,
        lower_of(x.hostname@) == lower_of(y.hostname@),
{
    if x.online == y.online {
        crate::text::lemma_lex_le_antisym(lower_of(x.hostname@), lower_of(y.hostname@));
    }
}

/// A peer sequence in display order.
pub open spec fn peers_sorted(s: Seq<PeerInfo>) -> bool {
    forall|i: int, j: int| 0 <= i < j < s.len() ==> peer_le(#[trigger] s[i], #[trigger] s[j])
}

/// Decides the display order on two peers.
fn peer_le_exec(a: &PeerInfo, b: &PeerInfo) -> (r: bool)
    ensures
        r == peer_le(*a, *b),
{
    if a.online != b.online {
        a.online
    } else {
        let la = lowercase(a.hostname.as_str());
        let lb = lowercase(b.hostname.as_str());
        str_lex_le(la.as_str(), lb.as_str())
    }
}

/// Sorts the peers into display order.  The result is ordered and holds
/// exactly the peers that went in.
pub fn sort_peers(v: &mut Vec<PeerInfo>)
    ensures
        peers_sorted(final(v)@),
        final(v)@.to_multiset() == old(v)@.to_multiset(),
{
    let n = v.len();
    if n <= 1 {
        return ;
    }
    let mut i: usize = 1;
    while i < n
        invariant
            1 <= i <= n,
            n == v.len(),
            peers_sorted(v@.take(i as int)),
            v@.to_multiset() == old(v)@.to_multiset(),
        decreases n - i,
    {
        let ghost prev = v@;
        let x = v.remove(i);
        let ghost t = v@;
        proof {
            assert(t =~= prev.remove(i as int));
            assert(t.take(i as int) =~= prev.take(i as int));
        }
        let mut j: usize = 0;
        while j < i && peer_le_exec(&v[j], &x)
            invariant
                j <= i,
                i < n,
                n - 1 == v.len(),
                t == v@,
                forall|k: int| 0 <= k < j ==> peer_le(#[trigger] t[k], x),
            decreases i - j,
        {
            j += 1;
        }
        v.insert(j, x);
        proof {
            broadcast use vstd::seq_lib::to_multiset_remove;
            broadcast use vstd::seq_lib::to_multiset_insert;
            broadcast use vstd::seq_lib::to_multiset_contains;
            broadcast use vstd::multiset::group_multiset_axioms;

            assert(v@ =~= t.insert(j as int, x));
            // the peers are unchanged as a collection
            assert(prev.to_multiset().count(x) > 0) by {
                assert(prev[i as int] == x);
                assert(prev.contains(x));
            }
            assert(t.to_multiset() == prev.remove(i as int).to_multiset());
            assert(prev.remove(i as int).to_multiset() == prev.to_multiset().remove(x));
            assert(t.insert(j as int, x).to_multiset() == t.to_multiset().insert(x));
            assert(v@.to_multiset() =~= prev.to_multiset());
            // and the sorted prefix has grown by one
            let s = v@.take(i + 1);
            assert(s =~= t.take(i as int).insert(j as int, x));
            assert forall|p: int, q: int| 0 <= p < q < s.len() implies peer_le(
                #[trigger] s[p],
                #[trigger] s[q],
            ) by {
                if p == j as int && q > j {
                    // x sits before the peer the scan stopped at, and
                    // by transitivity before everything after it
                    assert(j < i);
                    lemma_peer_le_total(t[j as int], x);
                    if q - 1 > j {
                        lemma_peer_le_trans(x, t[j as int], t[q - 1]);
                    }
                } else if p < j && q == j as int {
                    assert(peer_le(t[p], x));
                } else if p < j && q > j {
                    assert(s[q] == t[q - 1]);
                } else if p > j {
                    assert(s[p] == t[p - 1] && s[q] == t[q - 1]);
                } else {
                    // both sit before the insertion point, untouched
                    assert(s[p] == t[p] && s[q] == t[q]);
                }
            }
        }
        i += 1;
    }
    proof {
        assert(v@.take(n as int) =~= v@);
    }
}

/// The display order is deterministic: with hostnames unique once case
/// is folded — the daemon's own guarantee per response — there is
/// exactly one arrangement of a given set of peers in display order.
pub proof fn lemma_display_order_unique(a: Seq<PeerInfo>, b: Seq<PeerInfo>)
    requires
        peers_sorted(a),
        peers_sorted(b),
        a.to_multiset() == b.to_multiset(),
        forall|i: int, j: int|
            0 <= i < j < a.len() ==> lower_of((#[trigger] a[i]).hostname@) != lower_of(
                (#[trigger] a[j]).hostname@,
            ),
    ensures
        a == b,
    decreases a.len(),
{
    broadcast use vstd::seq_lib::to_multiset_remove;
    broadcast use vstd::seq_lib::to_multiset_contains;
    broadcast use vstd::seq_lib::to_multiset_len;
    broadcast use vstd::multiset::group_multiset_axioms;

    assert(a.len() == a.to_multiset().len());
    assert(b.len() == b.to_multiset().len());
    if a.len() == 0 {
        assert(a =~= b);
    } else {
        // each head sits in the other sequence
        assert(b.to_multiset().count(a[0]) > 0) by {
            assert(a.contains(a[0]));
        }
        assert(b.contains(a[0]));
        let j = choose|j: int| 0 <= j < b.len() && b[j] == a[0];
        assert(a.to_multiset().count(b[0]) > 0) by {
            assert(b.contains(b[0]));
        }
        assert(a.contains(b[0]));
        let i = choose|i: int| 0 <= i < a.len() && a[i] == b[0];
        // the heads tie in display order, so they share a folded
        // hostname, and folded hostnames are unique: the heads agree
        if i != 0 && j != 0 {
            assert(peer_le(b[0], b[j]));
            assert(peer_le(a[0], a[i]));
            lemma_peer_le_tie(a[0], b[0]);
            assert(lower_of(a[0].hostname@) == lower_of(a[i].hostname@));
            assert(false);
        }
        assert(a[0] == b[0]);
        // and the tails hold the same peers, still in display order
        let at = a.drop_first();
        let bt = b.drop_first();
        assert(at =~= a.remove(0));
        assert(bt =~= b.remove(0));
        assert(at.to_multiset() == bt.to_multiset());
        assert(peers_sorted(at)) by {
            assert forall|p: int, q: int| 0 <= p < q < at.len() implies peer_le(
                #[trigger] at[p],
                #[trigger] at[q],
            ) by {
                assert(at[p] == a[p + 1] && at[q] == a[q + 1]);
            }
        }
        assert(peers_sorted(bt)) by {
            assert forall|p: int, q: int| 0 <= p < q < bt.len() implies peer_le(
                #[trigger] bt[p],
                #[trigger] bt[q],
            ) by {
                assert(bt[p] == b[p + 1] && bt[q] == b[q + 1]);
            }
        }
        assert forall|p: int, q: int| 0 <= p < q < at.len() implies lower_of(
            (#[trigger] at[p]).hostname@,
        ) != lower_of((#[trigger] at[q]).hostname@) by {
            assert(at[p] == a[p + 1] && at[q] == a[q + 1]);
        }
        lemma_display_order_unique(at, bt);
        assert(a =~= b) by {
            assert forall|k: int| 0 <= k < a.len() implies a[k] == b[k] by {
                if k > 0 {
                    assert(a[k] == at[k - 1] && b[k] == bt[k - 1]);
                }
            }
        }
    }
}

/// Whether any peer in the sequence advertises itself as an exit node.
pub open spec fn spec_any_exit(peers: Seq<PeerInfo>) -> bool {
    exists|i: int| 0 <= i < peers.len() && peers[i].exit_node
}

/// Whether some peer advertises an exit node is a property of the
/// peers as a collection: any rearrangement answers alike.
proof fn lemma_any_exit_permuted(a: Seq<PeerInfo>, b: Seq<PeerInfo>)
    requires
        a.to_multiset() == b.to_multiset(),
    ensures
        spec_any_exit(a) == spec_any_exit(b),
{
    broadcast use vstd::seq_lib::to_multiset_contains;
    broadcast use vstd::multiset::group_multiset_axioms;

    if spec_any_exit(a) {
        let i = choose|i: int| 0 <= i < a.len() && a[i].exit_node;
        assert(a.contains(a[i]));
        assert(a.to_multiset().count(a[i]) > 0);
        assert(b.to_multiset().count(a[i]) > 0);
        assert(b.contains(a[i]));
        let k = choose|k: int| 0 <= k < b.len() && b[k] == a[i];
        assert(b[k].exit_node);
    }
    if spec_any_exit(b) {
        let i = choose|i: int| 0 <= i < b.len() && b[i].exit_node;
        assert(b.contains(b[i]));
        assert(b.to_multiset().count(b[i]) > 0);
        assert(a.to_multiset().count(b[i]) > 0);
        assert(a.contains(b[i]));
        let k = choose|k: int| 0 <= k < a.len() && a[k] == b[i];
        assert(a[k].exit_node);
    }
}

/// The snapshot's derived exit-node bit: true iff at least one peer's
/// raw exit-node flag is set; false for an empty peer set.
pub fn any_exit_node(peers: &Vec<PeerInfo>) -> (b: bool)
    ensures
        b == spec_any_exit(peers@),
{
    let mut i: usize = 0;
    while i < peers.len()
        invariant
            i <= peers.len(),
            forall|k: int| 0 <= k < i ==> !peers@[k].exit_node,
        decreases peers.len() - i,
    {
        if peers[i].exit_node {
            return true;
        }
        i += 1;
    }
    false
}

/// Builds the normalized snapshot from the raw pieces of one successful
/// poll: peers sorted into display order, the exit-node bit recomputed
/// over all peers, and an absent tailnet descriptor read as the empty
/// name.
pub fn build_status(
    backend_state: String,
    self_node: NodeInfo,
    peers: Vec<PeerInfo>,
    tailnet_name: Option<String>,
) -> (r: TailscaleStatus)
    ensures
        r.backend_state == backend_state,
        r.self_node == self_node,
        r.exit_node_active == spec_any_exit(peers@),
        r.exit_node_active == spec_any_exit(r.peers@),
        peers_sorted(r.peers@),
        r.peers@.to_multiset() == peers@.to_multiset(),
        match tailnet_name {
            Some(t) => r.tailnet_name == t,
            None => r.tailnet_name@ == Seq::<char>::empty(),
        },
{
    let exit_node_active = any_exit_node(&peers);
    let ghost unsorted = peers@;
    let mut peers = peers;
    sort_peers(&mut peers);
    proof {
        lemma_any_exit_permuted(unsorted, peers@);
    }
    let tailnet_name = match tailnet_name {
        Some(t) => t,
        None => String::new(),
    };
    TailscaleStatus { backend_state, self_node, peers, tailnet_name, exit_node_active }
}

/// Whether a snapshot reports the daemon's connectivity as running.
pub open spec fn spec_running(s: TailscaleStatus) -> bool {
    s.backend_state@ == "Running"@
}

/// The primary mesh address shown for a node: the first address in the
/// daemon's reported list, or the empty string when the list is empty.
pub fn primary_ip(ips: &Vec<String>) -> (r: String)
    ensures
        ips@.len() > 0 ==> r@ == ips@[0]@,
        ips@.len() == 0 ==> r@ == Seq::<char>::empty(),
{
    if ips.len() > 0 {
        ips[0].clone()
    } else {
        String::new()
    }
}

} // verus!
