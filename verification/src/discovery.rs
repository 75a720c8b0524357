//! Decisions of peer discovery: which side of a newly discovered pair opens
//! the connection, and what a peer's expiry does.

use vstd::prelude::*;
use crate::endpoint::EndpointId;
use crate::peer::{PeerHandshake, PeerInfo, PeerTable, disconnected, info_from};

verus! {

/// `a` comes strictly before `b` in lexicographic byte order: at the first
/// position where they differ, `a` has the smaller byte.
pub open spec fn lex_less(a: Seq<u8>, b: Seq<u8>) -> bool {
    exists|i: int|
        0 <= i < a.len() && i < b.len() && (forall|j: int| 0 <= j < i ==> a[j] == b[j]) && a[i]
            < b[i]
}

/// Whether this node opens the connection to a discovered peer: only the
/// side with the lower identity initiates, so that a pair connects once.
pub fn should_initiate(our_id: &EndpointId, peer_id: &EndpointId) -> (r: bool)
    ensures
        r == lex_less(our_id@, peer_id@),
{
    let a = our_id.as_bytes();
    let b = peer_id.as_bytes();
    let mut i: usize = 0;
    while i < 32
        invariant
            0 <= i <= 32,
            a@.len() == 32,
            b@.len() == 32,
            a@ == our_id@,
            b@ == peer_id@,
            forall|j: int| 0 <= j < i ==> a@[j] == b@[j],
        decreases 32 - i,
    {
        if a[i] != b[i] {
            let r = a[i] < b[i];
            proof {
                if !r {
                    assert forall|k: int|
                        !(0 <= k < 32 && (forall|j: int| 0 <= j < k ==> a@[j] == b@[j]) && a@[k]
                            < b@[k]) by {
                        if 0 <= k < 32 && (forall|j: int| 0 <= j < k ==> a@[j] == b@[j]) {
                            if k < i {
                            } else if k > i {
                                assert(a@[i as int] == b@[i as int]);
                            }
                        }
                    }
                }
            }
            return r;
        }
        i = i + 1;
    }
    proof {
        assert forall|k: int|
            !(0 <= k < 32 && (forall|j: int| 0 <= j < k ==> a@[j] == b@[j]) && a@[k] < b@[k]) by {
        }
    }
    false
}

/// For two nodes of different identity exactly one opens the connection to
/// the other; a node never opens one to itself.
pub proof fn lemma_exactly_one_initiates(a: EndpointId, b: EndpointId)
    ensures
        a@ != b@ ==> (lex_less(a@, b@) <==> !lex_less(b@, a@)),
        a@ == b@ ==> !lex_less(a@, b@),
{
    a.lemma_len();
    b.lemma_len();
    let x = a@;
    let y = b@;
    if x != y {
        assert(exists|k: int| 0 <= k < 32 && x[k] != y[k]) by {
            if forall|k: int| 0 <= k < 32 ==> x[k] == y[k] {
                assert(x =~= y);
            }
        }
        let k0 = choose|k: int| 0 <= k < 32 && x[k] != y[k];
        let f = first_difference(x, y, k0);
        if x[f] < y[f] {
            assert(lex_less(x, y));
            assert forall|i: int|
                !(0 <= i < y.len() && i < x.len() && (forall|j: int| 0 <= j < i ==> y[j] == x[j])
                    && y[i] < x[i]) by {
                if 0 <= i < 32 && (forall|j: int| 0 <= j < i ==> y[j] == x[j]) {
                    if i < f {
                    } else if i > f {
                        assert(y[f] == x[f]);
                    }
                }
            }
        } else {
            assert(lex_less(y, x));
            assert forall|i: int|
                !(0 <= i < x.len() && i < y.len() && (forall|j: int| 0 <= j < i ==> x[j] == y[j])
                    && x[i] < y[i]) by {
                if 0 <= i < 32 && (forall|j: int| 0 <= j < i ==> x[j] == y[j]) {
                    if i < f {
                    } else if i > f {
                        assert(x[f] == y[f]);
                    }
                }
            }
        }
    } else {
        assert forall|i: int|
            !(0 <= i < x.len() && i < y.len() && (forall|j: int| 0 <= j < i ==> x[j] == y[j])
                && x[i] < y[i]) by {
        }
    }
}

/// The first position at which two sequences of the same length differ, given
/// some position `k` at which they do.
proof fn first_difference(x: Seq<u8>, y: Seq<u8>, k: int) -> (f: int)
    requires
        x.len() == y.len(),
        0 <= k < x.len(),
        x[k] != y[k],
    ensures
        0 <= f <= k,
        x[f] != y[f],
        forall|j: int| 0 <= j < f ==> x[j] == y[j],
    decreases k,
{
    if exists|j: int| 0 <= j < k && x[j] != y[j] {
        let j = choose|j: int| 0 <= j < k && x[j] != y[j];
        first_difference(x, y, j)
    } else {
        k
    }
}

/// The expiry of a peer undoes its handshake in the tunnel: once a handshake
/// from `id` is recorded, the expiry of `id` removes the tunnel entry with the
/// key that handshake carried, and leaves the peer known but disconnected.
pub proof fn lemma_expiry_undoes_handshake(
    table: Map<Seq<u8>, PeerInfo>,
    id: EndpointId,
    handshake: PeerHandshake,
    now: u64,
)
    ensures
        ({
            let after = table.insert(id@, info_from(id, handshake, now));
            &&& after.contains_key(id@)
            &&& after[id@].tunnel_pubkey == handshake.tunnel_pubkey
            &&& after.insert(id@, disconnected(after[id@]))[id@] == PeerInfo {
                connected: false,
                ..info_from(id, handshake, now)
            }
        }),
{
}

/// An event of the local-network discovery service.
#[derive(Debug)]
pub enum DiscoveryEvent {
    /// A peer announced itself.
    Discovered { endpoint_id: EndpointId },
    /// A peer's announcement expired.
    Expired { endpoint_id: EndpointId },
}

/// What the daemon does in answer to a discovery event.
#[derive(Debug)]
pub enum DiscoveryAction {
    /// Connect to the peer and send it our handshake.
    Initiate { peer: EndpointId },
    /// Remove the tunnel entry with this public key.
    RemoveTunnelPeer { pubkey: String },
    /// Nothing to do.
    Ignore,
}

/// The daemon's answer to a discovery event. A discovered peer is contacted
/// only by the side with the lower identity and leaves the table unchanged; an
/// expired peer that is known is marked disconnected and its tunnel entry is
/// removed.
pub fn on_discovery_event(
    peers: &mut PeerTable,
    our_id: &EndpointId,
    event: DiscoveryEvent,
) -> (action: DiscoveryAction)
    ensures
        match event {
            DiscoveryEvent::Discovered { endpoint_id } => {
                &&& final(peers).peers() == old(peers).peers()
                &&& action == (if lex_less(our_id@, endpoint_id@) {
                    DiscoveryAction::Initiate { peer: endpoint_id }
                } else {
                    DiscoveryAction::Ignore
                })
            },
            DiscoveryEvent::Expired { endpoint_id } => if old(peers)@.contains_key(endpoint_id@) {
                &&& final(peers)@ == old(peers)@.insert(
                    endpoint_id@,
                    disconnected(old(peers)@[endpoint_id@]),
                )
                &&& action == DiscoveryAction::RemoveTunnelPeer {
                    pubkey: old(peers)@[endpoint_id@].tunnel_pubkey,
                }
            } else {
                &&& final(peers).peers() == old(peers).peers()
                &&& action == DiscoveryAction::Ignore
            },
        },
{
    match event {
        DiscoveryEvent::Discovered { endpoint_id } => {
            if should_initiate(our_id, &endpoint_id) {
                DiscoveryAction::Initiate { peer: endpoint_id }
            } else {
                DiscoveryAction::Ignore
            }
        },
        DiscoveryEvent::Expired { endpoint_id } => {
            match peers.mark_disconnected(&endpoint_id) {
                Some(info) => DiscoveryAction::RemoveTunnelPeer { pubkey: info.tunnel_pubkey },
                None => DiscoveryAction::Ignore,
            }
        },
    }
}

} // verus!
