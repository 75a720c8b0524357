//! Decisions of the mesh protocol: what a completed handshake does to the
//! peer table and which tunnel action (add, update or nothing) it calls for.

use vstd::prelude::*;
use crate::endpoint::EndpointId;
use crate::overlay_ip::Ipv4Addr;
use crate::peer::{PeerHandshake, PeerInfo, PeerTable, info_from};

verus! {

/// The largest handshake message a peer accepts, in bytes.
pub const MAX_HANDSHAKE_LEN: usize = 4096;

/// A tunnel peer entry to configure: the remote's tunnel credential, its
/// optional direct endpoint and the overlay address to route to it.
#[derive(Debug)]
pub struct TunnelPeer {
    pub pubkey: String,
    pub endpoint: Option<String>,
    pub allowed_ip: Ipv4Addr,
}

/// What the tunnel must do after a handshake.
#[derive(Debug)]
pub enum TunnelAction {
    /// Add an entry for a peer met for the first time.
    Add(TunnelPeer),
    /// Point the entry of a known peer at its new direct endpoint.
    Update { pubkey: String, endpoint: String },
    /// Nothing changes in the tunnel.
    Nothing,
}

/// The view of an optional endpoint text.
pub open spec fn endpoint_view(o: Option<String>) -> Option<Seq<char>> {
    match o {
        Some(s) => Some(s@),
        None => None,
    }
}

/// The tunnel action a handshake `handshake` from `remote` calls for, given
/// the table before it: a peer met for the first time gets an entry; a known
/// peer that announces a direct endpoint other than the one recorded (it
/// roamed) gets its entry's endpoint updated; otherwise nothing changes.
pub open spec fn handshake_action(
    table: Map<Seq<u8>, PeerInfo>,
    remote: EndpointId,
    handshake: PeerHandshake,
) -> TunnelAction {
    if !table.contains_key(remote@) {
        TunnelAction::Add(
            TunnelPeer {
                pubkey: handshake.tunnel_pubkey,
                endpoint: handshake.tunnel_endpoint,
                allowed_ip: handshake.overlay_ip,
            },
        )
    } else {
        match handshake.tunnel_endpoint {
            Some(e) => if endpoint_view(table[remote@].tunnel_endpoint) != Some(e@) {
                TunnelAction::Update { pubkey: handshake.tunnel_pubkey, endpoint: e }
            } else {
                TunnelAction::Nothing
            },
            None => TunnelAction::Nothing,
        }
    }
}

/// Records the handshake `handshake` that `remote` sent, received at `now`,
/// and returns the tunnel action it calls for: an entry for a new peer, an
/// endpoint update for a known peer that roamed, nothing otherwise.
pub fn register_handshake(
    peers: &mut PeerTable,
    remote: EndpointId,
    handshake: PeerHandshake,
    now: u64,
) -> (r: TunnelAction)
    ensures
        final(peers)@ == old(peers)@.insert(remote@, info_from(remote, handshake, now)),
        r == handshake_action(old(peers)@, remote, handshake),
        !old(peers)@.contains_key(remote@) ==> r == (TunnelAction::Add(
            TunnelPeer {
                pubkey: handshake.tunnel_pubkey,
                endpoint: handshake.tunnel_endpoint,
                allowed_ip: handshake.overlay_ip,
            },
        )),
{
    let hs = handshake.duplicate();
    let previous = peers.get(&remote);
    let is_new = peers.upsert(remote, handshake, now);
    if is_new {
        return TunnelAction::Add(
            TunnelPeer { pubkey: hs.tunnel_pubkey, endpoint: hs.tunnel_endpoint, allowed_ip: hs.overlay_ip },
        );
    }
    match (previous, hs.tunnel_endpoint) {
        (Some(prev), Some(e)) => {
            let same = match prev.tunnel_endpoint {
                Some(old_e) => old_e == e,
                None => false,
            };
            if same {
                TunnelAction::Nothing
            } else {
                TunnelAction::Update { pubkey: hs.tunnel_pubkey, endpoint: e }
            }
        },
        _ => TunnelAction::Nothing,
    }
}

/// Every peer met for the first time gets a tunnel entry, with or without a
/// direct endpoint: the entry carries exactly the key, the endpoint (possibly
/// none) and the overlay address its handshake announced.
pub proof fn lemma_new_peer_always_gets_entry(
    table: Map<Seq<u8>, PeerInfo>,
    remote: EndpointId,
    handshake: PeerHandshake,
)
    requires
        !table.contains_key(remote@),
    ensures
        handshake_action(table, remote, handshake) matches TunnelAction::Add(tp) && tp.pubkey
            == handshake.tunnel_pubkey && tp.endpoint == handshake.tunnel_endpoint && tp.allowed_ip
            == handshake.overlay_ip,
{
}

/// A repeated handshake changes nothing in the tunnel: once a handshake from
/// `remote` is recorded, the same handshake again calls for no action.
pub proof fn lemma_repeat_handshake_needs_nothing(
    table: Map<Seq<u8>, PeerInfo>,
    remote: EndpointId,
    handshake: PeerHandshake,
    now: u64,
)
    ensures
        handshake_action(table.insert(remote@, info_from(remote, handshake, now)), remote, handshake)
            == (TunnelAction::Nothing),
{
}

/// The tunnel follows a roaming peer: once a handshake `first` from `remote`
/// is recorded, a later handshake `second` that announces a direct endpoint
/// `e` other than the recorded one calls for updating the entry with key
/// `second.tunnel_pubkey` to `e`, and for no new entry.
pub proof fn lemma_roaming_updates_endpoint(
    table: Map<Seq<u8>, PeerInfo>,
    remote: EndpointId,
    first: PeerHandshake,
    second: PeerHandshake,
    e: String,
    now: u64,
)
    requires
        second.tunnel_endpoint == Some(e),
        endpoint_view(first.tunnel_endpoint) != Some(e@),
    ensures
        handshake_action(table.insert(remote@, info_from(remote, first, now)), remote, second)
            == (TunnelAction::Update { pubkey: second.tunnel_pubkey, endpoint: e }),
{
}

/// The handshake this node sends: its tunnel public key (the text `none` when
/// it runs without a tunnel), its overlay address and no direct endpoint yet.
pub fn local_handshake(tunnel_pubkey: Option<&str>, overlay_ip: Ipv4Addr) -> (hs: PeerHandshake)
    ensures
        hs.tunnel_pubkey@ == (match tunnel_pubkey {
            Some(k) => k@,
            None => "none"@,
        }),
        hs.overlay_ip == overlay_ip,
        hs.tunnel_endpoint is None,
{
    let key = match tunnel_pubkey {
        Some(k) => String::from_str(k),
        None => String::from_str("none"),
    };
    PeerHandshake { tunnel_pubkey: key, overlay_ip, tunnel_endpoint: None }
}

} // verus!
