//! The local IPC protocol: requests a client sends over the daemon's socket
//! and the answers the daemon gives, computed from the peer table and the
//! node's identity.

use vstd::prelude::*;
use crate::overlay_ip::dotted;
use crate::peer::{PeerInfo, PeerTable};
use crate::text::hex_lower;

verus! {

/// The default path of the daemon's IPC socket.
pub const DEFAULT_SOCKET_PATH: &'static str = "/var/run/meshd/meshd.sock";

/// A request from a client.
#[derive(Debug)]
pub enum IpcRequest {
    /// Mesh status overview.
    Status,
    /// All known peers.
    Peers,
    /// This node's identity.
    Identity,
}

/// One peer as the IPC protocol reports it.
#[derive(Debug)]
pub struct IpcPeerInfo {
    pub node_id: String,
    pub overlay_ip: String,
    pub tunnel_pubkey: String,
    pub connected: bool,
}

/// An answer to a client.
#[derive(Debug)]
pub enum IpcResponse {
    Status {
        node_id: String,
        overlay_ip: String,
        peer_count: usize,
        tunnel_interface: String,
        spire_enabled: bool,
    },
    Peers { peers: Vec<IpcPeerInfo> },
    Identity { node_id: String, overlay_ip: String, tunnel_pubkey: String },
    Error { message: String },
}

/// This node's identity as the IPC protocol reports it.
#[derive(Debug, Clone)]
pub struct NodeIdentity {
    pub node_id: String,
    pub overlay_ip: String,
    pub tunnel_pubkey: String,
    pub tunnel_interface: String,
    pub spire_enabled: bool,
}

impl IpcResponse {
    /// The answer to a line that is not a valid request: an error whose
    /// message is `invalid request: ` followed by `detail`.
    pub fn invalid_request(detail: &str) -> (r: IpcResponse)
        ensures
            r matches IpcResponse::Error { message } && message@ == "invalid request: "@ + detail@,
    {
        let mut message = String::from_str("invalid request: ");
        message.append(detail);
        IpcResponse::Error { message }
    }
}

/// The report of one peer: its identity in hexadecimal, its overlay address
/// in dotted decimal, its tunnel key and whether it is connected.
pub open spec fn reports_peer(r: IpcPeerInfo, p: PeerInfo) -> bool {
    &&& r.node_id@ == hex_lower(p.endpoint_id@)
    &&& r.overlay_ip@ == dotted(p.overlay_ip@)
    &&& r.tunnel_pubkey == p.tunnel_pubkey
    &&& r.connected == p.connected
}

/// A peer's report shows it exactly as the table holds it: its identity's
/// hexadecimal text, its address's dotted text, its tunnel key, and whether
/// it is connected (a disconnected peer is reported disconnected).
pub proof fn lemma_report_reflects_record(r: IpcPeerInfo, p: PeerInfo)
    requires
        reports_peer(r, p),
    ensures
        r.connected == p.connected,
        r.tunnel_pubkey == p.tunnel_pubkey,
        r.node_id@ == hex_lower(p.endpoint_id@),
        r.overlay_ip@ == dotted(p.overlay_ip@),
{
}

/// The report of one peer.
pub fn peer_report(p: &PeerInfo) -> (r: IpcPeerInfo)
    ensures
        reports_peer(r, *p),
        r.connected == p.connected,
        r.tunnel_pubkey == p.tunnel_pubkey,
{
    IpcPeerInfo {
        node_id: p.endpoint_id.to_string(),
        overlay_ip: p.overlay_ip.to_string(),
        tunnel_pubkey: p.tunnel_pubkey.clone(),
        connected: p.connected,
    }
}

/// The daemon's answer to a request: the status overview with the number of
/// known peers, the report of every known peer in table order, or the node's
/// identity.
pub fn handle_request(req: IpcRequest, peers: &PeerTable, identity: &NodeIdentity) -> (resp:
    IpcResponse)
    ensures
        match req {
            IpcRequest::Status => resp == IpcResponse::Status {
                node_id: identity.node_id,
                overlay_ip: identity.overlay_ip,
                peer_count: peers@.len() as usize,
                tunnel_interface: identity.tunnel_interface,
                spire_enabled: identity.spire_enabled,
            },
            IpcRequest::Peers => resp matches IpcResponse::Peers { peers: v } && v@.len()
                == peers.peers().len() && forall|i: int|
                0 <= i < v@.len() ==> reports_peer(#[trigger] v@[i], peers.peers()[i]) && v@[i].connected
                    == peers.peers()[i].connected,
            IpcRequest::Identity => resp == IpcResponse::Identity {
                node_id: identity.node_id,
                overlay_ip: identity.overlay_ip,
                tunnel_pubkey: identity.tunnel_pubkey,
            },
        },
{
    match req {
        IpcRequest::Status => {
            let count = peers.count();
            IpcResponse::Status {
                node_id: identity.node_id.clone(),
                overlay_ip: identity.overlay_ip.clone(),
                peer_count: count,
                tunnel_interface: identity.tunnel_interface.clone(),
                spire_enabled: identity.spire_enabled,
            }
        },
        IpcRequest::Peers => {
            let list = peers.list();
            let mut out: Vec<IpcPeerInfo> = Vec::new();
            let n = list.len();
            for i in 0..n
                invariant
                    n == list@.len(),
                    list@ == peers.peers(),
                    out@.len() == i,
                    forall|j: int| 0 <= j < i ==> reports_peer(#[trigger] out@[j], list@[j]),
            {
                out.push(peer_report(&list[i]));
            }
            IpcResponse::Peers { peers: out }
        },
        IpcRequest::Identity => IpcResponse::Identity {
            node_id: identity.node_id.clone(),
            overlay_ip: identity.overlay_ip.clone(),
            tunnel_pubkey: identity.tunnel_pubkey.clone(),
        },
    }
}

} // verus!
