//! The operator CLI's side of the IPC protocol: the request line it sends and
//! the text it shows for each answer. Fields missing from an answer are shown
//! as `?`.

use vstd::prelude::*;
use crate::text::{padded, push_padded, repeated, dashes, string_views};

verus! {

/// The request line for the command `cmd`: a JSON object naming it, then a
/// newline.
pub fn ipc_request_line(cmd: &str) -> (line: String)
    ensures
        line@ == "{\"cmd\":\""@ + cmd@ + "\"}\n"@,
{
    let mut line = String::from_str("{\"cmd\":\"");
    line.append(cmd);
    line.append("\"}\n");
    line
}

/// The fields of a status answer the CLI shows. `peer_count` is the JSON text
/// of the count as it appeared (`null` when absent).
#[derive(Debug)]
pub struct StatusFields {
    pub node_id: Option<String>,
    pub overlay_ip: Option<String>,
    pub peer_count: String,
    pub tunnel_interface: Option<String>,
    pub spire_enabled: Option<bool>,
}

/// The fields of one peer of a peers answer.
#[derive(Debug)]
pub struct PeerFields {
    pub node_id: Option<String>,
    pub overlay_ip: Option<String>,
    pub connected: Option<bool>,
    pub tunnel_pubkey: Option<String>,
}

/// The fields of an identity answer.
#[derive(Debug)]
pub struct IdentityFields {
    pub node_id: Option<String>,
    pub overlay_ip: Option<String>,
    pub tunnel_pubkey: Option<String>,
}

/// A field's text, or `?` when it is missing.
pub open spec fn or_unknown(o: Option<String>) -> Seq<char> {
    match o {
        Some(s) => s@,
        None => "?"@,
    }
}

fn append_or_unknown(s: &mut String, o: &Option<String>)
    ensures
        final(s)@ == old(s)@ + or_unknown(*o),
{
    match o {
        Some(t) => s.append(t.as_str()),
        None => s.append("?"),
    }
}

fn labelled(label: &str, value: &Option<String>) -> (line: String)
    ensures
        line@ == label@ + or_unknown(*value),
{
    let mut line = String::from_str(label);
    append_or_unknown(&mut line, value);
    line
}

/// The lines shown for a status answer.
pub fn status_lines(v: &StatusFields) -> (lines: Vec<String>)
    ensures
        string_views(lines@) == seq![
            "Mesh Status"@,
            "==========="@,
            "  Node ID:      "@ + or_unknown(v.node_id),
            "  Overlay IP:   "@ + or_unknown(v.overlay_ip),
            "  Peers:        "@ + v.peer_count@,
            "  Tunnel:       "@ + or_unknown(v.tunnel_interface),
            "  SPIRE:        "@ + (if v.spire_enabled == Some(true) {
                "enabled"@
            } else {
                "disabled"@
            }),
        ],
{
    let mut lines: Vec<String> = Vec::new();
    lines.push(String::from_str("Mesh Status"));
    lines.push(String::from_str("==========="));
    lines.push(labelled("  Node ID:      ", &v.node_id));
    lines.push(labelled("  Overlay IP:   ", &v.overlay_ip));
    let mut peers = String::from_str("  Peers:        ");
    peers.append(v.peer_count.as_str());
    lines.push(peers);
    lines.push(labelled("  Tunnel:       ", &v.tunnel_interface));
    let enabled = match v.spire_enabled {
        Some(b) => b,
        None => false,
    };
    let mut spire = String::from_str("  SPIRE:        ");
    if enabled {
        spire.append("enabled");
    } else {
        spire.append("disabled");
    }
    lines.push(spire);
    proof {
        assert(string_views(lines@) =~= seq![
            "Mesh Status"@,
            "==========="@,
            "  Node ID:      "@ + or_unknown(v.node_id),
            "  Overlay IP:   "@ + or_unknown(v.overlay_ip),
            "  Peers:        "@ + v.peer_count@,
            "  Tunnel:       "@ + or_unknown(v.tunnel_interface),
            "  SPIRE:        "@ + (if v.spire_enabled == Some(true) {
                "enabled"@
            } else {
                "disabled"@
            }),
        ]);
    }
    lines
}

/// One line of the peer table: node, address and status left-aligned in
/// columns of 44, 18 and 10 characters, separated by spaces, then the key.
pub open spec fn peer_line(
    node_id: Seq<char>,
    overlay_ip: Seq<char>,
    status: Seq<char>,
    key: Seq<char>,
) -> Seq<char> {
    padded(node_id, 44) + " "@ + padded(overlay_ip, 18) + " "@ + padded(status, 10) + " "@ + key
}

/// The line that lists one peer: `online` when it reports itself connected,
/// `offline` otherwise.
pub open spec fn peer_row(p: PeerFields) -> Seq<char> {
    peer_line(
        or_unknown(p.node_id),
        or_unknown(p.overlay_ip),
        if p.connected == Some(true) {
            "online"@
        } else {
            "offline"@
        },
        or_unknown(p.tunnel_pubkey),
    )
}

/// The lines shown for a peers answer: a heading, a rule of 100 dashes and
/// one line per peer, or a single notice when there are none.
pub open spec fn peers_text(peers: Option<Seq<PeerFields>>) -> Seq<Seq<char>> {
    match peers {
        Some(ps) => if ps.len() > 0 {
            seq![
                peer_line("NODE ID"@, "OVERLAY IP"@, "STATUS"@, "TUNNEL KEY"@),
                repeated('-', 100),
            ] + ps.map_values(|p: PeerFields| peer_row(p))
        } else {
            seq!["No peers connected."@]
        },
        None => seq!["No peers connected."@],
    }
}

fn peer_table_line(node_id: &str, overlay_ip: &str, status: &str, key: &str) -> (s: String)
    ensures
        s@ == peer_line(node_id@, overlay_ip@, status@, key@),
{
    let mut s = String::new();
    push_padded(&mut s, node_id, 44);
    s.append(" ");
    push_padded(&mut s, overlay_ip, 18);
    s.append(" ");
    push_padded(&mut s, status, 10);
    s.append(" ");
    s.append(key);
    proof {
        assert(s@ =~= peer_line(node_id@, overlay_ip@, status@, key@));
    }
    s
}

fn text_or_unknown(o: &Option<String>) -> (s: String)
    ensures
        s@ == or_unknown(*o),
{
    match o {
        Some(t) => t.clone(),
        None => String::from_str("?"),
    }
}

fn peer_row_line(p: &PeerFields) -> (s: String)
    ensures
        s@ == peer_row(*p),
{
    let node = text_or_unknown(&p.node_id);
    let ip = text_or_unknown(&p.overlay_ip);
    let key = text_or_unknown(&p.tunnel_pubkey);
    let online = match p.connected {
        Some(b) => b,
        None => false,
    };
    let status = if online {
        String::from_str("online")
    } else {
        String::from_str("offline")
    };
    peer_table_line(node.as_str(), ip.as_str(), status.as_str(), key.as_str())
}

/// A peers answer with peers shows one row per peer, in the answer's order:
/// after the heading and the rule, line `k + 2` is the row of peer `k`.
pub proof fn lemma_one_row_per_peer(ps: Seq<PeerFields>)
    requires
        ps.len() > 0,
    ensures
        peers_text(Some(ps)).len() == ps.len() + 2,
        forall|k: int| 0 <= k < ps.len() ==> #[trigger] peers_text(Some(ps))[k + 2] == peer_row(ps[k]),
{
}

/// The view of an optional vector.
pub open spec fn opt_vec_view(o: Option<Vec<PeerFields>>) -> Option<Seq<PeerFields>> {
    match o {
        Some(v) => Some(v@),
        None => None,
    }
}

/// The lines shown for a peers answer; `peers` is `None` when the answer
/// holds no peer list.
pub fn peers_lines(peers: &Option<Vec<PeerFields>>) -> (lines: Vec<String>)
    ensures
        string_views(lines@) == peers_text(opt_vec_view(*peers)),
        match *peers {
            Some(ps) => ps@.len() > 0 ==> (lines@.len() == ps@.len() + 2 && forall|k: int|
                0 <= k < ps@.len() ==> #[trigger] lines@[k + 2]@ == peer_row(ps@[k])),
            None => lines@.len() == 1,
        },
{
    let mut lines: Vec<String> = Vec::new();
    match peers {
        Some(ps) => {
            if ps.len() > 0 {
                lines.push(peer_table_line("NODE ID", "OVERLAY IP", "STATUS", "TUNNEL KEY"));
                lines.push(dashes(100));
                let n = ps.len();
                for i in 0..n
                    invariant
                        n == ps@.len(),
                        lines@.len() == i + 2,
                        string_views(lines@) == seq![
                            peer_line("NODE ID"@, "OVERLAY IP"@, "STATUS"@, "TUNNEL KEY"@),
                            repeated('-', 100),
                        ] + ps@.take(i as int).map_values(|p: PeerFields| peer_row(p)),
                {
                    let ghost prev = lines@;
                    let row = peer_row_line(&ps[i]);
                    lines.push(row);
                    proof {
                        assert(string_views(lines@) =~= string_views(prev).push(row@));
                        assert(ps@.take(i + 1).map_values(|p: PeerFields| peer_row(p)) =~= ps@.take(
                            i as int,
                        ).map_values(|p: PeerFields| peer_row(p)).push(peer_row(ps@[i as int])));
                        assert(string_views(lines@) =~= seq![
                            peer_line("NODE ID"@, "OVERLAY IP"@, "STATUS"@, "TUNNEL KEY"@),
                            repeated('-', 100),
                        ] + ps@.take(i + 1).map_values(|p: PeerFields| peer_row(p)));
                    }
                }
                proof {
                    assert(ps@.take(n as int) =~= ps@);
                }
            } else {
                lines.push(String::from_str("No peers connected."));
                proof {
                    assert(string_views(lines@) =~= seq!["No peers connected."@]);
                }
            }
        },
        None => {
            lines.push(String::from_str("No peers connected."));
            proof {
                assert(string_views(lines@) =~= seq!["No peers connected."@]);
            }
        },
    }
    proof {
        let sv = string_views(lines@);
        assert forall|k: int| 0 <= k < lines@.len() implies #[trigger] lines@[k]@ == sv[k] by {}
        match peers {
            Some(ps) => if ps@.len() > 0 {
                lemma_one_row_per_peer(ps@);
                assert forall|k: int| 0 <= k < ps@.len() implies #[trigger] lines@[k + 2]@
                    == peer_row(ps@[k]) by {
                    assert(lines@[k + 2]@ == sv[k + 2]);
                }
            },
            None => {},
        }
    }
    lines
}

/// The lines shown for an identity answer.
pub fn identity_lines(v: &IdentityFields) -> (lines: Vec<String>)
    ensures
        string_views(lines@) == seq![
            "Node Identity"@,
            "============="@,
            "  Node ID:    "@ + or_unknown(v.node_id),
            "  Overlay IP: "@ + or_unknown(v.overlay_ip),
            "  Tunnel Key: "@ + or_unknown(v.tunnel_pubkey),
        ],
{
    let mut lines: Vec<String> = Vec::new();
    lines.push(String::from_str("Node Identity"));
    lines.push(String::from_str("============="));
    lines.push(labelled("  Node ID:    ", &v.node_id));
    lines.push(labelled("  Overlay IP: ", &v.overlay_ip));
    lines.push(labelled("  Tunnel Key: ", &v.tunnel_pubkey));
    proof {
        assert(string_views(lines@) =~= seq![
            "Node Identity"@,
            "============="@,
            "  Node ID:    "@ + or_unknown(v.node_id),
            "  Overlay IP: "@ + or_unknown(v.overlay_ip),
            "  Tunnel Key: "@ + or_unknown(v.tunnel_pubkey),
        ]);
    }
    lines
}

} // verus!
