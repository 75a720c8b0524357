use meshd::discovery::{on_discovery_event, should_initiate, DiscoveryAction, DiscoveryEvent};
use meshd::endpoint::EndpointId;
use meshd::overlay_ip::{overlay_ip_from_id, Ipv4Addr};
use meshd::peer::{PeerHandshake, PeerTable};
use meshd::protocol::{local_handshake, register_handshake, TunnelAction};

fn id(n: u8) -> EndpointId {
    let mut b = [0u8; 32];
    b[0] = n;
    b[31] = n.wrapping_mul(7);
    EndpointId::from_bytes(b)
}

fn hs(name: &str, ip: Ipv4Addr) -> PeerHandshake {
    PeerHandshake { tunnel_pubkey: format!("tunnel-{name}"), overlay_ip: ip, tunnel_endpoint: None }
}

struct TestNode {
    id: EndpointId,
    overlay_ip: Ipv4Addr,
    peers: PeerTable,
    handshake: PeerHandshake,
}

fn spawn_node(name: &str, n: u8) -> TestNode {
    let id = id(n);
    let overlay_ip = overlay_ip_from_id(&id);
    TestNode { id, overlay_ip, peers: PeerTable::new(), handshake: hs(name, overlay_ip) }
}

/// Both sides of a completed handshake record each other.
fn handshake_pair(initiator: &mut TestNode, responder: &mut TestNode, now: u64) {
    register_handshake(&mut responder.peers, initiator.id, initiator.handshake.duplicate(), now);
    register_handshake(&mut initiator.peers, responder.id, responder.handshake.duplicate(), now);
}

#[test]
fn three_node_island_mode() {
    let mut cp = spawn_node("cp", 1);
    let mut mft1 = spawn_node("mft-01", 2);
    let mut mft2 = spawn_node("mft-02", 3);

    assert_ne!(cp.overlay_ip, mft1.overlay_ip);
    assert_ne!(cp.overlay_ip, mft2.overlay_ip);
    assert_ne!(mft1.overlay_ip, mft2.overlay_ip);

    handshake_pair(&mut cp, &mut mft1, 1);
    handshake_pair(&mut cp, &mut mft2, 2);
    handshake_pair(&mut mft1, &mut mft2, 3);

    let cp_peers = cp.peers.list();
    let mft1_peers = mft1.peers.list();
    let mft2_peers = mft2.peers.list();

    assert_eq!(cp_peers.len(), 2, "CP should know 2 peers");
    assert_eq!(mft1_peers.len(), 2, "MFT-01 should know 2 peers");
    assert_eq!(mft2_peers.len(), 2, "MFT-02 should know 2 peers");

    let cp_peer_ids: Vec<_> = cp_peers.iter().map(|p| p.endpoint_id).collect();
    assert!(cp_peer_ids.contains(&mft1.id), "CP should know MFT-01");
    assert!(cp_peer_ids.contains(&mft2.id), "CP should know MFT-02");

    let mft1_peer_ids: Vec<_> = mft1_peers.iter().map(|p| p.endpoint_id).collect();
    assert!(mft1_peer_ids.contains(&cp.id), "MFT-01 should know CP");
    assert!(mft1_peer_ids.contains(&mft2.id), "MFT-01 should know MFT-02");

    for p in &cp_peers {
        assert!(p.connected, "all CP peers should be connected");
    }
    for p in &mft1_peers {
        assert!(p.connected, "all MFT-01 peers should be connected");
    }
}

#[test]
fn peer_disconnect_detection() {
    let mut node_a = spawn_node("a", 10);
    let mut node_b = spawn_node("b", 11);

    handshake_pair(&mut node_a, &mut node_b, 5);

    assert_eq!(node_a.peers.count(), 1);
    assert_eq!(node_b.peers.count(), 1);

    node_a.peers.mark_disconnected(&node_b.id);

    let peers = node_a.peers.list();
    assert_eq!(peers.len(), 1);
    assert!(!peers[0].connected, "peer should be marked disconnected");
}

#[test]
fn upsert_reports_new_peers_only_once() {
    let mut t = PeerTable::new();
    assert_eq!(t.count(), 0);
    assert!(t.upsert(id(1), hs("a", Ipv4Addr::new(100, 64, 0, 1)), 10));
    assert!(!t.upsert(id(1), hs("a2", Ipv4Addr::new(100, 64, 0, 2)), 20));
    assert!(t.upsert(id(2), hs("b", Ipv4Addr::new(100, 64, 0, 3)), 30));
    assert_eq!(t.count(), 2);
    let a = t.get(&id(1)).unwrap();
    assert_eq!(a.tunnel_pubkey, "tunnel-a2");
    assert_eq!(a.overlay_ip, Ipv4Addr::new(100, 64, 0, 2));
    assert_eq!(a.last_seen, 20);
    assert!(a.connected);
    // table order is first-met order
    let l = t.list();
    assert_eq!(l[0].endpoint_id, id(1));
    assert_eq!(l[1].endpoint_id, id(2));
}

#[test]
fn upsert_twice_same_as_once() {
    let mut t = PeerTable::new();
    t.upsert(id(4), hs("x", Ipv4Addr::new(100, 64, 9, 9)), 7);
    let once = t.list();
    t.upsert(id(4), hs("x", Ipv4Addr::new(100, 64, 9, 9)), 7);
    let twice = t.list();
    assert_eq!(once.len(), twice.len());
    assert_eq!(once[0].tunnel_pubkey, twice[0].tunnel_pubkey);
    assert_eq!(once[0].last_seen, twice[0].last_seen);
}

#[test]
fn reconnect_marks_connected_again() {
    let mut t = PeerTable::new();
    t.upsert(id(1), hs("a", Ipv4Addr::new(100, 64, 0, 1)), 1);
    let d = t.mark_disconnected(&id(1)).unwrap();
    assert!(!d.connected);
    assert_eq!(d.tunnel_pubkey, "tunnel-a");
    assert!(!t.upsert(id(1), hs("a", Ipv4Addr::new(100, 64, 0, 1)), 2));
    assert!(t.get(&id(1)).unwrap().connected);
}

#[test]
fn unknown_peers_are_left_alone() {
    let mut t = PeerTable::new();
    t.upsert(id(1), hs("a", Ipv4Addr::new(100, 64, 0, 1)), 1);
    assert!(t.mark_disconnected(&id(9)).is_none());
    assert!(t.remove(&id(9)).is_none());
    assert!(t.get(&id(9)).is_none());
    assert_eq!(t.count(), 1);
}

#[test]
fn remove_forgets_peer() {
    let mut t = PeerTable::new();
    t.upsert(id(1), hs("a", Ipv4Addr::new(100, 64, 0, 1)), 1);
    t.upsert(id(2), hs("b", Ipv4Addr::new(100, 64, 0, 2)), 1);
    t.upsert(id(3), hs("c", Ipv4Addr::new(100, 64, 0, 3)), 1);
    t.mark_disconnected(&id(3));
    assert_eq!(t.list()[2].endpoint_id, id(3));
    assert!(!t.list()[2].connected);
    let r = t.remove(&id(2)).unwrap();
    assert_eq!(r.tunnel_pubkey, "tunnel-b");
    assert!(t.get(&id(2)).is_none());
    assert_eq!(t.count(), 2);
    let l = t.list();
    assert_eq!(l[0].endpoint_id, id(1));
    assert_eq!(l[1].endpoint_id, id(3));
    assert!(t.upsert(id(2), hs("b", Ipv4Addr::new(100, 64, 0, 2)), 2));
}

#[test]
fn handshake_calls_for_tunnel_entry_once() {
    let mut t = PeerTable::new();
    let h = PeerHandshake {
        tunnel_pubkey: "key-b".to_string(),
        overlay_ip: Ipv4Addr::new(100, 70, 1, 2),
        tunnel_endpoint: Some("192.0.2.7:51820".to_string()),
    };
    let first = match register_handshake(&mut t, id(5), h.duplicate(), 1) {
        TunnelAction::Add(p) => p,
        other => panic!("new peer must get an entry, got {other:?}"),
    };
    assert_eq!(first.pubkey, "key-b");
    assert_eq!(first.endpoint.as_deref(), Some("192.0.2.7:51820"));
    assert_eq!(first.allowed_ip, Ipv4Addr::new(100, 70, 1, 2));
    assert!(matches!(register_handshake(&mut t, id(5), h, 2), TunnelAction::Nothing));
    assert_eq!(t.count(), 1);
}

#[test]
fn roaming_peer_gets_endpoint_update() {
    let mut t = PeerTable::new();
    let at = |ep: Option<&str>| PeerHandshake {
        tunnel_pubkey: "key-r".to_string(),
        overlay_ip: Ipv4Addr::new(100, 70, 1, 3),
        tunnel_endpoint: ep.map(|e| e.to_string()),
    };
    assert!(matches!(register_handshake(&mut t, id(6), at(Some("192.0.2.1:51820")), 1), TunnelAction::Add(_)));
    match register_handshake(&mut t, id(6), at(Some("198.51.100.9:51820")), 2) {
        TunnelAction::Update { pubkey, endpoint } => {
            assert_eq!(pubkey, "key-r");
            assert_eq!(endpoint, "198.51.100.9:51820");
        }
        other => panic!("roaming peer must get an update, got {other:?}"),
    }
    assert_eq!(t.get(&id(6)).unwrap().tunnel_endpoint.as_deref(), Some("198.51.100.9:51820"));
    assert!(matches!(register_handshake(&mut t, id(6), at(Some("198.51.100.9:51820")), 3), TunnelAction::Nothing));
    assert!(matches!(register_handshake(&mut t, id(6), at(None), 4), TunnelAction::Nothing));
    assert!(matches!(register_handshake(&mut t, id(6), at(Some("203.0.113.5:1")), 5), TunnelAction::Update { .. }));
    assert_eq!(t.count(), 1);
}

#[test]
fn local_handshake_without_tunnel_says_none() {
    let ip = Ipv4Addr::new(100, 64, 0, 5);
    let h = local_handshake(None, ip);
    assert_eq!(h.tunnel_pubkey, "none");
    assert_eq!(h.overlay_ip, ip);
    assert!(h.tunnel_endpoint.is_none());
    assert_eq!(local_handshake(Some("abc="), ip).tunnel_pubkey, "abc=");
}

#[test]
fn exactly_one_side_initiates() {
    let a = id(1);
    let b = id(2);
    assert!(should_initiate(&a, &b));
    assert!(!should_initiate(&b, &a));
    assert!(!should_initiate(&a, &a));
    let mut x = [7u8; 32];
    let mut y = [7u8; 32];
    x[31] = 1;
    y[31] = 2;
    assert!(should_initiate(&EndpointId::from_bytes(x), &EndpointId::from_bytes(y)));
    assert!(!should_initiate(&EndpointId::from_bytes(y), &EndpointId::from_bytes(x)));
}

#[test]
fn discovery_events() {
    let mut t = PeerTable::new();
    let me = id(5);
    match on_discovery_event(&mut t, &me, DiscoveryEvent::Discovered { endpoint_id: id(9) }) {
        DiscoveryAction::Initiate { peer } => assert_eq!(peer, id(9)),
        _ => panic!("lower id must initiate"),
    }
    assert!(matches!(
        on_discovery_event(&mut t, &me, DiscoveryEvent::Discovered { endpoint_id: id(1) }),
        DiscoveryAction::Ignore
    ));
    assert!(matches!(
        on_discovery_event(&mut t, &me, DiscoveryEvent::Expired { endpoint_id: id(9) }),
        DiscoveryAction::Ignore
    ));
    register_handshake(&mut t, id(9), hs("nine", Ipv4Addr::new(100, 64, 0, 9)), 3);
    match on_discovery_event(&mut t, &me, DiscoveryEvent::Expired { endpoint_id: id(9) }) {
        DiscoveryAction::RemoveTunnelPeer { pubkey } => assert_eq!(pubkey, "tunnel-nine"),
        _ => panic!("expired known peer must lose its tunnel entry"),
    }
    assert!(!t.get(&id(9)).unwrap().connected);
    assert_eq!(t.count(), 1);
}
