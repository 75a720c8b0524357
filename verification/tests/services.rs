use meshd::bundle::{
    bundle_file_name, derive_overlay_ip, bundle_table_header, bundle_table_row, bundle_table_rule, no_bundles_message,
    zenoh_mode, NodeBundle,
};
use meshd::cli::{
    identity_lines, ipc_request_line, peers_lines, status_lines, IdentityFields, PeerFields,
    StatusFields,
};
use meshd::daemon::{key_from_file_bytes, relay_choice, KeyFileError, RelayChoice};
use meshd::endpoint::{node_identity, EndpointId};
use meshd::ipc::{handle_request, IpcRequest, IpcResponse, NodeIdentity};
use meshd::overlay_ip::{overlay_ip_from_id, Ipv4Addr};
use meshd::peer::{PeerHandshake, PeerTable};
use meshd::spire::{SpireClient, SpireError};
use meshd::wireguard::{command_text, WgError, WgInterface, WgKeypair};
use meshd::zenoh_fabric::{init_fabric, publish, subscribe, FabricConfig};

fn args(c: &meshd::wireguard::CommandLine) -> Vec<&str> {
    c.args.iter().map(|s| s.as_str()).collect()
}

fn wg() -> WgInterface {
    WgInterface::new(
        "wg0",
        51820,
        WgKeypair { private_key: "priv=".to_string(), public_key: "pub=".to_string() },
        Ipv4Addr::new(100, 65, 2, 3),
    )
}

#[test]
fn setup_commands_in_order() {
    let w = wg();
    let cmds = w.setup_commands();
    assert_eq!(cmds.len(), 4);
    assert_eq!(cmds[0].program, "ip");
    assert_eq!(args(&cmds[0]), ["link", "add", "wg0", "type", "wireguard"]);
    assert_eq!(cmds[1].program, "wg");
    assert_eq!(
        args(&cmds[1]),
        ["set", "wg0", "listen-port", "51820", "private-key", "/tmp/.wg-wg0-privkey"]
    );
    assert_eq!(args(&cmds[2]), ["addr", "add", "100.65.2.3/10", "dev", "wg0"]);
    assert_eq!(args(&cmds[3]), ["link", "set", "wg0", "up"]);
    assert_eq!(w.private_key_file(), "/tmp/.wg-wg0-privkey");
}

#[test]
fn peer_commands() {
    let w = wg();
    let c = w.add_peer_command("KEY", Some("192.0.2.1:51820"), Ipv4Addr::new(100, 64, 7, 8));
    assert_eq!(c.program, "wg");
    assert_eq!(
        args(&c),
        [
            "set", "wg0", "peer", "KEY", "allowed-ips", "100.64.7.8/32", "endpoint",
            "192.0.2.1:51820", "persistent-keepalive", "25"
        ]
    );
    let c = w.add_peer_command("KEY", None, Ipv4Addr::new(100, 64, 7, 8));
    assert_eq!(
        args(&c),
        ["set", "wg0", "peer", "KEY", "allowed-ips", "100.64.7.8/32", "persistent-keepalive", "25"]
    );
    let c = w.update_peer_endpoint_command("KEY", "198.51.100.2:1");
    assert_eq!(args(&c), ["set", "wg0", "peer", "KEY", "endpoint", "198.51.100.2:1"]);
    let c = w.remove_peer_command("KEY");
    assert_eq!(args(&c), ["set", "wg0", "peer", "KEY", "remove"]);
    assert_eq!(command_text(&c), "wg set wg0 peer KEY remove");
    let c = w.teardown_command();
    assert_eq!(c.program, "ip");
    assert_eq!(args(&c), ["link", "del", "wg0"]);
    assert_eq!(command_text(&c), "ip link del wg0");
}

#[test]
fn interface_accessors() {
    let w = wg();
    assert_eq!(w.public_key(), "pub=");
    assert_eq!(w.interface_name(), "wg0");
    assert_eq!(w.overlay_ip(), Ipv4Addr::new(100, 65, 2, 3));
    assert_eq!(w.listen_port, 51820);
}

#[test]
fn wg_error_messages() {
    let e = WgError::CommandFailed { cmd: "ip link".to_string(), stderr: "denied".to_string() };
    assert_eq!(e.message(), "command failed: ip link: denied");
    assert_eq!(WgError::WgNotFound.message(), "wg tool not found — is wireguard-tools installed?");
    assert_eq!(WgError::IpNotFound.message(), "ip tool not found");
    let io = WgError::Io(std::io::Error::new(std::io::ErrorKind::Other, "boom"));
    assert_eq!(io.message(), "io error: boom");
}

#[test]
fn spire_stub_accepts_everyone() {
    let c = SpireClient::new("/tmp/spire-agent/public/api.sock", false);
    assert!(!c.is_enabled());
    assert!(c.validate_peer("peer-1").is_ok());
    assert!(c.fetch_svid().is_none());
    assert!(!c.duplicate().is_enabled());
    let c = SpireClient::new("/run/spire.sock", true);
    assert!(c.is_enabled());
    assert!(c.duplicate().is_enabled());
    assert!(c.validate_peer("peer-2").is_ok());
    assert!(c.fetch_svid().is_none());
}

#[test]
fn spire_error_messages() {
    assert_eq!(
        SpireError::AgentNotAvailable { path: "/x".to_string() }.message(),
        "SPIRE agent not available at /x"
    );
    assert_eq!(
        SpireError::SvidInvalid { peer_id: "p".to_string(), reason: "expired".to_string() }
            .message(),
        "SVID validation failed for peer p: expired"
    );
    assert_eq!(
        SpireError::TrustBundleUnavailable { domain: "alpha".to_string() }.message(),
        "trust bundle not available for domain alpha"
    );
}

#[test]
fn fabric_topics() {
    let cfg = FabricConfig {
        site: "alpha".to_string(),
        role: "sensor".to_string(),
        instance: "01".to_string(),
        overlay_ip: Ipv4Addr::new(100, 64, 0, 1),
        is_router: false,
    };
    assert_eq!(cfg.topic("eo-ir"), "alpha/sensor/eo-ir/01");
    assert!(init_fabric(&cfg).is_ok());
    assert!(publish("alpha/sensor/eo-ir/01", b"data").is_ok());
    assert!(subscribe("alpha/c2/tracks/fused").is_ok());
}

fn identity() -> NodeIdentity {
    NodeIdentity {
        node_id: "abcd".to_string(),
        overlay_ip: "100.64.0.1".to_string(),
        tunnel_pubkey: "pub=".to_string(),
        tunnel_interface: "wg0".to_string(),
        spire_enabled: true,
    }
}

#[test]
fn ipc_answers() {
    let mut t = PeerTable::new();
    let mut b = [0u8; 32];
    b[0] = 0xab;
    let pid = EndpointId::from_bytes(b);
    t.upsert(
        pid,
        PeerHandshake {
            tunnel_pubkey: "k1".to_string(),
            overlay_ip: Ipv4Addr::new(100, 64, 3, 4),
            tunnel_endpoint: None,
        },
        1,
    );
    match handle_request(IpcRequest::Status, &t, &identity()) {
        IpcResponse::Status { node_id, overlay_ip, peer_count, tunnel_interface, spire_enabled } => {
            assert_eq!(node_id, "abcd");
            assert_eq!(overlay_ip, "100.64.0.1");
            assert_eq!(peer_count, 1);
            assert_eq!(tunnel_interface, "wg0");
            assert!(spire_enabled);
        }
        _ => panic!("status expected"),
    }
    match handle_request(IpcRequest::Peers, &t, &identity()) {
        IpcResponse::Peers { peers } => {
            assert_eq!(peers.len(), 1);
            assert_eq!(peers[0].node_id, format!("ab{}", "0".repeat(62)));
            assert_eq!(peers[0].overlay_ip, "100.64.3.4");
            assert_eq!(peers[0].tunnel_pubkey, "k1");
            assert!(peers[0].connected);
        }
        _ => panic!("peers expected"),
    }
    match handle_request(IpcRequest::Identity, &t, &identity()) {
        IpcResponse::Identity { node_id, overlay_ip, tunnel_pubkey } => {
            assert_eq!(node_id, "abcd");
            assert_eq!(overlay_ip, "100.64.0.1");
            assert_eq!(tunnel_pubkey, "pub=");
        }
        _ => panic!("identity expected"),
    }
}

#[test]
fn invalid_request_answer() {
    match IpcResponse::invalid_request("expected value at line 1 column 1") {
        IpcResponse::Error { message } => {
            assert_eq!(message, "invalid request: expected value at line 1 column 1")
        }
        _ => panic!("error expected"),
    }
}

#[test]
fn provisioning_and_daemon_agree_on_address() {
    for seed in [0u8, 5, 200] {
        let sk = [seed; 32];
        let id = node_identity(&sk);
        let b = NodeBundle::new("n", "mft", "aarch64", "alpha", &sk);
        assert_eq!(derive_overlay_ip(&id), overlay_ip_from_id(&id));
        assert_eq!(b.overlay_ip, overlay_ip_from_id(&id));
    }
}

#[test]
fn bundle_contents() {
    let sk = [3u8; 32];
    let pk = node_identity(&sk);
    let b = NodeBundle::new("cp-01", "cp", "aarch64", "alpha", &sk);
    assert_eq!(b.version, 1);
    assert_eq!(b.hostname, "cp-01");
    assert_eq!(b.platform, "aarch64");
    assert_eq!(b.iroh_secret_key, vec![3u8; 32]);
    assert_eq!(b.iroh_public_key, iroh::SecretKey::from_bytes(&sk).public().to_string());
    assert_eq!(b.iroh_public_key, pk.to_string());
    assert_eq!(b.overlay_ip, overlay_ip_from_id(&pk));
    assert_eq!(b.spire_trust_domain, "alpha.desertbread.net");
    assert!(b.spire_join_token.is_none() && b.spire_server.is_none());
    assert_eq!(
        b.relay_urls,
        [
            "https://relay.desertbread.net",
            "https://relay-isr.desertbread.net",
            "https://relay-mum.desertbread.net"
        ]
    );
    assert_eq!(b.zenoh_mode, "router");
    assert!(b.known_peers.is_empty() && b.zenoh_connect.is_empty());
    assert_eq!(b.norm_multicast_group, "239.255.0.1:6003");
    assert_eq!(b.norm_fec_permille, 200);
    assert_eq!(zenoh_mode("mft"), "client");
    assert_eq!(zenoh_mode("relay"), "client");
    assert_eq!(bundle_file_name("cp-01"), "cp-01.json");
}

#[test]
fn bundle_table_layout() {
    let header = bundle_table_header();
    assert_eq!(
        header,
        format!(
            "{:<20} {:<6} {:<10} {:<18} {:<44} TRUST DOMAIN",
            "HOSTNAME", "ROLE", "SITE", "OVERLAY IP", "IROH ID"
        )
    );
    assert_eq!(bundle_table_rule(), "-".repeat(140));
    let b = NodeBundle::new("mft-02", "mft", "x86_64", "bravo", &[0u8; 32]);
    let ip = b.overlay_ip.to_string();
    assert_eq!(
        bundle_table_row(&b),
        format!(
            "{:<20} {:<6} {:<10} {:<18} {:<44} {}",
            "mft-02", "mft", "bravo", ip, b.iroh_public_key, "bravo.desertbread.net"
        )
    );
    assert_eq!(no_bundles_message("./bundles"), "No bundles directory at ./bundles");
}

#[test]
fn cli_rendering() {
    assert_eq!(ipc_request_line("status"), "{\"cmd\":\"status\"}\n");
    let s = status_lines(&StatusFields {
        node_id: Some("n1".to_string()),
        overlay_ip: None,
        peer_count: "3".to_string(),
        tunnel_interface: Some("wg0".to_string()),
        spire_enabled: None,
    });
    assert_eq!(
        s,
        [
            "Mesh Status",
            "===========",
            "  Node ID:      n1",
            "  Overlay IP:   ?",
            "  Peers:        3",
            "  Tunnel:       wg0",
            "  SPIRE:        disabled"
        ]
    );
    assert_eq!(peers_lines(&None), ["No peers connected."]);
    assert_eq!(peers_lines(&Some(vec![])), ["No peers connected."]);
    let p = peers_lines(&Some(vec![PeerFields {
        node_id: Some("id1".to_string()),
        overlay_ip: Some("100.64.0.2".to_string()),
        connected: Some(true),
        tunnel_pubkey: None,
    }]));
    assert_eq!(p.len(), 3);
    assert_eq!(
        p[0],
        format!("{:<44} {:<18} {:<10} TUNNEL KEY", "NODE ID", "OVERLAY IP", "STATUS")
    );
    assert_eq!(p[1], "-".repeat(100));
    assert_eq!(p[2], format!("{:<44} {:<18} {:<10} {}", "id1", "100.64.0.2", "online", "?"));
    let i = identity_lines(&IdentityFields {
        node_id: None,
        overlay_ip: Some("100.64.0.1".to_string()),
        tunnel_pubkey: Some("k".to_string()),
    });
    assert_eq!(
        i,
        ["Node Identity", "=============", "  Node ID:    ?", "  Overlay IP: 100.64.0.1", "  Tunnel Key: k"]
    );
}

#[test]
fn key_file_must_hold_32_bytes() {
    let k = key_from_file_bytes(&[5u8; 32]).ok().unwrap();
    assert_eq!(k, [5u8; 32]);
    assert!(matches!(key_from_file_bytes(&[5u8; 31]), Err(KeyFileError::InvalidLength)));
    assert!(matches!(key_from_file_bytes(&[]), Err(KeyFileError::InvalidLength)));
    assert_eq!(KeyFileError::InvalidLength.message(), "invalid key file length");
}

#[test]
fn relay_choices() {
    assert!(matches!(relay_choice(true, vec!["https://r".to_string()]), RelayChoice::Disabled));
    match relay_choice(false, vec!["https://r".to_string()]) {
        RelayChoice::Custom(u) => assert_eq!(u, ["https://r"]),
        _ => panic!("custom expected"),
    }
    assert!(matches!(relay_choice(false, vec![]), RelayChoice::Default));
    match relay_choice(
        false,
        vec!["https://relay.example.".to_string(), "not a url".to_string(), "https://r2.example".to_string()],
    ) {
        RelayChoice::Custom(u) => assert_eq!(u, ["https://relay.example.", "https://r2.example"]),
        _ => panic!("custom expected"),
    }
    match relay_choice(false, vec!["::bad::".to_string()]) {
        RelayChoice::Custom(u) => assert!(u.is_empty()),
        _ => panic!("custom expected"),
    }
}

#[test]
fn node_identity_is_public_key_of_secret() {
    for seed in [0u8, 1, 77, 255] {
        let sk = [seed; 32];
        let expected = iroh::SecretKey::from_bytes(&sk).public();
        let id = node_identity(&sk);
        assert_eq!(id.as_bytes(), expected.as_bytes());
        assert_ne!(id.as_bytes(), &sk);
    }
}
