use meshd::endpoint::EndpointId;
use meshd::overlay_ip::{overlay_cidr, overlay_ip_from_digest, overlay_ip_from_id, Ipv4Addr};

fn random_id() -> EndpointId {
    let key = iroh::SecretKey::generate();
    EndpointId::from_bytes(*key.public().as_bytes())
}

#[test]
fn deterministic_same_key() {
    let id = random_id();
    let ip1 = overlay_ip_from_id(&id);
    let ip2 = overlay_ip_from_id(&id);
    assert_eq!(ip1, ip2, "same key must produce same IP");
}

#[test]
fn different_keys_different_ips() {
    let ip1 = overlay_ip_from_id(&random_id());
    let ip2 = overlay_ip_from_id(&random_id());
    // Technically could collide, but vanishingly unlikely with 22 bits
    assert_ne!(ip1, ip2, "different keys should almost certainly produce different IPs");
}

#[test]
fn ip_in_cgnat_range() {
    for _ in 0..100 {
        let ip = overlay_ip_from_id(&random_id());
        let octets = ip.octets();
        assert_eq!(octets[0], 100);
        assert!(
            octets[1] >= 64 && octets[1] <= 127,
            "second octet {0} not in 64..=127",
            octets[1]
        );
    }
}

#[test]
fn no_broadcast_or_network_addresses() {
    for _ in 0..1000 {
        let ip = overlay_ip_from_id(&random_id());
        let last = ip.octets()[3];
        assert_ne!(last, 0, "last octet must not be 0");
        assert_ne!(last, 255, "last octet must not be 255");
    }
}

#[test]
fn overlay_ip_determinism() {
    let id = random_id();
    let ip1 = overlay_ip_from_id(&id);
    let ip2 = overlay_ip_from_id(&id);
    assert_eq!(ip1, ip2);
    let ip3 = overlay_ip_from_id(&random_id());
    assert_ne!(ip1, ip3);
}

#[test]
fn overlay_ip_always_in_cgnat_range() {
    for _ in 0..200 {
        let ip = overlay_ip_from_id(&random_id());
        let octets = ip.octets();
        assert_eq!(octets[0], 100);
        assert!(octets[1] >= 64 && octets[1] <= 127);
        assert_ne!(octets[3], 0);
        assert_ne!(octets[3], 255);
    }
}

#[test]
fn digest_prefix_mapped_into_overlay() {
    let mut d = [0u8; 32];
    d[0] = 0x12;
    d[1] = 0x34;
    d[2] = 0x56;
    d[3] = 0x78;
    let ip = overlay_ip_from_digest(&d);
    assert_eq!(ip.to_bits(), 0x6474_5678);
    assert_eq!(ip.octets(), [100, 116, 86, 120]);
    assert_eq!(ip.to_string(), "100.116.86.120");
}

#[test]
fn last_octet_zero_becomes_one() {
    let mut d = [0u8; 32];
    d[0] = 0xff;
    d[1] = 0xff;
    d[2] = 0x12;
    d[3] = 0x00;
    let ip = overlay_ip_from_digest(&d);
    assert_eq!(ip.to_bits(), 0x6440_0000 | 0x003f_1201);
    assert_eq!(ip.octets()[3], 1);
}

#[test]
fn last_octet_255_becomes_254() {
    let mut d = [0u8; 32];
    d[2] = 0x01;
    d[3] = 0xff;
    let ip = overlay_ip_from_digest(&d);
    assert_eq!(ip.to_string(), "100.64.1.254");
}

#[test]
fn all_zero_digest_gives_first_usable_address() {
    let ip = overlay_ip_from_digest(&[0u8; 32]);
    assert_eq!(ip.to_string(), "100.64.0.1");
}

#[test]
fn overlay_ip_of_zero_key_uses_sha256() {
    // SHA-256 of 32 zero bytes begins 66 68 7a ad.
    let id = EndpointId::from_bytes([0u8; 32]);
    let ip = overlay_ip_from_id(&id);
    assert_eq!(ip.to_string(), "100.104.122.173");
}

#[test]
fn cidr_text_has_overlay_prefix() {
    let ip = Ipv4Addr::new(100, 64, 0, 1);
    assert_eq!(overlay_cidr(ip), "100.64.0.1/10");
    assert_eq!(overlay_cidr(Ipv4Addr::new(100, 127, 255, 254)), "100.127.255.254/10");
}

#[test]
fn address_octets_round_trip() {
    let ip = Ipv4Addr::new(10, 0, 200, 7);
    assert_eq!(ip.octets(), [10, 0, 200, 7]);
    assert_eq!(ip.to_bits(), 0x0a00_c807);
    assert_eq!(Ipv4Addr::from_bits(0x0a00_c807), ip);
    assert_eq!(ip.to_string(), "10.0.200.7");
    assert_eq!(Ipv4Addr::new(0, 0, 0, 0).to_string(), "0.0.0.0");
}

#[test]
fn endpoint_text_is_lower_hex() {
    let mut b = [0u8; 32];
    b[0] = 0xab;
    b[1] = 0x01;
    b[31] = 0xf0;
    let id = EndpointId::from_bytes(b);
    let s = id.to_string();
    assert_eq!(s.len(), 64);
    assert!(s.starts_with("ab01"));
    assert!(s.ends_with("f0"));
    let key = iroh::SecretKey::generate().public();
    assert_eq!(EndpointId::from_bytes(*key.as_bytes()).to_string(), key.to_string());
}
