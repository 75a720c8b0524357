//! Provisioning bundles: everything a node needs to join the mesh (its
//! identity and overlay address, SPIRE settings, relays, fabric mode and
//! multicast settings), and the table in which bundles are listed.

use vstd::prelude::*;
use crate::endpoint::{EndpointId, ed25519_public, node_identity};
use crate::overlay_ip::{Ipv4Addr, dotted, overlay_addr, overlay_ip_from_id, sha256};
use crate::text::{hex_lower, padded, push_padded, repeated, dashes, string_views};

verus! {

/// A known peer entry of a bundle, for local-network bootstrap.
#[derive(Debug)]
pub struct KnownPeer {
    pub iroh_public_key: String,
    pub hostname: String,
    pub role: String,
    pub overlay_ip: Ipv4Addr,
}

/// A complete provisioning bundle for one node.
#[derive(Debug)]
pub struct NodeBundle {
    /// Bundle format version.
    pub version: u32,
    pub hostname: String,
    /// Node role: `cp`, `mft` or `relay`.
    pub role: String,
    /// Target platform: `x86_64` or `aarch64`.
    pub platform: String,
    pub site: String,
    /// The node's secret key bytes.
    pub iroh_secret_key: Vec<u8>,
    /// The node's public key in hexadecimal: its permanent identity.
    pub iroh_public_key: String,
    /// The overlay address derived from the public key.
    pub overlay_ip: Ipv4Addr,
    /// One-time SPIRE join token, issued once a SPIRE server is available.
    pub spire_join_token: Option<String>,
    pub spire_trust_domain: String,
    /// Overlay address of the site's SPIRE server, once known.
    pub spire_server: Option<String>,
    pub known_peers: Vec<KnownPeer>,
    pub relay_urls: Vec<String>,
    /// `router` on a command post, `client` elsewhere.
    pub zenoh_mode: String,
    pub zenoh_connect: Vec<String>,
    pub norm_multicast_group: String,
    /// Forward error correction ratio of bulk multicast, in thousandths.
    pub norm_fec_permille: u32,
}

/// The fabric mode of a role: command posts run a router, all others a client.
pub open spec fn zenoh_mode_for(role: Seq<char>) -> Seq<char> {
    if role == "cp"@ {
        "router"@
    } else {
        "client"@
    }
}

/// The relay servers every bundle lists.
pub open spec fn default_relays() -> Seq<Seq<char>> {
    seq![
        "https://relay.desertbread.net"@,
        "https://relay-isr.desertbread.net"@,
        "https://relay-mum.desertbread.net"@,
    ]
}

/// The fabric mode of `role`.
pub fn zenoh_mode(role: &str) -> (m: String)
    ensures
        m@ == zenoh_mode_for(role@),
{
    let r = String::from_str(role);
    let cp = String::from_str("cp");
    if r == cp {
        String::from_str("router")
    } else {
        String::from_str("client")
    }
}

/// The overlay address recorded in a bundle for the key `id`: the same
/// address the daemon derives for that key with `overlay_ip_from_id`.
pub fn derive_overlay_ip(id: &EndpointId) -> (ip: Ipv4Addr)
    ensures
        ip@ == overlay_addr(sha256(id@)),
{
    overlay_ip_from_id(id)
}

impl NodeBundle {
    /// The bundle of a node named `hostname` with role `role` on `platform`
    /// at `site`, holding the secret key `secret_key`: format version 1, the
    /// public key that belongs to it and the overlay address derived from
    /// that public key, the
    /// site's trust domain `{site}.desertbread.net`, the three default
    /// relays, the role's fabric mode, the multicast group `239.255.0.1:6003`
    /// with a forward error correction ratio of 0.2, and no join token, SPIRE
    /// server, known peers or fabric endpoints yet.
    pub fn new(
        hostname: &str,
        role: &str,
        platform: &str,
        site: &str,
        secret_key: &[u8; 32],
    ) -> (b: NodeBundle)
        ensures
            b.version == 1,
            b.hostname@ == hostname@,
            b.role@ == role@,
            b.platform@ == platform@,
            b.site@ == site@,
            b.iroh_secret_key@ == secret_key@,
            b.iroh_public_key@ == hex_lower(ed25519_public(secret_key@)),
            b.overlay_ip@ == overlay_addr(sha256(ed25519_public(secret_key@))),
            b.spire_join_token is None,
            b.spire_trust_domain@ == site@ + ".desertbread.net"@,
            b.spire_server is None,
            b.known_peers@.len() == 0,
            string_views(b.relay_urls@) == default_relays(),
            b.zenoh_mode@ == zenoh_mode_for(role@),
            b.zenoh_connect@.len() == 0,
            b.norm_multicast_group@ == "239.255.0.1:6003"@,
            b.norm_fec_permille == 200,
    {
        let public_key = node_identity(secret_key);
        let mut trust_domain = String::from_str(site);
        trust_domain.append(".desertbread.net");
        let mut relays: Vec<String> = Vec::new();
        relays.push(String::from_str("https://relay.desertbread.net"));
        relays.push(String::from_str("https://relay-isr.desertbread.net"));
        relays.push(String::from_str("https://relay-mum.desertbread.net"));
        proof {
            assert(string_views(relays@) =~= default_relays());
        }
        let mut secret: Vec<u8> = Vec::new();
        for i in 0..32
            invariant
                secret@ == secret_key@.take(i as int),
                secret_key@.len() == 32,
        {
            secret.push(secret_key[i]);
            proof {
                assert(secret@ =~= secret_key@.take(i + 1));
            }
        }
        proof {
            assert(secret@ =~= secret_key@);
        }
        NodeBundle {
            version: 1,
            hostname: String::from_str(hostname),
            role: String::from_str(role),
            platform: String::from_str(platform),
            site: String::from_str(site),
            iroh_secret_key: secret,
            iroh_public_key: public_key.to_string(),
            overlay_ip: derive_overlay_ip(&public_key),
            spire_join_token: None,
            spire_trust_domain: trust_domain,
            spire_server: None,
            known_peers: Vec::new(),
            relay_urls: relays,
            zenoh_mode: zenoh_mode(role),
            zenoh_connect: Vec::new(),
            norm_multicast_group: String::from_str("239.255.0.1:6003"),
            norm_fec_permille: 200,
        }
    }
}

/// Provisioning and the daemon give a node the same overlay address: the
/// address a bundle records for a secret key is the one the daemon derives
/// for the identity that key belongs to.
pub proof fn lemma_bundle_address_is_daemon_address(secret: Seq<u8>, id: EndpointId)
    requires
        id@ == ed25519_public(secret),
    ensures
        overlay_addr(sha256(ed25519_public(secret))) == overlay_addr(sha256(id@)),
{
}

/// The name of the file a host's bundle is written to.
pub fn bundle_file_name(hostname: &str) -> (n: String)
    ensures
        n@ == hostname@ + ".json"@,
{
    let mut n = String::from_str(hostname);
    n.append(".json");
    n
}

/// One line of the bundle table: host, role, site, overlay address and
/// identity left-aligned in columns of 20, 6, 10, 18 and 44 characters,
/// separated by spaces, then the trust domain.
pub open spec fn bundle_line(
    hostname: Seq<char>,
    role: Seq<char>,
    site: Seq<char>,
    overlay_ip: Seq<char>,
    identity: Seq<char>,
    trust_domain: Seq<char>,
) -> Seq<char> {
    padded(hostname, 20) + " "@ + padded(role, 6) + " "@ + padded(site, 10) + " "@ + padded(
        overlay_ip,
        18,
    ) + " "@ + padded(identity, 44) + " "@ + trust_domain
}

fn table_line(
    hostname: &str,
    role: &str,
    site: &str,
    overlay_ip: &str,
    identity: &str,
    trust_domain: &str,
) -> (s: String)
    ensures
        s@ == bundle_line(hostname@, role@, site@, overlay_ip@, identity@, trust_domain@),
{
    let mut s = String::new();
    push_padded(&mut s, hostname, 20);
    s.append(" ");
    push_padded(&mut s, role, 6);
    s.append(" ");
    push_padded(&mut s, site, 10);
    s.append(" ");
    push_padded(&mut s, overlay_ip, 18);
    s.append(" ");
    push_padded(&mut s, identity, 44);
    s.append(" ");
    s.append(trust_domain);
    proof {
        assert(s@ =~= bundle_line(hostname@, role@, site@, overlay_ip@, identity@, trust_domain@));
    }
    s
}

/// The heading of the bundle table.
pub fn bundle_table_header() -> (s: String)
    ensures
        s@ == bundle_line(
            "HOSTNAME"@,
            "ROLE"@,
            "SITE"@,
            "OVERLAY IP"@,
            "IROH ID"@,
            "TRUST DOMAIN"@,
        ),
{
    table_line("HOSTNAME", "ROLE", "SITE", "OVERLAY IP", "IROH ID", "TRUST DOMAIN")
}

/// The rule under the heading of the bundle table: 140 dashes.
pub fn bundle_table_rule() -> (s: String)
    ensures
        s@ == repeated('-', 140),
{
    dashes(140)
}

/// The line of the bundle table that lists `b`.
pub fn bundle_table_row(b: &NodeBundle) -> (s: String)
    ensures
        s@ == bundle_line(
            b.hostname@,
            b.role@,
            b.site@,
            dotted(b.overlay_ip@),
            b.iroh_public_key@,
            b.spire_trust_domain@,
        ),
{
    let ip = b.overlay_ip.to_string();
    table_line(
        b.hostname.as_str(),
        b.role.as_str(),
        b.site.as_str(),
        ip.as_str(),
        b.iroh_public_key.as_str(),
        b.spire_trust_domain.as_str(),
    )
}

/// The message shown when there is no bundle directory.
pub fn no_bundles_message(dir: &str) -> (m: String)
    ensures
        m@ == "No bundles directory at "@ + dir@,
{
    let mut m = String::from_str("No bundles directory at ");
    m.append(dir);
    m
}

} // verus!
