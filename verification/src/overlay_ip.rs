//! Deterministic overlay addressing.
//!
//! A node's overlay address is derived from its identity alone: the SHA-256
//! digest of its public key, truncated to 22 bits, placed in the
//! 100.64.0.0/10 CGNAT range, with a last octet of 0 or 255 moved to 1 or 254.
//! Every node derives the same address for the same key, with no allocation
//! server and no state.

use vstd::prelude::*;
use sha2::Digest;
use crate::endpoint::EndpointId;
use crate::text::{decimal, push_decimal};

verus! {

/// An IPv4 address, held as its 32-bit big-endian value.
#[derive(Clone, Copy, PartialEq, Eq, Structural, Debug, Hash)]
pub struct Ipv4Addr {
    bits: u32,
}

impl View for Ipv4Addr {
    type V = u32;

    closed spec fn view(&self) -> u32 {
        self.bits
    }
}

/// Octet `k` (0 is the first, most significant) of the address `bits`.
pub open spec fn octet(bits: u32, k: int) -> int {
    let b = bits as int;
    if k == 0 {
        b / 0x100_0000
    } else if k == 1 {
        (b / 0x1_0000) % 0x100
    } else if k == 2 {
        (b / 0x100) % 0x100
    } else {
        b % 0x100
    }
}

/// The 32-bit value of the address with octets `a.b.c.d`.
pub open spec fn from_octets(a: u8, b: u8, c: u8, d: u8) -> int {
    a * 0x100_0000 + b * 0x1_0000 + c * 0x100 + d
}

/// The dotted-decimal text of the address `bits`.
pub open spec fn dotted(bits: u32) -> Seq<char> {
    decimal(octet(bits, 0) as nat) + seq!['.'] + decimal(octet(bits, 1) as nat) + seq!['.']
        + decimal(octet(bits, 2) as nat) + seq!['.'] + decimal(octet(bits, 3) as nat)
}

proof fn lemma_octets(x: u32)
    ensures
        (x >> 24u32) as u8 == x / 0x100_0000,
        (x >> 16u32) as u8 == (x / 0x1_0000) % 0x100,
        (x >> 8u32) as u8 == (x / 0x100) % 0x100,
        x as u8 == x % 0x100,
{
    assert((x >> 24u32) as u8 == x / 0x100_0000) by (bit_vector);
    assert((x >> 16u32) as u8 == (x / 0x1_0000) % 0x100) by (bit_vector);
    assert((x >> 8u32) as u8 == (x / 0x100) % 0x100) by (bit_vector);
    assert(x as u8 == x % 0x100) by (bit_vector);
}

proof fn lemma_assemble(a: u8, b: u8, c: u8, d: u8)
    ensures
        ((a as u32) << 24u32) | ((b as u32) << 16u32) | ((c as u32) << 8u32) | (d as u32)
            == a * 0x100_0000 + b * 0x1_0000 + c * 0x100 + d,
{
    assert(((a as u32) << 24u32) | ((b as u32) << 16u32) | ((c as u32) << 8u32) | (d as u32)
        == a * 0x100_0000 + b * 0x1_0000 + c * 0x100 + d) by (bit_vector);
}

impl Ipv4Addr {
    /// The address whose 32-bit value is `bits`.
    pub fn from_bits(bits: u32) -> (ip: Ipv4Addr)
        ensures
            ip@ == bits,
    {
        Ipv4Addr { bits }
    }

    /// The 32-bit value of the address.
    pub fn to_bits(&self) -> (bits: u32)
        ensures
            bits == self@,
    {
        self.bits
    }

    /// The address `a.b.c.d`.
    pub fn new(a: u8, b: u8, c: u8, d: u8) -> (ip: Ipv4Addr)
        ensures
            ip@ == from_octets(a, b, c, d),
    {
        proof {
            lemma_assemble(a, b, c, d);
        }
        Ipv4Addr { bits: ((a as u32) << 24) | ((b as u32) << 16) | ((c as u32) << 8) | (d as u32) }
    }

    /// The four octets of the address, most significant first.
    pub fn octets(&self) -> (o: [u8; 4])
        ensures
            o@.len() == 4,
            forall|k: int| 0 <= k < 4 ==> o@[k] == octet(self@, k),
    {
        proof {
            lemma_octets(self.bits);
        }
        [(self.bits >> 24) as u8, (self.bits >> 16) as u8, (self.bits >> 8) as u8, self.bits as u8]
    }

    /// The dotted-decimal text of the address, such as `100.64.0.1`.
    pub fn to_string(&self) -> (s: String)
        ensures
            s@ == dotted(self@),
    {
        let o = self.octets();
        let dot: &str = ".";
        proof {
            reveal_strlit(".");
        }
        let mut s = String::new();
        push_decimal(&mut s, o[0] as u64);
        s.append(dot);
        push_decimal(&mut s, o[1] as u64);
        s.append(dot);
        push_decimal(&mut s, o[2] as u64);
        s.append(dot);
        push_decimal(&mut s, o[3] as u64);
        proof {
            assert(s@ =~= dotted(self@));
        }
        s
    }
}

/// The base of the overlay network, 100.64.0.0.
pub const OVERLAY_BASE: u32 = 0x6440_0000;

/// The host part of an overlay address: the low 22 bits.
pub const OVERLAY_HOST_MASK: u32 = 0x003F_FFFF;

/// The overlay network's prefix length.
pub const OVERLAY_PREFIX_LEN: u8 = 10;

/// The SHA-256 digest of `data`.
pub uninterp spec fn sha256(data: Seq<u8>) -> Seq<u8>;

/// Calls `sha2::Sha256::digest`. Claims that the 32 bytes it returns are the
/// SHA-256 digest of `data`, a function of `data` alone.
#[verifier::external_body]
fn sha256_digest(data: &[u8]) -> (digest: [u8; 32])
    ensures
        digest@ == sha256(data@),
{
    sha2::Sha256::digest(data).into()
}

/// The first four bytes of a digest, read as a big-endian integer.
pub open spec fn digest_prefix(digest: Seq<u8>) -> int {
    digest[0] * 0x100_0000 + digest[1] * 0x1_0000 + digest[2] * 0x100 + digest[3]
}

/// The host part of the overlay address derived from `digest`: the low 22 bits
/// of its prefix, with a last octet of 0 raised to 1 and one of 255 lowered to 254.
pub open spec fn overlay_host(digest: Seq<u8>) -> int {
    let host = digest_prefix(digest) % 0x40_0000;
    if host % 0x100 == 0 {
        host + 1
    } else if host % 0x100 == 0xFF {
        host - 1
    } else {
        host
    }
}

/// The overlay address derived from `digest`.
pub open spec fn overlay_addr(digest: Seq<u8>) -> int {
    0x6440_0000 + overlay_host(digest)
}

/// The address lies in 100.64.0.0/10: first octet 100, second in 64..=127.
pub open spec fn in_overlay_network(bits: u32) -> bool {
    &&& octet(bits, 0) == 100
    &&& 64 <= octet(bits, 1) <= 127
}

/// The last octet is neither 0 (network) nor 255 (broadcast) of a /24.
pub open spec fn usable_host(bits: u32) -> bool {
    octet(bits, 3) != 0 && octet(bits, 3) != 255
}

proof fn lemma_overlay_bits(raw: u32)
    ensures
        raw & 0x003F_FFFFu32 == raw % 0x40_0000,
        (raw & 0x003F_FFFFu32) & 0xFFu32 == (raw % 0x40_0000) % 0x100,
        ((raw & 0x003F_FFFFu32) & 0xFFu32) == 0u32 ==> (raw & 0x003F_FFFFu32) | 1u32 == (raw
            & 0x003F_FFFFu32) + 1,
        ((raw & 0x003F_FFFFu32) & 0xFFu32) == 0xFFu32 ==> (raw & 0x003F_FFFFu32) & !1u32 == (raw
            & 0x003F_FFFFu32) - 1,
{
    assert(raw & 0x003F_FFFFu32 == raw % 0x40_0000) by (bit_vector);
    assert((raw & 0x003F_FFFFu32) & 0xFFu32 == (raw % 0x40_0000) % 0x100) by (bit_vector);
    assert(((raw & 0x003F_FFFFu32) & 0xFFu32) == 0u32 ==> (raw & 0x003F_FFFFu32) | 1u32 == (raw
        & 0x003F_FFFFu32) + 1) by (bit_vector);
    assert(((raw & 0x003F_FFFFu32) & 0xFFu32) == 0xFFu32 ==> (raw & 0x003F_FFFFu32) & !1u32 == (
    raw & 0x003F_FFFFu32) - 1) by (bit_vector);
}

proof fn lemma_base_or(host: u32)
    requires
        host < 0x40_0000,
    ensures
        0x6440_0000u32 | host == 0x6440_0000 + host,
{
    assert(host < 0x40_0000u32 ==> 0x6440_0000u32 | host == 0x6440_0000 + host) by (bit_vector);
}

proof fn lemma_host_addr(h: int)
    requires
        0 <= h < 0x40_0000,
        h % 0x100 != 0,
        h % 0x100 != 0xFF,
    ensures
        ((0x6440_0000 + h) as u32) as int == 0x6440_0000 + h,
        in_overlay_network((0x6440_0000 + h) as u32),
        usable_host((0x6440_0000 + h) as u32),
{
    let a = 0x6440_0000 + h;
    assert(a == 100 * 0x100_0000 + (0x40_0000 + h));
    assert(a / 0x100_0000 == 100) by (nonlinear_arith)
        requires
            a == 100 * 0x100_0000 + (0x40_0000 + h),
            0 <= h < 0x40_0000,
    ;
    assert(a / 0x1_0000 == 100 * 0x100 + 64 + h / 0x1_0000) by (nonlinear_arith)
        requires
            a == 100 * 0x100_0000 + (0x40_0000 + h),
            0 <= h < 0x40_0000,
    ;
    assert(0 <= h / 0x1_0000 < 64);
    assert((a / 0x1_0000) % 0x100 == 64 + h / 0x1_0000);
    assert(a % 0x100 == h % 0x100);
}

/// Every address derived from a digest lies in the overlay network and has a
/// usable last octet.
pub proof fn lemma_overlay_addr_range(digest: Seq<u8>)
    requires
        digest.len() >= 4,
    ensures
        0x6440_0000 <= overlay_addr(digest) < 0x6480_0000,
        in_overlay_network(overlay_addr(digest) as u32),
        usable_host(overlay_addr(digest) as u32),
{
    let p = digest_prefix(digest);
    assert(0 <= p);
    let host = p % 0x40_0000;
    assert(0 <= host < 0x40_0000);
    let h = overlay_host(digest);
    assert(0 <= h < 0x40_0000);
    assert(h % 0x100 != 0 && h % 0x100 != 0xFF);
    lemma_host_addr(h);
}

/// The overlay address derived from a SHA-256 digest of a node's key.
pub fn overlay_ip_from_digest(digest: &[u8; 32]) -> (ip: Ipv4Addr)
    ensures
        ip@ == overlay_addr(digest@),
        in_overlay_network(ip@),
        usable_host(ip@),
{
    proof {
        lemma_assemble(digest[0], digest[1], digest[2], digest[3]);
        lemma_overlay_addr_range(digest@);
    }
    let raw: u32 = ((digest[0] as u32) << 24) | ((digest[1] as u32) << 16) | ((digest[2] as u32)
        << 8) | (digest[3] as u32);
    proof {
        lemma_overlay_bits(raw);
    }
    let mut host = raw & OVERLAY_HOST_MASK;
    let last = host & 0xFF;
    if last == 0 {
        host = host | 1;
    } else if last == 255 {
        host = host & !1u32;
    }
    proof {
        lemma_base_or(host);
    }
    Ipv4Addr { bits: OVERLAY_BASE | host }
}

/// The overlay address of the node with identity `id`: the address derived
/// from the SHA-256 digest of its key bytes.
pub fn overlay_ip_from_id(id: &EndpointId) -> (ip: Ipv4Addr)
    ensures
        ip@ == overlay_addr(sha256(id@)),
        in_overlay_network(ip@),
        usable_host(ip@),
{
    let digest = sha256_digest(id.as_bytes().as_slice());
    overlay_ip_from_digest(&digest)
}

/// Two derivations for the same key give the same address: the address is a
/// function of the key alone.
pub proof fn lemma_overlay_deterministic(a: EndpointId, b: EndpointId)
    requires
        a@ == b@,
    ensures
        overlay_addr(sha256(a@)) == overlay_addr(sha256(b@)),
{
}

/// The CIDR text of an overlay address: its dotted-decimal form followed by
/// `/10`, as a tunnel interface is configured with it.
pub fn overlay_cidr(ip: Ipv4Addr) -> (s: String)
    ensures
        s@ == dotted(ip@) + seq!['/'] + decimal(OVERLAY_PREFIX_LEN as nat),
{
    let mut s = ip.to_string();
    let slash: &str = "/";
    proof {
        reveal_strlit("/");
    }
    s.append(slash);
    push_decimal(&mut s, OVERLAY_PREFIX_LEN as u64);
    s
}

} // verus!
