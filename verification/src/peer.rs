//! Peer state: the handshake message peers exchange and the table of known
//! peers, keyed by identity.

use vstd::prelude::*;
use crate::endpoint::EndpointId;
use crate::overlay_ip::Ipv4Addr;

verus! {

/// The message two peers exchange over their authenticated connection: the
/// tunnel credential, the overlay address and, when known, a direct tunnel
/// endpoint (`ip:port`).
#[derive(Debug, Clone)]
pub struct PeerHandshake {
    /// Tunnel public key (for WireGuard, a base64 Curve25519 key).
    pub tunnel_pubkey: String,
    /// Overlay address derived from the sender's identity.
    pub overlay_ip: Ipv4Addr,
    /// Optional direct tunnel endpoint.
    pub tunnel_endpoint: Option<String>,
}

/// What the table knows of a peer.
#[derive(Debug, Clone)]
pub struct PeerInfo {
    pub endpoint_id: EndpointId,
    pub tunnel_pubkey: String,
    pub overlay_ip: Ipv4Addr,
    pub tunnel_endpoint: Option<String>,
    /// The time of the last handshake, in the caller's monotonic clock.
    pub last_seen: u64,
    pub connected: bool,
}

/// A copy of an optional string.
pub fn copy_opt_string(s: &Option<String>) -> (r: Option<String>)
    ensures
        r == *s,
{
    match s {
        Some(t) => Some(t.clone()),
        None => None,
    }
}

impl PeerHandshake {
    /// A copy of the message.
    pub fn duplicate(&self) -> (r: PeerHandshake)
        ensures
            r == *self,
    {
        PeerHandshake {
            tunnel_pubkey: self.tunnel_pubkey.clone(),
            overlay_ip: self.overlay_ip,
            tunnel_endpoint: copy_opt_string(&self.tunnel_endpoint),
        }
    }
}

impl PeerInfo {
    /// A copy of the record.
    pub fn duplicate(&self) -> (r: PeerInfo)
        ensures
            r == *self,
    {
        PeerInfo {
            endpoint_id: self.endpoint_id,
            tunnel_pubkey: self.tunnel_pubkey.clone(),
            overlay_ip: self.overlay_ip,
            tunnel_endpoint: copy_opt_string(&self.tunnel_endpoint),
            last_seen: self.last_seen,
            connected: self.connected,
        }
    }
}

/// The record a handshake from `id`, received at `now`, gives: the peer's
/// credentials as it sent them, marked connected.
pub open spec fn info_from(id: EndpointId, hs: PeerHandshake, now: u64) -> PeerInfo {
    PeerInfo {
        endpoint_id: id,
        tunnel_pubkey: hs.tunnel_pubkey,
        overlay_ip: hs.overlay_ip,
        tunnel_endpoint: hs.tunnel_endpoint,
        last_seen: now,
        connected: true,
    }
}

/// A handshake is recorded as the peer sent it: the record holds the sender's
/// identity, the key, address and endpoint of the handshake, the time it was
/// received, and marks the peer connected.
pub proof fn lemma_record_from_handshake(id: EndpointId, hs: PeerHandshake, now: u64)
    ensures
        info_from(id, hs, now).endpoint_id == id,
        info_from(id, hs, now).tunnel_pubkey == hs.tunnel_pubkey,
        info_from(id, hs, now).overlay_ip == hs.overlay_ip,
        info_from(id, hs, now).tunnel_endpoint == hs.tunnel_endpoint,
        info_from(id, hs, now).last_seen == now,
        info_from(id, hs, now).connected,
{
}

/// `p` marked disconnected, all else unchanged.
pub open spec fn disconnected(p: PeerInfo) -> PeerInfo {
    PeerInfo { connected: false, ..p }
}

/// The identities of a sequence of records, in order.
pub open spec fn peer_ids(s: Seq<PeerInfo>) -> Seq<Seq<u8>> {
    s.map_values(|p: PeerInfo| p.endpoint_id@)
}

/// The map from identity to record that a sequence of records with distinct
/// identities stands for.
pub open spec fn table_map(s: Seq<PeerInfo>) -> Map<Seq<u8>, PeerInfo> {
    Map::new(|k: Seq<u8>| peer_ids(s).contains(k), |k: Seq<u8>| s[peer_ids(s).index_of(k)])
}

proof fn lemma_map_lookup(s: Seq<PeerInfo>, i: int)
    requires
        peer_ids(s).no_duplicates(),
        0 <= i < s.len(),
    ensures
        table_map(s).contains_key(s[i].endpoint_id@),
        table_map(s)[s[i].endpoint_id@] == s[i],
{
    let ids = peer_ids(s);
    let k = s[i].endpoint_id@;
    assert(ids[i] == k);
    assert(ids.contains(k));
    let j = ids.index_of(k);
    assert(0 <= j < ids.len() && ids[j] == k);
    assert(j == i);
}

proof fn lemma_index_of(s: Seq<PeerInfo>, i: int)
    requires
        peer_ids(s).no_duplicates(),
        0 <= i < s.len(),
    ensures
        peer_ids(s).index_of(s[i].endpoint_id@) == i,
{
    let ids = peer_ids(s);
    let k = s[i].endpoint_id@;
    assert(ids[i] == k);
    assert(ids.contains(k));
}

proof fn lemma_map_push(s: Seq<PeerInfo>, x: PeerInfo)
    requires
        peer_ids(s).no_duplicates(),
        !peer_ids(s).contains(x.endpoint_id@),
    ensures
        peer_ids(s.push(x)).no_duplicates(),
        table_map(s.push(x)) == table_map(s).insert(x.endpoint_id@, x),
{
    let t = s.push(x);
    assert(peer_ids(t) =~= peer_ids(s).push(x.endpoint_id@));
    assert forall|a: int, b: int| 0 <= a < b < peer_ids(t).len() implies peer_ids(t)[a] != peer_ids(
        t,
    )[b] by {
        if b == s.len() {
            assert(peer_ids(s)[a] == peer_ids(t)[a]);
        }
    }
    let m1 = table_map(t);
    let m2 = table_map(s).insert(x.endpoint_id@, x);
    assert forall|k: Seq<u8>| m1.contains_key(k) <==> m2.contains_key(k) by {
        if peer_ids(t).contains(k) {
            let j = choose|j: int| 0 <= j < peer_ids(t).len() && peer_ids(t)[j] == k;
            if j < s.len() {
                assert(peer_ids(s)[j] == k);
            }
        }
        if peer_ids(s).contains(k) {
            let j = choose|j: int| 0 <= j < peer_ids(s).len() && peer_ids(s)[j] == k;
            assert(peer_ids(t)[j] == k);
        }
        if k == x.endpoint_id@ {
            assert(peer_ids(t)[s.len() as int] == k);
        }
    }
    assert forall|k: Seq<u8>| #[trigger] m1.contains_key(k) implies m1[k] == m2[k] by {
        let j = choose|j: int| 0 <= j < peer_ids(t).len() && peer_ids(t)[j] == k;
        lemma_map_lookup(t, j);
        if j < s.len() {
            assert(t[j] == s[j]);
            lemma_map_lookup(s, j);
        }
    }
    assert(m1 =~= m2);
}

proof fn lemma_map_update(s: Seq<PeerInfo>, i: int, x: PeerInfo)
    requires
        peer_ids(s).no_duplicates(),
        0 <= i < s.len(),
        x.endpoint_id@ == s[i].endpoint_id@,
    ensures
        peer_ids(s.update(i, x)).no_duplicates(),
        table_map(s.update(i, x)) == table_map(s).insert(x.endpoint_id@, x),
{
    let t = s.update(i, x);
    assert(peer_ids(t) =~= peer_ids(s));
    let m1 = table_map(t);
    let m2 = table_map(s).insert(x.endpoint_id@, x);
    assert forall|k: Seq<u8>| m1.contains_key(k) <==> m2.contains_key(k) by {
        if k == x.endpoint_id@ {
            assert(peer_ids(s)[i] == k);
        }
    }
    assert forall|k: Seq<u8>| #[trigger] m1.contains_key(k) implies m1[k] == m2[k] by {
        let j = choose|j: int| 0 <= j < peer_ids(t).len() && peer_ids(t)[j] == k;
        lemma_map_lookup(t, j);
        assert(peer_ids(t)[i] == x.endpoint_id@);
        if j != i {
            assert(peer_ids(s)[j] != peer_ids(s)[i]);
            assert(t[j] == s[j]);
            lemma_map_lookup(s, j);
        } else {
            assert(t[j] == x);
        }
    }
    assert(m1 =~= m2);
}

proof fn lemma_map_remove(s: Seq<PeerInfo>, i: int)
    requires
        peer_ids(s).no_duplicates(),
        0 <= i < s.len(),
    ensures
        peer_ids(s.remove(i)).no_duplicates(),
        table_map(s.remove(i)) == table_map(s).remove(s[i].endpoint_id@),
{
    let t = s.remove(i);
    let ids = peer_ids(s);
    s.remove_ensures(i);
    ids.remove_ensures(i);
    assert(peer_ids(t) =~= ids.remove(i));
    assert(ids[i] == s[i].endpoint_id@);
    assert forall|a: int, b: int| 0 <= a < b < peer_ids(t).len() implies peer_ids(t)[a] != peer_ids(
        t,
    )[b] by {
        let a2 = if a < i { a } else { a + 1 };
        let b2 = if b < i { b } else { b + 1 };
        assert(peer_ids(t)[a] == ids[a2]);
        assert(peer_ids(t)[b] == ids[b2]);
    }
    let m1 = table_map(t);
    let m2 = table_map(s).remove(s[i].endpoint_id@);
    assert forall|k: Seq<u8>| m1.contains_key(k) <==> m2.contains_key(k) by {
        if peer_ids(t).contains(k) {
            let j = choose|j: int| 0 <= j < peer_ids(t).len() && peer_ids(t)[j] == k;
            let j2 = if j < i { j } else { j + 1 };
            assert(ids[j2] == k);
            assert(j2 != i);
        }
        if ids.contains(k) && k != s[i].endpoint_id@ {
            let j = choose|j: int| 0 <= j < ids.len() && ids[j] == k;
            assert(j != i);
            let j2 = if j < i { j } else { j - 1 };
            assert(peer_ids(t)[j2] == k);
        }
    }
    assert forall|k: Seq<u8>| #[trigger] m1.contains_key(k) implies m1[k] == m2[k] by {
        let j = choose|j: int| 0 <= j < peer_ids(t).len() && peer_ids(t)[j] == k;
        lemma_map_lookup(t, j);
        let j2 = if j < i { j } else { j + 1 };
        assert(t[j] == s[j2]);
        lemma_map_lookup(s, j2);
    }
    assert(m1 =~= m2);
}

proof fn lemma_map_len(s: Seq<PeerInfo>)
    requires
        peer_ids(s).no_duplicates(),
    ensures
        table_map(s).len() == s.len(),
        table_map(s).dom().finite(),
{
    let ids = peer_ids(s);
    assert(table_map(s).dom() =~= ids.to_set());
    ids.unique_seq_to_set();
    vstd::seq_lib::seq_to_set_is_finite(ids);
}

/// Recording the same handshake twice leaves the table as recording it once.
pub proof fn lemma_upsert_idempotent(
    table: Map<Seq<u8>, PeerInfo>,
    id: EndpointId,
    handshake: PeerHandshake,
    now: u64,
)
    ensures
        table.insert(id@, info_from(id, handshake, now)).insert(id@, info_from(id, handshake, now))
            == table.insert(id@, info_from(id, handshake, now)),
{
    let v = info_from(id, handshake, now);
    assert(table.insert(id@, v).insert(id@, v) =~= table.insert(id@, v));
}

/// A second handshake from a known peer finds it known, leaves the number of
/// peers unchanged and changes its record only in the time it was last seen,
/// which does not go back as long as the caller's clock does not.
pub proof fn lemma_repeat_upsert(
    table: Map<Seq<u8>, PeerInfo>,
    id: EndpointId,
    handshake: PeerHandshake,
    first: u64,
    second: u64,
)
    requires
        first <= second,
    ensures
        ({
            let once = table.insert(id@, info_from(id, handshake, first));
            let twice = once.insert(id@, info_from(id, handshake, second));
            &&& once.contains_key(id@)
            &&& twice.dom() == once.dom()
            &&& twice[id@] == (PeerInfo { last_seen: second, ..once[id@] })
            &&& once[id@].last_seen <= twice[id@].last_seen
        }),
{
    let once = table.insert(id@, info_from(id, handshake, first));
    assert(once.insert(id@, info_from(id, handshake, second)).dom() =~= once.dom());
}

/// Marking a record disconnected clears its connected flag and keeps every
/// other field, the time it was last seen included, whether or not it was
/// connected before.
pub proof fn lemma_disconnected_keeps_fields(p: PeerInfo)
    ensures
        !disconnected(p).connected,
        disconnected(p).endpoint_id == p.endpoint_id,
        disconnected(p).tunnel_pubkey == p.tunnel_pubkey,
        disconnected(p).overlay_ip == p.overlay_ip,
        disconnected(p).tunnel_endpoint == p.tunnel_endpoint,
        disconnected(p).last_seen == p.last_seen,
{
}

/// Marking a peer disconnected keeps it known, with the credentials it sent.
pub proof fn lemma_disconnect_keeps_peer(table: Map<Seq<u8>, PeerInfo>, id: Seq<u8>)
    requires
        table.contains_key(id),
    ensures
        table.insert(id, disconnected(table[id])).dom() == table.dom(),
        table.insert(id, disconnected(table[id]))[id].tunnel_pubkey == table[id].tunnel_pubkey,
        !table.insert(id, disconnected(table[id]))[id].connected,
{
    assert(table.insert(id, disconnected(table[id])).dom() =~= table.dom());
}

/// The table of known peers. Each identity occurs at most once; the order is
/// that in which peers were first met.
#[derive(Debug)]
pub struct PeerTable {
    entries: Vec<PeerInfo>,
}

impl PeerTable {
    #[verifier::type_invariant]
    spec fn distinct_ids(self) -> bool {
        peer_ids(self.entries@).no_duplicates()
    }

    /// The known peers, in the order in which they were first met.
    pub closed spec fn peers(self) -> Seq<PeerInfo> {
        self.entries@
    }
}

impl Default for PeerTable {
    /// An empty table.
    fn default() -> (t: PeerTable)
        ensures
            t@ == Map::<Seq<u8>, PeerInfo>::empty(),
    {
        PeerTable::new()
    }
}

impl View for PeerTable {
    type V = Map<Seq<u8>, PeerInfo>;

    /// The known peers by identity.
    open spec fn view(&self) -> Map<Seq<u8>, PeerInfo> {
        table_map(self.peers())
    }
}

impl PeerTable {
    /// An empty table.
    pub fn new() -> (t: PeerTable)
        ensures
            t.peers() == Seq::<PeerInfo>::empty(),
            t@ == Map::<Seq<u8>, PeerInfo>::empty(),
    {
        let t = PeerTable { entries: Vec::new() };
        assert(t@ =~= Map::<Seq<u8>, PeerInfo>::empty());
        t
    }

    /// The position of `id` in the table, if it is there.
    fn position(&self, id: &EndpointId) -> (r: Option<usize>)
        ensures
            r matches Some(i) ==> i < self.peers().len() && self.peers()[i as int].endpoint_id@
                == id@,
            r is None ==> !peer_ids(self.peers()).contains(id@),
    {
        let n = self.entries.len();
        for i in 0..n
            invariant
                n == self.entries@.len(),
                forall|j: int| 0 <= j < i ==> self.entries@[j].endpoint_id@ != id@,
        {
            if self.entries[i].endpoint_id.same_as(id) {
                return Some(i);
            }
        }
        proof {
            if peer_ids(self.peers()).contains(id@) {
                let j = choose|j: int|
                    0 <= j < peer_ids(self.peers()).len() && peer_ids(self.peers())[j] == id@;
                assert(self.entries@[j].endpoint_id@ == id@);
            }
        }
        None
    }

    /// Adds or updates a peer from its handshake, received at `now`. Returns
    /// whether the peer was new.
    pub fn upsert(&mut self, endpoint_id: EndpointId, handshake: PeerHandshake, now: u64) -> (is_new:
        bool)
        ensures
            is_new == !old(self)@.contains_key(endpoint_id@),
            final(self)@ == old(self)@.insert(endpoint_id@, info_from(endpoint_id, handshake, now)),
            is_new ==> final(self).peers() == old(self).peers().push(
                info_from(endpoint_id, handshake, now),
            ),
            !is_new ==> final(self).peers() == old(self).peers().update(
                peer_ids(old(self).peers()).index_of(endpoint_id@),
                info_from(endpoint_id, handshake, now),
            ),
    {
        proof {
            use_type_invariant(&*self);
        }
        let ghost s = self.entries@;
        let info = PeerInfo {
            endpoint_id,
            tunnel_pubkey: handshake.tunnel_pubkey,
            overlay_ip: handshake.overlay_ip,
            tunnel_endpoint: handshake.tunnel_endpoint,
            last_seen: now,
            connected: true,
        };
        match self.position(&endpoint_id) {
            Some(i) => {
                proof {
                    lemma_map_update(s, i as int, info);
                    lemma_map_lookup(s, i as int);
                    let ids = peer_ids(s);
                    let j = ids.index_of(endpoint_id@);
                    assert(ids[i as int] == endpoint_id@);
                    assert(ids.contains(endpoint_id@));
                    assert(j == i);
                }
                let mut entries: Vec<PeerInfo> = Vec::new();
                std::mem::swap(&mut entries, &mut self.entries);
                entries.set(i, info);
                self.entries = entries;
                false
            },
            None => {
                proof {
                    lemma_map_push(s, info);
                }
                let mut entries: Vec<PeerInfo> = Vec::new();
                std::mem::swap(&mut entries, &mut self.entries);
                entries.push(info);
                self.entries = entries;
                true
            },
        }
    }

    /// Marks a peer disconnected. Returns its updated record, or `None` (and
    /// leaves the table as it was) when the peer is unknown.
    pub fn mark_disconnected(&mut self, endpoint_id: &EndpointId) -> (r: Option<PeerInfo>)
        ensures
            old(self)@.contains_key(endpoint_id@) ==> r == Some(
                PeerInfo { connected: false, ..old(self)@[endpoint_id@] },
            ),
            old(self)@.contains_key(endpoint_id@) ==> {
                &&& r == Some(disconnected(old(self)@[endpoint_id@]))
                &&& final(self)@ == old(self)@.insert(
                    endpoint_id@,
                    disconnected(old(self)@[endpoint_id@]),
                )
                &&& final(self).peers() == old(self).peers().update(
                    peer_ids(old(self).peers()).index_of(endpoint_id@),
                    disconnected(old(self)@[endpoint_id@]),
                )
            },
            !old(self)@.contains_key(endpoint_id@) ==> r is None && final(self).peers() == old(
                self,
            ).peers(),
    {
        proof {
            use_type_invariant(&*self);
        }
        let ghost s = self.entries@;
        match self.position(endpoint_id) {
            Some(i) => {
                let mut p = self.entries[i].duplicate();
                p.connected = false;
                let r = p.duplicate();
                proof {
                    lemma_index_of(s, i as int);
                    lemma_map_lookup(s, i as int);
                    lemma_map_update(s, i as int, p);
                }
                let mut entries: Vec<PeerInfo> = Vec::new();
                std::mem::swap(&mut entries, &mut self.entries);
                entries.set(i, p);
                self.entries = entries;
                Some(r)
            },
            None => None,
        }
    }

    /// Removes a peer entirely. Returns its record, or `None` (and leaves the
    /// table as it was) when the peer is unknown.
    pub fn remove(&mut self, endpoint_id: &EndpointId) -> (r: Option<PeerInfo>)
        ensures
            old(self)@.contains_key(endpoint_id@) ==> {
                &&& r == Some(old(self)@[endpoint_id@])
                &&& final(self)@ == old(self)@.remove(endpoint_id@)
                &&& final(self).peers() == old(self).peers().remove(
                    peer_ids(old(self).peers()).index_of(endpoint_id@),
                )
            },
            !old(self)@.contains_key(endpoint_id@) ==> r is None && final(self).peers() == old(
                self,
            ).peers(),
    {
        proof {
            use_type_invariant(&*self);
        }
        let ghost s = self.entries@;
        match self.position(endpoint_id) {
            Some(i) => {
                proof {
                    lemma_index_of(s, i as int);
                    lemma_map_lookup(s, i as int);
                    lemma_map_remove(s, i as int);
                }
                let mut entries: Vec<PeerInfo> = Vec::new();
                std::mem::swap(&mut entries, &mut self.entries);
                let p = entries.remove(i);
                self.entries = entries;
                Some(p)
            },
            None => None,
        }
    }

    /// A snapshot of all peers, each known peer exactly once, in table order.
    pub fn list(&self) -> (r: Vec<PeerInfo>)
        ensures
            r@ == self.peers(),
            r@.len() == self@.len(),
            peer_ids(r@).no_duplicates(),
            forall|i: int| 0 <= i < r@.len() ==> self@.contains_key(#[trigger] r@[i].endpoint_id@)
                && self@[r@[i].endpoint_id@] == r@[i],
            forall|k: Seq<u8>| #[trigger] self@.contains_key(k) ==> exists|i: int|
                0 <= i < r@.len() && r@[i].endpoint_id@ == k,
    {
        proof {
            use_type_invariant(self);
            lemma_map_len(self.entries@);
        }
        let mut r: Vec<PeerInfo> = Vec::new();
        let n = self.entries.len();
        for i in 0..n
            invariant
                n == self.entries@.len(),
                r@ == self.entries@.take(i as int),
        {
            r.push(self.entries[i].duplicate());
            proof {
                assert(r@ =~= self.entries@.take(i + 1));
            }
        }
        proof {
            assert(r@ =~= self.entries@);
            assert forall|i: int| 0 <= i < r@.len() implies self@.contains_key(
                #[trigger] r@[i].endpoint_id@,
            ) && self@[r@[i].endpoint_id@] == r@[i] by {
                lemma_map_lookup(self.entries@, i);
            }
            assert forall|k: Seq<u8>| #[trigger] self@.contains_key(k) implies exists|i: int|
                0 <= i < r@.len() && r@[i].endpoint_id@ == k by {
                let j = choose|j: int|
                    0 <= j < peer_ids(self.entries@).len() && peer_ids(self.entries@)[j] == k;
                assert(r@[j].endpoint_id@ == k);
            }
        }
        r
    }

    /// The record of a specific peer, if known.
    pub fn get(&self, endpoint_id: &EndpointId) -> (r: Option<PeerInfo>)
        ensures
            r == (if self@.contains_key(endpoint_id@) {
                Some(self@[endpoint_id@])
            } else {
                None
            }),
    {
        proof {
            use_type_invariant(self);
        }
        match self.position(endpoint_id) {
            Some(i) => {
                proof {
                    lemma_map_lookup(self.entries@, i as int);
                }
                Some(self.entries[i].duplicate())
            },
            None => None,
        }
    }

    /// The number of known peers.
    pub fn count(&self) -> (n: usize)
        ensures
            n == self@.len(),
            n == self.peers().len(),
    {
        proof {
            use_type_invariant(self);
            lemma_map_len(self.entries@);
        }
        self.entries.len()
    }
}

} // verus!
