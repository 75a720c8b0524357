//! The identity of a mesh node: the 32 bytes of its Ed25519 public key.

use vstd::prelude::*;
use crate::text::{hex_lower, hex_string};

verus! {

/// A node's identity, the 32 bytes of its public key as the transport layer
/// presents them.
#[derive(Clone, Copy, PartialEq, Eq, Debug, Hash)]
pub struct EndpointId {
    bytes: [u8; 32],
}

impl View for EndpointId {
    type V = Seq<u8>;

    closed spec fn view(&self) -> Seq<u8> {
        self.bytes@
    }
}

impl EndpointId {
    /// The identity whose key bytes are `bytes`.
    pub fn from_bytes(bytes: [u8; 32]) -> (id: EndpointId)
        ensures
            id@ == bytes@,
    {
        EndpointId { bytes }
    }

    /// The key bytes of this identity.
    pub fn as_bytes(&self) -> (bytes: &[u8; 32])
        ensures
            bytes@ == self@,
    {
        &self.bytes
    }

    /// Every identity has exactly 32 key bytes.
    pub proof fn lemma_len(&self)
        ensures
            self@.len() == 32,
    {
    }

    /// The text form of the identity: its key bytes in lower-case hexadecimal.
    pub fn to_string(&self) -> (s: String)
        ensures
            s@ == hex_lower(self@),
    {
        hex_string(self.bytes.as_slice())
    }

    /// Whether two identities have the same key bytes.
    pub fn same_as(&self, other: &EndpointId) -> (same: bool)
        ensures
            same == (self@ == other@),
    {
        let mut i: usize = 0;
        while i < 32
            invariant
                0 <= i <= 32,
                self@.len() == 32,
                other@.len() == 32,
                forall|j: int| 0 <= j < i ==> self@[j] == other@[j],
            decreases 32 - i,
        {
            if self.bytes[i] != other.bytes[i] {
                return false;
            }
            i = i + 1;
        }
        proof {
            assert(self@ =~= other@);
        }
        true
    }
}

/// The Ed25519 public key that belongs to the 32-byte secret key `secret`.
pub uninterp spec fn ed25519_public(secret: Seq<u8>) -> Seq<u8>;

/// Calls `iroh::SecretKey::from_bytes` and `SecretKey::public`. Claims that
/// the 32 bytes returned are the Ed25519 public key of `secret`, a function of
/// `secret` alone.
#[verifier::external_body]
fn public_key_bytes(secret: &[u8; 32]) -> (p: [u8; 32])
    ensures
        p@ == ed25519_public(secret@),
{
    *iroh::SecretKey::from_bytes(secret).public().as_bytes()
}

/// The identity of the node holding the secret key `secret`: its public key.
pub fn node_identity(secret: &[u8; 32]) -> (id: EndpointId)
    ensures
        id@ == ed25519_public(secret@),
{
    EndpointId::from_bytes(public_key_bytes(secret))
}

} // verus!
