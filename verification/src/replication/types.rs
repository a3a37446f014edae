//! Identities of keys and peers.

use vstd::prelude::*;

verus! {

/// Address of a record in the network.
pub type XorName = [u8; 32];

/// Identity of a peer: the 32 bytes that two peers are told apart by.
#[derive(Debug, Clone, Copy)]
pub struct PeerId {
    pub bytes: [u8; 32],
}

impl PeerId {
    /// The peer with the identity `bytes`.
    pub fn from_bytes(bytes: [u8; 32]) -> (peer: PeerId)
        ensures
            peer == (PeerId { bytes }),
    {
        PeerId { bytes }
    }

    /// Whether `self` and `other` are the same peer.
    pub fn same_as(&self, other: &PeerId) -> (same: bool)
        ensures
            same == (*self == *other),
    {
        same_name(&self.bytes, &other.bytes)
    }
}

/// Whether `a` and `b` are the same 32 bytes.
pub fn same_name(a: &XorName, b: &XorName) -> (same: bool)
    ensures
        same == (*a == *b),
{
    let mut i: usize = 0;
    while i < 32
        invariant
            i <= 32,
            forall|j: int| 0 <= j < i ==> a[j] == b[j],
        decreases 32 - i,
    {
        if a[i] != b[i] {
            return false;
        }
        i += 1;
    }
    assert(*a =~= *b);
    true
}

} // verus!
