//! Plain value types shared by the library.

use vstd::prelude::*;

verus! {

/// A 32-byte hash (block roots, signing roots).
#[derive(Clone, Copy, Debug, PartialEq, Eq, Hash)]
pub struct Hash256 {
    pub bytes: [u8; 32],
}

/// A compressed BLS public key in its 48-byte serialized form.
#[derive(Clone, Copy, Debug, PartialEq, Eq, Hash)]
pub struct PublicKeyBytes {
    pub bytes: [u8; 48],
}

/// The 56-byte identifier of an SSV message stream.
#[derive(Clone, Copy, Debug, PartialEq, Eq, Hash)]
pub struct MessageId {
    pub bytes: [u8; 56],
}

/// The kinds of partial signature messages, by their wire number.
#[derive(Clone, Copy, Debug, PartialEq, Eq, Structural, Hash)]
pub enum PartialSignatureKind {
    PostConsensus,
    RandaoPartialSig,
    SelectionProofPartialSig,
    ContributionProofs,
    ValidatorRegistration,
    VoluntaryExit,
}

/// The wire number of each partial signature kind.
pub open spec fn partial_signature_kind_number(k: PartialSignatureKind) -> u64 {
    match k {
        PartialSignatureKind::PostConsensus => 0,
        PartialSignatureKind::RandaoPartialSig => 1,
        PartialSignatureKind::SelectionProofPartialSig => 2,
        PartialSignatureKind::ContributionProofs => 3,
        PartialSignatureKind::ValidatorRegistration => 4,
        PartialSignatureKind::VoluntaryExit => 5,
    }
}

impl PartialSignatureKind {
    /// The kind with wire number `value`, if there is one.
    pub fn from_number(value: u64) -> (r: Option<PartialSignatureKind>)
        ensures
            r is Some <==> value <= 5,
            r matches Some(k) ==> partial_signature_kind_number(k) == value,
    {
        match value {
            0 => Some(PartialSignatureKind::PostConsensus),
            1 => Some(PartialSignatureKind::RandaoPartialSig),
            2 => Some(PartialSignatureKind::SelectionProofPartialSig),
            3 => Some(PartialSignatureKind::ContributionProofs),
            4 => Some(PartialSignatureKind::ValidatorRegistration),
            5 => Some(PartialSignatureKind::VoluntaryExit),
            _ => None,
        }
    }
}

/// A beacon-chain slot number.
#[derive(Clone, Copy, Debug, PartialEq, Eq, Structural, Hash)]
pub struct Slot(pub u64);

/// A beacon-chain epoch number.
#[derive(Clone, Copy, Debug, PartialEq, Eq, Structural, Hash)]
pub struct Epoch(pub u64);

/// Index of a validator in the beacon state.
#[derive(Clone, Copy, Debug, PartialEq, Eq, Structural, Hash)]
pub struct ValidatorIndex(pub usize);

/// Identifier of an SSV operator.
#[derive(Clone, Copy, Debug, PartialEq, Eq, Structural, Hash)]
pub struct OperatorId(pub u64);

/// Compares two byte arrays element by element.
fn bytes_equal<const N: usize>(a: &[u8; N], b: &[u8; N]) -> (r: bool)
    ensures
        r == (*a == *b),
{
    broadcast use vstd::array::group_array_axioms;
    let mut i: usize = 0;
    while i < N
        invariant
            i <= N,
            a@.len() == N,
            b@.len() == N,
            forall|j: int| 0 <= j < i ==> a@[j] == b@[j],
        decreases N - i,
    {
        if a[i] != b[i] {
            return false;
        }
        i = i + 1;
    }
    proof {
        assert(a@ =~= b@);
        vstd::array::axiom_array_ext_equal(*a, *b);
    }
    true
}

/// Compares two byte sequences element by element.
pub fn same_bytes(a: &[u8], b: &[u8]) -> (r: bool)
    ensures
        r == (a@ == b@),
{
    if a.len() != b.len() {
        return false;
    }
    let mut i: usize = 0;
    while i < a.len()
        invariant
            i <= a@.len(),
            a@.len() == b@.len(),
            forall|j: int| 0 <= j < i ==> a@[j] == b@[j],
        decreases a@.len() - i,
    {
        if a[i] != b[i] {
            return false;
        }
        i = i + 1;
    }
    assert(a@ =~= b@);
    true
}

impl Hash256 {
    /// Whether two hashes hold the same bytes.
    pub fn same_as(&self, other: &Hash256) -> (r: bool)
        ensures
            r == (*self == *other),
    {
        bytes_equal(&self.bytes, &other.bytes)
    }
}

impl PublicKeyBytes {
    /// Whether two keys hold the same bytes.
    pub fn same_as(&self, other: &PublicKeyBytes) -> (r: bool)
        ensures
            r == (*self == *other),
    {
        bytes_equal(&self.bytes, &other.bytes)
    }
}

/// A finality checkpoint: an epoch and a block root.
#[derive(Clone, Copy, Debug, PartialEq, Eq, Hash)]
pub struct Checkpoint {
    pub epoch: Epoch,
    pub root: Hash256,
}

/// Copies a byte vector of length `N` into an array.
pub fn bytes_to_array<const N: usize>(v: &Vec<u8>) -> (r: [u8; N])
    requires
        v@.len() == N,
    ensures
        r@ == v@,
{
    broadcast use vstd::array::group_array_axioms;
    let mut arr: [u8; N] = [0u8; N];
    let mut i: usize = 0;
    while i < N
        invariant
            i <= N,
            v@.len() == N,
            arr@.len() == N,
            forall|j: int| 0 <= j < i ==> arr@[j] == v@[j],
        decreases N - i,
    {
        arr[i] = v[i];
        i = i + 1;
    }
    assert(arr@ =~= v@);
    arr
}

impl Slot {
    /// The epoch containing this slot.
    pub fn epoch(self, slots_per_epoch: u64) -> (e: Epoch)
        requires
            slots_per_epoch > 0,
        ensures
            e.0 == self.0 / slots_per_epoch,
    {
        Epoch(self.0 / slots_per_epoch)
    }
}

} // verus!
