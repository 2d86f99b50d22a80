//! Preparation of fixture objects for encoding: signature padding, operator
//! id substitution, recognition of the object type by its fields, and the
//! decoding of the hex fields of attestations and sync-committee
//! contributions.

use vstd::prelude::*;
use vstd::string::StringSliceAdditionalSpecFns;

use crate::decode::{has_0x, hex_decode, hex_decoded, parse_u64, strip_0x, without_0x};
use crate::deserializers::{decimal_field, string_bytes};
use crate::types::{bytes_to_array, Hash256, MessageId, OperatorId, Slot};

verus! {

/// Why a fixture object could not be prepared.
#[derive(Clone, Copy, Debug, PartialEq, Eq, Structural)]
pub enum FixtureError {
    NullSsvMessage,
    TooManySignatures,
    TooManyOperatorIds,
    FullDataTooLong,
    MissingHexPrefix,
    InvalidHex,
    AggregationBitsTooLong,
    MissingCommitteeBits,
    CommitteeBitsWrongLength,
    InvalidSlot,
    InvalidSubcommitteeIndex,
    SyncAggregationBitsWrongLength,
    TooManyAggregators,
    TooManyCommitteeIndexes,
    TooManyContributors,
    TooManyContributions,
}

/// Bytes of a sync-subcommittee bit vector: 128 bits (a sync committee of
/// 512 in 4 subnets) take exactly 16 bytes, with no spare bits to check.
pub const SYNC_SUBCOMMITTEE_BITS_BYTES: usize = 16;

/// `sig` cut or zero-padded to 256 bytes.
pub open spec fn padded_256(sig: Seq<u8>) -> Seq<u8> {
    Seq::new(256, |i: int| if i < sig.len() { sig[i] } else { 0u8 })
}

/// Pads a variable-length signature to the 256 bytes of an RSA signature;
/// longer input is cut.
pub fn pad_signature_256(sig: &[u8]) -> (r: [u8; 256])
    ensures
        r@ == padded_256(sig@),
{
    broadcast use vstd::array::group_array_axioms;
    let mut arr: [u8; 256] = [0u8; 256];
    let len = if sig.len() < 256 { sig.len() } else { 256 };
    let mut i: usize = 0;
    while i < len
        invariant
            i <= len,
            len <= 256,
            len <= sig@.len(),
            len == sig@.len() || len == 256,
            arr@.len() == 256,
            forall|j: int| 0 <= j < i ==> arr@[j] == sig@[j],
            forall|j: int| len <= j < 256 ==> arr@[j] == 0,
        decreases len - i,
    {
        arr[i] = sig[i];
        i = i + 1;
    }
    assert(arr@ =~= padded_256(sig@));
    arr
}

/// An SSV message: its type, stream id and payload.
pub struct SSVMessage {
    pub msg_type: u64,
    pub msg_id: MessageId,
    pub data: Vec<u8>,
}

/// A signed SSV message as the fixtures write it: signatures of any length,
/// signer ids, an SSV message that may be missing, and optional full data.
pub struct TestSignedSSVMessage {
    pub signatures: Vec<Vec<u8>>,
    pub operator_ids: Vec<OperatorId>,
    pub ssv_message: Option<SSVMessage>,
    pub full_data: Option<Vec<u8>>,
}

/// The fields of a signed SSV message ready for encoding.
pub struct SignedMessageParts {
    pub signatures: Vec<[u8; 256]>,
    pub operator_ids: Vec<OperatorId>,
    pub ssv_message: SSVMessage,
    pub full_data: Vec<u8>,
}

/// The ids `1..=count`.
pub fn substitute_operator_ids(count: usize) -> (r: Vec<OperatorId>)
    ensures
        r@.len() == count,
        forall|i: int| 0 <= i < count ==> (#[trigger] r@[i]).0 == i + 1,
{
    let mut ids: Vec<OperatorId> = Vec::new();
    let mut i: usize = 0;
    while i < count
        invariant
            i <= count,
            ids@.len() == i,
            forall|j: int| 0 <= j < i ==> (#[trigger] ids@[j]).0 == j + 1,
        decreases count - i,
    {
        ids.push(OperatorId(i as u64 + 1));
        i = i + 1;
    }
    ids
}

impl TestSignedSSVMessage {
    /// Prepares the message for encoding: the SSV message must be present,
    /// each signature is padded to 256 bytes, the signer ids become `1..=n`
    /// for `n` signatures (their count and order preserved), missing full data
    /// is empty; then the limits are checked in field order.
    pub fn signed_message_parts(
        self,
        max_signatures: usize,
        max_operator_ids: usize,
        max_full_data: usize,
    ) -> (r: Result<SignedMessageParts, FixtureError>)
        ensures
            ({
                let n = self.signatures@.len();
                let full = match self.full_data {
                    Some(v) => v@,
                    None => Seq::<u8>::empty(),
                };
                if self.ssv_message is None {
                    r == Err::<SignedMessageParts, FixtureError>(FixtureError::NullSsvMessage)
                } else if n > max_signatures {
                    r == Err::<SignedMessageParts, FixtureError>(FixtureError::TooManySignatures)
                } else if n > max_operator_ids {
                    r == Err::<SignedMessageParts, FixtureError>(FixtureError::TooManyOperatorIds)
                } else if full.len() > max_full_data {
                    r == Err::<SignedMessageParts, FixtureError>(FixtureError::FullDataTooLong)
                } else {
                    r matches Ok(p) && p.ssv_message == self.ssv_message->0 && p.full_data@
                        == full && p.signatures@.len() == n && p.operator_ids@.len() == n
                        && (forall|i: int|
                        0 <= i < n ==> (#[trigger] p.signatures@[i])@ == padded_256(
                            self.signatures@[i]@,
                        )) && (forall|i: int|
                        0 <= i < n ==> (#[trigger] p.operator_ids@[i]).0 == i + 1)
                }
            }),
    {
        let ssv_message = match self.ssv_message {
            Some(m) => m,
            None => return Err(FixtureError::NullSsvMessage),
        };
        let sig_count = self.signatures.len();
        let mut padded: Vec<[u8; 256]> = Vec::new();
        let mut i: usize = 0;
        while i < sig_count
            invariant
                i <= sig_count,
                sig_count == self.signatures@.len(),
                padded@.len() == i,
                forall|j: int|
                    0 <= j < i ==> (#[trigger] padded@[j])@ == padded_256(self.signatures@[j]@),
            decreases sig_count - i,
        {
            padded.push(pad_signature_256(self.signatures[i].as_slice()));
            i = i + 1;
        }
        if sig_count > max_signatures {
            return Err(FixtureError::TooManySignatures);
        }
        let operator_ids = substitute_operator_ids(sig_count);
        if sig_count > max_operator_ids {
            return Err(FixtureError::TooManyOperatorIds);
        }
        let full_data = match self.full_data {
            Some(v) => v,
            None => Vec::new(),
        };
        if full_data.len() > max_full_data {
            return Err(FixtureError::FullDataTooLong);
        }
        Ok(SignedMessageParts { signatures: padded, operator_ids, ssv_message, full_data })
    }
}

/// The object types of the structure-size fixtures.
#[derive(Clone, Copy, Debug, PartialEq, Eq, Structural)]
pub enum EncodedObjectKind {
    SsvMessage,
    SignedSsvMessage,
    PartialSignatureMessage,
    PartialSignatureMessages,
    QbftMessage,
    ProposerConsensusData,
    BeaconVote,
    Attestation { electra: bool },
    AggregatorConsensusData,
}

/// Some key of the object is `k`.
pub open spec fn has_key(keys: Seq<String>, k: Seq<char>) -> bool {
    exists|i: int| 0 <= i < keys.len() && (#[trigger] keys[i])@ == k
}

/// The object type told by the keys present, tried in a fixed order.
pub open spec fn object_kind(keys: Seq<String>) -> Option<EncodedObjectKind> {
    if has_key(keys, "MsgType"@) && has_key(keys, "MsgID"@) {
        Some(EncodedObjectKind::SsvMessage)
    } else if has_key(keys, "Signatures"@) && has_key(keys, "OperatorIDs"@) {
        Some(EncodedObjectKind::SignedSsvMessage)
    } else if has_key(keys, "SigningRoot"@) && has_key(keys, "Signer"@) {
        Some(EncodedObjectKind::PartialSignatureMessage)
    } else if has_key(keys, "Type"@) && has_key(keys, "Slot"@) && has_key(keys, "Messages"@) {
        Some(EncodedObjectKind::PartialSignatureMessages)
    } else if has_key(keys, "Round"@) && has_key(keys, "Height"@) {
        Some(EncodedObjectKind::QbftMessage)
    } else if has_key(keys, "Duty"@) && has_key(keys, "DataSSZ"@) {
        Some(EncodedObjectKind::ProposerConsensusData)
    } else if has_key(keys, "BlockRoot"@) && has_key(keys, "Source"@) && has_key(
        keys,
        "Target"@,
    ) {
        Some(EncodedObjectKind::BeaconVote)
    } else if has_key(keys, "aggregation_bits"@) && has_key(keys, "data"@) {
        Some(EncodedObjectKind::Attestation { electra: has_key(keys, "committee_bits"@) })
    } else if has_key(keys, "Version"@) && has_key(keys, "Aggregators"@) {
        Some(EncodedObjectKind::AggregatorConsensusData)
    } else {
        None
    }
}

/// Whether some key equals `key`.
fn contains_key(keys: &Vec<String>, key: &str) -> (r: bool)
    ensures
        r == has_key(keys@, key@),
{
    let wanted = key.to_owned();
    let mut i: usize = 0;
    while i < keys.len()
        invariant
            i <= keys@.len(),
            wanted@ == key@,
            forall|j: int| 0 <= j < i ==> (#[trigger] keys@[j])@ != key@,
        decreases keys@.len() - i,
    {
        if keys[i] == wanted {
            return true;
        }
        i = i + 1;
    }
    false
}

/// Recognizes the object type of a fixture by the keys of its JSON object.
pub fn detect_object_kind(keys: &Vec<String>) -> (r: Option<EncodedObjectKind>)
    ensures
        r == object_kind(keys@),
{
    if contains_key(keys, "MsgType") && contains_key(keys, "MsgID") {
        return Some(EncodedObjectKind::SsvMessage);
    }
    if contains_key(keys, "Signatures") && contains_key(keys, "OperatorIDs") {
        return Some(EncodedObjectKind::SignedSsvMessage);
    }
    if contains_key(keys, "SigningRoot") && contains_key(keys, "Signer") {
        return Some(EncodedObjectKind::PartialSignatureMessage);
    }
    if contains_key(keys, "Type") && contains_key(keys, "Slot") && contains_key(keys, "Messages") {
        return Some(EncodedObjectKind::PartialSignatureMessages);
    }
    if contains_key(keys, "Round") && contains_key(keys, "Height") {
        return Some(EncodedObjectKind::QbftMessage);
    }
    if contains_key(keys, "Duty") && contains_key(keys, "DataSSZ") {
        return Some(EncodedObjectKind::ProposerConsensusData);
    }
    if contains_key(keys, "BlockRoot") && contains_key(keys, "Source") && contains_key(
        keys,
        "Target",
    ) {
        return Some(EncodedObjectKind::BeaconVote);
    }
    if contains_key(keys, "aggregation_bits") && contains_key(keys, "data") {
        let electra = contains_key(keys, "committee_bits");
        return Some(EncodedObjectKind::Attestation { electra });
    }
    if contains_key(keys, "Version") && contains_key(keys, "Aggregators") {
        return Some(EncodedObjectKind::AggregatorConsensusData);
    }
    None
}

/// The bytes of a hex field that must start with `0x`.
pub open spec fn prefixed_hex(b: Seq<u8>) -> Result<Seq<u8>, FixtureError> {
    if !has_0x(b) {
        Err(FixtureError::MissingHexPrefix)
    } else {
        match hex_decoded(without_0x(b)) {
            None => Err(FixtureError::InvalidHex),
            Some(bytes) => Ok(bytes),
        }
    }
}

/// Decodes hex that must start with `0x`.
pub fn decode_0x_hex(s: &str) -> (r: Result<Vec<u8>, FixtureError>)
    ensures
        match prefixed_hex(s.spec_bytes()) {
            Ok(b) => r matches Ok(v) && v@ == b,
            Err(e) => r == Err::<Vec<u8>, FixtureError>(e),
        },
{
    let b = s.as_bytes();
    if !(b.len() >= 2 && b[0] == 48 && b[1] == 120) {
        return Err(FixtureError::MissingHexPrefix);
    }
    match hex_decode(strip_0x(b)) {
        Ok(v) => Ok(v),
        Err(_) => Err(FixtureError::InvalidHex),
    }
}

/// Decodes an attestation's aggregation bits: `0x` hex of at most `max_len` bytes.
pub fn parse_aggregation_bits(s: &str, max_len: usize) -> (r: Result<Vec<u8>, FixtureError>)
    ensures
        match prefixed_hex(s.spec_bytes()) {
            Ok(b) => if b.len() <= max_len {
                r matches Ok(v) && v@ == b
            } else {
                r == Err::<Vec<u8>, FixtureError>(FixtureError::AggregationBitsTooLong)
            },
            Err(e) => r == Err::<Vec<u8>, FixtureError>(e),
        },
{
    let bytes = decode_0x_hex(s)?;
    if bytes.len() > max_len {
        return Err(FixtureError::AggregationBitsTooLong);
    }
    Ok(bytes)
}

/// Decodes the committee bits an Electra attestation must have: `0x` hex of
/// exactly 8 bytes.
pub fn parse_committee_bits(committee_bits: Option<String>) -> (r: Result<[u8; 8], FixtureError>)
    ensures
        match committee_bits {
            None => r == Err::<[u8; 8], FixtureError>(FixtureError::MissingCommitteeBits),
            Some(s) => match prefixed_hex(string_bytes(s)) {
                Ok(b) => if b.len() == 8 {
                    r matches Ok(a) && a@ == b
                } else {
                    r == Err::<[u8; 8], FixtureError>(FixtureError::CommitteeBitsWrongLength)
                },
                Err(e) => r == Err::<[u8; 8], FixtureError>(e),
            },
        },
{
    let s = match committee_bits {
        Some(s) => s,
        None => return Err(FixtureError::MissingCommitteeBits),
    };
    let bytes = decode_0x_hex(s.as_str())?;
    if bytes.len() != 8 {
        return Err(FixtureError::CommitteeBitsWrongLength);
    }
    Ok(bytes_to_array(&bytes))
}

/// The decoded fields of a sync-committee contribution.
pub struct ContributionFields {
    pub slot: Slot,
    pub beacon_block_root: Hash256,
    pub subcommittee_index: u64,
    pub aggregation_bits: Vec<u8>,
}

/// The mathematical counterpart of [`ContributionFields`].
pub struct ContributionModel {
    pub slot: u64,
    pub beacon_block_root: Seq<u8>,
    pub subcommittee_index: u64,
    pub aggregation_bits: Seq<u8>,
}

/// The model of decoded contribution fields.
pub open spec fn contribution_model(c: ContributionFields) -> ContributionModel {
    ContributionModel {
        slot: c.slot.0,
        beacon_block_root: c.beacon_block_root.bytes@,
        subcommittee_index: c.subcommittee_index,
        aggregation_bits: c.aggregation_bits@,
    }
}

/// The outcome of decoding a contribution's fields (their bytes), the
/// first failing field deciding the error.
#[verifier::opaque]
pub open spec fn contribution_outcome(
    slot: Seq<u8>,
    beacon_block_root: Seq<u8>,
    subcommittee_index: Seq<u8>,
    aggregation_bits: Seq<u8>,
) -> Result<ContributionModel, FixtureError> {
    match (
        decimal_field(slot, u64::MAX as nat),
        prefixed_hex(beacon_block_root),
        decimal_field(subcommittee_index, u64::MAX as nat),
        prefixed_hex(aggregation_bits),
    ) {
        (None, _, _, _) => Err(FixtureError::InvalidSlot),
        (Some(_), Err(e), _, _) => Err(e),
        (Some(_), Ok(_), None, _) => Err(FixtureError::InvalidSubcommitteeIndex),
        (Some(_), Ok(_), Some(_), Err(e)) => Err(e),
        (Some(s), Ok(root), Some(idx), Ok(bits)) => if bits.len() == SYNC_SUBCOMMITTEE_BITS_BYTES {
            Ok(
                ContributionModel {
                    slot: s as u64,
                    beacon_block_root: root,
                    subcommittee_index: idx as u64,
                    aggregation_bits: bits,
                },
            )
        } else {
            Err(FixtureError::SyncAggregationBitsWrongLength)
        },
    }
}

/// A decoded root that is reached (the slot parsed) has the 32 bytes of a
/// hash; the protocol has no error for another length.
pub open spec fn root_fits(slot: Seq<u8>, beacon_block_root: Seq<u8>) -> bool {
    decimal_field(slot, u64::MAX as nat) is Some ==> (prefixed_hex(beacon_block_root) matches Ok(
        b,
    ) ==> b.len() == 32)
}

/// Decodes the fields of a sync-committee contribution, in field order: a
/// decimal slot, a `0x` hex root of 32 bytes, a decimal subcommittee index
/// and `0x` hex aggregation bits, which must be a sync-subcommittee bit
/// vector of exactly [`SYNC_SUBCOMMITTEE_BITS_BYTES`] bytes.
pub fn parse_contribution_fields(
    slot: &str,
    beacon_block_root: &str,
    subcommittee_index: &str,
    aggregation_bits: &str,
) -> (r: Result<ContributionFields, FixtureError>)
    requires
        root_fits(slot.spec_bytes(), beacon_block_root.spec_bytes()),
    ensures
        match contribution_outcome(
            slot.spec_bytes(),
            beacon_block_root.spec_bytes(),
            subcommittee_index.spec_bytes(),
            aggregation_bits.spec_bytes(),
        ) {
            Ok(m) => r matches Ok(c) && contribution_model(c) == m,
            Err(e) => r == Err::<ContributionFields, FixtureError>(e),
        },
{
    reveal(contribution_outcome);
    let slot = match parse_u64(slot) {
        Ok(v) => Slot(v),
        Err(_) => return Err(FixtureError::InvalidSlot),
    };
    let root_bytes = decode_0x_hex(beacon_block_root)?;
    let beacon_block_root = Hash256 { bytes: bytes_to_array(&root_bytes) };
    let subcommittee_index = match parse_u64(subcommittee_index) {
        Ok(v) => v,
        Err(_) => return Err(FixtureError::InvalidSubcommitteeIndex),
    };
    let aggregation_bits = decode_0x_hex(aggregation_bits)?;
    if aggregation_bits.len() != SYNC_SUBCOMMITTEE_BITS_BYTES {
        return Err(FixtureError::SyncAggregationBitsWrongLength);
    }
    Ok(ContributionFields { slot, beacon_block_root, subcommittee_index, aggregation_bits })
}

/// A sync-committee contribution as the fixtures write it: four strings.
pub struct RawContribution {
    pub slot: String,
    pub beacon_block_root: String,
    pub subcommittee_index: String,
    pub aggregation_bits: String,
}

/// The outcome of decoding one raw contribution.
pub open spec fn raw_contribution_outcome(c: RawContribution) -> Result<ContributionModel, FixtureError> {
    contribution_outcome(
        string_bytes(c.slot),
        string_bytes(c.beacon_block_root),
        string_bytes(c.subcommittee_index),
        string_bytes(c.aggregation_bits),
    )
}

/// Decodes contributions in order, stopping at the first that fails.
pub open spec fn contributions_outcome(cs: Seq<RawContribution>) -> Result<
    Seq<ContributionModel>,
    FixtureError,
>
    decreases cs.len(),
{
    if cs.len() == 0 {
        Ok(Seq::empty())
    } else {
        match contributions_outcome(cs.drop_last()) {
            Err(e) => Err(e),
            Ok(prev) => match raw_contribution_outcome(cs.last()) {
                Err(e) => Err(e),
                Ok(c) => Ok(prev.push(c)),
            },
        }
    }
}

/// Every root that decoding reaches has 32 bytes.
pub open spec fn roots_fit(cs: Seq<RawContribution>) -> bool {
    forall|i: int|
        0 <= i < cs.len() && contributions_outcome(cs.take(i)) is Ok ==> root_fits(
            string_bytes(#[trigger] cs[i].slot),
            string_bytes(cs[i].beacon_block_root),
        )
}

/// Once decoding a prefix fails, decoding the whole list fails the same way.
proof fn lemma_contributions_error_persists(cs: Seq<RawContribution>, k: nat)
    requires
        k <= cs.len(),
        contributions_outcome(cs.take(k as int)) is Err,
    ensures
        contributions_outcome(cs) == contributions_outcome(cs.take(k as int)),
    decreases cs.len() - k,
{
    if k == cs.len() {
        assert(cs.take(k as int) =~= cs);
    } else {
        assert(cs.take((k + 1) as int).drop_last() =~= cs.take(k as int));
        lemma_contributions_error_persists(cs, k + 1);
    }
}

/// Decodes the contributions in order; the first failure is the error.
pub fn parse_contributions(raw: &Vec<RawContribution>) -> (r: Result<Vec<ContributionFields>, FixtureError>)
    requires
        roots_fit(raw@),
    ensures
        match contributions_outcome(raw@) {
            Ok(cs) => r matches Ok(v) && v@.len() == cs.len() && forall|i: int|
                0 <= i < cs.len() ==> contribution_model(#[trigger] v@[i]) == cs[i],
            Err(e) => r == Err::<Vec<ContributionFields>, FixtureError>(e),
        },
{
    let ghost all = raw@;
    let mut out: Vec<ContributionFields> = Vec::new();
    let mut i: usize = 0;
    while i < raw.len()
        invariant
            i <= all.len(),
            all == raw@,
            roots_fit(all),
            contributions_outcome(all.take(i as int)) matches Ok(cs) && out@.len() == cs.len()
                && forall|j: int| 0 <= j < cs.len() ==> contribution_model(#[trigger] out@[j])
                == cs[j],
        decreases all.len() - i,
    {
        assert(all.take(i + 1).drop_last() =~= all.take(i as int));
        assert(all.take(i + 1).last() == all[i as int]);
        let c = &raw[i];
        assert(root_fits(string_bytes(all[i as int].slot), string_bytes(all[i as int].beacon_block_root)));
        match parse_contribution_fields(
            c.slot.as_str(),
            c.beacon_block_root.as_str(),
            c.subcommittee_index.as_str(),
            c.aggregation_bits.as_str(),
        ) {
            Ok(f) => {
                out.push(f);
            },
            Err(e) => {
                proof { lemma_contributions_error_persists(all, (i + 1) as nat); }
                return Err(e);
            },
        }
        i = i + 1;
    }
    assert(all.take(all.len() as int) =~= all);
    Ok(out)
}

/// The list limits of aggregator-committee consensus data.
#[derive(Clone, Copy, Debug)]
pub struct AggregatorListLimits {
    pub max_aggregators: usize,
    pub max_committee_indexes: usize,
    pub max_contributors: usize,
    pub max_contributions: usize,
}

/// The lists of aggregator-committee consensus data, within their limits.
pub struct AggregatorConsensusLists<A> {
    pub aggregators: Vec<A>,
    pub aggregator_committee_indexes: Vec<u64>,
    pub contributors: Vec<A>,
    pub sync_committee_contributions: Vec<ContributionFields>,
}

/// Builds the lists of aggregator-committee consensus data: the
/// contributions are decoded first (the first failure is the error), then
/// the aggregators, committee indexes, contributors and contributions are
/// held to their limits, in that order.
pub fn aggregator_consensus_lists<A>(
    aggregators: Vec<A>,
    aggregator_committee_indexes: Vec<u64>,
    contributors: Vec<A>,
    contributions: &Vec<RawContribution>,
    limits: AggregatorListLimits,
) -> (r: Result<AggregatorConsensusLists<A>, FixtureError>)
    requires
        roots_fit(contributions@),
    ensures
        match contributions_outcome(contributions@) {
            Err(e) => r == Err::<AggregatorConsensusLists<A>, FixtureError>(e),
            Ok(cs) => if aggregators@.len() > limits.max_aggregators {
                r == Err::<AggregatorConsensusLists<A>, FixtureError>(
                    FixtureError::TooManyAggregators,
                )
            } else if aggregator_committee_indexes@.len() > limits.max_committee_indexes {
                r == Err::<AggregatorConsensusLists<A>, FixtureError>(
                    FixtureError::TooManyCommitteeIndexes,
                )
            } else if contributors@.len() > limits.max_contributors {
                r == Err::<AggregatorConsensusLists<A>, FixtureError>(
                    FixtureError::TooManyContributors,
                )
            } else if cs.len() > limits.max_contributions {
                r == Err::<AggregatorConsensusLists<A>, FixtureError>(
                    FixtureError::TooManyContributions,
                )
            } else {
                r matches Ok(l) && l.aggregators@ == aggregators@
                    && l.aggregator_committee_indexes@ == aggregator_committee_indexes@
                    && l.contributors@ == contributors@ && l.sync_committee_contributions@.len()
                    == cs.len() && forall|i: int|
                    0 <= i < cs.len() ==> contribution_model(
                        #[trigger] l.sync_committee_contributions@[i],
                    ) == cs[i]
            },
        },
{
    let parsed = parse_contributions(contributions)?;
    if aggregators.len() > limits.max_aggregators {
        return Err(FixtureError::TooManyAggregators);
    }
    if aggregator_committee_indexes.len() > limits.max_committee_indexes {
        return Err(FixtureError::TooManyCommitteeIndexes);
    }
    if contributors.len() > limits.max_contributors {
        return Err(FixtureError::TooManyContributors);
    }
    if parsed.len() > limits.max_contributions {
        return Err(FixtureError::TooManyContributions);
    }
    Ok(
        AggregatorConsensusLists {
            aggregators,
            aggregator_committee_indexes,
            contributors,
            sync_committee_contributions: parsed,
        },
    )
}

/// Each detected object type has its defining keys: an SSV message has
/// `MsgType` and `MsgID`, a signed SSV message `Signatures` and
/// `OperatorIDs`, a partial signature message `SigningRoot` and `Signer`,
/// a batch of them `Type`, `Slot` and `Messages`, a QBFT message `Round`
/// and `Height`, proposer consensus data `Duty` and `DataSSZ`, a beacon
/// vote `BlockRoot`, `Source` and `Target`, an attestation
/// `aggregation_bits` and `data` (Electra exactly when it also has
/// `committee_bits`), and aggregator consensus data `Version` and
/// `Aggregators`.
pub proof fn lemma_detected_kind_has_its_keys(keys: Seq<String>)
    ensures
        object_kind(keys) == Some(EncodedObjectKind::SsvMessage) ==> has_key(keys, "MsgType"@)
            && has_key(keys, "MsgID"@),
        object_kind(keys) == Some(EncodedObjectKind::SignedSsvMessage) ==> has_key(
            keys,
            "Signatures"@,
        ) && has_key(keys, "OperatorIDs"@),
        object_kind(keys) == Some(EncodedObjectKind::PartialSignatureMessage) ==> has_key(
            keys,
            "SigningRoot"@,
        ) && has_key(keys, "Signer"@),
        object_kind(keys) == Some(EncodedObjectKind::PartialSignatureMessages) ==> has_key(
            keys,
            "Type"@,
        ) && has_key(keys, "Slot"@) && has_key(keys, "Messages"@),
        object_kind(keys) == Some(EncodedObjectKind::QbftMessage) ==> has_key(keys, "Round"@)
            && has_key(keys, "Height"@),
        object_kind(keys) == Some(EncodedObjectKind::ProposerConsensusData) ==> has_key(
            keys,
            "Duty"@,
        ) && has_key(keys, "DataSSZ"@),
        object_kind(keys) == Some(EncodedObjectKind::BeaconVote) ==> has_key(keys, "BlockRoot"@)
            && has_key(keys, "Source"@) && has_key(keys, "Target"@),
        forall|electra: bool|
            object_kind(keys) == Some(EncodedObjectKind::Attestation { electra }) ==> has_key(
                keys,
                "aggregation_bits"@,
            ) && has_key(keys, "data"@) && (electra <==> has_key(keys, "committee_bits"@)),
        object_kind(keys) == Some(EncodedObjectKind::AggregatorConsensusData) ==> has_key(
            keys,
            "Version"@,
        ) && has_key(keys, "Aggregators"@),
{
}

/// The rules are tried in a fixed order and the first whose keys are all
/// present decides: keys with `Round` and `Height`, without `MsgID` and
/// without the full key set of the signed-message and partial-signature
/// rules, are a QBFT message whether or not `MsgType` is there; an object
/// with `MsgType` and `MsgID` is always an SSV message; and an object is
/// recognized at all exactly when some rule's keys are all present.
pub proof fn lemma_object_kind_precedence(keys: Seq<String>)
    ensures
        has_key(keys, "MsgType"@) && has_key(keys, "MsgID"@) ==> object_kind(keys) == Some(
            EncodedObjectKind::SsvMessage,
        ),
        has_key(keys, "Round"@) && has_key(keys, "Height"@) && !has_key(keys, "MsgID"@) && !(
        has_key(keys, "Signatures"@) && has_key(keys, "OperatorIDs"@)) && !(has_key(
            keys,
            "SigningRoot"@,
        ) && has_key(keys, "Signer"@)) && !(has_key(keys, "Type"@) && has_key(keys, "Slot"@)
            && has_key(keys, "Messages"@)) ==> object_kind(keys) == Some(
            EncodedObjectKind::QbftMessage,
        ),
        object_kind(keys) is None <==> !(has_key(keys, "MsgType"@) && has_key(keys, "MsgID"@))
            && !(has_key(keys, "Signatures"@) && has_key(keys, "OperatorIDs"@)) && !(has_key(
            keys,
            "SigningRoot"@,
        ) && has_key(keys, "Signer"@)) && !(has_key(keys, "Type"@) && has_key(keys, "Slot"@)
            && has_key(keys, "Messages"@)) && !(has_key(keys, "Round"@) && has_key(
            keys,
            "Height"@,
        )) && !(has_key(keys, "Duty"@) && has_key(keys, "DataSSZ"@)) && !(has_key(
            keys,
            "BlockRoot"@,
        ) && has_key(keys, "Source"@) && has_key(keys, "Target"@)) && !(has_key(
            keys,
            "aggregation_bits"@,
        ) && has_key(keys, "data"@)) && !(has_key(keys, "Version"@) && has_key(
            keys,
            "Aggregators"@,
        )),
{
}

/// The padded signature has 256 bytes: the signature's own bytes first (as
/// many as fit), then zeros.
pub proof fn lemma_padded_256(sig: Seq<u8>)
    ensures
        padded_256(sig).len() == 256,
        forall|i: int| 0 <= i < 256 && i < sig.len() ==> #[trigger] padded_256(sig)[i] == sig[i],
        forall|i: int| sig.len() <= i < 256 ==> #[trigger] padded_256(sig)[i] == 0,
{
}

/// A prefixed hex field decodes only if it starts with `0x`; then it gives
/// exactly the hex decoding of the rest.
pub proof fn lemma_prefixed_hex(b: Seq<u8>)
    ensures
        !has_0x(b) ==> prefixed_hex(b) == Err::<Seq<u8>, FixtureError>(
            FixtureError::MissingHexPrefix,
        ),
        has_0x(b) ==> match hex_decoded(b.subrange(2, b.len() as int)) {
            Some(bytes) => prefixed_hex(b) == Ok::<Seq<u8>, FixtureError>(bytes),
            None => prefixed_hex(b) == Err::<Seq<u8>, FixtureError>(FixtureError::InvalidHex),
        },
{
}

} // verus!
