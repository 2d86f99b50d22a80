//! The checks that the consensus fixtures run. Decoding and hashing of beacon
//! blocks are outside work: their results come in as arguments, and these
//! functions decide what the fixture reports.

use vstd::prelude::*;

use crate::decode::{base64_encode, base64_standard_encoded, hex_decode, hex_decoded};
use crate::deserializers::string_bytes;
use crate::error_codes;
use crate::types::{bytes_to_array, same_bytes, Hash256, PublicKeyBytes};

verus! {

/// Why decoding SSZ bytes failed, as far as the checks read it.
pub enum DecodeFailure {
    /// The bytes were invalid for an application-level reason, with its message.
    BytesInvalid(String),
    /// No variant of an enum matched the bytes.
    NoMatchingVariant,
    /// Any other failure.
    Other,
}

/// Why a fixture check failed.
#[derive(Clone, Copy, Debug, PartialEq, Eq, Structural)]
pub enum SpecTestFailure {
    DutyRoleMismatch { beacon_role: u64, got_role: i32, expected_role: i32 },
    EncodedLengthMismatch { got_length: usize, expected_length: usize },
    ErrorCodeMismatch { expected_code: i64, got_code: i64 },
    UnexpectedConsensusDataDecodeFailure,
    ExtractionSucceededUnexpectedly { expected_code: i64 },
    BlindedMismatch { got_blinded: bool, expected_blinded: bool },
    BlockRootMismatch,
    BlockSszMismatch { got_len: usize, expected_len: usize },
    MissingExpectedBlock,
    ConsensusDataRootMismatch,
    ConsensusDataRoundtripMismatch { got_len: usize, expected_len: usize },
    ConsensusDataDecodeFailed,
    WithdrawalsRootUnavailable,
    BothBlockDecodersFailed,
    WithdrawalsRootMismatch,
    InvalidValidatorKey,
    InvalidWithdrawalCredentials,
    InvalidForkVersion,
    ForkVersionLength,
    InvalidExpectedSigningRoot,
    SigningRootMismatch,
    PublicKeyMismatch,
}

/// `b` contains the ASCII text `BLST`.
pub open spec fn contains_blst(b: Seq<u8>) -> bool {
    exists|i: int|
        0 <= i && i + 4 <= b.len() && #[trigger] b[i] == 66 && b[i + 1] == 76 && b[i + 2] == 83
            && b[i + 3] == 84
}

/// The failure comes from validating a BLS point during decoding.
pub open spec fn is_bls_failure(e: DecodeFailure) -> bool {
    match e {
        DecodeFailure::BytesInvalid(msg) => contains_blst(string_bytes(msg)),
        _ => false,
    }
}

/// Whether a decode failure was caused by BLS point validation: an
/// application-level failure whose message mentions `BLST`.
pub fn is_bls_validation_error(err: &DecodeFailure) -> (r: bool)
    ensures
        r == is_bls_failure(*err),
{
    match err {
        DecodeFailure::BytesInvalid(msg) => {
            let b = msg.as_str().as_bytes();
            let n = b.len();
            if n < 4 {
                return false;
            }
            let mut i: usize = 0;
            while i <= n - 4
                invariant
                    4 <= n,
                    i <= n - 3,
                    *err == DecodeFailure::BytesInvalid(*msg),
                    n == b@.len(),
                    b@ == string_bytes(*msg),
                    forall|j: int|
                        0 <= j < i && j + 4 <= n ==> !(#[trigger] b@[j] == 66 && b@[j + 1] == 76
                            && b@[j + 2] == 83 && b@[j + 3] == 84),
                decreases n - i,
            {
                if b[i] == 66 && b[i + 1] == 76 && b[i + 2] == 83 && b[i + 3] == 84 {
                    assert(b@[i as int] == 66);
                    return true;
                }
                i = i + 1;
            }
            false
        },
        _ => false,
    }
}

/// A beacon role, by its protocol number (see the `BEACON_ROLE_*` numbers).
#[derive(Clone, Copy, Debug, PartialEq, Eq, Structural)]
pub struct BeaconRole(pub u64);

pub const BEACON_ROLE_ATTESTER: u64 = 0;
pub const BEACON_ROLE_AGGREGATOR: u64 = 1;
pub const BEACON_ROLE_PROPOSER: u64 = 2;
pub const BEACON_ROLE_SYNC_COMMITTEE: u64 = 3;
pub const BEACON_ROLE_SYNC_COMMITTEE_CONTRIBUTION: u64 = 4;
pub const BEACON_ROLE_VALIDATOR_REGISTRATION: u64 = 5;
pub const BEACON_ROLE_VOLUNTARY_EXIT: u64 = 6;

/// The duty role number each beacon role runs under; -1 for unknown roles.
pub open spec fn duty_role_of(beacon_role: u64) -> i32 {
    if beacon_role == 0 || beacon_role == 3 {
        0
    } else if beacon_role == 2 {
        2
    } else if beacon_role == 1 || beacon_role == 4 {
        6
    } else if beacon_role == 5 {
        4
    } else if beacon_role == 6 {
        5
    } else {
        -1i32
    }
}

/// Maps a beacon role to the number of the duty role that runs it.
pub fn map_beacon_role_to_duty_role(beacon_role: BeaconRole) -> (r: i32)
    ensures
        r == duty_role_of(beacon_role.0),
{
    if beacon_role.0 == BEACON_ROLE_ATTESTER || beacon_role.0 == BEACON_ROLE_SYNC_COMMITTEE {
        0
    } else if beacon_role.0 == BEACON_ROLE_PROPOSER {
        2
    } else if beacon_role.0 == BEACON_ROLE_AGGREGATOR || beacon_role.0
        == BEACON_ROLE_SYNC_COMMITTEE_CONTRIBUTION {
        6
    } else if beacon_role.0 == BEACON_ROLE_VALIDATOR_REGISTRATION {
        4
    } else if beacon_role.0 == BEACON_ROLE_VOLUNTARY_EXIT {
        5
    } else {
        -1
    }
}

/// A fixture that maps a beacon role to its duty role.
pub struct DutySpecTest {
    pub name: String,
    pub beacon_role: u64,
    pub expected_duty_role: i32,
}

impl DutySpecTest {
    /// Passes when the beacon role maps to the expected duty role.
    pub fn run(&self) -> (r: Result<(), SpecTestFailure>)
        ensures
            duty_role_of(self.beacon_role) == self.expected_duty_role ==> r is Ok,
            duty_role_of(self.beacon_role) != self.expected_duty_role ==> r == Err::<
                (),
                SpecTestFailure,
            >(
                SpecTestFailure::DutyRoleMismatch {
                    beacon_role: self.beacon_role,
                    got_role: duty_role_of(self.beacon_role),
                    expected_role: self.expected_duty_role,
                },
            ),
    {
        let result = map_beacon_role_to_duty_role(BeaconRole(self.beacon_role));
        if result != self.expected_duty_role {
            return Err(
                SpecTestFailure::DutyRoleMismatch {
                    beacon_role: self.beacon_role,
                    got_role: result,
                    expected_role: self.expected_duty_role,
                },
            );
        }
        Ok(())
    }
}

/// A fixture that checks the encoded length of an object.
pub struct StructureSizeTest {
    pub expected_encoded_length: usize,
    pub encoded_bytes: Vec<u8>,
}

impl StructureSizeTest {
    /// Passes when the encoding has the expected length.
    pub fn run(&self) -> (r: Result<(), SpecTestFailure>)
        ensures
            self.encoded_bytes@.len() == self.expected_encoded_length ==> r is Ok,
            self.encoded_bytes@.len() != self.expected_encoded_length ==> r == Err::<
                (),
                SpecTestFailure,
            >(
                SpecTestFailure::EncodedLengthMismatch {
                    got_length: self.encoded_bytes@.len() as usize,
                    expected_length: self.expected_encoded_length,
                },
            ),
    {
        if self.encoded_bytes.len() != self.expected_encoded_length {
            return Err(
                SpecTestFailure::EncodedLengthMismatch {
                    got_length: self.encoded_bytes.len(),
                    expected_length: self.expected_encoded_length,
                },
            );
        }
        Ok(())
    }
}

/// Compares an obtained error code (0 for success) with the expected one.
pub open spec fn code_check(expected: i64, got: i64) -> Result<(), SpecTestFailure> {
    if got == expected {
        Ok(())
    } else {
        Err(SpecTestFailure::ErrorCodeMismatch { expected_code: expected, got_code: got })
    }
}

/// The code of a validation result: 0 on success.
pub open spec fn code_of(v: Result<(), i64>) -> i64 {
    match v {
        Ok(()) => error_codes::NO_ERROR,
        Err(c) => c,
    }
}

/// The duty of a proposer consensus fixture.
pub struct TestDuty {
    pub duty_type: u64,
}

/// The consensus data of a proposer consensus fixture.
pub struct TestConsensusData {
    pub duty: TestDuty,
    pub version: String,
    pub data_ssz: Vec<u8>,
}

/// The results of decoding the fixture's block bytes for its fork, first as a
/// blinded block, then as a full block.
pub struct BlockDecodes {
    pub blinded: Result<(), DecodeFailure>,
    pub regular: Result<(), DecodeFailure>,
}

/// The validation result of a proposer consensus fixture, given whether its
/// version names a fork and, if so, the block decodes.
pub open spec fn proposer_validation(duty_type: u64, decodes: Option<BlockDecodes>) -> Result<
    (),
    i64,
> {
    if duty_type != 2 {
        Err(error_codes::UNKNOWN_DUTY_ROLE_DATA)
    } else {
        match decodes {
            None => Err(error_codes::UNKNOWN_BLOCK_VERSION),
            Some(d) => match (d.blinded, d.regular) {
                (Ok(()), _) => Ok(()),
                (_, Ok(())) => Ok(()),
                (Err(be), Err(re)) => if is_bls_failure(be) || is_bls_failure(re) {
                    Ok(())
                } else {
                    Err(error_codes::UNMARSHAL_SSZ)
                },
            },
        }
    }
}

/// A fixture that validates proposer consensus data.
pub struct ProposerConsensusDataTest {
    pub consensus_data: TestConsensusData,
    pub expected_error_code: i64,
}

impl ProposerConsensusDataTest {
    /// Validates in the protocol's order: the duty must be a proposer duty
    /// (else 10), the version must name a fork (else 11), and the block must
    /// decode as blinded or full (else 1); a failure due only to BLS point
    /// validation counts as decoded.
    pub fn validate(&self, decodes: Option<BlockDecodes>) -> (r: Result<(), i64>)
        ensures
            r == proposer_validation(self.consensus_data.duty.duty_type, decodes),
    {
        if self.consensus_data.duty.duty_type != BEACON_ROLE_PROPOSER {
            return Err(error_codes::UNKNOWN_DUTY_ROLE_DATA);
        }
        let d = match decodes {
            None => return Err(error_codes::UNKNOWN_BLOCK_VERSION),
            Some(d) => d,
        };
        if d.blinded.is_ok() {
            return Ok(());
        }
        if d.regular.is_ok() {
            return Ok(());
        }
        let blinded_bls = match &d.blinded {
            Err(e) => is_bls_validation_error(e),
            Ok(()) => false,
        };
        let regular_bls = match &d.regular {
            Err(e) => is_bls_validation_error(e),
            Ok(()) => false,
        };
        if blinded_bls || regular_bls {
            return Ok(());
        }
        Err(error_codes::UNMARSHAL_SSZ)
    }

    /// Passes when validation yields the expected error code.
    pub fn run(&self, decodes: Option<BlockDecodes>) -> (r: Result<(), SpecTestFailure>)
        ensures
            r == code_check(
                self.expected_error_code,
                code_of(proposer_validation(self.consensus_data.duty.duty_type, decodes)),
            ),
    {
        let actual_code = match self.validate(decodes) {
            Ok(()) => error_codes::NO_ERROR,
            Err(code) => code,
        };
        if actual_code != self.expected_error_code {
            return Err(
                SpecTestFailure::ErrorCodeMismatch {
                    expected_code: self.expected_error_code,
                    got_code: actual_code,
                },
            );
        }
        Ok(())
    }
}

/// Why aggregator-committee consensus data failed validation.
#[derive(Clone, Copy, Debug, PartialEq, Eq, Structural)]
pub enum AggregatorCommitteeValidationError {
    CommitteeIndexCountMismatch,
    AggregatorCommitteeIndexMissing,
    AggregatorCommitteeUnusedIndex,
    DuplicateCommitteeIndex,
    ContributorSubcommitteeMissing,
    DuplicateSyncSubcommittee,
    SyncSubcommitteeUnusedIndex,
    NoValidatorsAssigned,
    AttestationDecodeError,
}

/// The protocol error code of each validation error.
pub open spec fn aggregator_committee_code(e: AggregatorCommitteeValidationError) -> i64 {
    match e {
        AggregatorCommitteeValidationError::CommitteeIndexCountMismatch => 71,
        AggregatorCommitteeValidationError::AggregatorCommitteeIndexMissing => 72,
        AggregatorCommitteeValidationError::AggregatorCommitteeUnusedIndex => 73,
        AggregatorCommitteeValidationError::DuplicateCommitteeIndex => 74,
        AggregatorCommitteeValidationError::ContributorSubcommitteeMissing => 75,
        AggregatorCommitteeValidationError::DuplicateSyncSubcommittee => 76,
        AggregatorCommitteeValidationError::SyncSubcommitteeUnusedIndex => 77,
        AggregatorCommitteeValidationError::NoValidatorsAssigned => 78,
        AggregatorCommitteeValidationError::AttestationDecodeError => 84,
    }
}

/// A fixture that validates aggregator-committee consensus data of type `D`.
pub struct AggregatorCommitteeConsensusDataTest<D> {
    pub agg_comm_consensus_data: D,
    pub expected_error_code: i64,
}

impl<D> AggregatorCommitteeConsensusDataTest<D> {
    /// Maps the result of validating the data to a protocol error code.
    pub fn validate(&self, validation: Result<(), AggregatorCommitteeValidationError>) -> (r:
        Result<(), i64>)
        ensures
            match validation {
                Ok(()) => r is Ok,
                Err(e) => r == Err::<(), i64>(aggregator_committee_code(e)),
            },
    {
        match validation {
            Ok(()) => Ok(()),
            Err(e) => Err(
                match e {
                    AggregatorCommitteeValidationError::CommitteeIndexCountMismatch => {
                        error_codes::AGG_COMM_IDX_CNT_MISMATCH
                    },
                    AggregatorCommitteeValidationError::AggregatorCommitteeIndexMissing => {
                        error_codes::AGG_COMM_IDX_MISMATCH
                    },
                    AggregatorCommitteeValidationError::AggregatorCommitteeUnusedIndex => {
                        error_codes::AGG_COMM_UNUSED_IDX
                    },
                    AggregatorCommitteeValidationError::DuplicateCommitteeIndex => {
                        error_codes::AGG_COMM_DUPLICATED_IDX
                    },
                    AggregatorCommitteeValidationError::ContributorSubcommitteeMissing => {
                        error_codes::AGG_COMM_SUBNET_MISSING
                    },
                    AggregatorCommitteeValidationError::DuplicateSyncSubcommittee => {
                        error_codes::AGG_COMM_SUBNET_DUPLICATE
                    },
                    AggregatorCommitteeValidationError::SyncSubcommitteeUnusedIndex => {
                        error_codes::AGG_COMM_UNUSED_SUBNET
                    },
                    AggregatorCommitteeValidationError::NoValidatorsAssigned => {
                        error_codes::AGG_COMM_NO_VALIDATOR
                    },
                    AggregatorCommitteeValidationError::AttestationDecodeError => {
                        error_codes::AGG_COMM_ATTESTATION_DECODE
                    },
                },
            ),
        }
    }

    /// Passes when the validation result has the expected error code.
    pub fn run(&self, validation: Result<(), AggregatorCommitteeValidationError>) -> (r: Result<
        (),
        SpecTestFailure,
    >)
        ensures
            r == code_check(
                self.expected_error_code,
                match validation {
                    Ok(()) => 0,
                    Err(e) => aggregator_committee_code(e),
                },
            ),
    {
        let actual_code = match self.validate(validation) {
            Ok(()) => error_codes::NO_ERROR,
            Err(code) => code,
        };
        if actual_code != self.expected_error_code {
            return Err(
                SpecTestFailure::ErrorCodeMismatch {
                    expected_code: self.expected_error_code,
                    got_code: actual_code,
                },
            );
        }
        Ok(())
    }
}

/// A decoded beacon block: its tree-hash root and its SSZ re-encoding.
pub struct EncodedBlock {
    pub root: Hash256,
    pub ssz: Vec<u8>,
}

/// The block found in proposer consensus data.
pub struct BlockData {
    pub is_blinded: bool,
    pub block_root: Hash256,
    pub block_ssz: Vec<u8>,
}

/// What could be learned about the block of proposer consensus data.
pub enum BlockExtractionResult {
    /// The block decoded.
    Decoded(BlockData),
    /// Decoding failed only on BLS point validation; only whether the block
    /// is blinded is known.
    BlsValidationOnly { is_blinded: bool },
}

/// The mathematical counterpart of [`BlockExtractionResult`].
pub enum ExtractionModel {
    Decoded { is_blinded: bool, root: Hash256, ssz: Seq<u8> },
    BlsValidationOnly { is_blinded: bool },
}

impl View for BlockExtractionResult {
    type V = ExtractionModel;

    open spec fn view(&self) -> ExtractionModel {
        match self {
            BlockExtractionResult::Decoded(d) => ExtractionModel::Decoded {
                is_blinded: d.is_blinded,
                root: d.block_root,
                ssz: d.block_ssz@,
            },
            BlockExtractionResult::BlsValidationOnly { is_blinded } => {
                ExtractionModel::BlsValidationOnly { is_blinded: *is_blinded }
            },
        }
    }
}

/// Block extraction: the blinded decoding if it worked, else the full one,
/// else what BLS point validation tells, else error code 1.
pub open spec fn extraction_model(
    blinded: Result<EncodedBlock, DecodeFailure>,
    full: Result<EncodedBlock, DecodeFailure>,
) -> Result<ExtractionModel, i64> {
    match blinded {
        Ok(b) => Ok(ExtractionModel::Decoded { is_blinded: true, root: b.root, ssz: b.ssz@ }),
        Err(be) => match full {
            Ok(f) => Ok(ExtractionModel::Decoded { is_blinded: false, root: f.root, ssz: f.ssz@ }),
            Err(fe) => if is_bls_failure(be) || is_bls_failure(fe) {
                Ok(ExtractionModel::BlsValidationOnly { is_blinded: is_bls_failure(be) })
            } else {
                Err(error_codes::UNMARSHAL_SSZ)
            },
        },
    }
}

/// What decoding proposer consensus data gives: its root, its re-encoding and
/// the decodings of its block as blinded and as full block.
pub struct DecodedConsensusData {
    pub root: Hash256,
    pub re_encoded: Vec<u8>,
    pub blinded_block: Result<EncodedBlock, DecodeFailure>,
    pub full_block: Result<EncodedBlock, DecodeFailure>,
}

/// A fixture that decodes proposer consensus data and its block.
pub struct ConsensusDataProposerTest {
    pub data_cd: Vec<u8>,
    pub data_blk: Option<Vec<u8>>,
    pub blinded: bool,
    pub expected_blk_root: Hash256,
    pub expected_cd_root: Hash256,
    pub expected_error_code: i64,
}

impl ConsensusDataProposerTest {
    /// The check of a decoded block against the fixture.
    pub open spec fn block_check(self, is_blinded: bool, root: Hash256, ssz: Seq<u8>) -> Result<
        (),
        SpecTestFailure,
    > {
        if is_blinded != self.blinded {
            Err(
                SpecTestFailure::BlindedMismatch {
                    got_blinded: is_blinded,
                    expected_blinded: self.blinded,
                },
            )
        } else if root != self.expected_blk_root {
            Err(SpecTestFailure::BlockRootMismatch)
        } else {
            match self.data_blk {
                Some(expected) => if ssz != expected@ {
                    Err(
                        SpecTestFailure::BlockSszMismatch {
                            got_len: ssz.len() as usize,
                            expected_len: expected@.len() as usize,
                        },
                    )
                } else {
                    Ok(())
                },
                None => Err(SpecTestFailure::MissingExpectedBlock),
            }
        }
    }

    /// The whole check, given the consensus data decoding.
    pub open spec fn outcome(self, decoded: Result<DecodedConsensusData, DecodeFailure>) -> Result<
        (),
        SpecTestFailure,
    > {
        match decoded {
            Err(DecodeFailure::NoMatchingVariant) => code_check(
                self.expected_error_code,
                error_codes::UNKNOWN_BLOCK_VERSION,
            ),
            Err(_) => Err(SpecTestFailure::UnexpectedConsensusDataDecodeFailure),
            Ok(cd) => match extraction_model(cd.blinded_block, cd.full_block) {
                Err(code) => code_check(self.expected_error_code, code),
                Ok(ex) => if self.expected_error_code != error_codes::NO_ERROR {
                    Err(
                        SpecTestFailure::ExtractionSucceededUnexpectedly {
                            expected_code: self.expected_error_code,
                        },
                    )
                } else {
                    let block = match ex {
                        ExtractionModel::Decoded { is_blinded, root, ssz } => self.block_check(
                            is_blinded,
                            root,
                            ssz,
                        ),
                        ExtractionModel::BlsValidationOnly { is_blinded } => if is_blinded
                            != self.blinded {
                            Err(
                                SpecTestFailure::BlindedMismatch {
                                    got_blinded: is_blinded,
                                    expected_blinded: self.blinded,
                                },
                            )
                        } else {
                            Ok(())
                        },
                    };
                    match block {
                        Err(e) => Err(e),
                        Ok(()) => if cd.root != self.expected_cd_root {
                            Err(SpecTestFailure::ConsensusDataRootMismatch)
                        } else if cd.re_encoded@ != self.data_cd@ {
                            Err(
                                SpecTestFailure::ConsensusDataRoundtripMismatch {
                                    got_len: cd.re_encoded@.len() as usize,
                                    expected_len: self.data_cd@.len() as usize,
                                },
                            )
                        } else {
                            Ok(())
                        },
                    }
                },
            },
        }
    }

    /// Checks a decoded block against the fixture: blinded state, root and
    /// encoding, which must be present.
    pub fn verify_block_data(&self, block_data: &BlockData) -> (r: Result<(), SpecTestFailure>)
        ensures
            r == self.block_check(block_data.is_blinded, block_data.block_root, block_data.block_ssz@),
    {
        if block_data.is_blinded != self.blinded {
            return Err(
                SpecTestFailure::BlindedMismatch {
                    got_blinded: block_data.is_blinded,
                    expected_blinded: self.blinded,
                },
            );
        }
        if !block_data.block_root.same_as(&self.expected_blk_root) {
            return Err(SpecTestFailure::BlockRootMismatch);
        }
        match &self.data_blk {
            Some(expected_blk) => {
                if !same_bytes(block_data.block_ssz.as_slice(), expected_blk.as_slice()) {
                    return Err(
                        SpecTestFailure::BlockSszMismatch {
                            got_len: block_data.block_ssz.len(),
                            expected_len: expected_blk.len(),
                        },
                    );
                }
            },
            None => {
                return Err(SpecTestFailure::MissingExpectedBlock);
            },
        }
        Ok(())
    }

    /// Extracts the block: the blinded decoding first, then the full one;
    /// when both fail, BLS point validation failures still tell whether the
    /// block is blinded, and anything else is error code 1.
    pub fn get_block_data(
        &self,
        blinded: Result<EncodedBlock, DecodeFailure>,
        full: Result<EncodedBlock, DecodeFailure>,
    ) -> (r: Result<BlockExtractionResult, i64>)
        ensures
            match r {
                Ok(x) => extraction_model(blinded, full) == Ok::<ExtractionModel, i64>(x@),
                Err(c) => extraction_model(blinded, full) == Err::<ExtractionModel, i64>(c),
            },
    {
        match blinded {
            Ok(b) => Ok(
                BlockExtractionResult::Decoded(
                    BlockData { is_blinded: true, block_root: b.root, block_ssz: b.ssz },
                ),
            ),
            Err(blinded_err) => match full {
                Ok(f) => Ok(
                    BlockExtractionResult::Decoded(
                        BlockData { is_blinded: false, block_root: f.root, block_ssz: f.ssz },
                    ),
                ),
                Err(full_err) => {
                    let blinded_is_bls = is_bls_validation_error(&blinded_err);
                    let regular_is_bls = is_bls_validation_error(&full_err);
                    if blinded_is_bls || regular_is_bls {
                        Ok(BlockExtractionResult::BlsValidationOnly { is_blinded: blinded_is_bls })
                    } else {
                        Err(error_codes::UNMARSHAL_SSZ)
                    }
                },
            },
        }
    }

    /// Compares an obtained error code with the expected one.
    pub fn assert_error_code(&self, actual_code: i64) -> (r: Result<(), SpecTestFailure>)
        ensures
            r == code_check(self.expected_error_code, actual_code),
    {
        if actual_code != self.expected_error_code {
            Err(
                SpecTestFailure::ErrorCodeMismatch {
                    expected_code: self.expected_error_code,
                    got_code: actual_code,
                },
            )
        } else {
            Ok(())
        }
    }

    /// Runs the fixture on the decoding of its consensus data: an unknown
    /// data version is error code 11; then block extraction, the expected
    /// error code, the block, the consensus data root and the re-encoding.
    pub fn run(&self, decoded: Result<DecodedConsensusData, DecodeFailure>) -> (r: Result<
        (),
        SpecTestFailure,
    >)
        ensures
            r == self.outcome(decoded),
    {
        let cd = match decoded {
            Ok(cd) => cd,
            Err(DecodeFailure::NoMatchingVariant) => {
                return self.assert_error_code(error_codes::UNKNOWN_BLOCK_VERSION);
            },
            Err(_) => {
                return Err(SpecTestFailure::UnexpectedConsensusDataDecodeFailure);
            },
        };
        let extraction = match self.get_block_data(cd.blinded_block, cd.full_block) {
            Ok(result) => result,
            Err(code) => return self.assert_error_code(code),
        };
        if self.expected_error_code != error_codes::NO_ERROR {
            return Err(
                SpecTestFailure::ExtractionSucceededUnexpectedly {
                    expected_code: self.expected_error_code,
                },
            );
        }
        match extraction {
            BlockExtractionResult::Decoded(block_data) => {
                self.verify_block_data(&block_data)?;
            },
            BlockExtractionResult::BlsValidationOnly { is_blinded } => {
                if is_blinded != self.blinded {
                    return Err(
                        SpecTestFailure::BlindedMismatch {
                            got_blinded: is_blinded,
                            expected_blinded: self.blinded,
                        },
                    );
                }
            },
        }
        if !cd.root.same_as(&self.expected_cd_root) {
            return Err(SpecTestFailure::ConsensusDataRootMismatch);
        }
        if !same_bytes(cd.re_encoded.as_slice(), self.data_cd.as_slice()) {
            return Err(
                SpecTestFailure::ConsensusDataRoundtripMismatch {
                    got_len: cd.re_encoded.len(),
                    expected_len: self.data_cd.len(),
                },
            );
        }
        Ok(())
    }
}

/// What decoding a fixture's consensus data and its block gives: the
/// withdrawals root of the blinded and of the full block (`None` when the
/// block has no withdrawals root).
pub struct WithdrawalsLookup {
    pub blinded: Result<Option<Hash256>, DecodeFailure>,
    pub full: Result<Option<Hash256>, DecodeFailure>,
}

/// A fixture that checks the withdrawals root of a block.
pub struct SSZSpecTest {
    pub data: Vec<u8>,
    pub expected_root: Hash256,
}

impl SSZSpecTest {
    /// The check of a found withdrawals root.
    pub open spec fn root_check(self, root: Option<Hash256>) -> Result<(), SpecTestFailure> {
        match root {
            None => Err(SpecTestFailure::WithdrawalsRootUnavailable),
            Some(r) => if r != self.expected_root {
                Err(SpecTestFailure::WithdrawalsRootMismatch)
            } else {
                Ok(())
            },
        }
    }

    /// The whole check, given the decoding.
    pub open spec fn outcome(self, decoded: Result<WithdrawalsLookup, DecodeFailure>) -> Result<
        (),
        SpecTestFailure,
    > {
        match decoded {
            Err(_) => Err(SpecTestFailure::ConsensusDataDecodeFailed),
            Ok(l) => match l.blinded {
                Ok(root) => self.root_check(root),
                Err(be) => match l.full {
                    Ok(root) => self.root_check(root),
                    Err(fe) => if is_bls_failure(be) || is_bls_failure(fe) {
                        Ok(())
                    } else {
                        Err(SpecTestFailure::BothBlockDecodersFailed)
                    },
                },
            },
        }
    }

    /// Runs the fixture: the blinded block's withdrawals root if it decoded,
    /// else the full block's; when neither decoded only BLS point validation
    /// failures pass.
    pub fn run(&self, decoded: Result<WithdrawalsLookup, DecodeFailure>) -> (r: Result<
        (),
        SpecTestFailure,
    >)
        ensures
            r == self.outcome(decoded),
    {
        let lookup = match decoded {
            Ok(l) => l,
            Err(_) => return Err(SpecTestFailure::ConsensusDataDecodeFailed),
        };
        let root = match lookup.blinded {
            Ok(root) => root,
            Err(blinded_err) => match lookup.full {
                Ok(root) => root,
                Err(full_err) => {
                    if is_bls_validation_error(&blinded_err) || is_bls_validation_error(
                        &full_err,
                    ) {
                        return Ok(());
                    }
                    return Err(SpecTestFailure::BothBlockDecodersFailed);
                },
            },
        };
        match root {
            None => Err(SpecTestFailure::WithdrawalsRootUnavailable),
            Some(r) => if !r.same_as(&self.expected_root) {
                Err(SpecTestFailure::WithdrawalsRootMismatch)
            } else {
                Ok(())
            },
        }
    }
}

/// The parsed inputs of a deposit signing-root computation.
pub struct DepositInputs {
    pub pubkey: PublicKeyBytes,
    pub withdrawal_credentials: Hash256,
    pub fork_version: [u8; 4],
}

/// A fixture that checks the signing root of deposit data.
pub struct BeaconDepositDataSpecTest {
    pub name: String,
    pub validator_pk: String,
    pub withdrawal_credentials: String,
    pub fork_version: String,
    pub expected_signing_root: String,
    pub domain: String,
}

impl BeaconDepositDataSpecTest {
    /// Parses the key (hex of 48 bytes, no prefix), the withdrawal
    /// credentials (hex of 32 bytes) and the fork version (hex of 4 bytes).
    pub fn deposit_inputs(&self) -> (r: Result<DepositInputs, SpecTestFailure>)
        requires
            (hex_decoded(string_bytes(self.validator_pk)) matches Some(k) && k.len() == 48)
                ==> (hex_decoded(string_bytes(self.withdrawal_credentials)) matches Some(b)
                ==> b.len() == 32),
        ensures
            ({
                let pk = hex_decoded(string_bytes(self.validator_pk));
                let wc = hex_decoded(string_bytes(self.withdrawal_credentials));
                let fv = hex_decoded(string_bytes(self.fork_version));
                if !(pk matches Some(b) && b.len() == 48) {
                    r == Err::<DepositInputs, SpecTestFailure>(SpecTestFailure::InvalidValidatorKey)
                } else if wc is None {
                    r == Err::<DepositInputs, SpecTestFailure>(
                        SpecTestFailure::InvalidWithdrawalCredentials,
                    )
                } else if fv is None {
                    r == Err::<DepositInputs, SpecTestFailure>(SpecTestFailure::InvalidForkVersion)
                } else if fv->0.len() != 4 {
                    r == Err::<DepositInputs, SpecTestFailure>(SpecTestFailure::ForkVersionLength)
                } else {
                    r matches Ok(d) && d.pubkey.bytes@ == pk->0 && d.withdrawal_credentials.bytes@
                        == wc->0 && d.fork_version@ == fv->0
                }
            }),
    {
        let pk_bytes = match hex_decode(self.validator_pk.as_str().as_bytes()) {
            Ok(v) => v,
            Err(_) => return Err(SpecTestFailure::InvalidValidatorKey),
        };
        if pk_bytes.len() != 48 {
            return Err(SpecTestFailure::InvalidValidatorKey);
        }
        let wc_bytes = match hex_decode(self.withdrawal_credentials.as_str().as_bytes()) {
            Ok(v) => v,
            Err(_) => return Err(SpecTestFailure::InvalidWithdrawalCredentials),
        };
        let fv_bytes = match hex_decode(self.fork_version.as_str().as_bytes()) {
            Ok(v) => v,
            Err(_) => return Err(SpecTestFailure::InvalidForkVersion),
        };
        if fv_bytes.len() != 4 {
            return Err(SpecTestFailure::ForkVersionLength);
        }
        Ok(
            DepositInputs {
                pubkey: PublicKeyBytes { bytes: bytes_to_array(&pk_bytes) },
                withdrawal_credentials: Hash256 { bytes: bytes_to_array(&wc_bytes) },
                fork_version: bytes_to_array(&fv_bytes),
            },
        )
    }

    /// Compares the computed signing root with the expected one (hex of 32
    /// bytes).
    pub fn check_signing_root(&self, signing_root: Hash256) -> (r: Result<(), SpecTestFailure>)
        requires
            hex_decoded(string_bytes(self.expected_signing_root)) matches Some(b)
                ==> b.len() == 32,
        ensures
            match hex_decoded(string_bytes(self.expected_signing_root)) {
                None => r == Err::<(), SpecTestFailure>(
                    SpecTestFailure::InvalidExpectedSigningRoot,
                ),
                Some(b) => if signing_root.bytes@ == b {
                    r is Ok
                } else {
                    r == Err::<(), SpecTestFailure>(SpecTestFailure::SigningRootMismatch)
                },
            },
    {
        let expected_bytes = match hex_decode(self.expected_signing_root.as_str().as_bytes()) {
            Ok(v) => v,
            Err(_) => return Err(SpecTestFailure::InvalidExpectedSigningRoot),
        };
        let expected = Hash256 { bytes: bytes_to_array(&expected_bytes) };
        if !signing_root.same_as(&expected) {
            proof {
                broadcast use vstd::array::group_array_axioms;
                if signing_root.bytes@ == expected.bytes@ {
                    assert(signing_root.bytes =~= expected.bytes);
                }
            }
            return Err(SpecTestFailure::SigningRootMismatch);
        }
        Ok(())
    }
}

#[verifier::external_type_specification]
#[verifier::external_body]
pub struct ExFromUtf8Error(std::string::FromUtf8Error);

/// Calls `String::from_utf8`, which is documented to succeed exactly on
/// valid UTF-8 and then to hold the characters the bytes encode.
#[verifier::external_body]
fn string_from_utf8(bytes: Vec<u8>) -> (r: Result<String, std::string::FromUtf8Error>)
    ensures
        r is Ok <==> vstd::utf8::valid_utf8(bytes@),
        r matches Ok(s) ==> s@ == vstd::utf8::decode_utf8(bytes@),
{
    String::from_utf8(bytes)
}

/// A fixture for key encryption: private and public key PEM and a plaintext.
pub struct EncryptionSpecTest {
    pub sk_pem: Vec<u8>,
    pub pk_pem: Vec<u8>,
    pub plain_text: Vec<u8>,
}

impl EncryptionSpecTest {
    /// The password the key is encrypted with: the plaintext when it is
    /// UTF-8, else its base64 encoding.
    pub fn password(&self) -> (r: String)
        ensures
            vstd::utf8::valid_utf8(self.plain_text@) ==> r@ == vstd::utf8::decode_utf8(
                self.plain_text@,
            ),
            !vstd::utf8::valid_utf8(self.plain_text@) ==> r@ == base64_standard_encoded(
                self.plain_text@,
            ),
    {
        match string_from_utf8(self.plain_text.clone()) {
            Ok(s) => s,
            Err(_) => base64_encode(self.plain_text.as_slice()),
        }
    }

    /// Compares the base64 public key derived from the private key with the
    /// base64 encoding of the fixture's public key PEM.
    pub fn check_public_key(&self, derived_pk_b64: &String) -> (r: Result<(), SpecTestFailure>)
        ensures
            derived_pk_b64@ == base64_standard_encoded(self.pk_pem@) ==> r is Ok,
            derived_pk_b64@ != base64_standard_encoded(self.pk_pem@) ==> r == Err::<
                (),
                SpecTestFailure,
            >(SpecTestFailure::PublicKeyMismatch),
    {
        let expected = base64_encode(self.pk_pem.as_slice());
        if *derived_pk_b64 != expected {
            return Err(SpecTestFailure::PublicKeyMismatch);
        }
        Ok(())
    }
}

/// Proposer validation for a proposer duty with a known fork: it succeeds
/// exactly when the block decodes as blinded or as full, or when either
/// decoding failed only on BLS point validation; otherwise it is error 1.
/// The two decodings count alike: swapping them never changes the result.
pub proof fn lemma_proposer_validation_decodings(
    blinded: Result<(), DecodeFailure>,
    regular: Result<(), DecodeFailure>,
)
    ensures
        proposer_validation(
            BEACON_ROLE_PROPOSER,
            Some(BlockDecodes { blinded, regular }),
        ) == if blinded is Ok || regular is Ok || (blinded matches Err(e) && is_bls_failure(e))
            || (regular matches Err(e) && is_bls_failure(e)) {
            Ok::<(), i64>(())
        } else {
            Err::<(), i64>(error_codes::UNMARSHAL_SSZ)
        },
        proposer_validation(BEACON_ROLE_PROPOSER, Some(BlockDecodes { blinded, regular }))
            == proposer_validation(
            BEACON_ROLE_PROPOSER,
            Some(BlockDecodes { blinded: regular, regular: blinded }),
        ),
{
}

/// Block extraction when both decodings fail: a BLS point-validation
/// failure of either one yields the blinded state (blinded exactly when the
/// blinded decoding's failure is the BLS one), and without one it is error 1.
pub proof fn lemma_extraction_both_failed(be: DecodeFailure, fe: DecodeFailure, b: EncodedBlock, f: EncodedBlock)
    ensures
        extraction_model(Err(be), Err(fe)) == if is_bls_failure(be) || is_bls_failure(fe) {
            Ok::<ExtractionModel, i64>(
                ExtractionModel::BlsValidationOnly { is_blinded: is_bls_failure(be) },
            )
        } else {
            Err::<ExtractionModel, i64>(error_codes::UNMARSHAL_SSZ)
        },
        extraction_model(Ok(b), Err(fe)) == Ok::<ExtractionModel, i64>(
            ExtractionModel::Decoded { is_blinded: true, root: b.root, ssz: b.ssz@ },
        ),
        extraction_model(Err(be), Ok(f)) == Ok::<ExtractionModel, i64>(
            ExtractionModel::Decoded { is_blinded: false, root: f.root, ssz: f.ssz@ },
        ),
{
}

/// The withdrawals-root fixture when both block decodings fail: it passes
/// exactly when either failure is a BLS point-validation failure, whichever
/// the other is, and otherwise reports that both decoders failed. Swapping
/// the two failures never changes the result.
pub proof fn lemma_ssz_fixture_both_failed(
    test: SSZSpecTest,
    be: DecodeFailure,
    fe: DecodeFailure,
)
    ensures
        test.outcome(Ok(WithdrawalsLookup { blinded: Err(be), full: Err(fe) })) == if is_bls_failure(
            be,
        ) || is_bls_failure(fe) {
            Ok::<(), SpecTestFailure>(())
        } else {
            Err::<(), SpecTestFailure>(SpecTestFailure::BothBlockDecodersFailed)
        },
        test.outcome(Ok(WithdrawalsLookup { blinded: Err(be), full: Err(fe) })) == test.outcome(
            Ok(WithdrawalsLookup { blinded: Err(fe), full: Err(be) }),
        ),
{
}

/// A message that names `BLST` in a decoding failure of the bytes is a BLS
/// point-validation failure.
pub proof fn lemma_blst_message_is_bls_failure(msg: String, i: int)
    requires
        0 <= i && i + 4 <= string_bytes(msg).len(),
        string_bytes(msg)[i] == 66u8,
        string_bytes(msg)[i + 1] == 76u8,
        string_bytes(msg)[i + 2] == 83u8,
        string_bytes(msg)[i + 3] == 84u8,
    ensures
        is_bls_failure(DecodeFailure::BytesInvalid(msg)),
{
}

/// Proposer validation checks the duty first (anything but a proposer duty
/// is error 10, whatever else holds), then the fork (an unknown one is error
/// 11).
pub proof fn lemma_proposer_validation_order(duty_type: u64, decodes: Option<BlockDecodes>)
    ensures
        duty_type != BEACON_ROLE_PROPOSER ==> proposer_validation(duty_type, decodes) == Err::<
            (),
            i64,
        >(error_codes::UNKNOWN_DUTY_ROLE_DATA),
        duty_type == BEACON_ROLE_PROPOSER && decodes is None ==> proposer_validation(
            duty_type,
            decodes,
        ) == Err::<(), i64>(error_codes::UNKNOWN_BLOCK_VERSION),
{
}

/// A fixture's error-code check passes exactly when the obtained code is
/// the expected one, and otherwise reports both codes.
pub proof fn lemma_code_check(expected: i64, got: i64)
    ensures
        code_check(expected, got) is Ok <==> expected == got,
        expected != got ==> code_check(expected, got) == Err::<(), SpecTestFailure>(
            SpecTestFailure::ErrorCodeMismatch { expected_code: expected, got_code: got },
        ),
        code_of(Ok(())) == 0,
        got != 0 ==> code_of(Err(got)) == got,
{
}

/// The withdrawals-root fixture checks the blinded block's root when the
/// blinded decoding works, whatever the full decoding gives, and the full
/// block's otherwise; it passes exactly when that root is present and equal
/// to the expected one.
pub proof fn lemma_ssz_fixture_root(
    test: SSZSpecTest,
    blinded: Result<Option<Hash256>, DecodeFailure>,
    full: Result<Option<Hash256>, DecodeFailure>,
)
    ensures
        blinded is Ok ==> (test.outcome(Ok(WithdrawalsLookup { blinded, full })) is Ok
            <==> blinded->Ok_0 == Some(test.expected_root)),
        blinded is Err && full is Ok ==> (test.outcome(Ok(WithdrawalsLookup { blinded, full }))
            is Ok <==> full->Ok_0 == Some(test.expected_root)),
        forall|e: DecodeFailure| #[trigger] test.outcome(Err(e)) is Err,
{
}

/// The proposer block fixture: consensus data of an unknown version passes
/// exactly when error 11 is expected; any other failure to decode it is
/// reported as such; once a block is extracted, a fixture expecting an
/// error fails; and a fixture expecting success passes exactly when the
/// decoded block (blinded state, root and encoding), the consensus data root
/// and its re-encoding all match.
pub proof fn lemma_consensus_data_proposer_outcome(
    test: ConsensusDataProposerTest,
    cd: DecodedConsensusData,
    be: DecodeFailure,
    b: EncodedBlock,
)
    ensures
        test.outcome(Err(DecodeFailure::NoMatchingVariant)) is Ok <==> test.expected_error_code
            == error_codes::UNKNOWN_BLOCK_VERSION,
        test.outcome(Err(DecodeFailure::Other)) == Err::<(), SpecTestFailure>(
            SpecTestFailure::UnexpectedConsensusDataDecodeFailure,
        ),
        cd.blinded_block is Ok && test.expected_error_code != 0 ==> test.outcome(Ok(cd)) == Err::<
            (),
            SpecTestFailure,
        >(
            SpecTestFailure::ExtractionSucceededUnexpectedly {
                expected_code: test.expected_error_code,
            },
        ),
        ({
            let d = DecodedConsensusData { blinded_block: Err(be), full_block: Ok(b), ..cd };
            test.expected_error_code == 0 ==> (test.outcome(Ok(d)) is Ok <==> (!test.blinded
                && b.root == test.expected_blk_root && test.data_blk is Some
                && b.ssz@ == test.data_blk->0@ && cd.root == test.expected_cd_root
                && cd.re_encoded@ == test.data_cd@))
        }),
{
}

} // verus!
