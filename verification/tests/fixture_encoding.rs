use signature_collector::fixture_encoding::{
    aggregator_consensus_lists, parse_contributions, AggregatorListLimits, RawContribution,
    decode_0x_hex, detect_object_kind, pad_signature_256, parse_aggregation_bits,
    parse_committee_bits, parse_contribution_fields, substitute_operator_ids, EncodedObjectKind,
    FixtureError, SSVMessage, TestSignedSSVMessage,
};
use signature_collector::types::{MessageId, OperatorId, Slot};

#[test]
fn pad_signature_256_pads_and_cuts() {
    let short = pad_signature_256(&[1, 2, 3]);
    assert_eq!(&short[..3], &[1, 2, 3]);
    assert!(short[3..].iter().all(|b| *b == 0));
    let empty = pad_signature_256(&[]);
    assert!(empty.iter().all(|b| *b == 0));
    let long: Vec<u8> = (0..300).map(|i| i as u8).collect();
    let cut = pad_signature_256(&long);
    assert_eq!(cut.to_vec(), long[..256].to_vec());
}

fn keys(ks: &[&str]) -> Vec<String> {
    ks.iter().map(|k| k.to_string()).collect()
}

#[test]
fn object_kind_detection_order() {
    assert_eq!(detect_object_kind(&keys(&["MsgType", "MsgID", "Data"])), Some(EncodedObjectKind::SsvMessage));
    assert_eq!(
        detect_object_kind(&keys(&["Signatures", "OperatorIDs", "SSVMessage"])),
        Some(EncodedObjectKind::SignedSsvMessage)
    );
    assert_eq!(detect_object_kind(&keys(&["SigningRoot", "Signer"])), Some(EncodedObjectKind::PartialSignatureMessage));
    assert_eq!(
        detect_object_kind(&keys(&["Type", "Slot", "Messages"])),
        Some(EncodedObjectKind::PartialSignatureMessages)
    );
    assert_eq!(detect_object_kind(&keys(&["Round", "Height"])), Some(EncodedObjectKind::QbftMessage));
    assert_eq!(detect_object_kind(&keys(&["Duty", "DataSSZ"])), Some(EncodedObjectKind::ProposerConsensusData));
    assert_eq!(detect_object_kind(&keys(&["BlockRoot", "Source", "Target"])), Some(EncodedObjectKind::BeaconVote));
    assert_eq!(
        detect_object_kind(&keys(&["aggregation_bits", "data"])),
        Some(EncodedObjectKind::Attestation { electra: false })
    );
    assert_eq!(
        detect_object_kind(&keys(&["aggregation_bits", "data", "committee_bits"])),
        Some(EncodedObjectKind::Attestation { electra: true })
    );
    assert_eq!(detect_object_kind(&keys(&["Version", "Aggregators"])), Some(EncodedObjectKind::AggregatorConsensusData));
    // An earlier rule wins when several match.
    assert_eq!(
        detect_object_kind(&keys(&["Round", "Height", "MsgType", "MsgID"])),
        Some(EncodedObjectKind::SsvMessage)
    );
    assert_eq!(detect_object_kind(&keys(&["Type", "Slot"])), None);
    assert_eq!(detect_object_kind(&keys(&[])), None);
}

#[test]
fn prefixed_hex_requires_prefix() {
    assert_eq!(decode_0x_hex("0x0102"), Ok(vec![1, 2]));
    assert_eq!(decode_0x_hex("0102"), Err(FixtureError::MissingHexPrefix));
    assert_eq!(decode_0x_hex("0x012"), Err(FixtureError::InvalidHex));
}

#[test]
fn attestation_bits() {
    assert_eq!(parse_aggregation_bits("0x0102", 2), Ok(vec![1, 2]));
    assert_eq!(parse_aggregation_bits("0x0102", 1), Err(FixtureError::AggregationBitsTooLong));
    assert_eq!(parse_committee_bits(None), Err(FixtureError::MissingCommitteeBits));
    assert_eq!(parse_committee_bits(Some("0x0100000000000000".to_string())), Ok([1, 0, 0, 0, 0, 0, 0, 0]));
    assert_eq!(parse_committee_bits(Some("0x01".to_string())), Err(FixtureError::CommitteeBitsWrongLength));
    assert_eq!(parse_committee_bits(Some("01".to_string())), Err(FixtureError::MissingHexPrefix));
}

#[test]
fn contribution_fields() {
    let root = format!("0x{}", "11".repeat(32));
    let bits = format!("0x{}", "ff".repeat(16));
    let c = parse_contribution_fields("5", &root, "2", &bits).ok().unwrap();
    assert_eq!(c.slot, Slot(5));
    assert_eq!(c.beacon_block_root.bytes, [0x11; 32]);
    assert_eq!(c.subcommittee_index, 2);
    assert_eq!(c.aggregation_bits, vec![0xff; 16]);
    assert_eq!(parse_contribution_fields("x", &root, "2", &bits).err(), Some(FixtureError::InvalidSlot));
    assert_eq!(parse_contribution_fields("5", "11", "2", &bits).err(), Some(FixtureError::MissingHexPrefix));
    assert_eq!(parse_contribution_fields("5", &root, "-2", &bits).err(), Some(FixtureError::InvalidSubcommitteeIndex));
    assert_eq!(parse_contribution_fields("5", &root, "2", "ff").err(), Some(FixtureError::MissingHexPrefix));
    assert_eq!(
        parse_contribution_fields("5", &root, "2", "0xff").err(),
        Some(FixtureError::SyncAggregationBitsWrongLength)
    );
    let long = format!("0x{}", "00".repeat(17));
    assert_eq!(
        parse_contribution_fields("5", &root, "2", &long).err(),
        Some(FixtureError::SyncAggregationBitsWrongLength)
    );
}

fn message() -> SSVMessage {
    SSVMessage { msg_type: 1, msg_id: MessageId { bytes: [0; 56] }, data: vec![1] }
}

#[test]
fn signed_message_preparation() {
    assert_eq!(substitute_operator_ids(3), vec![OperatorId(1), OperatorId(2), OperatorId(3)]);
    let raw = TestSignedSSVMessage {
        signatures: vec![vec![1], vec![]],
        operator_ids: vec![OperatorId(1), OperatorId(1)],
        ssv_message: Some(message()),
        full_data: None,
    };
    let parts = raw.signed_message_parts(13, 13, 10).ok().unwrap();
    assert_eq!(parts.signatures.len(), 2);
    assert_eq!(parts.signatures[0][0], 1);
    assert_eq!(parts.operator_ids, vec![OperatorId(1), OperatorId(2)]);
    assert_eq!(parts.full_data, Vec::<u8>::new());
    assert_eq!(parts.ssv_message.data, vec![1]);

    let raw = TestSignedSSVMessage { signatures: vec![], operator_ids: vec![], ssv_message: None, full_data: None };
    assert_eq!(raw.signed_message_parts(13, 13, 10).err(), Some(FixtureError::NullSsvMessage));
    let raw = TestSignedSSVMessage {
        signatures: vec![vec![]; 3],
        operator_ids: vec![],
        ssv_message: Some(message()),
        full_data: Some(vec![0; 4]),
    };
    assert_eq!(raw.signed_message_parts(2, 13, 10).err(), Some(FixtureError::TooManySignatures));
    let raw = TestSignedSSVMessage {
        signatures: vec![vec![]; 3],
        operator_ids: vec![],
        ssv_message: Some(message()),
        full_data: Some(vec![0; 4]),
    };
    assert_eq!(raw.signed_message_parts(3, 2, 10).err(), Some(FixtureError::TooManyOperatorIds));
    let raw = TestSignedSSVMessage {
        signatures: vec![vec![]; 3],
        operator_ids: vec![],
        ssv_message: Some(message()),
        full_data: Some(vec![0; 4]),
    };
    assert_eq!(raw.signed_message_parts(3, 3, 3).err(), Some(FixtureError::FullDataTooLong));
}

fn raw(slot: &str, bits: &str) -> RawContribution {
    RawContribution {
        slot: slot.to_string(),
        beacon_block_root: format!("0x{}", "22".repeat(32)),
        subcommittee_index: "1".to_string(),
        aggregation_bits: bits.to_string(),
    }
}

#[test]
fn contributions_decode_in_order_first_error_wins() {
    let bits = format!("0x{}", "01".repeat(16));
    let cs = parse_contributions(&vec![raw("3", &bits), raw("4", &bits)]).ok().unwrap();
    assert_eq!(cs.len(), 2);
    assert_eq!(cs[0].slot, Slot(3));
    assert_eq!(cs[1].slot, Slot(4));
    assert_eq!(cs[1].beacon_block_root.bytes, [0x22; 32]);
    assert!(parse_contributions(&vec![]).ok().unwrap().is_empty());
    assert_eq!(
        parse_contributions(&vec![raw("3", "0x01"), raw("x", &bits)]).err(),
        Some(FixtureError::SyncAggregationBitsWrongLength)
    );
    assert_eq!(
        parse_contributions(&vec![raw("3", &bits), raw("x", "0x01")]).err(),
        Some(FixtureError::InvalidSlot)
    );
}

#[test]
fn aggregator_lists_checked_in_field_order() {
    let bits = format!("0x{}", "01".repeat(16));
    let limits = AggregatorListLimits {
        max_aggregators: 1,
        max_committee_indexes: 1,
        max_contributors: 1,
        max_contributions: 1,
    };
    let ok = aggregator_consensus_lists(vec![1u8], vec![9], vec![2u8], &vec![raw("3", &bits)], limits)
        .ok()
        .unwrap();
    assert_eq!(ok.aggregators, vec![1]);
    assert_eq!(ok.aggregator_committee_indexes, vec![9]);
    assert_eq!(ok.contributors, vec![2]);
    assert_eq!(ok.sync_committee_contributions.len(), 1);
    // a bad contribution is reported before any limit
    assert_eq!(
        aggregator_consensus_lists(vec![1u8, 2], vec![], vec![], &vec![raw("x", &bits)], limits).err(),
        Some(FixtureError::InvalidSlot)
    );
    assert_eq!(
        aggregator_consensus_lists(vec![1u8, 2], vec![1, 2], vec![], &vec![], limits).err(),
        Some(FixtureError::TooManyAggregators)
    );
    assert_eq!(
        aggregator_consensus_lists(vec![1u8], vec![1, 2], vec![1, 2], &vec![], limits).err(),
        Some(FixtureError::TooManyCommitteeIndexes)
    );
    assert_eq!(
        aggregator_consensus_lists(vec![1u8], vec![1], vec![1, 2], &vec![], limits).err(),
        Some(FixtureError::TooManyContributors)
    );
    assert_eq!(
        aggregator_consensus_lists(vec![1u8], vec![1], vec![1], &vec![raw("3", &bits), raw("4", &bits)], limits)
            .err(),
        Some(FixtureError::TooManyContributions)
    );
}
