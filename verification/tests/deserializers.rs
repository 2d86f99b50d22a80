use signature_collector::deserializers::{
    base64_list_from_decoded, nested_list_from_decoded, decode_hex_field, deserialize_base64_variable_list, deserialize_checkpoint,
    deserialize_epoch_string, deserialize_hash256, deserialize_hex_message_id,
    deserialize_optional_base64_nested_variable_list, deserialize_optional_variable_list,
    deserialize_partial_signature_kind, deserialize_public_key_bytes, deserialize_slot,
    deserialize_validator_index, FieldError,
};
use signature_collector::types::{Epoch, PartialSignatureKind, Slot, ValidatorIndex};

fn hex_of(bytes: &[u8]) -> String {
    bytes.iter().map(|b| format!("{:02x}", b)).collect()
}

#[test]
fn hex_field_decodes_with_and_without_prefix() {
    assert_eq!(decode_hex_field("0x0a0B").unwrap(), vec![0x0a, 0x0b]);
    assert_eq!(decode_hex_field("ff00").unwrap(), vec![0xff, 0x00]);
    assert_eq!(decode_hex_field("").unwrap(), Vec::<u8>::new());
    assert_eq!(decode_hex_field("0x").unwrap(), Vec::<u8>::new());
    assert_eq!(decode_hex_field("0x123"), Err(FieldError::InvalidHex));
    assert_eq!(decode_hex_field("zz"), Err(FieldError::InvalidHex));
    assert_eq!(decode_hex_field("0X12"), Err(FieldError::InvalidHex));
}

#[test]
fn message_id_needs_56_bytes() {
    let bytes: Vec<u8> = (0..56).collect();
    let id = deserialize_hex_message_id(&format!("0x{}", hex_of(&bytes))).unwrap();
    assert_eq!(id.bytes.to_vec(), bytes);
    let id2 = deserialize_hex_message_id(&hex_of(&bytes)).unwrap();
    assert_eq!(id2.bytes.to_vec(), bytes);
    assert_eq!(
        deserialize_hex_message_id(&hex_of(&bytes[..55])),
        Err(FieldError::WrongLength { expected: 56, actual: 55 })
    );
    assert_eq!(deserialize_hex_message_id("0xnothex"), Err(FieldError::InvalidHex));
}

#[test]
fn partial_signature_kind_numbers() {
    assert_eq!(deserialize_partial_signature_kind(0), Ok(PartialSignatureKind::PostConsensus));
    assert_eq!(deserialize_partial_signature_kind(1), Ok(PartialSignatureKind::RandaoPartialSig));
    assert_eq!(
        deserialize_partial_signature_kind(2),
        Ok(PartialSignatureKind::SelectionProofPartialSig)
    );
    assert_eq!(deserialize_partial_signature_kind(3), Ok(PartialSignatureKind::ContributionProofs));
    assert_eq!(deserialize_partial_signature_kind(4), Ok(PartialSignatureKind::ValidatorRegistration));
    assert_eq!(deserialize_partial_signature_kind(5), Ok(PartialSignatureKind::VoluntaryExit));
    assert_eq!(
        deserialize_partial_signature_kind(6),
        Err(FieldError::UnknownPartialSignatureKind(6))
    );
}

#[test]
fn slot_and_epoch_are_decimal() {
    assert_eq!(deserialize_slot("123"), Ok(Slot(123)));
    assert_eq!(deserialize_slot("+7"), Ok(Slot(7)));
    assert_eq!(deserialize_slot("18446744073709551615"), Ok(Slot(u64::MAX)));
    assert_eq!(deserialize_slot("18446744073709551616"), Err(FieldError::InvalidInteger));
    assert_eq!(deserialize_slot("-1"), Err(FieldError::InvalidInteger));
    assert_eq!(deserialize_slot(""), Err(FieldError::InvalidInteger));
    assert_eq!(deserialize_slot("+"), Err(FieldError::InvalidInteger));
    assert_eq!(deserialize_slot(" 1"), Err(FieldError::InvalidInteger));
    assert_eq!(deserialize_epoch_string("42"), Ok(Epoch(42)));
    assert_eq!(deserialize_epoch_string("4x2"), Err(FieldError::InvalidInteger));
}

#[test]
fn hash256_needs_32_bytes() {
    let bytes = [0xabu8; 32];
    let h = deserialize_hash256(&format!("0x{}", hex_of(&bytes))).unwrap();
    assert_eq!(h.bytes, bytes);
    assert_eq!(
        deserialize_hash256(&hex_of(&bytes[..31])),
        Err(FieldError::WrongLength { expected: 32, actual: 31 })
    );
    assert_eq!(deserialize_hash256("0xg0"), Err(FieldError::InvalidHex));
}

#[test]
fn validator_index_is_decimal() {
    assert_eq!(deserialize_validator_index("0"), Ok(ValidatorIndex(0)));
    assert_eq!(deserialize_validator_index("987654"), Ok(ValidatorIndex(987654)));
    assert_eq!(deserialize_validator_index("1.5"), Err(FieldError::InvalidInteger));
}

#[test]
fn base64_list_decodes_within_limit() {
    assert_eq!(deserialize_base64_variable_list("", 0), Ok(vec![]));
    assert_eq!(deserialize_base64_variable_list("aGVsbG8=", 5), Ok(b"hello".to_vec()));
    assert_eq!(deserialize_base64_variable_list("aGVsbG8=", 4), Err(FieldError::DataTooLong));
    assert_eq!(deserialize_base64_variable_list("aGVsbG8", 10), Err(FieldError::InvalidBase64));
    assert_eq!(deserialize_base64_variable_list("!!!!", 10), Err(FieldError::InvalidBase64));
}

#[test]
fn optional_list_defaults_to_empty() {
    assert_eq!(deserialize_optional_variable_list::<u32>(None, 0), Ok(vec![]));
    assert_eq!(deserialize_optional_variable_list(Some(vec![1, 2]), 2), Ok(vec![1, 2]));
    assert_eq!(
        deserialize_optional_variable_list(Some(vec![1, 2, 3]), 2),
        Err(FieldError::ListTooLong)
    );
}

#[test]
fn nested_base64_lists() {
    assert_eq!(deserialize_optional_base64_nested_variable_list(None, 4, 4), Ok(vec![]));
    let strs = vec!["aGk=".to_string(), "".to_string(), "AAEC".to_string()];
    assert_eq!(
        deserialize_optional_base64_nested_variable_list(Some(strs.clone()), 3, 3),
        Ok(vec![b"hi".to_vec(), vec![], vec![0, 1, 2]])
    );
    assert_eq!(
        deserialize_optional_base64_nested_variable_list(Some(strs.clone()), 2, 3),
        Err(FieldError::InnerListTooLong)
    );
    assert_eq!(
        deserialize_optional_base64_nested_variable_list(Some(strs), 3, 2),
        Err(FieldError::OuterListTooLong)
    );
    // The first failing element decides, before the outer length is checked.
    let bad = vec!["aGk=".to_string(), "a".to_string(), "AAEC".to_string()];
    assert_eq!(
        deserialize_optional_base64_nested_variable_list(Some(bad), 3, 1),
        Err(FieldError::InvalidBase64)
    );
}

#[test]
fn public_key_needs_prefix_and_48_bytes() {
    let bytes = [0x8eu8; 48];
    let k = deserialize_public_key_bytes(&format!("0x{}", hex_of(&bytes))).unwrap();
    assert_eq!(k.bytes, bytes);
    assert_eq!(deserialize_public_key_bytes(&hex_of(&bytes)), Err(FieldError::MissingHexPrefix));
    assert_eq!(
        deserialize_public_key_bytes(&format!("0x{}", hex_of(&bytes[..47]))),
        Err(FieldError::WrongLength { expected: 48, actual: 47 })
    );
    assert_eq!(deserialize_public_key_bytes("0xq"), Err(FieldError::InvalidHex));
}

#[test]
fn checkpoint_checks_epoch_then_root() {
    let root = [7u8; 32];
    let c = deserialize_checkpoint("3", &format!("0x{}", hex_of(&root))).unwrap();
    assert_eq!(c.epoch, Epoch(3));
    assert_eq!(c.root.bytes, root);
    assert_eq!(deserialize_checkpoint("x", "0x00"), Err(FieldError::InvalidInteger));
    assert_eq!(
        deserialize_checkpoint("3", "0x00"),
        Err(FieldError::WrongLength { expected: 32, actual: 1 })
    );
}

#[test]
fn decoded_base64_list_is_held_to_its_limit() {
    assert_eq!(base64_list_from_decoded(Some(vec![1, 2, 3]), 3), Ok(vec![1, 2, 3]));
    assert_eq!(base64_list_from_decoded(Some(vec![1, 2, 3]), 2), Err(FieldError::DataTooLong));
    assert_eq!(base64_list_from_decoded(Some(vec![]), 0), Ok(vec![]));
    assert_eq!(base64_list_from_decoded(None, 10), Err(FieldError::InvalidBase64));
}

#[test]
fn decoded_nested_lists_first_failure_wins() {
    assert_eq!(
        nested_list_from_decoded(vec![Some(vec![1]), Some(vec![2, 3])], 2, 2),
        Ok(vec![vec![1], vec![2, 3]])
    );
    assert_eq!(
        nested_list_from_decoded(vec![Some(vec![1, 2, 3]), None], 2, 2),
        Err(FieldError::InnerListTooLong)
    );
    assert_eq!(
        nested_list_from_decoded(vec![None, Some(vec![1, 2, 3])], 2, 2),
        Err(FieldError::InvalidBase64)
    );
    assert_eq!(
        nested_list_from_decoded(vec![Some(vec![]), Some(vec![]), Some(vec![])], 2, 2),
        Err(FieldError::OuterListTooLong)
    );
    assert_eq!(nested_list_from_decoded(vec![], 0, 0), Ok(vec![]));
}
