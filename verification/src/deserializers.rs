//! Field decoders for the JSON fixture format: each takes the plain value
//! read from the document (a string, a number, an optional list) and turns it
//! into a typed value, or says why it cannot.

use crate::decode::{
    base64_decode, base64_standard_decoded, decimal_value, has_0x, hex_decode, hex_decoded,
    is_unsigned_decimal, parse_u64, parse_usize, strip_0x, unsigned_digits, without_0x,
};
use crate::types::{
    bytes_to_array, partial_signature_kind_number, Checkpoint, Epoch, Hash256, MessageId,
    PartialSignatureKind, PublicKeyBytes, Slot, ValidatorIndex,
};
use vstd::prelude::*;
use vstd::string::StringSliceAdditionalSpecFns;

verus! {

/// Why a fixture field could not be decoded.
#[derive(Clone, Copy, Debug, PartialEq, Eq, Structural)]
pub enum FieldError {
    /// The text is not an even number of hex digits.
    InvalidHex,
    /// The decoded bytes do not have the length the type needs.
    WrongLength { expected: usize, actual: usize },
    /// The text is not an unsigned decimal that fits the type.
    InvalidInteger,
    /// The text is not valid standard base64.
    InvalidBase64,
    /// Decoded base64 data is longer than the list allows.
    DataTooLong,
    /// A list has more elements than it allows.
    ListTooLong,
    /// An element of a nested list is longer than allowed.
    InnerListTooLong,
    /// A nested list has more elements than allowed.
    OuterListTooLong,
    /// The number is not the wire number of a partial signature kind.
    UnknownPartialSignatureKind(u64),
    /// A public key string does not start with `0x`.
    MissingHexPrefix,
}

/// The bytes of a hex field: an optional `0x` prefix, then hex digits.
pub open spec fn hex_field(b: Seq<u8>) -> Option<Seq<u8>> {
    hex_decoded(without_0x(b))
}

/// The value of an unsigned decimal field that must fit in `max`.
pub open spec fn decimal_field(b: Seq<u8>, max: nat) -> Option<nat> {
    if is_unsigned_decimal(b) && decimal_value(unsigned_digits(b)) <= max {
        Some(decimal_value(unsigned_digits(b)))
    } else {
        None
    }
}

/// Decodes a hex field, with or without a leading `0x`.
pub fn decode_hex_field(s: &str) -> (r: Result<Vec<u8>, FieldError>)
    ensures
        r is Ok <==> hex_field(s.spec_bytes()) is Some,
        r matches Ok(v) ==> hex_field(s.spec_bytes()) == Some(v@),
        r matches Err(e) ==> e == FieldError::InvalidHex,
{
    let digits = strip_0x(s.as_bytes());
    match hex_decode(digits) {
        Ok(v) => Ok(v),
        Err(_) => Err(FieldError::InvalidHex),
    }
}

/// The outcome of decoding a hex field into exactly `n` bytes.
pub open spec fn fixed_hex_outcome(b: Seq<u8>, n: nat) -> Result<Seq<u8>, FieldError> {
    match hex_field(b) {
        None => Err(FieldError::InvalidHex),
        Some(bytes) => if bytes.len() == n {
            Ok(bytes)
        } else {
            Err(FieldError::WrongLength { expected: n as usize, actual: bytes.len() as usize })
        },
    }
}

/// Decodes a hex message id: exactly 56 bytes.
pub fn deserialize_hex_message_id(s: &str) -> (r: Result<MessageId, FieldError>)
    ensures
        match fixed_hex_outcome(s.spec_bytes(), 56) {
            Ok(b) => r matches Ok(id) && id.bytes@ == b,
            Err(e) => r == Err::<MessageId, FieldError>(e),
        },
{
    let bytes = decode_hex_field(s)?;
    if bytes.len() != 56 {
        return Err(FieldError::WrongLength { expected: 56, actual: bytes.len() });
    }
    Ok(MessageId { bytes: bytes_to_array(&bytes) })
}

/// Turns a wire number into a partial signature kind.
pub fn deserialize_partial_signature_kind(value: u64) -> (r: Result<
    PartialSignatureKind,
    FieldError,
>)
    ensures
        r is Ok <==> value <= 5,
        r matches Ok(k) ==> partial_signature_kind_number(k) == value,
        r matches Err(e) ==> e == FieldError::UnknownPartialSignatureKind(value),
{
    match PartialSignatureKind::from_number(value) {
        Some(k) => Ok(k),
        None => Err(FieldError::UnknownPartialSignatureKind(value)),
    }
}

/// Decodes a slot written as a decimal string.
pub fn deserialize_slot(s: &str) -> (r: Result<Slot, FieldError>)
    ensures
        match decimal_field(s.spec_bytes(), u64::MAX as nat) {
            Some(v) => r == Ok::<Slot, FieldError>(Slot(v as u64)),
            None => r == Err::<Slot, FieldError>(FieldError::InvalidInteger),
        },
{
    match parse_u64(s) {
        Ok(v) => Ok(Slot(v)),
        Err(_) => Err(FieldError::InvalidInteger),
    }
}

/// Decodes a 32-byte hash written in hex.
pub fn deserialize_hash256(s: &str) -> (r: Result<Hash256, FieldError>)
    ensures
        match fixed_hex_outcome(s.spec_bytes(), 32) {
            Ok(b) => r matches Ok(h) && h.bytes@ == b,
            Err(e) => r == Err::<Hash256, FieldError>(e),
        },
{
    let bytes = decode_hex_field(s)?;
    if bytes.len() != 32 {
        return Err(FieldError::WrongLength { expected: 32, actual: bytes.len() });
    }
    Ok(Hash256 { bytes: bytes_to_array(&bytes) })
}

/// Decodes a validator index written as a decimal string.
pub fn deserialize_validator_index(s: &str) -> (r: Result<ValidatorIndex, FieldError>)
    ensures
        match decimal_field(s.spec_bytes(), usize::MAX as nat) {
            Some(v) => r == Ok::<ValidatorIndex, FieldError>(ValidatorIndex(v as usize)),
            None => r == Err::<ValidatorIndex, FieldError>(FieldError::InvalidInteger),
        },
{
    match parse_usize(s) {
        Ok(v) => Ok(ValidatorIndex(v)),
        Err(_) => Err(FieldError::InvalidInteger),
    }
}

/// The outcome of decoding a base64 byte list of at most `max_len` bytes.
pub open spec fn base64_list_outcome(b: Seq<u8>, max_len: nat) -> Result<Seq<u8>, FieldError> {
    if b.len() == 0 {
        Ok(Seq::empty())
    } else {
        decoded_list_outcome(base64_standard_decoded(b), max_len)
    }
}

/// The byte list that a base64 decoding gives: `None` is a decoding
/// failure; at most `max_len` bytes.
pub open spec fn decoded_list_outcome(decoded: Option<Seq<u8>>, max_len: nat) -> Result<
    Seq<u8>,
    FieldError,
> {
    match decoded {
        None => Err(FieldError::InvalidBase64),
        Some(bytes) => if bytes.len() <= max_len {
            Ok(bytes)
        } else {
            Err(FieldError::DataTooLong)
        },
    }
}

/// The view of an optional byte vector.
pub open spec fn opt_bytes(d: Option<Vec<u8>>) -> Option<Seq<u8>> {
    match d {
        Some(v) => Some(v@),
        None => None,
    }
}

/// Checks a base64 decoding result (`None` when decoding failed) against
/// the list limit of `max_len` bytes.
pub fn base64_list_from_decoded(decoded: Option<Vec<u8>>, max_len: usize) -> (r: Result<
    Vec<u8>,
    FieldError,
>)
    ensures
        match decoded_list_outcome(opt_bytes(decoded), max_len as nat) {
            Ok(b) => r matches Ok(v) && v@ == b,
            Err(e) => r == Err::<Vec<u8>, FieldError>(e),
        },
{
    match decoded {
        None => Err(FieldError::InvalidBase64),
        Some(bytes) => if bytes.len() <= max_len {
            Ok(bytes)
        } else {
            Err(FieldError::DataTooLong)
        },
    }
}

/// Decodes a base64 byte list of at most `max_len` bytes; the empty string is
/// the empty list.
pub fn deserialize_base64_variable_list(s: &str, max_len: usize) -> (r: Result<
    Vec<u8>,
    FieldError,
>)
    ensures
        match base64_list_outcome(s.spec_bytes(), max_len as nat) {
            Ok(b) => r matches Ok(v) && v@ == b,
            Err(e) => r == Err::<Vec<u8>, FieldError>(e),
        },
{
    let b = s.as_bytes();
    if b.len() == 0 {
        return Ok(Vec::new());
    }
    let decoded = match base64_decode(b) {
        Ok(v) => Some(v),
        Err(_) => None,
    };
    base64_list_from_decoded(decoded, max_len)
}

/// An optional list (missing means empty) of at most `max_len` elements.
pub fn deserialize_optional_variable_list<T>(opt: Option<Vec<T>>, max_len: usize) -> (r: Result<
    Vec<T>,
    FieldError,
>)
    ensures
        ({
            let items = match opt {
                Some(v) => v@,
                None => Seq::<T>::empty(),
            };
            if items.len() <= max_len {
                r matches Ok(v) && v@ == items
            } else {
                r == Err::<Vec<T>, FieldError>(FieldError::ListTooLong)
            }
        }),
{
    let items = match opt {
        Some(v) => v,
        None => Vec::new(),
    };
    if items.len() <= max_len {
        Ok(items)
    } else {
        Err(FieldError::ListTooLong)
    }
}

/// The bytes of a string.
pub open spec fn string_bytes(s: String) -> Seq<u8> {
    vstd::utf8::encode_utf8(s@)
}

/// Checks decoded items in order, each a byte list of at most `inner_max`
/// bytes, stopping at the first that failed to decode or is too long.
pub open spec fn decoded_items_outcome(ds: Seq<Option<Seq<u8>>>, inner_max: nat) -> Result<
    Seq<Seq<u8>>,
    FieldError,
>
    decreases ds.len(),
{
    if ds.len() == 0 {
        Ok(Seq::empty())
    } else {
        match decoded_items_outcome(ds.drop_last(), inner_max) {
            Err(e) => Err(e),
            Ok(prev) => match ds.last() {
                None => Err(FieldError::InvalidBase64),
                Some(b) => if b.len() <= inner_max {
                    Ok(prev.push(b))
                } else {
                    Err(FieldError::InnerListTooLong)
                },
            },
        }
    }
}

/// The nested list that decoded items give: the items checked in order,
/// then at most `outer_max` of them.
pub open spec fn decoded_nested_outcome(
    ds: Seq<Option<Seq<u8>>>,
    inner_max: nat,
    outer_max: nat,
) -> Result<Seq<Seq<u8>>, FieldError> {
    match decoded_items_outcome(ds, inner_max) {
        Err(e) => Err(e),
        Ok(lists) => if lists.len() <= outer_max {
            Ok(lists)
        } else {
            Err(FieldError::OuterListTooLong)
        },
    }
}

/// The base64 decoding of each string.
pub open spec fn base64_items(strs: Seq<String>) -> Seq<Option<Seq<u8>>> {
    Seq::new(strs.len(), |i: int| base64_standard_decoded(string_bytes(strs[i])))
}

/// The outcome of decoding an optional list of base64 strings.
pub open spec fn nested_list_outcome(strs: Seq<String>, inner_max: nat, outer_max: nat) -> Result<
    Seq<Seq<u8>>,
    FieldError,
> {
    decoded_nested_outcome(base64_items(strs), inner_max, outer_max)
}

/// The views of a vector of optional byte vectors.
pub open spec fn opt_bytes_seq(ds: Seq<Option<Vec<u8>>>) -> Seq<Option<Seq<u8>>> {
    Seq::new(ds.len(), |i: int| opt_bytes(ds[i]))
}

/// Checks decoded items (`None` where decoding failed) in order against the
/// inner limit, the first failure winning, then their number against the
/// outer limit.
pub fn nested_list_from_decoded(
    decoded: Vec<Option<Vec<u8>>>,
    inner_max: usize,
    outer_max: usize,
) -> (r: Result<Vec<Vec<u8>>, FieldError>)
    ensures
        match decoded_nested_outcome(opt_bytes_seq(decoded@), inner_max as nat, outer_max as nat) {
            Ok(lists) => r matches Ok(v) && v@.len() == lists.len() && forall|i: int|
                0 <= i < lists.len() ==> (#[trigger] v@[i])@ == lists[i],
            Err(e) => r == Err::<Vec<Vec<u8>>, FieldError>(e),
        },
{
    let ghost all = opt_bytes_seq(decoded@);
    let mut out: Vec<Vec<u8>> = Vec::new();
    let mut i: usize = 0;
    while i < decoded.len()
        invariant
            i <= decoded@.len(),
            all == opt_bytes_seq(decoded@),
            decoded_items_outcome(all.take(i as int), inner_max as nat) matches Ok(lists)
                && out@.len() == lists.len() && forall|j: int|
                0 <= j < lists.len() ==> (#[trigger] out@[j])@ == lists[j],
        decreases decoded@.len() - i,
    {
        assert(all.take(i + 1).drop_last() =~= all.take(i as int));
        assert(all.take(i + 1).last() == opt_bytes(decoded@[i as int]));
        let bytes = match &decoded[i] {
            Some(v) => v.clone(),
            None => {
                proof { lemma_items_error_persists(all, (i + 1) as nat, inner_max as nat); }
                return Err(FieldError::InvalidBase64);
            },
        };
        if bytes.len() > inner_max {
            proof { lemma_items_error_persists(all, (i + 1) as nat, inner_max as nat); }
            return Err(FieldError::InnerListTooLong);
        }
        out.push(bytes);
        i = i + 1;
    }
    assert(all.take(decoded@.len() as int) =~= all);
    if out.len() <= outer_max {
        Ok(out)
    } else {
        Err(FieldError::OuterListTooLong)
    }
}

/// An optional list (missing means empty) of base64 strings, each decoded into
/// a byte list of at most `inner_max` bytes; at most `outer_max` of them.
pub fn deserialize_optional_base64_nested_variable_list(
    opt: Option<Vec<String>>,
    inner_max: usize,
    outer_max: usize,
) -> (r: Result<Vec<Vec<u8>>, FieldError>)
    ensures
        ({
            let strs = match opt {
                Some(v) => v@,
                None => Seq::<String>::empty(),
            };
            match nested_list_outcome(strs, inner_max as nat, outer_max as nat) {
                Ok(lists) => r matches Ok(v) && v@.len() == lists.len() && forall|i: int|
                    0 <= i < lists.len() ==> (#[trigger] v@[i])@ == lists[i],
                Err(e) => r == Err::<Vec<Vec<u8>>, FieldError>(e),
            }
        }),
{
    let strs = match opt {
        Some(v) => v,
        None => Vec::new(),
    };
    let mut decoded: Vec<Option<Vec<u8>>> = Vec::new();
    let mut i: usize = 0;
    while i < strs.len()
        invariant
            i <= strs@.len(),
            decoded@.len() == i,
            forall|j: int|
                0 <= j < i ==> opt_bytes(#[trigger] decoded@[j]) == base64_standard_decoded(
                    string_bytes(strs@[j]),
                ),
        decreases strs@.len() - i,
    {
        let d = match base64_decode(strs[i].as_str().as_bytes()) {
            Ok(v) => Some(v),
            Err(_) => None,
        };
        decoded.push(d);
        i = i + 1;
    }
    assert(opt_bytes_seq(decoded@) =~= base64_items(strs@));
    nested_list_from_decoded(decoded, inner_max, outer_max)
}

/// Once checking a prefix fails, checking the whole list fails the same way.
proof fn lemma_items_error_persists(ds: Seq<Option<Seq<u8>>>, k: nat, inner_max: nat)
    requires
        k <= ds.len(),
        decoded_items_outcome(ds.take(k as int), inner_max) is Err,
    ensures
        decoded_items_outcome(ds, inner_max) == decoded_items_outcome(ds.take(k as int), inner_max),
    decreases ds.len() - k,
{
    if k == ds.len() {
        assert(ds.take(k as int) =~= ds);
    } else {
        assert(ds.take((k + 1) as int).drop_last() =~= ds.take(k as int));
        lemma_items_error_persists(ds, k + 1, inner_max);
    }
}

/// The outcome of parsing a `0x`-prefixed hex public key of 48 bytes.
pub open spec fn public_key_outcome(b: Seq<u8>) -> Result<Seq<u8>, FieldError> {
    if !has_0x(b) {
        Err(FieldError::MissingHexPrefix)
    } else {
        match hex_decoded(without_0x(b)) {
            None => Err(FieldError::InvalidHex),
            Some(bytes) => if bytes.len() == 48 {
                Ok(bytes)
            } else {
                Err(FieldError::WrongLength { expected: 48, actual: bytes.len() as usize })
            },
        }
    }
}

/// Parses a public key: `0x` followed by the hex of its 48 bytes.
pub fn deserialize_public_key_bytes(s: &str) -> (r: Result<PublicKeyBytes, FieldError>)
    ensures
        match public_key_outcome(s.spec_bytes()) {
            Ok(b) => r matches Ok(k) && k.bytes@ == b,
            Err(e) => r == Err::<PublicKeyBytes, FieldError>(e),
        },
{
    let b = s.as_bytes();
    if !(b.len() >= 2 && b[0] == 48 && b[1] == 120) {
        return Err(FieldError::MissingHexPrefix);
    }
    let bytes = match hex_decode(strip_0x(b)) {
        Ok(v) => v,
        Err(_) => return Err(FieldError::InvalidHex),
    };
    if bytes.len() != 48 {
        return Err(FieldError::WrongLength { expected: 48, actual: bytes.len() });
    }
    Ok(PublicKeyBytes { bytes: bytes_to_array(&bytes) })
}

/// Decodes an epoch written as a decimal string.
pub fn deserialize_epoch_string(s: &str) -> (r: Result<Epoch, FieldError>)
    ensures
        match decimal_field(s.spec_bytes(), u64::MAX as nat) {
            Some(v) => r == Ok::<Epoch, FieldError>(Epoch(v as u64)),
            None => r == Err::<Epoch, FieldError>(FieldError::InvalidInteger),
        },
{
    match parse_u64(s) {
        Ok(v) => Ok(Epoch(v)),
        Err(_) => Err(FieldError::InvalidInteger),
    }
}

/// Decodes a checkpoint from its decimal epoch and hex root; the epoch is
/// checked first.
pub fn deserialize_checkpoint(epoch: &str, root: &str) -> (r: Result<Checkpoint, FieldError>)
    ensures
        match decimal_field(epoch.spec_bytes(), u64::MAX as nat) {
            None => r == Err::<Checkpoint, FieldError>(FieldError::InvalidInteger),
            Some(e) => match fixed_hex_outcome(root.spec_bytes(), 32) {
                Ok(b) => r matches Ok(c) && c.epoch == Epoch(e as u64) && c.root.bytes@ == b,
                Err(err) => r == Err::<Checkpoint, FieldError>(err),
            },
        },
{
    let epoch = deserialize_epoch_string(epoch)?;
    let root = deserialize_hash256(root)?;
    Ok(Checkpoint { epoch, root })
}

/// A decoded item that is within the inner limit.
pub open spec fn item_fits(d: Option<Seq<u8>>, inner_max: nat) -> bool {
    d matches Some(b) && b.len() <= inner_max
}

/// Checking decoded items succeeds exactly when every item decoded to at
/// most `inner_max` bytes, and then gives the items' bytes in order; when it
/// fails, the error is the first failing item's: an item that did not
/// decode, or one that is too long, with every item before it fine.
pub proof fn lemma_decoded_items(ds: Seq<Option<Seq<u8>>>, inner_max: nat)
    ensures
        decoded_items_outcome(ds, inner_max) is Ok <==> forall|i: int|
            0 <= i < ds.len() ==> item_fits(#[trigger] ds[i], inner_max),
        decoded_items_outcome(ds, inner_max) matches Ok(lists) ==> lists.len() == ds.len()
            && forall|i: int| 0 <= i < ds.len() ==> Some(#[trigger] lists[i]) == ds[i],
        decoded_items_outcome(ds, inner_max) matches Err(e) ==> exists|k: int|
            0 <= k < ds.len() && (forall|i: int|
                0 <= i < k ==> item_fits(#[trigger] ds[i], inner_max)) && e
                == match ds[k] {
                None => FieldError::InvalidBase64,
                Some(_) => FieldError::InnerListTooLong,
            } && !item_fits(ds[k], inner_max),
    decreases ds.len(),
{
    if ds.len() > 0 {
        let prefix = ds.drop_last();
        lemma_decoded_items(prefix, inner_max);
        assert forall|i: int| 0 <= i < prefix.len() implies prefix[i] == ds[i] by {}
        match decoded_items_outcome(prefix, inner_max) {
            Ok(prev) => {
                if decoded_items_outcome(ds, inner_max) is Err {
                    let k = ds.len() - 1;
                    assert(forall|i: int|
                        0 <= i < k ==> item_fits(#[trigger] ds[i], inner_max)) by {
                        assert forall|i: int| 0 <= i < k implies item_fits(#[trigger] ds[i], inner_max) by {
                            assert(prefix[i] == ds[i]);
                        }
                    }
                }
                if decoded_items_outcome(ds, inner_max) is Ok {
                    assert forall|i: int| 0 <= i < ds.len() implies item_fits(#[trigger] ds[i], inner_max) by {
                        if i < prefix.len() {
                            assert(prefix[i] == ds[i]);
                        }
                    }
                }
            },
            Err(e) => {
                let k = choose|k: int|
                    0 <= k < prefix.len() && (forall|i: int|
                        0 <= i < k ==> item_fits(#[trigger] prefix[i], inner_max)) && e == match prefix[k] {
                        None => FieldError::InvalidBase64,
                        Some(_) => FieldError::InnerListTooLong,
                    } && !item_fits(prefix[k], inner_max);
                assert(prefix[k] == ds[k]);
                assert forall|i: int| 0 <= i < k implies item_fits(#[trigger] ds[i], inner_max) by {
                    assert(prefix[i] == ds[i]);
                }
                assert(!item_fits(ds[k], inner_max));
            },
        }
    }
}

} // verus!
