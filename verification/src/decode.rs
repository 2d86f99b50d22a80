//! Byte-level decoding primitives: hexadecimal, standard base64 and decimal
//! integers. Hex and decimal decoding are specified completely; base64
//! decoding is delegated to the `base64` crate and named.

use base64::Engine;
use vstd::prelude::*;
use vstd::string::StringSliceAdditionalSpecFns;

verus! {

#[verifier::external_type_specification]
#[verifier::external_body]
pub struct ExFromHexError(hex::FromHexError);

#[verifier::external_type_specification]
#[verifier::external_body]
pub struct ExBase64DecodeError(base64::DecodeError);

#[verifier::external_type_specification]
#[verifier::external_body]
pub struct ExParseIntError(core::num::ParseIntError);

/// The value of one hexadecimal digit (either case), if `c` is one.
pub open spec fn hex_digit_value(c: u8) -> Option<u8> {
    if 48 <= c && c <= 57 {
        Some((c - 48) as u8)
    } else if 97 <= c && c <= 102 {
        Some((c - 87) as u8)
    } else if 65 <= c && c <= 70 {
        Some((c - 55) as u8)
    } else {
        None
    }
}

/// `s` is an even number of hexadecimal digits.
pub open spec fn is_hex_encoding(s: Seq<u8>) -> bool {
    &&& s.len() % 2 == 0
    &&& forall|i: int| 0 <= i < s.len() ==> (#[trigger] hex_digit_value(s[i])) is Some
}

/// The bytes that the digit pairs of `s` stand for, high nibble first.
pub open spec fn hex_decoding(s: Seq<u8>) -> Seq<u8> {
    Seq::new(
        s.len() / 2,
        |i: int|
            (hex_digit_value(s[2 * i])->0 * 16 + hex_digit_value(s[2 * i + 1])->0) as u8,
    )
}

/// Hex decoding of `s`: `None` when `s` is not a hex encoding.
pub open spec fn hex_decoded(s: Seq<u8>) -> Option<Seq<u8>> {
    if is_hex_encoding(s) {
        Some(hex_decoding(s))
    } else {
        None
    }
}

/// Calls `hex::decode`. Its source accepts exactly an even-length sequence of
/// hex digits (upper or lower case) and returns one byte per digit pair, high
/// nibble first; anything else is an error (`OddLength` or
/// `InvalidHexCharacter`). The contract states that; which of the two errors
/// comes is left unsaid.
#[verifier::external_body]
pub(crate) fn hex_decode(data: &[u8]) -> (r: Result<Vec<u8>, hex::FromHexError>)
    ensures
        r is Ok <==> is_hex_encoding(data@),
        r matches Ok(v) ==> v@ == hex_decoding(data@),
{
    hex::decode(data)
}

/// What `base64::engine::general_purpose::STANDARD.decode` returns for an
/// input: `None` where it reports an error.
pub uninterp spec fn base64_standard_decoded(input: Seq<u8>) -> Option<Seq<u8>>;

/// Calls `STANDARD.decode` of the `base64` crate (RFC 4648 alphabet, padding
/// required). The contract only ties the result to the input through the
/// name `base64_standard_decoded`: the decoder is deterministic.
#[verifier::external_body]
pub(crate) fn base64_decode(input: &[u8]) -> (r: Result<Vec<u8>, base64::DecodeError>)
    ensures
        r is Ok <==> base64_standard_decoded(input@) is Some,
        r matches Ok(v) ==> base64_standard_decoded(input@) == Some(v@),
{
    base64::engine::general_purpose::STANDARD.decode(input)
}

/// What `base64::engine::general_purpose::STANDARD.encode` returns for an input.
pub uninterp spec fn base64_standard_encoded(input: Seq<u8>) -> Seq<char>;

/// Calls `STANDARD.encode` of the `base64` crate; the result is named by
/// `base64_standard_encoded`.
#[verifier::external_body]
pub(crate) fn base64_encode(input: &[u8]) -> (r: String)
    ensures
        r@ == base64_standard_encoded(input@),
{
    base64::engine::general_purpose::STANDARD.encode(input)
}

/// ASCII decimal digit.
pub open spec fn is_ascii_digit(c: u8) -> bool {
    48 <= c && c <= 57
}

/// The digits of an unsigned integer literal: an optional leading `+` is dropped.
pub open spec fn unsigned_digits(s: Seq<u8>) -> Seq<u8> {
    if s.len() > 0 && s[0] == 43 {
        s.drop_first()
    } else {
        s
    }
}

/// `s` is an optional `+` followed by at least one ASCII digit and nothing else.
pub open spec fn is_unsigned_decimal(s: Seq<u8>) -> bool {
    let d = unsigned_digits(s);
    &&& d.len() > 0
    &&& forall|i: int| 0 <= i < d.len() ==> is_ascii_digit(#[trigger] d[i])
}

/// The number that a sequence of ASCII digits stands for.
pub open spec fn decimal_value(d: Seq<u8>) -> nat
    decreases d.len(),
{
    if d.len() == 0 {
        0
    } else {
        decimal_value(d.drop_last()) * 10 + (d.last() - 48) as nat
    }
}

/// Calls `str::parse::<u64>`. Its documentation: the string is an optional
/// `+` followed by digits only, and the value must fit in the type; anything
/// else is an error.
#[verifier::external_body]
pub(crate) fn parse_u64(s: &str) -> (r: Result<u64, core::num::ParseIntError>)
    ensures
        r is Ok <==> (is_unsigned_decimal(s.spec_bytes()) && decimal_value(unsigned_digits(s.spec_bytes())) <= u64::MAX),
        r matches Ok(v) ==> v == decimal_value(unsigned_digits(s.spec_bytes())),
{
    s.parse::<u64>()
}

/// Calls `str::parse::<usize>`, with the same documented grammar as for `u64`.
#[verifier::external_body]
pub(crate) fn parse_usize(s: &str) -> (r: Result<usize, core::num::ParseIntError>)
    ensures
        r is Ok <==> (is_unsigned_decimal(s.spec_bytes()) && decimal_value(unsigned_digits(s.spec_bytes())) <= usize::MAX),
        r matches Ok(v) ==> v == decimal_value(unsigned_digits(s.spec_bytes())),
{
    s.parse::<usize>()
}

/// `b` with a leading `0x` removed, if it has one.
pub open spec fn without_0x(b: Seq<u8>) -> Seq<u8> {
    if b.len() >= 2 && b[0] == 48 && b[1] == 120 {
        b.subrange(2, b.len() as int)
    } else {
        b
    }
}

/// Whether `b` starts with `0x`.
pub open spec fn has_0x(b: Seq<u8>) -> bool {
    b.len() >= 2 && b[0] == 48 && b[1] == 120
}

/// Drops a leading `0x` from `b`, if there is one.
pub fn strip_0x(b: &[u8]) -> (r: &[u8])
    ensures
        r@ == without_0x(b@),
{
    if b.len() >= 2 && b[0] == 48 && b[1] == 120 {
        &b[2..b.len()]
    } else {
        b
    }
}

} // verus!
