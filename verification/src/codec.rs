//! The canonical binary form of the values that records are made of.

use crate::types::{Hash256, PublicKeyBytes};
use ssz::{Decode, Encode};
use vstd::bytes::{
    lemma_auto_spec_u32_to_from_le_bytes, lemma_auto_spec_u64_to_from_le_bytes,
    spec_u32_from_le_bytes, spec_u32_to_le_bytes, spec_u64_from_le_bytes, spec_u64_to_le_bytes,
};
use vstd::prelude::*;

verus! {

/// The error of the `ssz` crate's decoders. Nothing is known of what a value of it
/// holds.
#[verifier::external_type_specification]
#[verifier::external_body]
pub struct ExSszDecodeError(ssz::DecodeError);

/// Calls `<u64 as ssz::Encode>::as_ssz_bytes`, which appends `x.to_le_bytes()` to an
/// empty buffer: the eight bytes of `x`, least significant first.
#[verifier::external_body]
fn ssz_u64_as_bytes(x: u64) -> (out: Vec<u8>)
    ensures
        out@ == spec_u64_to_le_bytes(x),
{
    x.as_ssz_bytes()
}

/// Calls `<u64 as ssz::Decode>::from_ssz_bytes`, which fails unless it is given exactly
/// eight bytes and otherwise reads them as a little-endian integer.
#[verifier::external_body]
fn ssz_u64_from_bytes(bytes: &[u8]) -> (out: Result<u64, ssz::DecodeError>)
    ensures
        out is Ok <==> bytes@.len() == 8,
        out matches Ok(x) ==> x == spec_u64_from_le_bytes(bytes@),
{
    u64::from_ssz_bytes(bytes)
}

/// Calls `<bool as ssz::Encode>::as_ssz_bytes`, which appends the one byte of
/// `(b as u8).to_le_bytes()` to an empty buffer: 1 for `true`, 0 for `false`.
#[verifier::external_body]
fn ssz_bool_as_bytes(b: bool) -> (out: Vec<u8>)
    ensures
        out@ == seq![if b { 1u8 } else { 0u8 }],
{
    b.as_ssz_bytes()
}

/// Calls `<bool as ssz::Decode>::from_ssz_bytes`, which fails unless it is given exactly
/// one byte that is 0 or 1, and otherwise returns whether that byte is 1.
#[verifier::external_body]
fn ssz_bool_from_bytes(bytes: &[u8]) -> (out: Result<bool, ssz::DecodeError>)
    ensures
        out is Ok <==> (bytes@.len() == 1 && bytes@[0] <= 1),
        out matches Ok(b) ==> b == (bytes@[0] == 1),
{
    bool::from_ssz_bytes(bytes)
}

/// Calls `<[u8; 32] as ssz::Encode>::as_ssz_bytes`, which appends the 32 bytes to an
/// empty buffer.
#[verifier::external_body]
fn ssz_bytes32_as_bytes(value: &[u8; 32]) -> (out: Vec<u8>)
    ensures
        out@ == value@,
{
    value.as_ssz_bytes()
}

/// Calls `<[u8; 32] as ssz::Decode>::from_ssz_bytes`, which fails unless it is given
/// exactly 32 bytes and otherwise returns a copy of them.
#[verifier::external_body]
fn ssz_bytes32_from_bytes(bytes: &[u8]) -> (out: Result<[u8; 32], ssz::DecodeError>)
    ensures
        out is Ok <==> bytes@.len() == 32,
        out matches Ok(value) ==> value@ == bytes@,
{
    <[u8; 32]>::from_ssz_bytes(bytes)
}

/// Calls `<[u8; 48] as ssz::Encode>::as_ssz_bytes`, which appends the 48 bytes to an
/// empty buffer.
#[verifier::external_body]
fn ssz_bytes48_as_bytes(value: &[u8; 48]) -> (out: Vec<u8>)
    ensures
        out@ == value@,
{
    value.as_ssz_bytes()
}

/// Calls `<Option<u64> as ssz::Encode>::as_ssz_bytes`, which writes the selector byte 0
/// for `None`, and the selector byte 1 followed by the integer's bytes for `Some`.
#[verifier::external_body]
fn ssz_option_u64_as_bytes(value: Option<u64>) -> (out: Vec<u8>)
    ensures
        out@ == match value {
            None => seq![0u8],
            Some(x) => seq![1u8] + spec_u64_to_le_bytes(x),
        },
{
    value.as_ssz_bytes()
}

/// Calls `<Option<u64> as ssz::Decode>::from_ssz_bytes`. It fails on empty input and on
/// a first byte above 1. A first byte 0 gives `None`, whatever follows it; a first byte 1
/// gives the integer that `u64`'s decoder reads from the rest, which must be eight bytes.
#[verifier::external_body]
fn ssz_option_u64_from_bytes(bytes: &[u8]) -> (out: Result<Option<u64>, ssz::DecodeError>)
    ensures
        out is Ok <==> (bytes@.len() >= 1 && (bytes@[0] == 0 || (bytes@[0] == 1 && bytes@.len()
            == 9))),
        out matches Ok(value) ==> value == if bytes@[0] == 0 {
            None
        } else {
            Some(spec_u64_from_le_bytes(bytes@.subrange(1, 9)))
        },
{
    <Option<u64>>::from_ssz_bytes(bytes)
}

/// Calls `ssz::encode_length`, which returns the low four bytes of `len`, least
/// significant first. In a debug build it panics on a `len` above `u32::MAX`.
#[verifier::external_body]
fn ssz_encode_length(len: usize) -> (out: [u8; 4])
    requires
        len <= u32::MAX,
    ensures
        out@ == spec_u32_to_le_bytes(len as u32),
{
    ssz::encode_length(len)
}

/// Calls `ssz::read_offset`, which fails on fewer than four bytes and otherwise reads
/// the first four as a little-endian `u32`.
#[verifier::external_body]
fn ssz_read_offset(bytes: &[u8]) -> (out: Result<usize, ssz::DecodeError>)
    ensures
        out is Ok <==> bytes@.len() >= 4,
        out matches Ok(offset) ==> offset == spec_u32_from_le_bytes(bytes@.subrange(0, 4)),
{
    ssz::read_offset(bytes)
}

/// How decoding a record from its canonical bytes can fail.
#[derive(Clone, Copy, Debug, PartialEq, Eq)]
pub enum DecodeFailure {
    /// The bytes, or the part of them that holds a fixed-size field, have the wrong length.
    InvalidByteLength { len: usize, expected: usize },
    /// The bytes are too short to hold a length offset.
    InvalidLengthPrefix { len: usize, expected: usize },
    /// A byte that must exist lies beyond the end of the bytes.
    OutOfBoundsByte { i: usize },
    /// An offset points into the fixed-size part of a record.
    OffsetIntoFixedPortion(usize),
    /// The first offset points past the byte that follows the fixed-size part.
    OffsetSkipsVariableBytes(usize),
    /// An offset points beyond the end of the bytes.
    OffsetOutOfBounds(usize),
    /// A byte holds a value outside the range of its field.
    BytesInvalid(u8),
    /// The selector of an optional value is neither "absent" nor "present".
    UnionSelectorInvalid(u8),
}

/// The canonical bytes of an unsigned 64-bit integer.
pub open spec fn spec_encode_u64(x: u64) -> Seq<u8> {
    spec_u64_to_le_bytes(x)
}

/// The integer that canonical bytes stand for, or why they stand for none.
pub open spec fn spec_decode_u64(bytes: Seq<u8>) -> Result<u64, DecodeFailure> {
    if bytes.len() == 8 {
        Ok(spec_u64_from_le_bytes(bytes))
    } else {
        Err(DecodeFailure::InvalidByteLength { len: bytes.len() as usize, expected: 8 })
    }
}

/// Writes an integer in canonical form.
pub fn encode_u64(x: u64) -> (out: Vec<u8>)
    ensures
        out@ == spec_encode_u64(x),
{
    ssz_u64_as_bytes(x)
}

/// Reads an integer from its canonical form, which has eight bytes.
pub fn decode_u64(bytes: &[u8]) -> (r: Result<u64, DecodeFailure>)
    ensures
        r == spec_decode_u64(bytes@),
{
    match ssz_u64_from_bytes(bytes) {
        Ok(x) => Ok(x),
        Err(_) => Err(DecodeFailure::InvalidByteLength { len: bytes.len(), expected: 8 }),
    }
}

/// The canonical byte of a flag.
pub open spec fn spec_encode_bool(b: bool) -> Seq<u8> {
    seq![if b { 1u8 } else { 0u8 }]
}

/// The flag that canonical bytes stand for, or why they stand for none.
pub open spec fn spec_decode_bool(bytes: Seq<u8>) -> Result<bool, DecodeFailure> {
    if bytes.len() != 1 {
        Err(DecodeFailure::InvalidByteLength { len: bytes.len() as usize, expected: 1 })
    } else if bytes[0] == 0 {
        Ok(false)
    } else if bytes[0] == 1 {
        Ok(true)
    } else {
        Err(DecodeFailure::BytesInvalid(bytes[0]))
    }
}

/// Writes a flag in canonical form.
pub fn encode_bool(b: bool) -> (out: Vec<u8>)
    ensures
        out@ == spec_encode_bool(b),
{
    ssz_bool_as_bytes(b)
}

/// Reads a flag from its canonical form, which is one byte, 0 or 1.
pub fn decode_bool(bytes: &[u8]) -> (r: Result<bool, DecodeFailure>)
    ensures
        r == spec_decode_bool(bytes@),
{
    match ssz_bool_from_bytes(bytes) {
        Ok(b) => Ok(b),
        Err(_) => {
            if bytes.len() != 1 {
                Err(DecodeFailure::InvalidByteLength { len: bytes.len(), expected: 1 })
            } else {
                Err(DecodeFailure::BytesInvalid(bytes[0]))
            }
        },
    }
}

/// The hash that canonical bytes stand for, or why they stand for none.
pub open spec fn spec_decode_hash256(bytes: Seq<u8>) -> Result<Hash256, DecodeFailure> {
    if bytes.len() == 32 {
        Ok(spec_hash_of(bytes))
    } else {
        Err(DecodeFailure::InvalidByteLength { len: bytes.len() as usize, expected: 32 })
    }
}

/// Writes a hash in canonical form: the hash's own bytes.
pub fn encode_hash256(value: &Hash256) -> (out: Vec<u8>)
    ensures
        out@ == value@,
{
    ssz_bytes32_as_bytes(value)
}

/// Reads a hash from its canonical form, which has 32 bytes.
pub fn decode_hash256(bytes: &[u8]) -> (r: Result<Hash256, DecodeFailure>)
    ensures
        r == spec_decode_hash256(bytes@),
{
    match ssz_bytes32_from_bytes(bytes) {
        Ok(value) => {
            proof {
                lemma_hash_of(bytes@);
                assert(value =~= spec_hash_of(bytes@));
            }
            Ok(value)
        },
        Err(_) => Err(DecodeFailure::InvalidByteLength { len: bytes.len(), expected: 32 }),
    }
}

/// Writes a public key in canonical form: the key's own bytes.
pub fn encode_public_key(value: &PublicKeyBytes) -> (out: Vec<u8>)
    ensures
        out@ == value@,
{
    ssz_bytes48_as_bytes(value)
}

/// The canonical bytes of an optional integer: a selector byte, then the integer if
/// there is one.
pub open spec fn spec_encode_option_u64(value: Option<u64>) -> Seq<u8> {
    match value {
        None => seq![0u8],
        Some(x) => seq![1u8] + spec_encode_u64(x),
    }
}

/// The optional integer that canonical bytes stand for, or why they stand for none.
/// Bytes that follow the selector of an absent value are not looked at.
pub open spec fn spec_decode_option_u64(bytes: Seq<u8>) -> Result<Option<u64>, DecodeFailure> {
    if bytes.len() == 0 {
        Err(DecodeFailure::OutOfBoundsByte { i: 0 })
    } else if bytes[0] == 0 {
        Ok(None)
    } else if bytes[0] == 1 {
        match spec_decode_u64(bytes.subrange(1, bytes.len() as int)) {
            Ok(x) => Ok(Some(x)),
            Err(e) => Err(e),
        }
    } else {
        Err(DecodeFailure::UnionSelectorInvalid(bytes[0]))
    }
}

/// Writes an optional integer in canonical form.
pub fn encode_option_u64(value: Option<u64>) -> (out: Vec<u8>)
    ensures
        out@ == spec_encode_option_u64(value),
{
    ssz_option_u64_as_bytes(value)
}

/// Reads an optional integer from its canonical form.
pub fn decode_option_u64(bytes: &[u8]) -> (r: Result<Option<u64>, DecodeFailure>)
    ensures
        r == spec_decode_option_u64(bytes@),
{
    match ssz_option_u64_from_bytes(bytes) {
        Ok(value) => {
            assert(bytes@[0] == 1 ==> bytes@.subrange(1, 9) == bytes@.subrange(
                1,
                bytes@.len() as int,
            ));
            Ok(value)
        },
        Err(_) => {
            if bytes.len() == 0 {
                Err(DecodeFailure::OutOfBoundsByte { i: 0 })
            } else if bytes[0] == 1 {
                Err(DecodeFailure::InvalidByteLength { len: bytes.len() - 1, expected: 8 })
            } else {
                Err(DecodeFailure::UnionSelectorInvalid(bytes[0]))
            }
        },
    }
}

/// The largest offset that four bytes can hold.
pub const MAX_OFFSET: usize = 0xffff_ffff;

/// The canonical bytes of an offset into a record.
pub open spec fn spec_encode_offset(offset: usize) -> Seq<u8> {
    spec_u32_to_le_bytes(offset as u32)
}

/// The offset that the first four of `bytes` hold, or why they hold none.
pub open spec fn spec_read_offset(bytes: Seq<u8>) -> Result<usize, DecodeFailure> {
    if bytes.len() >= 4 {
        Ok(spec_u32_from_le_bytes(bytes.subrange(0, 4)) as usize)
    } else {
        Err(DecodeFailure::InvalidLengthPrefix { len: bytes.len() as usize, expected: 4 })
    }
}

/// Writes an offset in canonical form.
pub fn encode_offset(offset: usize) -> (out: [u8; 4])
    requires
        offset <= MAX_OFFSET,
    ensures
        out@ == spec_encode_offset(offset),
{
    ssz_encode_length(offset)
}

/// Reads the offset with which `bytes` begin.
pub fn read_offset(bytes: &[u8]) -> (r: Result<usize, DecodeFailure>)
    ensures
        r == spec_read_offset(bytes@),
{
    match ssz_read_offset(bytes) {
        Ok(offset) => Ok(offset),
        Err(_) => Err(DecodeFailure::InvalidLengthPrefix { len: bytes.len(), expected: 4 }),
    }
}

/// The hash whose bytes are `bytes`, for 32 bytes.
pub closed spec fn spec_hash_of(bytes: Seq<u8>) -> Hash256 {
    choose|h: Hash256| h@ == bytes
}

/// There is exactly one hash for any 32 bytes.
pub proof fn lemma_hash_of(bytes: Seq<u8>)
    requires
        bytes.len() == 32,
    ensures
        spec_hash_of(bytes)@ == bytes,
        forall|h: Hash256| h@ == bytes ==> h == spec_hash_of(bytes),
{
    let h = [
        bytes[0], bytes[1], bytes[2], bytes[3], bytes[4], bytes[5], bytes[6], bytes[7],
        bytes[8], bytes[9], bytes[10], bytes[11], bytes[12], bytes[13], bytes[14], bytes[15],
        bytes[16], bytes[17], bytes[18], bytes[19], bytes[20], bytes[21], bytes[22], bytes[23],
        bytes[24], bytes[25], bytes[26], bytes[27], bytes[28], bytes[29], bytes[30], bytes[31],
    ];
    assert(h@ =~= bytes);
    assert forall|g: Hash256| g@ == bytes implies g == spec_hash_of(bytes) by {
        assert(g =~= spec_hash_of(bytes));
    }
}

/// Encoding an integer and decoding the bytes gives the integer back.
pub proof fn lemma_u64_round_trip(x: u64)
    ensures
        spec_encode_u64(x).len() == 8,
        spec_decode_u64(spec_encode_u64(x)) == Ok::<u64, DecodeFailure>(x),
{
    lemma_auto_spec_u64_to_from_le_bytes();
}

/// Encoding a flag and decoding the byte gives the flag back.
pub proof fn lemma_bool_round_trip(b: bool)
    ensures
        spec_decode_bool(spec_encode_bool(b)) == Ok::<bool, DecodeFailure>(b),
{
}

/// Decoding the bytes of a hash gives the hash back.
pub proof fn lemma_hash256_round_trip(value: Hash256)
    ensures
        spec_decode_hash256(value@) == Ok::<Hash256, DecodeFailure>(value),
{
    lemma_hash_of(value@);
}

/// Encoding an optional integer and decoding the bytes gives it back.
pub proof fn lemma_option_u64_round_trip(value: Option<u64>)
    ensures
        spec_decode_option_u64(spec_encode_option_u64(value)) == Ok::<
            Option<u64>,
            DecodeFailure,
        >(value),
{
    match value {
        None => {},
        Some(x) => {
            lemma_u64_round_trip(x);
            let bytes = spec_encode_option_u64(value);
            assert(bytes.subrange(1, bytes.len() as int) =~= spec_encode_u64(x));
        },
    }
}

/// Reading back an encoded offset gives the offset.
pub proof fn lemma_offset_round_trip(offset: usize)
    requires
        offset <= MAX_OFFSET,
    ensures
        spec_encode_offset(offset).len() == 4,
        spec_read_offset(spec_encode_offset(offset)) == Ok::<usize, DecodeFailure>(offset),
{
    lemma_auto_spec_u32_to_from_le_bytes();
    let bytes = spec_encode_offset(offset);
    assert(bytes.subrange(0, 4) =~= bytes);
}

} // verus!
