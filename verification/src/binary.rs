use vstd::prelude::*;

verus! {

/// Bytes of `v` in little-endian order, least significant byte first.
pub open spec fn u64_le_bytes(v: u64) -> Seq<u8> {
    seq![
        v as u8,
        (v >> 8u64) as u8,
        (v >> 16u64) as u8,
        (v >> 24u64) as u8,
        (v >> 32u64) as u8,
        (v >> 40u64) as u8,
        (v >> 48u64) as u8,
        (v >> 56u64) as u8,
    ]
}

/// The `u64` whose little-endian bytes are the first eight of `b`.
pub open spec fn u64_from_le(b: Seq<u8>) -> u64
    recommends
        b.len() >= 8,
{
    (b[0] as u64) | ((b[1] as u64) << 8u64) | ((b[2] as u64) << 16u64) | ((b[3] as u64)
        << 24u64) | ((b[4] as u64) << 32u64) | ((b[5] as u64) << 40u64) | ((b[6] as u64)
        << 48u64) | ((b[7] as u64) << 56u64)
}

/// Two's-complement little-endian bytes of an `i64`.
pub open spec fn i64_le_bytes(v: i64) -> Seq<u8> {
    u64_le_bytes(v as u64)
}

/// The `i64` read from the first eight bytes of `b`, little-endian.
pub open spec fn i64_from_le(b: Seq<u8>) -> i64
    recommends
        b.len() >= 8,
{
    u64_from_le(b) as i64
}

proof fn lemma_u64_bytes_roundtrip(v: u64)
    ensures
        u64_from_le(u64_le_bytes(v)) == v,
{
    let b = u64_le_bytes(v);
    let (b0, b1, b2, b3, b4, b5, b6, b7) = (b[0], b[1], b[2], b[3], b[4], b[5], b[6], b[7]);
    assert(b0 == v as u8 && b1 == (v >> 8u64) as u8 && b2 == (v >> 16u64) as u8 && b3 == (v
        >> 24u64) as u8 && b4 == (v >> 32u64) as u8 && b5 == (v >> 40u64) as u8 && b6 == (v
        >> 48u64) as u8 && b7 == (v >> 56u64) as u8);
    assert((b0 as u64) | ((b1 as u64) << 8u64) | ((b2 as u64) << 16u64) | ((b3 as u64) << 24u64)
        | ((b4 as u64) << 32u64) | ((b5 as u64) << 40u64) | ((b6 as u64) << 48u64) | ((b7 as u64)
        << 56u64) == v) by (bit_vector)
        requires
            b0 == v as u8,
            b1 == (v >> 8u64) as u8,
            b2 == (v >> 16u64) as u8,
            b3 == (v >> 24u64) as u8,
            b4 == (v >> 32u64) as u8,
            b5 == (v >> 40u64) as u8,
            b6 == (v >> 48u64) as u8,
            b7 == (v >> 56u64) as u8,
    ;
}

/// Decoding the encoding of an `i64` gives the value back.
pub proof fn law_decode_after_encode(v: i64)
    ensures
        i64_le_bytes(v).len() == 8,
        i64_from_le(i64_le_bytes(v)) == v,
{
    lemma_u64_bytes_roundtrip(v as u64);
    assert(((v as u64) as i64) == v) by (bit_vector);
}

/// Decoding any eight or more bytes and encoding the value again gives back
/// the first eight bytes.
pub proof fn law_encode_after_decode(b: Seq<u8>)
    requires
        b.len() >= 8,
    ensures
        i64_le_bytes(i64_from_le(b)) =~= b.take(8),
{
    let (b0, b1, b2, b3, b4, b5, b6, b7) = (b[0], b[1], b[2], b[3], b[4], b[5], b[6], b[7]);
    let v: u64 = u64_from_le(b);
    assert(v == (b0 as u64) | ((b1 as u64) << 8u64) | ((b2 as u64) << 16u64) | ((b3 as u64)
        << 24u64) | ((b4 as u64) << 32u64) | ((b5 as u64) << 40u64) | ((b6 as u64) << 48u64) | ((
    b7 as u64) << 56u64));
    assert(v as u8 == b0 && (v >> 8u64) as u8 == b1 && (v >> 16u64) as u8 == b2 && (v >> 24u64)
        as u8 == b3 && (v >> 32u64) as u8 == b4 && (v >> 40u64) as u8 == b5 && (v >> 48u64)
        as u8 == b6 && (v >> 56u64) as u8 == b7) by (bit_vector)
        requires
            v == (b0 as u64) | ((b1 as u64) << 8u64) | ((b2 as u64) << 16u64) | ((b3 as u64)
                << 24u64) | ((b4 as u64) << 32u64) | ((b5 as u64) << 40u64) | ((b6 as u64)
                << 48u64) | ((b7 as u64) << 56u64),
    ;
    assert(((v as i64) as u64) == v) by (bit_vector);
}

/// Bytes after the first eight do not change the value read.
pub proof fn law_trailing_bytes_ignored(b: Seq<u8>, extra: Seq<u8>)
    requires
        b.len() >= 8,
    ensures
        i64_from_le(b + extra) == i64_from_le(b),
{
    assert forall|i: int| 0 <= i < 8 implies (b + extra)[i] == b[i] by {}
}

/// Why a message could not be decoded.
#[derive(Debug, PartialEq, Eq)]
pub enum BinaryError {
    /// The bytes ran out before the value was complete; bincode reports this
    /// as an I/O error (unexpected end of input).
    Io,
}

/// A value that travels between client and server as bytes.
pub trait Binary: Sized {
    /// Reads a value from the bytes of a message.
    fn from_binary(buf: &Vec<u8>) -> Result<Self, BinaryError>;

    /// Writes the value as the bytes of a message.
    fn to_binary(&self) -> Result<Vec<u8>, BinaryError>;
}

#[verifier::external_type_specification]
#[verifier::external_body]
pub struct ExBincodeErrorKind(bincode::ErrorKind);

/// Calls `bincode::serialize` on an `i64`. With the configuration of that
/// function (fixed-width integers, little-endian, no size limit) the value is
/// written as its eight two's-complement bytes, least significant first, and
/// writing into a growing vector never fails.
#[verifier::external_body]
pub(crate) fn bincode_serialize_i64(v: i64) -> (r: Result<Vec<u8>, Box<bincode::ErrorKind>>)
    ensures
        r is Ok,
        r matches Ok(bytes) ==> bytes@ == i64_le_bytes(v),
{
    bincode::serialize(&v)
}

/// Calls `bincode::deserialize` for an `i64`. That function reads a fixed-width
/// little-endian integer from the front of the slice and accepts trailing
/// bytes; it fails exactly when fewer than eight bytes are given.
#[verifier::external_body]
pub(crate) fn bincode_deserialize_i64(bytes: &[u8]) -> (r: Result<i64, Box<bincode::ErrorKind>>)
    ensures
        r is Ok <==> bytes@.len() >= 8,
        r matches Ok(v) ==> v == i64_from_le(bytes@),
{
    bincode::deserialize(bytes)
}

} // verus!
