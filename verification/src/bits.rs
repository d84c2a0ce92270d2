//! Bit-granular reads of a byte slice, most significant bit first.

use bitreader::BitReader;
use vstd::prelude::*;

verus! {

/// `bitreader::BitReader`, carried as an opaque value: what it reads from and
/// how far it has read go by the two names below.
#[verifier::external_type_specification]
#[verifier::external_body]
pub struct ExBitReader<'a>(BitReader<'a>);

/// The bytes that a bit reader was made over.
pub uninterp spec fn reader_bytes(reader: BitReader) -> Seq<u8>;

/// The number of bits that a bit reader has handed out so far.
pub uninterp spec fn reader_position(reader: BitReader) -> nat;

/// The weight of bit `index` within its byte: bit 0 is the most significant one.
pub open spec fn bit_weight(index: int) -> int {
    let place = index % 8;
    if place == 0 {
        128
    } else if place == 1 {
        64
    } else if place == 2 {
        32
    } else if place == 3 {
        16
    } else if place == 4 {
        8
    } else if place == 5 {
        4
    } else if place == 6 {
        2
    } else {
        1
    }
}

/// Bit `index` of `bytes`, counted from the most significant bit of the first byte.
pub open spec fn bit_at(bytes: Seq<u8>, index: int) -> int {
    (bytes[index / 8] as int / bit_weight(index)) % 2
}

/// The number that the `count` bits from bit `start` on spell, the first of them
/// being the most significant.
pub open spec fn bits_value(bytes: Seq<u8>, start: int, count: nat) -> int
    decreases count,
{
    if count == 0 {
        0
    } else {
        2 * bits_value(bytes, start, (count - 1) as nat) + bit_at(bytes, start + count - 1)
    }
}

/// `BitReader::new`: a reader over `bytes` that has handed out nothing yet.
/// The crate counts the slice's bits in a `u64`, hence the bound on its length.
#[verifier::external_body]
pub(crate) fn bit_reader<'a>(bytes: &'a [u8]) -> (reader: BitReader<'a>)
    requires
        bytes@.len() < 0x2000_0000_0000_0000,
    ensures
        reader_bytes(reader) == bytes@,
        reader_position(reader) == 0,
{
    BitReader::new(bytes)
}

/// `BitReader::read_u8`: the next `bit_count` bits as a number. The read fails,
/// and moves nothing, when more than eight bits are asked for or fewer than
/// `bit_count` are left; a read of no bits gives zero.
#[verifier::external_body]
pub(crate) fn read_u8(reader: &mut BitReader, bit_count: u8) -> (value: Option<u8>)
    ensures
        reader_bytes(*final(reader)) == reader_bytes(*old(reader)),
        value is Some <==> bit_count == 0 || (bit_count <= 8 && reader_position(*old(reader))
            + bit_count <= 8 * reader_bytes(*old(reader)).len()),
        value is Some ==> value.unwrap() == bits_value(
            reader_bytes(*old(reader)),
            reader_position(*old(reader)) as int,
            bit_count as nat,
        ) && reader_position(*final(reader)) == reader_position(*old(reader)) + bit_count,
        value is None ==> reader_position(*final(reader)) == reader_position(*old(reader)),
{
    reader.read_u8(bit_count).ok()
}

} // verus!
