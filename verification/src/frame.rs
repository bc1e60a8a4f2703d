//! The wire format of one sensor response, as mathematics.
//!
//! ```text
//! offset  0..2   start of frame, 0x42 0x4d
//! offset  2..4   declared frame length (not interpreted)
//! offset  4..28  twelve big-endian 16-bit measurement fields
//! offset 28..30  reserved (not interpreted)
//! offset 30..32  checksum: sum of bytes 0..30 modulo 65536, big-endian
//! ```
//!
//! A frame is modelled as a `Seq<u8>`; the executable code holds it as
//! `[u8; RESPONSE_LENGTH]`, whose view is that sequence.

use vstd::prelude::*;

verus! {

/// Number of bytes in one response of the sensor.
pub const RESPONSE_LENGTH: usize = 32;

/// Number of leading bytes that the checksum covers.
pub const CHECKSUM_OFFSET: usize = 30;

/// First byte of every frame.
pub const MAGIC_FIRST: u8 = 0x42;

/// Second byte of every frame.
pub const MAGIC_SECOND: u8 = 0x4d;

/// The number that the bytes `hi`, `lo` spell in big-endian order.
pub open spec fn be16(hi: u8, lo: u8) -> int {
    hi as int * 256 + lo as int
}

/// The sum of all bytes of `bytes`, without any wraparound.
pub open spec fn byte_sum(bytes: Seq<u8>) -> int
    decreases bytes.len(),
{
    if bytes.len() == 0 {
        0
    } else {
        byte_sum(bytes.drop_last()) + bytes.last() as int
    }
}

/// The checksum of `bytes`: their sum in a 16-bit accumulator that wraps.
pub open spec fn checksum16(bytes: Seq<u8>) -> int {
    byte_sum(bytes) % 0x1_0000
}

/// The part of a frame that its checksum covers.
pub open spec fn covered(frame: Seq<u8>) -> Seq<u8> {
    frame.subrange(0, CHECKSUM_OFFSET as int)
}

/// The frame begins with the two start-of-frame bytes.
pub open spec fn has_magic(frame: Seq<u8>) -> bool {
    frame[0] == MAGIC_FIRST && frame[1] == MAGIC_SECOND
}

/// The last two bytes of the frame spell the checksum of the bytes before
/// them.
pub open spec fn checksum_matches(frame: Seq<u8>) -> bool {
    checksum16(covered(frame)) == be16(frame[30], frame[31])
}

/// The frame made of `prefix` followed by the checksum of `prefix`, high byte
/// first.
pub open spec fn seal(prefix: Seq<u8>) -> Seq<u8> {
    prefix.push((checksum16(prefix) / 256) as u8).push((checksum16(prefix) % 256) as u8)
}

/// Two bytes spell a number that fits in 16 bits: the high byte shifted left
/// by eight, or-ed with the low byte.
pub proof fn lemma_be16_is_shift_or(hi: u8, lo: u8)
    ensures
        0 <= be16(hi, lo) <= u16::MAX,
        be16(hi, lo) == ((hi as u16) << 8) | (lo as u16),
{
    assert((hi as u16) * 256 + (lo as u16) == ((hi as u16) << 8) | (lo as u16)) by (bit_vector);
}

/// Byte pairs that spell the same number are the same pair.
pub proof fn lemma_be16_injective(hi: u8, lo: u8, other_hi: u8, other_lo: u8)
    requires
        be16(hi, lo) == be16(other_hi, other_lo),
    ensures
        hi == other_hi,
        lo == other_lo,
{
}

/// A sum of bytes is never negative and at most 255 per byte.
pub proof fn lemma_byte_sum_bounds(bytes: Seq<u8>)
    ensures
        0 <= byte_sum(bytes) <= 255 * bytes.len(),
    decreases bytes.len(),
{
    if bytes.len() > 0 {
        lemma_byte_sum_bounds(bytes.drop_last());
    }
}

/// The checksum of the covered part of a frame is the plain sum of those
/// bytes: thirty bytes cannot make a 16-bit accumulator wrap.
pub proof fn lemma_checksum_never_wraps(frame: Seq<u8>)
    requires
        frame.len() == RESPONSE_LENGTH,
    ensures
        checksum16(covered(frame)) == byte_sum(covered(frame)),
        checksum16(covered(frame)) <= 255 * CHECKSUM_OFFSET,
{
    lemma_byte_sum_bounds(covered(frame));
}

/// Sealing any thirty bytes gives a frame of full length that keeps those
/// bytes in place and whose checksum matches.
pub proof fn lemma_seal_checksum_matches(prefix: Seq<u8>)
    requires
        prefix.len() == CHECKSUM_OFFSET,
    ensures
        seal(prefix).len() == RESPONSE_LENGTH,
        covered(seal(prefix)) == prefix,
        checksum_matches(seal(prefix)),
{
    lemma_byte_sum_bounds(prefix);
    assert(covered(seal(prefix)) =~= prefix);
}

/// Among the frames that share their first thirty bytes, the checksum matches
/// for exactly one: the one whose last two bytes spell the sum of the others.
/// Any other pair of trailing bytes fails the check.
pub proof fn lemma_only_the_true_checksum_matches(frame: Seq<u8>)
    requires
        frame.len() == RESPONSE_LENGTH,
    ensures
        checksum_matches(frame) <==> frame == seal(covered(frame)),
{
    let sealed = seal(covered(frame));
    lemma_seal_checksum_matches(covered(frame));
    if checksum_matches(frame) {
        lemma_be16_injective(frame[30], frame[31], sealed[30], sealed[31]);
        assert(frame =~= sealed);
    }
}

} // verus!
