use vstd::prelude::*;

use crate::frame::{
    be16, checksum_matches, has_magic, lemma_be16_is_shift_or, lemma_seal_checksum_matches, seal,
    CHECKSUM_OFFSET, MAGIC_FIRST, MAGIC_SECOND, RESPONSE_LENGTH,
};

verus! {

/// A reading from the sensor
#[derive(Clone, Copy, Debug, PartialEq, Eq)]
pub struct Reading {
    /// PM1.0 concentration in µg/m³
    pub pm1: u16,
    /// PM2.5 concentration in µg/m³
    pub pm2_5: u16,
    /// PM10 concentration in µg/m³
    pub pm10: u16,
    /// PM1.0 concentration in µg/m³ under atmospheric environment
    pub env_pm1: u16,
    /// PM2.5 concentration in µg/m³ under atmospheric environment
    pub env_pm2_5: u16,
    /// PM10 concentration in µg/m³ under atmospheric environment
    pub env_pm10: u16,
    /// number of particles with diameter beyond 0.3 µm in 0.1L of air
    pub particles_larger_than_0_3: u16,
    /// number of particles with diameter beyond 0.5 µm in 0.1L of air
    pub particles_larger_than_0_5: u16,
    /// number of particles with diameter beyond 1.0 µm in 0.1L of air
    pub particles_larger_than_1: u16,
    /// number of particles with diameter beyond 2.5 µm in 0.1L of air
    pub particles_larger_than_2_5: u16,
    /// number of particles with diameter beyond 5 µm in 0.1L of air
    pub particles_larger_than_5: u16,
    /// number of particles with diameter beyond 10 µm in 0.1L of air
    pub particles_larger_than_10: u16,
}

impl Reading {
    /// The reading that a frame spells: each field is the big-endian number in
    /// its own two bytes, in raw sensor units.
    pub open spec fn decode(frame: Seq<u8>) -> Reading {
        Reading {
            pm1: be16(frame[4], frame[5]) as u16,
            pm2_5: be16(frame[6], frame[7]) as u16,
            pm10: be16(frame[8], frame[9]) as u16,
            env_pm1: be16(frame[10], frame[11]) as u16,
            env_pm2_5: be16(frame[12], frame[13]) as u16,
            env_pm10: be16(frame[14], frame[15]) as u16,
            particles_larger_than_0_3: be16(frame[16], frame[17]) as u16,
            particles_larger_than_0_5: be16(frame[18], frame[19]) as u16,
            particles_larger_than_1: be16(frame[20], frame[21]) as u16,
            particles_larger_than_2_5: be16(frame[22], frame[23]) as u16,
            particles_larger_than_5: be16(frame[24], frame[25]) as u16,
            particles_larger_than_10: be16(frame[26], frame[27]) as u16,
        }
    }
}

/// The number in the two bytes of a frame that begin at `offset`, as the high
/// byte shifted left by eight, or-ed with the low byte.
pub open spec fn slot(frame: Seq<u8>, offset: int) -> u16 {
    ((frame[offset] as u16) << 8) | (frame[offset + 1] as u16)
}

/// Each field of a decoded frame is the number in its own two bytes, high
/// byte first, and in no others.
pub proof fn lemma_decode_reads_each_slot(frame: Seq<u8>)
    ensures
        Reading::decode(frame).pm1 == slot(frame, 4),
        Reading::decode(frame).pm2_5 == slot(frame, 6),
        Reading::decode(frame).pm10 == slot(frame, 8),
        Reading::decode(frame).env_pm1 == slot(frame, 10),
        Reading::decode(frame).env_pm2_5 == slot(frame, 12),
        Reading::decode(frame).env_pm10 == slot(frame, 14),
        Reading::decode(frame).particles_larger_than_0_3 == slot(frame, 16),
        Reading::decode(frame).particles_larger_than_0_5 == slot(frame, 18),
        Reading::decode(frame).particles_larger_than_1 == slot(frame, 20),
        Reading::decode(frame).particles_larger_than_2_5 == slot(frame, 22),
        Reading::decode(frame).particles_larger_than_5 == slot(frame, 24),
        Reading::decode(frame).particles_larger_than_10 == slot(frame, 26),
{
    lemma_be16_is_shift_or(frame[4], frame[5]);
    lemma_be16_is_shift_or(frame[6], frame[7]);
    lemma_be16_is_shift_or(frame[8], frame[9]);
    lemma_be16_is_shift_or(frame[10], frame[11]);
    lemma_be16_is_shift_or(frame[12], frame[13]);
    lemma_be16_is_shift_or(frame[14], frame[15]);
    lemma_be16_is_shift_or(frame[16], frame[17]);
    lemma_be16_is_shift_or(frame[18], frame[19]);
    lemma_be16_is_shift_or(frame[20], frame[21]);
    lemma_be16_is_shift_or(frame[22], frame[23]);
    lemma_be16_is_shift_or(frame[24], frame[25]);
    lemma_be16_is_shift_or(frame[26], frame[27]);
}

/// Round trip: thirty bytes that begin with the start-of-frame bytes, sealed
/// with their checksum, make a frame that passes both checks and decodes to
/// the fields that the thirty bytes hold.
pub proof fn lemma_sealed_frame_round_trip(prefix: Seq<u8>)
    requires
        prefix.len() == CHECKSUM_OFFSET,
        prefix[0] == MAGIC_FIRST,
        prefix[1] == MAGIC_SECOND,
    ensures
        seal(prefix).len() == RESPONSE_LENGTH,
        has_magic(seal(prefix)),
        checksum_matches(seal(prefix)),
        Reading::decode(seal(prefix)) == Reading::decode(prefix),
{
    lemma_seal_checksum_matches(prefix);
}

/// Reads two bytes as one big-endian 16-bit number.
pub(crate) fn u16_from_be(hi: u8, lo: u8) -> (value: u16)
    ensures
        value == be16(hi, lo),
{
    (hi as u16) * 256 + (lo as u16)
}

impl vstd::std_specs::convert::FromSpecImpl<[u8; RESPONSE_LENGTH]> for Reading {
    open spec fn obeys_from_spec() -> bool {
        true
    }

    open spec fn from_spec(value: [u8; RESPONSE_LENGTH]) -> Reading {
        Reading::decode(value@)
    }
}

impl From<[u8; RESPONSE_LENGTH]> for Reading {
    /// Decodes the twelve measurement fields of a frame. Total: the start of
    /// frame and the checksum are not looked at.
    fn from(value: [u8; RESPONSE_LENGTH]) -> (reading: Reading)
        ensures
            reading == Reading::decode(value@),
    {
        Reading {
            pm1: u16_from_be(value[4], value[5]),
            pm2_5: u16_from_be(value[6], value[7]),
            pm10: u16_from_be(value[8], value[9]),
            env_pm1: u16_from_be(value[10], value[11]),
            env_pm2_5: u16_from_be(value[12], value[13]),
            env_pm10: u16_from_be(value[14], value[15]),
            particles_larger_than_0_3: u16_from_be(value[16], value[17]),
            particles_larger_than_0_5: u16_from_be(value[18], value[19]),
            particles_larger_than_1: u16_from_be(value[20], value[21]),
            particles_larger_than_2_5: u16_from_be(value[22], value[23]),
            particles_larger_than_5: u16_from_be(value[24], value[25]),
            particles_larger_than_10: u16_from_be(value[26], value[27]),
        }
    }
}

} // verus!
