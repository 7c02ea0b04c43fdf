//! The bit layout of the two header fields that carry the probe's state.
//!
//! * total length: `128`, and in bits 1..=6 the six high bits of the send time;
//! * identification: the hop limit's five low bits in bits 0..=4, the phase in
//!   bit 5, and in bits 6..=15 the ten low bits of the send time.
//!
//! The send time is written only where the encoder is configured to embed it.

use vstd::prelude::*;

verus! {

/// The size of every probe before any send time is folded into it.
pub const BASE_TOTAL_LENGTH: u16 = 128;

/// One of the two measurement rounds.
#[derive(Clone, Copy, Debug, PartialEq, Eq, Structural)]
pub enum ProbePhase {
    Pre,
    Main,
}

impl ProbePhase {
    /// The phase as the single bit that is written into the identification.
    pub open spec fn bit_spec(self) -> u16 {
        match self {
            ProbePhase::Pre => 0,
            ProbePhase::Main => 1,
        }
    }

    #[verifier::when_used_as_spec(bit_spec)]
    pub fn bit(self) -> (b: u16)
        ensures
            b == self.bit_spec(),
    {
        match self {
            ProbePhase::Pre => 0,
            ProbePhase::Main => 1,
        }
    }
}

/// The total length of a probe sent at `timestamp`.
pub open spec fn total_length_spec(embed: bool, timestamp: u16) -> u16 {
    if embed {
        128u16 | (((timestamp >> 10) & 0x3F) << 1)
    } else {
        128u16
    }
}

/// The identification of a probe with hop limit `ttl`, sent at `timestamp`.
pub open spec fn identification_spec(ttl: u8, phase: ProbePhase, embed: bool, timestamp: u16) -> u16 {
    let low: u16 = (ttl as u16 & 0x1F) | (phase.bit_spec() << 5);
    if embed {
        low | ((timestamp & 0x3FF) << 6)
    } else {
        low
    }
}

/// The hop limit's low bits, read back from an identification.
pub open spec fn decoded_hop(identification: u16) -> u16 {
    identification & 0x1F
}

/// The phase bit, read back from an identification.
pub open spec fn decoded_phase_bit(identification: u16) -> u16 {
    (identification >> 5) & 0x1
}

/// The ten bits of send time that an identification holds.
pub open spec fn decoded_time_low(identification: u16) -> u16 {
    identification >> 6
}

/// The six bits of send time that a total length holds.
pub open spec fn decoded_time_high(total_length: u16) -> u16 {
    (total_length >> 1) & 0x3F
}

/// The send time, put together again from the two fields.
pub open spec fn decoded_timestamp(total_length: u16, identification: u16) -> u16 {
    (decoded_time_high(total_length) << 10) | decoded_time_low(identification)
}

/// Computes the total length of a probe sent at `timestamp`.
pub fn total_length(embed: bool, timestamp: u16) -> (size: u16)
    ensures
        size == total_length_spec(embed, timestamp),
        128 <= size <= 254,
        !embed ==> size == 128,
{
    let mut size: u16 = BASE_TOTAL_LENGTH;
    if embed {
        size |= ((timestamp >> 10) & 0x3F) << 1;
    }
    proof {
        total_length_bounds(embed, timestamp);
    }
    size
}

/// Computes the identification of a probe with hop limit `ttl`, sent at
/// `timestamp`.
pub fn identification(ttl: u8, phase: ProbePhase, embed: bool, timestamp: u16) -> (id: u16)
    ensures
        id == identification_spec(ttl, phase, embed, timestamp),
{
    let mut id: u16 = (ttl as u16 & 0x1F) | ((phase.bit() & 0x1) << 5);
    proof {
        let b = phase.bit_spec();
        assert(b == 0 || b == 1);
        assert((b & 0x1) == b) by (bit_vector)
            requires
                b == 0 || b == 1,
        ;
    }
    if embed {
        id |= (timestamp & 0x3FF) << 6;
    }
    id
}

/// Whatever the hop limit, the phase and the send time, and whether or not the
/// send time is embedded, bits 0..=4 of the identification are the hop limit's
/// five low bits and bit 5 is the phase.
pub proof fn identification_carries_hop_and_phase(
    ttl: u8,
    phase: ProbePhase,
    embed: bool,
    timestamp: u16,
)
    ensures
        decoded_hop(identification_spec(ttl, phase, embed, timestamp)) == ttl as u16 & 0x1F,
        decoded_hop(identification_spec(ttl, phase, embed, timestamp)) == ttl as u16 % 32,
        decoded_phase_bit(identification_spec(ttl, phase, embed, timestamp)) == phase.bit_spec(),
{
    let t: u16 = ttl as u16;
    let b: u16 = phase.bit_spec();
    assert(b == 0 || b == 1);
    assert(t & 0x1F == t % 32) by (bit_vector);
    assert(((t & 0x1F) | (b << 5)) & 0x1F == t & 0x1F) by (bit_vector)
        requires
            b == 0 || b == 1,
    ;
    assert((((t & 0x1F) | (b << 5)) >> 5) & 0x1 == b) by (bit_vector)
        requires
            b == 0 || b == 1,
    ;
    assert((((t & 0x1F) | (b << 5)) | ((timestamp & 0x3FF) << 6)) & 0x1F == t & 0x1F)
        by (bit_vector)
        requires
            b == 0 || b == 1,
    ;
    assert(((((t & 0x1F) | (b << 5)) | ((timestamp & 0x3FF) << 6)) >> 5) & 0x1 == b)
        by (bit_vector)
        requires
            b == 0 || b == 1,
    ;
}

/// With the send time embedded, the six bits in the total length and the ten
/// bits in the identification give back all sixteen bits of the send time.
pub proof fn timestamp_round_trip(ttl: u8, phase: ProbePhase, timestamp: u16)
    ensures
        decoded_timestamp(
            total_length_spec(true, timestamp),
            identification_spec(ttl, phase, true, timestamp),
        ) == timestamp,
        decoded_time_high(total_length_spec(true, timestamp)) == timestamp >> 10,
        decoded_time_low(identification_spec(ttl, phase, true, timestamp)) == timestamp & 0x3FF,
{
    let t: u16 = ttl as u16;
    let b: u16 = phase.bit_spec();
    assert(b == 0 || b == 1);
    assert(((128u16 | (((timestamp >> 10) & 0x3F) << 1)) >> 1) & 0x3F == timestamp >> 10)
        by (bit_vector);
    assert((((t & 0x1F) | (b << 5)) | ((timestamp & 0x3FF) << 6)) >> 6 == timestamp & 0x3FF)
        by (bit_vector)
        requires
            b == 0 || b == 1,
    ;
    assert(((timestamp >> 10) << 10) | (timestamp & 0x3FF) == timestamp) by (bit_vector);
}

/// Without the send time, the total length is 128 and bits 6..=15 of the
/// identification are clear.
pub proof fn fields_without_timestamp(ttl: u8, phase: ProbePhase, timestamp: u16)
    ensures
        total_length_spec(false, timestamp) == 128,
        decoded_time_low(identification_spec(ttl, phase, false, timestamp)) == 0,
        identification_spec(ttl, phase, false, timestamp) < 64,
{
    let t: u16 = ttl as u16;
    let b: u16 = phase.bit_spec();
    assert(b == 0 || b == 1);
    assert(((t & 0x1F) | (b << 5)) >> 6 == 0 && ((t & 0x1F) | (b << 5)) < 64) by (bit_vector)
        requires
            b == 0 || b == 1,
    ;
}

/// The total length is even and lies between 128 and 254; it is 128 where the
/// send time is not embedded.
pub proof fn total_length_bounds(embed: bool, timestamp: u16)
    ensures
        128 <= total_length_spec(embed, timestamp) <= 254,
        total_length_spec(embed, timestamp) % 2 == 0,
        !embed ==> total_length_spec(embed, timestamp) == 128,
{
    let s: u16 = 128u16 | (((timestamp >> 10) & 0x3F) << 1);
    assert(128 <= s && s <= 254 && s % 2 == 0) by (bit_vector)
        requires
            s == 128u16 | (((timestamp >> 10) & 0x3F) << 1),
    ;
}

} // verus!
