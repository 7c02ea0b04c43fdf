//! What a finished probe looks like, byte by byte.

use vstd::prelude::*;
use crate::fields::{
    decoded_hop, decoded_phase_bit, decoded_timestamp, identification_carries_hop_and_phase,
    identification_spec, timestamp_round_trip, total_length_bounds, total_length_spec, ProbePhase,
};
use crate::wire::{high_byte, low_byte, read_u16, read_u16_of_written};

verus! {

/// The size of the IPv4 header of a probe, which has no options.
pub const IPV4_HEADER_LENGTH: u16 = 20;

/// The size of a UDP header.
pub const UDP_HEADER_LENGTH: u16 = 8;

/// The UDP source port of every probe.
pub const SOURCE_PORT: u16 = 8888;

/// The number that IPv4 gives to UDP.
pub const PROTOCOL_UDP: u8 = 17;

/// An address of four octets, most significant first.
#[derive(Clone, Copy, Debug, PartialEq, Eq, Structural)]
pub struct Ipv4Address {
    pub a: u8,
    pub b: u8,
    pub c: u8,
    pub d: u8,
}

impl Ipv4Address {
    pub fn new(a: u8, b: u8, c: u8, d: u8) -> (addr: Ipv4Address)
        ensures
            addr == (Ipv4Address { a, b, c, d }),
    {
        Ipv4Address { a, b, c, d }
    }

    /// The four octets in the order in which they are sent.
    pub open spec fn octets(self) -> Seq<u8> {
        seq![self.a, self.b, self.c, self.d]
    }
}

/// A UDP segment of `length` bytes: the header with the two ports and the
/// length (the checksum is left at zero), then `payload`, then zeros.
pub open spec fn udp_segment(dst_port: u16, length: u16, payload: Seq<u8>) -> Seq<u8> {
    Seq::new(
        length as nat,
        |i: int|
            if i == 0 {
                high_byte(SOURCE_PORT)
            } else if i == 1 {
                low_byte(SOURCE_PORT)
            } else if i == 2 {
                high_byte(dst_port)
            } else if i == 3 {
                low_byte(dst_port)
            } else if i == 4 {
                high_byte(length)
            } else if i == 5 {
                low_byte(length)
            } else if 8 <= i < 8 + payload.len() {
                payload[i - 8]
            } else {
                0u8
            },
    )
}

/// An IPv4 packet of `total` bytes: a header of five words with version 4,
/// the given total length, identification, hop limit and addresses, protocol
/// UDP, everything else (the checksum too) at zero; then `segment`, then zeros.
pub open spec fn ipv4_packet(
    total: u16,
    id: u16,
    ttl: u8,
    source: Ipv4Address,
    destination: Ipv4Address,
    segment: Seq<u8>,
) -> Seq<u8> {
    Seq::new(
        total as nat,
        |i: int|
            if i == 0 {
                0x45u8
            } else if i == 2 {
                high_byte(total)
            } else if i == 3 {
                low_byte(total)
            } else if i == 4 {
                high_byte(id)
            } else if i == 5 {
                low_byte(id)
            } else if i == 8 {
                ttl
            } else if i == 9 {
                PROTOCOL_UDP
            } else if 12 <= i < 16 {
                source.octets()[i - 12]
            } else if 16 <= i < 20 {
                destination.octets()[i - 16]
            } else if 20 <= i < 20 + segment.len() {
                segment[i - 20]
            } else {
                0u8
            },
    )
}

/// The settings of an encoder that decide what its probes hold.
pub struct ProbeSettings {
    pub phase: ProbePhase,
    pub dst_port: u16,
    pub payload: Seq<u8>,
    pub embed_timestamp: bool,
}

/// The largest payload that a probe sent at `timestamp` has room for: the
/// total length without the IPv4 and the UDP header.
pub open spec fn payload_capacity(embed: bool, timestamp: u16) -> int {
    total_length_spec(embed, timestamp) - IPV4_HEADER_LENGTH - UDP_HEADER_LENGTH
}

/// The bytes of the probe that an encoder with settings `cfg` sends to
/// `destination` with hop limit `ttl`, from `source`, at `timestamp`.
pub open spec fn probe_bytes(
    cfg: ProbeSettings,
    destination: Ipv4Address,
    ttl: u8,
    source: Ipv4Address,
    timestamp: u16,
) -> Seq<u8> {
    let total = total_length_spec(cfg.embed_timestamp, timestamp);
    ipv4_packet(
        total,
        identification_spec(ttl, cfg.phase, cfg.embed_timestamp, timestamp),
        ttl,
        source,
        destination,
        udp_segment(cfg.dst_port, (total - IPV4_HEADER_LENGTH) as u16, cfg.payload),
    )
}

/// The header fields of a probe, read from its bytes: the packet is as long as
/// its total-length field says; the version is 4 and the header has five words;
/// the hop limit stands unmasked; the protocol is UDP; the addresses and the
/// ports are those given; the UDP length is the total length without the IPv4
/// header.
pub proof fn probe_header_fields(
    cfg: ProbeSettings,
    destination: Ipv4Address,
    ttl: u8,
    source: Ipv4Address,
    timestamp: u16,
)
    ensures
        ({
            let b = probe_bytes(cfg, destination, ttl, source, timestamp);
            let total = total_length_spec(cfg.embed_timestamp, timestamp);
            &&& b.len() == total
            &&& b[0] >> 4 == 4
            &&& b[0] & 0x0F == 5
            &&& read_u16(b, 2) == total
            &&& read_u16(b, 4) == identification_spec(
                ttl,
                cfg.phase,
                cfg.embed_timestamp,
                timestamp,
            )
            &&& b[8] == ttl
            &&& b[9] == PROTOCOL_UDP
            &&& b.subrange(12, 16) == source.octets()
            &&& b.subrange(16, 20) == destination.octets()
            &&& read_u16(b, 20) == SOURCE_PORT
            &&& read_u16(b, 22) == cfg.dst_port
            &&& read_u16(b, 24) == total - 20
        }),
{
    let b = probe_bytes(cfg, destination, ttl, source, timestamp);
    let total = total_length_spec(cfg.embed_timestamp, timestamp);
    let id = identification_spec(ttl, cfg.phase, cfg.embed_timestamp, timestamp);
    let udp_len = (total - 20) as u16;
    total_length_bounds(cfg.embed_timestamp, timestamp);
    read_u16_of_written(b, 0, total);
    read_u16_of_written(b, 0, id);
    read_u16_of_written(b, 0, SOURCE_PORT);
    read_u16_of_written(b, 0, cfg.dst_port);
    read_u16_of_written(b, 0, udp_len);
    assert(0x45u8 >> 4 == 4 && 0x45u8 & 0x0F == 5) by (bit_vector);
    assert(b.subrange(12, 16) =~= source.octets());
    assert(b.subrange(16, 20) =~= destination.octets());
}

/// A payload that fits stands behind the two headers, and every byte behind
/// it is zero.
pub proof fn probe_payload(
    cfg: ProbeSettings,
    destination: Ipv4Address,
    ttl: u8,
    source: Ipv4Address,
    timestamp: u16,
)
    requires
        cfg.payload.len() <= payload_capacity(cfg.embed_timestamp, timestamp),
    ensures
        ({
            let b = probe_bytes(cfg, destination, ttl, source, timestamp);
            &&& b.subrange(28, 28 + cfg.payload.len() as int) == cfg.payload
            &&& forall|i: int| 28 + cfg.payload.len() <= i < b.len() ==> b[i] == 0
        }),
{
    let b = probe_bytes(cfg, destination, ttl, source, timestamp);
    total_length_bounds(cfg.embed_timestamp, timestamp);
    assert(b.subrange(28, 28 + cfg.payload.len() as int) =~= cfg.payload);
}

/// The packet is the state: from the total length and the identification that
/// stand in a probe's bytes, the hop limit's five low bits and the phase are
/// read back, and with them the whole send time where it is embedded.
pub proof fn probe_carries_state(
    cfg: ProbeSettings,
    destination: Ipv4Address,
    ttl: u8,
    source: Ipv4Address,
    timestamp: u16,
)
    ensures
        ({
            let b = probe_bytes(cfg, destination, ttl, source, timestamp);
            &&& decoded_hop(read_u16(b, 4)) == ttl as u16 % 32
            &&& decoded_phase_bit(read_u16(b, 4)) == cfg.phase.bit_spec()
            &&& cfg.embed_timestamp ==> decoded_timestamp(read_u16(b, 2), read_u16(b, 4))
                == timestamp
        }),
{
    probe_header_fields(cfg, destination, ttl, source, timestamp);
    identification_carries_hop_and_phase(ttl, cfg.phase, cfg.embed_timestamp, timestamp);
    timestamp_round_trip(ttl, cfg.phase, timestamp);
}

} // verus!
