//! The encoder: fixed settings, and one operation that turns a hop target into
//! a packet.

use vstd::prelude::*;
use vstd::utf8::encode_utf8;
use pnet::packet::ipv4::Ipv4Packet;
use pnet::packet::udp::MutableUdpPacket;
use crate::clock::timestamp_ms_u16;
use crate::fields::{identification, total_length, total_length_bounds, ProbePhase};
use crate::layout::{
    ipv4_packet, payload_capacity, probe_bytes, udp_segment, Ipv4Address, ProbeSettings,
    IPV4_HEADER_LENGTH, SOURCE_PORT, UDP_HEADER_LENGTH,
};
use crate::wire::{
    high_byte, ipv4_contents, ipv4_freeze, ipv4_mut_contents, ipv4_owned, ipv4_set_destination,
    ipv4_set_header_length, ipv4_set_identification, ipv4_set_payload, ipv4_set_protocol_udp,
    ipv4_set_source, ipv4_set_total_length, ipv4_set_ttl, ipv4_set_version, low_byte,
    read_u16_of_written, stated_header_words, stated_total_length, udp_bytes, udp_contents,
    udp_owned, udp_set_destination, udp_set_length, udp_set_payload, udp_set_source,
};

verus! {

/// Diagnostics that come with a measurement. There are none yet.
#[derive(Default)]
pub struct ProbeDebugResult {}

/// What the decoding side reports for one answer that it could attribute.
pub struct ProbeResult {
    /// The address that was probed.
    pub destination: Ipv4Address,
    /// The address that answered.
    pub responder: Ipv4Address,
    /// The hop distance that the answer implies.
    pub distance: u8,
    /// Whether the probed address itself answered, rather than a relay.
    pub from_destination: bool,
    pub debug: ProbeDebugResult,
}

/// A hop target: the address to probe, and the hop limit of the probe.
pub type ProbeUnit = (Ipv4Address, u8);

/// The encoder. `F` is the handle that receives each measurement: anything
/// that can be called with a [`ProbeResult`]. The encoder keeps it for the
/// decoding side and never calls it.
pub struct Prober<F> {
    callback: F,
    phase: ProbePhase,
    dst_port: u16,
    payload_msg: String,
    encode_timestamp: bool,
}

impl<F> View for Prober<F> {
    type V = ProbeSettings;

    closed spec fn view(&self) -> ProbeSettings {
        ProbeSettings {
            phase: self.phase,
            dst_port: self.dst_port,
            payload: encode_utf8(self.payload_msg@),
            embed_timestamp: self.encode_timestamp,
        }
    }
}

/// Whether `r` is what encoding at `timestamp` owes: the probe laid out for
/// these settings and this target where the payload fits, nothing where it
/// does not.
pub open spec fn encodes(
    cfg: ProbeSettings,
    destination: ProbeUnit,
    source_ip: Ipv4Address,
    timestamp: u16,
    r: Option<Ipv4Packet<'static>>,
) -> bool {
    if cfg.payload.len() <= payload_capacity(cfg.embed_timestamp, timestamp) {
        r matches Some(p) && ipv4_contents(p) == probe_bytes(
            cfg,
            destination.0,
            destination.1,
            source_ip,
            timestamp,
        )
    } else {
        r is None
    }
}

/// Encoding keeps no state: what it owes is fixed by the settings, the target,
/// the source and the timestamp, so any two results for the same four agree,
/// whoever asked and in whatever order.
pub proof fn encodes_one_result(
    cfg: ProbeSettings,
    destination: ProbeUnit,
    source_ip: Ipv4Address,
    timestamp: u16,
    r1: Option<Ipv4Packet<'static>>,
    r2: Option<Ipv4Packet<'static>>,
)
    requires
        encodes(cfg, destination, source_ip, timestamp, r1),
        encodes(cfg, destination, source_ip, timestamp, r2),
    ensures
        r1 is Some <==> r2 is Some,
        r1 is Some ==> ipv4_contents(r1->0) == ipv4_contents(r2->0),
{
}

impl<F: Fn(ProbeResult)> Prober<F> {
    /// The handle that was given at construction.
    pub closed spec fn callback_spec(&self) -> F {
        self.callback
    }

    /// The handle that receives each measurement, for the decoding side.
    pub fn callback(&self) -> (f: &F)
        ensures
            *f == self.callback_spec(),
    {
        &self.callback
    }

    /// The phase that the probes of this encoder are marked with.
    pub fn phase(&self) -> (phase: ProbePhase)
        ensures
            phase == self@.phase,
    {
        self.phase
    }

    /// Whether the probes of this encoder carry their send time.
    pub fn encode_timestamp(&self) -> (embed: bool)
        ensures
            embed == self@.embed_timestamp,
    {
        self.encode_timestamp
    }

    /// An encoder with the given settings. The payload of its probes is
    /// `payload_msg` in UTF-8.
    pub fn new(
        callback: F,
        phase: ProbePhase,
        dst_port: u16,
        payload_msg: String,
        encode_timestamp: bool,
    ) -> (prober: Self)
        ensures
            prober.callback_spec() == callback,
            prober@ == (ProbeSettings {
                phase,
                dst_port,
                payload: encode_utf8(payload_msg@),
                embed_timestamp: encode_timestamp,
            }),
    {
        Self { callback, phase, dst_port, payload_msg, encode_timestamp }
    }

    /// Encodes a probe for `destination`, stamped with the current time.
    ///
    /// The clock decides the timestamp, so the result is that of
    /// [`Prober::pack_at`] for some timestamp. A payload of at most 100 bytes
    /// fits at every time, one of more than 226 bytes at none.
    pub fn pack(&self, destination: ProbeUnit, source_ip: Ipv4Address) -> (r: Option<
        Ipv4Packet<'static>,
    >)
        ensures
            exists|timestamp: u16| encodes(self@, destination, source_ip, timestamp, r),
            self@.payload.len() <= 100 ==> r is Some,
            self@.payload.len() > 226 ==> r is None,
            !self@.embed_timestamp ==> encodes(self@, destination, source_ip, 0, r),
    {
        let timestamp = timestamp_ms_u16();
        let r = self.pack_at(destination, source_ip, timestamp);
        proof {
            total_length_bounds(self@.embed_timestamp, timestamp);
            assert(encodes(self@, destination, source_ip, timestamp, r));
        }
        r
    }

    /// Encodes a probe for `destination` as if the clock read `timestamp`.
    ///
    /// The probe is produced exactly where the payload fits into it; the
    /// packet is then, byte for byte, [`probe_bytes`].
    pub fn pack_at(&self, destination: ProbeUnit, source_ip: Ipv4Address, timestamp: u16) -> (r:
        Option<Ipv4Packet<'static>>)
        ensures
            encodes(self@, destination, source_ip, timestamp, r),
            r is Some <==> self@.payload.len() <= payload_capacity(
                self@.embed_timestamp,
                timestamp,
            ),
            r matches Some(p) ==> ipv4_contents(p) == probe_bytes(
                self@,
                destination.0,
                destination.1,
                source_ip,
                timestamp,
            ),
    {
        let (dst_ip, ttl) = destination;
        let expect_total_size = total_length(self.encode_timestamp, timestamp);
        let expect_udp_size = expect_total_size - IPV4_HEADER_LENGTH;
        let payload = self.payload_msg.as_str().as_bytes();
        let udp_packet = match build_segment(self.dst_port, expect_udp_size, payload) {
            Some(p) => p,
            None => { return None; },
        };
        let ip_id = identification(ttl, self.phase, self.encode_timestamp, timestamp);
        build_packet(expect_total_size, ip_id, ttl, source_ip, dst_ip, udp_bytes(&udp_packet))
    }
}

/// A buffer of `n` zero bytes.
fn zeroed(n: usize) -> (v: Vec<u8>)
    ensures
        v@ == Seq::new(n as nat, |i: int| 0u8),
{
    let v = vec![0u8; n];
    assert(v@ =~= Seq::new(n as nat, |i: int| 0u8));
    v
}

/// Builds the UDP segment of a probe: `size` bytes with the header filled in
/// and `payload` behind it. There is no segment where `size` has no room for
/// the header and the payload.
pub fn build_segment(dst_port: u16, size: u16, payload: &[u8]) -> (r: Option<
    MutableUdpPacket<'static>,
>)
    ensures
        r is Some <==> 8 + payload@.len() <= size,
        r matches Some(p) ==> udp_contents(p) == udp_segment(dst_port, size, payload@),
{
    if size < UDP_HEADER_LENGTH || payload.len() > (size - UDP_HEADER_LENGTH) as usize {
        return None;
    }
    let mut udp_packet = match udp_owned(zeroed(size as usize)) {
        Some(p) => p,
        None => { return None; },
    };
    udp_set_source(&mut udp_packet, SOURCE_PORT);
    udp_set_destination(&mut udp_packet, dst_port);
    udp_set_length(&mut udp_packet, size);
    udp_set_payload(&mut udp_packet, payload);
    assert(udp_contents(udp_packet) =~= udp_segment(dst_port, size, payload@));
    Some(udp_packet)
}

/// Builds the IPv4 packet of a probe: `total` bytes with the header filled in
/// and `segment` behind it. There is no packet where `total` has no room for
/// the header and the segment.
pub fn build_packet(
    total: u16,
    id: u16,
    ttl: u8,
    source: Ipv4Address,
    destination: Ipv4Address,
    segment: &[u8],
) -> (r: Option<Ipv4Packet<'static>>)
    ensures
        r is Some <==> 20 + segment@.len() <= total,
        r matches Some(p) ==> ipv4_contents(p) == ipv4_packet(
            total,
            id,
            ttl,
            source,
            destination,
            segment@,
        ),
{
    if total < IPV4_HEADER_LENGTH || segment.len() > (total - IPV4_HEADER_LENGTH) as usize {
        return None;
    }
    let mut ip_packet = match ipv4_owned(zeroed(total as usize)) {
        Some(p) => p,
        None => { return None; },
    };
    ipv4_set_version(&mut ip_packet, 4);
    assert(20u16 >> 2 == 5u16) by (bit_vector);
    ipv4_set_header_length(&mut ip_packet, (IPV4_HEADER_LENGTH >> 2) as u8);
    ipv4_set_destination(&mut ip_packet, destination);
    ipv4_set_source(&mut ip_packet, source);
    ipv4_set_protocol_udp(&mut ip_packet);
    ipv4_set_ttl(&mut ip_packet, ttl);
    ipv4_set_identification(&mut ip_packet, id);
    ipv4_set_total_length(&mut ip_packet, total);
    proof {
        let c = ipv4_mut_contents(ip_packet);
        assert((((0u8 & 0x0Fu8) | ((4u8 & 0x0Fu8) << 4)) & 0xF0u8) | (5u8 & 0x0Fu8) == 0x45u8)
            by (bit_vector);
        assert(0x45u8 & 0x0Fu8 == 5u8) by (bit_vector);
        assert(c[0] == 0x45u8);
        assert(c[2] == high_byte(total));
        assert(c[3] == low_byte(total));
        read_u16_of_written(c, 2, total);
        assert(stated_header_words(c) == 5);
        assert(stated_total_length(c) == total);
    }
    ipv4_set_payload(&mut ip_packet, segment);
    assert(ipv4_mut_contents(ip_packet) =~= ipv4_packet(
        total,
        id,
        ttl,
        source,
        destination,
        segment@,
    ));
    Some(ipv4_freeze(ip_packet))
}

} // verus!
