//! The packet buffers of `pnet` and the operations that the encoder uses on
//! them.
//!
//! A buffer of `pnet` is opaque here: all that is known of one is the sequence
//! of bytes behind it, which has a name for each of the three packet types.
//! Each executable function of this file is a single call into `pnet`, with a
//! contract that states over those bytes what the accessor that `pnet`
//! generates for the field does. These contracts are taken on trust; the rest
//! of the library is proved from them.

use vstd::prelude::*;
use pnet::packet::Packet;
use crate::layout::Ipv4Address;

verus! {

/// The more significant byte of a 16-bit value.
pub open spec fn high_byte(v: u16) -> u8 {
    (v >> 8) as u8
}

/// The less significant byte of a 16-bit value.
pub open spec fn low_byte(v: u16) -> u8 {
    (v & 0xFF) as u8
}

/// `s` with the 16-bit value `v` written at `at`, in network byte order.
pub open spec fn with_u16(s: Seq<u8>, at: int, v: u16) -> Seq<u8> {
    s.update(at, high_byte(v)).update(at + 1, low_byte(v))
}

/// `s` with `vals` written over it from `at` on; the length stays.
pub open spec fn with_bytes(s: Seq<u8>, at: int, vals: Seq<u8>) -> Seq<u8> {
    Seq::new(
        s.len(),
        |i: int|
            if at <= i < at + vals.len() {
                vals[i - at]
            } else {
                s[i]
            },
    )
}

/// The header length, in 32-bit words, that the bytes of an IPv4 packet state.
pub open spec fn stated_header_words(s: Seq<u8>) -> u8 {
    s[0] & 0x0F
}

/// The 16-bit value that stands at `at` in `s`, in network byte order.
pub open spec fn read_u16(s: Seq<u8>, at: int) -> u16 {
    ((s[at] as u16) << 8) | (s[at + 1] as u16)
}

/// The total length that the bytes of an IPv4 packet state.
pub open spec fn stated_total_length(s: Seq<u8>) -> u16 {
    read_u16(s, 2)
}

/// Reading a 16-bit value gives back what was written.
pub proof fn read_u16_of_written(s: Seq<u8>, at: int, v: u16)
    requires
        0 <= at,
        at + 2 <= s.len(),
    ensures
        read_u16(with_u16(s, at, v), at) == v,
        ((high_byte(v) as u16) << 8) | (low_byte(v) as u16) == v,
{
    assert(((((v >> 8) as u8) as u16) << 8) | (((v & 0xFF) as u8) as u16) == v) by (bit_vector);
}

/// `pnet`'s UDP segment that can be written to. Opaque: see [`udp_contents`].
#[verifier::external_type_specification]
#[verifier::external_body]
pub struct ExMutableUdpPacket<'a>(pnet::packet::udp::MutableUdpPacket<'a>);

/// `pnet`'s IPv4 packet that can be written to. Opaque: see
/// [`ipv4_mut_contents`].
#[verifier::external_type_specification]
#[verifier::external_body]
pub struct ExMutableIpv4Packet<'a>(pnet::packet::ipv4::MutableIpv4Packet<'a>);

/// `pnet`'s read-only IPv4 packet. Opaque: see [`ipv4_contents`].
#[verifier::external_type_specification]
#[verifier::external_body]
pub struct ExIpv4Packet<'a>(pnet::packet::ipv4::Ipv4Packet<'a>);

/// The bytes of the buffer behind a UDP segment under construction.
pub uninterp spec fn udp_contents(p: pnet::packet::udp::MutableUdpPacket<'static>) -> Seq<u8>;

/// The bytes of the buffer behind an IPv4 packet under construction.
pub uninterp spec fn ipv4_mut_contents(p: pnet::packet::ipv4::MutableIpv4Packet<'static>) -> Seq<u8>;

/// The bytes of the buffer behind a finished IPv4 packet.
pub uninterp spec fn ipv4_contents(p: pnet::packet::ipv4::Ipv4Packet<'static>) -> Seq<u8>;

/// `MutableUdpPacket::owned`: takes the buffer over as it is, and refuses one
/// that is shorter than the eight bytes of a UDP header.
#[verifier::external_body]
pub(crate) fn udp_owned(buffer: Vec<u8>) -> (r: Option<pnet::packet::udp::MutableUdpPacket<'static>>)
    ensures
        r.is_some() <==> buffer@.len() >= 8,
        r matches Some(p) ==> udp_contents(p) == buffer@,
{
    pnet::packet::udp::MutableUdpPacket::owned(buffer)
}

/// `MutableUdpPacket::set_source`: writes the port into bytes 0 and 1.
#[verifier::external_body]
pub(crate) fn udp_set_source(p: &mut pnet::packet::udp::MutableUdpPacket<'static>, port: u16)
    ensures
        udp_contents(*final(p)) == with_u16(udp_contents(*old(p)), 0, port),
{
    p.set_source(port)
}

/// `MutableUdpPacket::set_destination`: writes the port into bytes 2 and 3.
#[verifier::external_body]
pub(crate) fn udp_set_destination(p: &mut pnet::packet::udp::MutableUdpPacket<'static>, port: u16)
    ensures
        udp_contents(*final(p)) == with_u16(udp_contents(*old(p)), 2, port),
{
    p.set_destination(port)
}

/// `MutableUdpPacket::set_length`: writes the length into bytes 4 and 5.
#[verifier::external_body]
pub(crate) fn udp_set_length(p: &mut pnet::packet::udp::MutableUdpPacket<'static>, length: u16)
    ensures
        udp_contents(*final(p)) == with_u16(udp_contents(*old(p)), 4, length),
{
    p.set_length(length)
}

/// `MutableUdpPacket::set_payload`: copies `vals` into the buffer from byte 8
/// on. The call panics where the buffer has no room for them, hence the
/// precondition.
#[verifier::external_body]
pub(crate) fn udp_set_payload(p: &mut pnet::packet::udp::MutableUdpPacket<'static>, vals: &[u8])
    requires
        8 + vals@.len() <= udp_contents(*old(p)).len(),
    ensures
        udp_contents(*final(p)) == with_bytes(udp_contents(*old(p)), 8, vals@),
{
    p.set_payload(vals)
}

/// `Packet::packet` on a `MutableUdpPacket`: the whole buffer, header included.
#[verifier::external_body]
pub(crate) fn udp_bytes<'p>(p: &'p pnet::packet::udp::MutableUdpPacket<'static>) -> (r: &'p [u8])
    ensures
        r@ == udp_contents(*p),
{
    p.packet()
}

/// `MutableIpv4Packet::owned`: takes the buffer over as it is, and refuses one
/// that is shorter than the twenty bytes of an IPv4 header without options.
#[verifier::external_body]
pub(crate) fn ipv4_owned(buffer: Vec<u8>) -> (r: Option<pnet::packet::ipv4::MutableIpv4Packet<'static>>)
    ensures
        r.is_some() <==> buffer@.len() >= 20,
        r matches Some(p) ==> ipv4_mut_contents(p) == buffer@,
{
    pnet::packet::ipv4::MutableIpv4Packet::owned(buffer)
}

/// `MutableIpv4Packet::set_version`: writes the four low bits of `version`
/// into the high half of byte 0 and keeps the low half.
#[verifier::external_body]
pub(crate) fn ipv4_set_version(p: &mut pnet::packet::ipv4::MutableIpv4Packet<'static>, version: u8)
    ensures
        ipv4_mut_contents(*final(p)) == ipv4_mut_contents(*old(p)).update(
            0,
            (ipv4_mut_contents(*old(p))[0] & 0x0F) | ((version & 0x0F) << 4),
        ),
{
    p.set_version(version)
}

/// `MutableIpv4Packet::set_header_length`: writes the four low bits of `words`
/// into the low half of byte 0 and keeps the high half.
#[verifier::external_body]
pub(crate) fn ipv4_set_header_length(p: &mut pnet::packet::ipv4::MutableIpv4Packet<'static>, words: u8)
    ensures
        ipv4_mut_contents(*final(p)) == ipv4_mut_contents(*old(p)).update(
            0,
            (ipv4_mut_contents(*old(p))[0] & 0xF0) | (words & 0x0F),
        ),
{
    p.set_header_length(words)
}

/// `MutableIpv4Packet::set_total_length`: writes the length into bytes 2 and 3.
#[verifier::external_body]
pub(crate) fn ipv4_set_total_length(p: &mut pnet::packet::ipv4::MutableIpv4Packet<'static>, length: u16)
    ensures
        ipv4_mut_contents(*final(p)) == with_u16(ipv4_mut_contents(*old(p)), 2, length),
{
    p.set_total_length(length)
}

/// `MutableIpv4Packet::set_identification`: writes the value into bytes 4 and 5.
#[verifier::external_body]
pub(crate) fn ipv4_set_identification(p: &mut pnet::packet::ipv4::MutableIpv4Packet<'static>, id: u16)
    ensures
        ipv4_mut_contents(*final(p)) == with_u16(ipv4_mut_contents(*old(p)), 4, id),
{
    p.set_identification(id)
}

/// `MutableIpv4Packet::set_ttl`: writes the hop limit into byte 8.
#[verifier::external_body]
pub(crate) fn ipv4_set_ttl(p: &mut pnet::packet::ipv4::MutableIpv4Packet<'static>, ttl: u8)
    ensures
        ipv4_mut_contents(*final(p)) == ipv4_mut_contents(*old(p)).update(8, ttl),
{
    p.set_ttl(ttl)
}

/// `MutableIpv4Packet::set_next_level_protocol` with `IpNextHeaderProtocols::Udp`,
/// which is protocol 17: writes that number into byte 9.
#[verifier::external_body]
pub(crate) fn ipv4_set_protocol_udp(p: &mut pnet::packet::ipv4::MutableIpv4Packet<'static>)
    ensures
        ipv4_mut_contents(*final(p)) == ipv4_mut_contents(*old(p)).update(9, 17u8),
{
    p.set_next_level_protocol(pnet::packet::ip::IpNextHeaderProtocols::Udp)
}

/// `MutableIpv4Packet::set_source`: writes the four octets into bytes 12 to 15.
#[verifier::external_body]
pub(crate) fn ipv4_set_source(p: &mut pnet::packet::ipv4::MutableIpv4Packet<'static>, addr: Ipv4Address)
    ensures
        ipv4_mut_contents(*final(p)) == with_bytes(ipv4_mut_contents(*old(p)), 12, addr.octets()),
{
    p.set_source([addr.a, addr.b, addr.c, addr.d].into())
}

/// `MutableIpv4Packet::set_destination`: writes the four octets into bytes 16
/// to 19.
#[verifier::external_body]
pub(crate) fn ipv4_set_destination(p: &mut pnet::packet::ipv4::MutableIpv4Packet<'static>, addr: Ipv4Address)
    ensures
        ipv4_mut_contents(*final(p)) == with_bytes(ipv4_mut_contents(*old(p)), 16, addr.octets()),
{
    p.set_destination([addr.a, addr.b, addr.c, addr.d].into())
}

/// `MutableIpv4Packet::set_payload`, for a header that states five words and
/// so has no options: copies `vals` into the buffer from byte 20 on. The call
/// panics where the stated total length leaves less room than `vals` needs, or
/// where the buffer does, hence the preconditions.
#[verifier::external_body]
pub(crate) fn ipv4_set_payload(p: &mut pnet::packet::ipv4::MutableIpv4Packet<'static>, vals: &[u8])
    requires
        ipv4_mut_contents(*old(p)).len() >= 20,
        stated_header_words(ipv4_mut_contents(*old(p))) == 5,
        20 + vals@.len() <= stated_total_length(ipv4_mut_contents(*old(p))),
        20 + vals@.len() <= ipv4_mut_contents(*old(p)).len(),
    ensures
        ipv4_mut_contents(*final(p)) == with_bytes(ipv4_mut_contents(*old(p)), 20, vals@),
{
    p.set_payload(vals)
}

/// `MutableIpv4Packet::consume_to_immutable`: the same buffer, read-only.
#[verifier::external_body]
pub(crate) fn ipv4_freeze(p: pnet::packet::ipv4::MutableIpv4Packet<'static>) -> (r: pnet::packet::ipv4::Ipv4Packet<'static>)
    ensures
        ipv4_contents(r) == ipv4_mut_contents(p),
{
    p.consume_to_immutable()
}

} // verus!
