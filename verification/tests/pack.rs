use pnet::packet::ip::IpNextHeaderProtocols;
use pnet::packet::ipv4::Ipv4Packet;
use pnet::packet::udp::UdpPacket;
use pnet::packet::Packet;
use prober::fields::ProbePhase;
use prober::layout::Ipv4Address;
use prober::prober::{build_packet, build_segment, ProbeResult, Prober};

fn expected_probe(
    total: u16,
    id: u16,
    ttl: u8,
    src: [u8; 4],
    dst: [u8; 4],
    dst_port: u16,
    payload: &[u8],
) -> Vec<u8> {
    let mut b = vec![0u8; total as usize];
    b[0] = 0x45;
    b[2..4].copy_from_slice(&total.to_be_bytes());
    b[4..6].copy_from_slice(&id.to_be_bytes());
    b[8] = ttl;
    b[9] = 17;
    b[12..16].copy_from_slice(&src);
    b[16..20].copy_from_slice(&dst);
    b[20..22].copy_from_slice(&8888u16.to_be_bytes());
    b[22..24].copy_from_slice(&dst_port.to_be_bytes());
    b[24..26].copy_from_slice(&(total - 20).to_be_bytes());
    b[28..28 + payload.len()].copy_from_slice(payload);
    b
}

#[test]
fn test_pack() {
    let prober = Prober::new(|_| {}, ProbePhase::Pre, 33434, "hello".to_owned(), true);
    let packet = prober
        .pack((Ipv4Address::new(1, 2, 3, 4), 32), Ipv4Address::new(4, 3, 2, 1))
        .unwrap();
    println!("{:#?}", packet);
    assert_eq!(packet.get_destination().to_string(), "1.2.3.4");
    assert_eq!(packet.get_source().to_string(), "4.3.2.1");
}

#[test]
fn pack_scenario_header_fields() {
    let prober = Prober::new(|_| {}, ProbePhase::Pre, 33434, "hello".to_owned(), true);
    let packet = prober
        .pack((Ipv4Address::new(1, 2, 3, 4), 32), Ipv4Address::new(4, 3, 2, 1))
        .unwrap();
    assert_eq!(packet.get_version(), 4);
    assert_eq!(packet.get_header_length(), 5);
    assert_eq!(packet.get_ttl(), 32);
    assert_eq!(packet.get_destination().octets(), [1, 2, 3, 4]);
    assert_eq!(packet.get_source().octets(), [4, 3, 2, 1]);
    assert_eq!(packet.get_identification() & 0x1F, 0);
    assert_eq!((packet.get_identification() >> 5) & 1, 0);
    assert_eq!(packet.get_next_level_protocol(), IpNextHeaderProtocols::Udp);
    let total = packet.get_total_length();
    assert!(total >= 128 && total <= 254 && total % 2 == 0);
    assert_eq!(packet.packet().len(), total as usize);
}

#[test]
fn pack_at_gives_exact_bytes() {
    let prober = Prober::new(|_| {}, ProbePhase::Pre, 33434, "hello".to_owned(), true);
    let packet = prober
        .pack_at((Ipv4Address::new(1, 2, 3, 4), 32), Ipv4Address::new(4, 3, 2, 1), 0xABCD)
        .unwrap();
    assert_eq!(packet.get_total_length(), 212);
    assert_eq!(packet.get_identification(), 0xF340);
    let want = expected_probe(212, 0xF340, 32, [4, 3, 2, 1], [1, 2, 3, 4], 33434, b"hello");
    assert_eq!(packet.packet(), &want[..]);
}

#[test]
fn pack_at_main_phase_sets_bit_five() {
    let prober = Prober::new(|_| {}, ProbePhase::Main, 53, "x".to_owned(), true);
    let packet = prober
        .pack_at((Ipv4Address::new(10, 0, 0, 1), 7), Ipv4Address::new(192, 168, 1, 2), 0xABCD)
        .unwrap();
    assert_eq!(packet.get_identification(), 0xF367);
    assert_eq!(packet.get_ttl(), 7);
    let want = expected_probe(212, 0xF367, 7, [192, 168, 1, 2], [10, 0, 0, 1], 53, b"x");
    assert_eq!(packet.packet(), &want[..]);
}

#[test]
fn pack_at_without_timestamp_is_128_bytes() {
    let prober = Prober::new(|_| {}, ProbePhase::Main, 33434, "hello".to_owned(), false);
    for ts in [0u16, 1, 0x03FF, 0x0400, 0xABCD, 0xFFFF] {
        let packet = prober
            .pack_at((Ipv4Address::new(1, 2, 3, 4), 200), Ipv4Address::new(4, 3, 2, 1), ts)
            .unwrap();
        assert_eq!(packet.get_total_length(), 128);
        assert_eq!(packet.packet().len(), 128);
        assert_eq!(packet.get_identification() >> 6, 0);
        assert_eq!(packet.get_identification(), (200 & 0x1F) | 32);
        assert_eq!(packet.get_ttl(), 200);
    }
}

#[test]
fn pack_without_timestamp_does_not_depend_on_the_clock() {
    let prober = Prober::new(|_| {}, ProbePhase::Pre, 33434, "hello".to_owned(), false);
    let packet = prober
        .pack((Ipv4Address::new(1, 2, 3, 4), 3), Ipv4Address::new(4, 3, 2, 1))
        .unwrap();
    let want = expected_probe(128, 3, 3, [4, 3, 2, 1], [1, 2, 3, 4], 33434, b"hello");
    assert_eq!(packet.packet(), &want[..]);
}

#[test]
fn hop_limit_and_phase_are_read_back() {
    for phase in [ProbePhase::Pre, ProbePhase::Main] {
        for embed in [false, true] {
            let prober = Prober::new(|_| {}, phase, 33434, String::new(), embed);
            for ttl in 0..=255u8 {
                let packet = prober
                    .pack_at((Ipv4Address::new(1, 2, 3, 4), ttl), Ipv4Address::new(4, 3, 2, 1), 0x5A5A)
                    .unwrap();
                let id = packet.get_identification();
                assert_eq!(id & 0x1F, (ttl & 0x1F) as u16);
                assert_eq!((id >> 5) & 1, phase.bit());
                assert_eq!(packet.get_ttl(), ttl);
            }
        }
    }
}

#[test]
fn hop_limits_above_31_alias() {
    let prober = Prober::new(|_| {}, ProbePhase::Pre, 33434, String::new(), false);
    let a = prober
        .pack_at((Ipv4Address::new(1, 2, 3, 4), 33), Ipv4Address::new(4, 3, 2, 1), 0)
        .unwrap();
    let b = prober
        .pack_at((Ipv4Address::new(1, 2, 3, 4), 1), Ipv4Address::new(4, 3, 2, 1), 0)
        .unwrap();
    assert_eq!(a.get_identification(), b.get_identification());
    assert_eq!(a.get_ttl(), 33);
    assert_eq!(b.get_ttl(), 1);
}

#[test]
fn timestamp_is_read_back_from_the_two_fields() {
    let prober = Prober::new(|_| {}, ProbePhase::Main, 33434, String::new(), true);
    let mut ts: u16 = 0;
    loop {
        let packet = prober
            .pack_at((Ipv4Address::new(1, 2, 3, 4), 17), Ipv4Address::new(4, 3, 2, 1), ts)
            .unwrap();
        let total = packet.get_total_length();
        let id = packet.get_identification();
        assert!(total >= 128 && total <= 254);
        assert_eq!(packet.packet().len(), total as usize);
        let high = (total >> 1) & 0x3F;
        let low = id >> 6;
        assert_eq!((high << 10) | low, ts);
        if ts > 0xFFFF - 257 {
            break;
        }
        ts += 257;
    }
}

#[test]
fn udp_segment_fields() {
    let prober = Prober::new(|_| {}, ProbePhase::Pre, 33434, "hello".to_owned(), true);
    let packet = prober
        .pack_at((Ipv4Address::new(1, 2, 3, 4), 32), Ipv4Address::new(4, 3, 2, 1), 0xFFFF)
        .unwrap();
    assert_eq!(packet.get_total_length(), 254);
    let udp = UdpPacket::new(packet.payload()).unwrap();
    assert_eq!(udp.get_source(), 8888);
    assert_eq!(udp.get_destination(), 33434);
    assert_eq!(udp.get_length(), 234);
    assert_eq!(udp.get_checksum(), 0);
    assert_eq!(udp.packet().len(), 234);
    assert_eq!(&udp.payload()[..5], b"hello");
    assert!(udp.payload()[5..].iter().all(|b| *b == 0));
}

#[test]
fn oversized_payload_gives_nothing() {
    let fits = "a".repeat(100);
    let too_long = "a".repeat(101);
    let src = Ipv4Address::new(4, 3, 2, 1);
    let dst = (Ipv4Address::new(1, 2, 3, 4), 5);
    let prober = Prober::new(|_| {}, ProbePhase::Pre, 33434, fits.clone(), false);
    let packet = prober.pack_at(dst, src, 0xFFFF).unwrap();
    assert_eq!(&packet.packet()[28..], fits.as_bytes());
    assert!(prober.pack(dst, src).is_some());
    let prober = Prober::new(|_| {}, ProbePhase::Pre, 33434, too_long.clone(), false);
    assert!(prober.pack_at(dst, src, 0xFFFF).is_none());
    assert!(prober.pack(dst, src).is_none());
    let prober = Prober::new(|_| {}, ProbePhase::Pre, 33434, too_long, true);
    assert!(prober.pack_at(dst, src, 0).is_none());
    assert!(prober.pack_at(dst, src, 0x0400).is_some());
    let prober = Prober::new(|_| {}, ProbePhase::Pre, 33434, "a".repeat(226), true);
    assert!(prober.pack_at(dst, src, 0xFC00).is_some());
    assert!(prober.pack_at(dst, src, 0xF800).is_none());
    let prober = Prober::new(|_| {}, ProbePhase::Pre, 33434, "a".repeat(227), true);
    assert!(prober.pack_at(dst, src, 0xFFFF).is_none());
    assert!(prober.pack(dst, src).is_none());
}

#[test]
fn payload_is_counted_in_bytes() {
    let text = "\u{e9}".repeat(50);
    assert_eq!(text.len(), 100);
    let src = Ipv4Address::new(4, 3, 2, 1);
    let dst = (Ipv4Address::new(1, 2, 3, 4), 5);
    let prober = Prober::new(|_| {}, ProbePhase::Pre, 33434, text.clone(), false);
    let packet = prober.pack_at(dst, src, 0).unwrap();
    assert_eq!(&packet.packet()[28..], text.as_bytes());
    let prober = Prober::new(|_| {}, ProbePhase::Pre, 33434, "\u{e9}".repeat(51), false);
    assert!(prober.pack_at(dst, src, 0).is_none());
}

#[test]
fn interleaved_calls_do_not_mix() {
    let prober = Prober::new(|_| {}, ProbePhase::Pre, 33434, "hello".to_owned(), true);
    let src = Ipv4Address::new(4, 3, 2, 1);
    let a1 = prober.pack_at((Ipv4Address::new(1, 1, 1, 1), 1), src, 100).unwrap();
    let b1 = prober.pack_at((Ipv4Address::new(2, 2, 2, 2), 2), src, 60000).unwrap();
    let a2 = prober.pack_at((Ipv4Address::new(1, 1, 1, 1), 1), src, 100).unwrap();
    let b2 = prober.pack_at((Ipv4Address::new(2, 2, 2, 2), 2), src, 60000).unwrap();
    assert_eq!(a1.packet(), a2.packet());
    assert_eq!(b1.packet(), b2.packet());
    assert_eq!(a1.get_destination().octets(), [1, 1, 1, 1]);
    assert_eq!(b1.get_destination().octets(), [2, 2, 2, 2]);
    assert_eq!(a1.get_ttl(), 1);
    assert_eq!(b1.get_ttl(), 2);
}

#[test]
fn callback_may_be_a_plain_function() {
    fn report(_result: ProbeResult) {}
    let handle: fn(ProbeResult) = report;
    let prober = Prober::new(handle, ProbePhase::Pre, 33434, "hello".to_owned(), false);
    assert!(prober
        .pack((Ipv4Address::new(1, 2, 3, 4), 32), Ipv4Address::new(4, 3, 2, 1))
        .is_some());
}

#[test]
fn build_segment_needs_room() {
    assert!(build_segment(1, 7, b"").is_none());
    assert!(build_segment(1, 8, b"a").is_none());
    assert!(build_segment(1, 0, b"").is_none());
    let seg = build_segment(0x1234, 12, b"abc").unwrap();
    assert_eq!(
        seg.packet(),
        &[0x22, 0xB8, 0x12, 0x34, 0, 12, 0, 0, b'a', b'b', b'c', 0][..]
    );
    let seg = build_segment(0x1234, 8, b"").unwrap();
    assert_eq!(seg.packet(), &[0x22, 0xB8, 0x12, 0x34, 0, 8, 0, 0][..]);
}

#[test]
fn build_packet_needs_room() {
    let src = Ipv4Address::new(9, 8, 7, 6);
    let dst = Ipv4Address::new(5, 4, 3, 2);
    assert!(build_packet(19, 0, 0, src, dst, b"").is_none());
    assert!(build_packet(20, 0, 0, src, dst, b"a").is_none());
    let p: Ipv4Packet = build_packet(0x0117, 0xBEEF, 64, src, dst, b"abc").unwrap();
    assert_eq!(p.packet().len(), 0x0117);
    assert_eq!(
        &p.packet()[..24],
        &[
            0x45, 0, 0x01, 0x17, 0xBE, 0xEF, 0, 0, 64, 17, 0, 0, 9, 8, 7, 6, 5, 4, 3, 2, b'a',
            b'b', b'c', 0
        ][..]
    );
    assert!(p.packet()[24..].iter().all(|b| *b == 0));
    assert_eq!(p.get_total_length(), 0x0117);
    assert_eq!(p.get_identification(), 0xBEEF);
    assert_eq!(p.get_checksum(), 0);
    assert_eq!(p.get_flags(), 0);
    assert_eq!(p.get_fragment_offset(), 0);
}

#[test]
fn settings_are_kept() {
    fn report(_result: ProbeResult) {}
    let handle: fn(ProbeResult) = report;
    let prober = Prober::new(handle, ProbePhase::Main, 33434, "hello".to_owned(), true);
    assert_eq!(prober.phase(), ProbePhase::Main);
    assert!(prober.encode_timestamp());
    assert!(*prober.callback() == handle);
    let prober = Prober::new(handle, ProbePhase::Pre, 33434, "hello".to_owned(), false);
    assert_eq!(prober.phase(), ProbePhase::Pre);
    assert!(!prober.encode_timestamp());
}

