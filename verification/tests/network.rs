use packet_decode::address::Ipv4Address;
use packet_decode::error::DecodeError;
use packet_decode::network::{ARPPacket, IPv4Packet, IPv6Packet, PacketType};
use packet_decode::transport::{ICMPSegment, ProtocolType, TransportSegment, UDPSegment};
use pnet::util::MacAddr;

fn ipv4_header(first: u8, protocol: u8) -> Vec<u8> {
    vec![
        first, // version, header length
        0x10, // differentiated services
        0x00, 0x54, // total length
        0xab, 0xcd, // identification
        0x5f, 0xfe, // flags, fragment offset
        0x40, // time to live
        protocol,
        0xb1, 0xe6, // header checksum
        192, 168, 0, 1, // sender
        10, 20, 30, 40, // receiver
    ]
}

fn arp_request() -> Vec<u8> {
    vec![
        0x00, 0x01, // hardware type: Ethernet
        0x08, 0x00, // protocol type: IPv4
        6, 4, // address lengths
        0x00, 0x01, // operation: request
        0x00, 0x1a, 0x2b, 0x3c, 0x4d, 0x5e, // sender hardware address
        192, 168, 1, 10, // sender protocol address
        0x00, 0x00, 0x00, 0x00, 0x00, 0x00, // target hardware address
        192, 168, 1, 1, // target protocol address
    ]
}

fn ipv6_header() -> Vec<u8> {
    let mut bytes = vec![
        0x6a, 0xbc, 0xde, 0xf1, // version 6, traffic class 0xab, flow label 0xcdef1
        0x00, 0x02, // payload length
        17, // next header
        64, // hop limit
    ];
    bytes.extend_from_slice(&[0x20, 0x01, 0x0d, 0xb8, 0, 0, 0, 0, 0, 0, 0, 0, 0, 0, 0, 0x01]);
    bytes.extend_from_slice(&[0xfe, 0x80, 0, 0, 0, 0, 0, 0, 0, 0, 0, 0, 0, 0, 0xab, 0xcd]);
    bytes
}

#[test]
fn ipv4_header_fields_are_read_in_order() {
    let mut bytes = ipv4_header(0x45, 17);
    bytes.extend_from_slice(&[0x00, 0x35, 0xd4, 0x31, 0x00, 0x09, 0xbe, 0xef, 0x61]);
    let packet = IPv4Packet::new(&bytes).unwrap();
    assert_eq!(packet.version, 4);
    assert_eq!(packet.header_length, 5);
    assert_eq!(packet.diff_serv, 0x10);
    assert_eq!(packet.total_length, 0x54);
    assert_eq!(packet.identification, 0xabcd);
    assert_eq!(packet.ttl, 0x40);
    assert_eq!(packet.protocol_type, ProtocolType::UDP);
    assert_eq!(packet.header_checksum, 0xb1e6);
    assert_eq!(packet.sender_ip, Ipv4Address(192, 168, 0, 1));
    assert_eq!(packet.receiver_ip, Ipv4Address(10, 20, 30, 40));
    assert_eq!(packet.option, Vec::<u8>::new());
    assert_eq!(
        packet.payload,
        TransportSegment::UDP(UDPSegment {
            source_port: 53,
            destination_port: 0xd431,
            length: 9,
            checksum: 0xbeef,
            data: vec![0x61],
        })
    );
}

#[test]
fn ipv4_flags_and_fragment_offset_share_two_bytes() {
    let bytes = ipv4_header(0x45, 200);
    let packet = IPv4Packet::new(&bytes).unwrap();
    // 0x5f 0xfe: three bits 010, thirteen bits 1_1111_1111_1110
    assert_eq!(packet.flag, 0b010);
    assert_eq!(packet.fragment, 0x1ffe);

    let mut bytes = ipv4_header(0x45, 200);
    bytes[6] = 0xe0;
    bytes[7] = 0x01;
    let packet = IPv4Packet::new(&bytes).unwrap();
    assert_eq!(packet.flag, 0b111);
    assert_eq!(packet.fragment, 1);
}

#[test]
fn ipv4_options_fill_the_header() {
    let mut bytes = ipv4_header(0x47, 1);
    bytes.extend_from_slice(&[7, 7, 4, 0, 0, 0, 0, 0]);
    bytes.extend_from_slice(&[8, 0, 0xf7, 0xff, 0, 1, 0, 2, 0x61]);
    let packet = IPv4Packet::new(&bytes).unwrap();
    assert_eq!(packet.header_length, 7);
    assert_eq!(packet.option, vec![7, 7, 4, 0, 0, 0, 0, 0]);
    assert_eq!(
        packet.payload,
        TransportSegment::ICMP(ICMPSegment {
            message_type: 8,
            code: 0,
            checksum: 0xf7ff,
            rest_of_header: 0x0001_0002,
        })
    );
}

#[test]
fn ipv4_carries_tcp() {
    let mut bytes = ipv4_header(0x45, 6);
    bytes.extend_from_slice(&[
        0x00, 0x50, 0xc0, 0x00, 0, 0, 0, 1, 0, 0, 0, 2, 0x50, 0x12, 0x20, 0x00, 0xaa, 0xbb, 0, 0,
        0x68, 0x69,
    ]);
    let packet = IPv4Packet::new(&bytes).unwrap();
    assert_eq!(packet.protocol_type, ProtocolType::TCP);
    match packet.payload {
        TransportSegment::TCP(segment) => {
            assert_eq!(segment.source_port, 80);
            assert_eq!(segment.syn, 1);
            assert_eq!(segment.ack, 1);
            assert_eq!(segment.data, vec![0x68, 0x69]);
        }
        other => panic!("not a TCP segment: {:?}", other),
    }
}

#[test]
fn ipv4_header_length_below_five_is_a_structural_failure() {
    for header_length in 0u8..5 {
        for version in 0u8..16 {
            let mut bytes = ipv4_header((version << 4) | header_length, 6);
            bytes.extend_from_slice(&[0; 64]);
            let failure = IPv4Packet::new(&bytes).unwrap_err();
            assert_eq!(failure, DecodeError::HeaderLengthTooSmall);
            assert!(failure.is_structural());
            assert_eq!(
                IPv4Packet::new(&bytes[..1]),
                Err(DecodeError::HeaderLengthTooSmall)
            );
        }
    }
}

#[test]
fn ipv4_of_another_version_is_refused() {
    let bytes = ipv4_header(0x65, 6);
    assert_eq!(IPv4Packet::new(&bytes), Err(DecodeError::VersionMismatch));
    let bytes = ipv4_header(0x05, 6);
    assert_eq!(IPv4Packet::new(&bytes), Err(DecodeError::VersionMismatch));
}

#[test]
fn ipv4_short_buffers_are_truncated() {
    let bytes = ipv4_header(0x45, 17);
    assert_eq!(IPv4Packet::new(&[]), Err(DecodeError::Truncated));
    assert_eq!(IPv4Packet::new(&bytes[..1]), Err(DecodeError::Truncated));
    assert_eq!(IPv4Packet::new(&bytes[..19]), Err(DecodeError::Truncated));
    assert!(IPv4Packet::new(&bytes[..20]).is_ok());
}

#[test]
fn ipv4_options_that_run_past_the_end_are_truncated() {
    let mut bytes = ipv4_header(0x4f, 17);
    bytes.extend_from_slice(&[0; 39]);
    assert_eq!(IPv4Packet::new(&bytes), Err(DecodeError::Truncated));
    bytes.push(0);
    let packet = IPv4Packet::new(&bytes).unwrap();
    assert_eq!(packet.header_length, 15);
    assert_eq!(packet.option, vec![0; 40]);
}

#[test]
fn ipv4_unknown_protocol_keeps_the_number_and_drops_the_payload() {
    let mut bytes = ipv4_header(0x45, 47);
    bytes.extend_from_slice(&[1, 2, 3, 4, 5, 6, 7, 8]);
    let packet = IPv4Packet::new(&bytes).unwrap();
    assert_eq!(packet.protocol_type, ProtocolType::UNDEFINED(47));
    assert_eq!(packet.payload, TransportSegment::UNDEFINED);
}

#[test]
fn ipv4_payload_that_does_not_decode_leaves_the_header() {
    let mut bytes = ipv4_header(0x45, 17);
    bytes.extend_from_slice(&[0x00, 0x35, 0xd4]);
    let packet = IPv4Packet::new(&bytes).unwrap();
    assert_eq!(packet.protocol_type, ProtocolType::UDP);
    assert_eq!(packet.sender_ip, Ipv4Address(192, 168, 0, 1));
    assert_eq!(packet.payload, TransportSegment::UNDEFINED);
}

#[test]
fn arp_request_is_read_field_by_field() {
    let bytes = arp_request();
    assert_eq!(bytes.len(), 28);
    let packet = ARPPacket::new(&bytes).unwrap();
    assert_eq!(
        packet,
        ARPPacket {
            hardware_type: 1,
            protocol_type: 0x0800,
            hardware_address_length: 6,
            protocol_address_length: 4,
            operation: 1,
            sender_hardware_address: MacAddr::new(0x00, 0x1a, 0x2b, 0x3c, 0x4d, 0x5e),
            sender_protocol_address: 0xc0a8_010a,
            target_hardware_address: MacAddr::new(0, 0, 0, 0, 0, 0),
            target_protocol_address: 0xc0a8_0101,
        }
    );
    assert_eq!(packet.sender_hardware_address.octets(), bytes[8..14]);
    assert_eq!(packet.sender_protocol_address.to_be_bytes(), bytes[14..18]);
    assert_eq!(packet.target_hardware_address.octets(), bytes[18..24]);
    assert_eq!(packet.target_protocol_address.to_be_bytes(), bytes[24..28]);
}

#[test]
fn arp_address_lengths_do_not_change_the_layout() {
    let mut bytes = arp_request();
    bytes[4] = 8;
    bytes[5] = 16;
    bytes[7] = 2;
    bytes.extend_from_slice(&[0; 18]);
    let packet = ARPPacket::new(&bytes).unwrap();
    assert_eq!(packet.hardware_address_length, 8);
    assert_eq!(packet.protocol_address_length, 16);
    assert_eq!(packet.operation, 2);
    assert_eq!(packet.sender_hardware_address, MacAddr::new(0x00, 0x1a, 0x2b, 0x3c, 0x4d, 0x5e));
    assert_eq!(packet.target_protocol_address, 0xc0a8_0101);
}

#[test]
fn arp_short_buffers_are_truncated() {
    let bytes = arp_request();
    assert_eq!(ARPPacket::new(&bytes[..27]), Err(DecodeError::Truncated));
    assert_eq!(ARPPacket::new(&bytes[..8]), Err(DecodeError::Truncated));
    assert_eq!(ARPPacket::new(&[]), Err(DecodeError::Truncated));
}

#[test]
fn ipv6_header_has_the_standard_bit_layout() {
    let mut bytes = ipv6_header();
    bytes.extend_from_slice(&[0x01, 0x02]);
    let packet = IPv6Packet::new(&bytes).unwrap();
    assert_eq!(
        packet,
        IPv6Packet {
            version: 6,
            traffic_class: 0xab,
            flow_label: 0xc_def1,
            payload_length: 2,
            next_header: 17,
            hop_limit: 64,
            source_address: 0x2001_0db8_0000_0000_0000_0000_0000_0001,
            destination_address: 0xfe80_0000_0000_0000_0000_0000_0000_abcd,
            payload: vec![0x01, 0x02],
        }
    );
}

#[test]
fn ipv6_traffic_class_and_flow_label_at_their_limits() {
    let mut bytes = ipv6_header();
    bytes[0] = 0x6f;
    bytes[1] = 0xff;
    bytes[2] = 0xff;
    bytes[3] = 0xff;
    let packet = IPv6Packet::new(&bytes).unwrap();
    assert_eq!(packet.traffic_class, 0xff);
    assert_eq!(packet.flow_label, 0xf_ffff);

    bytes[0] = 0x60;
    bytes[1] = 0x10;
    bytes[2] = 0x00;
    bytes[3] = 0x00;
    let packet = IPv6Packet::new(&bytes).unwrap();
    assert_eq!(packet.traffic_class, 0x01);
    assert_eq!(packet.flow_label, 0);
    assert_eq!(packet.payload, Vec::<u8>::new());
}

#[test]
fn ipv6_of_another_version_is_refused() {
    let mut bytes = ipv6_header();
    bytes[0] = 0x4a;
    assert_eq!(IPv6Packet::new(&bytes), Err(DecodeError::VersionMismatch));
    assert_eq!(IPv6Packet::new(&bytes[..1]), Err(DecodeError::VersionMismatch));
}

#[test]
fn ipv6_short_buffers_are_truncated() {
    let bytes = ipv6_header();
    assert_eq!(IPv6Packet::new(&[]), Err(DecodeError::Truncated));
    assert_eq!(IPv6Packet::new(&bytes[..1]), Err(DecodeError::Truncated));
    assert_eq!(IPv6Packet::new(&bytes[..39]), Err(DecodeError::Truncated));
    assert!(IPv6Packet::new(&bytes[..40]).is_ok());
}

#[test]
fn packet_type_below_0x0600_is_a_length() {
    assert_eq!(PacketType::new(0, &[1, 2, 3]), PacketType::Length(0));
    assert_eq!(PacketType::new(0x05dc, &[1, 2, 3]), PacketType::Length(0x05dc));
    assert_eq!(PacketType::new(0x05ff, &[]), PacketType::Length(0x05ff));
}

#[test]
fn packet_type_names_the_protocols_it_does_not_decode() {
    let bytes = ipv4_header(0x45, 17);
    assert_eq!(PacketType::new(0x0600, &bytes), PacketType::XNSIDP);
    assert_eq!(PacketType::new(0x0805, &bytes), PacketType::X25PLP);
    assert_eq!(PacketType::new(0x8035, &bytes), PacketType::RARP);
    assert_eq!(PacketType::new(0x8137, &bytes), PacketType::NetwareIPX);
    assert_eq!(PacketType::new(0x8191, &bytes), PacketType::NetBIOS);
}

#[test]
fn packet_type_keeps_the_number_of_an_unknown_protocol() {
    let bytes = ipv4_header(0x45, 17);
    assert_eq!(PacketType::new(0x0601, &bytes), PacketType::UNDEFINED(0x0601));
    assert_eq!(PacketType::new(0x8100, &bytes), PacketType::UNDEFINED(0x8100));
    assert_eq!(PacketType::new(0x88cc, &[]), PacketType::UNDEFINED(0x88cc));
    assert_eq!(PacketType::new(0xffff, &bytes), PacketType::UNDEFINED(0xffff));
}

#[test]
fn packet_type_decodes_ipv4_arp_and_ipv6() {
    match PacketType::new(0x0800, &ipv4_header(0x45, 200)) {
        PacketType::IPv4(packet) => assert_eq!(packet.receiver_ip, Ipv4Address(10, 20, 30, 40)),
        other => panic!("not an IPv4 packet: {:?}", other),
    }
    match PacketType::new(0x0806, &arp_request()) {
        PacketType::ARP(packet) => assert_eq!(packet.operation, 1),
        other => panic!("not an ARP message: {:?}", other),
    }
    match PacketType::new(0x86dd, &ipv6_header()) {
        PacketType::IPv6(packet) => assert_eq!(packet.hop_limit, 64),
        other => panic!("not an IPv6 packet: {:?}", other),
    }
}

#[test]
fn packet_type_of_a_payload_that_does_not_decode_is_undefined() {
    assert_eq!(PacketType::new(0x0800, &ipv4_header(0x43, 6)), PacketType::UNDEFINED(0x0800));
    assert_eq!(PacketType::new(0x0800, &[]), PacketType::UNDEFINED(0x0800));
    assert_eq!(PacketType::new(0x0806, &arp_request()[..27]), PacketType::UNDEFINED(0x0806));
    assert_eq!(PacketType::new(0x86dd, &ipv6_header()[..39]), PacketType::UNDEFINED(0x86dd));
    assert_eq!(PacketType::new(0x86dd, &ipv4_header(0x45, 6)), PacketType::UNDEFINED(0x86dd));
}
