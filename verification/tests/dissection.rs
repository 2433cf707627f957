use pktdissect::dissect;
use pktdissect::dissect_network;
use pktdissect::dissect_transport;
use pktdissect::hex_dump;
use pktdissect::read_be16;
use pktdissect::read_be32;
use pktdissect::DissectionReport;
use pktdissect::IpFamily;
use pktdissect::Ipv4Header;
use pktdissect::Ipv6Header;
use pktdissect::NetworkHeader;
use pktdissect::TransportError;
use pktdissect::TransportHeader;

fn ipv4_header(protocol: u8) -> Vec<u8> {
    vec![
        0x45, 0x00, // version 4, header length 5 words, TOS
        0x00, 0x28, // total length 40
        0x00, 0x01, 0x00, 0x00, // identification, flags, fragment offset
        64, protocol, // TTL, protocol
        0x00, 0x00, // checksum (not validated)
        192, 168, 0, 1, // source
        10, 0, 0, 1, // destination
    ]
}

fn ipv6_header(next_header: u8) -> Vec<u8> {
    let mut h = vec![
        0x60, 0x00, 0x00, 0x00, // version 6, traffic class, flow label
        0x00, 0x08, // payload length 8
        next_header, 64, // next header, hop limit
    ];
    h.extend_from_slice(&[0xfe, 0x80, 0, 0, 0, 0, 0, 0, 0, 0, 0, 0, 0, 0, 0, 1]);
    h.extend_from_slice(&[0xfe, 0x80, 0, 0, 0, 0, 0, 0, 0, 0, 0, 0, 0, 0, 0, 2]);
    h
}

fn tcp_header() -> Vec<u8> {
    vec![
        0x00, 0x50, // source port 80
        0x01, 0xbb, // destination port 443
        0x12, 0x34, 0x56, 0x78, // sequence number
        0x9a, 0xbc, 0xde, 0xf0, // acknowledgment number
        0x50, 0x12, // data offset, flags: SYN | ACK
        0x00, 0x20, // window
        0x00, 0x00, // checksum
        0x00, 0x00, // urgent pointer
    ]
}

fn udp_header() -> Vec<u8> {
    vec![
        0x00, 0x35, // source port 53
        0x04, 0xd2, // destination port 1234
        0x00, 0x08, // length 8
        0x00, 0x00, // checksum
    ]
}

#[test]
fn short_unclassifiable_slice_reproduces_the_hex_dump() {
    let data = b"hello";
    let report = dissect(data);
    match &report {
        DissectionReport::NotIp { raw } => {
            assert_eq!(raw, &data.to_vec());
            assert_eq!(report.hex_view(), Some(hex_dump(data)));
        }
        _ => panic!("a five-byte frame cannot carry an IP header"),
    }
    // Dissecting again gives the same report, and formatting is idempotent
    // across repeated calls.
    assert_eq!(report, dissect(data));
    assert_eq!(hex_dump(data), hex_dump(data));
}

#[test]
fn ipv4_with_tcp_resolves_both_layers() {
    let mut frame = ipv4_header(6);
    frame.extend_from_slice(&tcp_header());
    let report = dissect(&frame);
    let expected = DissectionReport::Ip {
        network: NetworkHeader::V4(Ipv4Header {
            source: vec![192, 168, 0, 1],
            destination: vec![10, 0, 0, 1],
            protocol: 6,
            ttl: 64,
            total_length: 40,
            header_end: 20,
        }),
        transport: Ok(TransportHeader::Tcp {
            source_port: 80,
            destination_port: 443,
            sequence_number: 0x12345678,
            acknowledgment_number: 0x9abcdef0,
            syn: true,
            ack: true,
            fin: false,
            rst: false,
            psh: false,
            urg: false,
        }),
    };
    assert_eq!(report, expected);
}

#[test]
fn truncated_tcp_keeps_the_network_layer_and_marks_the_transport_failure() {
    let mut frame = ipv4_header(6);
    frame.extend_from_slice(&tcp_header()[..10]);
    let report = dissect(&frame);
    match report {
        DissectionReport::Ip { network, transport } => {
            match network {
                NetworkHeader::V4(h) => {
                    assert_eq!(h.source, vec![192, 168, 0, 1]);
                    assert_eq!(h.destination, vec![10, 0, 0, 1]);
                    assert_eq!(h.protocol, 6);
                    assert_eq!(h.header_end, 20);
                }
                _ => panic!("expected IPv4"),
            }
            assert_eq!(transport, Err(TransportError::TruncatedHeader));
        }
        _ => panic!("the network layer must survive a transport failure"),
    }
}

#[test]
fn ipv6_with_udp_resolves_both_layers_at_offset_forty() {
    let mut frame = ipv6_header(17);
    frame.extend_from_slice(&udp_header());
    let report = dissect(&frame);
    let expected = DissectionReport::Ip {
        network: NetworkHeader::V6(Ipv6Header {
            source: vec![0xfe, 0x80, 0, 0, 0, 0, 0, 0, 0, 0, 0, 0, 0, 0, 0, 1],
            destination: vec![0xfe, 0x80, 0, 0, 0, 0, 0, 0, 0, 0, 0, 0, 0, 0, 0, 2],
            next_header: 17,
            hop_limit: 64,
            payload_length: 8,
        }),
        transport: Ok(TransportHeader::Udp {
            source_port: 53,
            destination_port: 1234,
            length: 8,
        }),
    };
    assert_eq!(report, expected);
    match dissect(&frame) {
        DissectionReport::Ip { network, .. } => assert_eq!(network.header_end(), 40),
        _ => panic!("expected an IPv6 layer"),
    }
}

#[test]
fn unrecognized_protocol_is_classified_unknown_under_either_family() {
    let mut v4 = ipv4_header(47);
    v4.extend_from_slice(&[0xde, 0xad, 0xbe, 0xef]);
    match dissect(&v4) {
        DissectionReport::Ip { transport, .. } => {
            assert_eq!(transport, Ok(TransportHeader::Unknown { protocol: 47 }));
        }
        _ => panic!("expected an IPv4 layer"),
    }
    let mut v6 = ipv6_header(47);
    v6.extend_from_slice(&[0xde, 0xad, 0xbe, 0xef]);
    match dissect(&v6) {
        DissectionReport::Ip { transport, .. } => {
            assert_eq!(transport, Ok(TransportHeader::Unknown { protocol: 47 }));
        }
        _ => panic!("expected an IPv6 layer"),
    }
}

#[test]
fn icmp_is_family_bound() {
    assert_eq!(
        dissect_transport(IpFamily::V4, 1, &[8, 0, 0, 0]),
        Ok(TransportHeader::Icmpv4 { message_type: 8 })
    );
    assert_eq!(
        dissect_transport(IpFamily::V6, 58, &[128, 0, 0, 0]),
        Ok(TransportHeader::Icmpv6 { message_type: 128 })
    );
    assert_eq!(
        dissect_transport(IpFamily::V4, 58, &[128, 0, 0, 0]),
        Ok(TransportHeader::Unknown { protocol: 58 })
    );
    assert_eq!(
        dissect_transport(IpFamily::V6, 1, &[8, 0, 0, 0]),
        Ok(TransportHeader::Unknown { protocol: 1 })
    );
}

#[test]
fn recognized_protocols_fail_on_short_buffers() {
    assert_eq!(
        dissect_transport(IpFamily::V4, 6, &tcp_header()[..19]),
        Err(TransportError::TruncatedHeader)
    );
    assert_eq!(
        dissect_transport(IpFamily::V6, 17, &udp_header()[..7]),
        Err(TransportError::TruncatedHeader)
    );
    assert_eq!(
        dissect_transport(IpFamily::V4, 1, &[]),
        Err(TransportError::TruncatedHeader)
    );
    assert_eq!(
        dissect_transport(IpFamily::V6, 58, &[]),
        Err(TransportError::TruncatedHeader)
    );
}

#[test]
fn ipv4_options_move_the_payload_offset() {
    // Header length 6 words: twenty fixed bytes plus four bytes of options.
    let mut frame = ipv4_header(17);
    frame[0] = 0x46;
    frame.extend_from_slice(&[0x01, 0x02, 0x03, 0x04]);
    frame.extend_from_slice(&udp_header());
    match dissect(&frame) {
        DissectionReport::Ip { network, transport } => {
            assert_eq!(network.header_end(), 24);
            assert_eq!(
                transport,
                Ok(TransportHeader::Udp {
                    source_port: 53,
                    destination_port: 1234,
                    length: 8,
                })
            );
        }
        _ => panic!("expected an IPv4 layer"),
    }
}

#[test]
fn ill_formed_headers_fall_back_to_hex() {
    // Version nibble of neither family.
    let mut junk = vec![0x70u8];
    junk.extend_from_slice(&[0u8; 39]);
    assert!(matches!(dissect(&junk), DissectionReport::NotIp { .. }));

    // Version 4 but a header length below the fixed twenty bytes.
    let mut low_ihl = ipv4_header(6);
    low_ihl[0] = 0x44;
    assert!(matches!(dissect(&low_ihl), DissectionReport::NotIp { .. }));

    // Version 4 with a declared header length larger than the buffer.
    let mut overlong = ipv4_header(6);
    overlong[0] = 0x4f;
    assert!(matches!(dissect(&overlong), DissectionReport::NotIp { .. }));

    // Version 6 one byte short of the fixed header.
    let v6_short = ipv6_header(17)[..39].to_vec();
    assert!(matches!(dissect(&v6_short), DissectionReport::NotIp { .. }));

    // The empty frame.
    let report = dissect(&[]);
    match &report {
        DissectionReport::NotIp { raw } => assert!(raw.is_empty()),
        _ => panic!("the empty frame is not IP"),
    }
    assert_eq!(report.hex_view(), Some(vec![]));
}

#[test]
fn ipv4_is_tried_before_ipv6() {
    // A valid IPv4 frame stays IPv4 even when it is long enough for the
    // IPv6 check to have been possible.
    let mut frame = ipv4_header(6);
    frame.extend_from_slice(&tcp_header());
    frame.extend_from_slice(&[0u8; 32]);
    match dissect_network(&frame) {
        Some(NetworkHeader::V4(_)) => {}
        _ => panic!("IPv4 must be attempted first"),
    }
}

#[test]
fn big_endian_fields_read_exactly() {
    assert_eq!(read_be16(&[0x12, 0x34], 0), 0x1234);
    assert_eq!(read_be16(&[0x00, 0x12, 0x34], 1), 0x1234);
    assert_eq!(read_be32(&[0xde, 0xad, 0xbe, 0xef], 0), 0xdeadbeef);
}

#[test]
fn tcp_flag_bits_decode_individually() {
    let mut frame = ipv4_header(6);
    let mut tcp = tcp_header();
    tcp[13] = 0x29; // FIN | PSH | URG
    frame.extend_from_slice(&tcp);
    match dissect(&frame) {
        DissectionReport::Ip { transport, .. } => match transport {
            Ok(TransportHeader::Tcp { syn, ack, fin, rst, psh, urg, .. }) => {
                assert!(fin && psh && urg);
                assert!(!syn && !ack && !rst);
            }
            _ => panic!("expected TCP"),
        },
        _ => panic!("expected an IPv4 layer"),
    }
}
