use spring::packet::{
    build_echo_request_packet, build_icmp_echo_request, IcmpEchoRequestView, IpPacketView,
};
use spring::{EchoConfig, Ipv4Address, ICMP_HEADER_LEN, IP_HEADER_LEN, MAX_PACKET_LEN};

fn localhost_config() -> EchoConfig {
    EchoConfig {
        target: Ipv4Address { a: 127, b: 0, c: 0, d: 1 },
        payload_size: 56,
        count: 2,
        ttl: 54,
    }
}

#[test]
fn total_size_adds_headers_to_payload() {
    let config = localhost_config();
    assert_eq!(config.total_size(), IP_HEADER_LEN + ICMP_HEADER_LEN + 56);
    assert_eq!(config.total_size(), 84);
}

#[test]
fn total_size_of_empty_payload_is_the_headers() {
    let config = EchoConfig { payload_size: 0, ..localhost_config() };
    assert_eq!(config.total_size(), 28);
}

#[test]
fn total_size_is_capped_at_the_maximum() {
    // 28 + 1444 == 1472 still fits; one more byte is capped.
    let at_cap = EchoConfig { payload_size: 1444, ..localhost_config() };
    assert_eq!(at_cap.total_size(), MAX_PACKET_LEN);
    let over_cap = EchoConfig { payload_size: 1445, ..localhost_config() };
    assert_eq!(over_cap.total_size(), MAX_PACKET_LEN);
    let far_over = EchoConfig { payload_size: u16::MAX, ..localhost_config() };
    assert_eq!(far_over.total_size(), MAX_PACKET_LEN);
}

#[test]
fn ip_view_rejects_short_buffers() {
    assert!(IpPacketView::new(vec![0u8; IP_HEADER_LEN - 1]).is_none());
    assert!(IpPacketView::new(vec![0u8; IP_HEADER_LEN]).is_some());
}

#[test]
fn icmp_view_rejects_short_buffers() {
    assert!(IcmpEchoRequestView::new(vec![0u8; ICMP_HEADER_LEN - 1]).is_none());
    assert!(IcmpEchoRequestView::new(vec![0u8; ICMP_HEADER_LEN]).is_some());
}

#[test]
fn built_icmp_message_has_type_and_checksum() {
    let icmp = build_icmp_echo_request(vec![0u8; 64]);
    let bytes = icmp.into_bytes();
    assert_eq!(bytes.len(), 64);
    // Type Echo Request, code zero.
    assert_eq!(bytes[0], 8);
    assert_eq!(bytes[1], 0);
    // Checksum over the message (only the type byte is set): !0x0800.
    assert_eq!(bytes[2], 0xF7);
    assert_eq!(bytes[3], 0xFF);
    // Identifier, sequence number and payload are zero-filled.
    assert!(bytes[4..].iter().all(|&b| b == 0));
}

#[test]
fn sequence_number_is_written_big_endian() {
    let mut icmp = build_icmp_echo_request(vec![0u8; 16]);
    icmp.set_sequence_number(258);
    let bytes = icmp.into_bytes();
    assert_eq!(bytes[6], 1);
    assert_eq!(bytes[7], 2);
}

#[test]
fn built_packet_has_the_ip_header_fields() {
    let config = localhost_config();
    let packet = build_echo_request_packet(&config, 0);
    assert_eq!(packet.len(), 84);
    // Header length: five 32-bit words in the low nibble.
    assert_eq!(packet[0], 5);
    // Total length, big-endian.
    assert_eq!(packet[2], 0);
    assert_eq!(packet[3], 84);
    // Time-to-live and next-level protocol (ICMP).
    assert_eq!(packet[8], 54);
    assert_eq!(packet[9], 1);
    // Destination address.
    assert_eq!(&packet[16..20], &[127, 0, 0, 1]);
    // Fields left for the transport: identification, fragmentation, source.
    assert!(packet[10..16].iter().all(|&b| b == 0));
}

#[test]
fn built_packet_embeds_the_icmp_message() {
    let config = localhost_config();
    let packet = build_echo_request_packet(&config, 7);
    // The ICMP message starts right after the 20-byte header.
    assert_eq!(packet[20], 8);
    assert_eq!(packet[21], 0);
    assert_eq!(packet[22], 0xF7);
    assert_eq!(packet[23], 0xFF);
    // Sequence number, big-endian.
    assert_eq!(packet[26], 0);
    assert_eq!(packet[27], 7);
    // The 56 payload bytes pad the message with zeros.
    assert_eq!(packet.len() - 28, 56);
    assert!(packet[28..].iter().all(|&b| b == 0));
}

#[test]
fn ip_view_set_payload_replaces_the_payload_region() {
    let mut view = IpPacketView::new(vec![0xAAu8; 26]).unwrap();
    view.set_payload(&[1, 2, 3, 4]);
    let bytes = view.into_bytes();
    assert_eq!(&bytes[..20], &[0xAA; 20]);
    assert_eq!(&bytes[20..24], &[1, 2, 3, 4]);
    assert_eq!(&bytes[24..], &[0xAA, 0xAA]);
}
