use spring::session::{EchoSession, ReplyOutcome};
use spring::{EchoConfig, Ipv4Address, IP_HEADER_LEN};

fn localhost_config(count: u8) -> EchoConfig {
    EchoConfig {
        target: Ipv4Address { a: 127, b: 0, c: 0, d: 1 },
        payload_size: 56,
        count,
        ttl: 54,
    }
}

/// A responder that echoes the request's ICMP message verbatim, with the type
/// field flipped to Echo Reply.
fn echoing_responder(packet: &[u8]) -> Vec<u8> {
    let mut reply = packet[IP_HEADER_LEN..].to_vec();
    reply[0] = 0;
    reply
}

#[test]
fn sequence_numbers_run_from_zero_through_count() {
    let mut session = EchoSession::new(localhost_config(4));
    let mut seqs: Vec<u16> = Vec::new();
    while let Some(packet) = session.next_request() {
        // Sequence number of the outgoing ICMP message, big-endian.
        seqs.push(((packet[26] as u16) << 8) | packet[27] as u16);
        let reply = echoing_responder(&packet);
        session.handle_reply(reply, Ipv4Address { a: 127, b: 0, c: 0, d: 1 });
    }
    assert_eq!(seqs, vec![0, 1, 2, 3, 4]);
}

#[test]
fn run_against_echoing_responder_yields_every_record() {
    let source = Ipv4Address { a: 127, b: 0, c: 0, d: 1 };
    let mut session = EchoSession::new(localhost_config(2));
    let mut records = Vec::new();
    let mut malformed = 0;
    while let Some(packet) = session.next_request() {
        let reply = echoing_responder(&packet);
        match session.handle_reply(reply, source) {
            ReplyOutcome::Reply(record) => records.push(record),
            ReplyOutcome::Malformed => malformed += 1,
        }
    }
    assert_eq!(malformed, 0);
    assert_eq!(records.len(), 3);
    for (i, record) in records.iter().enumerate() {
        assert_eq!(record.seq, i as u16);
        assert_eq!(record.payload_len, 56);
        assert_eq!(record.source, source);
    }
}

#[test]
fn malformed_reply_aborts_the_run() {
    let source = Ipv4Address { a: 127, b: 0, c: 0, d: 1 };
    let mut session = EchoSession::new(localhost_config(2));
    let mut records = Vec::new();
    let mut malformed = 0;
    let mut sends = 0;
    while let Some(packet) = session.next_request() {
        sends += 1;
        let seq = ((packet[26] as u16) << 8) | packet[27] as u16;
        // The responder answers sequence 1 with an invalid type field.
        let reply = if seq == 1 {
            packet[IP_HEADER_LEN..].to_vec()
        } else {
            echoing_responder(&packet)
        };
        match session.handle_reply(reply, source) {
            ReplyOutcome::Reply(record) => records.push(record),
            ReplyOutcome::Malformed => malformed += 1,
        }
    }
    // One good record (sequence 0), then exactly one malformed notice, and no
    // further sends after that point.
    assert_eq!(records.len(), 1);
    assert_eq!(records[0].seq, 0);
    assert_eq!(malformed, 1);
    assert_eq!(sends, 2);
    assert!(session.next_request().is_none());
}

#[test]
fn count_zero_still_sends_one_echo() {
    let mut session = EchoSession::new(localhost_config(0));
    assert!(session.next_request().is_some());
    assert!(session.next_request().is_none());
}

#[test]
fn packets_are_rebuilt_fresh_each_iteration() {
    let mut session = EchoSession::new(localhost_config(1));
    let first = session.next_request().unwrap();
    let second = session.next_request().unwrap();
    assert_eq!(first.len(), second.len());
    // Identical but for the sequence number.
    assert_eq!(first[..26], second[..26]);
    assert_eq!(first[27], 0);
    assert_eq!(second[27], 1);
}
