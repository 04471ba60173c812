//! A minimal ICMP echo ("ping") core: IPv4/ICMP Echo Request construction,
//! Internet checksumming, Echo Reply parsing, and the send/receive session
//! state machine. Transport (raw sockets) and argument handling live outside
//! this crate; the session hands fully built packets out as plain bytes and
//! takes inbound packets back as plain bytes.

use vstd::prelude::*;

pub mod checksum;
pub mod packet;
pub mod reply;
pub mod session;

verus! {

/// Length in bytes of the IPv4 header built here (no IP options).
pub const IP_HEADER_LEN: usize = 20;

/// Length in bytes of the ICMP echo header (type, code, checksum, identifier,
/// sequence number).
pub const ICMP_HEADER_LEN: usize = 8;

/// Maximum transmissible packet size in bytes; a larger requested size is
/// capped to this, never rejected.
pub const MAX_PACKET_LEN: usize = 1472;

/// ICMP message type of an Echo Request.
pub const ICMP_ECHO_REQUEST: u8 = 8;

/// ICMP message type of an Echo Reply.
pub const ICMP_ECHO_REPLY: u8 = 0;

/// IPv4 next-level-protocol number of ICMP.
pub const IP_PROTOCOL_ICMP: u8 = 1;

/// An IPv4 address as its four octets.
#[derive(Clone, Copy, Debug, PartialEq, Eq, Structural)]
pub struct Ipv4Address {
    pub a: u8,
    pub b: u8,
    pub c: u8,
    pub d: u8,
}

/// The immutable per-run parameters of an echo session.
#[derive(Clone, Copy, Debug, PartialEq, Eq, Structural)]
pub struct EchoConfig {
    /// Destination IPv4 address.
    pub target: Ipv4Address,
    /// Requested payload size in bytes.
    pub payload_size: u16,
    /// How far the sequence counter runs; `count + 1` echoes are attempted in
    /// all, with sequence numbers `0` through `count`.
    pub count: u8,
    /// Time-to-live written into the IPv4 header.
    pub ttl: u8,
}

/// The effective total packet size for a requested payload size: IP header
/// plus ICMP header plus payload, silently capped at `MAX_PACKET_LEN`.
pub open spec fn effective_total_size(payload_size: nat) -> nat {
    if IP_HEADER_LEN + ICMP_HEADER_LEN + payload_size <= MAX_PACKET_LEN {
        (IP_HEADER_LEN + ICMP_HEADER_LEN + payload_size) as nat
    } else {
        MAX_PACKET_LEN as nat
    }
}

impl EchoConfig {
    /// The effective total packet size: for every payload size `s` this is
    /// `IP_HEADER_LEN + ICMP_HEADER_LEN + s` when that sum is at most
    /// `MAX_PACKET_LEN`, and `MAX_PACKET_LEN` otherwise.
    pub fn total_size(&self) -> (r: usize)
        ensures
            r == effective_total_size(self.payload_size as nat),
            IP_HEADER_LEN + ICMP_HEADER_LEN + self.payload_size <= MAX_PACKET_LEN ==> r
                == IP_HEADER_LEN + ICMP_HEADER_LEN + self.payload_size,
            IP_HEADER_LEN + ICMP_HEADER_LEN + self.payload_size > MAX_PACKET_LEN ==> r
                == MAX_PACKET_LEN,
            IP_HEADER_LEN + ICMP_HEADER_LEN <= r <= MAX_PACKET_LEN,
    {
        let requested = IP_HEADER_LEN + ICMP_HEADER_LEN + self.payload_size as usize;
        if requested <= MAX_PACKET_LEN {
            requested
        } else {
            MAX_PACKET_LEN
        }
    }
}

} // verus!
