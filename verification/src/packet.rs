//! Packet builders: bounds-checked mutable views over byte buffers, and the
//! functions that fill them in as an IPv4 header and an ICMP Echo Request.

use vstd::prelude::*;

use crate::checksum::{
    checksum_of, internet_checksum, lemma_checksum_round_trip, skip_word, words_of,
};
use crate::{
    effective_total_size, EchoConfig, Ipv4Address, ICMP_ECHO_REQUEST, ICMP_HEADER_LEN,
    IP_HEADER_LEN, IP_PROTOCOL_ICMP,
};

verus! {

/// The word index the builder passes to the checksum engine as the one to
/// skip. In the ICMP echo header this is the identifier word; it is still zero
/// when the checksum is computed, so skipping it leaves the sum unchanged.
pub const CHECKSUM_SKIP_WORD: usize = 2;

/// The high byte of a 16-bit value written big-endian.
pub open spec fn be16_hi(v: u16) -> u8 {
    (v / 256) as u8
}

/// The low byte of a 16-bit value written big-endian.
pub open spec fn be16_lo(v: u16) -> u8 {
    (v % 256) as u8
}

/// A sequence of `len` zero bytes.
pub open spec fn zero_bytes(len: nat) -> Seq<u8> {
    Seq::new(len, |i: int| 0u8)
}

/// A bounds-checked mutable view over a byte buffer holding an IPv4 packet:
/// typed setters for the header fields and the payload region. Construction is
/// rejected when the buffer cannot hold a minimal 20-byte header.
pub struct IpPacketView {
    buf: Vec<u8>,
}

impl View for IpPacketView {
    type V = Seq<u8>;

    closed spec fn view(&self) -> Seq<u8> {
        self.buf@
    }
}

impl IpPacketView {
    /// The buffer holds at least a minimal IPv4 header.
    pub open spec fn wf(&self) -> bool {
        self@.len() >= IP_HEADER_LEN
    }

    /// Wraps `buf`, rejecting a buffer shorter than a minimal IPv4 header.
    pub fn new(buf: Vec<u8>) -> (r: Option<IpPacketView>)
        ensures
            r is Some <==> buf@.len() >= IP_HEADER_LEN,
            r is Some ==> r.unwrap()@ == buf@ && r.unwrap().wf(),
    {
        if buf.len() >= IP_HEADER_LEN {
            Some(IpPacketView { buf })
        } else {
            None
        }
    }

    /// Writes the time-to-live field.
    pub fn set_ttl(&mut self, ttl: u8)
        requires
            old(self).wf(),
        ensures
            final(self)@ == old(self)@.update(8, ttl),
    {
        self.buf.set(8, ttl);
    }

    /// Writes the header-length field: the low nibble of the first byte
    /// becomes the header length in 32-bit words. Only lengths that fit the
    /// four-bit field are accepted; no IP options are supported, so the
    /// builder always passes the minimal 20 bytes.
    pub fn set_header_length(&mut self, len: u8)
        requires
            old(self).wf(),
            len % 4 == 0,
            len <= 60,
        ensures
            final(self)@ == old(self)@.update(0, (old(self)@[0] & 0xF0) | (len / 4)),
    {
        let b0 = self.buf[0];
        self.buf.set(0, (b0 & 0xF0) | (len / 4));
    }

    /// Writes the total-length field, big-endian.
    pub fn set_total_length(&mut self, len: u16)
        requires
            old(self).wf(),
        ensures
            final(self)@ == old(self)@.update(2, be16_hi(len)).update(3, be16_lo(len)),
    {
        self.buf.set(2, (len / 256) as u8);
        self.buf.set(3, (len % 256) as u8);
    }

    /// Writes the next-level-protocol field.
    pub fn set_next_level_protocol(&mut self, protocol: u8)
        requires
            old(self).wf(),
        ensures
            final(self)@ == old(self)@.update(9, protocol),
    {
        self.buf.set(9, protocol);
    }

    /// Writes the destination address field.
    pub fn set_destination(&mut self, target: Ipv4Address)
        requires
            old(self).wf(),
        ensures
            final(self)@ == old(self)@.update(16, target.a).update(17, target.b).update(
                18,
                target.c,
            ).update(19, target.d),
    {
        self.buf.set(16, target.a);
        self.buf.set(17, target.b);
        self.buf.set(18, target.c);
        self.buf.set(19, target.d);
    }

    /// Copies `payload` into the payload region, directly after the 20-byte
    /// header; the header and anything past the payload are untouched.
    pub fn set_payload(&mut self, payload: &[u8])
        requires
            old(self).wf(),
            IP_HEADER_LEN + payload@.len() <= old(self)@.len(),
        ensures
            final(self)@ == old(self)@.take(IP_HEADER_LEN as int).add(payload@).add(
                old(self)@.skip(IP_HEADER_LEN + payload@.len()),
            ),
    {
        let n = payload.len();
        let buf_len = self.buf.len();
        assert(self@.len() == buf_len);
        let mut i: usize = 0;
        while i < n
            invariant
                i <= n,
                n == payload@.len(),
                IP_HEADER_LEN + n <= self@.len(),
                self@.len() <= usize::MAX,
                self@.len() == old(self)@.len(),
                forall|j: int| 0 <= j < IP_HEADER_LEN ==> self@[j] == old(self)@[j],
                forall|j: int| 0 <= j < i ==> self@[IP_HEADER_LEN + j] == payload@[j],
                forall|j: int|
                    IP_HEADER_LEN + i <= j < self@.len() ==> self@[j] == old(self)@[j],
            decreases n - i,
        {
            self.buf.set(IP_HEADER_LEN + i, payload[i]);
            i = i + 1;
        }
        proof {
            assert(self@ =~= old(self)@.take(IP_HEADER_LEN as int).add(payload@).add(
                old(self)@.skip(IP_HEADER_LEN + payload@.len()),
            ));
        }
    }

    /// Hands the underlying buffer back.
    pub fn into_bytes(self) -> (r: Vec<u8>)
        ensures
            r@ == self@,
    {
        self.buf
    }
}

/// A bounds-checked mutable view over a byte buffer holding an ICMP echo
/// message: typed setters for the header fields. Construction is rejected when
/// the buffer cannot hold the 8-byte echo header.
pub struct IcmpEchoRequestView {
    buf: Vec<u8>,
}

impl View for IcmpEchoRequestView {
    type V = Seq<u8>;

    closed spec fn view(&self) -> Seq<u8> {
        self.buf@
    }
}

impl IcmpEchoRequestView {
    /// The buffer holds at least the ICMP echo header.
    pub open spec fn wf(&self) -> bool {
        self@.len() >= ICMP_HEADER_LEN
    }

    /// Wraps `buf`, rejecting a buffer shorter than the ICMP echo header.
    pub fn new(buf: Vec<u8>) -> (r: Option<IcmpEchoRequestView>)
        ensures
            r is Some <==> buf@.len() >= ICMP_HEADER_LEN,
            r is Some ==> r.unwrap()@ == buf@ && r.unwrap().wf(),
    {
        if buf.len() >= ICMP_HEADER_LEN {
            Some(IcmpEchoRequestView { buf })
        } else {
            None
        }
    }

    /// Writes the message-type field.
    pub fn set_icmp_type(&mut self, t: u8)
        requires
            old(self).wf(),
        ensures
            final(self)@ == old(self)@.update(0, t),
    {
        self.buf.set(0, t);
    }

    /// Writes the checksum field, big-endian.
    pub fn set_checksum(&mut self, checksum: u16)
        requires
            old(self).wf(),
        ensures
            final(self)@ == old(self)@.update(2, be16_hi(checksum)).update(3, be16_lo(checksum)),
    {
        self.buf.set(2, (checksum / 256) as u8);
        self.buf.set(3, (checksum % 256) as u8);
    }

    /// Writes the sequence-number field, big-endian.
    pub fn set_sequence_number(&mut self, seq: u16)
        requires
            old(self).wf(),
        ensures
            final(self)@ == old(self)@.update(6, be16_hi(seq)).update(7, be16_lo(seq)),
    {
        self.buf.set(6, (seq / 256) as u8);
        self.buf.set(7, (seq % 256) as u8);
    }

    /// The message bytes, for checksumming and for embedding as a payload.
    pub fn as_bytes(&self) -> (r: &[u8])
        ensures
            r@ == self@,
    {
        self.buf.as_slice()
    }

    /// Hands the underlying buffer back.
    pub fn into_bytes(self) -> (r: Vec<u8>)
        ensures
            r@ == self@,
    {
        self.buf
    }
}

/// The ICMP Echo Request message before its checksum is written: type set to
/// Echo Request, every other byte (code, checksum, identifier, sequence
/// number, padding payload) zero.
pub open spec fn icmp_initial_bytes(len: nat) -> Seq<u8> {
    Seq::new(
        len,
        |i: int|
            if i == 0 {
                ICMP_ECHO_REQUEST
            } else {
                0u8
            },
    )
}

/// The checksum the builder writes: computed over the message while only its
/// type field is set, the identifier word skipped (it is zero then, so the sum
/// covers the whole message).
pub open spec fn icmp_request_checksum(len: nat) -> u16 {
    checksum_of(skip_word(words_of(icmp_initial_bytes(len)), CHECKSUM_SKIP_WORD as int))
}

/// The ICMP Echo Request message as the builder leaves it: type set, payload
/// zero-filled, checksum written last. The sequence number is still zero; the
/// caller sets it afterwards, per echo.
pub open spec fn icmp_request_bytes(len: nat) -> Seq<u8> {
    icmp_initial_bytes(len).update(2, be16_hi(icmp_request_checksum(len))).update(
        3,
        be16_lo(icmp_request_checksum(len)),
    )
}

/// The message the builder leaves carries a correct Internet checksum: the
/// checksum over the whole message, checksum word included, is zero. (Writing
/// the sequence number afterwards changes the message without recomputing the
/// checksum; the builder's contract is to write the checksum last, over the
/// message as it stands.)
pub proof fn lemma_built_message_checksum(len: nat)
    requires
        len >= ICMP_HEADER_LEN,
    ensures
        checksum_of(words_of(icmp_request_bytes(len))) == 0,
{
    let base = icmp_initial_bytes(len);
    let ws = words_of(base);
    let c = icmp_request_checksum(len);
    // The skipped identifier word is zero, so skipping it changes nothing.
    assert(skip_word(ws, CHECKSUM_SKIP_WORD as int) =~= ws);
    // The checksum word of the base message is zero, so the round trip applies.
    assert(ws[1] == 0);
    lemma_checksum_round_trip(ws, 1);
    // Writing the checksum's two big-endian bytes updates exactly word 1.
    assert((c / 256) * 256 + c % 256 == c);
    assert(words_of(icmp_request_bytes(len)) =~= ws.update(1, c));
}

/// Builds an ICMP Echo Request into `buf`, whatever it held: zero-fills it,
/// sets the type field to Echo Request, and computes and writes the checksum
/// last. The sequence number is the one field that varies per call, so it is
/// not set here: the caller sets it after construction.
pub fn build_icmp_echo_request(buf: Vec<u8>) -> (r: IcmpEchoRequestView)
    requires
        buf@.len() >= ICMP_HEADER_LEN,
    ensures
        r.wf(),
        r@ == icmp_request_bytes(buf@.len()),
{
    let ghost len = buf@.len();
    let buf = zero_fill(buf);
    let mut view = IcmpEchoRequestView::new(buf).unwrap();
    view.set_icmp_type(ICMP_ECHO_REQUEST);
    proof {
        assert(view@ =~= icmp_initial_bytes(len));
    }
    let checksum = internet_checksum(view.as_bytes(), CHECKSUM_SKIP_WORD);
    view.set_checksum(checksum);
    view
}

/// The IPv4 header bytes the builder produces over a zeroed buffer of length
/// `total`: header length of five 32-bit words, total length, time-to-live,
/// next-level-protocol ICMP, destination address. The version, identification,
/// fragmentation and source fields are left zero for the transport layer to
/// fill, a documented simplification.
pub open spec fn ip_header_bytes(config: EchoConfig, total: nat) -> Seq<u8> {
    Seq::new(
        IP_HEADER_LEN as nat,
        |i: int|
            if i == 0 {
                (IP_HEADER_LEN / 4) as u8
            } else if i == 2 {
                be16_hi(total as u16)
            } else if i == 3 {
                be16_lo(total as u16)
            } else if i == 8 {
                config.ttl
            } else if i == 9 {
                IP_PROTOCOL_ICMP
            } else if i == 16 {
                config.target.a
            } else if i == 17 {
                config.target.b
            } else if i == 18 {
                config.target.c
            } else if i == 19 {
                config.target.d
            } else {
                0u8
            },
    )
}

/// Builds an IPv4 header into `buf`, whatever it held: zero-fills it, then
/// writes header length, total length (the buffer's own length), time-to-live,
/// next-level-protocol ICMP and the destination address. The payload region is
/// left zeroed for `IpPacketView::set_payload`.
pub fn build_ip_packet(buf: Vec<u8>, config: &EchoConfig) -> (r: IpPacketView)
    requires
        IP_HEADER_LEN <= buf@.len() <= 0xFFFF,
    ensures
        r.wf(),
        r@.len() == buf@.len(),
        r@ == ip_header_bytes(*config, buf@.len()).add(zero_bytes((buf@.len() - IP_HEADER_LEN) as nat)),
{
    let ghost len = buf@.len();
    let total = buf.len();
    let buf = zero_fill(buf);
    let mut view = IpPacketView::new(buf).unwrap();
    view.set_header_length(IP_HEADER_LEN as u8);
    view.set_total_length(total as u16);
    view.set_ttl(config.ttl);
    view.set_next_level_protocol(IP_PROTOCOL_ICMP);
    view.set_destination(config.target);
    proof {
        assert((0u8 & 0xF0) | (20u8 / 4) == 5u8) by (bit_vector);
        assert(view@ =~= ip_header_bytes(*config, len).add(
            zero_bytes((len - IP_HEADER_LEN) as nat),
        ));
    }
    view
}

/// The complete Echo Request packet the session sends for sequence number
/// `seq`: the IPv4 header followed by the ICMP message with `seq` written into
/// its sequence-number field.
pub open spec fn echo_request_packet_bytes(config: EchoConfig, seq: u16) -> Seq<u8> {
    let total = effective_total_size(config.payload_size as nat);
    ip_header_bytes(config, total).add(
        icmp_request_bytes((total - IP_HEADER_LEN) as nat).update(6, be16_hi(seq)).update(
            7,
            be16_lo(seq),
        ),
    )
}

/// Builds the complete IP+ICMP Echo Request packet for one echo: fresh
/// buffers sized from the config, both headers built, the sequence number set,
/// and the ICMP message embedded as the IP packet's payload.
pub fn build_echo_request_packet(config: &EchoConfig, seq: u16) -> (r: Vec<u8>)
    ensures
        r@ == echo_request_packet_bytes(*config, seq),
        r@.len() == effective_total_size(config.payload_size as nat),
{
    let total = config.total_size();
    let icmp_len = total - IP_HEADER_LEN;
    let ip_buf = vec![0u8; total];
    let icmp_buf = vec![0u8; icmp_len];
    let mut ip_pkt = build_ip_packet(ip_buf, config);
    let mut icmp_pkt = build_icmp_echo_request(icmp_buf);
    icmp_pkt.set_sequence_number(seq);
    ip_pkt.set_payload(icmp_pkt.as_bytes());
    let r = ip_pkt.into_bytes();
    proof {
        assert(r@ =~= echo_request_packet_bytes(*config, seq));
    }
    r
}

/// Overwrites every byte of `buf` with zero, keeping its length.
fn zero_fill(buf: Vec<u8>) -> (r: Vec<u8>)
    ensures
        r@ == zero_bytes(buf@.len()),
{
    let mut b = buf;
    let len = b.len();
    let mut i: usize = 0;
    while i < len
        invariant
            i <= len,
            b@.len() == len,
            forall|j: int| 0 <= j < i ==> b@[j] == 0u8,
        decreases len - i,
    {
        b.set(i, 0u8);
        i = i + 1;
    }
    proof {
        assert(b@ =~= zero_bytes(b@.len()));
    }
    b
}

} // verus!
