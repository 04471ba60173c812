//! The Reply Matcher: parses inbound raw bytes as an ICMP Echo Reply, or
//! rejects them with an explicit malformed signal.

use vstd::prelude::*;

use crate::{ICMP_ECHO_REPLY, ICMP_HEADER_LEN};

verus! {

/// A buffer parses as an ICMP Echo Reply exactly when it holds at least the
/// 8-byte ICMP header and its type field is Echo Reply.
pub open spec fn is_echo_reply(bytes: Seq<u8>) -> bool {
    bytes.len() >= ICMP_HEADER_LEN && bytes[0] == ICMP_ECHO_REPLY
}

/// The sequence number an ICMP echo message carries: big-endian bytes 6 and 7.
pub open spec fn reply_seq(bytes: Seq<u8>) -> u16
    recommends
        bytes.len() >= ICMP_HEADER_LEN,
{
    ((bytes[6] as int) * 256 + bytes[7]) as u16
}

/// The payload of an ICMP echo message: everything after the 8-byte header.
pub open spec fn reply_payload(bytes: Seq<u8>) -> Seq<u8>
    recommends
        bytes.len() >= ICMP_HEADER_LEN,
{
    bytes.skip(ICMP_HEADER_LEN as int)
}

/// A read-only view over an inbound packet that parsed as an Echo Reply.
/// It exists only after a successful parse: a malformed packet yields no view.
pub struct EchoReplyView {
    buf: Vec<u8>,
}

impl View for EchoReplyView {
    type V = Seq<u8>;

    closed spec fn view(&self) -> Seq<u8> {
        self.buf@
    }
}

impl EchoReplyView {
    /// The bytes parsed as an Echo Reply.
    pub open spec fn wf(&self) -> bool {
        is_echo_reply(self@)
    }

    /// Parses inbound bytes as an ICMP Echo Reply: yields the view exactly
    /// when the bytes are well formed (at least a whole ICMP header, type
    /// field Echo Reply), and the explicit malformed signal (`None`)
    /// otherwise — never a partially populated view.
    pub fn parse(bytes: Vec<u8>) -> (r: Option<EchoReplyView>)
        ensures
            r is Some <==> is_echo_reply(bytes@),
            r is Some ==> r.unwrap()@ == bytes@ && r.unwrap().wf(),
    {
        if bytes.len() >= ICMP_HEADER_LEN && bytes[0] == ICMP_ECHO_REPLY {
            Some(EchoReplyView { buf: bytes })
        } else {
            None
        }
    }

    /// The message-type field; always Echo Reply, or the view would not exist.
    pub fn icmp_type(&self) -> (t: u8)
        requires
            self.wf(),
        ensures
            t == ICMP_ECHO_REPLY,
    {
        self.buf[0]
    }

    /// The sequence number mirrored back by the responder.
    pub fn sequence_number(&self) -> (seq: u16)
        requires
            self.wf(),
        ensures
            seq == reply_seq(self@),
    {
        (self.buf[6] as u16) * 256 + self.buf[7] as u16
    }

    /// The length of the payload: the bytes after the ICMP header.
    pub fn payload_len(&self) -> (n: usize)
        requires
            self.wf(),
        ensures
            n == reply_payload(self@).len(),
    {
        self.buf.len() - ICMP_HEADER_LEN
    }

    /// The payload bytes themselves.
    pub fn payload(&self) -> (p: &[u8])
        requires
            self.wf(),
        ensures
            p@ == reply_payload(self@),
    {
        let len = self.buf.len();
        vstd::slice::slice_subrange(self.buf.as_slice(), ICMP_HEADER_LEN, len)
    }
}

} // verus!
