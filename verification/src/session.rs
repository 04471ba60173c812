//! The Echo Session Loop as a state machine: it decides, step by step, which
//! packet to build next and what an inbound packet means, while the transport
//! work itself — sending, blocking on the next inbound packet — is performed
//! by the caller between steps.

use vstd::prelude::*;

use crate::packet::{build_echo_request_packet, echo_request_packet_bytes};
use crate::reply::{is_echo_reply, reply_payload, reply_seq, EchoReplyView};
use crate::{EchoConfig, Ipv4Address};

verus! {

/// What the session reports for one successful Echo Reply: the reply's payload
/// length, the address it came from, and the sequence number it mirrors.
#[derive(Clone, Copy, Debug, PartialEq, Eq, Structural)]
pub struct EchoRecord {
    pub payload_len: usize,
    pub source: Ipv4Address,
    pub seq: u16,
}

/// The outcome of one Match step: a parsed reply, or the malformed signal that
/// ends the run.
#[derive(Clone, Copy, Debug, PartialEq, Eq, Structural)]
pub enum ReplyOutcome {
    Reply(EchoRecord),
    Malformed,
}

/// The sequence numbers `0, 1, ..., n - 1`, in order.
pub open spec fn seqs_up_to(n: nat) -> Seq<u16> {
    Seq::new(n, |i: int| i as u16)
}

/// One echo run: a sequence counter over an immutable config, plus the abort
/// flag a malformed reply raises. The transport channel stays outside; the
/// session hands packets out and takes inbound bytes back as plain values.
pub struct EchoSession {
    config: EchoConfig,
    next_seq: u16,
    aborted: bool,
    sent: Ghost<Seq<u16>>,
}

impl EchoSession {
    /// The per-run parameters the session was started with.
    pub closed spec fn spec_config(&self) -> EchoConfig {
        self.config
    }

    /// The sequence number the next echo will carry.
    pub closed spec fn spec_next_seq(&self) -> u16 {
        self.next_seq
    }

    /// Whether a malformed reply has ended the run early.
    pub closed spec fn spec_aborted(&self) -> bool {
        self.aborted
    }

    /// The sequence numbers assigned so far, in the order they were assigned.
    pub closed spec fn sent_seqs(&self) -> Seq<u16> {
        self.sent@
    }

    /// The run is over: either the counter has passed the configured count, so
    /// all `count + 1` echoes were attempted, or a malformed reply aborted it.
    pub open spec fn spec_done(&self) -> bool {
        self.spec_aborted() || self.spec_next_seq() > self.spec_config().count
    }

    /// The counter never passes `count + 1`, and the sequence numbers assigned
    /// so far are exactly `0, 1, ..., next_seq - 1`, in order.
    pub open spec fn wf(&self) -> bool {
        &&& self.spec_next_seq() <= self.spec_config().count + 1
        &&& self.sent_seqs() == seqs_up_to(self.spec_next_seq() as nat)
    }

    /// Starts a run: the counter at zero, nothing sent, nothing aborted.
    pub fn new(config: EchoConfig) -> (s: EchoSession)
        ensures
            s.wf(),
            s.spec_config() == config,
            s.spec_next_seq() == 0,
            !s.spec_aborted(),
            !s.spec_done(),
            s.sent_seqs() == Seq::<u16>::empty(),
    {
        let s = EchoSession { config, next_seq: 0, aborted: false, sent: Ghost(Seq::empty()) };
        proof {
            assert(s.sent_seqs() =~= seqs_up_to(0));
        }
        s
    }

    /// One Build step. While the run is live this builds the Echo Request
    /// packet carrying the current counter value as its sequence number and
    /// advances the counter; sequence numbers therefore run `0` through
    /// `count`, so `count + 1` echoes are attempted in all. Once the run is
    /// over — the counter past the configured count, or the run aborted by a
    /// malformed reply — it yields nothing and changes nothing.
    pub fn next_request(&mut self) -> (r: Option<Vec<u8>>)
        requires
            old(self).wf(),
        ensures
            final(self).wf(),
            final(self).spec_config() == old(self).spec_config(),
            old(self).spec_done() ==> r is None && *final(self) == *old(self),
            !old(self).spec_done() ==> {
                &&& r is Some
                &&& r.unwrap()@ == echo_request_packet_bytes(
                    old(self).spec_config(),
                    old(self).spec_next_seq(),
                )
                &&& final(self).spec_next_seq() == old(self).spec_next_seq() + 1
                &&& final(self).spec_aborted() == old(self).spec_aborted()
                &&& final(self).sent_seqs() == old(self).sent_seqs().push(
                    old(self).spec_next_seq(),
                )
            },
    {
        if self.aborted || self.next_seq > self.config.count as u16 {
            None
        } else {
            let seq = self.next_seq;
            let packet = build_echo_request_packet(&self.config, seq);
            self.next_seq = seq + 1;
            proof {
                self.sent@ = self.sent@.push(seq);
                assert(self.sent@ =~= seqs_up_to(self.next_seq as nat));
            }
            Some(packet)
        }
    }

    /// One Match step on an inbound packet. A packet that parses as an Echo
    /// Reply yields its record — payload length, source, mirrored sequence
    /// number — and the run goes on; anything else yields the malformed signal
    /// and aborts the run, so that no further request is ever built.
    pub fn handle_reply(&mut self, packet: Vec<u8>, source: Ipv4Address) -> (r: ReplyOutcome)
        requires
            old(self).wf(),
        ensures
            final(self).wf(),
            final(self).spec_config() == old(self).spec_config(),
            final(self).spec_next_seq() == old(self).spec_next_seq(),
            final(self).sent_seqs() == old(self).sent_seqs(),
            is_echo_reply(packet@) ==> {
                &&& r == ReplyOutcome::Reply(
                    EchoRecord {
                        payload_len: reply_payload(packet@).len() as usize,
                        source,
                        seq: reply_seq(packet@),
                    },
                )
                &&& final(self).spec_aborted() == old(self).spec_aborted()
            },
            !is_echo_reply(packet@) ==> r == ReplyOutcome::Malformed
                && final(self).spec_aborted(),
    {
        match EchoReplyView::parse(packet) {
            Some(reply) => {
                let record = EchoRecord {
                    payload_len: reply.payload_len(),
                    source,
                    seq: reply.sequence_number(),
                };
                ReplyOutcome::Reply(record)
            },
            None => {
                self.aborted = true;
                ReplyOutcome::Malformed
            },
        }
    }
}

/// Sequence numbers across one run: a session that completed its run — the
/// counter past the configured count with no abort — assigned exactly the
/// sequence numbers `0, 1, ..., count`, inclusive and in order.
pub proof fn lemma_run_sequence_numbers(s: EchoSession)
    requires
        s.wf(),
        !s.spec_aborted(),
        s.spec_next_seq() > s.spec_config().count,
    ensures
        s.sent_seqs().len() == s.spec_config().count + 1,
        forall|i: int| 0 <= i <= s.spec_config().count ==> s.sent_seqs()[i] == i as u16,
{
}

} // verus!
