//! Which packets get into the jitter buffer.
use vstd::prelude::*;
use vstd::slice::slice_subrange;

use crate::engine::jitter::JitterBuffer;
use crate::net::secure::MediaCipher;
use crate::proto::{PayloadKind, ProtoError, RtpHeader, SeqExtender, RTP_HEADER_LEN};

verus! {

/// What became of a packet.
#[derive(Debug)]
pub enum Verdict {
    /// It is no RTP packet of ours.
    Malformed(ProtoError),
    /// It belongs to another stream.
    OtherStream,
    /// It carries something else than Opus.
    OtherPayload,
    /// It did not authenticate; the first such packet is worth a warning.
    Forged { first: bool },
    /// It is ours: its number and what it carries.
    Taken { ext: u64, payload: Vec<u8> },
}

/// What the intake of packets remembers.
pub struct IntakeView {
    /// The rollover counter and the highest number of the current round.
    pub roc: u32,
    pub top: Option<u16>,
    /// The stream that the first packet belonged to.
    pub ssrc: Option<u32>,
    /// How many packets did not authenticate.
    pub forged: nat,
}

/// The verdict on a packet, up to its payload.
pub enum Ruling {
    Malformed(ProtoError),
    OtherStream,
    OtherPayload,
    Forged { first: bool },
    Taken { ext: u64, payload: Seq<u8> },
}

impl View for Verdict {
    type V = Ruling;

    open spec fn view(&self) -> Ruling {
        match *self {
            Verdict::Malformed(e) => Ruling::Malformed(e),
            Verdict::OtherStream => Ruling::OtherStream,
            Verdict::OtherPayload => Ruling::OtherPayload,
            Verdict::Forged { first } => Ruling::Forged { first },
            Verdict::Taken { ext, payload } => Ruling::Taken { ext, payload: payload@ },
        }
    }
}

impl IntakeView {
    /// The counter that a wire number would get.
    pub open spec fn peek(self, seq: u16) -> u64 {
        crate::proto::seq::extended(
            crate::proto::seq::round_of(self.roc, self.top, seq),
            seq,
        )
    }

    /// What becomes of a packet under a media key, and what is remembered then.
    ///
    /// The first packet settles the sender; chance traffic on the port is not to
    /// mix with the stream. The number is only peeked at before the packet has
    /// proven that it is ours: a forged one must not move the rollover counter,
    /// which would tear the nonces of real packets apart.
    pub open spec fn rule(self, key: Seq<u8>, packet: Seq<u8>) -> (IntakeView, Ruling) {
        match RtpHeader::parsed(packet) {
            Err(e) => (self, Ruling::Malformed(e)),
            Ok(h) => if self.ssrc matches Some(s) && s != h.ssrc {
                (self, Ruling::OtherStream)
            } else {
                let settled = IntakeView { ssrc: Some(h.ssrc), ..self };
                if h.payload != PayloadKind::Opus {
                    (settled, Ruling::OtherPayload)
                } else {
                    match crate::net::secure::opened_to(
                        key,
                        self.peek(h.seq),
                        packet.take(RTP_HEADER_LEN as int),
                        packet.skip(RTP_HEADER_LEN as int),
                    ) {
                        None => (
                            IntakeView { forged: self.forged + 1, ..settled },
                            Ruling::Forged { first: self.forged == 0 },
                        ),
                        Some(payload) => (
                            IntakeView {
                                roc: crate::proto::seq::next_roc(self.roc, self.top, h.seq),
                                top: Some(crate::proto::seq::next_highest(self.top, h.seq)),
                                ..settled
                            },
                            Ruling::Taken { ext: self.peek(h.seq), payload },
                        ),
                    }
                }
            },
        }
    }
}

/// The intake of packets of one session.
pub struct Intake {
    extender: SeqExtender,
    expected_ssrc: Option<u32>,
    rejected: u64,
}

impl View for Intake {
    type V = IntakeView;

    closed spec fn view(&self) -> IntakeView {
        IntakeView {
            roc: self.extender.rounds(),
            top: self.extender.top(),
            ssrc: self.expected_ssrc,
            forged: self.rejected as nat,
        }
    }
}

impl Intake {
    pub fn new() -> (r: Self)
        ensures
            r@ == (IntakeView { roc: 0, top: None, ssrc: None, forged: 0 }),
    {
        Intake { extender: SeqExtender::new(), expected_ssrc: None, rejected: 0 }
    }

    /// Judges a packet as it came off the wire.
    pub fn receive(&mut self, cipher: &MediaCipher, packet: &[u8]) -> (r: Verdict)
        requires
            old(self)@.forged < u64::MAX,
        ensures
            (final(self)@, r@) == old(self)@.rule(cipher@, packet@),
    {
        let header = match RtpHeader::decode(packet) {
            Ok(h) => h,
            Err(e) => return Verdict::Malformed(e),
        };
        match self.expected_ssrc {
            None => {
                self.expected_ssrc = Some(header.ssrc);
            },
            Some(s) => {
                if s != header.ssrc {
                    return Verdict::OtherStream;
                }
            },
        }
        if header.payload != PayloadKind::Opus {
            return Verdict::OtherPayload;
        }
        let ext: u64 = self.extender.peek(header.seq);
        let head = slice_subrange(packet, 0, RTP_HEADER_LEN);
        let body = slice_subrange(packet, RTP_HEADER_LEN, packet.len());
        assert(head@ =~= packet@.take(RTP_HEADER_LEN as int));
        assert(body@ =~= packet@.skip(RTP_HEADER_LEN as int));
        match cipher.open(ext, head, body) {
            Ok(payload) => {
                self.extender.extend(header.seq);
                Verdict::Taken { ext, payload }
            },
            Err(_) => {
                let first: bool = self.rejected == 0;
                self.rejected += 1;
                Verdict::Forged { first }
            },
        }
    }
}

/// Judges a packet and puts it into the jitter buffer where it is ours. Gives
/// the packet's number, for the statistics, or the verdict on a packet that is
/// not.
pub fn take_in(
    intake: &mut Intake,
    cipher: &MediaCipher,
    packet: &[u8],
    buffer: &mut JitterBuffer,
) -> (r: Result<u64, Verdict>)
    requires
        old(intake)@.forged < u64::MAX,
        old(buffer).wf(),
        old(buffer)@.pushed < u64::MAX,
    ensures
        final(buffer).wf(),
        ({
            let (after, ruling) = old(intake)@.rule(cipher@, packet@);
            &&& final(intake)@ == after
            &&& match ruling {
                Ruling::Taken { ext, payload } => {
                    &&& r == Ok::<u64, Verdict>(ext)
                    &&& final(buffer)@ == old(buffer)@.push(ext, payload)
                },
                other => {
                    &&& r matches Err(verdict)
                    &&& verdict@ == other
                    &&& final(buffer)@ == old(buffer)@
                },
            }
        }),
{
    match intake.receive(cipher, packet) {
        Verdict::Taken { ext, payload } => {
            buffer.push(ext, payload);
            Ok(ext)
        },
        other => Err(other),
    }
}

/// A forged packet moves nothing but the count of forged packets and, as the
/// first packet at all, the stream: the rollover counter stays, so the numbers of
/// real packets stay too.
pub proof fn a_forged_packet_moves_no_counter(v: IntakeView, key: Seq<u8>, packet: Seq<u8>)
    ensures
        ({
            let (after, ruling) = v.rule(key, packet);
            !(ruling is Taken) ==> after.roc == v.roc && after.top == v.top
        }),
{
}

/// Once a stream is settled it stays settled, and no packet of another stream is
/// ever taken.
pub proof fn a_settled_stream_stays(v: IntakeView, key: Seq<u8>, packet: Seq<u8>)
    requires
        v.ssrc is Some,
    ensures
        ({
            let (after, ruling) = v.rule(key, packet);
            &&& after.ssrc == v.ssrc
            &&& ruling is Taken ==> (RtpHeader::parsed(packet) matches Ok(h) && h.ssrc == v.ssrc->0)
        }),
{
}

/// What is taken is what the holder of the media key sealed under that number
/// and header, as far as opening tells.
pub proof fn what_is_taken_opened(v: IntakeView, key: Seq<u8>, packet: Seq<u8>)
    ensures
        v.rule(key, packet).1 matches Ruling::Taken { ext, payload } ==> {
            &&& packet.len() >= RTP_HEADER_LEN
            &&& crate::net::secure::opened_to(
                key,
                ext,
                packet.take(RTP_HEADER_LEN as int),
                packet.skip(RTP_HEADER_LEN as int),
            ) == Some(payload)
        },
{
}

} // verus!
