//! The sending side: offering a stream, making packets of encoded frames, and
//! finding the receiver.
//!
//! The pace comes from the sound card: a frame goes out when the audio callback
//! has delivered the material for it. There is no clock of our own.
use vstd::prelude::*;

use crate::engine::lcg::step;
use crate::net::discovery::Peer;
use crate::net::secure::{CipherError, MediaCipher, MEDIA_TAG_LEN};
use crate::proto::{
    Accept, ControlMsg, Hello, PayloadKind, RtpHeader, Stats, FRAME_MS, FRAME_SAMPLES,
    PROTOCOL_VERSION, RTP_HEADER_LEN, SAMPLE_RATE,
};
use crate::session::pair::{Due, SetupError};
use crate::text::{append, chars_of, contains, push_number, same_but_for_case, to_lowercase};

verus! {

/// A second of sound. Should the network thread get stuck, we rather lose samples
/// than grow without end.
pub const RING_SAMPLES: usize = 48_000;

/// How long to wait for answers from the network, in milliseconds. The first one
/// usually comes within tens of milliseconds, but another machine may speak up
/// later, and a list that changes under one's fingers is worse than one that
/// takes a moment.
pub const DISCOVERY_WINDOW_MS: u64 = 2500;

/// How many samples the resampler is given at once. Any size will do, so it need
/// not divide the rate of the device.
pub const RESAMPLE_CHUNK: usize = 480;

/// A pseudo device: a synthetic sine instead of a microphone.
///
/// It lets the whole path be tried (codec, network, jitter buffer, sink) on a
/// machine without a microphone, and gives a signal of known shape to see that
/// nothing distorts it on the other side.
pub const TONE_SELECTOR: &'static str = "tone";

/// How the tone introduces itself.
pub const TONE_NAME: &'static str = "tone — generator 440 Hz";

/// The largest body of a packet.
pub const MAX_BODY: usize = 1500;

/// Whether a selector asks for the tone.
pub fn is_tone(device: &str) -> (r: bool)
    ensures
        r == (crate::text::ascii_lowered(device@) == crate::text::ascii_lowered(TONE_SELECTOR@)),
{
    same_but_for_case(device, TONE_SELECTOR)
}

/// Drops packets on purpose just before they are sent, for diagnosis.
///
/// `tc netem` is of Linux, and both sides have to be tried, also where the sender
/// is on Windows. The seed is fixed, so a run can be repeated.
pub struct Dropper {
    /// A draw below this drops the packet.
    threshold: u64,
    state: u64,
    pub dropped: u64,
}

/// Where a dropper stands.
pub struct DropperView {
    pub threshold: u64,
    pub state: u64,
    pub dropped: nat,
}

/// The length of a frame in nanoseconds.
pub const FRAME_NS: u64 = 10_000_000;

/// When the next frame of the tone is due, and how long to wait for it. A
/// generator that fell behind starts counting anew and does not catch up.
pub fn tone_pace(deadline: u64, now: u64) -> (r: (u64, Option<u64>))
    requires
        deadline <= u64::MAX - FRAME_NS,
    ensures
        ({
            let due = deadline + FRAME_NS;
            r == if now <= due {
                (due as u64, Some((due - now) as u64))
            } else {
                (now, None)
            }
        }),
{
    let due: u64 = deadline + FRAME_NS;
    if now <= due {
        (due, Some(due - now))
    } else {
        (now, None)
    }
}

/// The state that every dropper starts from.
pub const DROPPER_SEED: u64 = 0x2545_F491_4F6C_DD1D;

impl View for Dropper {
    type V = DropperView;

    closed spec fn view(&self) -> DropperView {
        DropperView {
            threshold: self.threshold,
            state: self.state,
            dropped: self.dropped as nat,
        }
    }
}

impl DropperView {
    /// Whether the next packet is dropped.
    pub open spec fn drops(self) -> bool {
        self.threshold != 0 && crate::engine::lcg::successor(self.state) < self.threshold
    }

    /// The dropper after the next packet.
    pub open spec fn next(self) -> DropperView {
        if self.threshold == 0 {
            self
        } else {
            DropperView {
                state: crate::engine::lcg::successor(self.state),
                dropped: self.dropped + if self.drops() {
                    1nat
                } else {
                    0
                },
                ..self
            }
        }
    }
}

impl Dropper {
    /// A dropper that drops a packet when a draw of 64 bits is below the
    /// threshold.
    pub fn new(threshold: u64) -> (r: Self)
        ensures
            r@ == (DropperView { threshold, state: DROPPER_SEED, dropped: 0 }),
    {
        Dropper { threshold, state: DROPPER_SEED, dropped: 0 }
    }

    /// How many packets were dropped.
    pub fn dropped(&self) -> (r: u64)
        ensures
            r == self@.dropped,
    {
        self.dropped
    }

    /// Whether to drop the next packet.
    pub fn should_drop(&mut self) -> (r: bool)
        requires
            old(self)@.dropped < u64::MAX,
        ensures
            r == old(self)@.drops(),
            final(self)@ == old(self)@.next(),
    {
        if self.threshold == 0 {
            return false;
        }
        self.state = step(self.state);
        let drop: bool = self.state < self.threshold;
        if drop {
            self.dropped += 1;
        }
        drop
    }
}

/// A threshold of nothing drops nothing, whatever was drawn before.
pub proof fn zero_percent_drops_nothing(d: DropperView)
    requires
        d.threshold == 0,
    ensures
        !d.drops(),
        d.next() == d,
{
}

/// What the sender offers.
pub fn offer(device: String, host: String) -> (r: ControlMsg)
    ensures
        r == ControlMsg::Hello(
            Hello {
                version: PROTOCOL_VERSION,
                payload: PayloadKind::Opus,
                sample_rate: SAMPLE_RATE,
                channels: 1,
                frame_ms: FRAME_MS,
                device,
                host,
            },
        ),
{
    ControlMsg::Hello(
        Hello {
            version: PROTOCOL_VERSION,
            payload: PayloadKind::Opus,
            sample_rate: SAMPLE_RATE,
            channels: 1,
            frame_ms: FRAME_MS,
            device,
            host,
        },
    )
}

/// A receiver takes what a sender offers.
pub proof fn our_offer_is_taken(device: String, host: String)
    ensures
        crate::session::recv::objection(
            Hello {
                version: PROTOCOL_VERSION,
                payload: PayloadKind::Opus,
                sample_rate: SAMPLE_RATE,
                channels: 1,
                frame_ms: FRAME_MS,
                device,
                host,
            },
        ) is None,
{
}

/// Why the receiver's answer does not start a session.
#[derive(Debug)]
pub enum AnswerError {
    Setup(SetupError),
    /// The media key is of no use.
    Key(CipherError),
}

/// The sending side takes the answer to its offer: gives what the receiver said,
/// with the cipher of the session's media.
pub fn on_answer(msg: ControlMsg) -> (r: Result<(Accept, MediaCipher), AnswerError>)
    ensures
        match msg {
            ControlMsg::Accept(a) => if a.media_key@.len() != crate::net::secure::KEY_LEN {
                r matches Err(AnswerError::Key(e)) && e == CipherError::KeyLength(
                    a.media_key@.len() as usize,
                )
            } else if a.version != PROTOCOL_VERSION {
                r matches Err(AnswerError::Setup(e)) && e == SetupError::WrongVersion(a.version)
            } else {
                r matches Ok((accept, cipher)) && accept == a && cipher@ == a.media_key@
            },
            ControlMsg::Reject { reason } => r matches Err(AnswerError::Setup(e)) && e
                == SetupError::Refused(reason),
            other => r matches Err(AnswerError::Setup(e)) && e == SetupError::Unexpected(
                Due::HelloAnswer,
                other,
            ),
        },
{
    match msg {
        ControlMsg::Accept(a) => {
            let cipher = match MediaCipher::new(a.media_key.as_slice()) {
                Ok(c) => c,
                Err(e) => return Err(AnswerError::Key(e)),
            };
            if a.version != PROTOCOL_VERSION {
                return Err(AnswerError::Setup(SetupError::WrongVersion(a.version)));
            }
            Ok((a, cipher))
        },
        ControlMsg::Reject { reason } => Err(AnswerError::Setup(SetupError::Refused(reason))),
        other => Err(AnswerError::Setup(SetupError::Unexpected(Due::HelloAnswer, other))),
    }
}

/// What a message during the session means to the sender.
#[derive(Debug)]
pub enum Notice {
    /// The receiver reports how the stream looks from its side.
    Report(Stats),
    /// The receiver ends the session, for this reason.
    Ended(String),
    /// Nothing to do.
    Nothing,
}

/// What a message during the session means to the sender.
pub fn on_notice(msg: ControlMsg) -> (r: Notice)
    ensures
        r == match msg {
            ControlMsg::Stats(s) => Notice::Report(s),
            ControlMsg::Bye { reason } => Notice::Ended(reason),
            _ => Notice::Nothing,
        },
{
    match msg {
        ControlMsg::Stats(s) => Notice::Report(s),
        ControlMsg::Bye { reason } => Notice::Ended(reason),
        _ => Notice::Nothing,
    }
}

/// Makes packets of encoded frames.
pub struct Packetizer {
    ssrc: u32,
    seq: u16,
    /// Nonces must not repeat, so packets are counted in full 64 bits, not in the
    /// sixteen of the header.
    ext_seq: u64,
    timestamp: u32,
}

/// Where a stream stands: its identity, and how many packets were made.
pub struct StreamView {
    pub ssrc: u32,
    pub made: nat,
}

impl View for Packetizer {
    type V = StreamView;

    closed spec fn view(&self) -> StreamView {
        StreamView { ssrc: self.ssrc, made: self.ext_seq as nat }
    }
}

impl StreamView {
    /// The stream once another packet was made.
    pub open spec fn next(self) -> StreamView {
        StreamView { made: self.made + 1, ..self }
    }

    /// The header of the next packet. The first of a stream is marked.
    pub open spec fn header(self) -> RtpHeader {
        RtpHeader {
            marker: self.made == 0,
            payload: PayloadKind::Opus,
            seq: (self.made % 0x1_0000) as u16,
            timestamp: (self.made * FRAME_SAMPLES % 0x1_0000_0000) as u32,
            ssrc: self.ssrc,
        }
    }

    /// The next packet of a frame under a media key: the header, and the frame
    /// sealed under the packet's number with the header authenticated.
    pub open spec fn packet(self, key: Seq<u8>, frame: Seq<u8>) -> Seq<u8> {
        self.header().bytes() + crate::net::secure::media_sealed(
            key,
            crate::net::secure::nonce_of(self.made as u64),
            self.header().bytes(),
            frame,
        )
    }
}

impl Packetizer {
    /// The header's numbers follow the count.
    pub closed spec fn wf(&self) -> bool {
        &&& self.seq == self.ext_seq % 0x1_0000
        &&& self.timestamp == self.ext_seq * FRAME_SAMPLES % 0x1_0000_0000
    }

    pub fn new(ssrc: u32) -> (r: Self)
        ensures
            r.wf(),
            r@ == (StreamView { ssrc, made: 0 }),
    {
        Packetizer { ssrc, seq: 0, ext_seq: 0, timestamp: 0 }
    }

    /// How many packets were made.
    pub fn made(&self) -> (r: u64)
        ensures
            r == self@.made,
    {
        self.ext_seq
    }

    /// Makes the packet of an encoded frame.
    ///
    /// The header comes before the sealing, because it is authenticated with the
    /// frame: a changed number invalidates the packet on the other side.
    pub fn packet(&mut self, cipher: &MediaCipher, frame: &[u8]) -> (r: Vec<u8>)
        requires
            old(self).wf(),
            old(self)@.made < u64::MAX,
            frame@.len() + MEDIA_TAG_LEN <= MAX_BODY,
        ensures
            final(self).wf(),
            final(self)@ == old(self)@.next(),
            r@ == old(self)@.packet(cipher@, frame@),
            r@.len() == RTP_HEADER_LEN + frame@.len() + MEDIA_TAG_LEN,
            crate::net::secure::opened_to(
                cipher@,
                old(self)@.made as u64,
                old(self)@.header().bytes(),
                r@.skip(RTP_HEADER_LEN as int),
            ) == Some(frame@),
    {
        let header = self.header();
        let mut packet: Vec<u8> = head_of(&header);
        let sealed = match cipher.seal(self.ext_seq, packet.as_slice(), frame) {
            Ok(sealed) => sealed,
            Err(_) => {
                assert(false);
                Vec::new()
            },
        };
        packet.extend_from_slice(sealed.as_slice());
        proof {
            crate::proto::rtp::header_is_rtp_version_two(header);
            assert(packet@ =~= header.bytes() + sealed@);
            assert(packet@.skip(RTP_HEADER_LEN as int) =~= sealed@);
        }
        self.advance();
        packet
    }

    /// The header of the next packet.
    fn header(&self) -> (r: RtpHeader)
        requires
            self.wf(),
        ensures
            r == self@.header(),
    {
        RtpHeader {
            marker: self.ext_seq == 0,
            payload: PayloadKind::Opus,
            seq: self.seq,
            timestamp: self.timestamp,
            ssrc: self.ssrc,
        }
    }

    /// Counts a packet.
    fn advance(&mut self)
        requires
            old(self).wf(),
            old(self)@.made < u64::MAX,
        ensures
            final(self).wf(),
            final(self)@ == old(self)@.next(),
    {
        proof {
            let (e, f, m) = (self.ext_seq as int, FRAME_SAMPLES as int, 0x1_0000_0000int);
            assert((e + 1) * f == e * f + f) by (nonlinear_arith);
            vstd::arithmetic::div_mod::lemma_add_mod_noop(e * f, f, m);
            vstd::arithmetic::div_mod::lemma_mod_twice(e * f, m);
            vstd::arithmetic::div_mod::lemma_add_mod_noop((e * f) % m, f, m);
        }
        self.seq = self.seq.wrapping_add(1);
        self.ext_seq = self.ext_seq + 1;
        self.timestamp = self.timestamp.wrapping_add(FRAME_SAMPLES as u32);
    }
}

/// The twelve bytes of a header.
fn head_of(header: &RtpHeader) -> (r: Vec<u8>)
    ensures
        r@ == header.bytes(),
{
    let mut head: Vec<u8> = vec![0u8; RTP_HEADER_LEN];
    let written = header.encode_into(head.as_mut_slice());
    proof {
        assert(written is Ok);
        assert(head@ =~= header.bytes());
    }
    head
}

/// Makes the packet of an encoded frame, and says whether it goes out: one that is
/// dropped on purpose has used up its number all the same.
pub fn next_packet(
    packetizer: &mut Packetizer,
    dropper: &mut Dropper,
    cipher: &MediaCipher,
    frame: &[u8],
) -> (r: (Vec<u8>, bool))
    requires
        old(packetizer).wf(),
        old(packetizer)@.made < u64::MAX,
        frame@.len() + MEDIA_TAG_LEN <= MAX_BODY,
        old(dropper)@.dropped < u64::MAX,
    ensures
        final(packetizer).wf(),
        final(packetizer)@ == old(packetizer)@.next(),
        final(dropper)@ == old(dropper)@.next(),
        r.0@ == old(packetizer)@.packet(cipher@, frame@),
        r.0@.len() == RTP_HEADER_LEN + frame@.len() + MEDIA_TAG_LEN,
        crate::net::secure::opened_to(
            cipher@,
            old(packetizer)@.made as u64,
            old(packetizer)@.header().bytes(),
            r.0@.skip(RTP_HEADER_LEN as int),
        ) == Some(frame@),
        r.1 == !old(dropper)@.drops(),
{
    let packet = packetizer.packet(cipher, frame);
    let dropped: bool = dropper.should_drop();
    (packet, !dropped)
}

/// The packets that a stream makes of frames, one after the other.
pub open spec fn packets_of(stream: StreamView, key: Seq<u8>, frames: Seq<Seq<u8>>) -> Seq<Seq<u8>>
    decreases frames.len(),
{
    if frames.len() == 0 {
        Seq::empty()
    } else {
        seq![stream.packet(key, frames[0])] + packets_of(stream.next(), key, frames.drop_first())
    }
}

/// The packet at a place is the one that the stream makes once all before it were
/// made.
proof fn lemma_packet_at(stream: StreamView, key: Seq<u8>, frames: Seq<Seq<u8>>, k: int)
    requires
        0 <= k < frames.len(),
    ensures
        packets_of(stream, key, frames).len() == frames.len(),
        packets_of(stream, key, frames)[k] == (StreamView {
            made: (stream.made + k) as nat,
            ..stream
        }).packet(key, frames[k]),
    decreases frames.len(),
{
    let rest = frames.drop_first();
    if k > 0 {
        lemma_packet_at(stream.next(), key, rest, k - 1);
    } else if rest.len() > 0 {
        lemma_packet_at(stream.next(), key, rest, 0);
    }
}

/// The frames of a session are numbered from nothing on: packet `k` has `k` in its
/// header, cut to sixteen bits, the time of `k` frames, and the mark if it is the
/// first; after the header stands the frame, sealed under the full `k` with the
/// header authenticated. No other packet of the session has the same nonce.
pub proof fn packets_are_numbered_from_nothing(
    ssrc: u32,
    key: Seq<u8>,
    frames: Seq<Seq<u8>>,
    k: int,
    other: int,
)
    requires
        frames.len() <= u64::MAX,
        0 <= k < frames.len(),
        0 <= other < frames.len(),
    ensures
        ({
            let header = RtpHeader {
                marker: k == 0,
                payload: PayloadKind::Opus,
                seq: (k % 0x1_0000) as u16,
                timestamp: (480 * k % 0x1_0000_0000) as u32,
                ssrc,
            };
            packets_of(StreamView { ssrc, made: 0 }, key, frames)[k] == header.bytes()
                + crate::net::secure::media_sealed(
                key,
                crate::net::secure::nonce_of(k as u64),
                header.bytes(),
                frames[k],
            )
        }),
        crate::net::secure::nonce_of(k as u64) == crate::net::secure::nonce_of(other as u64)
            ==> k == other,
{
    lemma_packet_at(StreamView { ssrc, made: 0 }, key, frames, k);
    assert(k * FRAME_SAMPLES == 480 * k);
    crate::net::secure::nonces_never_repeat(k as u64, other as u64);
}

/// Within a stream no nonce repeats, for as many packets as can be counted.
pub proof fn no_two_packets_share_a_nonce(a: StreamView, b: StreamView)
    requires
        a.made < b.made <= u64::MAX,
    ensures
        crate::net::secure::nonce_of(a.made as u64) != crate::net::secure::nonce_of(b.made as u64),
{
    crate::net::secure::nonces_never_repeat(a.made as u64, b.made as u64);
}

/// What the sender sends the receiver takes: a packet of the stream that the
/// receiver follows, not further than half the sequence space from the highest
/// it has seen, is taken under its true number and gives the frame, on either
/// side of a wrap.
pub proof fn a_sent_packet_is_taken(
    stream: StreamView,
    key: Seq<u8>,
    frame: Seq<u8>,
    intake: crate::session::intake::IntakeView,
)
    requires
        stream.made < crate::proto::seq::SPACE * 0x1_0000_0000,
        intake.ssrc is None || intake.ssrc == Some(stream.ssrc),
        intake.top is Some ==> -crate::proto::seq::HALF < stream.made - crate::proto::seq::extended(
            intake.roc,
            intake.top->0,
        ) < crate::proto::seq::HALF,
        intake.top is None ==> intake.roc == stream.made / 0x1_0000,
        crate::net::secure::opened_to(
            key,
            stream.made as u64,
            stream.header().bytes(),
            stream.packet(key, frame).skip(RTP_HEADER_LEN as int),
        ) == Some(frame),
    ensures
        intake.rule(key, stream.packet(key, frame)).1 == (crate::session::intake::Ruling::Taken {
            ext: stream.made as u64,
            payload: frame,
        }),
{
    let packet = stream.packet(key, frame);
    let h = stream.header();
    let sealed = packet.skip(RTP_HEADER_LEN as int);
    crate::proto::rtp::header_is_rtp_version_two(h);
    assert(packet =~= h.bytes() + sealed);
    crate::proto::rtp::header_reads_back(h, sealed);
    assert(packet.take(RTP_HEADER_LEN as int) =~= h.bytes());
    let ext = stream.made as u64;
    match intake.top {
        Some(top) => {
            crate::proto::seq::a_near_packet_maps_to_its_true_counter(intake.roc, top, ext);
        },
        None => {},
    }
}

/// How many times a character stands in a text.
pub open spec fn occurrences(s: Seq<char>, c: char) -> nat
    decreases s.len(),
{
    if s.len() == 0 {
        0
    } else {
        occurrences(s.drop_last(), c) + if s.last() == c {
            1nat
        } else {
            0
        }
    }
}

/// A target names a port. A bare IPv6 address is full of colons itself, so for
/// it only the form `[address]:port` names one.
pub open spec fn names_port(target: Seq<char>) -> bool {
    if target.len() > 0 && target[0] == '[' {
        crate::text::has(target, "]:"@)
    } else {
        occurrences(target, ':') == 1
    }
}

/// Whether the user gave a port.
pub fn has_port(target: &str) -> (r: bool)
    ensures
        r == names_port(target@),
{
    let chars = chars_of(target);
    if chars.len() > 0 && chars[0] == '[' {
        return contains(target, "]:");
    }
    let mut n: usize = 0;
    let mut i: usize = 0;
    assert(chars@.take(0) =~= Seq::empty());
    while i < chars.len()
        invariant
            i <= chars@.len(),
            n <= i,
            n == occurrences(chars@.take(i as int), ':'),
        decreases chars@.len() - i,
    {
        assert(chars@.take(i + 1).drop_last() =~= chars@.take(i as int));
        assert(chars@.take(i + 1).last() == chars@[i as int]);
        if chars[i] == ':' {
            n += 1;
        }
        i += 1;
    }
    assert(chars@.take(i as int) =~= chars@);
    n == 1
}

/// What to resolve for `host` or `host:port`; without a port the default one is
/// added.
pub fn with_port(target: &str, default_port: u16) -> (r: String)
    ensures
        r@ == if names_port(target@) {
            target@
        } else {
            target@ + ":"@ + crate::text::decimal(default_port as nat)
        },
{
    let mut out = target.to_owned();
    if !has_port(target) {
        append(&mut out, ":");
        push_number(&mut out, default_port as u64);
        assert(out@ =~= target@ + ":"@ + crate::text::decimal(default_port as nat));
    }
    out
}

/// The name of the peer at a place has a fragment in it, whatever the case.
pub open spec fn peer_matches(peers: Seq<Peer>, fragment: Seq<char>, i: int) -> bool {
    crate::text::has(crate::text::lowercase(peers[i].name@), crate::text::lowercase(fragment))
}

/// The place of the first peer that matches, where one does.
pub open spec fn points_at(peers: Seq<Peer>, fragment: Seq<char>, r: Option<usize>) -> bool {
    match r {
        Some(i) => {
            &&& i < peers.len()
            &&& peer_matches(peers, fragment, i as int)
            &&& forall|j: int| 0 <= j < i ==> !peer_matches(peers, fragment, j)
        },
        None => forall|j: int| 0 <= j < peers.len() ==> !peer_matches(peers, fragment, j),
    }
}

/// The place of the first peer whose name has a fragment in it, whatever the
/// case: a name on the list is to work the same as an address.
pub fn peer_by_name(peers: &Vec<Peer>, fragment: &str) -> (r: Option<usize>)
    ensures
        points_at(peers@, fragment@, r),
{
    let needle = to_lowercase(fragment);
    let mut i: usize = 0;
    while i < peers.len()
        invariant
            i <= peers@.len(),
            needle@ == crate::text::lowercase(fragment@),
            forall|j: int| 0 <= j < i ==> !peer_matches(peers@, fragment@, j),
        decreases peers@.len() - i,
    {
        let name = to_lowercase(peers[i].name.as_str());
        if contains(name.as_str(), needle.as_str()) {
            return Some(i);
        }
        i += 1;
    }
    None
}

/// The peers that speak our protocol, by their places, and those that do not.
pub open spec fn speaking(peers: Seq<Peer>, ours: bool, n: nat) -> Seq<usize>
    decreases n,
{
    if n == 0 {
        Seq::empty()
    } else {
        let rest = speaking(peers, ours, (n - 1) as nat);
        if (peers[n - 1].version == PROTOCOL_VERSION) == ours {
            rest.push((n - 1) as usize)
        } else {
            rest
        }
    }
}

/// Sorts the peers, by their places, into those we could talk to and the rest.
pub fn partition(peers: &Vec<Peer>) -> (r: (Vec<usize>, Vec<usize>))
    ensures
        r.0@ == speaking(peers@, true, peers@.len()),
        r.1@ == speaking(peers@, false, peers@.len()),
{
    let mut ours: Vec<usize> = Vec::new();
    let mut others: Vec<usize> = Vec::new();
    let mut i: usize = 0;
    while i < peers.len()
        invariant
            i <= peers@.len(),
            ours@ == speaking(peers@, true, i as nat),
            others@ == speaking(peers@, false, i as nat),
        decreases peers@.len() - i,
    {
        if peers[i].compatible() {
            ours.push(i);
        } else {
            others.push(i);
        }
        i += 1;
    }
    (ours, others)
}

/// Every peer is on exactly one of the two lists, and those on the first speak
/// our protocol.
pub proof fn every_peer_is_sorted(peers: Seq<Peer>, n: nat)
    requires
        n <= peers.len() <= usize::MAX,
    ensures
        speaking(peers, true, n).len() + speaking(peers, false, n).len() == n,
        forall|k: int|
            0 <= k < speaking(peers, true, n).len() ==> (#[trigger] speaking(peers, true, n)[k]) < n
                && peers[speaking(peers, true, n)[k] as int].version == PROTOCOL_VERSION,
        forall|k: int|
            0 <= k < speaking(peers, false, n).len() ==> (#[trigger] speaking(peers, false, n)[k])
                < n && peers[speaking(peers, false, n)[k] as int].version != PROTOCOL_VERSION,
    decreases n,
{
    if n > 0 {
        every_peer_is_sorted(peers, (n - 1) as nat);
    }
}

/// What is said of a peer that is passed over.
pub fn skipped_line(name: &str, version: u32) -> (r: String)
    ensures
        r@ == "  pomijam „"@ + name@ + "” — protokół w wersji "@ + crate::text::decimal(
            version as nat,
        ) + ", ja mówię 2"@,
{
    let mut out = String::new();
    append(&mut out, "  pomijam „");
    append(&mut out, name);
    append(&mut out, "” — protokół w wersji ");
    push_number(&mut out, version as u64);
    append(&mut out, ", ja mówię 2");
    assert(out@ =~= "  pomijam „"@ + name@ + "” — protokół w wersji "@ + crate::text::decimal(
        version as nat,
    ) + ", ja mówię 2"@);
    out
}

/// What is said where nobody answers.
pub const NO_RECEIVER: &'static str = "nie widzę żadnego odbiornika w sieci.\nUruchom `micbridge recv` na drugiej maszynie. Jeśli już działa, router może blokować ruch multicast między klientami — wtedy podaj adres wprost: `--to 192.168.1.40`.";

/// What is said where several answer and none was named.
pub const NAME_ONE: &'static str = "wskaż jeden: --to \"nazwa\" albo --to adres";

/// Who to send to, where nobody was named.
#[derive(Debug, Clone, Copy, PartialEq, Eq, Structural)]
pub enum Sole {
    /// Nobody answers.
    Nobody,
    /// The peer at this place, the only one.
    Only(usize),
    /// Several answer.
    Several,
}

/// The only receiver there is, out of the places of those we could talk to.
pub fn sole_peer(ours: &Vec<usize>) -> (r: Sole)
    ensures
        r == if ours@.len() == 0 {
            Sole::Nobody
        } else if ours@.len() == 1 {
            Sole::Only(ours@[0])
        } else {
            Sole::Several
        },
{
    if ours.len() == 0 {
        Sole::Nobody
    } else if ours.len() == 1 {
        Sole::Only(ours[0])
    } else {
        Sole::Several
    }
}

/// What the sender says when it starts.
pub fn sending_line(bitrate: u32) -> (r: String)
    ensures
        r@ == "Nadaję Opusem, "@ + crate::text::decimal((bitrate / 1000) as nat)
            + " kbps. Ctrl-C kończy."@,
{
    let mut out = String::new();
    append(&mut out, "Nadaję Opusem, ");
    push_number(&mut out, (bitrate / 1000) as u64);
    append(&mut out, " kbps. Ctrl-C kończy.");
    assert(out@ =~= "Nadaję Opusem, "@ + crate::text::decimal((bitrate / 1000) as nat)
        + " kbps. Ctrl-C kończy."@);
    out
}

/// What the sender says when it ends.
pub fn ended_line(sent: u64) -> (r: String)
    ensures
        r@ == "Zakończono. Wysłano "@ + crate::text::decimal(sent as nat) + " ramek."@,
{
    let mut out = String::new();
    append(&mut out, "Zakończono. Wysłano ");
    push_number(&mut out, sent);
    append(&mut out, " ramek.");
    assert(out@ =~= "Zakończono. Wysłano "@ + crate::text::decimal(sent as nat) + " ramek."@);
    out
}

} // verus!
