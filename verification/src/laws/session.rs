//! What the two sides of a session do.
use vstd::prelude::*;

use crate::engine::jitter::JitterBuffer;
use crate::net::discovery::Peer;
use crate::net::keys::KeyStore;
use crate::net::secure::{Key, MediaCipher};
use crate::proto::{Accept, ControlMsg, Hello, Init, PayloadKind};
use crate::session::intake::{take_in, Intake, Verdict};
use crate::session::interrupt::{after_read, Attempt, ReadStep};
use crate::session::pair::{
    introduction, on_introduction, on_ready, receiver_keeps, sender_keeps, Due, Pairing,
    SenderPlan, SetupError, Visitor,
};
use crate::session::recv::{acceptance, check, on_hello, ssrc_of, target_frames, Options};
use crate::session::send::{
    has_port, is_tone, next_packet, offer, on_answer, on_notice, partition, peer_by_name,
    sole_peer, tone_pace, with_port, AnswerError, Dropper, Notice, Packetizer, Sole,
};
use crate::session::ui::{check_code, typed_code, CodeLength, FixedCode, SinceLast};
use crate::text::number;

verus! {

/// A packet's number in a stream, in full, from the numbers that an intake
/// remembers.
pub open spec fn newest(intake: Intake) -> int {
    intake@.roc * 65536 + intake@.top->0
}

/// What the sender makes, the receiver takes: under its true number, as long as that
/// is less than half the number space from the newest, it goes into the buffer as the
/// frame that was sent.
#[verifier::rlimit(50)]
pub proof fn what_the_sender_makes_the_receiver_takes(
    cipher: &MediaCipher,
    same: &MediaCipher,
    frame: &[u8],
    packet: Vec<u8>,
    got: &[u8],
    held: Vec<u8>,
    r: Result<u64, Verdict>,
)
    requires
        same@ == cipher@,
        got@ == packet@,
        held@ == frame@,
    ensures
        forall|p: &mut Packetizer, intake: &mut Intake, jb: &mut JitterBuffer, b: &mut JitterBuffer|
            {
                &&& #[trigger] call_ensures(Packetizer::packet, (p, cipher, frame), packet)
                &&& #[trigger] call_ensures(take_in, (intake, same, got, jb), r)
                &&& #[trigger] call_ensures(JitterBuffer::push, (b, (*p)@.made as u64, held), ())
                &&& (*b)@ == (*jb)@
                &&& (*p)@.made < 0x1_0000_0000_0000
                &&& (*intake)@.ssrc is None || (*intake)@.ssrc == Some((*p)@.ssrc)
                &&& (*intake)@.top is None ==> (*intake)@.roc == (*p)@.made / 0x1_0000
                &&& (*intake)@.top is Some ==> -32768 < (*p)@.made - newest(*intake) < 32768
            } ==> {
                &&& r == Ok::<u64, Verdict>((*p)@.made as u64)
                &&& final(jb)@ == final(b)@
                &&& final(intake)@.ssrc == Some((*p)@.ssrc)
            },
{
    assert forall|p: &mut Packetizer, intake: &mut Intake, jb: &mut JitterBuffer, b: &mut JitterBuffer|
        {
            &&& #[trigger] call_ensures(Packetizer::packet, (p, cipher, frame), packet)
            &&& #[trigger] call_ensures(take_in, (intake, same, got, jb), r)
            &&& #[trigger] call_ensures(JitterBuffer::push, (b, (*p)@.made as u64, held), ())
            &&& (*b)@ == (*jb)@
            &&& (*p)@.made < 0x1_0000_0000_0000
            &&& (*intake)@.ssrc is None || (*intake)@.ssrc == Some((*p)@.ssrc)
            &&& (*intake)@.top is None ==> (*intake)@.roc == (*p)@.made / 0x1_0000
            &&& (*intake)@.top is Some ==> -32768 < (*p)@.made - newest(*intake) < 32768
        } implies {
        &&& r == Ok::<u64, Verdict>((*p)@.made as u64)
        &&& final(jb)@ == final(b)@
        &&& final(intake)@.ssrc == Some((*p)@.ssrc)
    } by {
        crate::session::send::a_sent_packet_is_taken((*p)@, cipher@, frame@, (*intake)@);
        crate::proto::rtp::header_is_rtp_version_two((*p)@.header());
        crate::proto::rtp::header_reads_back(
            (*p)@.header(),
            got@.skip(crate::proto::RTP_HEADER_LEN as int),
        );
        assert(got@ =~= (*p)@.header().bytes() + got@.skip(crate::proto::RTP_HEADER_LEN as int));
    }
}

/// A packet that is not taken leaves the buffer and the numbers alone, and one of
/// another stream than the first leaves everything alone. One that does not open
/// counts, and the first such is told apart. What is taken opened, under the number
/// that it is taken with.
#[verifier::rlimit(50)]
pub proof fn a_packet_that_is_not_taken_changes_little(
    cipher: &MediaCipher,
    packet: &[u8],
    r: Result<u64, Verdict>,
)
    ensures
        forall|intake: &mut Intake, jb: &mut JitterBuffer| #[trigger]
            call_ensures(take_in, (intake, cipher, packet, jb), r) ==> {
                let (before, after) = ((*intake)@, final(intake)@);
                let b = packet@;
                let ssrc = b[8] * 0x100_0000 + b[9] * 0x1_0000 + b[10] * 0x100 + b[11];
                &&& r is Err ==> final(jb)@ == (*jb)@ && after.roc == before.roc && after.top
                    == before.top
                &&& r matches Err(Verdict::Forged { first }) ==> {
                    &&& after.forged == before.forged + 1
                    &&& first <==> before.forged == 0
                }
                &&& !(r matches Err(Verdict::Forged { .. })) ==> after.forged == before.forged
                &&& r matches Err(Verdict::Malformed(_)) ==> after.ssrc == before.ssrc
                &&& r matches Err(Verdict::OtherStream) ==> after == before
                &&& before.ssrc is Some ==> after.ssrc == before.ssrc
                &&& r matches Ok(ext) ==> {
                    &&& b.len() >= 12
                    &&& b[1] % 128 == 111
                    &&& after.ssrc is Some && after.ssrc->0 == ssrc
                    &&& ext % 65536 == b[2] * 256 + b[3]
                    &&& crate::net::secure::media_opened(
                        cipher@,
                        crate::net::secure::nonce_of(ext),
                        b.take(12),
                        b.skip(12),
                    ) is Some
                }
                &&& b.len() >= 12 && 128 <= b[0] < 192 && b[1] % 128 == 111 && before.ssrc is Some
                    && before.ssrc->0 != ssrc ==> (r matches Err(v) && v is OtherStream)
                &&& b.len() >= 12 && 128 <= b[0] < 192 && b[1] % 128 == 96 && (before.ssrc is None
                    || before.ssrc->0 == ssrc) ==> (r matches Err(v) && v is OtherPayload)
                &&& b.len() < 12 || !(128 <= b[0] < 192) || (b[1] % 128 != 111 && b[1] % 128 != 96)
                    ==> (r matches Err(v) && v is Malformed)
            },
        forall|i: Intake| #[trigger]
            call_ensures(Intake::new, (), i) ==> i@.top is None && i@.ssrc is None && i@.roc == 0
                && i@.forged == 0,
{
}

/// A packet of a stream is a header of twelve bytes and the sealed frame: the type is
/// Opus, the first packet is marked, the number counts packets, the time counts
/// samples, and the source is that of the stream. The next packet has the next number.
#[verifier::rlimit(50)]
pub proof fn packets_count_up(cipher: &MediaCipher, frame: &[u8], r: Vec<u8>, made: u64)
    ensures
        forall|p: &mut Packetizer| #[trigger]
            call_ensures(Packetizer::packet, (p, cipher, frame), r) ==> {
                let (k, b) = ((*p)@.made, r@);
                &&& b.len() == 12 + frame@.len() + 16
                &&& b[0] == 0x80
                &&& b[1] == if k == 0 {
                    239int
                } else {
                    111
                }
                &&& b[2] * 256 + b[3] == k % 65536
                &&& b[4] * 0x100_0000 + b[5] * 0x1_0000 + b[6] * 0x100 + b[7] == (480 * k)
                    % 0x1_0000_0000
                &&& b[8] * 0x100_0000 + b[9] * 0x1_0000 + b[10] * 0x100 + b[11] == (*p)@.ssrc
                &&& b.skip(12) == crate::net::secure::media_sealed(
                    cipher@,
                    crate::net::secure::nonce_of(k as u64),
                    b.take(12),
                    frame@,
                )
                &&& final(p)@.made == k + 1
                &&& final(p)@.ssrc == (*p)@.ssrc
            },
        forall|p: Packetizer, ssrc: u32| #[trigger]
            call_ensures(Packetizer::new, (ssrc,), p) ==> p@.made == 0 && p@.ssrc == ssrc,
        forall|p: Packetizer| #[trigger]
            call_ensures(Packetizer::made, (&p,), made) ==> made == p@.made,
{
    assert forall|p: &mut Packetizer| #[trigger]
        call_ensures(Packetizer::packet, (p, cipher, frame), r) implies {
        let (k, b) = ((*p)@.made, r@);
        &&& b.len() == 12 + frame@.len() + 16
        &&& b[0] == 0x80
        &&& b[1] == if k == 0 {
            239int
        } else {
            111
        }
        &&& b[2] * 256 + b[3] == k % 65536
        &&& b[4] * 0x100_0000 + b[5] * 0x1_0000 + b[6] * 0x100 + b[7] == (480 * k) % 0x1_0000_0000
        &&& b[8] * 0x100_0000 + b[9] * 0x1_0000 + b[10] * 0x100 + b[11] == (*p)@.ssrc
        &&& b.skip(12) == crate::net::secure::media_sealed(
            cipher@,
            crate::net::secure::nonce_of(k as u64),
            b.take(12),
            frame@,
        )
    } by {
        let h = (*p)@.header();
        let b = r@;
        crate::proto::rtp::header_is_rtp_version_two(h);
        assert(b.take(12) =~= h.bytes());
        assert(b.skip(12) =~= crate::net::secure::media_sealed(
            cipher@,
            crate::net::secure::nonce_of((*p)@.made as u64),
            h.bytes(),
            frame@,
        ));
        assert forall|i: int| 0 <= i < 12 implies #[trigger] b[i] == h.bytes()[i] by {}
        crate::proto::bytes::be16_reads_back(h.seq);
        crate::proto::bytes::be32_reads_back(h.timestamp);
        crate::proto::bytes::be32_reads_back(h.ssrc);
        assert((*p)@.made * 480 == 480 * (*p)@.made);
    }
}

/// Whether a packet goes out or is dropped on purpose, it is the same packet, and the
/// next one has the next number. A dropper with a higher threshold drops whatever one
/// with a lower threshold drops; one of nothing drops nothing; and what it counts is
/// what it dropped.
pub proof fn dropping_changes_no_packet(
    cipher: &MediaCipher,
    frame: &[u8],
    r: (Vec<u8>, bool),
    plain: Vec<u8>,
    dropped: bool,
    other: bool,
)
    ensures
        forall|p: &mut Packetizer, d: &mut Dropper, q: &mut Packetizer, e: &mut Dropper|
            {
                &&& #[trigger] call_ensures(next_packet, (p, d, cipher, frame), r)
                &&& #[trigger] call_ensures(Packetizer::packet, (q, cipher, frame), plain)
                &&& #[trigger] call_ensures(Dropper::should_drop, (e,), dropped)
                &&& (*q)@ == (*p)@ && (*e)@ == (*d)@
            } ==> {
                &&& r.0@ == plain@
                &&& r.1 == !dropped
                &&& final(p)@ == final(q)@
                &&& final(d)@ == final(e)@
            },
        forall|d: &mut Dropper, e: &mut Dropper|
            {
                &&& #[trigger] call_ensures(Dropper::should_drop, (d,), dropped)
                &&& #[trigger] call_ensures(Dropper::should_drop, (e,), other)
                &&& (*d)@.state == (*e)@.state
                &&& (*d)@.threshold <= (*e)@.threshold
            } ==> (dropped ==> other),
        forall|d: &mut Dropper| #[trigger]
            call_ensures(Dropper::should_drop, (d,), dropped) ==> {
                let next = ((*d)@.state * 6_364_136_223_846_793_005 + 1_442_695_040_888_963_407)
                    % 0x1_0000_0000_0000_0000;
                &&& (*d)@.threshold == 0 ==> !dropped
                &&& (*d)@.threshold > 0 ==> (dropped <==> next < (*d)@.threshold)
                &&& (*d)@.threshold > 0 ==> final(d)@.state == next
                &&& final(d)@.dropped == (*d)@.dropped + if dropped {
                    1nat
                } else {
                    0
                }
                &&& final(d)@.threshold == (*d)@.threshold
            },
        forall|d: Dropper, t: u64| #[trigger]
            call_ensures(Dropper::new, (t,), d) ==> d@.threshold == t && d@.dropped == 0,
        forall|d: Dropper, n: u64| #[trigger]
            call_ensures(Dropper::dropped, (&d,), n) ==> n == d@.dropped,
{
}

/// The tone's frames are ten milliseconds apart: the next is due ten after the last,
/// and what is left until then is waited. A generator that is late already does not
/// wait and counts from now on.
pub proof fn the_tone_keeps_its_pace(deadline: u64, now: u64, r: (u64, Option<u64>))
    requires
        call_ensures(tone_pace, (deadline, now), r),
        deadline <= u64::MAX - 10_000_000,
    ensures
        now <= deadline + 10_000_000 ==> r.0 == deadline + 10_000_000 && r.1 is Some && now + r.1->0
            == r.0,
        now > deadline + 10_000_000 ==> r.0 == now && r.1 is None,
{
}

/// What the sender offers, the receiver takes as it stands, and what the receiver
/// answers, the sender takes: the stream's source, the port, and a cipher with the
/// media key.
pub proof fn an_offer_and_its_answer_are_taken(
    device: String,
    host: String,
    msg: ControlMsg,
    taken: Result<Hello, SetupError>,
    ssrc: u32,
    sink: String,
    here: String,
    media_key: Vec<u8>,
    answer: ControlMsg,
    settled: Result<(Accept, MediaCipher), AnswerError>,
)
    requires
        call_ensures(offer, (device, host), msg),
        call_ensures(on_hello, (msg,), taken),
        call_ensures(acceptance, (ssrc, sink, here, media_key), answer),
        call_ensures(on_answer, (answer,), settled),
        media_key@.len() == 32,
    ensures
        taken matches Ok(h) && h.device == device && h.host == host,
        settled matches Ok((a, cipher)) && a.ssrc == ssrc && a.media_port == 47101 && a.sink == sink
            && a.host == here && cipher@ == media_key@,
{
}

/// An offer is taken exactly where its version, rate, channels, frame and codec are
/// ours. Any other is refused, and the sender is told.
pub proof fn only_our_kind_of_offer_is_taken(
    hello: Hello,
    r: Result<Hello, SetupError>,
    fits: Result<(), String>,
)
    requires
        call_ensures(on_hello, (ControlMsg::Hello(hello),), r),
        call_ensures(check, (&hello,), fits),
    ensures
        r is Ok <==> hello.version == 2 && hello.sample_rate == 48_000 && hello.channels == 1
            && hello.frame_ms == 10 && hello.payload == PayloadKind::Opus,
        r matches Ok(h) ==> h == hello,
        r matches Err(e) ==> (e matches SetupError::Refuse(reason) && fits is Err && reason@
            == fits->Err_0@ && forall|told: Option<ControlMsg>| #[trigger]
            call_ensures(SetupError::reply, (&e,), told) ==> (told matches Some(
            ControlMsg::Reject { reason: said },
        ) && said@ == reason@)),
        fits is Ok <==> r is Ok,
{
}

/// Only a refusal of our own is told to the other side.
pub proof fn only_our_own_refusal_is_told(e: SetupError, told: Option<ControlMsg>)
    requires
        call_ensures(SetupError::reply, (&e,), told),
    ensures
        e matches SetupError::Refuse(reason) ==> (told matches Some(ControlMsg::Reject {
            reason: said,
        }) && said@ == reason@),
        !(e is Refuse) ==> told is None,
{
}

/// An answer that is none of ours settles nothing: a refusal is handed on, a key of
/// the wrong length and another version are named, and anything else was not due.
pub proof fn another_answer_settles_nothing(
    msg: ControlMsg,
    r: Result<(Accept, MediaCipher), AnswerError>,
)
    requires
        call_ensures(on_answer, (msg,), r),
    ensures
        r is Ok <==> (msg matches ControlMsg::Accept(a) && a.media_key@.len() == 32 && a.version
            == 2),
        msg matches ControlMsg::Reject { reason } ==> (r matches Err(AnswerError::Setup(e)) && e
            == SetupError::Refused(reason)),
        msg matches ControlMsg::Accept(a) ==> (a.media_key@.len() == 32 && a.version != 2 ==> (
        r matches Err(AnswerError::Setup(e)) && e == SetupError::WrongVersion(a.version))),
        !(msg is Accept || msg is Reject) ==> (r matches Err(AnswerError::Setup(e)) && e
            == SetupError::Unexpected(Due::HelloAnswer, msg)),
{
}

/// During a session the receiver's report is handed on, its farewell ends the
/// session, and nothing else does anything.
pub proof fn a_farewell_ends_the_session(msg: ControlMsg, r: Notice)
    requires
        call_ensures(on_notice, (msg,), r),
    ensures
        msg matches ControlMsg::Stats(s) ==> r == Notice::Report(s),
        msg matches ControlMsg::Bye { reason } ==> r == Notice::Ended(reason),
        !(msg is Stats) && !(msg is Bye) ==> r is Nothing,
{
}

proof fn lemma_no_colon(s: Seq<char>)
    requires
        crate::session::send::occurrences(s, ':') == 0,
    ensures
        forall|i: int| 0 <= i < s.len() ==> #[trigger] s[i] != ':',
    decreases s.len(),
{
    if s.len() > 0 {
        lemma_no_colon(s.drop_last());
        assert forall|i: int| 0 <= i < s.len() implies #[trigger] s[i] != ':' by {
            if i < s.len() - 1 {
                assert(s.drop_last()[i] == s[i]);
            }
        }
    }
}

proof fn lemma_without_colon(s: Seq<char>)
    requires
        forall|i: int| 0 <= i < s.len() ==> #[trigger] s[i] != ':',
    ensures
        crate::session::send::occurrences(s, ':') == 0,
    decreases s.len(),
{
    if s.len() > 0 {
        assert forall|i: int| 0 <= i < s.drop_last().len() implies #[trigger] s.drop_last()[i]
            != ':' by {
            assert(s[i] != ':');
        }
        lemma_without_colon(s.drop_last());
        assert(s[s.len() - 1] != ':');
    }
}

/// The colon at a place is the only one.
pub open spec fn only_colon(s: Seq<char>, i: int) -> bool {
    0 <= i < s.len() && s[i] == ':' && forall|j: int|
        0 <= j < s.len() && #[trigger] s[j] == ':' ==> j == i
}

proof fn lemma_one_is_only(s: Seq<char>) -> (i: int)
    requires
        crate::session::send::occurrences(s, ':') == 1,
    ensures
        only_colon(s, i),
    decreases s.len(),
{
    let less = s.drop_last();
    if s.last() == ':' {
        lemma_no_colon(less);
        assert forall|j: int| 0 <= j < s.len() && #[trigger] s[j] == ':' implies j == s.len()
            - 1 by {
            if j < less.len() {
                assert(less[j] == s[j]);
            }
        }
        s.len() - 1
    } else {
        let i = lemma_one_is_only(less);
        assert forall|j: int| 0 <= j < s.len() && #[trigger] s[j] == ':' implies j == i by {
            assert(j < less.len());
            assert(less[j] == s[j]);
        }
        i
    }
}

proof fn lemma_only_is_one(s: Seq<char>, i: int)
    requires
        only_colon(s, i),
    ensures
        crate::session::send::occurrences(s, ':') == 1,
    decreases s.len(),
{
    let less = s.drop_last();
    if i == s.len() - 1 {
        assert forall|j: int| 0 <= j < less.len() implies #[trigger] less[j] != ':' by {
            assert(less[j] == s[j]);
        }
        lemma_without_colon(less);
    } else {
        assert forall|j: int| 0 <= j < less.len() && #[trigger] less[j] == ':' implies j == i by {
            assert(less[j] == s[j]);
        }
        assert(less[i] == s[i]);
        lemma_only_is_one(less, i);
        assert(s[s.len() - 1] != ':');
    }
}

/// One colon, and only one, stands in a text.
pub open spec fn has_one_colon(s: Seq<char>) -> bool {
    exists|i: int| #[trigger] only_colon(s, i)
}

proof fn lemma_one_colon(s: Seq<char>)
    ensures
        crate::session::send::occurrences(s, ':') == 1 <==> has_one_colon(s),
{
    if crate::session::send::occurrences(s, ':') == 1 {
        let i = lemma_one_is_only(s);
        assert(only_colon(s, i));
    }
    if has_one_colon(s) {
        let i = choose|i: int| #[trigger] only_colon(s, i);
        lemma_only_is_one(s, i);
    }
}

/// A target names a port where it is a name or address with one colon in it, or an
/// address in brackets with a colon behind them. Any other gets the default port
/// behind a colon; one that names its port stays.
pub proof fn a_target_gets_a_port_where_it_has_none(
    target: &str,
    port: u16,
    written: String,
    named: bool,
    r: String,
)
    requires
        call_ensures(has_port, (target,), named),
        call_ensures(with_port, (target, port), r),
        call_ensures(number, (port as u64,), written),
    ensures
        ({
            let t = target@;
            let bracketed = t.len() > 0 && t[0] == '[';
            &&& !bracketed ==> (named <==> has_one_colon(t))
            &&& bracketed ==> (named <==> exists|i: int|
                0 <= i && i + 1 < t.len() && #[trigger] t[i] == ']' && t[i + 1] == ':')
            &&& named ==> r@ == t
            &&& !named ==> r@ == t + seq![':'] + written@
        }),
{
    let t = target@;
    lemma_one_colon(t);
    reveal_strlit("]:");
    reveal_strlit(":");
    assert(":"@ =~= seq![':']);
    if t.len() > 0 && t[0] == '[' {
        if named {
            let i = choose|i: int| crate::text::stands_at(t, "]:"@, i);
            assert(t.subrange(i, i + 2)[0] == ']' && t.subrange(i, i + 2)[1] == ':');
            assert(t[i] == ']' && t[i + 1] == ':');
        }
        if exists|i: int| 0 <= i && i + 1 < t.len() && #[trigger] t[i] == ']' && t[i + 1] == ':' {
            let i = choose|i: int|
                0 <= i && i + 1 < t.len() && #[trigger] t[i] == ']' && t[i + 1] == ':';
            assert(t.subrange(i, i + 2) =~= "]:"@);
            assert(crate::text::stands_at(t, "]:"@, i));
        }
    }
}

/// A peer has a part of a name, in either case.
pub open spec fn peer_has(peers: &Vec<Peer>, part: Seq<char>, i: int) -> bool {
    0 <= i < peers@.len() && crate::text::has(
        crate::text::lowercase(peers@[i].name@),
        crate::text::lowercase(part),
    )
}

/// A part of a name, in either case, points at the first peer that has it.
pub proof fn a_part_of_a_name_points_at_the_first_peer(
    peers: &Vec<Peer>,
    part: &str,
    r: Option<usize>,
)
    requires
        call_ensures(peer_by_name, (peers, part), r),
    ensures
        r matches Some(i) ==> peer_has(peers, part@, i as int) && forall|j: int| #[trigger]
            peer_has(peers, part@, j) ==> i <= j,
        r is None ==> forall|j: int| !#[trigger] peer_has(peers, part@, j),
{
    assert forall|j: int| #[trigger] peer_has(peers, part@, j) implies
        crate::session::send::peer_matches(peers@, part@, j) by {}
}

proof fn lemma_speaking(peers: Seq<Peer>, ours: bool, n: nat)
    requires
        n <= peers.len() <= usize::MAX,
    ensures
        ({
            let s = crate::session::send::speaking(peers, ours, n);
            &&& forall|k: int|
                0 <= k < s.len() ==> (#[trigger] s[k]) < n && (peers[s[k] as int].version == 2)
                    == ours
            &&& forall|i: int|
                0 <= i < n && ((#[trigger] peers[i]).version == 2) == ours ==> s.contains(
                    i as usize,
                )
            &&& forall|k: int, l: int|
                0 <= k < l < s.len() ==> (#[trigger] s[k]) < (#[trigger] s[l])
        }),
    decreases n,
{
    if n > 0 {
        lemma_speaking(peers, ours, (n - 1) as nat);
        let rest = crate::session::send::speaking(peers, ours, (n - 1) as nat);
        let s = crate::session::send::speaking(peers, ours, n);
        assert forall|k: int| 0 <= k < rest.len() implies #[trigger] s[k] == rest[k] by {}
        assert forall|k: int, l: int| 0 <= k < l < s.len() implies (#[trigger] s[k]) < (
        #[trigger] s[l]) by {
            assert(s[k] == rest[k]);
        }
        assert forall|i: int| 0 <= i < n && ((#[trigger] peers[i]).version == 2) == ours implies
            s.contains(i as usize) by {
            if i < n - 1 {
                assert(rest.contains(i as usize));
                let k = choose|k: int| 0 <= k < rest.len() && rest[k] == i as usize;
                assert(s[k] == i as usize);
            } else {
                assert(s[s.len() - 1] == i as usize);
            }
        }
    }
}

/// Peers are told apart by their version: those that speak ours and those that do
/// not, each once and in the order of the list. A sole one that speaks ours is the one
/// to take.
pub proof fn peers_are_told_apart_by_their_version(
    peers: &Vec<Peer>,
    r: (Vec<usize>, Vec<usize>),
    sole: Sole,
)
    requires
        call_ensures(partition, (peers,), r),
        call_ensures(sole_peer, (&r.0,), sole),
        peers@.len() <= usize::MAX,
    ensures
        forall|k: int|
            0 <= k < r.0@.len() ==> (#[trigger] r.0@[k]) < peers@.len()
                && peers@[r.0@[k] as int].version == 2,
        forall|k: int|
            0 <= k < r.1@.len() ==> (#[trigger] r.1@[k]) < peers@.len()
                && peers@[r.1@[k] as int].version != 2,
        forall|i: int|
            0 <= i < peers@.len() ==> if (#[trigger] peers@[i]).version == 2 {
                r.0@.contains(i as usize)
            } else {
                r.1@.contains(i as usize)
            },
        forall|k: int, l: int|
            0 <= k < l < r.0@.len() ==> (#[trigger] r.0@[k]) < (#[trigger] r.0@[l]),
        forall|k: int, l: int|
            0 <= k < l < r.1@.len() ==> (#[trigger] r.1@[k]) < (#[trigger] r.1@[l]),
        r.0@.len() == 0 ==> sole is Nobody,
        r.0@.len() == 1 ==> sole == Sole::Only(r.0@[0]),
        r.0@.len() > 1 ==> sole is Several,
{
    lemma_speaking(peers@, true, peers@.len());
    lemma_speaking(peers@, false, peers@.len());
}

/// The cushion is as many frames of ten milliseconds as fit into what is asked for,
/// and one at least.
pub proof fn the_cushion_is_counted_in_frames(buffer_ms: u32, r: usize)
    requires
        call_ensures(target_frames, (buffer_ms,), r),
    ensures
        r >= 1,
        buffer_ms >= 10 ==> 10 * r <= buffer_ms < 10 * (r + 1),
        buffer_ms < 10 ==> r == 1,
{
}

/// The tone is asked for by its word, in either case.
pub proof fn the_tone_is_asked_for_by_its_word(device: &str, r: bool, source: u32)
    ensures
        call_ensures(is_tone, (device,), r) ==> (r <==> crate::text::ascii_lowered(device@)
            == "tone"@),
        call_ensures(ssrc_of, (None,), source) ==> source == 0x7A31_F0C2,
        forall|secs: u64, nanos: u32| #[trigger]
            call_ensures(ssrc_of, (Some((secs, nanos)),), source) ==> source == nanos ^ ((secs
                % 0x1_0000_0000) as u32),
{
    reveal_strlit("tone");
    assert(crate::text::ascii_lowered("tone"@) =~= "tone"@);
}

/// A read that came to something is handed on. One that came to nothing is tried again
/// as long as the session runs, and no longer.
pub proof fn a_stopped_session_reads_no_more(attempt: Attempt, running: bool, r: ReadStep)
    requires
        call_ensures(after_read, (attempt, running), r),
    ensures
        attempt is Settled ==> r is HandOn,
        attempt is EmptyHanded && running ==> r is Again,
        attempt is EmptyHanded && !running ==> r is Abort,
{
}

/// The digits of a text, in their order.
pub open spec fn digits_of(s: Seq<char>) -> Seq<char> {
    s.filter(|c: char| '0' <= c <= '9')
}

/// A code that is typed or given up front is taken where it has six digits, whatever
/// else was typed with them; what is taken are the digits. Else the count is told.
pub proof fn a_code_has_six_digits(
    line: &str,
    r: Result<String, CodeLength>,
    fixed: FixedCode,
    given: Result<String, CodeLength>,
)
    requires
        call_ensures(typed_code, (line,), r),
        call_ensures(FixedCode::ask_code, (&fixed,), given),
    ensures
        r is Ok <==> digits_of(line@).len() == 6,
        r matches Ok(c) ==> c@ == digits_of(line@),
        r matches Err(e) ==> e.got == digits_of(line@).len(),
        given is Ok <==> digits_of(fixed.code@).len() == 6,
        given matches Ok(c) ==> c@ == digits_of(fixed.code@),
        given matches Err(e) ==> e.got == digits_of(fixed.code@).len(),
{
    assert((|c: char| '0' <= c <= '9') =~= (|c: char| crate::net::pair::is_digit(c)));
}

/// A code as it stands is taken where it is six bytes long.
pub proof fn a_code_as_it_stands_is_six_long(code: &str, r: Result<String, CodeLength>)
    requires
        call_ensures(check_code, (code,), r),
    ensures
        r is Ok <==> crate::text::bytes_of(code@).len() == 6,
        r matches Ok(c) ==> c@ == code@,
{
}

/// A counter that only rises is told in steps: each step is what came since the last.
pub proof fn a_counter_is_told_in_steps(now: u64, r: u64)
    ensures
        forall|s: &mut SinceLast| #[trigger]
            call_ensures(SinceLast::take, (s, now), r) ==> {
                &&& final(s).seen == now
                &&& now >= (*s).seen ==> (*s).seen + r == now
                &&& now < (*s).seen ==> r == 0
            },
{
}

/// The two pair exactly where one of them has no key of the other. The receiver says
/// whether it has one; the sender pairs where it does not, or where it has none itself;
/// a receiver without a key refuses to go on without pairing.
pub proof fn the_two_pair_where_a_key_is_missing(
    init: Init,
    me: String,
    theirs: &KeyStore,
    kept_there: Option<Key>,
    host: &str,
    arrived: Result<(Visitor, ControlMsg), SetupError>,
    ours: &KeyStore,
    kept_here: Option<Key>,
    peer: &str,
    plan: Result<SenderPlan, SetupError>,
)
    requires
        host@ == init.host@,
        call_ensures(on_introduction, (ControlMsg::Init(init), me, theirs), arrived),
        call_ensures(KeyStore::get, (theirs, host), kept_there),
        init.version == 2,
        peer@ == me@,
        arrived matches Ok((_, reply)) ==> call_ensures(on_ready, (reply, ours), plan),
        call_ensures(KeyStore::get, (ours, peer), kept_here),
    ensures
        arrived matches Ok((visitor, reply)) && {
            &&& reply == (ControlMsg::Ready { host: me, known: kept_there is Some })
            &&& visitor.host == init.host
            &&& visitor.stored is Some <==> kept_there is Some
            &&& kept_there is Some ==> visitor.stored->0@ == kept_there->0@
            &&& plan matches Ok(p) && {
                &&& p.peer == me
                &&& p.key is Some <==> kept_here is Some && kept_there is Some
                &&& p.key is Some ==> p.key->0@ == kept_here->0@
                &&& forall|say: ControlMsg| #[trigger]
                    call_ensures(SenderPlan::decision, (&p,), say) ==> {
                        &&& say == (ControlMsg::Pairing {
                            needed: kept_here is None || kept_there is None,
                        })
                        &&& forall|r: Result<Option<Key>, SetupError>| #[trigger]
                            call_ensures(Visitor::on_decision, (&visitor, say), r) ==> {
                                &&& kept_here is Some && kept_there is Some ==> (r matches Ok(k)
                                    && k == visitor.stored)
                                &&& kept_here is None || kept_there is None ==> r == Ok::<
                                    Option<Key>,
                                    SetupError,
                                >(None)
                            }
                    }
            }
        },
{
}

/// Someone of another version is refused at the door, and told so; a message that is
/// no introduction was not due. A sender that claims a key where there is none is
/// refused.
pub proof fn strangers_are_refused(
    msg: ControlMsg,
    me: String,
    store: &KeyStore,
    r: Result<(Visitor, ControlMsg), SetupError>,
    visitor: Visitor,
    s: Result<Option<Key>, SetupError>,
)
    requires
        call_ensures(on_introduction, (msg, me, store), r),
        call_ensures(
            Visitor::on_decision,
            (&visitor, ControlMsg::Pairing { needed: false }),
            s,
        ),
    ensures
        r is Ok <==> (msg matches ControlMsg::Init(init) && init.version == 2),
        msg matches ControlMsg::Init(init) ==> (init.version != 2 ==> (r matches Err(e)
            && e is Refuse)),
        !(msg is Init) ==> (r matches Err(e) && e == SetupError::Unexpected(
            Due::Introduction,
            msg,
        )),
        visitor.stored is None ==> (s matches Err(e) && e is Refuse),
        visitor.stored is Some ==> s == Ok::<Option<Key>, SetupError>(visitor.stored),
        forall|name: String, hi: ControlMsg| #[trigger]
            call_ensures(introduction, (name,), hi) ==> hi == ControlMsg::Init(
                Init { version: 2, host: name },
            ),
{
}

/// A pairing is kept on both sides: from then on each store gives the key under the
/// other's name, and the misses are forgotten.
pub proof fn a_pairing_is_kept(
    peer: &str,
    key: &Key,
    line: String,
    asked: &str,
    after: KeyStore,
    got: Option<Key>,
)
    requires
        call_ensures(KeyStore::get, (&after, asked), got),
        asked@ == peer@,
    ensures
        forall|s: &mut KeyStore|
            (#[trigger] call_ensures(sender_keeps, (s, peer, key), line)) && after@ == final(s)@
                ==> (got matches Some(k) && k@ == key@),
        forall|p: &mut Pairing, s: &mut KeyStore|
            (#[trigger] call_ensures(receiver_keeps, (p, s, peer, key), line)) && after@
                == final(s)@ ==> (got matches Some(k) && k@ == key@) && final(p).misses() == 0
                && final(p).shown() == (*p).shown(),
{
    assert forall|s: &mut KeyStore|
        (#[trigger] call_ensures(sender_keeps, (s, peer, key), line)) && after@
            == final(s)@ implies (got matches Some(k) && k@ == key@) by {
        crate::net::keys::a_kept_key_is_found_again((*s)@, peer@, key@, asked@);
    }
    assert forall|p: &mut Pairing, s: &mut KeyStore|
        (#[trigger] call_ensures(receiver_keeps, (p, s, peer, key), line)) && after@
            == final(s)@ implies (got matches Some(k) && k@ == key@) && final(p).misses() == 0
        && final(p).shown() == (*p).shown() by {
        crate::net::keys::a_kept_key_is_found_again((*s)@, peer@, key@, asked@);
    }
}

/// Looking at a packet decides as taking it in does; taking it in also puts it into the
/// buffer.
pub proof fn looking_and_taking_in_agree(
    cipher: &MediaCipher,
    packet: &[u8],
    v: Verdict,
    r: Result<u64, Verdict>,
)
    ensures
        forall|a: &mut Intake, b: &mut Intake, jb: &mut JitterBuffer|
            {
                &&& #[trigger] call_ensures(Intake::receive, (a, cipher, packet), v)
                &&& #[trigger] call_ensures(take_in, (b, cipher, packet, jb), r)
                &&& (*a)@ == (*b)@
            } ==> {
                &&& final(a)@ == final(b)@
                &&& v is Taken <==> r is Ok
                &&& v matches Verdict::Taken { ext, payload } ==> r == Ok::<u64, Verdict>(ext)
                    && (forall|held: Vec<u8>, c: &mut JitterBuffer|
                    (#[trigger] call_ensures(JitterBuffer::push, (c, ext, held), ())) && held@
                        == payload@ && (*c)@ == (*jb)@ ==> final(jb)@ == final(c)@)
                &&& r matches Err(w) ==> w@ == v@
            },
{
}

/// Left to itself, a receiver listens everywhere on the control port, picks its own sink,
/// starts with thirty milliseconds, adapts, and announces itself.
pub proof fn a_receiver_left_to_itself(o: Options)
    requires
        call_ensures(<Options as Default>::default, (), o),
    ensures
        o.listen@ == "0.0.0.0:47100"@,
        o.sink@ == "auto"@,
        o.buffer_ms == 30,
        o.adaptive && o.announce,
{
}

/// The times and limits that a session keeps to.
pub proof fn a_session_keeps_to_its_limits()
    ensures
        crate::session::interrupt::POLL == 100_000_000,
        crate::session::interrupt::CONNECT_TIMEOUT == 5_000_000_000,
        crate::session::send::DISCOVERY_WINDOW_MS == 2500,
        crate::session::send::RESAMPLE_CHUNK == 480,
        crate::session::send::MAX_BODY == 1500,
        crate::session::recv::MAX_BUFFER_FRAMES == 40,
        crate::session::recv::MIN_BUFFER_FRAMES == 2,
        crate::session::recv::RING_SAMPLES == 48_000,
        crate::engine::codec::MAX_PACKET == 1275,
        crate::net::pair::MAX_ATTEMPTS == 3,
        crate::net::pair::CODE_DIGITS == 6,
{
}

} // verus!
