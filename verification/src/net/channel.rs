//! The sealed control channel.
//!
//! It holds the encryption alone; framing and the socket stay outside, because
//! the sender reads from a thread of its own and must not hold a lock while it
//! waits for data.
use vstd::prelude::*;

use crate::net::secure::{
    Key, HANDSHAKE_LEN, MAX_NOISE_MSG, MAX_PLAIN, MEDIA_TAG_LEN, NOISE_PARAMS, PSK_POSITION,
};
use crate::text::{append, push_number};

verus! {

/// The state of a Noise handshake, carried through unread.
#[verifier::external_type_specification]
#[verifier::external_body]
pub struct ExHandshakeState(snow::HandshakeState);

/// The state of a Noise transport, carried through unread.
#[verifier::external_type_specification]
#[verifier::external_body]
pub struct ExTransportState(snow::TransportState);

/// How far a handshake has come.
pub struct Progress {
    /// The handshake, as Noise names it.
    pub pattern: Seq<char>,
    /// Where the pre-shared key comes in.
    pub at: u8,
    /// The pre-shared key.
    pub psk: Seq<u8>,
    pub initiator: bool,
    /// The message this side wrote.
    pub wrote: Option<Seq<u8>>,
    /// The message this side read.
    pub read: Option<Seq<u8>>,
}

/// One side of a handshake. Values come from `as_initiator` and `as_responder`
/// alone.
pub struct Handshake {
    state: snow::HandshakeState,
    progress: Ghost<Progress>,
}

impl View for Handshake {
    type V = Progress;

    closed spec fn view(&self) -> Progress {
        self.progress@
    }
}

/// Where a transport stands.
pub struct Transport {
    /// The two keys that the handshake ended in, as some bytes that stand for
    /// them.
    pub keys: Seq<u8>,
    pub initiator: bool,
    /// How many messages this side has sealed.
    pub sealed: nat,
    /// How many messages of the other side this side has opened.
    pub opened: nat,
}

/// An encrypted control channel. Values come from `Handshake::into_channel` alone.
pub struct SecureChannel {
    noise: snow::TransportState,
    transport: Ghost<Transport>,
}

impl View for SecureChannel {
    type V = Transport;

    closed spec fn view(&self) -> Transport {
        self.transport@
    }
}

/// The frame that a transport with these keys writes as its `n`-th for a
/// message, in the initiator's direction or the other.
pub uninterp spec fn noise_frame(keys: Seq<u8>, by_initiator: bool, n: nat, plain: Seq<u8>) -> Seq<
    u8,
>;

/// A message that the writing side of a handshake can come up with: it opens
/// with the public half of a key pair that the side drew.
pub uninterp spec fn noise_written(message: Seq<u8>) -> bool;

/// A message that the responder of a handshake with this pre-shared key takes as
/// the first.
pub uninterp spec fn noise_first(
    pattern: Seq<char>,
    at: u8,
    psk: Seq<u8>,
    first: Seq<u8>,
) -> bool;

/// A message, opening with the public half of a key pair that was drawn, that
/// the initiator of a handshake with this pre-shared key takes as the answer to
/// the first message, which it wrote.
pub uninterp spec fn noise_answers(
    pattern: Seq<char>,
    at: u8,
    psk: Seq<u8>,
    first: Seq<u8>,
    second: Seq<u8>,
) -> bool;

/// The keys that a handshake under a pre-shared key ends in, given the
/// initiator's message and the responder's.
pub uninterp spec fn noise_keys(
    pattern: Seq<char>,
    at: u8,
    psk: Seq<u8>,
    first: Seq<u8>,
    second: Seq<u8>,
) -> Seq<u8>;

impl Progress {
    /// A side of our handshake that has written and read nothing.
    pub open spec fn start(psk: Seq<u8>, initiator: bool) -> Progress {
        Progress {
            pattern: NOISE_PARAMS@,
            at: PSK_POSITION,
            psk,
            initiator,
            wrote: None,
            read: None,
        }
    }

    /// The side that opens the handshake, once it has written this.
    pub open spec fn opening(psk: Seq<u8>, first: Seq<u8>) -> Progress {
        Progress { wrote: Some(first), ..Progress::start(psk, true) }
    }

    /// Whether the side takes a message of the other, where it waits for one. Of
    /// an initiator this is said only of messages that open with the public half
    /// of a key pair that was drawn.
    pub open spec fn takes(self, theirs: Seq<u8>) -> bool {
        &&& HANDSHAKE_LEN <= theirs.len() <= MAX_NOISE_MSG
        &&& if self.initiator {
            noise_answers(self.pattern, self.at, self.psk, self.wrote->0, theirs)
        } else {
            noise_first(self.pattern, self.at, self.psk, theirs)
        }
    }

    /// The keys that a complete handshake ends in.
    pub open spec fn keys(self) -> Seq<u8> {
        if self.initiator {
            noise_keys(self.pattern, self.at, self.psk, self.wrote->0, self.read->0)
        } else {
            noise_keys(self.pattern, self.at, self.psk, self.read->0, self.wrote->0)
        }
    }
}

impl Handshake {
    /// Calls `snow::Builder` with the parameters and the key at its position, and
    /// builds an initiator. With our parameters, which need no static key and
    /// name what snow's own resolver has, that succeeds. The handshake that comes
    /// out has written and read nothing.
    #[verifier::external_body]
    fn as_initiator(pattern: &str, at: u8, psk: &Key) -> (r: Result<Handshake, String>)
        requires
            pattern@ == NOISE_PARAMS@,
            at == PSK_POSITION,
        ensures
            r is Ok,
            r matches Ok(h) ==> h@ == (Progress {
                pattern: pattern@,
                at,
                psk: psk@,
                initiator: true,
                wrote: None,
                read: None,
            }),
    {
        let params = pattern.parse().map_err(|e: snow::Error| e.to_string())?;
        let builder = snow::Builder::new(params).psk(at, psk).map_err(|e| e.to_string())?;
        let state = builder.build_initiator().map_err(|e| e.to_string())?;
        Ok(Handshake { state, progress: Ghost(arbitrary()) })
    }

    /// Calls `snow::Builder` with the parameters and the key at its position, and
    /// builds a responder. With our parameters, which need no static key and name
    /// what snow's own resolver has, that succeeds. The handshake that comes out
    /// has written and read nothing.
    #[verifier::external_body]
    fn as_responder(pattern: &str, at: u8, psk: &Key) -> (r: Result<Handshake, String>)
        requires
            pattern@ == NOISE_PARAMS@,
            at == PSK_POSITION,
        ensures
            r is Ok,
            r matches Ok(h) ==> h@ == (Progress {
                pattern: pattern@,
                at,
                psk: psk@,
                initiator: false,
                wrote: None,
                read: None,
            }),
    {
        let params = pattern.parse().map_err(|e: snow::Error| e.to_string())?;
        let builder = snow::Builder::new(params).psk(at, psk).map_err(|e| e.to_string())?;
        let state = builder.build_responder().map_err(|e| e.to_string())?;
        Ok(Handshake { state, progress: Ghost(arbitrary()) })
    }

    /// Calls `snow::HandshakeState::write_message` with an empty payload. A
    /// message comes out only when it is this side's turn, and has the length of
    /// a public key and a tag. The key pair is drawn at random, which may fail;
    /// that a message comes from such a pair is named `noise_written`. What an
    /// initiator writes, a responder with the same key takes; what a responder
    /// writes, the initiator with the same key takes whose message, from a key
    /// pair that it drew, was read.
    #[verifier::external_body]
    fn write(&mut self) -> (r: Result<Vec<u8>, String>)
        ensures
            r matches Ok(m) ==> {
                &&& m@.len() == HANDSHAKE_LEN
                &&& noise_written(m@)
                &&& old(self)@.wrote is None
                &&& old(self)@.initiator || old(self)@.read is Some
                &&& old(self)@.initiator ==> noise_first(
                    old(self)@.pattern,
                    old(self)@.at,
                    old(self)@.psk,
                    m@,
                )
                &&& !old(self)@.initiator && noise_written(old(self)@.read->0) ==> noise_answers(
                    old(self)@.pattern,
                    old(self)@.at,
                    old(self)@.psk,
                    old(self)@.read->0,
                    m@,
                )
                &&& final(self)@ == (Progress { wrote: Some(m@), ..old(self)@ })
            },
            r is Err ==> final(self)@ == old(self)@,
    {
        let mut buf = vec![0u8; MAX_NOISE_MSG];
        let n = self.state.write_message(&[], &mut buf).map_err(|e| e.to_string())?;
        buf.truncate(n);
        Ok(buf)
    }

    /// Calls `snow::HandshakeState::read_message`. A message is taken only when
    /// it is the other side's turn, and when it is long enough for a public key
    /// and a tag and not too long for Noise. Whether a responder then takes it
    /// depends on the key and the message alone, and is named `noise_first`.
    /// Whether an initiator takes a message from a key pair that was drawn depends
    /// on the key and the two messages alone, and is named `noise_answers`; of any
    /// other message to an initiator that is not claimed, for there the private
    /// half of its own pair counts too.
    #[verifier::external_body]
    fn read(&mut self, theirs: &[u8]) -> (r: Result<(), String>)
        ensures
            !old(self)@.initiator ==> (r is Ok) == (old(self)@.read is None && HANDSHAKE_LEN
                <= theirs@.len() <= MAX_NOISE_MSG && noise_first(
                old(self)@.pattern,
                old(self)@.at,
                old(self)@.psk,
                theirs@,
            )),
            old(self)@.initiator && noise_written(theirs@) ==> (r is Ok) == (old(self)@.wrote is Some
                && old(self)@.read is None && HANDSHAKE_LEN <= theirs@.len() <= MAX_NOISE_MSG
                && noise_answers(
                old(self)@.pattern,
                old(self)@.at,
                old(self)@.psk,
                old(self)@.wrote->0,
                theirs@,
            )),
            r is Ok ==> {
                &&& HANDSHAKE_LEN <= theirs@.len() <= MAX_NOISE_MSG
                &&& old(self)@.read is None
                &&& !old(self)@.initiator || old(self)@.wrote is Some
                &&& final(self)@ == (Progress { read: Some(theirs@), ..old(self)@ })
            },
            r is Err ==> final(self)@ == old(self)@,
    {
        let mut buf = vec![0u8; MAX_NOISE_MSG];
        self.state.read_message(theirs, &mut buf).map_err(|e| e.to_string())?;
        Ok(())
    }

    /// Calls `snow::HandshakeState::into_transport_mode`, which succeeds exactly
    /// on a handshake that has both written and read its message. The transport
    /// has sealed and opened nothing yet. Where the other side's message comes
    /// from a key pair that it drew, the keys depend on the pre-shared key and
    /// the two messages alone, and are named `noise_keys`; of the keys under any
    /// other message nothing is claimed.
    #[verifier::external_body]
    fn into_channel(self) -> (r: Result<SecureChannel, String>)
        ensures
            (r is Ok) == (self@.wrote is Some && self@.read is Some),
            r matches Ok(c) ==> {
                &&& c@.initiator == self@.initiator
                &&& c@.sealed == 0
                &&& c@.opened == 0
                &&& noise_written(self@.read->0) ==> c@.keys == if self@.initiator {
                    noise_keys(self@.pattern, self@.at, self@.psk, self@.wrote->0, self@.read->0)
                } else {
                    noise_keys(self@.pattern, self@.at, self@.psk, self@.read->0, self@.wrote->0)
                }
            },
    {
        let noise = self.state.into_transport_mode().map_err(|e| e.to_string())?;
        Ok(SecureChannel { noise, transport: Ghost(arbitrary()) })
    }
}

/// A frame is what the other side of a channel wrote next, for this message.
pub open spec fn is_next_frame(t: Transport, frame: Seq<u8>, plain: Seq<u8>) -> bool {
    plain.len() <= MAX_PLAIN && frame == noise_frame(t.keys, !t.initiator, t.opened, plain)
}

/// A frame is what the other side of a channel wrote next, for some message.
pub open spec fn is_a_next_frame(t: Transport, frame: Seq<u8>) -> bool {
    exists|m: Seq<u8>| is_next_frame(t, frame, m)
}

/// A frame is what the other side of a channel wrote next, for this message and for
/// no other.
pub open spec fn carries(t: Transport, frame: Seq<u8>, plain: Seq<u8>) -> bool {
    is_next_frame(t, frame, plain) && forall|m: Seq<u8>|
        is_next_frame(t, frame, m) ==> m == plain
}

/// The first message of a handshake, as the sending side writes it: it comes from
/// a key pair that was drawn, and the receiving side with the same key takes it.
pub open spec fn first_step(psk: Seq<u8>, mine: Seq<u8>) -> bool {
    &&& mine.len() == HANDSHAKE_LEN
    &&& noise_written(mine)
    &&& Progress::start(psk, false).takes(mine)
}

/// The answer to a first message, as the receiving side writes it, and the
/// channel on its side: it comes from a key pair that was drawn, and where the
/// first message does so too, the side that wrote that takes it.
pub open spec fn second_step(
    psk: Seq<u8>,
    theirs: Seq<u8>,
    mine: Seq<u8>,
    channel: Transport,
) -> bool {
    &&& mine.len() == HANDSHAKE_LEN
    &&& noise_written(mine)
    &&& !channel.initiator
    &&& channel.sealed == 0
    &&& channel.opened == 0
    &&& noise_written(theirs) ==> {
        let ended = Progress { read: Some(mine), ..Progress::opening(psk, theirs) };
        Progress::opening(psk, theirs).takes(mine) && channel.keys == ended.keys()
    }
}

/// The channel on the side that opened a handshake, once the answer is in.
pub open spec fn last_step(before: Progress, theirs: Seq<u8>, channel: Transport) -> bool {
    &&& HANDSHAKE_LEN <= theirs.len() <= MAX_NOISE_MSG
    &&& channel.initiator == before.initiator
    &&& channel.sealed == 0
    &&& channel.opened == 0
    &&& noise_written(theirs) && before.initiator ==> channel.keys == (Progress {
        read: Some(theirs),
        ..before
    }).keys()
}

/// A side that opened a handshake and waits for the answer.
pub open spec fn awaits_answer(p: Progress) -> bool {
    p.initiator && p.wrote is Some && p.read is None
}

impl SecureChannel {
    /// Calls `snow::TransportState::write_message`. It fails exactly on a
    /// message too long for Noise and after all nonces are used. The frame
    /// depends on the keys, the direction, the count of frames before it and the
    /// message alone, and is named `noise_frame`; it is longer than the message
    /// by the tag.
    #[verifier::external_body]
    fn write(&mut self, plain: &[u8]) -> (r: Result<Vec<u8>, String>)
        ensures
            (r is Ok) == (plain@.len() <= MAX_PLAIN && old(self)@.sealed < u64::MAX),
            r matches Ok(f) ==> {
                &&& f@ == noise_frame(
                    old(self)@.keys,
                    old(self)@.initiator,
                    old(self)@.sealed,
                    plain@,
                )
                &&& f@.len() == plain@.len() + MEDIA_TAG_LEN
                &&& final(self)@ == (Transport { sealed: old(self)@.sealed + 1, ..old(self)@ })
            },
            r is Err ==> final(self)@ == old(self)@,
    {
        let mut out = vec![0u8; plain.len() + MEDIA_TAG_LEN];
        let n = self.noise.write_message(plain, &mut out).map_err(|e| e.to_string())?;
        out.truncate(n);
        Ok(out)
    }

    /// Calls `snow::TransportState::read_message`. It succeeds exactly on the
    /// next frame that the other side writes for some message, as long as not
    /// all nonces are used, and gives that message; no other message has the
    /// same frame.
    #[verifier::external_body]
    fn read(&mut self, frame: &[u8]) -> (r: Result<Vec<u8>, String>)
        ensures
            (r is Ok) == (old(self)@.opened < u64::MAX && exists|m: Seq<u8>|
                is_next_frame(old(self)@, frame@, m)),
            r matches Ok(p) ==> {
                &&& is_next_frame(old(self)@, frame@, p@)
                &&& frame@.len() == p@.len() + MEDIA_TAG_LEN
                &&& forall|m: Seq<u8>| is_next_frame(old(self)@, frame@, m) ==> m == p@
                &&& final(self)@ == (Transport { opened: old(self)@.opened + 1, ..old(self)@ })
            },
            r is Err ==> final(self)@ == old(self)@,
    {
        let mut plain = vec![0u8; MAX_NOISE_MSG];
        let n = self.noise.read_message(frame, &mut plain).map_err(|e| e.to_string())?;
        plain.truncate(n);
        Ok(plain)
    }

    /// The sending side starts the handshake: gives the message to send, which a
    /// receiver with the same key takes. It fails only where no key pair can be
    /// drawn.
    pub fn initiator(psk: &Key) -> (r: Result<(Handshake, Vec<u8>), ChannelError>)
        ensures
            r matches Ok((h, mine)) ==> first_step(psk@, mine@) && h@ == Progress::opening(
                psk@,
                mine@,
            ),
            r matches Err(e) ==> e is Handshake,
    {
        let mut h = match Handshake::as_initiator(NOISE_PARAMS, PSK_POSITION, psk) {
            Ok(h) => h,
            Err(e) => return Err(ChannelError::CannotStart(e)),
        };
        match h.write() {
            Ok(mine) => Ok((h, mine)),
            Err(e) => Err(ChannelError::Handshake(e)),
        }
    }

    /// The receiving side answers: takes the sender's message and gives the one
    /// to send back, with the channel that stands once it is sent. A message that
    /// does not fit the key is refused; else it fails only where no key pair can
    /// be drawn.
    pub fn responder(psk: &Key, theirs: &[u8]) -> (r: Result<(SecureChannel, Vec<u8>), ChannelError>)
        ensures
            r matches Err(ChannelError::WrongKey(_)) <==> !Progress::start(psk@, false).takes(
                theirs@,
            ),
            r matches Ok((c, mine)) ==> second_step(psk@, theirs@, mine@, c@),
            r matches Err(e) ==> e is WrongKey || e is Handshake,
    {
        let mut h = match Handshake::as_responder(NOISE_PARAMS, PSK_POSITION, psk) {
            Ok(h) => h,
            Err(e) => return Err(ChannelError::CannotStart(e)),
        };
        if let Err(e) = h.read(theirs) {
            return Err(ChannelError::WrongKey(e));
        }
        let mine = match h.write() {
            Ok(mine) => mine,
            Err(e) => return Err(ChannelError::Handshake(e)),
        };
        match h.into_channel() {
            Ok(c) => Ok((c, mine)),
            Err(e) => Err(ChannelError::Unfinished(e)),
        }
    }

    /// Turns a message into the body of a frame to send.
    pub fn seal(&mut self, plain: &[u8]) -> (r: Result<Vec<u8>, ChannelError>)
        ensures
            r is Ok <==> plain@.len() <= MAX_PLAIN && old(self)@.sealed < u64::MAX,
            r matches Ok(f) ==> {
                &&& f@ == noise_frame(
                    old(self)@.keys,
                    old(self)@.initiator,
                    old(self)@.sealed,
                    plain@,
                )
                &&& f@.len() == plain@.len() + MEDIA_TAG_LEN
                &&& final(self)@ == (Transport { sealed: old(self)@.sealed + 1, ..old(self)@ })
            },
            r matches Err(e) ==> {
                &&& final(self)@ == old(self)@
                &&& if plain@.len() > MAX_PLAIN {
                    e == ChannelError::TooLong(plain@.len() as usize)
                } else {
                    e is Encrypt
                }
            },
    {
        if plain.len() > MAX_PLAIN {
            return Err(ChannelError::TooLong(plain.len()));
        }
        match self.write(plain) {
            Ok(f) => Ok(f),
            Err(e) => Err(ChannelError::Encrypt(e)),
        }
    }

    /// The inverse of `seal`: what the other side of the same session sealed
    /// next, this side opens to the same message, and it opens nothing else.
    pub fn open(&mut self, frame: &[u8]) -> (r: Result<Vec<u8>, ChannelError>)
        ensures
            r is Ok <==> old(self)@.opened < u64::MAX && is_a_next_frame(old(self)@, frame@),
            r matches Ok(p) ==> {
                &&& carries(old(self)@, frame@, p@)
                &&& frame@.len() == p@.len() + MEDIA_TAG_LEN
                &&& final(self)@ == (Transport { opened: old(self)@.opened + 1, ..old(self)@ })
            },
            r matches Err(e) ==> e is Decrypt && final(self)@ == old(self)@,
    {
        match self.read(frame) {
            Ok(p) => Ok(p),
            Err(e) => Err(ChannelError::Decrypt(e)),
        }
    }
}

impl Handshake {
    /// The sending side takes the answer: the channel stands. An answer that does
    /// not fit the key and the message sent before is refused. Of an answer that
    /// comes from no key pair that was drawn, it is not said whether it fits.
    pub fn finish(self, theirs: &[u8]) -> (r: Result<SecureChannel, ChannelError>)
        ensures
            awaits_answer(self@) && noise_written(theirs@) ==> (r is Ok <==> self@.takes(theirs@)),
            r matches Ok(c) ==> last_step(self@, theirs@, c@),
            r matches Err(e) ==> e is WrongKey || e is Unfinished,
            self@.wrote is Some ==> !(r matches Err(ChannelError::Unfinished(_))),
            !(HANDSHAKE_LEN <= theirs@.len() <= MAX_NOISE_MSG) ==> r matches Err(
                ChannelError::WrongKey(_),
            ),
    {
        let mut h = self;
        if let Err(e) = h.read(theirs) {
            return Err(ChannelError::WrongKey(e));
        }
        match h.into_channel() {
            Ok(c) => Ok(c),
            Err(e) => Err(ChannelError::Unfinished(e)),
        }
    }
}

/// A shared secret gives a working channel. Of what the sending side writes under
/// a key and the receiving side answers under the same key: the receiver takes the
/// first message, the sender takes the answer, and the channels on the two sides
/// have the same keys, stand at opposite ends, and have carried nothing yet.
pub proof fn a_shared_secret_gives_a_working_channel(
    psk: Seq<u8>,
    first: Seq<u8>,
    second: Seq<u8>,
    receiver: Transport,
    sender: Transport,
)
    requires
        first_step(psk, first),
        second_step(psk, first, second, receiver),
        last_step(Progress::opening(psk, first), second, sender),
    ensures
        Progress::start(psk, false).takes(first),
        awaits_answer(Progress::opening(psk, first)),
        noise_written(second),
        Progress::opening(psk, first).takes(second),
        sender.keys == receiver.keys,
        sender.initiator && !receiver.initiator,
        sender.sealed == receiver.opened && receiver.sealed == sender.opened,
{
}

/// A channel keeps its session: sealing and opening count, and change nothing
/// else, so two ends that started with the same keys stay in step as long as
/// every frame of one is opened by the other, in order.
pub proof fn two_ends_stay_in_step(a: Transport, b: Transport, plain: Seq<u8>, frame: Seq<u8>)
    requires
        a.keys == b.keys,
        a.initiator != b.initiator,
        a.sealed == b.opened,
        plain.len() <= MAX_PLAIN,
        frame == noise_frame(a.keys, a.initiator, a.sealed, plain),
    ensures
        is_next_frame(b, frame, plain),
        ({
            let after_a = Transport { sealed: a.sealed + 1, ..a };
            let after_b = Transport { opened: b.opened + 1, ..b };
            after_a.sealed == after_b.opened && after_a.keys == after_b.keys
        }),
{
}

/// Why the channel could not be set up or used. The texts are those of the
/// cryptography underneath.
#[derive(Debug)]
pub enum ChannelError {
    CannotStart(String),
    Handshake(String),
    /// A handshake with a secret that does not match looks like damaged data.
    WrongKey(String),
    Unfinished(String),
    /// A control message of so many bytes does not fit.
    TooLong(usize),
    Encrypt(String),
    Decrypt(String),
}

impl ChannelError {
    /// The error in words. A wrong secret gets a hint instead of a bare
    /// decryption error.
    pub open spec fn text(self) -> Seq<char> {
        match self {
            ChannelError::CannotStart(e) => "nie mogę zacząć uzgodnienia: "@ + e@,
            ChannelError::Handshake(e) => "uzgodnienie: "@ + e@,
            ChannelError::WrongKey(e) => "uzgodnienie odrzucone ("@ + e@
                + "). Najpewniej druga strona ma inny klucz — sparujcie się od nowa: `micbridge forget <nazwa>` po obu stronach."@,
            ChannelError::Unfinished(e) => "uzgodnienie nie doszło do końca: "@ + e@,
            ChannelError::TooLong(n) => "wiadomość sterująca ma "@ + crate::text::decimal(n as nat)
                + " bajtów, za dużo"@,
            ChannelError::Encrypt(e) => "szyfrowanie: "@ + e@,
            ChannelError::Decrypt(e) => "nie mogę odszyfrować wiadomości: "@ + e@,
        }
    }

    /// The error in words.
    pub fn message(&self) -> (r: String)
        ensures
            r@ == self.text(),
    {
        let mut out = String::new();
        match self {
            ChannelError::CannotStart(e) => {
                append(&mut out, "nie mogę zacząć uzgodnienia: ");
                append(&mut out, e.as_str());
            },
            ChannelError::Handshake(e) => {
                append(&mut out, "uzgodnienie: ");
                append(&mut out, e.as_str());
            },
            ChannelError::WrongKey(e) => {
                append(&mut out, "uzgodnienie odrzucone (");
                append(&mut out, e.as_str());
                append(
                    &mut out,
                    "). Najpewniej druga strona ma inny klucz — sparujcie się od nowa: `micbridge forget <nazwa>` po obu stronach.",
                );
            },
            ChannelError::Unfinished(e) => {
                append(&mut out, "uzgodnienie nie doszło do końca: ");
                append(&mut out, e.as_str());
            },
            ChannelError::TooLong(n) => {
                append(&mut out, "wiadomość sterująca ma ");
                push_number(&mut out, *n as u64);
                append(&mut out, " bajtów, za dużo");
            },
            ChannelError::Encrypt(e) => {
                append(&mut out, "szyfrowanie: ");
                append(&mut out, e.as_str());
            },
            ChannelError::Decrypt(e) => {
                append(&mut out, "nie mogę odszyfrować wiadomości: ");
                append(&mut out, e.as_str());
            },
        }
        assert(out@ =~= self.text());
        out
    }
}

} // verus!
