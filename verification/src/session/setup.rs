//! The two sides of setting a session up, message by message.
//!
//! A side is a value that takes what came and says what to do: what to send,
//! what to show or to ask for, what to keep. It does not read or write anything
//! itself.
//!
//! The sender: introduces itself, hears whether it is known, decides on pairing,
//! pairs where needed, and opens the encrypted channel. The receiver answers
//! step by step.
use vstd::prelude::*;

use crate::net::channel::{ChannelError, Handshake, SecureChannel};
use crate::net::keys::KeyStore;
use crate::net::pair::{respond, AwaitConfirm, Initiator, PairError};
use crate::net::secure::Key;
use crate::proto::{ControlMsg, Init, PROTOCOL_VERSION};
use crate::session::pair::{
    expect_handshake, introduction, on_introduction, on_ready, receiver_gives_up, receiver_keeps,
    sender_keeps, Due, Pairing, SetupError, Visitor,
};

verus! {

/// Why a session could not be set up.
#[derive(Debug)]
pub enum SetupFailure {
    /// The other side refused, is refused, or said something that was not due.
    Setup(SetupError),
    /// The two did not come to a key.
    Pairing(PairError),
    /// The encrypted channel did not open.
    Channel(ChannelError),
}

/// What the sending side waits for.
pub enum SenderStage {
    /// The receiver's answer to the introduction.
    Ready,
    /// The receiver's step of the key exchange.
    Step { peer: String, initiator: Initiator },
    /// The receiver's confirmation of the key.
    Confirm { peer: String, awaiting: AwaitConfirm },
    /// The receiver's step of the channel's handshake.
    Channel { handshake: Handshake },
}

/// The sending side, waiting for a message.
pub struct SenderSetup {
    pub stage: SenderStage,
}

/// The sending side, waiting for the code that the receiver shows.
pub struct CodeDue {
    pub peer: String,
}

/// The sending side with a key.
pub struct KeyReady {
    pub key: Key,
}

/// What the sending side does after a message.
#[allow(inconsistent_fields)]
pub enum SenderStep {
    /// The two have to pair: send this, ask for the code.
    AskCode { say: ControlMsg, next: CodeDue },
    /// The two know each other: send this, open the channel.
    KeyKnown { say: ControlMsg, next: KeyReady },
    /// Send this and wait.
    Send { say: ControlMsg, next: SenderSetup },
    /// The two have paired: the store has changed and is to be saved; say this
    /// line, open the channel.
    Paired { line: String, next: KeyReady },
    /// The channel stands.
    Established(SecureChannel),
    /// It came to nothing.
    Failed(SetupFailure),
}

/// What an answer to the introduction leads to.
pub open spec fn answered(msg: ControlMsg, keys: Map<Seq<char>, Seq<char>>, r: SenderStep) -> bool {
    match msg {
        ControlMsg::Ready { host, known } => match crate::net::keys::found(keys, host@) {
            Some(key) if known => {
                &&& r matches SenderStep::KeyKnown { say, next }
                &&& say == (ControlMsg::Pairing { needed: false })
                &&& next.key@ == key
            },
            _ => {
                &&& r matches SenderStep::AskCode { say, next }
                &&& say == (ControlMsg::Pairing { needed: true })
                &&& next.peer == host
            },
        },
        ControlMsg::Reject { reason } => r == SenderStep::Failed(
            SetupFailure::Setup(SetupError::Refused(reason)),
        ),
        other => r == SenderStep::Failed(
            SetupFailure::Setup(SetupError::Unexpected(Due::Ready, other)),
        ),
    }
}

/// What the receiver's step of the key exchange leads to.
pub open spec fn exchanged(
    peer: String,
    put: crate::net::exchange::Put,
    msg: ControlMsg,
    r: SenderStep,
) -> bool {
    match msg {
        ControlMsg::Handshake { msg: theirs } => match crate::net::exchange::secret_with(
            put,
            theirs@,
        ) {
            Some(secret) => {
                &&& r matches SenderStep::Send { say, next }
                &&& say matches ControlMsg::Confirm { mac }
                &&& next.stage matches SenderStage::Confirm { peer: p, awaiting }
                &&& p == peer
                &&& awaiting@ == crate::net::pair::key_from(secret)
                &&& mac@ == crate::net::pair::sender_confirms(awaiting@)
            },
            None => r matches SenderStep::Failed(SetupFailure::Pairing(PairError::Exchange(_))),
        },
        ControlMsg::Reject { reason } => r == SenderStep::Failed(
            SetupFailure::Pairing(PairError::Aborted(reason)),
        ),
        other => r == SenderStep::Failed(SetupFailure::Pairing(PairError::NoStep(other))),
    }
}

/// What the receiver's confirmation leads to, and what the store holds next.
pub open spec fn concluded(
    peer: String,
    key: Seq<u8>,
    msg: ControlMsg,
    before: Map<Seq<char>, Seq<char>>,
    r: SenderStep,
    after: Map<Seq<char>, Seq<char>>,
) -> bool {
    match msg {
        ControlMsg::Confirm { mac } => if mac@ == crate::net::pair::receiver_confirms(key) {
            &&& r matches SenderStep::Paired { line, next }
            &&& line@ == crate::session::pair::sender_paired(peer@)
            &&& next.key@ == key
            &&& after == before.insert(
                crate::net::keys::label(peer@),
                crate::net::keys::hex_of(key),
            )
        } else {
            &&& r matches SenderStep::Failed(SetupFailure::Pairing(PairError::CodeMismatch))
            &&& after == before
        },
        ControlMsg::Reject { reason } => {
            &&& r == SenderStep::Failed(SetupFailure::Pairing(PairError::Aborted(reason)))
            &&& after == before
        },
        other => {
            &&& r == SenderStep::Failed(SetupFailure::Pairing(PairError::NoConfirmation(other)))
            &&& after == before
        },
    }
}

/// What the receiver's step of the channel's handshake leads to: a step that fits
/// the key and what was sent before opens the channel, any other does not.
pub open spec fn opened(
    progress: crate::net::channel::Progress,
    msg: ControlMsg,
    r: SenderStep,
) -> bool {
    match msg {
        ControlMsg::Handshake { msg: theirs } => {
            &&& crate::net::channel::awaits_answer(progress)
                && crate::net::channel::noise_written(theirs@) ==> (r is Established
                <==> progress.takes(theirs@))
            &&& match r {
                SenderStep::Established(c) => crate::net::channel::last_step(
                    progress,
                    theirs@,
                    c@,
                ),
                SenderStep::Failed(SetupFailure::Channel(e)) => {
                    &&& e is WrongKey || e is Unfinished
                    &&& progress.wrote is Some ==> e is WrongKey
                },
                _ => false,
            }
        },
        ControlMsg::Reject { reason } => r == SenderStep::Failed(
            SetupFailure::Setup(SetupError::BrokenOff(reason)),
        ),
        other => r == SenderStep::Failed(
            SetupFailure::Setup(SetupError::Unexpected(Due::Handshake, other)),
        ),
    }
}

impl SenderSetup {
    /// The sending side begins: gives the introduction to send.
    pub fn start(host: String) -> (r: (SenderSetup, ControlMsg))
        ensures
            r.0.stage is Ready,
            r.1 == ControlMsg::Init(Init { version: PROTOCOL_VERSION, host }),
    {
        (SenderSetup { stage: SenderStage::Ready }, introduction(host))
    }

    /// The sending side takes a message.
    pub fn on_message(self, msg: ControlMsg, store: &mut KeyStore) -> (r: SenderStep)
        requires
            old(store).wf(),
        ensures
            final(store).wf(),
            final(store).place() == old(store).place(),
            !(self.stage is Confirm) ==> final(store)@ == old(store)@,
            match self.stage {
                SenderStage::Ready => answered(msg, old(store)@, r),
                SenderStage::Step { peer, initiator } => exchanged(peer, initiator@, msg, r),
                SenderStage::Confirm { peer, awaiting } => concluded(
                    peer,
                    awaiting@,
                    msg,
                    old(store)@,
                    r,
                    final(store)@,
                ),
                SenderStage::Channel { handshake } => opened(handshake@, msg, r),
            },
    {
        match self.stage {
            SenderStage::Ready => match on_ready(msg, store) {
                Ok(plan) => {
                    let say = plan.decision();
                    match plan.key {
                        Some(key) => SenderStep::KeyKnown { say, next: KeyReady { key } },
                        None => SenderStep::AskCode { say, next: CodeDue { peer: plan.peer } },
                    }
                },
                Err(e) => SenderStep::Failed(SetupFailure::Setup(e)),
            },
            SenderStage::Step { peer, initiator } => match initiator.on_handshake(msg) {
                Ok((awaiting, say)) => SenderStep::Send {
                    say,
                    next: SenderSetup { stage: SenderStage::Confirm { peer, awaiting } },
                },
                Err(e) => SenderStep::Failed(SetupFailure::Pairing(e)),
            },
            SenderStage::Confirm { peer, awaiting } => match awaiting.on_receiver_confirm(msg) {
                Ok(key) => {
                    let line = sender_keeps(store, peer.as_str(), &key);
                    SenderStep::Paired { line, next: KeyReady { key } }
                },
                Err(e) => SenderStep::Failed(SetupFailure::Pairing(e)),
            },
            SenderStage::Channel { handshake } => match expect_handshake(msg) {
                Ok(theirs) => match handshake.finish(theirs.as_slice()) {
                    Ok(channel) => SenderStep::Established(channel),
                    Err(e) => SenderStep::Failed(SetupFailure::Channel(e)),
                },
                Err(e) => SenderStep::Failed(SetupFailure::Setup(e)),
            },
        }
    }
}

impl CodeDue {
    /// The user has copied the code: gives the first step of the key exchange to
    /// send.
    pub fn on_code(self, code: &str) -> (r: (SenderSetup, ControlMsg))
        ensures
            ({
                &&& r.0.stage matches SenderStage::Step { peer, initiator }
                &&& r.1 matches ControlMsg::Handshake { msg }
                &&& peer == self.peer
                &&& initiator@ == crate::net::pair::put_in(code@, true, msg@)
                &&& crate::net::exchange::is_message(msg@, true)
            }),
    {
        let (initiator, say) = Initiator::start(code);
        (SenderSetup { stage: SenderStage::Step { peer: self.peer, initiator } }, say)
    }
}

impl KeyReady {
    /// Opens the channel: gives the first step of its handshake to send, which a
    /// receiver with the same key takes. It fails only where no key pair can be
    /// drawn.
    pub fn open(self) -> (r: Result<(SenderSetup, ControlMsg), SetupFailure>)
        ensures
            match r {
                Ok((next, say)) => {
                    &&& next.stage matches SenderStage::Channel { handshake }
                    &&& say matches ControlMsg::Handshake { msg }
                    &&& crate::net::channel::first_step(self.key@, msg@)
                    &&& handshake@ == crate::net::channel::Progress::opening(self.key@, msg@)
                },
                Err(e) => e matches SetupFailure::Channel(ChannelError::Handshake(_)),
            },
    {
        match SecureChannel::initiator(&self.key) {
            Ok((handshake, mine)) => Ok(
                (
                    SenderSetup { stage: SenderStage::Channel { handshake } },
                    ControlMsg::Handshake { msg: mine },
                ),
            ),
            Err(e) => Err(SetupFailure::Channel(e)),
        }
    }
}

/// What the receiving side waits for.
pub enum ReceiverStage {
    /// The sender's introduction.
    Introduction,
    /// The sender's decision on pairing.
    Decision { visitor: Visitor },
    /// The sender's step of the key exchange, under the code that is shown.
    Step { host: String, code: String },
    /// The sender's confirmation of the key.
    Confirm { host: String, awaiting: AwaitConfirm },
    /// The sender's step of the channel's handshake.
    Channel { host: String, key: Key },
}

/// The receiving side, waiting for a message.
pub struct ReceiverSetup {
    pub stage: ReceiverStage,
}

/// The receiving side with a key that the sender has confirmed, while its own
/// confirmation goes out.
pub struct Keeping {
    pub host: String,
    pub key: Key,
}

/// What goes out, and what is said, when an attempt to pair has failed.
#[derive(Debug)]
pub struct GivenUp {
    pub reject: ControlMsg,
    pub line: Option<&'static str>,
}

/// What the receiving side does after a message.
#[allow(inconsistent_fields)]
pub enum ReceiverStep {
    /// Send this and wait.
    Send { say: ControlMsg, next: ReceiverSetup },
    /// The two have to pair: show the code and wait.
    ShowCode { peer: String, code: String, next: ReceiverSetup },
    /// The two know each other: wait for the handshake.
    Recognised { next: ReceiverSetup },
    /// The sender has confirmed: send this, then keep the key.
    Confirmed { say: ControlMsg, next: Keeping },
    /// The channel to this machine stands once this is sent.
    Established { say: ControlMsg, channel: SecureChannel, peer: String },
    /// It came to nothing. First `say` goes out, then, where an attempt to pair
    /// failed, what comes of that.
    Failed { say: Option<ControlMsg>, why: SetupFailure, given_up: Option<GivenUp> },
}

/// An attempt to pair has failed: the refusal to send, the misses counted on, and
/// a newly drawn code, with a word on it, after the last of them.
pub open spec fn missed(before: Pairing, after: Pairing, g: Option<GivenUp>) -> bool {
    &&& g matches Some(gone)
    &&& gone.reject matches ControlMsg::Reject { reason }
    &&& reason@ == "parowanie odrzucone"@
    &&& gone.line is Some <==> before.misses() + 1 == crate::net::pair::MAX_ATTEMPTS
    &&& gone.line matches Some(line) ==> line@ == "  trzy nieudane próby — losuję nowy kod."@
    &&& crate::session::pair::counted_miss(before, after)
}

/// What an introduction leads to.
pub open spec fn introduced(
    msg: ControlMsg,
    me: String,
    keys: Map<Seq<char>, Seq<char>>,
    r: ReceiverStep,
) -> bool {
    match msg {
        ControlMsg::Init(init) => if init.version == PROTOCOL_VERSION {
            &&& r matches ReceiverStep::Send { say, next }
            &&& next.stage matches ReceiverStage::Decision { visitor }
            &&& visitor.host == init.host
            &&& visitor.stored is Some <==> crate::net::keys::found(keys, init.host@) is Some
            &&& visitor.stored is Some ==> crate::net::keys::found(keys, init.host@) == Some(
                visitor.stored->0@,
            )
            &&& say == (ControlMsg::Ready { host: me, known: visitor.stored is Some })
        } else {
            &&& r matches ReceiverStep::Failed { say, why, given_up }
            &&& say matches Some(ControlMsg::Reject { reason })
            &&& reason@ == crate::session::pair::wrong_version(init.version)
            &&& why matches SetupFailure::Setup(SetupError::Refuse(said))
            &&& said@ == reason@
            &&& given_up is None
        },
        other => r == (ReceiverStep::Failed {
            say: None,
            why: SetupFailure::Setup(SetupError::Unexpected(Due::Introduction, other)),
            given_up: None,
        }),
    }
}

/// What a decision on pairing leads to.
pub open spec fn decided(
    visitor: Visitor,
    msg: ControlMsg,
    shown: Seq<char>,
    r: ReceiverStep,
) -> bool {
    match msg {
        ControlMsg::Pairing { needed } => if needed {
            &&& r matches ReceiverStep::ShowCode { peer, code, next }
            &&& next.stage matches ReceiverStage::Step { host, code: kept }
            &&& peer@ == visitor.host@
            &&& host == visitor.host
            &&& code@ == shown
            &&& kept@ == shown
        } else {
            match visitor.stored {
                Some(stored) => {
                    &&& r matches ReceiverStep::Recognised { next }
                    &&& next.stage == ReceiverStage::Channel { host: visitor.host, key: stored }
                },
                None => {
                    &&& r matches ReceiverStep::Failed { say, why, given_up }
                    &&& say matches Some(ControlMsg::Reject { reason })
                    &&& reason@ == crate::session::pair::unknown_sender(visitor.host@)
                    &&& why matches SetupFailure::Setup(SetupError::Refuse(said))
                    &&& said@ == reason@
                    &&& given_up is None
                },
            }
        },
        other => r == (ReceiverStep::Failed {
            say: None,
            why: SetupFailure::Setup(SetupError::Unexpected(Due::PairingDecision, other)),
            given_up: None,
        }),
    }
}

/// What the sender's step of the key exchange leads to. The answer goes out
/// whether or not the step was well formed.
pub open spec fn responded(
    host: String,
    code: Seq<char>,
    msg: ControlMsg,
    before: Pairing,
    r: ReceiverStep,
    after: Pairing,
) -> bool {
    match msg {
        ControlMsg::Handshake { msg: theirs } => match r {
            ReceiverStep::Send { say, next } => {
                &&& say matches ControlMsg::Handshake { msg: mine }
                &&& crate::net::exchange::is_message(mine@, false)
                &&& next.stage matches ReceiverStage::Confirm { host: h, awaiting }
                &&& h == host
                &&& crate::net::pair::agreed_key(code, false, mine@, theirs@) == Some(awaiting@)
                &&& after == before
            },
            ReceiverStep::Failed { say, why, given_up } => {
                &&& say matches Some(ControlMsg::Handshake { msg: mine })
                &&& crate::net::exchange::is_message(mine@, false)
                &&& crate::net::pair::agreed_key(code, false, mine@, theirs@) is None
                &&& why matches SetupFailure::Pairing(PairError::Exchange(_))
                &&& missed(before, after, given_up)
            },
            _ => false,
        },
        ControlMsg::Reject { reason } => {
            &&& r matches ReceiverStep::Failed { say, why, given_up }
            &&& say is None
            &&& why == SetupFailure::Pairing(PairError::Aborted(reason))
            &&& missed(before, after, given_up)
        },
        other => {
            &&& r matches ReceiverStep::Failed { say, why, given_up }
            &&& say is None
            &&& why == SetupFailure::Pairing(PairError::NoStep(other))
            &&& missed(before, after, given_up)
        },
    }
}

/// What the sender's confirmation leads to.
pub open spec fn verified(
    host: String,
    key: Seq<u8>,
    msg: ControlMsg,
    before: Pairing,
    r: ReceiverStep,
    after: Pairing,
) -> bool {
    match msg {
        ControlMsg::Confirm { mac } => if mac@ == crate::net::pair::sender_confirms(key) {
            &&& r matches ReceiverStep::Confirmed { say, next }
            &&& say matches ControlMsg::Confirm { mac: mine }
            &&& mine@ == crate::net::pair::receiver_confirms(key)
            &&& next.host == host
            &&& next.key@ == key
            &&& after == before
        } else {
            &&& r matches ReceiverStep::Failed { say, why, given_up }
            &&& say is None
            &&& why matches SetupFailure::Pairing(PairError::CodeMismatch)
            &&& missed(before, after, given_up)
        },
        ControlMsg::Reject { reason } => {
            &&& r matches ReceiverStep::Failed { say, why, given_up }
            &&& say is None
            &&& why == SetupFailure::Pairing(PairError::Aborted(reason))
            &&& missed(before, after, given_up)
        },
        other => {
            &&& r matches ReceiverStep::Failed { say, why, given_up }
            &&& say is None
            &&& why == SetupFailure::Pairing(PairError::NoConfirmation(other))
            &&& missed(before, after, given_up)
        },
    }
}

/// What the sender's step of the channel's handshake leads to: a step that does
/// not fit the key is refused, any other opens the channel, unless no key pair can
/// be drawn.
pub open spec fn answered_channel(
    host: String,
    key: Seq<u8>,
    msg: ControlMsg,
    r: ReceiverStep,
) -> bool {
    match msg {
        ControlMsg::Handshake { msg: theirs } => match r {
            ReceiverStep::Established { say, channel, peer } => {
                &&& crate::net::channel::Progress::start(key, false).takes(theirs@)
                &&& say matches ControlMsg::Handshake { msg: mine }
                &&& peer == host
                &&& crate::net::channel::second_step(key, theirs@, mine@, channel@)
            },
            ReceiverStep::Failed { say, why, given_up } => {
                &&& say is None
                &&& why matches SetupFailure::Channel(e)
                &&& e is WrongKey || e is Handshake
                &&& e is WrongKey <==> !crate::net::channel::Progress::start(key, false).takes(
                    theirs@,
                )
                &&& given_up is None
            },
            _ => false,
        },
        ControlMsg::Reject { reason } => r == (ReceiverStep::Failed {
            say: None,
            why: SetupFailure::Setup(SetupError::BrokenOff(reason)),
            given_up: None,
        }),
        other => r == (ReceiverStep::Failed {
            say: None,
            why: SetupFailure::Setup(SetupError::Unexpected(Due::Handshake, other)),
            given_up: None,
        }),
    }
}

/// An attempt to pair failed for this reason.
fn pairing_failed(say: Option<ControlMsg>, e: PairError, pairing: &mut Pairing) -> (r: ReceiverStep)
    requires
        old(pairing).wf(),
    ensures
        final(pairing).wf(),
        ({
            &&& r matches ReceiverStep::Failed { say: s, why, given_up }
            &&& s == say
            &&& why == SetupFailure::Pairing(e)
            &&& missed(*old(pairing), *final(pairing), given_up)
        }),
{
    let (reject, line) = receiver_gives_up(pairing);
    ReceiverStep::Failed {
        say,
        why: SetupFailure::Pairing(e),
        given_up: Some(GivenUp { reject, line }),
    }
}

/// A refusal that the other side is told of where there is anything to tell.
fn refused(e: SetupError) -> (r: ReceiverStep)
    ensures
        ({
            &&& r matches ReceiverStep::Failed { say, why, given_up }
            &&& why == SetupFailure::Setup(e)
            &&& given_up is None
            &&& match e {
                SetupError::Refuse(reason) => say matches Some(ControlMsg::Reject { reason: told })
                    && told@ == reason@,
                _ => say is None,
            }
        }),
{
    let say = e.reply();
    ReceiverStep::Failed { say, why: SetupFailure::Setup(e), given_up: None }
}

impl ReceiverSetup {
    /// The receiving side begins.
    pub fn start() -> (r: ReceiverSetup)
        ensures
            r.stage is Introduction,
    {
        ReceiverSetup { stage: ReceiverStage::Introduction }
    }

    /// The receiving side takes a message. `me` is this machine's name.
    pub fn on_message(
        self,
        msg: ControlMsg,
        me: String,
        store: &KeyStore,
        pairing: &mut Pairing,
    ) -> (r: ReceiverStep)
        requires
            store.wf(),
            old(pairing).wf(),
        ensures
            final(pairing).wf(),
            !(self.stage is Step || self.stage is Confirm) ==> *final(pairing) == *old(pairing),
            match self.stage {
                ReceiverStage::Introduction => introduced(msg, me, store@, r),
                ReceiverStage::Decision { visitor } => decided(
                    visitor,
                    msg,
                    old(pairing).shown(),
                    r,
                ),
                ReceiverStage::Step { host, code } => responded(
                    host,
                    code@,
                    msg,
                    *old(pairing),
                    r,
                    *final(pairing),
                ),
                ReceiverStage::Confirm { host, awaiting } => verified(
                    host,
                    awaiting@,
                    msg,
                    *old(pairing),
                    r,
                    *final(pairing),
                ),
                ReceiverStage::Channel { host, key } => answered_channel(host, key@, msg, r),
            },
    {
        match self.stage {
            ReceiverStage::Introduction => match on_introduction(msg, me, store) {
                Ok((visitor, say)) => ReceiverStep::Send {
                    say,
                    next: ReceiverSetup { stage: ReceiverStage::Decision { visitor } },
                },
                Err(e) => refused(e),
            },
            ReceiverStage::Decision { visitor } => match visitor.on_decision(msg) {
                Ok(Some(key)) => ReceiverStep::Recognised {
                    next: ReceiverSetup {
                        stage: ReceiverStage::Channel { host: visitor.host, key },
                    },
                },
                Ok(None) => {
                    let code = pairing.code();
                    let peer = visitor.host.clone();
                    let kept = code.clone();
                    ReceiverStep::ShowCode {
                        peer,
                        code,
                        next: ReceiverSetup {
                            stage: ReceiverStage::Step { host: visitor.host, code: kept },
                        },
                    }
                },
                Err(e) => refused(e),
            },
            ReceiverStage::Step { host, code } => match respond(code.as_str(), msg) {
                Ok((say, Ok(awaiting))) => ReceiverStep::Send {
                    say,
                    next: ReceiverSetup { stage: ReceiverStage::Confirm { host, awaiting } },
                },
                Ok((say, Err(e))) => pairing_failed(Some(say), e, pairing),
                Err(e) => pairing_failed(None, e, pairing),
            },
            ReceiverStage::Confirm { host, awaiting } => match awaiting.on_sender_confirm(msg) {
                Ok((key, say)) => ReceiverStep::Confirmed { say, next: Keeping { host, key } },
                Err(e) => pairing_failed(None, e, pairing),
            },
            ReceiverStage::Channel { host, key } => match expect_handshake(msg) {
                Ok(theirs) => match SecureChannel::responder(&key, theirs.as_slice()) {
                    Ok((channel, mine)) => ReceiverStep::Established {
                        say: ControlMsg::Handshake { msg: mine },
                        channel,
                        peer: host,
                    },
                    Err(e) => ReceiverStep::Failed {
                        say: None,
                        why: SetupFailure::Channel(e),
                        given_up: None,
                    },
                },
                Err(e) => refused(e),
            },
        }
    }

    /// The connection broke while this side waited. In the middle of pairing that
    /// is a failed attempt, as good as a wrong code.
    pub fn on_break(self, pairing: &mut Pairing) -> (r: Option<GivenUp>)
        requires
            old(pairing).wf(),
        ensures
            final(pairing).wf(),
            if self.stage is Step || self.stage is Confirm {
                missed(*old(pairing), *final(pairing), r)
            } else {
                r is None && *final(pairing) == *old(pairing)
            },
    {
        match self.stage {
            ReceiverStage::Step { .. } | ReceiverStage::Confirm { .. } => {
                let (reject, line) = receiver_gives_up(pairing);
                Some(GivenUp { reject, line })
            },
            _ => None,
        }
    }
}

impl Keeping {
    /// The confirmation went out: the key is kept. The store has changed and is
    /// to be saved; gives the line to say, and waits for the handshake.
    pub fn on_sent(self, store: &mut KeyStore, pairing: &mut Pairing) -> (r: (String, ReceiverSetup))
        requires
            old(store).wf(),
            old(pairing).wf(),
        ensures
            final(store).wf(),
            final(store).place() == old(store).place(),
            final(store)@ == old(store)@.insert(
                crate::net::keys::label(self.host@),
                crate::net::keys::hex_of(self.key@),
            ),
            final(pairing).wf(),
            final(pairing).misses() == 0,
            final(pairing).shown() == old(pairing).shown(),
            final(pairing).drawn() == old(pairing).drawn(),
            r.0@ == crate::session::pair::receiver_paired(self.host@),
            r.1.stage == (ReceiverStage::Channel { host: self.host, key: self.key }),
    {
        let line = receiver_keeps(pairing, store, self.host.as_str(), &self.key);
        (line, ReceiverSetup { stage: ReceiverStage::Channel { host: self.host, key: self.key } })
    }

    /// The connection broke before the confirmation went out: a failed attempt,
    /// and nothing is kept.
    pub fn on_break(self, pairing: &mut Pairing) -> (r: Option<GivenUp>)
        requires
            old(pairing).wf(),
        ensures
            final(pairing).wf(),
            missed(*old(pairing), *final(pairing), r),
    {
        let (reject, line) = receiver_gives_up(pairing);
        Some(GivenUp { reject, line })
    }
}

/// Two sides with the same key come to a channel: the receiving side does not
/// refuse what the sending side opens with, and once it has answered, the sending
/// side's channel stands too, with the same keys.
pub proof fn a_shared_key_opens_the_channel(
    host: String,
    key: Seq<u8>,
    first: ControlMsg,
    receiver: ReceiverStep,
    sender: SenderStep,
)
    requires
        first matches ControlMsg::Handshake { msg } && crate::net::channel::first_step(key, msg@),
        answered_channel(host, key, first, receiver),
        receiver matches ReceiverStep::Established { say, .. } ==> opened(
            crate::net::channel::Progress::opening(key, first->Handshake_msg@),
            say,
            sender,
        ),
    ensures
        receiver is Established || (receiver matches ReceiverStep::Failed { why, .. }
            && why matches SetupFailure::Channel(ChannelError::Handshake(_))),
        receiver matches ReceiverStep::Established { channel, .. } ==> {
            &&& sender matches SenderStep::Established(c)
            &&& c@.keys == channel@.keys
            &&& c@.initiator != channel@.initiator
        },
{
}

/// Pairing happens once: where the two have exchanged their steps under one code
/// and each has kept the key that it came to, both stores hold the same key, and
/// the next session asks for no code.
pub proof fn the_next_session_needs_no_code(
    code: Seq<char>,
    from_sender: Seq<u8>,
    from_receiver: Seq<u8>,
    key: Key,
    sender_keys: Map<Seq<char>, Seq<char>>,
    receiver_keys: Map<Seq<char>, Seq<char>>,
    sender: Seq<char>,
    receiver: Seq<char>,
)
    requires
        crate::net::exchange::is_message(from_sender, true),
        crate::net::pair::agreed_key(code, true, from_sender, from_receiver) == Some(key@),
    ensures
        ({
            let theirs = crate::net::pair::agreed_key(code, false, from_receiver, from_sender);
            let kept_here = sender_keys.insert(
                crate::net::keys::label(receiver),
                crate::net::keys::hex_of(key@),
            );
            let kept_there = receiver_keys.insert(
                crate::net::keys::label(sender),
                crate::net::keys::hex_of(theirs->0),
            );
            &&& theirs == Some(key@)
            &&& crate::net::keys::found(kept_here, receiver) == Some(key@)
            &&& crate::net::keys::found(kept_there, sender) == Some(key@)
            &&& !crate::session::pair::must_pair(
                crate::net::keys::found(kept_there, sender) is Some,
                crate::net::keys::found(kept_here, receiver),
            )
        }),
{
    crate::net::pair::the_same_code_gives_both_sides_the_same_key(code, from_sender, from_receiver);
    crate::net::keys::a_kept_key_is_found_again(sender_keys, receiver, key@, receiver);
    crate::net::keys::a_kept_key_is_found_again(receiver_keys, sender, key@, sender);
}

} // verus!
