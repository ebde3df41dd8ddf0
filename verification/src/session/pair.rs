//! Setting up a session: who with whom, under which key, and whether the two
//! have to get to know each other.
//!
//! Pairing happens once. The receiver shows a six-digit code, the user copies it
//! on the other machine, and both sides keep a shared secret. From the next
//! start on they connect without asking for anything.
//!
//! The sender decides whether to pair, for it alone has both pieces of
//! information: whether it knows the receiver and, from the receiver's answer,
//! whether the receiver knows it. One side losing its key is enough, and they
//! pair anew.
use vstd::prelude::*;

use crate::net::keys::KeyStore;
use crate::net::pair::{is_code, CodeSource, MAX_ATTEMPTS};
use crate::net::secure::Key;
use crate::proto::{ControlMsg, Init, PROTOCOL_VERSION};
use crate::text::{append, push_number};

verus! {

/// The state of pairing on the receiving side, shared by connections that follow
/// one another.
///
/// A code lives longer than one attempt, because the user may make a mistake
/// while copying it. But not for as long as one likes: after three misses a new
/// one is drawn, so that live guessing has no way to add up.
pub struct Pairing {
    code: String,
    failures: u32,
    source: CodeSource,
}

impl Pairing {
    /// The code that is shown now.
    pub closed spec fn shown(&self) -> Seq<char> {
        self.code@
    }

    /// How often it was got wrong.
    pub closed spec fn misses(&self) -> u32 {
        self.failures
    }

    /// The codes that were drawn so far.
    pub closed spec fn drawn(&self) -> Seq<Seq<char>> {
        self.source@
    }

    /// The code is one, and has not been got wrong too often.
    pub open spec fn wf(&self) -> bool {
        is_code(self.shown()) && self.misses() < MAX_ATTEMPTS
    }

    pub fn new() -> (r: Self)
        ensures
            r.wf(),
            r.misses() == 0,
            r.drawn() == seq![r.shown()],
    {
        let mut source = CodeSource::new();
        let code = source.draw();
        assert(source@ =~= seq![code@]);
        Pairing { code, failures: 0, source }
    }

    /// The code to show.
    pub fn code(&self) -> (r: String)
        ensures
            r@ == self.shown(),
    {
        self.code.clone()
    }

    /// Shows a newly drawn code from now on; the misses count from nothing.
    pub fn replace(&mut self, drawn: String)
        requires
            is_code(drawn@),
        ensures
            final(self).wf(),
            final(self).shown() == drawn@,
            final(self).misses() == 0,
            final(self).drawn() == old(self).drawn(),
    {
        self.code = drawn;
        self.failures = 0;
    }

    /// An attempt failed. True when the code is void and a new one was drawn,
    /// which is shown from then on.
    pub fn note_failure(&mut self) -> (fresh: bool)
        requires
            old(self).wf(),
        ensures
            final(self).wf(),
            fresh == (old(self).misses() + 1 == MAX_ATTEMPTS),
            counted_miss(*old(self), *final(self)),
    {
        self.failures += 1;
        if self.failures < MAX_ATTEMPTS {
            return false;
        }
        let code = self.source.draw();
        self.replace(code);
        true
    }

    /// An attempt succeeded.
    pub fn note_success(&mut self)
        requires
            old(self).wf(),
        ensures
            final(self).wf(),
            final(self).misses() == 0,
            final(self).shown() == old(self).shown(),
            final(self).drawn() == old(self).drawn(),
    {
        self.failures = 0;
    }
}

/// What a failed attempt does to the state of pairing: the miss counts, and the
/// last miss that a code has has it replaced by one that is drawn then.
pub open spec fn counted_miss(before: Pairing, after: Pairing) -> bool {
    if before.misses() + 1 == MAX_ATTEMPTS {
        &&& after.misses() == 0
        &&& after.drawn() == before.drawn().push(after.shown())
    } else {
        &&& after.misses() == before.misses() + 1
        &&& after.shown() == before.shown()
        &&& after.drawn() == before.drawn()
    }
}

/// Live guessing cannot add up: a code that starts with no misses is shown for two
/// of them, and the third replaces it by one that is drawn then, which starts with
/// no misses again.
pub proof fn the_third_miss_replaces_the_code(
    start: Pairing,
    first: Pairing,
    second: Pairing,
    third: Pairing,
)
    requires
        start.misses() == 0,
        counted_miss(start, first),
        counted_miss(first, second),
        counted_miss(second, third),
    ensures
        first.shown() == start.shown(),
        second.shown() == start.shown(),
        second.drawn() == start.drawn(),
        third.drawn() == start.drawn().push(third.shown()),
        third.misses() == 0,
{
}

impl Default for Pairing {
    fn default() -> (r: Self)
        ensures
            r.wf(),
            r.misses() == 0,
            r.drawn() == seq![r.shown()],
    {
        Pairing::new()
    }
}

/// Which message was due when another one came.
#[derive(Debug, Clone, Copy, PartialEq, Eq, Structural)]
pub enum Due {
    /// The sender's introduction.
    Introduction,
    /// The receiver's answer to an introduction.
    Ready,
    /// The sender's decision whether to pair.
    PairingDecision,
    /// One step of the handshake of the sealed channel.
    Handshake,
    /// The sender's offer.
    Hello,
    /// The receiver's answer to an offer.
    HelloAnswer,
}

impl Due {
    /// The complaint that something else came.
    pub open spec fn text(self) -> Seq<char> {
        match self {
            Due::Introduction => "oczekiwałem przedstawienia się, dostałem "@,
            Due::Ready => "nieoczekiwana odpowiedź na przedstawienie się: "@,
            Due::PairingDecision => "oczekiwałem decyzji o parowaniu, dostałem "@,
            Due::Handshake => "oczekiwałem uzgodnienia, dostałem "@,
            Due::Hello => "oczekiwałem HELLO, dostałem "@,
            Due::HelloAnswer => "nieoczekiwana odpowiedź na HELLO: "@,
        }
    }

    /// The complaint that something else came.
    pub fn message(self) -> (r: &'static str)
        ensures
            r@ == self.text(),
    {
        match self {
            Due::Introduction => "oczekiwałem przedstawienia się, dostałem ",
            Due::Ready => "nieoczekiwana odpowiedź na przedstawienie się: ",
            Due::PairingDecision => "oczekiwałem decyzji o parowaniu, dostałem ",
            Due::Handshake => "oczekiwałem uzgodnienia, dostałem ",
            Due::Hello => "oczekiwałem HELLO, dostałem ",
            Due::HelloAnswer => "nieoczekiwana odpowiedź na HELLO: ",
        }
    }
}

/// Why a session could not be set up.
#[derive(Debug)]
pub enum SetupError {
    /// This side refuses, for this reason, and tells the other.
    Refuse(String),
    /// The other side refused, for this reason.
    Refused(String),
    /// The other side broke the handshake off, for this reason.
    BrokenOff(String),
    /// A message came that was not due.
    Unexpected(Due, ControlMsg),
    /// The receiver answers in another version of the protocol.
    WrongVersion(u32),
}

impl SetupError {
    /// The error in words, up to the message that was not due.
    pub open spec fn text(self) -> Seq<char> {
        match self {
            SetupError::Refuse(reason) => reason@,
            SetupError::Refused(reason) => "odbiornik odrzucił połączenie: "@ + reason@,
            SetupError::BrokenOff(reason) => "druga strona przerwała: "@ + reason@,
            SetupError::Unexpected(due, _) => due.text(),
            SetupError::WrongVersion(v) => "niezgodna wersja protokołu: my 2, odbiornik "@
                + crate::text::decimal(v as nat),
        }
    }

    /// The error in words.
    pub fn message(&self) -> (r: String)
        ensures
            r@ == self.text(),
    {
        let mut out = String::new();
        match self {
            SetupError::Refuse(reason) => append(&mut out, reason.as_str()),
            SetupError::Refused(reason) => {
                append(&mut out, "odbiornik odrzucił połączenie: ");
                append(&mut out, reason.as_str());
            },
            SetupError::BrokenOff(reason) => {
                append(&mut out, "druga strona przerwała: ");
                append(&mut out, reason.as_str());
            },
            SetupError::Unexpected(due, _) => append(&mut out, due.message()),
            SetupError::WrongVersion(v) => {
                append(&mut out, "niezgodna wersja protokołu: my 2, odbiornik ");
                push_number(&mut out, *v as u64);
            },
        }
        assert(out@ =~= self.text());
        out
    }

    /// What to tell the other side before the connection goes, if anything.
    pub fn reply(&self) -> (r: Option<ControlMsg>)
        ensures
            match self {
                SetupError::Refuse(why) => {
                    &&& r matches Some(ControlMsg::Reject { reason })
                    &&& reason@ == why@
                },
                _ => r is None,
            },
    {
        match self {
            SetupError::Refuse(reason) => Some(ControlMsg::Reject { reason: reason.clone() }),
            _ => None,
        }
    }
}

/// The bytes of a step of the sealed channel's handshake.
pub fn expect_handshake(msg: ControlMsg) -> (r: Result<Vec<u8>, SetupError>)
    ensures
        r == match msg {
            ControlMsg::Handshake { msg } => Ok(msg),
            ControlMsg::Reject { reason } => Err(SetupError::BrokenOff(reason)),
            other => Err(SetupError::Unexpected(Due::Handshake, other)),
        },
{
    match msg {
        ControlMsg::Handshake { msg } => Ok(msg),
        ControlMsg::Reject { reason } => Err(SetupError::BrokenOff(reason)),
        other => Err(SetupError::Unexpected(Due::Handshake, other)),
    }
}

/// How the sending side introduces itself.
pub fn introduction(host: String) -> (r: ControlMsg)
    ensures
        r == ControlMsg::Init(Init { version: PROTOCOL_VERSION, host }),
{
    ControlMsg::Init(Init { version: PROTOCOL_VERSION, host })
}

/// What the sending side does once the receiver has answered.
pub struct SenderPlan {
    /// The receiver's name.
    pub peer: String,
    /// The key to use, where the two need not pair.
    pub key: Option<Key>,
}

impl SenderPlan {
    /// Whether the two have to pair.
    pub open spec fn pairs(&self) -> bool {
        self.key is None
    }

    /// The decision to send.
    pub fn decision(&self) -> (r: ControlMsg)
        ensures
            r == (ControlMsg::Pairing { needed: self.pairs() }),
    {
        ControlMsg::Pairing { needed: self.key.is_none() }
    }
}

/// Whether the two have to pair, given whether the receiver knows the sender and
/// which key the sender holds.
pub open spec fn must_pair(known: bool, stored: Option<Seq<u8>>) -> bool {
    !known || stored is None
}

/// The sending side takes the receiver's answer and decides. The two pair unless
/// each side holds a key of the other.
pub fn on_ready(reply: ControlMsg, store: &KeyStore) -> (r: Result<SenderPlan, SetupError>)
    requires
        store.wf(),
    ensures
        match reply {
            ControlMsg::Ready { host, known } => {
                &&& r matches Ok(plan)
                &&& plan.peer == host
                &&& plan.pairs() == must_pair(known, crate::net::keys::found(store@, host@))
                &&& !plan.pairs() ==> crate::net::keys::found(store@, host@) == Some(plan.key->0@)
            },
            ControlMsg::Reject { reason } => r matches Err(e) && e == SetupError::Refused(reason),
            other => r matches Err(e) && e == SetupError::Unexpected(Due::Ready, other),
        },
{
    match reply {
        ControlMsg::Ready { host, known } => {
            let stored = store.get(host.as_str());
            let key = if known {
                stored
            } else {
                None
            };
            Ok(SenderPlan { peer: host, key })
        },
        ControlMsg::Reject { reason } => Err(SetupError::Refused(reason)),
        other => Err(SetupError::Unexpected(Due::Ready, other)),
    }
}

/// What the sending side says once the two have paired.
pub open spec fn sender_paired(peer: Seq<char>) -> Seq<char> {
    "Sparowano z „"@ + peer + "”. Następnym razem pójdzie bez kodu."@
}

/// The sending side keeps the key of a receiver it has paired with, and says so.
pub fn sender_keeps(store: &mut KeyStore, peer: &str, key: &Key) -> (line: String)
    requires
        old(store).wf(),
    ensures
        final(store).wf(),
        final(store).place() == old(store).place(),
        final(store)@ == old(store)@.insert(
            crate::net::keys::label(peer@),
            crate::net::keys::hex_of(key@),
        ),
        line@ == sender_paired(peer@),
{
    store.set(peer, key);
    let mut line = String::new();
    append(&mut line, "Sparowano z „");
    append(&mut line, peer);
    append(&mut line, "”. Następnym razem pójdzie bez kodu.");
    assert(line@ =~= sender_paired(peer@));
    line
}

/// The reason for refusing another version of the protocol.
pub open spec fn wrong_version(theirs: u32) -> Seq<char> {
    "wersja protokołu "@ + crate::text::decimal(theirs as nat) + " (obsługuję 2)"@
}

/// The reason for refusing another version of the protocol.
pub fn wrong_version_text(theirs: u32) -> (r: String)
    ensures
        r@ == wrong_version(theirs),
{
    let mut out = String::new();
    append(&mut out, "wersja protokołu ");
    push_number(&mut out, theirs as u64);
    append(&mut out, " (obsługuję 2)");
    assert(out@ =~= wrong_version(theirs));
    out
}

/// The reason for refusing a sender that claims to hold a key of ours.
pub open spec fn unknown_sender(host: Seq<char>) -> Seq<char> {
    "nie znam „"@ + host + "” — sparuj się od nowa"@
}

/// A sender that has introduced itself, on the receiving side.
pub struct Visitor {
    pub host: String,
    /// The key that this side holds of it.
    pub stored: Option<Key>,
}

/// The receiving side takes an introduction: gives the visitor, and the answer
/// to send. A sender of another protocol version is refused with a reason.
pub fn on_introduction(msg: ControlMsg, me: String, store: &KeyStore) -> (r: Result<
    (Visitor, ControlMsg),
    SetupError,
>)
    requires
        store.wf(),
    ensures
        match msg {
            ControlMsg::Init(init) => if init.version == PROTOCOL_VERSION {
                &&& r matches Ok((visitor, reply))
                &&& visitor.host == init.host
                &&& visitor.stored is Some <==> crate::net::keys::found(store@, init.host@) is Some
                &&& visitor.stored is Some ==> crate::net::keys::found(store@, init.host@) == Some(
                    visitor.stored->0@,
                )
                &&& reply == (ControlMsg::Ready { host: me, known: visitor.stored is Some })
            } else {
                &&& r matches Err(SetupError::Refuse(reason))
                &&& reason@ == wrong_version(init.version)
            },
            other => r matches Err(e) && e == SetupError::Unexpected(Due::Introduction, other),
        },
{
    match msg {
        ControlMsg::Init(init) => {
            if init.version != PROTOCOL_VERSION {
                return Err(SetupError::Refuse(wrong_version_text(init.version)));
            }
            let stored = store.get(init.host.as_str());
            let known: bool = stored.is_some();
            Ok((Visitor { host: init.host, stored }, ControlMsg::Ready { host: me, known }))
        },
        other => Err(SetupError::Unexpected(Due::Introduction, other)),
    }
}

impl Visitor {
    /// The receiving side takes the sender's decision: gives the key to use, or
    /// none where the two have to pair. A sender that claims a key where there
    /// is none is told so plainly, rather than letting the handshake fail on an
    /// error of the cryptography that nobody understands.
    pub fn on_decision(&self, msg: ControlMsg) -> (r: Result<Option<Key>, SetupError>)
        ensures
            match msg {
                ControlMsg::Pairing { needed } => if needed {
                    r matches Ok(None)
                } else if self.stored is Some {
                    r matches Ok(key) && key == self.stored
                } else {
                    &&& r matches Err(SetupError::Refuse(reason))
                    &&& reason@ == unknown_sender(self.host@)
                },
                other => r matches Err(e) && e == SetupError::Unexpected(Due::PairingDecision, other),
            },
    {
        match msg {
            ControlMsg::Pairing { needed } => {
                if needed {
                    return Ok(None);
                }
                match self.stored {
                    Some(key) => Ok(Some(key)),
                    None => {
                        let mut reason = String::new();
                        append(&mut reason, "nie znam „");
                        append(&mut reason, self.host.as_str());
                        append(&mut reason, "” — sparuj się od nowa");
                        assert(reason@ =~= unknown_sender(self.host@));
                        Err(SetupError::Refuse(reason))
                    },
                }
            },
            other => Err(SetupError::Unexpected(Due::PairingDecision, other)),
        }
    }
}

/// What the receiving side says once the two have paired.
pub open spec fn receiver_paired(host: Seq<char>) -> Seq<char> {
    "  Sparowano z „"@ + host + "”."@
}

/// The receiving side keeps the key of a sender it has paired with: the misses
/// are forgotten, and it says so.
pub fn receiver_keeps(pairing: &mut Pairing, store: &mut KeyStore, host: &str, key: &Key) -> (line:
    String)
    requires
        old(pairing).wf(),
        old(store).wf(),
    ensures
        final(pairing).wf(),
        final(pairing).misses() == 0,
        final(pairing).shown() == old(pairing).shown(),
        final(pairing).drawn() == old(pairing).drawn(),
        final(store).wf(),
        final(store).place() == old(store).place(),
        final(store)@ == old(store)@.insert(
            crate::net::keys::label(host@),
            crate::net::keys::hex_of(key@),
        ),
        line@ == receiver_paired(host@),
{
    pairing.note_success();
    store.set(host, key);
    let mut line = String::new();
    append(&mut line, "  Sparowano z „");
    append(&mut line, host);
    append(&mut line, "”.");
    assert(line@ =~= receiver_paired(host@));
    line
}

/// The receiving side gives an attempt up: gives the refusal to send, and what
/// to say where the code is void. The store is not touched.
pub fn receiver_gives_up(pairing: &mut Pairing) -> (r: (ControlMsg, Option<&'static str>))
    requires
        old(pairing).wf(),
    ensures
        final(pairing).wf(),
        r.0 matches ControlMsg::Reject { reason } && reason@ == "parowanie odrzucone"@,
        r.1 is Some <==> old(pairing).misses() + 1 == MAX_ATTEMPTS,
        r.1 matches Some(line) ==> line@ == "  trzy nieudane próby — losuję nowy kod."@,
        counted_miss(*old(pairing), *final(pairing)),
{
    let fresh: bool = pairing.note_failure();
    let line = if fresh {
        Some("  trzy nieudane próby — losuję nowy kod.")
    } else {
        None
    };
    (ControlMsg::Reject { reason: "parowanie odrzucone".to_owned() }, line)
}

/// One side losing its key is enough to pair anew; and where the two do not
/// pair, both hold a key, so that a receiver never refuses a decision that was
/// made from its own answer.
pub proof fn a_session_without_pairing_has_a_key_on_both_sides(
    sender_keys: Map<Seq<char>, Seq<char>>,
    receiver_keys: Map<Seq<char>, Seq<char>>,
    sender: Seq<char>,
    receiver: Seq<char>,
)
    ensures
        ({
            let known = crate::net::keys::found(receiver_keys, sender) is Some;
            let stored = crate::net::keys::found(sender_keys, receiver);
            !must_pair(known, stored) <==> crate::net::keys::found(receiver_keys, sender) is Some
                && crate::net::keys::found(sender_keys, receiver) is Some
        }),
{
}

} // verus!
