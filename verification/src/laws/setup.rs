//! Setting a session up, from both sides.
use vstd::prelude::*;

use crate::net::channel::ChannelError;
use crate::net::keys::KeyStore;
use crate::net::pair::PairError;
use crate::net::secure::Key;
use crate::proto::{ControlMsg, Init};
use crate::session::pair::{Pairing, SetupError};
use crate::session::setup::{
    CodeDue, GivenUp, KeyReady, Keeping, ReceiverSetup, ReceiverStage, ReceiverStep, SenderSetup,
    SenderStage, SenderStep, SetupFailure,
};

verus! {

/// The sender introduces itself by its name and our version, and hears whether it is
/// known. It goes on with its key where it is known and has one for that receiver;
/// else it says that the two have to pair, and asks for the code. Nothing is kept yet.
pub proof fn a_sender_pairs_where_a_key_is_missing(
    s: SenderSetup,
    host: String,
    known: bool,
    asked: &str,
    before: KeyStore,
    kept: Option<Key>,
    r: SenderStep,
)
    requires
        s.stage is Ready,
        asked@ == host@,
        call_ensures(KeyStore::get, (&before, asked), kept),
    ensures
        forall|store: &mut KeyStore|
            {
                &&& #[trigger] call_ensures(
                    SenderSetup::on_message,
                    (s, ControlMsg::Ready { host, known }, store),
                    r,
                )
                &&& before@ == (*store)@
            } ==> {
                &&& final(store)@ == (*store)@
                &&& known && kept is Some ==> {
                    &&& r matches SenderStep::KeyKnown { say, next }
                    &&& say == (ControlMsg::Pairing { needed: false })
                    &&& next.key@ == kept->0@
                }
                &&& !known || kept is None ==> {
                    &&& r matches SenderStep::AskCode { say, next }
                    &&& say == (ControlMsg::Pairing { needed: true })
                    &&& next.peer == host
                }
            },
        forall|name: String, begun: (SenderSetup, ControlMsg)| #[trigger]
            call_ensures(SenderSetup::start, (name,), begun) ==> begun.0.stage is Ready && begun.1
                == ControlMsg::Init(Init { version: 2, host: name }),
{
}

/// The receiver answers an introduction with its own name and with whether it has a
/// key for the sender. Then it shows its code where the two have to pair; goes on with
/// the key where they do not and it has one; and refuses where it has none.
#[verifier::rlimit(50)]
pub proof fn a_receiver_knows_whom_it_has_a_key_for(
    r0: ReceiverSetup,
    init: Init,
    me: String,
    store: &KeyStore,
    asked: &str,
    kept: Option<Key>,
    first: ReceiverStep,
)
    requires
        r0.stage is Introduction,
        asked@ == init.host@,
        call_ensures(KeyStore::get, (store, asked), kept),
    ensures
        forall|p: &mut Pairing|
            (#[trigger] call_ensures(
                ReceiverSetup::on_message,
                (r0, ControlMsg::Init(init), me, store, p),
                first,
            )) ==> {
                &&& *final(p) == *p
                &&& init.version != 2 ==> (first matches ReceiverStep::Failed { say, why, given_up }
                    && say is Some && say->0 is Reject && given_up is None)
                &&& init.version == 2 ==> {
                    &&& first matches ReceiverStep::Send { say, next }
                    &&& say == (ControlMsg::Ready { host: me, known: kept is Some })
                    &&& forall|needed: bool, q: &mut Pairing, second: ReceiverStep|
                        (#[trigger] call_ensures(
                            ReceiverSetup::on_message,
                            (next, ControlMsg::Pairing { needed }, me, store, q),
                            second,
                        )) ==> {
                            &&& *final(q) == *q
                            &&& needed ==> {
                                &&& second matches ReceiverStep::ShowCode { peer, code, next: after }
                                &&& peer@ == init.host@
                                &&& code@ == (*q).shown()
                                &&& after.stage matches ReceiverStage::Step { host, code: held }
                                &&& host@ == init.host@ && held@ == (*q).shown()
                            }
                            &&& !needed && kept is Some ==> {
                                &&& second matches ReceiverStep::Recognised { next: after }
                                &&& after.stage matches ReceiverStage::Channel { host, key }
                                &&& host@ == init.host@ && key@ == kept->0@
                            }
                            &&& !needed && kept is None ==> (second matches ReceiverStep::Failed {
                                say: told,
                                why,
                                given_up,
                            } && told is Some && told->0 is Reject && given_up is None)
                        }
                }
            },
        forall|begun: ReceiverSetup| #[trigger]
            call_ensures(ReceiverSetup::start, (), begun) ==> begun.stage is Introduction,
{
}

/// The sender has copied the code that the receiver shows: the two come through all
/// steps of pairing, keep the same key under each other's names, and go on to open the
/// channel with it.
#[verifier::rlimit(50)]
pub proof fn a_copied_code_pairs_the_two(
    due: CodeDue,
    code: &str,
    s1: SenderSetup,
    say1: ControlMsg,
    r1: ReceiverSetup,
    me: String,
    theirs: &KeyStore,
)
    requires
        call_ensures(CodeDue::on_code, (due, code), (s1, say1)),
        r1.stage matches ReceiverStage::Step { host, code: shown } && shown@ == code@,
    ensures
        forall|p: &mut Pairing, a: ReceiverStep|
            (#[trigger] call_ensures(ReceiverSetup::on_message, (r1, say1, me, theirs, p), a))
                ==> {
                &&& a matches ReceiverStep::Send { say: say2, next: r2 }
                &&& *final(p) == *p
                &&& forall|ks: &mut KeyStore, b: SenderStep|
                    (#[trigger] call_ensures(SenderSetup::on_message, (s1, say2, ks), b)) ==> {
                        &&& b matches SenderStep::Send { say: say3, next: s2 }
                        &&& final(ks)@ == (*ks)@
                        &&& forall|q: &mut Pairing, c: ReceiverStep|
                            (#[trigger] call_ensures(
                                ReceiverSetup::on_message,
                                (r2, say3, me, theirs, q),
                                c,
                            )) ==> {
                                &&& c matches ReceiverStep::Confirmed { say: say4, next: keeping }
                                &&& *final(q) == *q
                                &&& keeping.host == r1.stage->Step_host
                                &&& forall|kt: &mut KeyStore, d: SenderStep|
                                    (#[trigger] call_ensures(
                                        SenderSetup::on_message,
                                        (s2, say4, kt),
                                        d,
                                    )) ==> {
                                        &&& d matches SenderStep::Paired { next: ready, .. }
                                        &&& ready.key@ == keeping.key@
                                        &&& final(kt)@ == (*kt)@.insert(
                                            crate::laws::security::kept_under(due.peer@),
                                            crate::net::keys::hex_of(keeping.key@),
                                        )
                                    }
                            }
                    }
            },
{
    assert forall|p: &mut Pairing, a: ReceiverStep|
        (#[trigger] call_ensures(ReceiverSetup::on_message, (r1, say1, me, theirs, p), a)) implies {
        &&& a matches ReceiverStep::Send { say: say2, next: r2 }
        &&& *final(p) == *p
        &&& forall|ks: &mut KeyStore, b: SenderStep|
            (#[trigger] call_ensures(SenderSetup::on_message, (s1, say2, ks), b)) ==> {
                &&& b matches SenderStep::Send { say: say3, next: s2 }
                &&& final(ks)@ == (*ks)@
                &&& forall|q: &mut Pairing, c: ReceiverStep|
                    (#[trigger] call_ensures(
                        ReceiverSetup::on_message,
                        (r2, say3, me, theirs, q),
                        c,
                    )) ==> {
                        &&& c matches ReceiverStep::Confirmed { say: say4, next: keeping }
                        &&& *final(q) == *q
                        &&& keeping.host == r1.stage->Step_host
                        &&& forall|kt: &mut KeyStore, d: SenderStep|
                            (#[trigger] call_ensures(SenderSetup::on_message, (s2, say4, kt), d))
                                ==> {
                                &&& d matches SenderStep::Paired { next: ready, .. }
                                &&& ready.key@ == keeping.key@
                                &&& final(kt)@ == (*kt)@.insert(
                                    crate::laws::security::kept_under(due.peer@),
                                    crate::net::keys::hex_of(keeping.key@),
                                )
                            }
                    }
            }
    } by {
        if let ControlMsg::Handshake { msg } = say1 {
            if let ReceiverStep::Send { say: ControlMsg::Handshake { msg: mine }, .. } = a {
                crate::net::pair::the_same_code_gives_both_sides_the_same_key(
                    code@,
                    msg@,
                    mine@,
                );
            }
            if let ReceiverStep::Failed { say: Some(ControlMsg::Handshake { msg: mine }), .. } = a {
                crate::net::pair::the_same_code_gives_both_sides_the_same_key(
                    code@,
                    msg@,
                    mine@,
                );
            }
        }
    }
}

/// Once the receiver's confirmation went out, its key is kept under the sender's name,
/// the misses are forgotten, and it waits for the channel with that key. Where the
/// connection broke before, nothing is kept and a miss is counted.
pub proof fn a_receiver_keeps_a_confirmed_key(
    keeping: Keeping,
    r: (String, ReceiverSetup),
    broken: Option<GivenUp>,
)
    ensures
        forall|store: &mut KeyStore, p: &mut Pairing| #[trigger]
            call_ensures(Keeping::on_sent, (keeping, store, p), r) ==> {
                &&& final(store)@ == (*store)@.insert(
                    crate::laws::security::kept_under(keeping.host@),
                    crate::net::keys::hex_of(keeping.key@),
                )
                &&& final(p).misses() == 0
                &&& final(p).shown() == (*p).shown()
                &&& r.1.stage == (ReceiverStage::Channel { host: keeping.host, key: keeping.key })
            },
        forall|p: &mut Pairing|
            (#[trigger] call_ensures(Keeping::on_break, (keeping, p), broken)) && (*p).misses() < 3
                ==> is_a_miss(*p, *final(p), broken),
{
}

/// A failed attempt to pair: the other side is told, the miss counts, and the third
/// replaces the code by one drawn then.
pub open spec fn is_a_miss(before: Pairing, after: Pairing, g: Option<GivenUp>) -> bool {
    &&& g is Some
    &&& g->0.reject is Reject
    &&& g->0.line is Some <==> before.misses() == 2
    &&& before.misses() < 2 ==> after.misses() == before.misses() + 1 && after.shown()
        == before.shown()
    &&& before.misses() == 2 ==> after.misses() == 0 && after.drawn()
        == before.drawn().push(after.shown())
}

/// In the middle of pairing, everything but a message that leads on is a failed
/// attempt: a refusal, a message that was not due, a break of the connection. Elsewhere
/// none of them is.
pub proof fn whatever_breaks_pairing_is_a_miss(
    r: ReceiverSetup,
    msg: ControlMsg,
    me: String,
    store: &KeyStore,
    step: ReceiverStep,
    broken: Option<GivenUp>,
)
    ensures
        forall|p: &mut Pairing|
            (#[trigger] call_ensures(ReceiverSetup::on_message, (r, msg, me, store, p), step))
                && (*p).misses() < 3 ==> {
                &&& r.stage is Step && !(msg is Handshake) || r.stage is Confirm && !(
                msg is Confirm) ==> step is Failed
                &&& (r.stage is Step || r.stage is Confirm) && step is Failed ==> is_a_miss(
                    *p,
                    *final(p),
                    step->Failed_given_up,
                )
                &&& !(r.stage is Step || r.stage is Confirm) || !(step is Failed) ==> *final(p)
                    == *p
                &&& !(r.stage is Step || r.stage is Confirm) && step is Failed
                    ==> step->Failed_given_up is None
            },
        forall|p: &mut Pairing|
            (#[trigger] call_ensures(ReceiverSetup::on_break, (r, p), broken)) && (*p).misses() < 3
                ==> {
                &&& r.stage is Step || r.stage is Confirm ==> is_a_miss(*p, *final(p), broken)
                &&& !(r.stage is Step || r.stage is Confirm) ==> broken is None && *final(p) == *p
            },
{
}

/// A refusal ends the sender's attempt at every stage, with the reason in it, and
/// nothing is kept. A sender keeps something only where the receiver has confirmed the
/// key.
pub proof fn a_refusal_ends_the_attempt(
    s: SenderSetup,
    msg: ControlMsg,
    reason: String,
    r: SenderStep,
)
    ensures
        forall|store: &mut KeyStore| #[trigger]
            call_ensures(SenderSetup::on_message, (s, msg, store), r) ==> {
                &&& msg == (ControlMsg::Reject { reason }) ==> {
                    &&& r is Failed
                    &&& final(store)@ == (*store)@
                    &&& s.stage is Ready ==> r->Failed_0 == SetupFailure::Setup(
                        SetupError::Refused(reason),
                    )
                    &&& s.stage is Step || s.stage is Confirm ==> r->Failed_0
                        == SetupFailure::Pairing(PairError::Aborted(reason))
                    &&& s.stage is Channel ==> r->Failed_0 == SetupFailure::Setup(
                        SetupError::BrokenOff(reason),
                    )
                }
                &&& !(r is Paired) ==> final(store)@ == (*store)@
                &&& r is Paired ==> s.stage is Confirm && msg is Confirm
                &&& r is Established ==> s.stage is Channel && msg is Handshake
                &&& final(store).place() == (*store).place()
            },
{
}

/// Two sides with the same key come to a channel: the receiver answers the sender's
/// opening, unless it cannot draw a key pair, and the sender's channel then stands with
/// the same keys.
pub proof fn the_same_key_opens_the_channel(
    ready: KeyReady,
    s: SenderSetup,
    say: ControlMsg,
    r: ReceiverSetup,
    me: String,
    store: &KeyStore,
)
    requires
        call_ensures(KeyReady::open, (ready,), Ok((s, say))),
        r.stage matches ReceiverStage::Channel { host, key } && key@ == ready.key@,
    ensures
        forall|p: &mut Pairing, a: ReceiverStep|
            (#[trigger] call_ensures(ReceiverSetup::on_message, (r, say, me, store, p), a)) ==> {
                &&& a is Established || (a matches ReceiverStep::Failed { why, .. }
                    && why matches SetupFailure::Channel(ChannelError::Handshake(_)))
                &&& a matches ReceiverStep::Established { say: answer, channel, peer } ==> {
                    &&& peer == r.stage->Channel_host
                    &&& forall|ks: &mut KeyStore, b: SenderStep|
                        (#[trigger] call_ensures(SenderSetup::on_message, (s, answer, ks), b)) ==> {
                            &&& b matches SenderStep::Established(c)
                            &&& c@.keys == channel@.keys
                            &&& c@.initiator && !channel@.initiator
                            &&& c@.sealed == 0 && c@.opened == 0
                            &&& channel@.sealed == 0 && channel@.opened == 0
                        }
                }
            },
{
}

} // verus!
