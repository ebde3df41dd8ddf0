//! The password-authenticated key exchange behind pairing: SPAKE2 on Ed25519.
use spake2::{Ed25519Group, Identity, Password, Spake2};
use vstd::prelude::*;

verus! {

/// One side of an exchange under way, as `spake2` keeps it.
#[verifier::external_body]
struct PakeState {
    state: Spake2<Ed25519Group>,
}

/// What one side of an exchange has put in.
pub struct Put {
    pub password: Seq<u8>,
    /// The names of the two sides.
    pub id_a: Seq<u8>,
    pub id_b: Seq<u8>,
    /// This side is the first.
    pub first: bool,
    /// The message this side sends.
    pub mine: Seq<u8>,
}

/// One side of an exchange. Values come from `start_a` and `start_b` alone.
pub struct Exchange {
    state: PakeState,
    put: Ghost<Put>,
}

impl View for Exchange {
    type V = Put;

    closed spec fn view(&self) -> Put {
        self.put@
    }
}

/// How many bytes an exchange message has: a letter for the side, and a point.
pub const MESSAGE_LEN: usize = 33;

/// The letter of the first side.
pub const SIDE_A: u8 = 0x41;

/// The letter of the second side.
pub const SIDE_B: u8 = 0x42;

/// The bytes of a point on the curve, as an exchange message carries them.
pub uninterp spec fn pake_point(bytes: Seq<u8>) -> bool;

/// The secret that an exchange with this password, these names and these two
/// messages ends in.
pub uninterp spec fn pake_secret(
    password: Seq<u8>,
    id_a: Seq<u8>,
    id_b: Seq<u8>,
    message_a: Seq<u8>,
    message_b: Seq<u8>,
) -> Seq<u8>;

/// A message of the first side, or of the second: its letter, and a point.
pub open spec fn is_message(message: Seq<u8>, first: bool) -> bool {
    &&& message.len() == MESSAGE_LEN
    &&& message[0] == if first {
        SIDE_A
    } else {
        SIDE_B
    }
    &&& pake_point(message.skip(1))
}

/// Calls `Spake2::start_a`. The message is drawn at random; it is the first
/// side's letter and a point.
#[verifier::external_body]
pub(crate) fn start_a(password: &[u8], id_a: &[u8], id_b: &[u8]) -> (r: (Exchange, Vec<u8>))
    ensures
        r.1@.len() == MESSAGE_LEN,
        r.1@[0] == SIDE_A,
        pake_point(r.1@.skip(1)),
        r.0@ == (Put {
            password: password@,
            id_a: id_a@,
            id_b: id_b@,
            first: true,
            mine: r.1@,
        }),
{
    let (state, mine) = Spake2::<Ed25519Group>::start_a(
        &Password::new(password),
        &Identity::new(id_a),
        &Identity::new(id_b),
    );
    (Exchange { state: PakeState { state }, put: Ghost(arbitrary()) }, mine)
}

/// Calls `Spake2::start_b`. The message is drawn at random; it is the second
/// side's letter and a point.
#[verifier::external_body]
pub(crate) fn start_b(password: &[u8], id_a: &[u8], id_b: &[u8]) -> (r: (Exchange, Vec<u8>))
    ensures
        r.1@.len() == MESSAGE_LEN,
        r.1@[0] == SIDE_B,
        pake_point(r.1@.skip(1)),
        r.0@ == (Put {
            password: password@,
            id_a: id_a@,
            id_b: id_b@,
            first: false,
            mine: r.1@,
        }),
{
    let (state, mine) = Spake2::<Ed25519Group>::start_b(
        &Password::new(password),
        &Identity::new(id_a),
        &Identity::new(id_b),
    );
    (Exchange { state: PakeState { state }, put: Ghost(arbitrary()) }, mine)
}

/// The secret that this side comes to when it gets `theirs`: none, unless that is
/// a message of the other side.
pub open spec fn secret_with(put: Put, theirs: Seq<u8>) -> Option<Seq<u8>> {
    if !is_message(theirs, !put.first) {
        None
    } else if put.first {
        Some(pake_secret(put.password, put.id_a, put.id_b, put.mine, theirs))
    } else {
        Some(pake_secret(put.password, put.id_a, put.id_b, theirs, put.mine))
    }
}

/// Calls `Spake2::finish`. It succeeds exactly on a message of the right length,
/// with the letter of the other side, that carries a point. The exponent that
/// this side drew is settled by the message it sent, so the result depends on the
/// password, the names and the two messages alone; both sides compute the same,
/// and it is named `pake_secret`. The error is handed on in words.
#[verifier::external_body]
pub(crate) fn finish(exchange: Exchange, theirs: &[u8]) -> (r: Result<Vec<u8>, String>)
    ensures
        (r is Ok) == (theirs@.len() == MESSAGE_LEN && theirs@[0] == (if exchange@.first {
            SIDE_B
        } else {
            SIDE_A
        }) && pake_point(theirs@.skip(1))),
        r matches Ok(s) ==> s@.len() == 32 && s@ == if exchange@.first {
            pake_secret(
                exchange@.password,
                exchange@.id_a,
                exchange@.id_b,
                exchange@.mine,
                theirs@,
            )
        } else {
            pake_secret(
                exchange@.password,
                exchange@.id_a,
                exchange@.id_b,
                theirs@,
                exchange@.mine,
            )
        },
{
    exchange.state.state.finish(theirs).map_err(|e| format!("{e:?}"))
}

/// Both sides of an exchange under the same password and names, each with the
/// message that the other sent, come to a secret, and it is the same.
pub proof fn both_sides_come_to_the_same_secret(a: Put, b: Put)
    requires
        a.first && !b.first,
        is_message(a.mine, true),
        is_message(b.mine, false),
        a.password == b.password,
        a.id_a == b.id_a,
        a.id_b == b.id_b,
    ensures
        secret_with(a, b.mine) is Some,
        secret_with(a, b.mine) == secret_with(b, a.mine),
{
}

} // verus!
