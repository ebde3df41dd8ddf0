//! Pairing: a short code from the screen turned into a shared secret.
//!
//! Six digits are too few to be used as a key directly, but SPAKE2 does not let
//! them be broken offline. An eavesdropper who records the whole exchange
//! learns nothing from it that would let them guess the code at home; they have
//! to guess right the first time, live, and after three misses the receiver
//! draws a new code.
//!
//! After the exchange both sides swap a confirmation. Without it a wrong code
//! would only show at the first media packet, as "something does not work".
use rand::Rng;
use sha2::{Digest, Sha256};
use vstd::prelude::*;

use crate::net::exchange::{finish, start_a, start_b, Exchange};
use crate::i18n::{t, t1, Lang};
use crate::net::secure::Key;
use crate::proto::ControlMsg;
use crate::text::{append, digit_char};

verus! {

/// How many digits a code has. Six is a compromise: it can be copied off a
/// screen without a mistake, and with three live attempts the chance of a hit
/// is three in a million.
pub const CODE_DIGITS: usize = 6;

/// How often one may get it wrong before a code stops being valid.
pub const MAX_ATTEMPTS: u32 = 3;

/// The name of the sending side in the exchange.
pub const ID_SENDER: &'static str = "micbridge-nadajnik";

/// The name of the receiving side in the exchange.
pub const ID_RECEIVER: &'static str = "micbridge-odbiornik";

/// Sets the stored key apart from everything else ever computed from the same
/// secret.
pub const KEY_LABEL: &'static str = "micbridge/psk/v1";

/// Sets the confirmations apart from everything else computed from the key.
pub const CONFIRM_LABEL: &'static str = "micbridge/potwierdzenie/v1";

/// What SHA-256 makes of some bytes.
pub uninterp spec fn sha256(data: Seq<u8>) -> Seq<u8>;

/// Calls `Sha256::digest`. The result depends on the bytes alone and is named
/// `sha256`.
#[verifier::external_body]
fn digest(data: &[u8]) -> (r: [u8; 32])
    ensures
        r@ == sha256(data@),
{
    Sha256::digest(data).into()
}

/// What `String::from_utf8_lossy` makes of some bytes.
pub uninterp spec fn lossy(bytes: Seq<u8>) -> Seq<char>;

/// Calls `String::from_utf8_lossy`. The result depends on the bytes alone and is
/// named `lossy`; ASCII bytes give the characters of the same numbers.
#[verifier::external_body]
fn lossy_text(bytes: &[u8]) -> (r: String)
    ensures
        r@ == lossy(bytes@),
        (forall|i: int| 0 <= i < bytes@.len() ==> bytes@[i] < 128) ==> r@ == bytes@.map_values(
            |b: u8| b as char,
        ),
{
    String::from_utf8_lossy(bytes).to_string()
}

/// Calls `gen_range` of the thread's random generator on the digits. Nothing is
/// claimed of which digit it draws.
#[verifier::external_body]
fn random_digit() -> (r: u8)
    ensures
        r < 10,
{
    rand::thread_rng().gen_range(0..10u8)
}

/// A decimal digit.
pub open spec fn is_digit(c: char) -> bool {
    '0' <= c <= '9'
}

/// A code as it is drawn: six digits.
pub open spec fn is_code(code: Seq<char>) -> bool {
    code.len() == CODE_DIGITS && forall|i: int|
        0 <= i < code.len() ==> is_digit(#[trigger] code[i])
}

/// The code that drawn digits make, in the order in which they were drawn.
pub fn code_of(digits: &[u8; CODE_DIGITS]) -> (r: String)
    requires
        forall|i: int| 0 <= i < CODE_DIGITS ==> #[trigger] digits@[i] < 10,
    ensures
        is_code(r@),
        r@ == Seq::new(CODE_DIGITS as nat, |i: int| crate::text::digit(digits@[i] as nat)),
{
    let mut code = String::new();
    let mut i: usize = 0;
    while i < CODE_DIGITS
        invariant
            i <= CODE_DIGITS,
            forall|j: int| 0 <= j < CODE_DIGITS ==> #[trigger] digits@[j] < 10,
            code@.len() == i,
            forall|j: int|
                0 <= j < i ==> #[trigger] code@[j] == crate::text::digit(digits@[j] as nat)
                    && is_digit(code@[j]),
        decreases CODE_DIGITS - i,
    {
        code.push(digit_char(digits[i]));
        i += 1;
    }
    code
}

/// Draws a code to copy off the screen.
pub fn fresh_code() -> (r: String)
    ensures
        is_code(r@),
{
    let mut digits: [u8; CODE_DIGITS] = [0u8; CODE_DIGITS];
    let mut i: usize = 0;
    while i < CODE_DIGITS
        invariant
            i <= CODE_DIGITS,
            forall|j: int| 0 <= j < CODE_DIGITS ==> #[trigger] digits@[j] < 10,
        decreases CODE_DIGITS - i,
    {
        digits[i] = random_digit();
        i += 1;
    }
    code_of(&digits)
}

/// Where codes are drawn from. It keeps what was drawn in mind, so that one can
/// say of a code that it is the one drawn last.
pub struct CodeSource {
    drawn: Ghost<Seq<Seq<char>>>,
}

impl View for CodeSource {
    /// The codes drawn so far.
    type V = Seq<Seq<char>>;

    closed spec fn view(&self) -> Seq<Seq<char>> {
        self.drawn@
    }
}

impl CodeSource {
    pub fn new() -> (r: Self)
        ensures
            r@ == Seq::<Seq<char>>::empty(),
    {
        CodeSource { drawn: Ghost(Seq::empty()) }
    }

    /// Draws a code.
    pub fn draw(&mut self) -> (r: String)
        ensures
            is_code(r@),
            final(self)@ == old(self)@.push(r@),
    {
        let code = fresh_code();
        self.drawn = Ghost(self.drawn@.push(code@));
        code
    }
}

/// Bytes in groups of three, with a space between two groups.
pub open spec fn in_groups(bytes: Seq<u8>) -> Seq<char>
    decreases bytes.len(),
{
    if bytes.len() == 0 {
        Seq::empty()
    } else if bytes.len() <= 3 {
        lossy(bytes)
    } else {
        lossy(bytes.take(3)) + seq![' '] + in_groups(bytes.skip(3))
    }
}

/// Characters in groups of three, with a space between two groups.
pub open spec fn chars_in_groups(code: Seq<char>) -> Seq<char>
    decreases code.len(),
{
    if code.len() <= 3 {
        code
    } else {
        code.take(3) + seq![' '] + chars_in_groups(code.skip(3))
    }
}

/// Breaks a code into groups of three digits: that way nothing gets lost when it
/// is copied.
pub fn format_code(code: &str) -> (r: String)
    ensures
        r@ == in_groups(crate::text::bytes_of(code@)),
        crate::text::all_ascii(code@) ==> r@ == chars_in_groups(code@),
{
    let ghost ascii = crate::text::all_ascii(code@);
    proof {
        if ascii {
            vstd::utf8::is_ascii_chars_encode_utf8(code@);
        }
    }
    let bytes = code.as_bytes();
    let mut out = String::new();
    let mut at: usize = 0;
    let n: usize = bytes.len();
    if n == 0 {
        assert(ascii ==> code@ =~= Seq::empty());
        return out;
    }
    assert(bytes@.skip(0) =~= bytes@);
    assert(code@.skip(0) =~= code@);
    while n - at > 3
        invariant
            ascii ==> bytes@ =~= Seq::new(code@.len(), |i: int| code@[i] as u8),
            ascii ==> crate::text::all_ascii(code@),
            ascii ==> chars_in_groups(code@) == out@ + chars_in_groups(code@.skip(at as int)),
            at < n == bytes@.len(),
            bytes@ == crate::text::bytes_of(code@),
            in_groups(bytes@) == out@ + in_groups(bytes@.skip(at as int)),
        decreases n - at,
    {
        let ghost before = out@;
        let group = slice_of(bytes, at, at + 3);
        let text = lossy_text(group.as_slice());
        append(&mut out, text.as_str());
        out.push(' ');
        proof {
            let rest = bytes@.skip(at as int);
            assert(rest.take(3) =~= group@);
            assert(rest.skip(3) =~= bytes@.skip(at + 3));
            if ascii {
                let tail = code@.skip(at as int);
                assert forall|i: int| 0 <= i < 3 implies group@[i] < 128 && group@[i] as char
                    == tail[i] by {
                    assert('\0' <= code@[at + i] <= '\u{7f}');
                }
                assert(tail.take(3) =~= text@);
                assert(tail.skip(3) =~= code@.skip(at + 3));
                assert(out@ =~= before + tail.take(3) + seq![' ']);
                assert(chars_in_groups(code@) =~= out@ + chars_in_groups(code@.skip(at + 3)));
            }
        }
        at += 3;
        assert(in_groups(bytes@) =~= out@ + in_groups(bytes@.skip(at as int)));
    }
    let group = slice_of(bytes, at, n);
    assert(group@ =~= bytes@.skip(at as int));
    let text = lossy_text(group.as_slice());
    append(&mut out, text.as_str());
    proof {
        if ascii {
            let tail = code@.skip(at as int);
            assert forall|i: int| 0 <= i < tail.len() implies group@[i] < 128 && group@[i] as char
                == tail[i] by {
                assert('\0' <= code@[at + i] <= '\u{7f}');
            }
            assert(text@ =~= tail);
        }
    }
    out
}

/// A copy of the bytes from one position up to another.
fn slice_of(bytes: &[u8], from: usize, to: usize) -> (r: Vec<u8>)
    requires
        from <= to <= bytes@.len(),
    ensures
        r@ == bytes@.subrange(from as int, to as int),
{
    let mut out: Vec<u8> = Vec::new();
    let mut i: usize = from;
    while i < to
        invariant
            from <= i <= to <= bytes@.len(),
            out@ == bytes@.subrange(from as int, i as int),
        decreases to - i,
    {
        out.push(bytes[i]);
        assert(out@ =~= bytes@.subrange(from as int, i + 1));
        i += 1;
    }
    out
}

/// Throws everything out of a typed code that is not a digit.
pub fn normalize_code(input: &str) -> (r: String)
    ensures
        r@ == input@.filter(|c: char| is_digit(c)),
{
    let mut out = String::new();
    for c in it: input.chars()
        invariant
            it.seq() == input@,
            out@ == input@.take(it.index()).filter(|c: char| is_digit(c)),
    {
        proof {
            let i = it.index() as int;
            reveal(Seq::filter);
            assert(input@.take(i + 1).drop_last() =~= input@.take(i));
            assert(input@.take(i + 1).last() == c);
        }
        if '0' <= c && c <= '9' {
            out.push(c);
        }
    }
    assert(input@.take(input@.len() as int) =~= input@);
    out
}

/// The key that an exchange's secret gives.
pub open spec fn key_from(secret: Seq<u8>) -> Seq<u8> {
    sha256(crate::text::bytes_of(KEY_LABEL@) + secret)
}

/// What the side of this name sends to prove that it came to the key.
pub open spec fn confirmation(key: Seq<u8>, who: Seq<u8>) -> Seq<u8> {
    sha256(crate::text::bytes_of(CONFIRM_LABEL@) + who + key)
}

/// The sender's confirmation of a key.
pub open spec fn sender_confirms(key: Seq<u8>) -> Seq<u8> {
    confirmation(key, crate::text::bytes_of(ID_SENDER@))
}

/// The receiver's confirmation of a key.
pub open spec fn receiver_confirms(key: Seq<u8>) -> Seq<u8> {
    confirmation(key, crate::text::bytes_of(ID_RECEIVER@))
}

/// Cuts the result of the exchange to a key of fixed length, set apart by a
/// label from everything else ever computed from the same secret.
pub fn derive(shared: &[u8]) -> (key: Key)
    ensures
        key@ == key_from(shared@),
{
    let mut data: Vec<u8> = Vec::new();
    data.extend_from_slice(KEY_LABEL.as_bytes());
    data.extend_from_slice(shared);
    assert(data@ =~= crate::text::bytes_of(KEY_LABEL@) + shared@);
    digest(data.as_slice())
}

/// What the side of this name sends to prove that it came to the key.
pub fn confirm(key: &Key, who: &[u8]) -> (mac: Vec<u8>)
    ensures
        mac@ == confirmation(key@, who@),
{
    let mut data: Vec<u8> = Vec::new();
    data.extend_from_slice(CONFIRM_LABEL.as_bytes());
    data.extend_from_slice(who);
    data.extend_from_slice(key.as_slice());
    assert(data@ =~= crate::text::bytes_of(CONFIRM_LABEL@) + who@ + key@);
    let out: [u8; 32] = digest(data.as_slice());
    let mut mac: Vec<u8> = Vec::new();
    mac.extend_from_slice(out.as_slice());
    assert(mac@ =~= out@);
    mac
}

/// Compares in a time that does not depend on where the difference is: it must
/// not leak through how fast we answer.
pub fn same_bytes(got: &[u8], want: &[u8]) -> (r: bool)
    ensures
        r == (got@ == want@),
{
    if got.len() != want.len() {
        return false;
    }
    let mut acc: u8 = 0;
    let mut i: usize = 0;
    while i < got.len()
        invariant
            i <= got@.len() == want@.len(),
            acc == 0 <==> (forall|j: int| 0 <= j < i ==> got@[j] == want@[j]),
        decreases got@.len() - i,
    {
        let a: u8 = got[i];
        let b: u8 = want[i];
        assert((acc | (a ^ b)) == 0 <==> acc == 0 && a == b) by (bit_vector);
        acc = acc | (a ^ b);
        i += 1;
    }
    proof {
        if acc == 0 {
            assert(got@ =~= want@);
        }
    }
    acc == 0
}

/// Why pairing failed.
#[derive(Debug)]
pub enum PairError {
    /// The exchange itself failed; the text is that of the cryptography.
    Exchange(String),
    /// The other side came to another key: the codes differ.
    CodeMismatch,
    /// The other side gave up and said why.
    Aborted(String),
    /// Something else came where a step of the exchange was due.
    NoStep(ControlMsg),
    /// Something else came where a confirmation was due.
    NoConfirmation(ControlMsg),
}

impl PairError {
    /// The error in words, up to the message that came instead of the one that
    /// was due.
    pub open spec fn text(self, lang: Lang) -> Seq<char> {
        match self {
            PairError::Exchange(e) => "wymiana kluczy się nie powiodła: "@ + e@,
            PairError::CodeMismatch => crate::i18n::catalog::text_of(
                crate::i18n::Key::ErrCodeMismatch,
                lang,
            ),
            PairError::Aborted(reason) => crate::i18n::filled(
                crate::i18n::catalog::text_of(crate::i18n::Key::ErrPeerAbortedPairing, lang),
                seq![reason@],
            ),
            PairError::NoStep(_) => "oczekiwałem kroku parowania, dostałem "@,
            PairError::NoConfirmation(_) => "oczekiwałem potwierdzenia, dostałem "@,
        }
    }

    /// The error in words.
    pub fn message(&self, lang: Lang) -> (r: String)
        ensures
            r@ == self.text(lang),
    {
        let mut out = String::new();
        match self {
            PairError::Exchange(e) => {
                append(&mut out, "wymiana kluczy się nie powiodła: ");
                append(&mut out, e.as_str());
            },
            PairError::CodeMismatch => append(
                &mut out,
                t(crate::i18n::Key::ErrCodeMismatch, lang),
            ),
            PairError::Aborted(reason) => {
                return t1(crate::i18n::Key::ErrPeerAbortedPairing, lang, reason.as_str());
            },
            PairError::NoStep(_) => append(&mut out, "oczekiwałem kroku parowania, dostałem "),
            PairError::NoConfirmation(_) => append(
                &mut out,
                "oczekiwałem potwierdzenia, dostałem ",
            ),
        }
        assert(out@ =~= self.text(lang));
        out
    }
}

/// The bytes of the exchange step that a message carries.
pub fn expect_handshake(msg: ControlMsg) -> (r: Result<Vec<u8>, PairError>)
    ensures
        r == match msg {
            ControlMsg::Handshake { msg } => Ok(msg),
            ControlMsg::Reject { reason } => Err(PairError::Aborted(reason)),
            other => Err(PairError::NoStep(other)),
        },
{
    match msg {
        ControlMsg::Handshake { msg } => Ok(msg),
        ControlMsg::Reject { reason } => Err(PairError::Aborted(reason)),
        other => Err(PairError::NoStep(other)),
    }
}

/// The confirmation that a message carries.
pub fn expect_confirm(msg: ControlMsg) -> (r: Result<Vec<u8>, PairError>)
    ensures
        r == match msg {
            ControlMsg::Confirm { mac } => Ok(mac),
            ControlMsg::Reject { reason } => Err(PairError::Aborted(reason)),
            other => Err(PairError::NoConfirmation(other)),
        },
{
    match msg {
        ControlMsg::Confirm { mac } => Ok(mac),
        ControlMsg::Reject { reason } => Err(PairError::Aborted(reason)),
        other => Err(PairError::NoConfirmation(other)),
    }
}

/// What a side of pairing has put into the exchange: the code, the two names,
/// and the message it sent.
pub open spec fn put_in(code: Seq<char>, first: bool, mine: Seq<u8>) -> crate::net::exchange::Put {
    crate::net::exchange::Put {
        password: crate::text::bytes_of(code),
        id_a: crate::text::bytes_of(ID_SENDER@),
        id_b: crate::text::bytes_of(ID_RECEIVER@),
        first,
        mine,
    }
}

/// The key that a side comes to with its code, the message it sent and the one
/// it got.
pub open spec fn agreed_key(code: Seq<char>, first: bool, mine: Seq<u8>, theirs: Seq<u8>) -> Option<
    Seq<u8>,
> {
    match crate::net::exchange::secret_with(put_in(code, first, mine), theirs) {
        Some(secret) => Some(key_from(secret)),
        None => None,
    }
}

/// A side of pairing that has come to a key and waits for the other's
/// confirmation.
pub struct AwaitConfirm {
    key: Key,
}

impl View for AwaitConfirm {
    /// The key.
    type V = Seq<u8>;

    closed spec fn view(&self) -> Seq<u8> {
        self.key@
    }
}

/// The sending side: copies the code off the other machine's screen and starts
/// the exchange.
pub struct Initiator {
    exchange: Exchange,
}

impl View for Initiator {
    type V = crate::net::exchange::Put;

    closed spec fn view(&self) -> crate::net::exchange::Put {
        self.exchange@
    }
}

impl Initiator {
    /// Starts the exchange: gives the message to send.
    pub fn start(code: &str) -> (r: (Initiator, ControlMsg))
        ensures
            ({
                &&& r.1 matches ControlMsg::Handshake { msg }
                &&& r.0@ == put_in(code@, true, msg@)
                &&& crate::net::exchange::is_message(msg@, true)
            }),
    {
        let (exchange, mine) = start_a(
            code.as_bytes(),
            ID_SENDER.as_bytes(),
            ID_RECEIVER.as_bytes(),
        );
        (Initiator { exchange }, ControlMsg::Handshake { msg: mine })
    }

    /// Takes the answer: gives the confirmation to send.
    ///
    /// The sender confirms first: the receiver may close the connection and
    /// count a failed attempt before it says anything about itself.
    pub fn on_handshake(self, msg: ControlMsg) -> (r: Result<(AwaitConfirm, ControlMsg), PairError>)
        ensures
            match msg {
                ControlMsg::Handshake { msg: theirs } => match crate::net::exchange::secret_with(
                    self@,
                    theirs@,
                ) {
                    Some(secret) => {
                        &&& r matches Ok((next, reply))
                        &&& next@ == key_from(secret)
                        &&& reply matches ControlMsg::Confirm { mac }
                        &&& mac@ == sender_confirms(next@)
                    },
                    None => r matches Err(PairError::Exchange(_)),
                },
                ControlMsg::Reject { reason } => r == Err::<(AwaitConfirm, ControlMsg), PairError>(
                    PairError::Aborted(reason),
                ),
                other => r == Err::<(AwaitConfirm, ControlMsg), PairError>(PairError::NoStep(other)),
            },
    {
        let theirs = match expect_handshake(msg) {
            Ok(theirs) => theirs,
            Err(e) => return Err(e),
        };
        let shared = match finish(self.exchange, theirs.as_slice()) {
            Ok(shared) => shared,
            Err(e) => return Err(PairError::Exchange(e)),
        };
        let key: Key = derive(shared.as_slice());
        let mac = confirm(&key, ID_SENDER.as_bytes());
        Ok((AwaitConfirm { key }, ControlMsg::Confirm { mac }))
    }
}

impl AwaitConfirm {
    /// The sending side takes the receiver's confirmation: the key stands, or
    /// the codes differ.
    pub fn on_receiver_confirm(self, msg: ControlMsg) -> (r: Result<Key, PairError>)
        ensures
            match msg {
                ControlMsg::Confirm { mac } => if mac@ == receiver_confirms(self@) {
                    r matches Ok(key) && key@ == self@
                } else {
                    r matches Err(PairError::CodeMismatch)
                },
                ControlMsg::Reject { reason } => r == Err::<Key, PairError>(
                    PairError::Aborted(reason),
                ),
                other => r == Err::<Key, PairError>(PairError::NoConfirmation(other)),
            },
    {
        let theirs = match expect_confirm(msg) {
            Ok(theirs) => theirs,
            Err(e) => return Err(e),
        };
        let want = confirm(&self.key, ID_RECEIVER.as_bytes());
        if same_bytes(theirs.as_slice(), want.as_slice()) {
            Ok(self.key)
        } else {
            Err(PairError::CodeMismatch)
        }
    }

    /// The receiving side takes the sender's confirmation: the key stands and
    /// its own confirmation goes out, or the codes differ and nothing does.
    pub fn on_sender_confirm(self, msg: ControlMsg) -> (r: Result<(Key, ControlMsg), PairError>)
        ensures
            match msg {
                ControlMsg::Confirm { mac } => if mac@ == sender_confirms(self@) {
                    &&& r matches Ok((key, reply))
                    &&& key@ == self@
                    &&& reply matches ControlMsg::Confirm { mac }
                    &&& mac@ == receiver_confirms(self@)
                } else {
                    r matches Err(PairError::CodeMismatch)
                },
                ControlMsg::Reject { reason } => r == Err::<(Key, ControlMsg), PairError>(
                    PairError::Aborted(reason),
                ),
                other => r == Err::<(Key, ControlMsg), PairError>(PairError::NoConfirmation(other)),
            },
    {
        let theirs = match expect_confirm(msg) {
            Ok(theirs) => theirs,
            Err(e) => return Err(e),
        };
        let want = confirm(&self.key, ID_SENDER.as_bytes());
        if same_bytes(theirs.as_slice(), want.as_slice()) {
            let mac = confirm(&self.key, ID_RECEIVER.as_bytes());
            Ok((self.key, ControlMsg::Confirm { mac }))
        } else {
            Err(PairError::CodeMismatch)
        }
    }
}

/// The receiving side: shows the code and waits. Takes the sender's step and
/// gives the message to send, and with it what the exchange came to: the answer
/// goes out whether or not the sender's step was well formed.
pub fn respond(code: &str, msg: ControlMsg) -> (r: Result<
    (ControlMsg, Result<AwaitConfirm, PairError>),
    PairError,
>)
    ensures
        match msg {
            ControlMsg::Handshake { msg: theirs } => {
                &&& r matches Ok((reply, outcome))
                &&& reply matches ControlMsg::Handshake { msg: mine }
                &&& crate::net::exchange::is_message(mine@, false)
                &&& match agreed_key(code@, false, mine@, theirs@) {
                    Some(key) => outcome matches Ok(next) && next@ == key,
                    None => outcome matches Err(PairError::Exchange(_)),
                }
            },
            ControlMsg::Reject { reason } => r matches Err(e) && e == PairError::Aborted(reason),
            other => r matches Err(e) && e == PairError::NoStep(other),
        },
{
    let theirs = match expect_handshake(msg) {
        Ok(theirs) => theirs,
        Err(e) => return Err(e),
    };
    let (exchange, mine) = start_b(code.as_bytes(), ID_SENDER.as_bytes(), ID_RECEIVER.as_bytes());
    let reply = ControlMsg::Handshake { msg: mine };
    match finish(exchange, theirs.as_slice()) {
        Ok(shared) => {
            let key: Key = derive(shared.as_slice());
            Ok((reply, Ok(AwaitConfirm { key })))
        },
        Err(e) => Ok((reply, Err(PairError::Exchange(e)))),
    }
}

/// The same code gives both sides the same key: each comes to a key with its own
/// message and the one that the other sent, and it is the same key.
pub proof fn the_same_code_gives_both_sides_the_same_key(
    code: Seq<char>,
    from_sender: Seq<u8>,
    from_receiver: Seq<u8>,
)
    requires
        crate::net::exchange::is_message(from_sender, true),
        crate::net::exchange::is_message(from_receiver, false),
    ensures
        agreed_key(code, true, from_sender, from_receiver) is Some,
        agreed_key(code, true, from_sender, from_receiver) == agreed_key(
            code,
            false,
            from_receiver,
            from_sender,
        ),
{
    crate::net::exchange::both_sides_come_to_the_same_secret(
        put_in(code, true, from_sender),
        put_in(code, false, from_receiver),
    );
}

/// A code of six digits reads like a phone number: three, a space, three.
pub proof fn a_code_reads_in_two_groups(code: Seq<char>)
    requires
        code.len() == CODE_DIGITS,
    ensures
        chars_in_groups(code) == code.take(3) + seq![' '] + code.skip(3),
{
    reveal_with_fuel(chars_in_groups, 2);
}

} // verus!
