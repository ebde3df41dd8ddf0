//! Session encryption: Noise on the control channel, an AEAD on the media.
//!
//! Pairing gives a shared secret that lives long. From it every connection
//! agrees on fresh keys by Noise `NNpsk0`, so recorded traffic cannot be
//! decrypted even by someone who gets hold of that secret later.
//!
//! Media goes over UDP, where packets get lost and reordered, so they cannot
//! carry the state of a stream cipher. Every packet is sealed on its own, and
//! the nonce is its sequence number. The RTP header stays in the clear, for the
//! jitter buffer has to read it before anything is decrypted, but it is
//! authenticated: a changed number invalidates the packet.
use chacha20poly1305::aead::{Aead, KeyInit, Payload};
use chacha20poly1305::{ChaCha20Poly1305, Nonce};
use rand::RngCore;
use vstd::prelude::*;

use crate::text::{append, push_number};

verus! {

/// The length of a shared secret. That is what Noise takes as its key.
pub const KEY_LEN: usize = 32;

pub type Key = [u8; KEY_LEN];

/// No signatures and no long-term identities: the shared secret from pairing
/// authenticates, and session keys are used once.
pub const NOISE_PARAMS: &'static str = "Noise_NNpsk0_25519_ChaChaPoly_BLAKE2s";

/// Where the shared secret comes in: before the first message.
pub const PSK_POSITION: u8 = 0;

/// Noise lets no longer message through.
pub const MAX_NOISE_MSG: usize = 65535;

/// The longest control message that can be sealed.
pub const MAX_PLAIN: usize = 65519;

/// How many bytes authentication adds to a message.
pub const MEDIA_TAG_LEN: usize = 16;

/// How many bytes each of the two handshake messages has: a public key and the
/// tag of an empty payload.
pub const HANDSHAKE_LEN: usize = 48;

/// What ChaCha20-Poly1305 makes of a message under a key, a nonce and
/// associated data.
pub uninterp spec fn media_sealed(
    key: Seq<u8>,
    nonce: Seq<u8>,
    header: Seq<u8>,
    payload: Seq<u8>,
) -> Seq<u8>;

/// What ChaCha20-Poly1305 opens a sealed message to, if it authenticates.
pub uninterp spec fn media_opened(
    key: Seq<u8>,
    nonce: Seq<u8>,
    header: Seq<u8>,
    sealed: Seq<u8>,
) -> Option<Seq<u8>>;

/// How many bytes one nonce has key stream for: one block of the stream goes to
/// the tag, and the last one stays unused.
pub const MAX_MEDIA: u64 = 274_877_906_816;

/// A message that one nonce has enough key stream for.
pub open spec fn fits_one_nonce(len: int) -> bool {
    len <= MAX_MEDIA
}

/// Calls `encrypt` of `ChaCha20Poly1305`. On messages that one nonce has enough
/// key stream for it succeeds. The result depends on the four arguments alone and
/// is named `media_sealed`; it is longer than the message by the tag, and opens to
/// the message again.
#[verifier::external_body]
fn aead_seal(key: &[u8; 32], nonce: &[u8; 12], header: &[u8], payload: &[u8]) -> (r: Option<
    Vec<u8>,
>)
    requires
        fits_one_nonce(payload@.len() as int),
    ensures
        r is Some,
        r matches Some(s) ==> {
            &&& s@ == media_sealed(key@, nonce@, header@, payload@)
            &&& s@.len() == payload@.len() + MEDIA_TAG_LEN
            &&& media_opened(key@, nonce@, header@, s@) == Some(payload@)
        },
{
    ChaCha20Poly1305::new(key.into())
        .encrypt(Nonce::from_slice(nonce), Payload { msg: payload, aad: header })
        .ok()
}

/// Calls `decrypt` of `ChaCha20Poly1305`. The result depends on the four
/// arguments alone and is named `media_opened`. A message opens only where it is
/// exactly what sealing the result gives: the tag covers header and ciphertext,
/// and the key stream that opens is the one that sealed.
#[verifier::external_body]
fn aead_open(key: &[u8; 32], nonce: &[u8; 12], header: &[u8], sealed: &[u8]) -> (r: Option<Vec<u8>>)
    requires
        fits_one_nonce(sealed@.len() - MEDIA_TAG_LEN),
    ensures
        r is Some <==> media_opened(key@, nonce@, header@, sealed@) is Some,
        r matches Some(p) ==> {
            &&& media_opened(key@, nonce@, header@, sealed@) == Some(p@)
            &&& sealed@ == media_sealed(key@, nonce@, header@, p@)
            &&& sealed@.len() == p@.len() + MEDIA_TAG_LEN
        },
{
    ChaCha20Poly1305::new(key.into())
        .decrypt(Nonce::from_slice(nonce), Payload { msg: sealed, aad: header })
        .ok()
}

/// Why sealing or opening failed.
#[derive(Debug)]
pub enum CipherError {
    /// A media key of the wrong length.
    KeyLength(usize),
    /// The payload could not be encrypted.
    Seal,
    /// The packet did not authenticate.
    Open,
}

impl CipherError {
    /// The error in words.
    pub open spec fn text(self) -> Seq<char> {
        match self {
            CipherError::KeyLength(n) => "klucz mediów ma "@ + crate::text::decimal(n as nat)
                + " bajtów zamiast 32"@,
            CipherError::Seal => "nie mogę zaszyfrować pakietu"@,
            CipherError::Open => "pakiet nie przeszedł uwierzytelnienia"@,
        }
    }

    /// The error in words.
    pub fn message(&self) -> (r: String)
        ensures
            r@ == self.text(),
    {
        let mut out = String::new();
        match self {
            CipherError::KeyLength(n) => {
                append(&mut out, "klucz mediów ma ");
                push_number(&mut out, *n as u64);
                append(&mut out, " bajtów zamiast 32");
            },
            CipherError::Seal => append(&mut out, "nie mogę zaszyfrować pakietu"),
            CipherError::Open => append(&mut out, "pakiet nie przeszedł uwierzytelnienia"),
        }
        assert(out@ =~= self.text());
        out
    }
}

/// The nonce of a packet: its number extended to 64 bits, with zeros in front.
///
/// The number does not repeat within a session (at a hundred packets a second
/// the counter lasts for billions of years), and the key is new with every
/// connection anyway.
pub open spec fn nonce_of(seq: u64) -> Seq<u8> {
    seq![0u8, 0u8, 0u8, 0u8] + crate::proto::bytes::be64(seq)
}

fn nonce(seq: u64) -> (r: [u8; 12])
    ensures
        r@ == nonce_of(seq),
{
    let mut bytes: [u8; 12] = [0u8; 12];
    let high: u32 = (seq / 0x1_0000_0000) as u32;
    let low: u32 = (seq % 0x1_0000_0000) as u32;
    bytes[4] = (high / 0x100_0000) as u8;
    bytes[5] = (high / 0x1_0000 % 256) as u8;
    bytes[6] = (high / 0x100 % 256) as u8;
    bytes[7] = (high % 256) as u8;
    bytes[8] = (low / 0x100_0000) as u8;
    bytes[9] = (low / 0x1_0000 % 256) as u8;
    bytes[10] = (low / 0x100 % 256) as u8;
    bytes[11] = (low % 256) as u8;
    assert(bytes@ =~= nonce_of(seq));
    bytes
}

/// What a sealed packet opens to under a key, a number and a header. A packet
/// that one nonce has no key stream for opens to nothing.
pub open spec fn opened_to(key: Seq<u8>, seq: u64, header: Seq<u8>, sealed: Seq<u8>) -> Option<
    Seq<u8>,
> {
    if fits_one_nonce(sealed.len() - MEDIA_TAG_LEN) {
        media_opened(key, nonce_of(seq), header, sealed)
    } else {
        None
    }
}

/// What sealing a payload under a key, a number and a header gives: the
/// cipher's result, longer by the tag, which the same key, number and header open
/// to the payload.
pub open spec fn sealed_as(
    key: Seq<u8>,
    seq: u64,
    header: Seq<u8>,
    payload: Seq<u8>,
    sealed: Seq<u8>,
) -> bool {
    &&& sealed == media_sealed(key, nonce_of(seq), header, payload)
    &&& sealed.len() == payload.len() + MEDIA_TAG_LEN
    &&& media_opened(key, nonce_of(seq), header, sealed) == Some(payload)
}

/// Sealing of single media packets.
///
/// The receiver draws the key for every session and hands it over the sealed
/// control channel, so there is no state to agree on here.
pub struct MediaCipher {
    key: Key,
}

impl View for MediaCipher {
    /// The key.
    type V = Seq<u8>;

    closed spec fn view(&self) -> Seq<u8> {
        self.key@
    }
}

impl MediaCipher {
    pub fn new(key: &[u8]) -> (r: Result<Self, CipherError>)
        ensures
            r is Ok <==> key@.len() == KEY_LEN,
            r matches Ok(c) ==> c@ == key@,
            r matches Err(e) ==> e == CipherError::KeyLength(key@.len() as usize),
    {
        if key.len() != KEY_LEN {
            return Err(CipherError::KeyLength(key.len()));
        }
        let mut copy: Key = [0u8; KEY_LEN];
        let mut i: usize = 0;
        while i < KEY_LEN
            invariant
                i <= KEY_LEN == key@.len(),
                copy@.len() == KEY_LEN,
                forall|j: int| 0 <= j < i ==> copy@[j] == key@[j],
            decreases KEY_LEN - i,
        {
            copy[i] = key[i];
            i += 1;
        }
        assert(copy@ =~= key@);
        Ok(MediaCipher { key: copy })
    }

    /// Gives the sealed payload with its tag at the end. Opening it under the
    /// same number and header gives the payload back.
    pub fn seal(&self, seq: u64, header: &[u8], payload: &[u8]) -> (r: Result<Vec<u8>, CipherError>)
        ensures
            r is Ok <==> fits_one_nonce(payload@.len() as int),
            r matches Ok(s) ==> sealed_as(self@, seq, header@, payload@, s@),
            r matches Err(e) ==> e is Seal,
    {
        if payload.len() as u64 > MAX_MEDIA {
            return Err(CipherError::Seal);
        }
        match aead_seal(&self.key, &nonce(seq), header, payload) {
            Some(s) => Ok(s),
            None => Err(CipherError::Seal),
        }
    }

    /// Gives the payload, or an error if the packet is not one of ours: what
    /// opens is exactly what sealing the result under this number and header
    /// gives.
    pub fn open(&self, seq: u64, header: &[u8], sealed: &[u8]) -> (r: Result<Vec<u8>, CipherError>)
        ensures
            r is Ok <==> opened_to(self@, seq, header@, sealed@) is Some,
            r matches Ok(p) ==> {
                &&& opened_to(self@, seq, header@, sealed@) == Some(p@)
                &&& sealed@ == media_sealed(self@, nonce_of(seq), header@, p@)
                &&& sealed@.len() == p@.len() + MEDIA_TAG_LEN
            },
            r matches Err(e) ==> e is Open,
    {
        if sealed.len() >= MEDIA_TAG_LEN && (sealed.len() - MEDIA_TAG_LEN) as u64 > MAX_MEDIA {
            return Err(CipherError::Open);
        }
        match aead_open(&self.key, &nonce(seq), header, sealed) {
            Some(p) => Ok(p),
            None => Err(CipherError::Open),
        }
    }
}

/// A media packet survives the round trip: what was sealed is longer than the
/// payload by the tag, and opens under the same key, number and header to the
/// payload.
pub proof fn a_media_packet_survives_the_round_trip(
    key: Seq<u8>,
    seq: u64,
    header: Seq<u8>,
    payload: Seq<u8>,
    sealed: Seq<u8>,
)
    requires
        fits_one_nonce(payload.len() as int),
        sealed_as(key, seq, header, payload, sealed),
    ensures
        sealed.len() == payload.len() + MEDIA_TAG_LEN,
        opened_to(key, seq, header, sealed) == Some(payload),
{
}

/// No two packets of a session share a nonce.
pub proof fn nonces_never_repeat(a: u64, b: u64)
    ensures
        nonce_of(a) == nonce_of(b) <==> a == b,
{
    if nonce_of(a) == nonce_of(b) {
        assert(nonce_of(a).skip(4) =~= crate::proto::bytes::be64(a));
        assert(nonce_of(b).skip(4) =~= crate::proto::bytes::be64(b));
        crate::proto::bytes::be64_is_injective(a, b);
    }
}

/// Calls `fill_bytes` of the thread's random generator on a key's worth of
/// bytes. Nothing is claimed of what it draws.
#[verifier::external_body]
fn random_key() -> (key: Key) {
    let mut key: Key = [0u8; KEY_LEN];
    rand::thread_rng().fill_bytes(&mut key);
    key
}

/// Draws a key for one session of media.
pub fn fresh_media_key() -> (key: Key)
    ensures
        key@.len() == KEY_LEN,
{
    random_key()
}

} // verus!
