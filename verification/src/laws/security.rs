//! Keys, codes and sealed messages.
use vstd::prelude::*;

use crate::names::Entry;
use crate::net::channel::{ChannelError, Handshake, SecureChannel};
use crate::net::keys::{default_path, KeyStore, StorePlace};
use crate::net::name::hostname;
use crate::net::pair::{
    code_of, confirm, expect_confirm, format_code, fresh_code, normalize_code, respond, same_bytes,
    AwaitConfirm, Initiator, PairError, CODE_DIGITS,
};
use crate::net::secure::{CipherError, Key, MediaCipher};
use crate::proto::ControlMsg;
use crate::session::pair::{receiver_gives_up, Pairing};

verus! {

/// The name under which a peer's key is kept: without white space around it, in
/// lower case.
pub open spec fn kept_under(peer: Seq<char>) -> Seq<char> {
    crate::text::lowercase(crate::text::trimmed(peer))
}

/// A key that was set is got under every spelling of the name that differs in case
/// and white space around it alone, and the keys of all others are what they were.
/// It is kept as 64 hexadecimal digits, two for each byte, the greater first.
pub proof fn a_key_that_was_set_is_got(
    peer: &str,
    key: &Key,
    asked: &str,
    before: KeyStore,
    after: KeyStore,
    was: Option<Key>,
    r: Option<Key>,
)
    requires
        call_ensures(KeyStore::get, (&before, asked), was),
        call_ensures(KeyStore::get, (&after, asked), r),
    ensures
        forall|s: &mut KeyStore|
            {
                &&& #[trigger] call_ensures(KeyStore::set, (s, peer, key), ())
                &&& before@ == (*s)@ && after@ == final(s)@
            } ==> {
                let text = final(s)@[kept_under(peer@)];
                &&& kept_under(asked@) == kept_under(peer@) ==> (r matches Some(k) && k@ == key@)
                &&& kept_under(asked@) != kept_under(peer@) ==> (r is Some <==> was is Some) && (
                r is Some ==> r->0@ == was->0@)
                &&& final(s)@.contains_key(kept_under(peer@)) && text.len() == 64
                &&& forall|i: int|
                    0 <= i < 64 ==> {
                        ||| '0' <= #[trigger] final(s)@[kept_under(peer@)][i] <= '9'
                        ||| 'a' <= final(s)@[kept_under(peer@)][i] <= 'f'
                    }
                &&& final(s).place() == (*s).place()
            },
{
    crate::net::keys::a_kept_key_is_found_again(before@, peer@, key@, asked@);
}

/// The value of a hexadecimal digit, in either case.
pub open spec fn hex_digit_value(c: char) -> int {
    if '0' <= c <= '9' {
        c as u32 - '0' as u32
    } else if 'a' <= c <= 'f' {
        c as u32 - 'a' as u32 + 10
    } else if 'A' <= c <= 'F' {
        c as u32 - 'A' as u32 + 10
    } else {
        -1
    }
}

/// A key is got exactly where 64 hexadecimal digits are kept under the name: two of them
/// make each byte, the greater first. Anything else that is kept is no key.
pub proof fn a_key_is_read_from_its_digits(store: KeyStore, asked: &str, r: Option<Key>)
    requires
        call_ensures(KeyStore::get, (&store, asked), r),
    ensures
        ({
            let there = store@.contains_key(kept_under(asked@));
            let text = store@[kept_under(asked@)];
            &&& r is Some <==> there && text.len() == 64 && forall|i: int|
                0 <= i < 64 ==> hex_digit_value(#[trigger] text[i]) >= 0
            &&& r matches Some(k) ==> forall|i: int|
                0 <= i < 32 ==> #[trigger] k@[i] == 16 * hex_digit_value(text[2 * i])
                    + hex_digit_value(text[2 * i + 1])
        }),
{
    let text = store@[kept_under(asked@)];
    assert forall|i: int| 0 <= i < text.len() implies (hex_digit_value(#[trigger] text[i]) >= 0
        <==> crate::net::keys::hex_value(text[i]) is Some) && (crate::net::keys::hex_value(
        text[i],
    ) is Some ==> hex_digit_value(text[i]) == crate::net::keys::hex_value(text[i])->0) by {}
    if store@.contains_key(kept_under(asked@)) {
        if text.len() == 64 && forall|i: int|
            0 <= i < 64 ==> hex_digit_value(#[trigger] text[i]) >= 0 {
            assert forall|i: int| 0 <= i < text.len() implies crate::net::keys::hex_value(
                #[trigger] text[i],
            ) is Some by {
                assert(hex_digit_value(text[i]) >= 0);
            }
        }
        if crate::net::keys::unhex(text) is Some {
            assert forall|i: int| 0 <= i < text.len() implies hex_digit_value(#[trigger] text[i])
                >= 0 by {
                assert(crate::net::keys::hex_value(text[i]) is Some);
            }
        }
        if let Some(k) = r {
            assert forall|i: int| 0 <= i < 32 implies #[trigger] k@[i] == 16 * hex_digit_value(
                text[2 * i],
            ) + hex_digit_value(text[2 * i + 1]) by {
                let (a, b) = (text[2 * i], text[2 * i + 1]);
                assert(crate::net::keys::hex_value(a) is Some);
                assert(crate::net::keys::hex_value(b) is Some);
                assert(hex_digit_value(a) == crate::net::keys::hex_value(a)->0);
                assert(hex_digit_value(b) == crate::net::keys::hex_value(b)->0);
            }
        }
    }
}

/// A key that was forgotten is not got any more, under any spelling; the keys of all
/// others are what they were. What is said is whether anything was kept.
pub proof fn a_key_that_was_forgotten_is_gone(
    peer: &str,
    asked: &str,
    before: KeyStore,
    after: KeyStore,
    was: Option<Key>,
    r: Option<Key>,
    removed: bool,
)
    requires
        call_ensures(KeyStore::get, (&before, asked), was),
        call_ensures(KeyStore::get, (&after, asked), r),
    ensures
        forall|s: &mut KeyStore|
            {
                &&& #[trigger] call_ensures(KeyStore::forget, (s, peer), removed)
                &&& before@ == (*s)@ && after@ == final(s)@
            } ==> {
                &&& kept_under(asked@) == kept_under(peer@) ==> r is None
                &&& kept_under(asked@) != kept_under(peer@) ==> (r is Some <==> was is Some) && (
                r is Some ==> r->0@ == was->0@)
                &&& kept_under(asked@) == kept_under(peer@) && was is Some ==> removed
                &&& removed <==> (*s)@.contains_key(kept_under(peer@))
                &&& final(s).place() == (*s).place()
            },
{
    crate::net::keys::a_forgotten_key_is_gone(before@, peer@, asked@);
}

/// A store that is written out and opened again holds what it held, and stands where
/// it is told to. A new one holds nothing.
pub proof fn a_store_is_opened_as_it_was_left(
    old_store: KeyStore,
    entries: &Vec<Entry<String>>,
    read: Vec<Entry<String>>,
    path: String,
    r: KeyStore,
    fresh: KeyStore,
)
    requires
        call_ensures(KeyStore::entries, (&old_store,), entries),
        read@.len() == entries@.len(),
        forall|i: int|
            0 <= i < read@.len() ==> (#[trigger] read@[i]).name@ == entries@[i].name@
                && read@[i].value == entries@[i].value,
        call_ensures(KeyStore::open, (path, read), r),
        call_ensures(KeyStore::new, (path,), fresh),
    ensures
        r@ == old_store@,
        r.place() == path@ && fresh.place() == path@,
        forall|name: Seq<char>| !#[trigger] fresh@.contains_key(name),
        forall|p: &str| #[trigger] call_ensures(KeyStore::path, (&r,), p) ==> p@ == path@,
{
    assert(crate::names::pairs(read@) =~= crate::names::pairs(entries@));
    crate::net::keys::a_store_survives_a_reopen(old_store.listed());
}

/// The names that are listed are those under which a key is kept, each once and in
/// order.
pub proof fn every_kept_name_is_listed(store: KeyStore, r: Vec<&str>)
    requires
        call_ensures(KeyStore::peers, (&store,), r),
    ensures
        forall|i: int| 0 <= i < r@.len() ==> store@.contains_key((#[trigger] r@[i])@),
        forall|name: Seq<char>| #[trigger]
            store@.contains_key(name) ==> exists|i: int|
                0 <= i < r@.len() && (#[trigger] r@[i])@ == name,
        forall|i: int, j: int|
            0 <= i < j < r@.len() ==> crate::text::precedes(
                (#[trigger] r@[i])@,
                (#[trigger] r@[j])@,
            ),
{
    let listed = store.listed();
    assert forall|i: int| 0 <= i < r@.len() implies store@.contains_key((#[trigger] r@[i])@) by {
        crate::names::lemma_held(listed, i);
        assert(crate::names::held(listed).contains_key(listed[i].0));
    }
    assert forall|name: Seq<char>| #[trigger] store@.contains_key(name) implies exists|i: int|
        0 <= i < r@.len() && (#[trigger] r@[i])@ == name by {
        assert(crate::names::held(listed).contains_key(name));
        let i = choose|i: int| crate::names::stands_at(listed, name, i);
        assert(r@[i]@ == name);
    }
}

/// The store stands where the user says, else in the configuration directory.
pub proof fn the_store_stands_where_it_is_told(
    custom: Option<String>,
    config: Option<String>,
    r: StorePlace,
)
    requires
        call_ensures(default_path, (custom, config), r),
    ensures
        custom matches Some(path) ==> r == StorePlace::At(path),
        custom is None ==> (config matches Some(dir) ==> r == StorePlace::UnderConfig(dir)),
        custom is None && config is None ==> r is Unknown,
{
}

/// A name that says something.
pub open spec fn tells(name: Option<String>) -> bool {
    name is Some && exists|i: int|
        0 <= i < name->0@.len() && !crate::text::is_white(#[trigger] name->0@[i])
}

/// This machine goes by the name that the program is told, else by the system's,
/// where these say anything; else by what the environment has; and it always has a
/// name.
pub proof fn a_machine_goes_by_the_first_name_that_tells(
    program: Option<String>,
    system: Option<String>,
    computer: Option<String>,
    host: Option<String>,
    r: String,
)
    requires
        call_ensures(hostname, (program, system, computer, host), r),
    ensures
        tells(program) ==> r@ == program->0@,
        !tells(program) && tells(system) ==> r@ == system->0@,
        !tells(program) && !tells(system) && computer is Some ==> r@ == computer->0@,
        !tells(program) && !tells(system) && computer is None && host is Some ==> r@ == host->0@,
        !tells(program) && !tells(system) && computer is None && host is None ==> r@.len() > 0,
{
    lemma_tells(program);
    lemma_tells(system);
    reveal_strlit("nieznany");
}

proof fn lemma_tells(name: Option<String>)
    ensures
        name is Some ==> (tells(name) <==> crate::net::name::says_something(name->0@)),
{
    if name is Some {
        let s = name->0@;
        crate::laws::text::lemma_trimmed(s);
        let from = crate::text::white_prefix(s) as int;
        let to = s.len() - crate::text::white_suffix(s.skip(from));
        if from < to {
            assert(!crate::text::is_white(s[from]));
        }
    }
}

/// A code is made of the digits that were drawn, in their order.
pub proof fn a_code_shows_the_digits_drawn(digits: &[u8; CODE_DIGITS], r: String)
    requires
        call_ensures(code_of, (digits,), r),
        forall|i: int| 0 <= i < 6 ==> #[trigger] digits@[i] < 10,
    ensures
        r@.len() == 6,
        forall|i: int| 0 <= i < 6 ==> #[trigger] r@[i] as u32 == '0' as u32 + digits@[i],
{
}

/// A code is shown in groups of three: a space goes after the first three digits, and
/// the rest is shown in the same way. Up to three digits stay together.
pub proof fn a_code_is_shown_in_groups_of_three(code: &str, rest: &str, r: String, others: String)
    requires
        call_ensures(format_code, (code,), r),
        call_ensures(format_code, (rest,), others),
        crate::text::all_ascii(code@),
    ensures
        code@.len() <= 3 ==> r@ == code@,
        code@.len() > 3 && rest@ == code@.skip(3) ==> r@ == code@.take(3) + seq![' '] + others@,
{
    if code@.len() > 3 && rest@ == code@.skip(3) {
        assert forall|i: int| 0 <= i < rest@.len() implies '\0' <= #[trigger] rest@[i]
            <= '\u{7f}' by {
            assert(rest@[i] == code@[i + 3]);
        }
        assert(crate::text::all_ascii(rest@));
    }
}

/// Of a typed code the digits stay, in their order, and nothing else.
pub proof fn only_digits_of_a_typed_code_stay(
    input: &str,
    longer: &str,
    c: char,
    r: String,
    more: String,
)
    requires
        call_ensures(normalize_code, (input,), r),
        call_ensures(normalize_code, (longer,), more),
        longer@ == input@.push(c),
    ensures
        input@.len() == 0 ==> r@.len() == 0,
        '0' <= c <= '9' ==> more@ == r@.push(c),
        !('0' <= c <= '9') ==> more@ == r@,
{
    reveal(Seq::filter);
    assert(longer@.drop_last() =~= input@);
}

/// A key is a digest of the secret under its own label; a confirmation is a digest of
/// the key and the side's name under another.
pub proof fn keys_and_confirmations_have_labels_of_their_own(
    shared: &[u8],
    key: Key,
    who: &[u8],
    mac: Vec<u8>,
)
    ensures
        call_ensures(crate::net::pair::derive, (shared,), key) ==> key@ == crate::net::pair::sha256(
            crate::text::bytes_of("micbridge/psk/v1"@) + shared@,
        ),
        call_ensures(confirm, (&key, who), mac) ==> mac@ == crate::net::pair::sha256(
            crate::text::bytes_of("micbridge/potwierdzenie/v1"@) + who@ + key@,
        ),
{
}

/// Two runs of bytes are the same where they have the same length and the same byte at
/// every place.
pub proof fn the_same_bytes_are_the_same(got: &[u8], want: &[u8], r: bool)
    requires
        call_ensures(same_bytes, (got, want), r),
    ensures
        r <==> got@.len() == want@.len() && forall|i: int|
            0 <= i < got@.len() ==> #[trigger] got@[i] == want@[i],
{
    if got@.len() == want@.len() && forall|i: int|
        0 <= i < got@.len() ==> #[trigger] got@[i] == want@[i] {
        assert(got@ =~= want@);
    }
}

/// Two sides that hold the same code come through the whole exchange, message by
/// message, and end with the same key.
pub proof fn two_sides_with_one_code_pair(
    code: &str,
    copied: &str,
    initiator: Initiator,
    first: ControlMsg,
    answered: Result<(ControlMsg, Result<AwaitConfirm, PairError>), PairError>,
)
    requires
        call_ensures(Initiator::start, (copied,), (initiator, first)),
        copied@ == code@,
        call_ensures(respond, (code, first), answered),
    ensures
        answered matches Ok((second, Ok(receiver))) && forall|r3: Result<
            (AwaitConfirm, ControlMsg),
            PairError,
        >|
            #[trigger]
            call_ensures(Initiator::on_handshake, (initiator, second), r3) ==> {
                &&& r3 matches Ok((sender, third))
                &&& forall|r4: Result<(Key, ControlMsg), PairError>|
                    #[trigger]
                    call_ensures(AwaitConfirm::on_sender_confirm, (receiver, third), r4) ==> {
                        &&& r4 matches Ok((theirs, fourth))
                        &&& forall|r5: Result<Key, PairError>|
                            #[trigger]
                            call_ensures(
                                AwaitConfirm::on_receiver_confirm,
                                (sender, fourth),
                                r5,
                            ) ==> (r5 matches Ok(ours) && ours@ == theirs@)
                    }
            },
{
    if let ControlMsg::Handshake { msg } = first {
        if let Ok((ControlMsg::Handshake { msg: mine }, _)) = answered {
            crate::net::pair::the_same_code_gives_both_sides_the_same_key(code@, msg@, mine@);
        }
    }
}

/// A side gives a key only to one who proves that they came to the same: a
/// confirmation other than that of the other side under this key ends the attempt,
/// and so does anything that is no confirmation.
pub proof fn a_wrong_confirmation_gives_no_key(
    side: AwaitConfirm,
    mac: Vec<u8>,
    r: Result<Key, PairError>,
    s: Result<(Key, ControlMsg), PairError>,
)
    requires
        call_ensures(
            AwaitConfirm::on_receiver_confirm,
            (side, ControlMsg::Confirm { mac }),
            r,
        ),
        call_ensures(AwaitConfirm::on_sender_confirm, (side, ControlMsg::Confirm { mac }), s),
    ensures
        ({
            let label = crate::text::bytes_of("micbridge/potwierdzenie/v1"@);
            let by_receiver = crate::net::pair::sha256(
                label + crate::text::bytes_of("micbridge-odbiornik"@) + side@,
            );
            let by_sender = crate::net::pair::sha256(
                label + crate::text::bytes_of("micbridge-nadajnik"@) + side@,
            );
            &&& r is Ok <==> mac@ == by_receiver
            &&& s is Ok <==> mac@ == by_sender
            &&& r is Ok ==> r->Ok_0@ == side@
            &&& s matches Ok((key, reply)) ==> key@ == side@ && (reply matches ControlMsg::Confirm {
                mac: mine,
            } && mine@ == by_receiver)
            &&& r matches Err(e) ==> e is CodeMismatch
            &&& s matches Err(e) ==> e is CodeMismatch
        }),
{
}

/// A code is shown until it was got wrong three times since the last success; the
/// third miss says so and replaces it by one that is drawn then. A success starts the
/// count anew and keeps the code.
pub proof fn a_code_lasts_for_three_misses(fresh: bool, drawn: String, shown: String)
    ensures
        forall|p: &mut Pairing|
            (#[trigger] call_ensures(Pairing::note_failure, (p,), fresh)) && (*p).misses() < 3 ==> {
                &&& fresh <==> (*p).misses() == 2
                &&& fresh ==> {
                    &&& final(p).misses() == 0
                    &&& final(p).drawn().len() == (*p).drawn().len() + 1
                    &&& final(p).drawn().last() == final(p).shown()
                    &&& final(p).shown().len() == 6
                }
                &&& !fresh ==> {
                    &&& final(p).misses() == (*p).misses() + 1
                    &&& final(p).shown() == (*p).shown()
                    &&& final(p).drawn() == (*p).drawn()
                }
            },
        forall|p: &mut Pairing| #[trigger]
            call_ensures(Pairing::note_success, (p,), ()) ==> {
                &&& final(p).misses() == 0
                &&& final(p).shown() == (*p).shown()
            },
        forall|p: &mut Pairing| #[trigger]
            call_ensures(Pairing::replace, (p, drawn), ()) ==> {
                &&& final(p).misses() == 0
                &&& final(p).shown() == drawn@
            },
        forall|p: Pairing| #[trigger]
            call_ensures(Pairing::new, (), p) ==> p.misses() == 0 && p.shown().len() == 6
                && p.drawn().len() == 1 && p.drawn()[0] == p.shown(),
        forall|p: Pairing| #[trigger]
            call_ensures(Pairing::code, (&p,), shown) ==> shown@ == p.shown(),
        forall|p: &mut Pairing, r: (ControlMsg, Option<&'static str>)|
            (#[trigger] call_ensures(receiver_gives_up, (p,), r)) && (*p).misses() < 3 ==> {
                &&& r.0 is Reject
                &&& r.1 is Some <==> (*p).misses() == 2
                &&& (*p).misses() == 2 ==> final(p).misses() == 0 && final(p).drawn().len() == (
                *p).drawn().len() + 1 && final(p).drawn().last() == final(p).shown()
                &&& (*p).misses() < 2 ==> final(p).misses() == (*p).misses() + 1
                    && final(p).shown() == (*p).shown()
            },
{
}

/// What is sealed opens to the same payload under the same key, number and header, and
/// is sixteen bytes longer.
pub proof fn what_is_sealed_opens(
    cipher: MediaCipher,
    other: MediaCipher,
    seq: u64,
    header: &[u8],
    payload: &[u8],
    sealed: Vec<u8>,
    packet: &[u8],
    r: Result<Vec<u8>, CipherError>,
)
    requires
        call_ensures(MediaCipher::seal, (&cipher, seq, header, payload), Ok(sealed)),
        other@ == cipher@,
        packet@ == sealed@,
        call_ensures(MediaCipher::open, (&other, seq, header, packet), r),
    ensures
        r matches Ok(p) && p@ == payload@,
        sealed@.len() == payload@.len() + 16,
{
}

/// Every payload that can be sent is sealed, with the cipher's key and a nonce of
/// twelve bytes: four of nothing and the number, the greatest weight first. What
/// opens is what such a sealing gives.
pub proof fn a_packet_is_sealed_under_its_number(
    cipher: MediaCipher,
    seq: u64,
    header: &[u8],
    payload: &[u8],
    r: Result<Vec<u8>, CipherError>,
    packet: &[u8],
    opened: Result<Vec<u8>, CipherError>,
)
    requires
        call_ensures(MediaCipher::seal, (&cipher, seq, header, payload), r),
        call_ensures(MediaCipher::open, (&cipher, seq, header, packet), opened),
    ensures
        payload@.len() <= 0x1_0000_0000 ==> r is Ok,
        exists|n: Seq<u8>|
            {
                &&& n.len() == 12
                &&& n[0] == 0 && n[1] == 0 && n[2] == 0 && n[3] == 0
                &&& (((((((n[4] * 256 + n[5]) * 256 + n[6]) * 256 + n[7]) * 256 + n[8]) * 256 + n[9])
                    * 256 + n[10]) * 256 + n[11]) == seq
                &&& r matches Ok(s) ==> s@ == #[trigger] crate::net::secure::media_sealed(
                    cipher@,
                    n,
                    header@,
                    payload@,
                )
                &&& opened matches Ok(p) ==> packet@ == crate::net::secure::media_sealed(
                    cipher@,
                    n,
                    header@,
                    p@,
                )
            },
{
    let n = crate::net::secure::nonce_of(seq);
    let (high, low) = ((seq / 0x1_0000_0000) as u32, (seq % 0x1_0000_0000) as u32);
    crate::proto::bytes::be32_reads_back(high);
    crate::proto::bytes::be32_reads_back(low);
    let (a, b) = (crate::proto::bytes::be32(high), crate::proto::bytes::be32(low));
    assert(n[4] == a[0] && n[5] == a[1] && n[6] == a[2] && n[7] == a[3]);
    assert(n[8] == b[0] && n[9] == b[1] && n[10] == b[2] && n[11] == b[3]);
    assert(((n[4] * 256 + n[5]) * 256 + n[6]) * 256 + n[7] == high);
    assert((((high * 256 + n[8]) * 256 + n[9]) * 256 + n[10]) * 256 + n[11] == high
        * 0x1_0000_0000 + low);
    let m = crate::net::secure::media_sealed(cipher@, n, header@, payload@);
}

/// A cipher has the key that it was given, which has 32 bytes; one of any other length
/// is refused with its length.
pub proof fn a_cipher_takes_a_key_of_32_bytes(key: &[u8], r: Result<MediaCipher, CipherError>)
    requires
        call_ensures(MediaCipher::new, (key,), r),
    ensures
        r is Ok <==> key@.len() == 32,
        r matches Ok(c) ==> c@ == key@,
        r matches Err(e) ==> e == CipherError::KeyLength(key@.len() as usize),
{
}

/// Two sides that hold the same secret come to a channel: the receiver does not refuse
/// what the sender opens with, the sender takes what the receiver answers, and the two
/// ends have the same keys, opposite roles, and have carried nothing.
pub proof fn two_sides_with_one_secret_come_to_a_channel(
    psk: &Key,
    same: &Key,
    handshake: Handshake,
    first: Vec<u8>,
    got: &[u8],
    answered: Result<(SecureChannel, Vec<u8>), ChannelError>,
    answer: &[u8],
)
    requires
        call_ensures(SecureChannel::initiator, (psk,), Ok((handshake, first))),
        same@ == psk@,
        got@ == first@,
        call_ensures(SecureChannel::responder, (same, got), answered),
        answered matches Ok((_, second)) ==> answer@ == second@,
    ensures
        answered matches Err(e) ==> e is Handshake,
        answered matches Ok((receiver, second)) ==> forall|r: Result<SecureChannel, ChannelError>|
            #[trigger]
            call_ensures(Handshake::finish, (handshake, answer), r) ==> {
                &&& r matches Ok(sender)
                &&& sender@.keys == receiver@.keys
                &&& sender@.initiator && !receiver@.initiator
                &&& sender@.sealed == 0 && sender@.opened == 0
                &&& receiver@.sealed == 0 && receiver@.opened == 0
            },
{
}

/// What one end of a channel seals next, the other end opens next, to the same
/// message; both count it. A message that is too long is refused, and counts for
/// nothing.
pub proof fn a_message_goes_through_the_channel(
    plain: &[u8],
    frame: Vec<u8>,
    got: &[u8],
    r: Result<Vec<u8>, ChannelError>,
    tried: Result<Vec<u8>, ChannelError>,
)
    requires
        got@ == frame@,
    ensures
        forall|a: &mut SecureChannel, b: &mut SecureChannel|
            {
                &&& #[trigger] call_ensures(SecureChannel::seal, (a, plain), Ok(frame))
                &&& #[trigger] call_ensures(SecureChannel::open, (b, got), r)
                &&& (*a)@.keys == (*b)@.keys
                &&& (*a)@.initiator != (*b)@.initiator
                &&& (*a)@.sealed == (*b)@.opened
                &&& (*b)@.opened < u64::MAX
            } ==> {
                &&& (r matches Ok(p) && p@ == plain@)
                &&& final(a)@.sealed == (*a)@.sealed + 1
                &&& final(b)@.opened == (*b)@.opened + 1
                &&& final(a)@.keys == (*a)@.keys && final(b)@.keys == (*b)@.keys
                &&& final(a)@.opened == (*a)@.opened && final(b)@.sealed == (*b)@.sealed
                &&& final(a)@.initiator == (*a)@.initiator
                &&& final(b)@.initiator == (*b)@.initiator
            },
        forall|a: &mut SecureChannel| #[trigger]
            call_ensures(SecureChannel::seal, (a, plain), tried) ==> {
                &&& plain@.len() > 65519 ==> (tried matches Err(ChannelError::TooLong(n)) && n
                    == plain@.len() as usize)
                &&& plain@.len() <= 65519 && (*a)@.sealed < u64::MAX ==> tried is Ok
                &&& tried is Err ==> final(a)@ == (*a)@
                &&& tried matches Ok(f) ==> f@.len() == plain@.len() + 16
            },
{
    assert forall|a: &mut SecureChannel, b: &mut SecureChannel|
        {
            &&& #[trigger] call_ensures(SecureChannel::seal, (a, plain), Ok(frame))
            &&& #[trigger] call_ensures(SecureChannel::open, (b, got), r)
            &&& (*a)@.keys == (*b)@.keys
            &&& (*a)@.initiator != (*b)@.initiator
            &&& (*a)@.sealed == (*b)@.opened
            &&& (*b)@.opened < u64::MAX
        } implies (r matches Ok(p) && p@ == plain@) by {
        assert(crate::net::channel::is_next_frame((*b)@, got@, plain@));
    }
}

/// A step of the exchange and a confirmation are taken out of their own messages and no
/// others; a refusal is handed on.
pub proof fn steps_are_taken_out_of_their_messages(
    msg: ControlMsg,
    step: Result<Vec<u8>, PairError>,
    mac: Result<Vec<u8>, PairError>,
    shake: Result<Vec<u8>, crate::session::pair::SetupError>,
)
    requires
        call_ensures(crate::net::pair::expect_handshake, (msg,), step),
        call_ensures(expect_confirm, (msg,), mac),
        call_ensures(crate::session::pair::expect_handshake, (msg,), shake),
    ensures
        step is Ok <==> msg is Handshake,
        shake is Ok <==> msg is Handshake,
        mac is Ok <==> msg is Confirm,
        msg matches ControlMsg::Handshake { msg: bytes } ==> step->Ok_0 == bytes && shake->Ok_0
            == bytes,
        msg matches ControlMsg::Confirm { mac: bytes } ==> mac->Ok_0 == bytes,
        msg matches ControlMsg::Reject { reason } ==> {
            &&& step->Err_0 == PairError::Aborted(reason)
            &&& mac->Err_0 == PairError::Aborted(reason)
            &&& shake->Err_0 == crate::session::pair::SetupError::BrokenOff(reason)
        },
{
}

/// A code that is drawn has six digits.
pub proof fn a_drawn_code_has_six_digits(r: String)
    requires
        call_ensures(fresh_code, (), r),
    ensures
        r@.len() == 6,
        forall|i: int| 0 <= i < 6 ==> '0' <= #[trigger] r@[i] <= '9',
{
}

} // verus!
