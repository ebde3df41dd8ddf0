use micbridge::names::{Entry, NameMap};
use micbridge::net::channel::{ChannelError, SecureChannel};
use micbridge::net::discovery::{
    host_record, instance_of, rank, sanitize, to_peer, Endpoint, Found, Ip, Peer, SERVICE_TYPE,
};
use micbridge::net::keys::{default_path, KeyStore, StorePlace};
use micbridge::net::name::hostname;
use micbridge::net::pair::{
    code_of, confirm, expect_confirm, expect_handshake, format_code, fresh_code, normalize_code,
    respond, same_bytes, Initiator, PairError, CODE_DIGITS,
};
use micbridge::net::secure::{
    fresh_media_key, CipherError, Key, MediaCipher, KEY_LEN, MAX_PLAIN, MEDIA_TAG_LEN,
};
use micbridge::i18n::Lang;
use micbridge::proto::{ControlMsg, PROTOCOL_VERSION};

/// Walks both sides of the pairing through their messages.
fn pair_up(code_a: &str, code_b: &str) -> (Result<Key, PairError>, Result<Key, PairError>) {
    let (a, first) = Initiator::start(code_a);
    let (second, b) = match respond(code_b, first) {
        Ok(step) => step,
        Err(e) => return (Err(PairError::Aborted("gone".into())), Err(e)),
    };
    let b = b.unwrap();
    let (a, third) = a.on_handshake(second).unwrap();
    match b.on_sender_confirm(third) {
        Ok((key, fourth)) => (a.on_receiver_confirm(fourth), Ok(key)),
        // A receiver that refused the code closes the connection.
        Err(e) => (
            a.on_receiver_confirm(ControlMsg::Reject {
                reason: "parowanie odrzucone".into(),
            }),
            Err(e),
        ),
    }
}

#[test]
fn the_same_code_gives_both_sides_the_same_key() {
    let (a, b) = pair_up("482193", "482193");
    assert_eq!(a.unwrap(), b.unwrap());
}

#[test]
fn a_wrong_code_is_caught_by_the_confirmation() {
    let (a, b) = pair_up("482193", "111111");
    // The receiver checks first, so it is the one to report the mismatch; the
    // sender learns of it because the connection goes.
    assert!(b.is_err(), "the receiver is to refuse a wrong code");
    assert!(a.is_err(), "the sender must not take the session for a success");
    assert!(matches!(b, Err(PairError::CodeMismatch)));
    assert!(matches!(a, Err(PairError::Aborted(_))));
}

#[test]
fn two_pairings_never_share_a_key() {
    let (first, _) = pair_up("482193", "482193");
    let (second, _) = pair_up("482193", "482193");
    assert_ne!(first.unwrap(), second.unwrap());
}

#[test]
fn codes_are_six_digits_and_read_like_a_phone_number() {
    let code = fresh_code();
    assert_eq!(code.len(), CODE_DIGITS);
    assert!(code.chars().all(|c| c.is_ascii_digit()));
    assert_eq!(format_code("482193"), "482 193");
    assert_eq!(normalize_code(" 482-193 "), "482193");
}

#[test]
fn drawn_digits_make_the_code_in_order() {
    assert_eq!(code_of(&[4, 8, 2, 1, 9, 3]), "482193");
    assert_eq!(code_of(&[0, 0, 0, 0, 0, 7]), "000007");
}

#[test]
fn codes_differ_from_draw_to_draw() {
    let drawn: Vec<String> = (0..20).map(|_| fresh_code()).collect();
    assert!(drawn.iter().any(|c| *c != drawn[0]));
}

#[test]
fn the_pairing_key_is_a_digest_under_its_label() {
    // The digest of the label alone tells a derivation from a plain copy.
    let key = micbridge::net::pair::derive(b"shared");
    assert_ne!(&key[..6], b"shared");
    assert_eq!(micbridge::net::pair::derive(b"shared"), key);
    assert_ne!(micbridge::net::pair::derive(b"sharee"), key);

    let mac = confirm(&key, b"sender");
    assert_eq!(mac.len(), 32);
    assert_ne!(mac, confirm(&key, b"receiver"));
    assert_ne!(mac, key.to_vec());
    assert!(same_bytes(&mac, &mac));
    assert!(!same_bytes(&mac, &mac[..31]));
    assert!(!same_bytes(&mac, &confirm(&key, b"receiver")));
}

#[test]
fn the_wrong_message_stops_the_pairing() {
    assert!(matches!(
        expect_handshake(ControlMsg::Mute { on: true }),
        Err(PairError::NoStep(ControlMsg::Mute { on: true }))
    ));
    assert!(matches!(
        expect_confirm(ControlMsg::Mute { on: true }),
        Err(PairError::NoConfirmation(ControlMsg::Mute { on: true }))
    ));
    assert!(matches!(
        expect_confirm(ControlMsg::Reject { reason: "no".into() }),
        Err(PairError::Aborted(why)) if why == "no"
    ));
    assert_eq!(
        expect_handshake(ControlMsg::Handshake { msg: vec![1, 2] }).unwrap(),
        vec![1, 2]
    );

    // A step that is no point of the group fails, but is answered.
    let (reply, outcome) =
        respond("482193", ControlMsg::Handshake { msg: vec![0; 3] }).unwrap();
    assert!(matches!(reply, ControlMsg::Handshake { .. }));
    let err = match outcome {
        Err(e) => e,
        Ok(_) => panic!("three bytes are no step"),
    };
    assert!(matches!(err, PairError::Exchange(_)));
    assert!(err
        .message(Lang::Pl)
        .starts_with("wymiana kluczy się nie powiodła: "));
    assert!(PairError::NoStep(ControlMsg::Mute { on: true })
        .message(Lang::Pl)
        .starts_with("oczekiwałem kroku parowania"));
}

/// Walks both sides of the handshake through their messages.
fn handshake(
    psk_a: Key,
    psk_b: Key,
) -> (Result<SecureChannel, ChannelError>, Result<SecureChannel, ChannelError>) {
    let (waiting, first) = match SecureChannel::initiator(&psk_a) {
        Ok(step) => step,
        Err(e) => panic!("{}", e.message()),
    };
    match SecureChannel::responder(&psk_b, &first) {
        Ok((b, second)) => (waiting.finish(&second), Ok(b)),
        Err(e) => (Err(ChannelError::Handshake("gone".into())), Err(e)),
    }
}

#[test]
fn a_shared_secret_gives_a_working_channel() {
    let psk = [9u8; KEY_LEN];
    let (a, b) = handshake(psk, psk);
    let mut a = match a {
        Ok(c) => c,
        Err(e) => panic!("{}", e.message()),
    };
    let mut b = match b {
        Ok(c) => c,
        Err(e) => panic!("{}", e.message()),
    };

    let mut plain = Vec::new();
    ciborium::into_writer(&format!("{:?}", ControlMsg::Mute { on: true }), &mut plain).unwrap();
    let frame = a.seal(&plain).unwrap();
    assert!(
        !frame.windows(4).any(|w| w == b"Mute"),
        "the name of the variant must not be seen in the frame"
    );
    let opened = b.open(&frame).unwrap();
    let text: String = ciborium::from_reader(&opened[..]).unwrap();
    assert_eq!(text, "Mute { on: true }");

    // And the other way, with each direction counting for itself.
    for i in 0..5u8 {
        let frame = b.seal(&[i; 3]).unwrap();
        assert_eq!(a.open(&frame).unwrap(), vec![i; 3]);
    }
}

#[test]
fn a_different_secret_does_not_get_through() {
    let (a, b) = handshake([1u8; KEY_LEN], [2u8; KEY_LEN]);
    assert!(a.is_err() || b.is_err(), "the handshake is to fail");
    let err = match b {
        Err(e) => e,
        Ok(_) => panic!("the receiver sees it first"),
    };
    assert!(matches!(err, ChannelError::WrongKey(_)));
    assert!(err.message().starts_with("uzgodnienie odrzucone ("));
}

#[test]
fn a_channel_refuses_what_is_not_its_next_frame() {
    let (a, b) = handshake([3u8; KEY_LEN], [3u8; KEY_LEN]);
    let (mut a, mut b) = match (a, b) {
        (Ok(a), Ok(b)) => (a, b),
        _ => panic!("one secret"),
    };
    let first = a.seal(b"one").unwrap();
    let second = a.seal(b"two").unwrap();
    assert!(matches!(b.open(&second), Err(ChannelError::Decrypt(_))));
    assert_eq!(b.open(&first).unwrap(), b"one");
    assert!(matches!(b.open(&first), Err(ChannelError::Decrypt(_))));
    assert_eq!(b.open(&second).unwrap(), b"two");

    assert!(a.seal(&vec![0u8; MAX_PLAIN]).is_ok());
    let err = a.seal(&vec![0u8; MAX_PLAIN + 1]).unwrap_err();
    assert!(matches!(err, ChannelError::TooLong(n) if n == MAX_PLAIN + 1));
    assert_eq!(err.message(), "wiadomość sterująca ma 65520 bajtów, za dużo");
}

#[test]
fn a_media_packet_survives_the_round_trip() {
    let key = fresh_media_key();
    let cipher = MediaCipher::new(&key).unwrap();
    let header = [0x80, 0x6f, 0, 1, 0, 0, 0, 0, 0xAB, 0xCD, 0xEF, 0x01];
    let payload = b"ramka opusa";

    let sealed = cipher.seal(7, &header, payload).unwrap();
    assert_eq!(sealed.len(), payload.len() + MEDIA_TAG_LEN);
    assert_eq!(cipher.open(7, &header, &sealed).unwrap(), payload);
    assert_ne!(&sealed[..payload.len()], payload, "it is encrypted");
}

#[test]
fn a_tampered_header_invalidates_the_packet() {
    let cipher = MediaCipher::new(&fresh_media_key()).unwrap();
    let header = [0x80, 0x6f, 0, 1, 0, 0, 0, 0, 0xAB, 0xCD, 0xEF, 0x01];
    let sealed = cipher.seal(7, &header, b"ramka").unwrap();

    let mut tampered = header;
    tampered[3] = 2; // another sequence number
    assert!(cipher.open(7, &tampered, &sealed).is_err());
    // The same packet put under another number is to fail as well.
    assert!(cipher.open(8, &header, &sealed).is_err());
}

#[test]
fn a_media_key_has_its_length() {
    let err = match MediaCipher::new(&[1u8; 31]) {
        Err(e) => e,
        Ok(_) => panic!("31 bytes are no key"),
    };
    assert!(matches!(err, CipherError::KeyLength(31)));
    assert_eq!(err.message(), "klucz mediów ma 31 bajtów zamiast 32");
    assert_eq!(
        CipherError::Open.message(),
        "pakiet nie przeszedł uwierzytelnienia"
    );
    assert_ne!(fresh_media_key(), fresh_media_key());
}

#[test]
fn a_stored_key_survives_a_reopen() {
    let mut store = KeyStore::new("peers.toml".into());
    let key = [7u8; KEY_LEN];
    store.set("Salon-PC", &key);

    let mut table = toml::Table::new();
    for entry in store.entries() {
        table.insert(entry.name.clone(), toml::Value::String(entry.value.clone()));
    }
    let text = table.to_string();
    let back: toml::Table = text.parse().unwrap();
    let read = back
        .iter()
        .map(|(name, value)| Entry {
            name: name.clone(),
            value: value.as_str().unwrap().to_owned(),
        })
        .collect();

    let reopened = KeyStore::open("peers.toml".into(), read);
    assert_eq!(reopened.get("salon-pc"), Some(key), "the case does not count");
    assert_eq!(reopened.get("ktos-inny"), None);
    assert_eq!(reopened.path(), "peers.toml");
}

#[test]
fn forgetting_reports_whether_there_was_anything_to_forget() {
    let mut store = KeyStore::new("peers.toml".into());
    store.set("salon", &[1u8; KEY_LEN]);
    assert!(store.forget("SALON"));
    assert!(!store.forget("salon"));
}

#[test]
fn keys_are_kept_in_hexadecimal_under_a_plain_label() {
    let mut store = KeyStore::new("p".into());
    store.set("  Żółw ", &[0xABu8; KEY_LEN]);
    store.set("biuro", &[0x0Fu8; KEY_LEN]);
    assert_eq!(store.peers(), vec!["biuro", "żółw"]);
    assert_eq!(store.entries()[0].value, "0f".repeat(32));
    assert_eq!(store.get("ŻÓŁW"), Some([0xABu8; KEY_LEN]));

    let odd = vec![
        Entry { name: "krotki".to_string(), value: "abcd".to_string() },
        Entry { name: "zly".to_string(), value: "zz".repeat(32) },
        Entry { name: "wielki".to_string(), value: "AB".repeat(32) },
    ];
    let store = KeyStore::open("p".into(), odd);
    assert_eq!(store.get("krotki"), None);
    assert_eq!(store.get("zly"), None);
    assert_eq!(store.get("wielki"), Some([0xABu8; KEY_LEN]));
}

#[test]
fn the_store_lies_where_the_user_said() {
    let at = default_path(Some("/tmp/k.toml".into()), Some("/home/u/.config".into()));
    assert!(matches!(at, StorePlace::At(p) if p == "/tmp/k.toml"));
    let at = default_path(None, Some("/home/u/.config".into()));
    assert!(matches!(at, StorePlace::UnderConfig(p) if p == "/home/u/.config"));
    assert!(matches!(default_path(None, None), StorePlace::Unknown));
}

#[test]
fn names_stay_in_order_and_each_once() {
    let mut map: NameMap<u32> = NameMap::new();
    map.insert("b".into(), 1);
    map.insert("a".into(), 2);
    map.insert("b".into(), 3);
    assert_eq!(map.names(), vec!["a", "b"]);
    assert_eq!(map.get("b"), Some(&3));
    assert!(map.remove("a"));
    assert!(!map.remove("a"));
    assert_eq!(map.get("a"), None);
    assert_eq!(map.into_entries().len(), 1);
}

#[test]
fn instance_name_survives_the_service_suffix() {
    assert_eq!(instance_of(&format!("salon.{SERVICE_TYPE}")), "salon");
    assert_eq!(instance_of("bez-sufiksu"), "bez-sufiksu");
}

#[test]
fn hostnames_are_reduced_to_legal_labels() {
    assert_eq!(sanitize("Biuro_PC"), "Biuro-PC");
    assert_eq!(sanitize("łąka"), "--ka", "what is not ASCII goes");
    assert_eq!(sanitize("---"), "micbridge", "dashes alone are no name");
    assert_eq!(host_record("Biuro_PC"), "Biuro-PC.local.");
}

fn v6(segments: [u16; 8]) -> Ip {
    let mut bits: u128 = 0;
    for s in segments {
        bits = (bits << 16) | s as u128;
    }
    Ip::V6(bits)
}

#[test]
fn the_routable_address_wins_over_loopback() {
    let mut addrs: Vec<Ip> = vec![
        Ip::V4(127, 0, 0, 1),
        v6([0, 0, 0, 0, 0, 0, 0, 1]),
        Ip::V4(192, 168, 1, 112),
        v6([0xfe80, 0, 0, 0, 0, 0, 0, 1]),
    ];
    addrs.sort_by_key(rank);
    assert_eq!(addrs[0], Ip::V4(192, 168, 1, 112));
    // The loopback stays on the list: better than no address where both sides
    // stand on one machine.
    assert_eq!(*addrs.last().unwrap(), v6([0, 0, 0, 0, 0, 0, 0, 1]));
}

#[test]
fn a_routable_ipv6_comes_before_a_link_local_one() {
    let mut addrs: Vec<Ip> = vec![
        v6([0xfe80, 0, 0, 0, 0xbe30, 0xf6f8, 0xa4c4, 0xdbf8]),
        v6([0xfd43, 0xeabb, 0xd552, 0x72d3, 0x6d57, 0x1b88, 0x45d9, 0x603c]),
    ];
    addrs.sort_by_key(rank);
    assert_eq!(
        addrs[0],
        v6([0xfd43, 0xeabb, 0xd552, 0x72d3, 0x6d57, 0x1b88, 0x45d9, 0x603c])
    );
}

#[test]
fn a_peer_from_another_protocol_version_is_marked() {
    let peer = Peer {
        name: "obcy".into(),
        addrs: vec![Endpoint {
            ip: Ip::V4(192, 168, 1, 5),
            port: 47100,
        }],
        version: PROTOCOL_VERSION + 1,
    };
    assert!(!peer.compatible());
    assert_eq!(peer.addr().port, 47100);
}

#[test]
fn an_announcement_becomes_a_peer() {
    let addresses = vec![
        Ip::V4(127, 0, 0, 1),
        Ip::V4(10, 0, 0, 7),
        Ip::V4(10, 0, 0, 7),
    ];
    let full = format!("salon.{SERVICE_TYPE}");
    let peer = to_peer(&addresses, 47100, &Some("2".into()), None, &full).unwrap();
    assert_eq!(peer.name, "salon");
    assert_eq!(peer.version, 2);
    assert!(peer.compatible());
    assert_eq!(peer.addrs.len(), 2, "an address stands once");
    assert_eq!(peer.addr().ip, Ip::V4(10, 0, 0, 7));

    let named = to_peer(&addresses, 1, &Some("dwa".into()), Some("Biuro".into()), &full).unwrap();
    assert_eq!(named.name, "Biuro");
    assert_eq!(named.version, 0);
    assert!(to_peer(&vec![], 1, &None, None, &full).is_none());
}

#[test]
fn each_machine_is_found_once() {
    let peer = |name: &str| {
        Some(Peer {
            name: name.into(),
            addrs: vec![Endpoint {
                ip: Ip::V4(10, 0, 0, 1),
                port: 1,
            }],
            version: 2,
        })
    };
    let mut found = Found::new();
    found.on_resolved("b.x".into(), peer("b"));
    found.on_resolved("a.x".into(), peer("a"));
    found.on_resolved("b.x".into(), peer("b again"));
    found.on_resolved("c.x".into(), None);
    found.on_resolved("d.x".into(), peer("d"));
    found.on_removed("d.x");
    let names: Vec<String> = found.into_peers().into_iter().map(|p| p.name).collect();
    assert_eq!(names, vec!["a", "b again"]);
}

#[test]
fn a_name_is_looked_for_in_several_places() {
    let some = |s: &str| Some(s.to_string());
    assert_eq!(hostname(some("ja"), some("sys"), None, None), "ja");
    assert_eq!(hostname(some("  "), some("sys"), None, None), "sys");
    assert_eq!(hostname(None, some(""), some("PC"), some("h")), "PC");
    assert_eq!(hostname(None, None, None, some("h")), "h");
    assert_eq!(hostname(None, None, None, None), "nieznany");
}
