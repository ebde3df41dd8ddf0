use micbridge::audio::{DeviceInfo, Direction};
use micbridge::engine::codec::DecodeStep;
use micbridge::engine::jitter::JitterBuffer;
use micbridge::i18n::catalog::text;
use micbridge::i18n::{devices, fill, Key, Lang};
use micbridge::net::channel::{ChannelError, SecureChannel};
use micbridge::net::discovery::{Endpoint, Ip, Peer};
use micbridge::net::keys::KeyStore;
use micbridge::net::pair::PairError;
use micbridge::net::secure::{CipherError, MediaCipher};
use micbridge::proto::control::FloatBits;
use micbridge::proto::{
    Accept, ControlMsg, Hello, Init, PayloadKind, RtpHeader, Stats, FRAME_SAMPLES,
    PROTOCOL_VERSION, RTP_HEADER_LEN,
};
use micbridge::session::cli::{
    device_footer, device_lines, device_row, forgotten_lines, found_lines, log_filter,
    paired_lines, peer_row, verdict,
};
use micbridge::session::doctor::{
    bad, check as examine, microphone, ok, paired, sink_elsewhere, sink_on_linux, Grade, Report,
    SinkProbe,
};
use micbridge::session::intake::{take_in, Intake, Verdict};
use micbridge::session::interrupt::{after_read, Attempt, ReadStep};
use micbridge::session::pacer::{next_step, ring_frames, ring_target, wants_frame, Beat, Pacer};
use micbridge::session::pair::{
    expect_handshake, introduction, on_introduction, on_ready, receiver_gives_up, receiver_keeps,
    sender_keeps, Due, Pairing, SetupError,
};
use micbridge::session::recv::{
    acceptance, buffer_line, check, on_hello, peer_line, session_lines, ssrc_of, target_frames,
    Options,
};
use micbridge::session::send::{
    ended_line, has_port, is_tone, next_packet, offer, on_answer, on_notice, partition, peer_by_name,
    sending_line, skipped_line, sole_peer, tone_pace, with_port, AnswerError, Dropper, Notice,
    Packetizer, Sole,
};
use micbridge::session::setup::{
    ReceiverSetup, ReceiverStep, SenderSetup, SenderStep, SetupFailure,
};
use micbridge::session::ui::{check_code, typed_code, Console, FixedCode, SinceLast};

const MILLI: u64 = 1_000_000;
const SECOND: u64 = 1_000_000_000;

#[test]
fn the_worst_grade_wins() {
    let mut report = Report::default();
    assert_eq!(report.worst(), Grade::Good, "an empty look has no objections");

    report.checks.push(ok("a", "jest".into()));
    assert_eq!(report.worst(), Grade::Good);

    report
        .checks
        .push(bad(Grade::Warn, "b", "brak".into(), "zainstaluj"));
    assert_eq!(report.worst(), Grade::Warn);

    report
        .checks
        .push(bad(Grade::Fail, "c", "padło".into(), "napraw"));
    assert_eq!(report.worst(), Grade::Fail, "a failure covers a warning");
}

#[test]
fn numbers_take_the_right_form() {
    assert_eq!(devices(1, Lang::Pl), "1 urządzenie");
    assert_eq!(devices(2, Lang::Pl), "2 urządzenia");
    assert_eq!(devices(5, Lang::Pl), "5 urządzeń");
    // The teens are an exception.
    assert_eq!(devices(12, Lang::Pl), "12 urządzeń");
    assert_eq!(devices(22, Lang::Pl), "22 urządzenia");
    assert_eq!(devices(0, Lang::Pl), "0 urządzeń");
}

#[test]
fn advice_shows_up_only_when_there_is_something_to_do() {
    assert!(!ok("a", "jest".into()).line().contains('\n'));
    let with_advice = bad(Grade::Warn, "b", "brak".into(), "zainstaluj").line();
    assert!(with_advice.contains("zainstaluj"));
}

fn device(name: &str, is_default: bool) -> DeviceInfo {
    DeviceInfo {
        index: 0,
        name: name.into(),
        is_default,
        default_sample_rate: Some(48_000),
        channels: Some(1),
    }
}

#[test]
fn each_check_says_what_it_found() {
    let c = microphone(&Ok(vec![device("A", false), device("B", true)]));
    assert_eq!(c.grade, Grade::Good);
    assert_eq!(c.detail, "2 urządzenia, domyślne: B");
    let c = microphone(&Ok(vec![]));
    assert_eq!(c.grade, Grade::Warn);
    let c = microphone(&Err("brak".into()));
    assert_eq!(c.grade, Grade::Fail);
    assert_eq!(c.detail, "nie mogę odpytać systemu: brak");

    assert_eq!(sink_on_linux(true).grade, Grade::Good);
    assert_eq!(sink_on_linux(false).grade, Grade::Warn);
    let outs = Ok(vec![device("Speakers", true), device("CABLE Input", false)]);
    let c = sink_elsewhere(&outs);
    assert_eq!(c.grade, Grade::Good);
    assert!(c.detail.contains("CABLE Input"));
    assert_ne!(sink_elsewhere(&Ok(vec![device("Speakers", true)])).grade, Grade::Good);

    assert!(paired(&Ok(vec!["salon".into()])).detail.contains("salon"));
    let report = examine(
        &Ok(vec![device("A", true)]),
        &SinkProbe::PipeWire(true),
        &Ok(vec![]),
    );
    assert_eq!(report.checks.len(), 3);
}

#[test]
fn the_dropper_hits_close_to_the_requested_rate() {
    let mut d = Dropper::new((5.0f32 as f64 / 100.0 * u64::MAX as f64) as u64);
    for _ in 0..100_000 {
        d.should_drop();
    }
    let rate = d.dropped as f64 / 1000.0;
    assert!((rate - 5.0).abs() < 0.4, "drops {rate:.2}%");
}

#[test]
fn zero_percent_drops_nothing() {
    let mut d = Dropper::new(0);
    for _ in 0..10_000 {
        assert!(!d.should_drop());
    }
}

fn port_of(target: &str) -> u16 {
    with_port(target, 47100)
        .rsplit(':')
        .next()
        .unwrap()
        .parse()
        .unwrap()
}

#[test]
fn a_bare_host_gets_the_default_port() {
    assert_eq!(port_of("127.0.0.1"), 47100);
    assert_eq!(with_port("127.0.0.1", 47100), "127.0.0.1:47100");
}

#[test]
fn an_explicit_port_wins() {
    assert_eq!(port_of("127.0.0.1:9000"), 9000);
    assert_eq!(with_port("127.0.0.1:9000", 47100), "127.0.0.1:9000");
}

#[test]
fn ipv6_needs_brackets_to_carry_a_port() {
    // Bare IPv6 is all colons; only the bracketed form names a port.
    assert!(!has_port("::1"));
    assert!(!has_port("fe80::1"));
    assert!(has_port("[::1]:47100"));
    assert!(!has_port("[::1]"));
    assert_eq!(port_of("[::1]:9000"), 9000);
    assert_eq!(port_of("::1"), 47100);
}

fn peer(name: &str, version: u32) -> Peer {
    Peer {
        name: name.into(),
        addrs: vec![Endpoint {
            ip: Ip::V4(10, 0, 0, 1),
            port: 47100,
        }],
        version,
    }
}

#[test]
fn a_receiver_is_found_by_a_fragment_of_its_name() {
    let peers = vec![peer("Biuro", 2), peer("SALON-PC", 2), peer("salon", 2)];
    assert_eq!(peer_by_name(&peers, "Salon"), Some(1));
    assert_eq!(peer_by_name(&peers, "kuchnia"), None);
}

#[test]
fn only_one_receiver_needs_no_choice() {
    let peers = vec![peer("a", 2), peer("b", 3), peer("c", 2)];
    assert_eq!(partition(&peers), (vec![0, 2], vec![1]));
    assert_eq!(sole_peer(&vec![]), Sole::Nobody);
    assert_eq!(sole_peer(&vec![4]), Sole::Only(4));
    assert_eq!(sole_peer(&vec![0, 2]), Sole::Several);
    assert_eq!(
        skipped_line("b", 3),
        "  pomijam „b” — protokół w wersji 3, ja mówię 2"
    );
    assert_eq!(sending_line(24_999), "Nadaję Opusem, 24 kbps. Ctrl-C kończy.");
    assert_eq!(ended_line(7), "Zakończono. Wysłano 7 ramek.");
    assert!(is_tone("TONE") && !is_tone("tones"));
}

#[test]
fn a_tone_that_fell_behind_does_not_catch_up() {
    assert_eq!(tone_pace(0, 4 * MILLI), (10 * MILLI, Some(6 * MILLI)));
    assert_eq!(tone_pace(0, 10 * MILLI), (10 * MILLI, Some(0)));
    assert_eq!(tone_pace(0, 11 * MILLI), (11 * MILLI, None));
}

#[test]
fn our_offer_is_taken() {
    let hello = match offer("Yeti".into(), "laptop".into()) {
        ControlMsg::Hello(h) => h,
        _ => panic!("an offer is a HELLO"),
    };
    assert!(check(&hello).is_ok());
    assert!(on_hello(ControlMsg::Hello(hello)).is_ok());
    assert!(matches!(
        on_hello(ControlMsg::Mute { on: true }),
        Err(SetupError::Unexpected(Due::Hello, _))
    ));
}

#[test]
fn an_offer_that_is_not_ours_is_refused_with_a_reason() {
    let ours = || Hello {
        version: 2,
        payload: PayloadKind::Opus,
        sample_rate: 48_000,
        channels: 1,
        frame_ms: 10,
        device: "d".into(),
        host: "h".into(),
    };
    assert_eq!(
        check(&Hello { version: 3, ..ours() }),
        Err("wersja protokołu 3 (obsługuję 2)".into())
    );
    assert_eq!(
        check(&Hello { sample_rate: 44_100, ..ours() }),
        Err("częstotliwość 44100 Hz (obsługuję 48000)".into())
    );
    assert_eq!(
        check(&Hello { channels: 2, ..ours() }),
        Err("2 kanałów (obsługuję mono)".into())
    );
    assert_eq!(
        check(&Hello { frame_ms: 20, ..ours() }),
        Err("ramka 20 ms (obsługuję 10)".into())
    );
    assert_eq!(
        check(&Hello { payload: PayloadKind::PcmS16, ..ours() }),
        Err("obsługuję wyłącznie Opusa".into())
    );
}

#[test]
fn the_answer_to_an_offer_brings_the_cipher() {
    let accept = |version: u32, key: usize| {
        ControlMsg::Accept(Accept {
            version,
            ssrc: 1,
            media_port: 47101,
            sink: "s".into(),
            host: "h".into(),
            media_key: vec![5; key],
        })
    };
    assert!(on_answer(accept(2, 32)).is_ok());
    assert!(matches!(
        on_answer(accept(2, 16)),
        Err(AnswerError::Key(CipherError::KeyLength(16)))
    ));
    assert!(matches!(
        on_answer(accept(3, 32)),
        Err(AnswerError::Setup(SetupError::WrongVersion(3)))
    ));
    assert!(matches!(
        on_answer(ControlMsg::Reject { reason: "nie".into() }),
        Err(AnswerError::Setup(SetupError::Refused(why))) if why == "nie"
    ));
    assert!(matches!(
        on_answer(ControlMsg::Mute { on: false }),
        Err(AnswerError::Setup(SetupError::Unexpected(Due::HelloAnswer, _)))
    ));
    assert!(matches!(
        acceptance(9, "s".into(), "h".into(), vec![1]),
        ControlMsg::Accept(a) if a.ssrc == 9 && a.version == PROTOCOL_VERSION && a.media_port == 47101
    ));
    assert_eq!(
        SetupError::WrongVersion(3).message(),
        "niezgodna wersja protokołu: my 2, odbiornik 3"
    );
}

#[test]
fn the_sender_listens_to_reports_and_goodbyes() {
    let stats = Stats {
        lost_pct: FloatBits(1.5f32.to_bits()),
        jitter_ms: FloatBits(0),
        buffer_ms: FloatBits(0),
        late_pct: FloatBits(0),
    };
    assert!(matches!(on_notice(ControlMsg::Stats(stats)), Notice::Report(s) if s == stats));
    assert!(matches!(
        on_notice(ControlMsg::Bye { reason: "koniec".into() }),
        Notice::Ended(why) if why == "koniec"
    ));
    assert!(matches!(on_notice(ControlMsg::Mute { on: true }), Notice::Nothing));
}

#[test]
fn a_sent_packet_is_taken() {
    let cipher = MediaCipher::new(&[3u8; 32]).unwrap();
    let mut packetizer = Packetizer::new(0xABCD);
    let mut intake = Intake::new();
    let mut jb = JitterBuffer::new(1, 40);
    for i in 0..70_000u64 {
        let packet = packetizer.packet(&cipher, &[i as u8; 20]);
        let header = RtpHeader::decode(&packet).unwrap();
        assert_eq!(header.seq, i as u16);
        assert_eq!(header.marker, i == 0);
        assert_eq!(header.timestamp, (i as u32).wrapping_mul(FRAME_SAMPLES as u32));
        assert_eq!(take_in(&mut intake, &cipher, &packet, &mut jb).unwrap(), i);
        assert_eq!(next_step(&mut jb), DecodeStep::Decode(vec![i as u8; 20]));
    }
    assert_eq!(packetizer.made(), 70_000);
}

#[test]
fn a_forged_packet_moves_no_counter() {
    let cipher = MediaCipher::new(&[3u8; 32]).unwrap();
    let other = MediaCipher::new(&[4u8; 32]).unwrap();
    let mut intake = Intake::new();
    let mut real = Packetizer::new(1);
    let mut forger = Packetizer::new(1);
    let mut stranger = Packetizer::new(2);

    let first = real.packet(&cipher, b"a");
    assert!(matches!(intake.receive(&cipher, &first), Verdict::Taken { ext: 0, .. }));
    for i in 0..3 {
        let fake = forger.packet(&other, b"x");
        assert!(matches!(
            intake.receive(&cipher, &fake),
            Verdict::Forged { first } if first == (i == 0)
        ));
    }
    let theirs = stranger.packet(&cipher, b"y");
    assert!(matches!(intake.receive(&cipher, &theirs), Verdict::OtherStream));
    assert!(matches!(intake.receive(&cipher, &first[..5]), Verdict::Malformed(_)));

    let mut pcm = [0u8; RTP_HEADER_LEN];
    RtpHeader {
        marker: false,
        payload: PayloadKind::PcmS16,
        seq: 1,
        timestamp: 0,
        ssrc: 1,
    }
    .encode_into(&mut pcm)
    .unwrap();
    assert!(matches!(intake.receive(&cipher, &pcm), Verdict::OtherPayload));

    let second = real.packet(&cipher, b"b");
    assert!(matches!(
        intake.receive(&cipher, &second),
        Verdict::Taken { ext: 1, payload } if payload == b"b"
    ));
}

#[test]
fn the_reserve_follows_what_the_card_asks_for() {
    assert_eq!(ring_target(0), 960);
    assert_eq!(ring_target(4800), 9600);
    assert_eq!(ring_target(1_000_000), 24_000);
    assert_eq!(ring_frames(4800, 48_000), 20);
    assert_eq!(ring_frames(480, 44_100), 3);
    assert!(wants_frame(0, 960, 960));
    assert!(!wants_frame(960, 48_000, 960));
    assert!(!wants_frame(0, 959, 960));
}

#[test]
fn silence_is_no_trouble() {
    let mut jb = JitterBuffer::new(3, 40);
    let mut pacer = Pacer::new(true, 3, 40, 48_000, 0);
    for i in 0..30 {
        jb.push(i, vec![0]);
    }
    // Nobody has asked for anything yet.
    assert!(matches!(
        pacer.beat(10 * MILLI, 0, 480, &mut jb),
        Beat::Idle { .. }
    ));
    assert_eq!(jb.depth(), 13, "the target and a hundred milliseconds on top");
    assert_eq!(pacer.setpoint(), 3);

    // The card starts asking.
    assert_eq!(pacer.beat(20 * MILLI, 1, 480, &mut jb), Beat::Play { ring: 960 });
    assert_eq!(pacer.after_fill(30 * MILLI, 960, 960, &mut jb), Some(10));
    assert_eq!(jb.depth(), 3);
}

#[test]
fn lateness_grows_the_cushion_and_plain_loss_does_not() {
    let mut jb = JitterBuffer::new(2, 40);
    let mut pacer = Pacer::new(true, 2, 40, 48_000, 0);
    jb.push(0, vec![0]);
    jb.push(2, vec![2]);
    jb.push(3, vec![3]);
    assert!(matches!(pacer.beat(10 * MILLI, 1, 480, &mut jb), Beat::Play { .. }));
    assert!(pacer.after_fill(12 * MILLI, 960, 960, &mut jb).is_some());
    while jb.depth() > 1 {
        next_step(&mut jb);
        if jb.depth() < 2 {
            break;
        }
    }
    let r = pacer.regulate(40 * MILLI, &mut jb).unwrap();
    assert_eq!(r.setpoint, None, "loss raises nothing");
    assert_eq!(r.elapsed, 40 * MILLI);
    assert!(pacer.regulate(45 * MILLI, &mut jb).is_none(), "too early");

    jb.push(0, vec![0]);
    assert_eq!(jb.late, 1);
    let r = pacer.regulate(70 * MILLI, &mut jb).unwrap();
    assert_eq!(r.setpoint, Some(4), "lateness raises by two");
    assert_eq!(jb.target_frames(), 4);
}

#[test]
fn a_fixed_cushion_stays() {
    let mut jb = JitterBuffer::new(3, 40);
    let mut pacer = Pacer::new(false, 3, 40, 48_000, 0);
    assert!(matches!(
        pacer.beat(SECOND, 0, 480, &mut jb),
        Beat::Idle { setpoint: None }
    ));
    assert_eq!(pacer.setpoint(), 3);
}

#[test]
fn a_recognised_pair_needs_no_code() {
    let mut ours = KeyStore::new("a".into());
    let mut theirs = KeyStore::new("b".into());
    ours.set("salon", &[1u8; 32]);
    theirs.set("laptop", &[1u8; 32]);

    let hi = introduction("laptop".into());
    let (visitor, reply) = on_introduction(hi, "salon".into(), &theirs).unwrap();
    let plan = on_ready(reply, &ours).unwrap();
    assert_eq!(plan.key, Some([1u8; 32]));
    assert_eq!(visitor.on_decision(plan.decision()).unwrap(), Some([1u8; 32]));
}

#[test]
fn one_lost_key_is_enough_to_pair_anew() {
    let mut ours = KeyStore::new("a".into());
    ours.set("salon", &[1u8; 32]);
    let mut theirs = KeyStore::new("b".into());

    let hi = introduction("laptop".into());
    let (visitor, reply) = on_introduction(hi, "salon".into(), &theirs).unwrap();
    let plan = on_ready(reply, &ours).unwrap();
    assert_eq!(plan.key, None);
    assert_eq!(visitor.on_decision(plan.decision()).unwrap(), None);

    // A sender that claims a key where there is none is told so.
    let err = visitor
        .on_decision(ControlMsg::Pairing { needed: false })
        .unwrap_err();
    assert_eq!(err.message(), "nie znam „laptop” — sparuj się od nowa");
    assert!(matches!(err.reply(), Some(ControlMsg::Reject { .. })));

    let mut pairing = Pairing::new();
    assert_eq!(
        sender_keeps(&mut ours, "salon", &[2u8; 32]),
        "Sparowano z „salon”. Następnym razem pójdzie bez kodu."
    );
    assert_eq!(
        receiver_keeps(&mut pairing, &mut theirs, "laptop", &[2u8; 32]),
        "  Sparowano z „laptop”."
    );
    assert_eq!(ours.get("salon"), theirs.get("laptop"));
}

#[test]
fn another_version_is_refused_at_the_door() {
    let store = KeyStore::new("b".into());
    let hi = ControlMsg::Init(Init {
        version: 1,
        host: "stary".into(),
    });
    let err = match on_introduction(hi, "salon".into(), &store) {
        Err(e) => e,
        Ok(_) => panic!("version 1 is not ours"),
    };
    assert_eq!(err.message(), "wersja protokołu 1 (obsługuję 2)");
    assert!(matches!(
        on_introduction(ControlMsg::Mute { on: true }, "s".into(), &store),
        Err(SetupError::Unexpected(Due::Introduction, _))
    ));
    assert!(matches!(
        on_ready(ControlMsg::Reject { reason: "x".into() }, &store),
        Err(SetupError::Refused(_))
    ));
    assert!(matches!(
        expect_handshake(ControlMsg::Reject { reason: "x".into() }),
        Err(SetupError::BrokenOff(_))
    ));
}

#[test]
fn three_misses_void_a_code() {
    let mut pairing = Pairing::default();
    let code = pairing.code();
    assert_eq!(code.len(), 6);
    assert!(receiver_gives_up(&mut pairing).1.is_none());
    assert!(receiver_gives_up(&mut pairing).1.is_none());
    assert_eq!(pairing.code(), code);
    pairing.note_success();
    assert!(!pairing.note_failure());
    assert!(!pairing.note_failure());
    let (reply, said) = receiver_gives_up(&mut pairing);
    assert!(matches!(reply, ControlMsg::Reject { reason } if reason == "parowanie odrzucone"));
    assert_eq!(said, Some("  trzy nieudane próby — losuję nowy kod."));
}

#[test]
fn the_third_miss_replaces_the_code() {
    let mut pairing = Pairing::new();
    let mut replaced = 0;
    // A draw may hit the same code again, but not time after time.
    for _ in 0..5 {
        let before = pairing.code();
        assert!(!pairing.note_failure());
        assert!(!pairing.note_failure());
        assert_eq!(pairing.code(), before);
        assert!(pairing.note_failure());
        assert_eq!(pairing.code().len(), 6);
        if pairing.code() != before {
            replaced += 1;
        }
    }
    assert!(replaced > 0);

    assert!(!pairing.note_failure());
    pairing.replace("482193".into());
    assert_eq!(pairing.code(), "482193");
    assert!(!pairing.note_failure());
    assert!(!pairing.note_failure());
    assert_eq!(pairing.code(), "482193");
    assert!(pairing.note_failure());
}

#[test]
fn a_dropped_packet_uses_up_its_number() {
    let cipher = MediaCipher::new(&[7u8; 32]).unwrap();
    let mut packetizer = Packetizer::new(0xABCD);
    let mut all = Dropper::new(u64::MAX);
    let mut none = Dropper::new(0);
    for k in 0..4u64 {
        let dropper = if k < 3 { &mut all } else { &mut none };
        let (packet, goes_out) = next_packet(&mut packetizer, dropper, &cipher, b"ramka");
        assert_eq!(goes_out, k == 3);
        let header = RtpHeader {
            marker: k == 0,
            payload: PayloadKind::Opus,
            seq: k as u16,
            timestamp: 480 * k as u32,
            ssrc: 0xABCD,
        };
        let mut head = vec![0u8; RTP_HEADER_LEN];
        header.encode_into(&mut head).unwrap();
        assert_eq!(packet[..RTP_HEADER_LEN], head[..]);
        assert_eq!(
            packet[RTP_HEADER_LEN..],
            cipher.seal(k, &head, b"ramka").unwrap()[..]
        );
    }
    assert_eq!(packetizer.made(), 4);
    assert_eq!(all.dropped(), 3);
    assert_eq!(none.dropped(), 0);
}

#[test]
fn the_receiver_says_what_it_does() {
    let opts = Options::default();
    assert_eq!(opts.listen, "0.0.0.0:47100");
    assert_eq!(target_frames(opts.buffer_ms), 3);
    assert_eq!(target_frames(5), 1);
    assert_eq!(
        buffer_line(30, 3, true),
        "Bufor jitter: 30 ms (3 × 10 ms), adaptacyjny."
    );
    assert_eq!(buffer_line(50, 5, false), "Bufor jitter: 50 ms (5 × 10 ms), stały.");
    assert_eq!(peer_line("salon", "10.0.0.1"), "salon (10.0.0.1)");
    assert_eq!(ssrc_of(None), 0x7A31_F0C2);
    assert_eq!(ssrc_of(Some((0x1_0000_0001, 6))), 7);

    let lines = session_lines("CABLE Input", 44_100, false, Lang::Pl);
    assert_eq!(lines.len(), 3);
    assert_eq!(
        lines[0],
        fill(text(Key::SesConversion, Lang::Pl), &["48000", "44100"])
    );
    assert!(lines[2].starts_with("  "));
    assert_eq!(
        session_lines("MicBridge", 48_000, true, Lang::Pl),
        vec![fill(text(Key::SesPickMicNamed, Lang::Pl), &["MicBridge"])]
    );
}

#[test]
fn the_console_tells_trouble_from_quiet() {
    assert_eq!(Console.recv_tail(0, 0), "");
    assert_eq!(Console.recv_tail(5, 0), "   NIEDOMIAR 5");
    assert_eq!(Console.recv_tail(0, 2), "   WYRZUCONO 2 ramek (bufor pełny)");
    assert_eq!(Console.recv_tail(5, 2), "   NIEDOMIAR 5   WYRZUCONO 2");
    assert_eq!(Console.send_tail(10, 0, 0), "   FEC na 10% strat");
    assert_eq!(
        Console.send_tail(10, 3, 4),
        "   FEC na 10% strat   zgubiono 3 próbek   zgubiono celowo 4"
    );
    assert_eq!(
        Console.show_code("laptop", "482193"),
        "\n„laptop” prosi o sparowanie.\n  KOD: 482 193\n  Przepisz go na drugiej maszynie."
    );
    assert!(Console.ask_code("salon").ends_with("Przepisz go tutaj: "));
    assert_eq!(Console.connected("salon", "głośnik"), "\nsalon → głośnik");

    let mut dropped = SinceLast { seen: 0 };
    assert_eq!(dropped.take(5), 5);
    assert_eq!(dropped.take(7), 2);
    assert_eq!(dropped.take(3), 0);
}

#[test]
fn a_code_has_six_digits_or_is_sent_back() {
    assert_eq!(check_code("482193").unwrap(), "482193");
    let err = check_code("48219").unwrap_err();
    assert_eq!(err.message(), "kod ma 5 cyfr, oczekuję 6");
    assert_eq!(typed_code(" 482-193\n").unwrap(), "482193");
    let fixed = FixedCode { code: "48 21 93".into() };
    assert_eq!(fixed.ask_code().unwrap(), "482193");
    assert_eq!(FixedCode { code: "1".into() }.ask_code().unwrap_err().got, 1);
}

#[test]
fn a_silent_read_is_given_up_only_when_asked() {
    assert_eq!(after_read(Attempt::EmptyHanded, true), ReadStep::Again);
    assert_eq!(after_read(Attempt::EmptyHanded, false), ReadStep::Abort);
    assert_eq!(after_read(Attempt::Settled, false), ReadStep::HandOn);
}

#[test]
fn lists_stand_in_columns() {
    let row = device_row(&device("Yeti", true), Lang::Pl);
    assert_eq!(row, format!("* @0  {:<48}  48000 Hz    1 ch", "Yeti"));
    let unknown = DeviceInfo {
        index: 12,
        name: "Głośnik".into(),
        is_default: false,
        default_sample_rate: None,
        channels: None,
    };
    assert_eq!(
        device_row(&unknown, Lang::Pl),
        format!("  @12 {:<48} {:>9}  {:>6}", "Głośnik", "?", "?")
    );
    let cable = device_row(&device("CABLE Input", false), Lang::Pl);
    assert!(cable.ends_with(text(Key::CliVirtualCable, Lang::Pl)));

    let lines = device_lines(Direction::Input, &vec![], Lang::En);
    assert_eq!(lines[1], text(Key::CliInputs, Lang::En));
    assert_eq!(lines[2], text(Key::CliNone, Lang::En));
    assert_eq!(device_lines(Direction::Output, &vec![unknown], Lang::En).len(), 3);
    assert_eq!(device_footer(true, Lang::Pl).len(), 7);

    assert_eq!(
        peer_row(&peer("salon", 2), "10.0.0.1:47100", Lang::Pl),
        format!("  {:<24} {:<24}", "salon", "10.0.0.1:47100")
    );
    assert!(peer_row(&peer("salon", 3), "x", Lang::Pl)
        .ends_with(&fill(text(Key::CliProtocolInstead, Lang::Pl), &["3", "2"])));
    assert_eq!(found_lines(&vec![], &vec![], Lang::Pl).len(), 6);
    let found = found_lines(&vec![peer("salon", 2)], &vec!["x".into()], Lang::Pl);
    assert_eq!(found.len(), 5);
    assert_eq!(found[4], fill(text(Key::CliSendWith, Lang::Pl), &["salon"]));

    let names: Vec<String> = vec!["biuro".into(), "salon".into()];
    let list = paired_lines(&names, "/k", Lang::Pl);
    assert_eq!(list[1], "  biuro");
    assert_eq!(list[4], fill(text(Key::CliKeysAt, Lang::Pl), &["/k"]));
    assert_eq!(paired_lines(&vec![], "/k", Lang::Pl).len(), 2);
    assert_eq!(forgotten_lines(true, "salon", Lang::Pl).len(), 2);
    assert_eq!(
        forgotten_lines(false, "salon", Lang::Pl),
        vec![fill(text(Key::CliNothingUnder, Lang::Pl), &["salon"])]
    );
    assert_eq!(verdict(Grade::Fail, Lang::Pl), (text(Key::DocBroken, Lang::Pl), true));
    assert_eq!(verdict(Grade::Warn, Lang::Pl), (text(Key::DocPartial, Lang::Pl), false));
    assert_eq!(log_filter(0), "mb_app=info,mb_audio=info,mb_engine=info");
    assert_eq!((log_filter(1), log_filter(9)), ("debug", "trace"));
}

/// How a run of both sides ended: each side's channel, or what it failed with,
/// and how often a code was asked for.
struct Ended {
    sender: Result<SecureChannel, SetupFailure>,
    receiver: Result<(SecureChannel, String), SetupFailure>,
    asked: u32,
}

/// Lets the two sides talk, message by message.
fn set_up(
    ours: &mut KeyStore,
    theirs: &mut KeyStore,
    pairing: &mut Pairing,
    typed: &str,
) -> Ended {
    let mut asked = 0;
    let (mut sender, say) = SenderSetup::start("laptop".into());
    let mut receiver = ReceiverSetup::start();
    let mut to_receiver = vec![say];
    let mut to_sender: Vec<ControlMsg> = Vec::new();
    let mut there: Option<(SecureChannel, String)> = None;
    loop {
        // The receiver takes everything that has come.
        while !to_receiver.is_empty() {
            let msg = to_receiver.remove(0);
            receiver = match receiver.on_message(msg, "salon".into(), theirs, pairing) {
                ReceiverStep::Send { say, next } => {
                    to_sender.push(say);
                    next
                }
                ReceiverStep::ShowCode { peer, code, next } => {
                    assert_eq!(peer, "laptop");
                    assert_eq!(code, pairing.code());
                    next
                }
                ReceiverStep::Recognised { next } => next,
                ReceiverStep::Confirmed { say, next } => {
                    to_sender.push(say);
                    next.on_sent(theirs, pairing).1
                }
                ReceiverStep::Established { say, channel, peer } => {
                    to_sender.push(say);
                    there = Some((channel, peer));
                    ReceiverSetup::start()
                }
                ReceiverStep::Failed { say, why, given_up } => {
                    to_sender.extend(say);
                    to_sender.extend(given_up.map(|g| g.reject));
                    let mut last = SetupFailure::Setup(SetupError::Refused("cisza".into()));
                    for msg in to_sender {
                        match sender.on_message(msg, ours) {
                            SenderStep::Send { next, .. } => sender = next,
                            SenderStep::Failed(e) => {
                                last = e;
                                break;
                            }
                            _ => panic!("no way on after a failure"),
                        }
                    }
                    return Ended {
                        sender: Err(last),
                        receiver: Err(why),
                        asked,
                    };
                }
            };
        }
        assert!(!to_sender.is_empty(), "one side has to speak");
        let msg = to_sender.remove(0);
        let (next, say) = match sender.on_message(msg, ours) {
            SenderStep::Established(channel) => {
                return Ended {
                    sender: Ok(channel),
                    receiver: Ok(there.unwrap()),
                    asked,
                }
            }
            SenderStep::Failed(e) => {
                return Ended {
                    sender: Err(e),
                    receiver: Err(SetupFailure::Setup(SetupError::Refused("cisza".into()))),
                    asked,
                }
            }
            SenderStep::Send { say, next } => (next, say),
            SenderStep::AskCode { say, next } => {
                to_receiver.push(say);
                assert_eq!(next.peer, "salon");
                asked += 1;
                next.on_code(typed)
            }
            SenderStep::KeyKnown { say, next } => {
                to_receiver.push(say);
                next.open().ok().unwrap()
            }
            SenderStep::Paired { line, next } => {
                assert!(line.contains("salon"));
                next.open().ok().unwrap()
            }
        };
        sender = next;
        to_receiver.push(say);
    }
}

#[test]
fn the_next_session_needs_no_code() {
    let mut ours = KeyStore::new("a".into());
    let mut theirs = KeyStore::new("b".into());
    let mut pairing = Pairing::new();
    let code = pairing.code();

    let first = set_up(&mut ours, &mut theirs, &mut pairing, &code);
    assert_eq!(first.asked, 1);
    let (mut here, (mut there, name)) = match (first.sender, first.receiver) {
        (Ok(a), Ok(b)) => (a, b),
        _ => panic!("the right code sets a session up"),
    };
    assert_eq!(name, "laptop");
    let frame = here.seal(b"hej").unwrap();
    assert_eq!(there.open(&frame).unwrap(), b"hej");
    assert!(ours.get("salon").is_some());
    assert_eq!(ours.get("salon"), theirs.get("laptop"));

    let second = set_up(&mut ours, &mut theirs, &mut pairing, "000000");
    assert_eq!(second.asked, 0, "nobody asks again");
    assert!(second.sender.is_ok() && second.receiver.is_ok());

    // One side loses its key: the two pair anew.
    assert!(theirs.forget("laptop"));
    let third = set_up(&mut ours, &mut theirs, &mut pairing, &code);
    assert_eq!(third.asked, 1);
    assert!(third.sender.is_ok());
    assert_eq!(ours.get("salon"), theirs.get("laptop"));
}

#[test]
fn a_wrong_code_keeps_nothing() {
    let mut ours = KeyStore::new("a".into());
    let mut theirs = KeyStore::new("b".into());
    let mut pairing = Pairing::new();
    let wrong = if pairing.code() == "111111" { "222222" } else { "111111" };

    let ended = set_up(&mut ours, &mut theirs, &mut pairing, wrong);
    assert!(matches!(
        ended.receiver,
        Err(SetupFailure::Pairing(PairError::CodeMismatch))
    ));
    assert!(matches!(
        ended.sender,
        Err(SetupFailure::Pairing(PairError::Aborted(why))) if why == "parowanie odrzucone"
    ));
    assert!(ours.peers().is_empty() && theirs.peers().is_empty());
}

#[test]
fn keys_that_differ_do_not_open_a_channel() {
    let mut ours = KeyStore::new("a".into());
    let mut theirs = KeyStore::new("b".into());
    ours.set("salon", &[1u8; 32]);
    theirs.set("laptop", &[2u8; 32]);
    let ended = set_up(&mut ours, &mut theirs, &mut Pairing::new(), "");
    assert_eq!(ended.asked, 0);
    assert!(matches!(
        ended.receiver,
        Err(SetupFailure::Channel(ChannelError::WrongKey(_)))
    ));
}

#[test]
fn a_connection_that_breaks_in_pairing_counts_as_a_miss() {
    let store = KeyStore::new("b".into());
    let mut pairing = Pairing::new();
    assert!(ReceiverSetup::start().on_break(&mut pairing).is_none());

    let mut lines = 0;
    for _ in 0..3 {
        let hi = SenderSetup::start("laptop".into()).1;
        let side = match ReceiverSetup::start().on_message(hi, "salon".into(), &store, &mut pairing)
        {
            ReceiverStep::Send { next, .. } => next,
            _ => panic!("an introduction is answered"),
        };
        let decision = ControlMsg::Pairing { needed: true };
        let side = match side.on_message(decision, "salon".into(), &store, &mut pairing) {
            ReceiverStep::ShowCode { next, .. } => next,
            _ => panic!("a code is shown"),
        };
        let gone = side.on_break(&mut pairing).unwrap();
        assert!(matches!(gone.reject, ControlMsg::Reject { .. }));
        lines += gone.line.map_or(0, |_| 1);
    }
    assert_eq!(lines, 1, "after the third a new code is drawn");
}

#[test]
fn messages_out_of_turn_end_the_setup() {
    let mut store = KeyStore::new("a".into());
    let mut pairing = Pairing::new();
    let (side, _) = SenderSetup::start("laptop".into());
    assert!(matches!(
        side.on_message(ControlMsg::Mute { on: true }, &mut store),
        SenderStep::Failed(SetupFailure::Setup(SetupError::Unexpected(Due::Ready, _)))
    ));
    assert!(matches!(
        ReceiverSetup::start().on_message(
            ControlMsg::Mute { on: true },
            "salon".into(),
            &store,
            &mut pairing
        ),
        ReceiverStep::Failed {
            say: None,
            why: SetupFailure::Setup(SetupError::Unexpected(Due::Introduction, _)),
            given_up: None,
        }
    ));
    let old = ControlMsg::Init(Init {
        version: 1,
        host: "stary".into(),
    });
    assert!(matches!(
        ReceiverSetup::start().on_message(old, "salon".into(), &store, &mut pairing),
        ReceiverStep::Failed {
            say: Some(ControlMsg::Reject { .. }),
            why: SetupFailure::Setup(SetupError::Refuse(_)),
            given_up: None,
        }
    ));
}
