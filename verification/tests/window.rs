use micbridge::i18n::catalog::text;
use micbridge::i18n::{fill, Key, Lang};
use micbridge::net::discovery::{Endpoint, Ip, Peer};
use micbridge::proto::control::FloatBits;
use micbridge::window::app::{
    autofill_target, code_entry, hides, paired_line, parting, peer_label, pretty_mic, pretty_sink,
    search_due, stale, target_label, toggle_label, wanted_peer, Action, Life, Parting, Slot,
    Target, GRACE, REFRESH_PAIRED, REFRESH_PEERS,
};
use micbridge::window::autostart::{
    config_home, desktop_entry, enabled, run_value, ConfigHome,
};
use micbridge::window::state::{
    detail_line, gave_up, recv_numbers, send_numbers, CodePrompt, Headline, Prompted,
    RecvFigures, SendFigures, Shared, Side, Which, HISTORY,
};

fn bits(v: f32) -> FloatBits {
    FloatBits(v.to_bits())
}

#[test]
fn statuses_land_on_their_own_side() {
    let mut shared = Shared::new();
    let (buffer_ms, ring_ms, loss_pct) = (30.0f32, 48.0f32, 1.5f32);
    shared.side(Which::Recv).report(
        bits(buffer_ms + ring_ms),
        bits(loss_pct),
        Vec::new(),
        String::new(),
    );

    assert_eq!(shared.recv.latency.last(), Some(bits(78.0)), "cushion plus card");
    assert_eq!(shared.recv.loss.last(), Some(bits(1.5)));
    assert!(
        shared.send.latency.points.is_empty(),
        "the other side is not touched"
    );
}

#[test]
fn the_history_stays_bounded() {
    let mut shared = Shared::new();
    for i in 0..HISTORY * 2 {
        shared
            .side(Which::Send)
            .report(bits(i as f32), bits(0.0), Vec::new(), String::new());
    }
    assert_eq!(shared.send.latency.points.len(), HISTORY);
    assert_eq!(
        shared.send.latency.last(),
        Some(bits((HISTORY * 2 - 1) as f32)),
        "the newest stay, not the oldest"
    );
}

#[test]
fn waiting_for_a_code_does_not_block_the_window() {
    let mut prompt = CodePrompt::new();
    prompt.ask("salon");
    for _ in 0..100 {
        assert!(matches!(prompt.look(false), Prompted::Waiting));
    }
    assert_eq!(prompt.awaiting_code().as_deref(), Some("salon"));

    prompt.answer_code(" 482-193 ");
    assert!(matches!(prompt.look(false), Prompted::Typed(Ok(code)) if code == "482193"));
    assert!(
        prompt.awaiting_code().is_none(),
        "the question goes away after the answer"
    );
}

#[test]
fn giving_up_on_pairing_releases_the_session() {
    let mut prompt = CodePrompt::new();
    prompt.ask("salon");
    assert!(prompt.awaiting_code().is_some());
    prompt.cancel_code();
    let outcome = prompt.look(false);
    assert!(matches!(outcome, Prompted::Cancelled));
    assert_eq!(
        gave_up(&outcome, Lang::Pl),
        Some(text(Key::ErrPairingCancelled, Lang::Pl))
    );
    assert!(prompt.awaiting_code().is_none());
}

#[test]
fn a_question_nobody_answers_runs_out() {
    let mut prompt = CodePrompt::new();
    prompt.ask("salon");
    let outcome = prompt.look(true);
    assert!(matches!(outcome, Prompted::TimedOut));
    assert_eq!(
        gave_up(&outcome, Lang::En),
        Some(text(Key::ErrNobodyTypedCode, Lang::En))
    );
    prompt.ask("biuro");
    prompt.answer_code("12");
    let outcome = prompt.look(false);
    assert!(matches!(outcome, Prompted::Typed(Err(e)) if e.got == 2));
}

#[test]
fn a_session_that_ends_leaves_nothing_but_its_error() {
    let mut side = Side::new();
    assert_eq!(side.headline(), Headline::Quiet);
    side.wanted = true;
    side.running = true;
    assert_eq!(side.headline(), Headline::Waiting);
    side.connected("salon", "głośnik");
    assert_eq!(side.headline(), Headline::Connected);
    assert!(!side.has_plots());
    side.report(bits(1.0), bits(2.0), Vec::new(), "x".into());
    assert!(side.has_plots());
    assert_eq!(side.log[0], "salon → głośnik");
    side.finished(Err("padło".into()));
    assert_eq!(side.error.as_deref(), Some("padło"));
    assert!(!side.wanted && !side.running);
    assert!(side.peer.is_none() && side.detail.is_empty());
    assert!(side.latency.points.is_empty());

    side.wanted = true;
    side.finished(Ok(()));
    assert!(side.error.is_none() && side.wanted);

    for i in 0..20 {
        side.note(&format!("{i}"));
    }
    assert_eq!(side.log.len(), 12);
    assert_eq!(side.log[0], "8");
}

#[test]
fn numbers_appear_when_there_is_something_to_say() {
    let figures = |dropped, starved| RecvFigures {
        buffer: "30 ms".into(),
        ring: "48 ms".into(),
        jitter: "1.0 ms".into(),
        drift: "+0.001%".into(),
        recovered: 4,
        dropped,
        starved,
    };
    let rows = recv_numbers(figures(0, 0), Lang::Pl);
    assert_eq!(rows.len(), 5);
    assert_eq!(rows[0].1, "30 ms");
    assert_eq!(rows[3].1, fill(text(Key::FramesN, Lang::Pl), &["4"]));
    assert_eq!(recv_numbers(figures(1, 1), Lang::Pl).len(), 7);
    assert_eq!(
        recv_numbers(figures(0, 9), Lang::Pl)[5].0,
        text(Key::NumStarved, Lang::Pl)
    );

    let rows = send_numbers(
        SendFigures {
            bitrate: "24 kbps".into(),
            peak: "-6 dBFS".into(),
            jitter: "1 ms".into(),
            fec_pct: 10,
            frames: 100,
            overruns: 3,
        },
        Lang::Pl,
    );
    assert_eq!(rows.len(), 6);
    assert_eq!(rows[4].1, "100");
    assert_eq!(
        detail_line(true, "1", "2", Lang::Pl),
        text(Key::NobodyListening, Lang::Pl)
    );
    assert_eq!(
        detail_line(false, "1", "2", Lang::Pl),
        fill(text(Key::LatencyLoss, Lang::Pl), &["1", "2"])
    );

    let mut shared = Shared::new();
    shared.show_code("laptop", "482193");
    assert_eq!(shared.shown_code.as_ref().unwrap().code, "482193");
    shared.hide_code();
    assert!(shared.shown_code.is_none());
}

fn peer(name: &str, version: u32) -> Peer {
    Peer {
        name: name.into(),
        addrs: vec![Endpoint {
            ip: Ip::V4(10, 0, 0, 1),
            port: 47100,
        }],
        version,
    }
}

#[test]
fn the_only_receiver_fills_the_field() {
    let one = vec![peer("obcy", 3), peer("salon", 2)];
    let filled = autofill_target(Target::Auto, false, &one);
    assert!(matches!(&filled, Target::Named(n) if n == "salon"));
    assert!(matches!(autofill_target(Target::Auto, true, &one), Target::Auto));
    let named = autofill_target(Target::Named("x".into()), false, &one);
    assert_eq!(wanted_peer(&named).as_deref(), Some("x"));
    let two = vec![peer("a", 2), peer("b", 2)];
    assert!(matches!(autofill_target(Target::Auto, false, &two), Target::Auto));
    assert!(matches!(autofill_target(Target::Auto, false, &vec![]), Target::Auto));
    assert_eq!(wanted_peer(&Target::Auto), None);

    assert_eq!(target_label(&Target::Auto), "jedyny w sieci");
    assert_eq!(target_label(&filled), "salon");
    assert_eq!(peer_label(&one[1], "10.0.0.1:47100"), "salon  (10.0.0.1:47100)");
    assert_eq!(peer_label(&one[0], "x"), "obcy  — inna wersja protokołu");
}

#[test]
fn lists_are_read_again_when_they_grow_old() {
    assert!(stale(None, 0, REFRESH_PAIRED));
    assert!(!stale(Some(5), 5 + REFRESH_PAIRED, REFRESH_PAIRED));
    assert!(stale(Some(5), 6 + REFRESH_PAIRED, REFRESH_PAIRED));
    assert!(search_due(false, true, Some(0), 0));
    assert!(!search_due(true, true, None, 0));
    assert!(!search_due(false, false, Some(0), REFRESH_PEERS));
    assert!(search_due(false, false, Some(0), REFRESH_PEERS + 1));
}

#[test]
fn closing_hides_only_where_we_can_come_back() {
    assert!(hides(false, true, true));
    assert!(!hides(true, true, true));
    assert!(!hides(false, false, true));
    assert!(!hides(false, true, false));

    let mut life = Life::new();
    assert!(life.on_close(true, true));
    assert!(life.hidden);
    assert!(!life.on_tray(Some(Action::Show)));
    assert!(!life.hidden);
    assert!(life.on_tray(Some(Action::Quit)));
    assert!(!life.on_close(true, true), "an exit is not called off");
    assert!(!life.on_tray(None));
}

#[test]
fn quitting_goes_before_showing() {
    let mut slot = Slot::new();
    slot.note(Action::Show);
    slot.note(Action::Quit);
    slot.note(Action::Show);
    assert_eq!(slot.poll(), Some(Action::Quit));
    assert_eq!(slot.poll(), None);
}

#[test]
fn quitting_lets_a_deaf_session_go() {
    assert_eq!(parting(false, 100, 100), Parting::Wait);
    assert_eq!(parting(false, 100, 99 + GRACE), Parting::Wait);
    assert_eq!(parting(false, 100, 100 + GRACE), Parting::Leave);
    assert_eq!(parting(true, 100, 100 + GRACE), Parting::Join);
}

#[test]
fn a_code_goes_out_when_it_is_complete() {
    let e = code_entry("482 19", true, true);
    assert!(!e.complete && !e.submit);
    assert_eq!(e.hint.as_deref(), Some("5 z 6 cyfr"));
    assert!(code_entry("482 193", true, false).submit);
    assert!(code_entry("482193", false, true).submit);
    assert!(!code_entry("482193", false, false).submit);
    assert_eq!(code_entry("abc", false, false).hint, None);
}

#[test]
fn fields_show_readable_names() {
    assert_eq!(pretty_sink("auto", true), "automatycznie (mikrofon MicBridge)");
    assert_eq!(pretty_sink("auto", false), "automatycznie (wirtualny kabel)");
    assert_eq!(pretty_sink("Speakers", true), "Speakers");
    assert_eq!(pretty_mic("default"), "domyślny w systemie");
    assert_eq!(pretty_mic("tone"), "ton próbny 440 Hz");
    assert_eq!(pretty_mic("Yeti"), "Yeti");
    assert_eq!((toggle_label(true), toggle_label(false)), ("włączone", "wyłączone"));
    assert_eq!(
        paired_line(&vec!["a".into(), "b".into()]).as_deref(),
        Some("Sparowane: a, b")
    );
    assert_eq!(paired_line(&vec![]), None);
}

#[test]
fn starting_with_the_system_can_be_undone() {
    assert!(enabled(Ok(true)));
    assert!(!enabled(Ok(false)));
    assert!(!enabled(Err("?".into())));
    assert_eq!(micbridge::window::autostart::set(true, Ok(())), (true, None));
    assert_eq!(micbridge::window::autostart::set(true, Err("nie".into())), (false, Some("nie".into())));
    assert!(matches!(
        config_home(Some("/x".into()), Some("/h".into())),
        ConfigHome::At(d) if d == "/x"
    ));
    assert!(matches!(
        config_home(Some("".into()), Some("/h".into())),
        ConfigHome::UnderHome(d) if d == "/h"
    ));
    assert!(matches!(config_home(None, None), ConfigHome::Unknown));
    assert_eq!(
        desktop_entry("/usr/bin/micbridge-gui"),
        "[Desktop Entry]\n\
         Type=Application\n\
         Name=MicBridge\n\
         Comment=Mikrofon z drugiego komputera\n\
         Exec=/usr/bin/micbridge-gui\n\
         Terminal=false\n\
         X-GNOME-Autostart-enabled=true\n"
    );
    assert_eq!(run_value("C:\\a b.exe"), "\"C:\\a b.exe\"");
}
