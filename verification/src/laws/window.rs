//! What the window shows and decides.
use vstd::prelude::*;

use crate::i18n::{t, t2, Key, Lang};
use crate::net::discovery::Peer;
use crate::proto::control::FloatBits;
use crate::window::app::{
    autofill_target, code_entry, hides, paired_line, parting, peer_label, search_due, stale,
    target_label, wanted_peer, Action, Entry, Life, Parting, Slot, Target,
};
use crate::window::autostart::{config_home, desktop_entry, enabled, run_value, ConfigHome};
use crate::window::state::{
    detail_line, gave_up, recv_numbers, send_numbers, CodePrompt, Headline, Prompted, RecvFigures,
    SendFigures, Series, Shared, Side, Which,
};

verus! {

/// What was read longer ago than the limit is stale, and so is what was never read.
pub proof fn what_was_read_long_ago_is_stale(read_at: Option<u64>, now: u64, limit: u64, r: bool)
    requires
        call_ensures(stale, (read_at, now, limit), r),
    ensures
        read_at is None ==> r,
        read_at is Some ==> (r <==> now > read_at->0 + limit),
{
}

/// The network is searched anew where that is asked for, where it never was, or where
/// the last search is more than ten seconds back; but never while a search is under
/// way.
pub proof fn one_search_at_a_time(
    pending: bool,
    force: bool,
    read_at: Option<u64>,
    now: u64,
    r: bool,
)
    requires
        call_ensures(search_due, (pending, force, read_at, now), r),
    ensures
        pending ==> !r,
        !pending && force ==> r,
        !pending && read_at is None ==> r,
        !pending && !force && read_at is Some ==> (r <==> now > read_at->0 + 10_000_000_000),
{
}

/// A session that was asked to end is waited for until it has, for 300 milliseconds at
/// most, and then left behind.
pub proof fn a_deaf_session_is_left_behind(ended: bool, asked_at: u64, now: u64, r: Parting)
    requires
        call_ensures(parting, (ended, asked_at, now), r),
    ensures
        ended ==> r is Join,
        !ended && now < asked_at + 300_000_000 ==> r is Wait,
        !ended && now >= asked_at + 300_000_000 ==> r is Leave,
{
}

/// A target that the user has touched or named stays. Else the one receiver that
/// speaks our version is filled in by its name; where there is none or there are
/// several, the choice stays open.
pub proof fn the_only_receiver_is_filled_in(
    target: Target,
    touched: bool,
    peers: &Vec<Peer>,
    i: int,
    j: int,
    r: Target,
)
    requires
        call_ensures(autofill_target, (target, touched, peers), r),
    ensures
        touched || target is Named ==> r == target,
        !touched && target is Auto ==> {
            &&& (forall|k: int| 0 <= k < peers@.len() ==> (#[trigger] peers@[k]).version != 2)
                ==> r is Auto
            &&& 0 <= i < j < peers@.len() && peers@[i].version == 2 && peers@[j].version == 2
                ==> r is Auto
            &&& 0 <= i < peers@.len() && peers@[i].version == 2 && (forall|k: int|
                0 <= k < peers@.len() && (#[trigger] peers@[k]).version == 2 ==> k == i) ==> (
            r matches Target::Named(name) && name@ == peers@[i].name@)
        },
{
    if !touched && target is Auto {
        if 0 <= i < peers@.len() && peers@[i].version == 2 && forall|k: int|
            0 <= k < peers@.len() && (#[trigger] peers@[k]).version == 2 ==> k == i {
            assert(crate::window::app::only_usable(peers@, i));
        }
        if r is Named {
            let k = choose|k: int| crate::window::app::only_usable(peers@, k);
            assert(crate::window::app::only_usable(peers@, k));
            assert(peers@[k].version == 2);
        }
    }
}

/// A named target asks for that name, and an open one for none. A receiver is shown with
/// its address where we can talk to it, and without where we cannot.
pub proof fn a_target_is_what_is_asked_for(
    target: Target,
    wanted: Option<String>,
    label: String,
    peer: Peer,
    addr: &str,
    shown: String,
)
    requires
        call_ensures(wanted_peer, (&target,), wanted),
        call_ensures(target_label, (&target,), label),
        call_ensures(peer_label, (&peer, addr), shown),
    ensures
        target is Auto ==> wanted is None,
        target matches Target::Named(name) ==> wanted is Some && wanted->0@ == name@ && label@
            == name@,
        peer.version == 2 ==> shown@ == peer.name@ + "  ("@ + addr@ + ")"@,
        peer.version != 2 ==> shown@ == peer.name@ + "  — inna wersja protokołu"@,
{
}

/// Closing hides the window where the tray can bring it back, and nobody is leaving;
/// an exit is never called off, and a wish to leave is not overridden by one to show.
pub proof fn an_exit_is_not_called_off(
    quitting: bool,
    has_tray: bool,
    can_restore: bool,
    hidden: bool,
    wish: Option<Action>,
    leaves: bool,
    action: Action,
    polled: Option<Action>,
)
    ensures
        call_ensures(hides, (quitting, has_tray, can_restore), hidden) ==> (hidden <==> !quitting
            && has_tray && can_restore),
        forall|l: &mut Life| #[trigger]
            call_ensures(Life::on_close, (l, has_tray, can_restore), hidden) ==> {
                &&& hidden <==> !(*l).quitting && has_tray && can_restore
                &&& final(l).hidden <==> (*l).hidden || hidden
                &&& final(l).quitting == (*l).quitting
            },
        forall|l: &mut Life| #[trigger]
            call_ensures(Life::on_tray, (l, wish), leaves) ==> {
                &&& leaves <==> wish == Some(Action::Quit)
                &&& (*l).quitting ==> final(l).quitting
                &&& leaves ==> final(l).quitting
                &&& !leaves ==> final(l).quitting == (*l).quitting
                &&& wish == Some(Action::Show) ==> !final(l).hidden
                &&& wish != Some(Action::Show) ==> final(l).hidden == (*l).hidden
            },
        forall|s: &mut Slot| #[trigger]
            call_ensures(Slot::note, (s, action), ()) ==> {
                &&& (*s).wish == Some(Action::Quit) ==> final(s).wish == Some(Action::Quit)
                &&& (*s).wish != Some(Action::Quit) ==> final(s).wish == Some(action)
            },
        forall|s: &mut Slot| #[trigger]
            call_ensures(Slot::poll, (s,), polled) ==> polled == (*s).wish && final(s).wish is None,
        forall|l: Life| #[trigger] call_ensures(Life::new, (), l) ==> !l.hidden && !l.quitting,
        forall|s: Slot| #[trigger] call_ensures(Slot::new, (), s) ==> s.wish is None,
{
}

/// A code can be sent off once it has six digits, by a click or by the key; until then,
/// where something was typed, it is said how many there are.
pub proof fn a_code_is_sent_off_when_complete(field: &str, clicked: bool, entered: bool, r: Entry)
    requires
        call_ensures(code_entry, (field, clicked, entered), r),
    ensures
        ({
            let n = crate::laws::session::digits_of(field@).len();
            &&& r.complete <==> n == 6
            &&& r.submit <==> n == 6 && (clicked || entered)
            &&& r.hint is Some <==> n > 0 && n != 6
            &&& r.hint is Some ==> crate::text::has(r.hint->0@, crate::text::decimal(n))
        }),
{
    assert((|c: char| '0' <= c <= '9') =~= (|c: char| crate::net::pair::is_digit(c)));
    if r.hint is Some {
        let n = crate::laws::session::digits_of(field@).len();
        let d = crate::text::decimal(n);
        let h = r.hint->0@;
        assert(h.subrange(0, d.len() as int) =~= d);
        assert(crate::text::stands_at(h, d, 0));
    }
}

/// Everyone we are paired with is named; where that is nobody, nothing is said.
pub proof fn everyone_paired_is_named(peers: &Vec<String>, r: Option<String>, i: int)
    requires
        call_ensures(paired_line, (peers,), r),
    ensures
        r is Some <==> peers@.len() > 0,
        0 <= i < peers@.len() ==> crate::text::has(r->0@, peers@[i]@),
{
    if 0 <= i < peers@.len() {
        let parts = crate::text::views(peers@);
        crate::laws::audio::lemma_joined_has(parts, ", "@, i);
        crate::laws::audio::lemma_has_in_the_end(
            "Sparowane: "@,
            crate::text::joined(parts, ", "@),
            parts[i],
        );
    }
}

/// The program starts with the system only where the system plainly says so. Setting
/// it shows what came of it: what was wanted where that worked, else the opposite and
/// the error.
pub proof fn autostart_shows_what_is(
    probe: Result<bool, String>,
    r: bool,
    on: bool,
    outcome: Result<(), String>,
    shown: (bool, Option<String>),
)
    requires
        call_ensures(enabled, (probe,), r),
        call_ensures(crate::window::autostart::set, (on, outcome), shown),
    ensures
        r <==> (probe matches Ok(b) && b),
        outcome is Ok ==> shown.0 == on && shown.1 is None,
        outcome matches Err(e) ==> shown.0 == !on && shown.1 == Some(e),
{
}

/// The autostart entry stands where the desktop keeps its configuration, under the home
/// directory where that is not said, and starts the program that it names.
pub proof fn the_autostart_entry_names_the_program(
    xdg: Option<String>,
    home: Option<String>,
    place: ConfigHome,
    exe: &str,
    entry: String,
    value: String,
)
    requires
        call_ensures(config_home, (xdg, home), place),
        call_ensures(desktop_entry, (exe,), entry),
        call_ensures(run_value, (exe,), value),
    ensures
        xdg matches Some(dir) ==> (dir@.len() > 0 ==> place == ConfigHome::At(dir)),
        xdg is None || xdg->0@.len() == 0 ==> {
            &&& home matches Some(h) ==> place == ConfigHome::UnderHome(h)
            &&& home is None ==> place is Unknown
        },
        crate::text::has(entry@, exe@),
        value@ == seq!['"'] + exe@ + seq!['"'],
{
    let front = "[Desktop Entry]\nType=Application\nName=MicBridge\nComment=Mikrofon z drugiego komputera\nExec="@;
    assert(entry@.subrange(front.len() as int, (front.len() + exe@.len()) as int) =~= exe@);
    assert(crate::text::stands_at(entry@, exe@, front.len() as int));
    reveal_strlit("\"");
    assert("\""@ =~= seq!['"']);
}

/// A history takes every point at its end and lets the oldest go once it has 120.
pub proof fn a_history_keeps_the_last_points(v: FloatBits, last: Option<FloatBits>)
    ensures
        forall|s: &mut Series|
            (#[trigger] call_ensures(Series::push, (s, v), ())) && (*s)@.len() <= 120 ==> {
                &&& (*s)@.len() < 120 ==> final(s)@ == (*s)@.push(v)
                &&& (*s)@.len() == 120 ==> final(s)@ == (*s)@.drop_first().push(v)
            },
        forall|s: Series| #[trigger]
            call_ensures(Series::last, (&s,), last) ==> {
                &&& s@.len() == 0 ==> last is None
                &&& s@.len() > 0 ==> last == Some(s@[s@.len() - 1])
            },
        forall|s: Series| #[trigger] call_ensures(Series::new, (), s) ==> s@.len() == 0,
{
    assert forall|s: &mut Series|
        (#[trigger] call_ensures(Series::push, (s, v), ())) && (*s)@.len() == 120 implies final(s)@
        == (*s)@.drop_first().push(v) by {
        assert((*s)@.push(v).skip(1) =~= (*s)@.drop_first().push(v));
    }
}

/// The log takes every line at its end and lets the oldest go once it has twelve.
pub proof fn the_log_keeps_the_last_lines(text: &str)
    ensures
        forall|s: &mut Side|
            (#[trigger] call_ensures(Side::note, (s, text), ())) && (*s).log@.len() <= 12 ==> {
                let n = final(s).log@.len();
                &&& (*s).log@.len() < 12 ==> n == (*s).log@.len() + 1
                &&& (*s).log@.len() == 12 ==> n == 12
                &&& final(s).log@[n - 1]@ == text@
                &&& forall|i: int|
                    0 <= i < n - 1 ==> (#[trigger] final(s).log@[i])@ == (*s).log@[i + (*s).log@.len()
                        - (n - 1)]@
                &&& final(s).peer == (*s).peer && final(s).error == (*s).error
                &&& final(s).wanted == (*s).wanted && final(s).running == (*s).running
            },
{
    assert forall|s: &mut Side|
        (#[trigger] call_ensures(Side::note, (s, text), ())) && (*s).log@.len() <= 12 implies {
        let n = final(s).log@.len();
        &&& (*s).log@.len() < 12 ==> n == (*s).log@.len() + 1
        &&& (*s).log@.len() == 12 ==> n == 12
        &&& final(s).log@[n - 1]@ == text@
        &&& forall|i: int|
            0 <= i < n - 1 ==> (#[trigger] final(s).log@[i])@ == (*s).log@[i + (*s).log@.len() - (n
                - 1)]@
    } by {
        let before = crate::window::state::lines((*s).log@);
        let after = crate::window::state::lines(final(s).log@);
        assert(after.len() == final(s).log@.len());
        let n = after.len() as int;
        assert(after[n - 1] == final(s).log@[n - 1]@);
        assert forall|i: int| 0 <= i < n - 1 implies (#[trigger] final(s).log@[i])@ == (
        *s).log@[i + (*s).log@.len() - (n - 1)]@ by {
            assert(after[i] == final(s).log@[i]@);
            assert(after[i] == before[i + before.len() - (n - 1)]);
        }
    }
}

/// A connection shows the peer and clears the error. The end of a session forgets the
/// peer, the numbers and the plots; a failure is shown and turns the switch off, a plain
/// end does neither. A report adds a point to each plot and shows the new numbers.
pub proof fn a_side_shows_its_session(
    peer: &str,
    detail: &str,
    outcome: Result<(), String>,
    latency: FloatBits,
    loss: FloatBits,
    numbers: Vec<(String, String)>,
    line: String,
)
    ensures
        forall|s: &mut Side| #[trigger]
            call_ensures(Side::connected, (s, peer, detail), ()) ==> {
                &&& final(s).peer is Some && final(s).peer->0@ == peer@
                &&& final(s).error is None
                &&& final(s).wanted == (*s).wanted && final(s).running == (*s).running
            },
        forall|s: &mut Side| #[trigger]
            call_ensures(Side::finished, (s, outcome), ()) ==> {
                &&& final(s).peer is None && !final(s).running
                &&& final(s).numbers@.len() == 0 && final(s).latency@.len() == 0
                    && final(s).loss@.len() == 0 && final(s).detail@.len() == 0
                &&& outcome is Ok ==> final(s).error is None && final(s).wanted == (*s).wanted
                &&& outcome matches Err(e) ==> final(s).error == Some(e) && !final(s).wanted
                &&& final(s).log == (*s).log
            },
        forall|s: &mut Side| #[trigger]
            call_ensures(Side::forget_session, (s,), ()) ==> {
                &&& final(s).peer is None && final(s).numbers@.len() == 0
                &&& final(s).latency@.len() == 0 && final(s).loss@.len() == 0
                &&& final(s).detail@.len() == 0
                &&& final(s).wanted == (*s).wanted && final(s).running == (*s).running
                &&& final(s).error == (*s).error && final(s).log == (*s).log
            },
        forall|s: &mut Side|
            (#[trigger] call_ensures(Side::report, (s, latency, loss, numbers, line), ())) && (
            *s).latency@.len() <= 120 && (*s).loss@.len() <= 120 ==> {
                &&& (*s).latency@.len() < 120 ==> final(s).latency@ == (*s).latency@.push(latency)
                &&& (*s).latency@.len() == 120 ==> final(s).latency@ == (
                *s).latency@.drop_first().push(latency)
                &&& (*s).loss@.len() < 120 ==> final(s).loss@ == (*s).loss@.push(loss)
                &&& (*s).loss@.len() == 120 ==> final(s).loss@ == (*s).loss@.drop_first().push(
                    loss,
                )
                &&& final(s).numbers == numbers && final(s).detail == line
                &&& final(s).peer == (*s).peer && final(s).error == (*s).error
                &&& final(s).wanted == (*s).wanted && final(s).running == (*s).running
            },
        forall|s: Side| #[trigger]
            call_ensures(Side::new, (), s) ==> {
                &&& !s.wanted && !s.running && s.peer is None && s.error is None
                &&& s.log@.len() == 0 && s.numbers@.len() == 0 && s.latency@.len() == 0
            },
        forall|s: Shared| #[trigger]
            call_ensures(Shared::new, (), s) ==> s.shown_code is None && s.recv.peer is None
                && s.send.peer is None && !s.recv.running && !s.send.running,
{
    assert forall|s: &mut Side|
        (#[trigger] call_ensures(Side::report, (s, latency, loss, numbers, line), ())) && (
        *s).latency@.len() <= 120 && (*s).loss@.len() <= 120 implies {
        &&& (*s).latency@.len() == 120 ==> final(s).latency@ == (*s).latency@.drop_first().push(
            latency,
        )
        &&& (*s).loss@.len() == 120 ==> final(s).loss@ == (*s).loss@.drop_first().push(loss)
    } by {
        let (a, b) = ((*s).latency@, (*s).loss@);
        if a.len() == 120 {
            assert(a.push(latency).skip(1) =~= a.drop_first().push(latency));
        }
        if b.len() == 120 {
            assert(b.push(loss).skip(1) =~= b.drop_first().push(loss));
        }
    }
}

/// A side is connected where it has a peer, waiting where it runs without one, and
/// quiet else. It has plots where there is a point to plot.
pub proof fn a_side_has_a_headline(s: Side, r: Headline, plots: bool)
    requires
        call_ensures(Side::headline, (&s,), r),
        call_ensures(Side::has_plots, (&s,), plots),
    ensures
        s.peer is Some ==> r is Connected,
        s.peer is None && s.running ==> r is Waiting,
        s.peer is None && !s.running ==> r is Quiet,
        plots <==> s.latency@.len() > 0,
{
}

/// The two sides are apart: changing one leaves the other and the code alone; showing
/// and hiding a code leaves both sides alone.
pub proof fn the_two_sides_are_apart(which: Which, peer: &str, code: &str)
    ensures
        forall|s: &mut Shared, r: &mut Side| #[trigger]
            call_ensures(Shared::side, (s, which), r) ==> {
                &&& which is Recv ==> *r == (*s).recv && final(s).recv == *final(r) && final(s).send
                    == (*s).send
                &&& which is Send ==> *r == (*s).send && final(s).send == *final(r) && final(s).recv
                    == (*s).recv
                &&& final(s).shown_code == (*s).shown_code
            },
        forall|s: &mut Shared| #[trigger]
            call_ensures(Shared::show_code, (s, peer, code), ()) ==> {
                &&& final(s).shown_code is Some
                &&& final(s).shown_code->0.peer@ == peer@ && final(s).shown_code->0.code@ == code@
                &&& final(s).recv == (*s).recv && final(s).send == (*s).send
            },
        forall|s: &mut Shared| #[trigger]
            call_ensures(Shared::hide_code, (s,), ()) ==> {
                &&& final(s).shown_code is None
                &&& final(s).recv == (*s).recv && final(s).send == (*s).send
            },
{
}

/// A prompt for a code waits until it is answered, called off or out of time, and the
/// last of these comes first. An answer is taken where it has six digits. Whatever ends
/// it, it does not ask any more; and asking anew forgets what came before.
pub proof fn a_prompt_ends_in_one_way(
    timed_out: bool,
    r: Prompted,
    peer: &str,
    code: &str,
    awaiting: Option<String>,
)
    ensures
        forall|p: &mut CodePrompt| #[trigger]
            call_ensures(CodePrompt::look, (p, timed_out), r) ==> {
                &&& timed_out ==> r is TimedOut
                &&& !timed_out && (*p)@.cancelled ==> r is Cancelled
                &&& !timed_out && !(*p)@.cancelled && (*p)@.answer is None ==> r is Waiting
                    && final(p)@ == (*p)@
                &&& !timed_out && !(*p)@.cancelled && (*p)@.answer is Some ==> {
                    let digits = crate::laws::session::digits_of((*p)@.answer->0);
                    &&& r matches Prompted::Typed(typed)
                    &&& typed is Ok <==> digits.len() == 6
                    &&& typed matches Ok(c) ==> c@ == digits
                    &&& final(p)@.answer is None
                }
                &&& !(r is Waiting) ==> final(p)@.peer is None
            },
        forall|p: &mut CodePrompt| #[trigger]
            call_ensures(CodePrompt::ask, (p, peer), ()) ==> {
                &&& final(p)@.peer == Some(peer@)
                &&& final(p)@.answer is None && !final(p)@.cancelled
            },
        forall|p: &mut CodePrompt| #[trigger]
            call_ensures(CodePrompt::answer_code, (p, code), ()) ==> {
                &&& final(p)@.answer == Some(code@)
                &&& final(p)@.peer == (*p)@.peer && final(p)@.cancelled == (*p)@.cancelled
            },
        forall|p: &mut CodePrompt| #[trigger]
            call_ensures(CodePrompt::cancel_code, (p,), ()) ==> {
                &&& final(p)@.cancelled
                &&& final(p)@.peer == (*p)@.peer && final(p)@.answer == (*p)@.answer
            },
        forall|p: CodePrompt| #[trigger]
            call_ensures(CodePrompt::awaiting_code, (&p,), awaiting) ==> {
                &&& awaiting is Some <==> p@.peer is Some
                &&& awaiting is Some ==> awaiting->0@ == p@.peer->0
            },
        forall|p: CodePrompt| #[trigger]
            call_ensures(CodePrompt::new, (), p) ==> p@.peer is None && p@.answer is None
                && !p@.cancelled,
{
    assert((|c: char| '0' <= c <= '9') =~= (|c: char| crate::net::pair::is_digit(c)));
}

/// A prompt that was called off and one that ran out of time are told apart in words;
/// of the others nothing is said.
pub proof fn a_prompt_that_gave_up_says_why(
    outcome: Prompted,
    lang: Lang,
    cancelled: &'static str,
    nobody: &'static str,
    r: Option<&'static str>,
)
    requires
        call_ensures(gave_up, (&outcome, lang), r),
        call_ensures(t, (Key::ErrPairingCancelled, lang), cancelled),
        call_ensures(t, (Key::ErrNobodyTypedCode, lang), nobody),
    ensures
        outcome is Cancelled ==> r is Some && r->0@ == cancelled@,
        outcome is TimedOut ==> r is Some && r->0@ == nobody@,
        outcome is Waiting || outcome is Typed ==> r is None,
{
}

/// While nobody listens, that is what is said; else the latency and the loss are.
pub proof fn the_detail_tells_latency_and_loss(
    idle: bool,
    latency: &str,
    loss: &str,
    lang: Lang,
    nobody: &'static str,
    figures: String,
    r: String,
)
    requires
        call_ensures(detail_line, (idle, latency, loss, lang), r),
        call_ensures(t, (Key::NobodyListening, lang), nobody),
        call_ensures(t2, (Key::LatencyLoss, lang, latency, loss), figures),
    ensures
        idle ==> r@ == nobody@,
        !idle ==> r@ == figures@,
{
}

/// The receiver's figures stand in their order; what was thrown out and what was
/// missing are shown only where there was any. The sender's likewise.
pub proof fn figures_stand_in_their_order(
    f: RecvFigures,
    g: SendFigures,
    lang: Lang,
    r: Vec<(String, String)>,
    s: Vec<(String, String)>,
)
    requires
        call_ensures(recv_numbers, (f, lang), r),
        call_ensures(send_numbers, (g, lang), s),
    ensures
        r@.len() == 5 + (if f.dropped > 0 {
            1int
        } else {
            0
        }) + (if f.starved > 0 {
            1int
        } else {
            0
        }),
        r@[0].1@ == f.buffer@ && r@[1].1@ == f.ring@ && r@[2].1@ == f.jitter@,
        r@[4].1@ == f.drift@,
        crate::text::has(r@[3].1@, crate::text::decimal(f.recovered as nat)),
        f.dropped > 0 ==> crate::text::has(r@[5].1@, crate::text::decimal(f.dropped as nat)),
        f.starved > 0 ==> crate::text::has(
            r@.last().1@,
            crate::text::decimal(f.starved as nat),
        ),
        crate::text::has(s@[3].1@, crate::text::decimal(g.fec_pct as nat)),
        g.overruns > 0 ==> crate::text::has(s@[5].1@, crate::text::decimal(g.overruns as nat)),
        s@.len() == if g.overruns > 0 {
            6int
        } else {
            5
        },
        s@[0].1@ == g.bitrate@ && s@[1].1@ == g.peak@ && s@[2].1@ == g.jitter@,
        s@[4].1@ == crate::text::decimal(g.frames as nat),
{
    let a = crate::window::state::rows(r@);
    let b = crate::window::state::rows(s@);
    assert(a.len() == r@.len() && b.len() == s@.len());
    assert(a[0].1 == r@[0].1@ && a[1].1 == r@[1].1@ && a[2].1 == r@[2].1@ && a[4].1 == r@[4].1@);
    assert(a[3].1 == r@[3].1@ && b[3].1 == s@[3].1@);
    assert(a.last().1 == r@.last().1@);
    crate::i18n::filling_keeps_every_value(
        crate::i18n::catalog::text_of(Key::FramesN, lang),
        crate::text::decimal(f.recovered as nat),
    );
    crate::i18n::filling_keeps_every_value(
        crate::i18n::catalog::text_of(Key::FramesN, lang),
        crate::text::decimal(f.dropped as nat),
    );
    crate::i18n::filling_keeps_every_value(
        crate::i18n::catalog::text_of(Key::SamplesN, lang),
        crate::text::decimal(f.starved as nat),
    );
    crate::i18n::filling_keeps_every_value(
        crate::i18n::catalog::text_of(Key::PctLoss, lang),
        crate::text::decimal(g.fec_pct as nat),
    );
    crate::i18n::filling_keeps_every_value(
        crate::i18n::catalog::text_of(Key::SamplesN, lang),
        crate::text::decimal(g.overruns as nat),
    );
    if f.dropped > 0 {
        assert(a[5].1 == r@[5].1@);
    }
    if g.overruns > 0 {
        assert(b[5].1 == s@[5].1@);
    }
    assert(b[0].1 == s@[0].1@ && b[1].1 == s@[1].1@ && b[2].1 == s@[2].1@ && b[4].1 == s@[4].1@);
}

/// The times and limits that the window keeps to.
pub proof fn the_window_keeps_to_its_times()
    ensures
        crate::window::app::REFRESH_PEERS == 10_000_000_000,
        crate::window::app::REFRESH_PAIRED == 1_000_000_000,
        crate::window::app::GRACE == 300_000_000,
        crate::window::app::GRACE_POLL == 5_000_000,
        crate::window::state::HISTORY == 120,
        crate::window::state::LOG_LINES == 12,
        crate::window::state::CODE_TIMEOUT == 180_000_000_000,
{
}

} // verus!
