//! What the user is told.
use vstd::prelude::*;

use crate::audio::{DeviceInfo, Direction};
use crate::i18n::{t, Key, Lang};
use crate::net::discovery::Peer;
use crate::net::pair::format_code;
use crate::session::cli::{
    device_lines, device_row, forgotten_lines, found_lines, paired_lines, peer_row, verdict,
};
use crate::session::doctor::{
    bad, microphone, ok, paired, sink_elsewhere, sink_on_linux, Check, Grade, Report, SinkProbe,
};
use crate::session::recv::{peer_line, session_lines};
use crate::session::ui::Console;
use crate::text::number;

verus! {

/// A report is as good as its worst finding.
pub proof fn the_worst_finding_counts(report: Report, r: Grade)
    requires
        call_ensures(Report::worst, (&report,), r),
    ensures
        ({
            let all = report.checks@;
            let fails = exists|i: int| 0 <= i < all.len() && (#[trigger] all[i]).grade is Fail;
            let warns = exists|i: int| 0 <= i < all.len() && (#[trigger] all[i]).grade is Warn;
            &&& r is Fail <==> fails
            &&& r is Warn <==> !fails && warns
            &&& r is Good <==> !fails && !warns
        }),
{
    let all = report.checks@;
    assert forall|i: int| 0 <= i < all.len() implies ((#[trigger] all[i]).grade is Fail
        <==> all[i].grade == Grade::Fail) && (all[i].grade is Warn <==> all[i].grade
        == Grade::Warn) by {}
    if exists|i: int| 0 <= i < all.len() && (#[trigger] all[i]).grade is Fail {
        let i = choose|i: int| 0 <= i < all.len() && (#[trigger] all[i]).grade is Fail;
        assert(all[i].grade == Grade::Fail);
        assert(crate::session::doctor::some_has(all, Grade::Fail));
    }
    if exists|i: int| 0 <= i < all.len() && (#[trigger] all[i]).grade is Warn {
        let i = choose|i: int| 0 <= i < all.len() && (#[trigger] all[i]).grade is Warn;
        assert(all[i].grade == Grade::Warn);
        assert(crate::session::doctor::some_has(all, Grade::Warn));
    }
    if crate::session::doctor::some_has(all, Grade::Fail) {
        let i = choose|i: int| 0 <= i < all.len() && (#[trigger] all[i]).grade == Grade::Fail;
        assert(all[i].grade is Fail);
    }
    if crate::session::doctor::some_has(all, Grade::Warn) {
        let i = choose|i: int| 0 <= i < all.len() && (#[trigger] all[i]).grade == Grade::Warn;
        assert(all[i].grade is Warn);
    }
}

/// What is said at the end follows the worst finding, and only a failure fails the
/// command.
pub proof fn only_a_failure_fails_the_command(
    worst: Grade,
    lang: Lang,
    good: &'static str,
    partial: &'static str,
    broken: &'static str,
    r: (&'static str, bool),
)
    requires
        call_ensures(verdict, (worst, lang), r),
        call_ensures(t, (Key::DocAllGood, lang), good),
        call_ensures(t, (Key::DocPartial, lang), partial),
        call_ensures(t, (Key::DocBroken, lang), broken),
    ensures
        r.1 <==> worst is Fail,
        worst is Good ==> r.0@ == good@,
        worst is Warn ==> r.0@ == partial@,
        worst is Fail ==> r.0@ == broken@,
{
}

proof fn lemma_default_name(list: Seq<DeviceInfo>, n: nat, i: int)
    requires
        n <= list.len(),
        list.len() - n <= i < list.len(),
        list[i].is_default,
        forall|j: int| list.len() - n <= j < i ==> !(#[trigger] list[j]).is_default,
    ensures
        crate::session::doctor::default_name(list, n) == list[i].name@,
    decreases n,
{
    if i > list.len() - n {
        assert(!list[list.len() - n].is_default);
        lemma_default_name(list, (n - 1) as nat, i);
    }
}

/// A microphone is fine where there is one, and the default one is named; it is
/// something to know of where there is none, and a failure where the system cannot be
/// asked. Whatever is not fine comes with advice, and what is fine does not.
pub proof fn a_microphone_is_looked_for(
    inputs: Result<Vec<DeviceInfo>, String>,
    i: int,
    r: Check,
)
    requires
        call_ensures(microphone, (&inputs,), r),
    ensures
        inputs is Err ==> r.grade is Fail && crate::text::has(r.detail@, inputs->Err_0@),
        inputs matches Ok(list) ==> {
            &&& list@.len() > 0 ==> r.grade is Good
            &&& list@.len() == 0 ==> r.grade is Warn
            &&& 0 <= i < list@.len() && list@[i].is_default && (forall|j: int|
                0 <= j < i ==> !(#[trigger] list@[j]).is_default) ==> crate::text::has(
                r.detail@,
                list@[i].name@,
            )
        },
        r.grade is Good <==> r.advice@.len() == 0,
{
    reveal_strlit(
        "Ta maszyna może tylko odbierać. Do sprawdzenia ścieżki bez mikrofonu jest `--device tone`.",
    );
    reveal_strlit("Sprawdź, czy działa podsystem dźwięku.");
    let d = r.detail@;
    if let Err(e) = inputs {
        lemma_ends_with("nie mogę odpytać systemu: "@, e@);
    }
    if let Ok(list) = inputs {
        if 0 <= i < list@.len() && list@[i].is_default && forall|j: int|
            0 <= j < i ==> !(#[trigger] list@[j]).is_default {
            lemma_default_name(list@, list@.len(), i);
            let name = list@[i].name@;
            lemma_ends_with(d.take(d.len() - name.len()), name);
            assert(d =~= d.take(d.len() - name.len()) + name);
        }
    }
}

/// A text ends in its ending.
pub proof fn lemma_ends_with(front: Seq<char>, s: Seq<char>)
    ensures
        crate::text::has(front + s, s),
{
    let all = front + s;
    assert(all.subrange(front.len() as int, all.len() as int) =~= s);
    assert(crate::text::stands_at(all, s, front.len() as int));
}

proof fn lemma_cable_place(list: Seq<DeviceInfo>, from: nat)
    ensures
        match crate::session::doctor::cable_place(list, from) {
            Some(i) => from <= i < list.len() && crate::session::doctor::is_cable_at(
                list,
                i as int,
            ),
            None => forall|j: int|
                from <= j < list.len() ==> !#[trigger] crate::session::doctor::is_cable_at(list, j),
        },
    decreases list.len() - from,
{
    if from < list.len() && !crate::session::doctor::is_cable_at(list, from as int) {
        lemma_cable_place(list, from + 1);
    }
}

/// Off Linux the virtual input is fine exactly where an output is a known cable; else
/// there is advice. On Linux it is fine exactly where PipeWire works.
pub proof fn a_virtual_input_is_looked_for(
    outputs: Result<Vec<DeviceInfo>, String>,
    works: bool,
    r: Check,
    s: Check,
)
    requires
        call_ensures(sink_elsewhere, (&outputs,), r),
        call_ensures(sink_on_linux, (works,), s),
    ensures
        outputs is Err ==> r.grade is Fail && r.advice@.len() > 0,
        outputs matches Ok(list) ==> (r.grade is Good <==> exists|i: int|
            0 <= i < list@.len() && crate::audio::sink::is_cable(
                crate::text::lowercase((#[trigger] list@[i]).name@),
            )),
        outputs is Ok && !(r.grade is Good) ==> r.grade is Warn && r.advice@.len() > 0,
        s.grade is Good <==> works,
        !works ==> s.grade is Warn && s.advice@.len() > 0,
        works ==> s.advice@.len() == 0,
{
    reveal_strlit("Sprawdź, czy działa podsystem dźwięku.");
    reveal_strlit(
        "Odbieranie wymaga PipeWire: `systemctl --user status pipewire wireplumber`. Na czystym PulseAudio wskaż ujście przez --sink.",
    );
    reveal_strlit(
        "Potrzebny tylko do ODBIERANIA — żeby cudzy mikrofon pojawił się tu jako urządzenie.\n    Zainstaluj VB-CABLE (https://vb-audio.com/Cable/) i ustaw w nim Max Latency na 2048.\n    Do samego wysyłania nie jest potrzebny.",
    );
    if let Ok(list) = outputs {
        lemma_cable_place(list@, 0);
        if let Some(i) = crate::session::doctor::cable_place(list@, 0) {
            assert(crate::session::doctor::is_cable_at(list@, i as int));
            assert(crate::audio::sink::is_cable(crate::text::lowercase(list@[i as int].name@)));
        } else {
            assert forall|i: int| 0 <= i < list@.len() implies !crate::audio::sink::is_cable(
                crate::text::lowercase((#[trigger] list@[i]).name@),
            ) by {
                assert(!crate::session::doctor::is_cable_at(list@, i));
            }
        }
    }
}

/// Pairing is fine where there is a pair, and every one is named.
pub proof fn pairs_are_looked_for(peers: Result<Vec<String>, String>, i: int, r: Check)
    requires
        call_ensures(paired, (&peers,), r),
    ensures
        peers is Err ==> r.grade is Fail,
        peers matches Ok(names) ==> {
            &&& r.grade is Good <==> names@.len() > 0
            &&& r.grade is Warn <==> names@.len() == 0
            &&& 0 <= i < names@.len() ==> crate::text::has(r.detail@, names@[i]@)
        },
{
    if let Ok(names) = peers {
        if 0 <= i < names@.len() {
            crate::laws::audio::lemma_joined_has(crate::text::views(names@), ", "@, i);
        }
    }
}

/// The look has three findings: the microphone, the virtual input and the pairs, in this
/// order, each as it is found on its own.
pub proof fn the_look_has_three_findings(
    inputs: Result<Vec<DeviceInfo>, String>,
    probe: SinkProbe,
    peers: Result<Vec<String>, String>,
    r: Report,
    first: Check,
    works: Check,
    cable: Check,
    third: Check,
)
    requires
        call_ensures(crate::session::doctor::check, (&inputs, &probe, &peers), r),
        call_ensures(microphone, (&inputs,), first),
        probe matches SinkProbe::PipeWire(b) ==> call_ensures(sink_on_linux, (b,), works),
        probe matches SinkProbe::Outputs(o) ==> call_ensures(sink_elsewhere, (&o,), cable),
        call_ensures(paired, (&peers,), third),
    ensures
        r.checks@.len() == 3,
        r.checks@[0].grade == first.grade && r.checks@[0].detail@ == first.detail@,
        probe is PipeWire ==> r.checks@[1].grade == works.grade && r.checks@[1].detail@
            == works.detail@,
        probe is Outputs ==> r.checks@[1].grade == cable.grade && r.checks@[1].detail@
            == cable.detail@,
        r.checks@[2].grade == third.grade && r.checks@[2].detail@ == third.detail@,
{
    assert(r.checks@[0]@ == first@);
    assert(r.checks@[2]@ == third@);
    if probe is PipeWire {
        assert(r.checks@[1]@ == works@);
    } else {
        assert(r.checks@[1]@ == cable@);
    }
}

/// A finding is told on one line that begins with the mark of its grade and names it;
/// advice follows on the next, where there is any.
pub proof fn a_finding_is_told_with_its_mark(
    name: &str,
    detail: String,
    advice: &str,
    grade: Grade,
    fine: Check,
    other: Check,
    mark: &'static str,
    line: String,
)
    requires
        call_ensures(ok, (name, detail), fine),
        call_ensures(bad, (grade, name, detail, advice), other),
        call_ensures(Grade::mark, (grade,), mark),
        call_ensures(Check::line, (&other,), line),
    ensures
        fine.grade is Good && fine.name@ == name@ && fine.detail@ == detail@,
        fine.advice@.len() == 0,
        other.grade == grade && other.name@ == name@ && other.detail@ == detail@,
        other.advice@ == advice@,
        mark@ == line@.take(mark@.len() as int),
        grade is Good ==> mark@ == "✓"@,
        grade is Warn ==> mark@ == "•"@,
        grade is Fail ==> mark@ == "✗"@,
        advice@.len() > 0 ==> crate::text::has(line@, advice@),
{
    crate::session::doctor::advice_shows_up_only_when_there_is_something_to_do(other@);
    assert(mark@ =~= line@.take(mark@.len() as int));
}

/// A device is listed with an at sign and its number, under which it can be asked for,
/// and with its name; a star marks the default one, and only that.
pub proof fn a_device_is_listed_under_its_number(
    d: DeviceInfo,
    lang: Lang,
    written: String,
    r: String,
)
    requires
        call_ensures(device_row, (&d, lang), r),
        call_ensures(number, (d.index as u64,), written),
    ensures
        r@.len() >= 3 + written@.len(),
        r@[0] == if d.is_default {
            '*'
        } else {
            ' '
        },
        r@[2] == '@',
        r@.subrange(3, (3 + written@.len()) as int) == written@,
        crate::text::has(r@, d.name@),
        d.default_sample_rate matches Some(rate) ==> crate::text::has(
            r@,
            crate::text::decimal(rate as nat) + " Hz"@,
        ),
        d.channels matches Some(n) ==> crate::text::has(
            r@,
            crate::text::decimal(n as nat) + " ch"@,
        ),
        crate::audio::sink::is_cable(crate::text::lowercase(d.name@)) ==> crate::text::has(
            r@,
            crate::i18n::catalog::text_of(Key::CliVirtualCable, lang),
        ),
{
    reveal_strlit("* @");
    reveal_strlit("  @");
    let index = crate::text::decimal(d.index as nat);
    let head = (if d.is_default {
        "* @"@
    } else {
        "  @"@
    });
    let rate = crate::session::cli::known(
        match d.default_sample_rate {
            Some(r) => Some(r as nat),
            None => None,
        },
        " Hz"@,
    );
    let channels = crate::session::cli::known(
        match d.channels {
            Some(c) => Some(c as nat),
            None => None,
        },
        " ch"@,
    );
    let mark = (if crate::audio::sink::is_cable(crate::text::lowercase(d.name@)) {
        crate::session::cli::said(Key::CliVirtualCable, lang)
    } else {
        Seq::empty()
    });
    lemma_row(
        head,
        index,
        crate::session::cli::room(index, 2),
        d.name@,
        crate::session::cli::room(d.name@, 48),
        crate::session::cli::room(rate, 9),
        rate,
        crate::session::cli::room(channels, 6),
        channels,
        mark,
    );
}

/// What begins and what stands in a row of the list of devices.
proof fn lemma_row(
    head: Seq<char>,
    index: Seq<char>,
    a: Seq<char>,
    name: Seq<char>,
    b: Seq<char>,
    c: Seq<char>,
    rate: Seq<char>,
    e: Seq<char>,
    channels: Seq<char>,
    mark: Seq<char>,
)
    requires
        head.len() == 3,
    ensures
        ({
            let r = head + index + a + " "@ + name + b + " "@ + c + rate + "  "@ + e + channels
                + mark;
            &&& r.len() >= 3 + index.len()
            &&& r[0] == head[0] && r[2] == head[2]
            &&& r.subrange(3, (3 + index.len()) as int) == index
            &&& crate::text::has(r, name)
            &&& crate::text::has(r, rate)
            &&& crate::text::has(r, channels)
            &&& crate::text::has(r, mark)
        }),
{
    let front = head + index + a + " "@;
    let s1 = front + name;
    lemma_ends_with(front, name);
    lemma_longer(s1, b, name);
    lemma_longer(s1 + b, " "@, name);
    lemma_longer(s1 + b + " "@, c, name);
    lemma_longer(s1 + b + " "@ + c, rate, name);
    lemma_longer(s1 + b + " "@ + c + rate, "  "@, name);
    lemma_longer(s1 + b + " "@ + c + rate + "  "@, e, name);
    lemma_longer(s1 + b + " "@ + c + rate + "  "@ + e, channels, name);
    lemma_longer(s1 + b + " "@ + c + rate + "  "@ + e + channels, mark, name);
    let s2 = s1 + b + " "@ + c;
    lemma_ends_with(s2, rate);
    lemma_longer(s2 + rate, "  "@, rate);
    lemma_longer(s2 + rate + "  "@, e, rate);
    lemma_longer(s2 + rate + "  "@ + e, channels, rate);
    lemma_longer(s2 + rate + "  "@ + e + channels, mark, rate);
    let s3 = s2 + rate + "  "@ + e;
    lemma_ends_with(s3, channels);
    lemma_longer(s3 + channels, mark, channels);
    lemma_ends_with(s3 + channels, mark);
    let r = s1 + b + " "@ + c + rate + "  "@ + e + channels + mark;
    assert(r.subrange(3, (3 + index.len()) as int) =~= index);
}

/// What stands in a text stands in every text that begins with it.
proof fn lemma_longer(s: Seq<char>, more: Seq<char>, part: Seq<char>)
    requires
        crate::text::has(s, part),
    ensures
        crate::text::has(s + more, part),
{
    let at = choose|at: int| crate::text::stands_at(s, part, at);
    let all = s + more;
    assert(all.subrange(at, at + part.len()) =~= s.subrange(at, at + part.len()));
    assert(crate::text::stands_at(all, part, at));
}

/// A list of devices has a row for each, in their order, after an empty line and a
/// heading; where there is none, that is said.
pub proof fn every_device_is_listed(
    dir: Direction,
    devices: &Vec<DeviceInfo>,
    lang: Lang,
    i: int,
    row: String,
    r: Vec<String>,
)
    requires
        call_ensures(device_lines, (dir, devices, lang), r),
        0 <= i < devices@.len() ==> call_ensures(device_row, (&devices@[i], lang), row),
    ensures
        devices@.len() > 0 ==> r@.len() == devices@.len() + 2,
        devices@.len() == 0 ==> r@.len() == 3,
        0 <= i < devices@.len() ==> r@[i + 2]@ == row@,
{
    let lines = crate::text::views(r@);
    assert(lines.len() == r@.len());
    if 0 <= i < devices@.len() {
        assert(lines[i + 2] == r@[i + 2]@);
    }
}

/// Every receiver that was found is listed with its name and address, in order.
pub proof fn every_receiver_is_listed(
    peers: &Vec<Peer>,
    addrs: &Vec<String>,
    lang: Lang,
    i: int,
    addr: &str,
    row: String,
    r: Vec<String>,
)
    requires
        call_ensures(found_lines, (peers, addrs, lang), r),
        addrs@.len() == peers@.len(),
        0 <= i < peers@.len() ==> addr@ == addrs@[i]@ && call_ensures(
            peer_row,
            (&peers@[i], addr, lang),
            row,
        ),
    ensures
        peers@.len() > 0 ==> r@.len() == peers@.len() + 4,
        0 <= i < peers@.len() ==> {
            &&& r@[i + 2]@ == row@
            &&& crate::text::has(row@, peers@[i].name@)
            &&& crate::text::has(row@, addrs@[i]@)
        },
{
    let lines = crate::text::views(r@);
    assert(lines.len() == r@.len());
    if 0 <= i < peers@.len() {
        assert(lines[i + 2] == r@[i + 2]@);
        assert(crate::text::views(addrs@)[i] == addrs@[i]@);
        let name = peers@[i].name@;
        let other = (if peers@[i].version == crate::proto::PROTOCOL_VERSION {
            Seq::empty()
        } else {
            crate::i18n::filled(
                crate::session::cli::said(Key::CliProtocolInstead, lang),
                seq![
                    crate::text::decimal(peers@[i].version as nat),
                    crate::text::decimal(crate::proto::PROTOCOL_VERSION as nat),
                ],
            )
        });
        let (a, b) = (crate::session::cli::room(name, 24), crate::session::cli::room(addr@, 24));
        lemma_between("  "@, name, a);
        lemma_longer("  "@ + name + a, " "@, name);
        lemma_longer("  "@ + name + a + " "@, addr@, name);
        lemma_longer("  "@ + name + a + " "@ + addr@, b, name);
        lemma_longer("  "@ + name + a + " "@ + addr@ + b, other, name);
        lemma_between("  "@ + name + a + " "@, addr@, b);
        lemma_longer("  "@ + name + a + " "@ + addr@ + b, other, addr@);
    }
}

/// Everyone we are paired with is listed, one on a line, in order.
pub proof fn every_pair_is_listed(
    names: &Vec<String>,
    path: &str,
    lang: Lang,
    i: int,
    r: Vec<String>,
)
    requires
        call_ensures(paired_lines, (names, path, lang), r),
    ensures
        names@.len() > 0 ==> r@.len() == names@.len() + 4,
        names@.len() == 0 ==> r@.len() == 2,
        0 <= i < names@.len() ==> r@[i + 1]@ == seq![' ', ' '] + names@[i]@,
{
    let lines = crate::text::views(r@);
    assert(lines.len() == r@.len());
    if 0 <= i < names@.len() {
        assert(lines[i + 1] == r@[i + 1]@);
        reveal_strlit("  ");
        assert("  "@ =~= seq![' ', ' ']);
        assert(crate::text::views(names@)[i] == names@[i]@);
    }
}

/// A name that was forgotten is told with what is left to do; one under which nothing
/// was kept is told on one line.
pub proof fn what_was_forgotten_is_told(forgot: bool, peer: &str, lang: Lang, r: Vec<String>)
    requires
        call_ensures(forgotten_lines, (forgot, peer, lang), r),
    ensures
        forgot ==> r@.len() == 2,
        !forgot ==> r@.len() == 1,
        crate::text::has(r@[0]@, peer@),
{
    let lines = crate::text::views(r@);
    assert(lines.len() == r@.len());
    assert(lines[0] == r@[0]@);
    crate::i18n::filling_keeps_every_value(
        crate::i18n::catalog::text_of(
            if forgot {
                Key::CliForgotten
            } else {
                Key::CliNothingUnder
            },
            lang,
        ),
        peer@,
    );
}

/// The code is shown in its groups, with who asks for it; the connection with who and
/// what; and the address behind the name.
pub proof fn the_code_is_shown_in_groups(
    console: Console,
    peer: &str,
    code: &str,
    grouped: String,
    r: String,
    line: String,
    ip: &str,
)
    requires
        call_ensures(Console::show_code, (&console, peer, code), r),
        call_ensures(format_code, (code,), grouped),
        call_ensures(peer_line, (peer, ip), line),
    ensures
        crate::text::has(r@, peer@),
        crate::text::has(r@, grouped@),
        line@ == peer@ + " ("@ + ip@ + ")"@,
{
    let a = "\n„"@;
    let b = "” prosi o sparowanie.\n  KOD: "@;
    assert(r@.subrange(a.len() as int, (a.len() + peer@.len()) as int) =~= peer@);
    assert(crate::text::stands_at(r@, peer@, a.len() as int));
    let at = (a.len() + peer@.len() + b.len()) as int;
    assert(r@.subrange(at, at + grouped@.len()) =~= grouped@);
    assert(crate::text::stands_at(r@, grouped@, at));
}

/// Nothing is added to the line of figures where nothing went wrong.
pub proof fn trouble_alone_is_told(console: Console, starved: u64, dropped: u64, r: String)
    requires
        call_ensures(Console::recv_tail, (&console, starved, dropped), r),
    ensures
        starved == 0 && dropped == 0 <==> r@.len() == 0,
        starved > 0 ==> crate::text::has(r@, crate::text::decimal(starved as nat)),
        dropped > 0 ==> crate::text::has(r@, crate::text::decimal(dropped as nat)),
{
    reveal_strlit("   NIEDOMIAR ");
    reveal_strlit("   WYRZUCONO ");
    let (a, b) = ("   NIEDOMIAR "@, "   WYRZUCONO "@);
    let (s, d) = (crate::text::decimal(starved as nat), crate::text::decimal(dropped as nat));
    if starved > 0 {
        assert(r@.subrange(a.len() as int, (a.len() + s.len()) as int) =~= s);
        assert(crate::text::stands_at(r@, s, a.len() as int));
    }
    if dropped > 0 {
        let at = if starved > 0 {
            (a.len() + s.len() + b.len()) as int
        } else {
            b.len() as int
        };
        assert(r@.subrange(at, at + d.len()) =~= d);
        assert(crate::text::stands_at(r@, d, at));
    }
}

/// A session opens with a word on conversion where the card has another rate than ours,
/// and with advice for a cable where the sink is one that needs it.
pub proof fn a_session_opens_with_what_is_worth_knowing(
    sink: &str,
    rate: u32,
    is_input: bool,
    lang: Lang,
    r: Vec<String>,
)
    requires
        call_ensures(session_lines, (sink, rate, is_input, lang), r),
    ensures
        r@.len() == 1 + (if rate != 48_000 {
            1int
        } else {
            0
        }) + (if !is_input && crate::text::has(
            crate::text::lowercase(sink@),
            "cable input"@,
        ) {
            1int
        } else {
            0
        }),
{
    assert(crate::text::views(r@).len() == r@.len());
}

/// A part of a text between two others stands in it.
pub proof fn lemma_between(a: Seq<char>, s: Seq<char>, b: Seq<char>)
    ensures
        crate::text::has(a + s + b, s),
{
    let all = a + s + b;
    assert(all.subrange(a.len() as int, (a.len() + s.len()) as int) =~= s);
    assert(crate::text::stands_at(all, s, a.len() as int));
}

} // verus!
