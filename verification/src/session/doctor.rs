//! Whether a machine is ready, for sending and for receiving apart.
//!
//! The two roles need different things, and that is where most misunderstandings
//! come from: sending needs a microphone only, receiving needs a place into which
//! someone else's sound can be fed so that it passes for a microphone. On Linux
//! we make that ourselves, on Windows it takes someone else's driver.
//!
//! What is there is told from the list of devices and not from a registry or a
//! driver's files: we ask for just what the program will use later, so the answer
//! cannot miss reality.
use vstd::prelude::*;

use crate::audio::sink::looks_like_virtual_cable;
use crate::audio::DeviceInfo;
use crate::i18n::{devices, Lang};
use crate::text::{append, push_joined};

verus! {

/// How one thing to check came out.
#[derive(Debug, Clone, Copy, PartialEq, Eq, Structural)]
pub enum Grade {
    /// It is there and works.
    Good,
    /// One can live without it, but it is worth knowing.
    Warn,
    /// This role will not work until it is mended.
    Fail,
}

impl Grade {
    /// The mark of a grade.
    pub open spec fn sign(self) -> Seq<char> {
        match self {
            Grade::Good => "✓"@,
            Grade::Warn => "•"@,
            Grade::Fail => "✗"@,
        }
    }

    pub fn mark(self) -> (r: &'static str)
        ensures
            r@ == self.sign(),
    {
        match self {
            Grade::Good => "✓",
            Grade::Warn => "•",
            Grade::Fail => "✗",
        }
    }
}

#[derive(Debug)]
pub struct Check {
    pub name: String,
    pub grade: Grade,
    /// What exactly we found, or what is missing.
    pub detail: String,
    /// What to do about it. Empty when there is nothing to do.
    pub advice: String,
}

/// A check by its characters.
pub struct Finding {
    pub name: Seq<char>,
    pub grade: Grade,
    pub detail: Seq<char>,
    pub advice: Seq<char>,
}

impl View for Check {
    type V = Finding;

    open spec fn view(&self) -> Finding {
        Finding {
            name: self.name@,
            grade: self.grade,
            detail: self.detail@,
            advice: self.advice@,
        }
    }
}

/// How wide the column of names is.
pub const NAME_WIDTH: usize = 24;

/// As many spaces as a name lacks to fill its column.
pub open spec fn padding(name: Seq<char>) -> Seq<char> {
    Seq::new(
        if name.len() < NAME_WIDTH {
            (NAME_WIDTH - name.len()) as nat
        } else {
            0
        },
        |i: int| ' ',
    )
}

impl Finding {
    /// The line of a check, with the advice below where there is any.
    pub open spec fn line(self) -> Seq<char> {
        let head = self.grade.sign() + " "@ + self.name + padding(self.name) + " "@ + self.detail;
        if self.advice.len() == 0 {
            head
        } else {
            head + "\n    "@ + self.advice
        }
    }
}

impl Check {
    /// The line of a check.
    pub fn line(&self) -> (r: String)
        ensures
            r@ == self@.line(),
    {
        let mut out = String::new();
        append(&mut out, self.grade.mark());
        append(&mut out, " ");
        append(&mut out, self.name.as_str());
        let ghost before = out@;
        let mut width: usize = self.name.as_str().unicode_len();
        let ghost start = width;
        while width < NAME_WIDTH
            invariant
                start == self.name@.len(),
                start <= width,
                width <= NAME_WIDTH || width == start,
                out@ == before + Seq::new((width - start) as nat, |i: int| ' '),
            decreases NAME_WIDTH - width,
        {
            out.push(' ');
            width += 1;
            assert(out@ =~= before + Seq::new((width - start) as nat, |i: int| ' '));
        }
        assert(out@ =~= before + padding(self.name@));
        append(&mut out, " ");
        append(&mut out, self.detail.as_str());
        if self.advice.as_str().unicode_len() > 0 {
            append(&mut out, "\n    ");
            append(&mut out, self.advice.as_str());
        }
        assert(out@ =~= self@.line());
        out
    }
}

/// Something that is there and works.
pub fn ok(name: &str, detail: String) -> (r: Check)
    ensures
        r@ == (Finding { name: name@, grade: Grade::Good, detail: detail@, advice: Seq::empty() }),
{
    let advice = String::new();
    assert(advice@ =~= Seq::empty());
    Check { name: name.to_owned(), grade: Grade::Good, detail, advice }
}

/// Something to complain about.
pub fn bad(grade: Grade, name: &str, detail: String, advice: &str) -> (r: Check)
    ensures
        r@ == (Finding { name: name@, grade, detail: detail@, advice: advice@ }),
{
    Check { name: name.to_owned(), grade, detail, advice: advice.to_owned() }
}

/// A full look: what works, what is missing, and for which role.
#[derive(Debug)]
pub struct Report {
    pub checks: Vec<Check>,
}

impl Default for Report {
    fn default() -> (r: Self)
        ensures
            r.checks@.len() == 0,
    {
        Report { checks: Vec::new() }
    }
}

/// Some check has this grade.
pub open spec fn some_has(checks: Seq<Check>, grade: Grade) -> bool {
    exists|i: int| 0 <= i < checks.len() && (#[trigger] checks[i]).grade == grade
}

impl Report {
    /// The worst grade of all: by it we know whether there is anything to say.
    pub fn worst(&self) -> (r: Grade)
        ensures
            r == if some_has(self.checks@, Grade::Fail) {
                Grade::Fail
            } else if some_has(self.checks@, Grade::Warn) {
                Grade::Warn
            } else {
                Grade::Good
            },
    {
        let mut worst = Grade::Good;
        let mut i: usize = 0;
        while i < self.checks.len()
            invariant
                i <= self.checks@.len(),
                worst == if some_has(self.checks@.take(i as int), Grade::Fail) {
                    Grade::Fail
                } else if some_has(self.checks@.take(i as int), Grade::Warn) {
                    Grade::Warn
                } else {
                    Grade::Good
                },
            decreases self.checks@.len() - i,
        {
            let grade = self.checks[i].grade;
            proof {
                let before = self.checks@.take(i as int);
                let after = self.checks@.take(i + 1);
                assert(after[i as int].grade == grade);
                assert forall|g: Grade| #[trigger]
                    some_has(after, g) <==> some_has(before, g) || grade == g by {
                    if some_has(before, g) {
                        let k = choose|k: int|
                            0 <= k < before.len() && (#[trigger] before[k]).grade == g;
                        assert(after[k].grade == g);
                    }
                    if some_has(after, g) && grade != g {
                        let k = choose|k: int|
                            0 <= k < after.len() && (#[trigger] after[k]).grade == g;
                        assert(before[k].grade == g);
                    }
                }
            }
            match grade {
                Grade::Fail => {
                    worst = Grade::Fail;
                },
                Grade::Warn => {
                    if worst != Grade::Fail {
                        worst = Grade::Warn;
                    }
                },
                Grade::Good => {},
            }
            i += 1;
        }
        assert(self.checks@.take(i as int) =~= self.checks@);
        worst
    }
}

/// The name of the default device, or of the first one.
pub open spec fn default_name(list: Seq<DeviceInfo>, n: nat) -> Seq<char>
    decreases n,
{
    if n == 0 {
        list[0].name@
    } else if list[list.len() - n].is_default {
        list[list.len() - n].name@
    } else {
        default_name(list, (n - 1) as nat)
    }
}

/// What a list of inputs says about the microphone.
pub open spec fn microphone_found(inputs: Result<Seq<DeviceInfo>, Seq<char>>) -> Finding {
    match inputs {
        Ok(list) => if list.len() > 0 {
            Finding {
                name: "mikrofon"@,
                grade: Grade::Good,
                detail: crate::text::decimal(list.len()) + seq![' ']
                    + crate::i18n::catalog::text_of(
                    crate::i18n::device_form(Lang::Pl, list.len()),
                    Lang::Pl,
                ) + ", domyślne: "@ + default_name(list, list.len()),
                advice: Seq::empty(),
            }
        } else {
            Finding {
                name: "mikrofon"@,
                grade: Grade::Warn,
                detail: "system nie pokazuje żadnego wejścia"@,
                advice:
                    "Ta maszyna może tylko odbierać. Do sprawdzenia ścieżki bez mikrofonu jest `--device tone`."@,
            }
        },
        Err(e) => Finding {
            name: "mikrofon"@,
            grade: Grade::Fail,
            detail: "nie mogę odpytać systemu: "@ + e,
            advice: "Sprawdź, czy działa podsystem dźwięku."@,
        },
    }
}

/// A list of devices, or why there is none, by its characters.
pub open spec fn listed(devices: Result<Vec<DeviceInfo>, String>) -> Result<
    Seq<DeviceInfo>,
    Seq<char>,
> {
    match devices {
        Ok(list) => Ok(list@),
        Err(e) => Err(e@),
    }
}

/// Whether there is something to send. No microphone does not hinder receiving,
/// which may be this machine's whole role, so that is a warning and no failure.
pub fn microphone(inputs: &Result<Vec<DeviceInfo>, String>) -> (r: Check)
    ensures
        r@ == microphone_found(listed(*inputs)),
{
    match inputs {
        Ok(list) => {
            let n: usize = list.len();
            if n == 0 {
                return bad(
                    Grade::Warn,
                    "mikrofon",
                    "system nie pokazuje żadnego wejścia".to_owned(),
                    "Ta maszyna może tylko odbierać. Do sprawdzenia ścieżki bez mikrofonu jest `--device tone`.",
                );
            }
            let mut at: usize = 0;
            while at < n && !list[at].is_default
                invariant
                    at <= n == list@.len(),
                    n > 0,
                    default_name(list@, n as nat) == default_name(list@, (n - at) as nat),
                decreases n - at,
            {
                at += 1;
            }
            let chosen: usize = if at < n {
                at
            } else {
                0
            };
            let mut detail = devices(n, Lang::Pl);
            append(&mut detail, ", domyślne: ");
            append(&mut detail, list[chosen].name.as_str());
            assert(detail@ =~= microphone_found(listed(*inputs)).detail);
            ok("mikrofon", detail)
        },
        Err(e) => {
            let mut detail = String::new();
            append(&mut detail, "nie mogę odpytać systemu: ");
            append(&mut detail, e.as_str());
            assert(detail@ =~= "nie mogę odpytać systemu: "@ + e@);
            bad(Grade::Fail, "mikrofon", detail, "Sprawdź, czy działa podsystem dźwięku.")
        },
    }
}

/// What it says about the sink that PipeWire works, or does not.
pub open spec fn pipewire_found(works: bool) -> Finding {
    if works {
        Finding {
            name: "wejście wirtualne"@,
            grade: Grade::Good,
            detail: "PipeWire działa — mikrofon „MicBridge” powstaje sam"@,
            advice: Seq::empty(),
        }
    } else {
        Finding {
            name: "wejście wirtualne"@,
            grade: Grade::Warn,
            detail: "nie widzę PipeWire"@,
            advice:
                "Odbieranie wymaga PipeWire: `systemctl --user status pipewire wireplumber`. Na czystym PulseAudio wskaż ujście przez --sink."@,
        }
    }
}

/// Whether there is a place to feed someone else's sound into, on Linux. We make
/// a node of our own there, so the one question is whether PipeWire works at all.
pub fn sink_on_linux(pipewire_works: bool) -> (r: Check)
    ensures
        r@ == pipewire_found(pipewire_works),
{
    if pipewire_works {
        ok(
            "wejście wirtualne",
            "PipeWire działa — mikrofon „MicBridge” powstaje sam".to_owned(),
        )
    } else {
        bad(
            Grade::Warn,
            "wejście wirtualne",
            "nie widzę PipeWire".to_owned(),
            "Odbieranie wymaga PipeWire: `systemctl --user status pipewire wireplumber`. Na czystym PulseAudio wskaż ujście przez --sink.",
        )
    }
}

/// The device at a place looks like a virtual cable.
pub open spec fn is_cable_at(list: Seq<DeviceInfo>, i: int) -> bool {
    crate::audio::sink::is_cable(crate::text::lowercase(list[i].name@))
}

/// The place of the first device from a place on that looks like a virtual
/// cable.
pub open spec fn cable_place(list: Seq<DeviceInfo>, from: nat) -> Option<nat>
    decreases list.len() - from,
{
    if from >= list.len() {
        None
    } else if is_cable_at(list, from as int) {
        Some(from)
    } else {
        cable_place(list, from + 1)
    }
}

/// What a list of outputs says about a virtual cable.
pub open spec fn cable_found(outputs: Result<Seq<DeviceInfo>, Seq<char>>) -> Finding {
    match outputs {
        Ok(list) => match cable_place(list, 0) {
            Some(i) => Finding {
                name: "wejście wirtualne"@,
                grade: Grade::Good,
                detail: list[i as int].name@ + " — gotowe"@,
                advice: Seq::empty(),
            },
            None => Finding {
                name: "wejście wirtualne"@,
                grade: Grade::Warn,
                detail: "brak wirtualnego kabla"@,
                advice: NO_CABLE_ADVICE@,
            },
        },
        Err(e) => Finding {
            name: "wejście wirtualne"@,
            grade: Grade::Fail,
            detail: "nie mogę odpytać systemu: "@ + e,
            advice: "Sprawdź, czy działa podsystem dźwięku."@,
        },
    }
}

/// What to do about a missing cable.
pub const NO_CABLE_ADVICE: &'static str = "Potrzebny tylko do ODBIERANIA — żeby cudzy mikrofon pojawił się tu jako urządzenie.\n    Zainstaluj VB-CABLE (https://vb-audio.com/Cable/) i ustaw w nim Max Latency na 2048.\n    Do samego wysyłania nie jest potrzebny.";

/// Whether there is a place to feed someone else's sound into, off Linux: a
/// virtual cable. Without one this machine can still send its own microphone,
/// which is all that many want.
pub fn sink_elsewhere(outputs: &Result<Vec<DeviceInfo>, String>) -> (r: Check)
    ensures
        r@ == cable_found(listed(*outputs)),
{
    match outputs {
        Ok(list) => {
            let mut i: usize = 0;
            while i < list.len()
                invariant
                    i <= list@.len(),
                    listed(*outputs) == Ok::<Seq<DeviceInfo>, Seq<char>>(list@),
                    cable_place(list@, 0) == cable_place(list@, i as nat),
                decreases list@.len() - i,
            {
                if looks_like_virtual_cable(list[i].name.as_str()) {
                    let mut detail = list[i].name.clone();
                    append(&mut detail, " — gotowe");
                    return ok("wejście wirtualne", detail);
                }
                i += 1;
            }
            bad(
                Grade::Warn,
                "wejście wirtualne",
                "brak wirtualnego kabla".to_owned(),
                NO_CABLE_ADVICE,
            )
        },
        Err(e) => {
            let mut detail = String::new();
            append(&mut detail, "nie mogę odpytać systemu: ");
            append(&mut detail, e.as_str());
            assert(detail@ =~= "nie mogę odpytać systemu: "@ + e@);
            bad(
                Grade::Fail,
                "wejście wirtualne",
                detail,
                "Sprawdź, czy działa podsystem dźwięku.",
            )
        },
    }
}

/// What the names of paired machines, or why they cannot be read, come to.
pub open spec fn paired_found(peers: Result<Seq<Seq<char>>, Seq<char>>) -> Finding {
    match peers {
        Ok(names) => if names.len() == 0 {
            Finding {
                name: "parowanie"@,
                grade: Grade::Warn,
                detail: "nic jeszcze nie sparowane"@,
                advice:
                    "Dzieje się samo przy pierwszym połączeniu: odbiornik pokaże kod, nadajnik o niego poprosi."@,
            }
        } else {
            Finding {
                name: "parowanie"@,
                grade: Grade::Good,
                detail: crate::text::joined(names, ", "@),
                advice: Seq::empty(),
            }
        },
        Err(e) => Finding {
            name: "parowanie"@,
            grade: Grade::Fail,
            detail: "nie mogę odczytać kluczy: "@ + e,
            advice: "Sprawdź prawa do katalogu konfiguracyjnego."@,
        },
    }
}

/// The names of paired machines, or why they cannot be read, by their
/// characters.
pub open spec fn named(peers: Result<Vec<String>, String>) -> Result<Seq<Seq<char>>, Seq<char>> {
    match peers {
        Ok(names) => Ok(crate::text::views(names@)),
        Err(e) => Err(e@),
    }
}

/// Who this machine is already paired with.
pub fn paired(peers: &Result<Vec<String>, String>) -> (r: Check)
    ensures
        r@ == paired_found(named(*peers)),
{
    match peers {
        Ok(names) => {
            if names.len() == 0 {
                bad(
                    Grade::Warn,
                    "parowanie",
                    "nic jeszcze nie sparowane".to_owned(),
                    "Dzieje się samo przy pierwszym połączeniu: odbiornik pokaże kod, nadajnik o niego poprosi.",
                )
            } else {
                let mut detail = String::new();
                push_joined(&mut detail, names, ", ");
                assert(detail@ =~= crate::text::joined(crate::text::views(names@), ", "@));
                ok("parowanie", detail)
            }
        },
        Err(e) => {
            let mut detail = String::new();
            append(&mut detail, "nie mogę odczytać kluczy: ");
            append(&mut detail, e.as_str());
            assert(detail@ =~= "nie mogę odczytać kluczy: "@ + e@);
            bad(
                Grade::Fail,
                "parowanie",
                detail,
                "Sprawdź prawa do katalogu konfiguracyjnego.",
            )
        },
    }
}

/// What was asked about the place to feed sound into.
pub enum SinkProbe {
    /// On Linux: whether PipeWire works.
    PipeWire(bool),
    /// Elsewhere: the outputs.
    Outputs(Result<Vec<DeviceInfo>, String>),
}

/// What the probe of the sink comes to.
pub open spec fn sink_found(probe: SinkProbe) -> Finding {
    match probe {
        SinkProbe::PipeWire(works) => pipewire_found(works),
        SinkProbe::Outputs(outputs) => cable_found(listed(outputs)),
    }
}

/// Checks everything that can be checked without a connection, from what the
/// system says about its inputs, the sink and the keys.
pub fn check(
    inputs: &Result<Vec<DeviceInfo>, String>,
    probe: &SinkProbe,
    peers: &Result<Vec<String>, String>,
) -> (r: Report)
    ensures
        r.checks@.len() == 3,
        r.checks@[0]@ == microphone_found(listed(*inputs)),
        r.checks@[1]@ == sink_found(*probe),
        r.checks@[2]@ == paired_found(named(*peers)),
{
    let mut checks: Vec<Check> = Vec::new();
    checks.push(microphone(inputs));
    checks.push(
        match probe {
            SinkProbe::PipeWire(works) => sink_on_linux(*works),
            SinkProbe::Outputs(outputs) => sink_elsewhere(outputs),
        },
    );
    checks.push(paired(peers));
    Report { checks }
}

/// Advice shows up only when there is something to do: it stands in the line
/// where there is any, and nothing follows the detail where there is none.
pub proof fn advice_shows_up_only_when_there_is_something_to_do(f: Finding)
    ensures
        f.advice.len() == 0 ==> f.line() == f.grade.sign() + " "@ + f.name + padding(f.name) + " "@
            + f.detail,
        f.advice.len() > 0 ==> crate::text::has(f.line(), f.advice),
{
    if f.advice.len() > 0 {
        let line = f.line();
        let at = line.len() - f.advice.len();
        assert(line.subrange(at, at + f.advice.len()) =~= f.advice);
        assert(crate::text::stands_at(line, f.advice, at));
    }
}

} // verus!
