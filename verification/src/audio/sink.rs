//! Where the received sound lands.
//!
//! Two ways, because two systems offer different things:
//!
//! * **Linux**: we make a PipeWire node of our own and are the microphone
//!   ourselves. Nothing has to be installed.
//! * **Windows**: no input device can be made without a kernel-mode driver, so
//!   we write into someone else's virtual cable, which we find by its name.
//!
//! But for this one tile the whole engine is symmetric, so the difference sits
//! here and nowhere else.
use vstd::prelude::*;

use crate::text::{append, contains, push_joined, same_but_for_case, to_lowercase, trim};

verus! {

/// The name under which we want to show up on the list of microphones.
pub const DISPLAY_NAME: &'static str = "MicBridge";

/// Names of other makers' virtual cables, in the order in which we look for
/// them. A part of the name is enough, in either case, because the makers add
/// suffixes such as "(VB-Audio Virtual Cable)".
pub const VIRTUAL_SINK_HINTS: [&'static str; 4] = [
    "cable input",
    "voicemeeter input",
    "voicemeeter aux input",
    "line 1 (virtual audio cable)",
];

/// How to open a sink.
#[derive(Debug)]
pub enum SinkPlan {
    /// A PipeWire node of our own that passes for a microphone.
    Virtual,
    /// Someone else's virtual cable.
    Cable,
    /// The output device that this selector points at.
    Device(String),
}

/// A selector says a word, whatever the case.
pub open spec fn says(selector: Seq<char>, word: Seq<char>) -> bool {
    crate::text::ascii_lowered(selector) == crate::text::ascii_lowered(word)
}

/// Which sink a selector asks for.
///
/// * `auto`: on Linux a node of our own, elsewhere a virtual cable
/// * `virtual`: a node of our own
/// * `device`: a device of the system, even on Linux
/// * anything else: a part of a name or `@N`, as with a microphone
pub fn sink_plan(selector: &str, on_linux: bool) -> (r: SinkPlan)
    ensures
        ({
            let s = crate::text::trimmed(selector@);
            if says(s, "virtual"@) {
                r is Virtual
            } else if says(s, "auto"@) {
                if on_linux {
                    r is Virtual
                } else {
                    r is Cable
                }
            } else {
                r matches SinkPlan::Device(d) && d@ == if says(s, "device"@) {
                    "default"@
                } else {
                    s
                }
            }
        }),
{
    let bare = trim(selector);
    if same_but_for_case(bare.as_str(), "virtual") {
        return SinkPlan::Virtual;
    }
    if same_but_for_case(bare.as_str(), "auto") {
        return if on_linux {
            SinkPlan::Virtual
        } else {
            SinkPlan::Cable
        };
    }
    if same_but_for_case(bare.as_str(), "device") {
        SinkPlan::Device("default".to_owned())
    } else {
        SinkPlan::Device(bare)
    }
}

/// What is said of a node of our own where there is no PipeWire.
pub const NO_VIRTUAL: &'static str = "własne wejście wirtualne umiemy zrobić tylko w Linuksie (PipeWire).\nW Windows potrzebny jest sterownik — zainstaluj VB-CABLE i użyj `--sink auto`.";

/// What is said of `--sink virtual` up front, off Linux.
pub const VIRTUAL_ONLY_ON_LINUX: &'static str = "`--sink virtual` działa tylko w Linuksie, gdzie PipeWire pozwala utworzyć własny mikrofon.\nW Windows użyj `--sink auto` (znajdzie wirtualny kabel) albo podaj fragment nazwy urządzenia.";

/// Whether a selector stands a chance on this system.
///
/// The sink is opened only after the offer, so that a message about a missing
/// cable appears in the context of a particular attempt to connect. But a
/// configuration that is impossible on principle has nothing to wait for:
/// otherwise a receiver on Windows with `--sink virtual` looks as if it worked
/// until someone connects.
pub fn validate(selector: &str, on_linux: bool) -> (r: Result<(), &'static str>)
    ensures
        r is Ok <==> on_linux || !says(crate::text::trimmed(selector@), "virtual"@),
        r matches Err(e) ==> e@ == VIRTUAL_ONLY_ON_LINUX@,
{
    let bare = trim(selector);
    if same_but_for_case(bare.as_str(), "virtual") && !on_linux {
        return Err(VIRTUAL_ONLY_ON_LINUX);
    }
    Ok(())
}

/// A name in lower case is that of a virtual cable.
pub open spec fn is_cable(lowered: Seq<char>) -> bool {
    exists|h: int|
        0 <= h < VIRTUAL_SINK_HINTS@.len() && crate::text::has(
            lowered,
            (#[trigger] VIRTUAL_SINK_HINTS@[h])@,
        )
}

/// Whether a name in lower case is that of a virtual cable.
pub fn is_cable_name(lowered: &str) -> (r: bool)
    ensures
        r == is_cable(lowered@),
{
    let mut h: usize = 0;
    while h < 4
        invariant
            h <= 4,
            VIRTUAL_SINK_HINTS@.len() == 4,
            forall|g: int|
                0 <= g < h ==> !crate::text::has(lowered@, (#[trigger] VIRTUAL_SINK_HINTS@[g])@),
        decreases 4 - h,
    {
        if contains(lowered, VIRTUAL_SINK_HINTS[h]) {
            return true;
        }
        h += 1;
    }
    false
}

/// Whether a name looks like a virtual cable, for the hint on the list of
/// devices.
pub fn looks_like_virtual_cable(name: &str) -> (r: bool)
    ensures
        r == is_cable(crate::text::lowercase(name@)),
        crate::text::all_ascii(name@) ==> r == is_cable(crate::text::ascii_lowered(name@)),
{
    let lowered = to_lowercase(name);
    assert(crate::text::all_ascii(name@) ==> lowered@ == crate::text::ascii_lowered(name@));
    is_cable_name(lowered.as_str())
}

/// The first device whose name, in lower case, has a hint in it.
pub open spec fn first_with(lowered: Seq<Seq<char>>, hint: Seq<char>, n: nat) -> Option<nat>
    decreases n,
{
    if n == 0 {
        None
    } else {
        match first_with(lowered, hint, (n - 1) as nat) {
            Some(i) => Some(i),
            None => if crate::text::has(lowered[n - 1], hint) {
                Some((n - 1) as nat)
            } else {
                None
            },
        }
    }
}

/// The device to take, when the first `h` hints are tried in their order.
pub open spec fn first_cable(lowered: Seq<Seq<char>>, h: nat) -> Option<nat>
    decreases h,
{
    if h == 0 {
        None
    } else {
        match first_cable(lowered, (h - 1) as nat) {
            Some(i) => Some(i),
            None => first_with(lowered, VIRTUAL_SINK_HINTS@[h - 1]@, lowered.len()),
        }
    }
}

/// Finds a virtual cable among names in lower case: the first device that has
/// the first hint that any device has.
pub fn pick_cable(lowered: &Vec<String>) -> (r: Option<usize>)
    ensures
        r matches Some(i) ==> first_cable(crate::text::views(lowered@), 4) == Some(i as nat) && i < lowered@.len(),
        r is None ==> first_cable(crate::text::views(lowered@), 4) is None,
{
    let mut h: usize = 0;
    while h < 4
        invariant
            h <= 4,
            VIRTUAL_SINK_HINTS@.len() == 4,
            first_cable(crate::text::views(lowered@), h as nat) is None,
        decreases 4 - h,
    {
        let hint = VIRTUAL_SINK_HINTS[h];
        let mut i: usize = 0;
        while i < lowered.len()
            invariant
                h < 4,
                i <= lowered@.len(),
                hint@ == VIRTUAL_SINK_HINTS@[h as int]@,
                first_cable(crate::text::views(lowered@), h as nat) is None,
                first_with(crate::text::views(lowered@), hint@, i as nat) is None,
            decreases lowered@.len() - i,
        {
            if contains(lowered[i].as_str(), hint) {
                proof {
                    lemma_first_with_stays(crate::text::views(lowered@), hint@, (i + 1) as nat, lowered@.len());
                    lemma_first_cable_stays(crate::text::views(lowered@), (h + 1) as nat, 4);
                }
                return Some(i);
            }
            i += 1;
        }
        h += 1;
    }
    None
}

proof fn lemma_first_with_stays(lowered: Seq<Seq<char>>, hint: Seq<char>, n: nat, m: nat)
    requires
        n <= m,
        first_with(lowered, hint, n) is Some,
    ensures
        first_with(lowered, hint, m) == first_with(lowered, hint, n),
    decreases m,
{
    if n < m {
        lemma_first_with_stays(lowered, hint, n, (m - 1) as nat);
    }
}

proof fn lemma_first_cable_stays(lowered: Seq<Seq<char>>, h: nat, k: nat)
    requires
        h <= k,
        first_cable(lowered, h) is Some,
    ensures
        first_cable(lowered, k) == first_cable(lowered, h),
    decreases k,
{
    if h < k {
        lemma_first_cable_stays(lowered, h, (k - 1) as nat);
    }
}

/// Texts in lower case.
pub open spec fn all_lowered(names: Seq<String>) -> Seq<Seq<char>> {
    names.map_values(|s: String| crate::text::lowercase(s@))
}

/// Finds a virtual cable among the names of output devices.
pub fn open_cable(names: &Vec<String>) -> (r: Option<usize>)
    ensures
        match r {
            Some(i) => first_cable(all_lowered(names@), 4) == Some(i as nat) && i < names@.len(),
            None => first_cable(all_lowered(names@), 4) is None,
        },
{
    let mut lowered: Vec<String> = Vec::new();
    let mut i: usize = 0;
    while i < names.len()
        invariant
            i <= names@.len(),
            crate::text::views(lowered@) == all_lowered(names@).take(i as int),
        decreases names@.len() - i,
    {
        let ghost before = crate::text::views(lowered@);
        lowered.push(to_lowercase(names[i].as_str()));
        proof {
            assert(crate::text::views(lowered@) =~= before.push(
                crate::text::lowercase(names@[i as int]@),
            ));
            assert(all_lowered(names@).take(i + 1) =~= before.push(all_lowered(names@)[i as int]));
        }
        i += 1;
    }
    assert(crate::text::views(lowered@) =~= all_lowered(names@));
    pick_cable(&lowered)
}

/// The first part of what is said where no virtual cable is found.
pub const NO_CABLE: &'static str = "nie znaleziono wirtualnego urządzenia audio.\n\nWindows nie pozwala programowi utworzyć własnego mikrofonu — wymaga sterownika\npodpisanego przez producenta. Potrzebny jest jednorazowo VB-CABLE:\n\n1. pobierz i zainstaluj https://vb-audio.com/Cable/\n2. uruchom ponownie MicBridge\n3. w aplikacji (Discord, gra) wybierz mikrofon „CABLE Output”\n\nAlbo wskaż urządzenie ręcznie: --sink \"<fragment nazwy>\".\n\nWidoczne urządzenia wyjściowe:\n  ";

/// What is said where no virtual cable is found, with the devices there are.
pub fn no_cable(names: &Vec<String>) -> (r: String)
    ensures
        r@ == NO_CABLE@ + crate::text::joined(crate::text::views(names@), "\n  "@),
{
    let mut out = String::new();
    append(&mut out, NO_CABLE);
    push_joined(&mut out, names, "\n  ");
    assert(out@ =~= NO_CABLE@ + crate::text::joined(crate::text::views(names@), "\n  "@));
    out
}

/// What is advised about the buffer of VB-CABLE.
pub const LATENCY_HINT: &'static str = "Wskazówka: w VBCABLE_ControlPanel.exe ustaw „Max Latency” na 2048 sampli.\n  Domyślne 7168 dokłada ~130 ms opóźnienia — więcej niż cała reszta łańcucha.";

/// The advice for a sink whose name, in lower case, is that of VB-CABLE.
pub fn hint_for(lowered: &str) -> (r: Option<&'static str>)
    ensures
        r is Some <==> crate::text::has(lowered@, "cable input"@),
        r matches Some(h) ==> h@ == LATENCY_HINT@,
{
    if contains(lowered, "cable input") {
        Some(LATENCY_HINT)
    } else {
        None
    }
}

/// Advice shown after connecting, when the sound goes through someone else's
/// cable.
///
/// The default of 7168 samples in VB-CABLE is 149 ms of needless buffering, more
/// than the whole rest of the latency budget put together. We have no way to read
/// it from outside the driver, so we say it plainly instead of pretending that we
/// checked.
pub fn latency_hint(sink_name: &str) -> (r: Option<&'static str>)
    ensures
        r is Some <==> crate::text::has(crate::text::lowercase(sink_name@), "cable input"@),
        crate::text::all_ascii(sink_name@) ==> (r is Some <==> crate::text::has(
            crate::text::ascii_lowered(sink_name@),
            "cable input"@,
        )),
        r matches Some(h) ==> h@ == LATENCY_HINT@,
{
    let lowered = to_lowercase(sink_name);
    assert(crate::text::all_ascii(sink_name@) ==> lowered@ == crate::text::ascii_lowered(sink_name@));
    hint_for(lowered.as_str())
}

/// A sink that gets the advice is one that is taken for a virtual cable.
pub proof fn only_cables_get_the_hint(lowered: Seq<char>)
    requires
        crate::text::has(lowered, "cable input"@),
    ensures
        is_cable(lowered),
{
    assert(VIRTUAL_SINK_HINTS@[0] == "cable input");
}

} // verus!
