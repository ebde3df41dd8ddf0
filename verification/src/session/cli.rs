//! What the command line prints: lists of devices, of receivers and of paired
//! machines.
use vstd::prelude::*;

use crate::audio::sink::{looks_like_virtual_cable, DISPLAY_NAME};
use crate::audio::{DeviceInfo, Direction};
use crate::i18n::{t, t1, t2, Key, Lang};
use crate::net::discovery::Peer;
use crate::proto::{PROTOCOL_VERSION, SAMPLE_RATE};
use crate::session::doctor::Grade;
use crate::session::send::TONE_SELECTOR;
use crate::text::{append, number};

verus! {

/// The filter of the log for how many times the user asked for more.
pub fn log_filter(verbose: u8) -> (r: &'static str)
    ensures
        r@ == if verbose == 0 {
            "mb_app=info,mb_audio=info,mb_engine=info"@
        } else if verbose == 1 {
            "debug"@
        } else {
            "trace"@
        },
{
    if verbose == 0 {
        "mb_app=info,mb_audio=info,mb_engine=info"
    } else if verbose == 1 {
        "debug"
    } else {
        "trace"
    }
}

/// As many spaces.
pub open spec fn spaces(n: nat) -> Seq<char> {
    Seq::new(n, |i: int| ' ')
}

/// The spaces that a text lacks to a width.
pub open spec fn room(s: Seq<char>, width: nat) -> Seq<char> {
    if s.len() < width {
        spaces((width - s.len()) as nat)
    } else {
        Seq::empty()
    }
}

/// Adds the spaces that a text lacks to a width.
fn push_room(out: &mut String, s: &str, width: usize)
    ensures
        final(out)@ == old(out)@ + room(s@, width as nat),
{
    let len: usize = s.unicode_len();
    let mut i: usize = len;
    while i < width
        invariant
            len <= i,
            len == s@.len(),
            i <= width || i == len,
            out@ == old(out)@ + spaces((i - len) as nat),
        decreases width - i,
    {
        out.push(' ');
        i += 1;
        assert(out@ =~= old(out)@ + spaces((i - len) as nat));
    }
    assert(out@ =~= old(out)@ + room(s@, width as nat));
}

/// A number with its unit, or a question mark for one that is not known.
pub open spec fn known(n: Option<nat>, unit: Seq<char>) -> Seq<char> {
    match n {
        Some(n) => crate::text::decimal(n) + unit,
        None => "?"@,
    }
}

/// The text of a key in a language.
pub open spec fn said(key: Key, lang: Lang) -> Seq<char> {
    crate::i18n::catalog::text_of(key, lang)
}

/// The text of a key with one place filled in.
pub open spec fn said_of(key: Key, value: Seq<char>, lang: Lang) -> Seq<char> {
    crate::i18n::filled(said(key, lang), seq![value])
}

/// A device in the list: a mark on the system's choice, the number that selects
/// it, its name, its rate and channels, and a hint on a virtual cable.
pub open spec fn device_text(d: DeviceInfo, lang: Lang) -> Seq<char> {
    let index = crate::text::decimal(d.index as nat);
    let rate = known(
        match d.default_sample_rate {
            Some(r) => Some(r as nat),
            None => None,
        },
        " Hz"@,
    );
    let channels = known(
        match d.channels {
            Some(c) => Some(c as nat),
            None => None,
        },
        " ch"@,
    );
    (if d.is_default {
        "* @"@
    } else {
        "  @"@
    }) + index + room(index, 2) + " "@ + d.name@ + room(d.name@, 48) + " "@ + room(rate, 9) + rate
        + "  "@ + room(channels, 6) + channels + (if crate::audio::sink::is_cable(
        crate::text::lowercase(d.name@),
    ) {
        said(Key::CliVirtualCable, lang)
    } else {
        Seq::empty()
    })
}

/// A number with its unit, or a question mark for one that is not known.
fn known_text(n: Option<u64>, unit: &str) -> (r: String)
    ensures
        r@ == known(
            match n {
                Some(n) => Some(n as nat),
                None => None,
            },
            unit@,
        ),
{
    match n {
        Some(n) => {
            let mut out = number(n);
            append(&mut out, unit);
            out
        },
        None => "?".to_owned(),
    }
}

/// A device in the list.
pub fn device_row(d: &DeviceInfo, lang: Lang) -> (r: String)
    ensures
        r@ == device_text(*d, lang),
{
    let index = number(d.index as u64);
    let rate = known_text(
        match d.default_sample_rate {
            Some(r) => Some(r as u64),
            None => None,
        },
        " Hz",
    );
    let channels = known_text(
        match d.channels {
            Some(c) => Some(c as u64),
            None => None,
        },
        " ch",
    );
    let mut out = if d.is_default {
        "* @".to_owned()
    } else {
        "  @".to_owned()
    };
    append(&mut out, index.as_str());
    push_room(&mut out, index.as_str(), 2);
    append(&mut out, " ");
    append(&mut out, d.name.as_str());
    push_room(&mut out, d.name.as_str(), 48);
    append(&mut out, " ");
    push_room(&mut out, rate.as_str(), 9);
    append(&mut out, rate.as_str());
    append(&mut out, "  ");
    push_room(&mut out, channels.as_str(), 6);
    append(&mut out, channels.as_str());
    if looks_like_virtual_cable(d.name.as_str()) {
        append(&mut out, t(Key::CliVirtualCable, lang));
    }
    assert(out@ =~= device_text(*d, lang));
    out
}

/// The heading of a list of devices.
pub open spec fn heading(dir: Direction, lang: Lang) -> Seq<char> {
    match dir {
        Direction::Input => said(Key::CliInputs, lang),
        Direction::Output => said(Key::CliOutputs, lang),
    }
}

/// The list of devices in one direction: a heading, then a line for each device
/// or one that says that there is none.
pub open spec fn device_list(
    dir: Direction,
    devices: Seq<DeviceInfo>,
    lang: Lang,
) -> Seq<Seq<char>> {
    seq![Seq::<char>::empty(), heading(dir, lang)] + (if devices.len() == 0 {
        seq![said(Key::CliNone, lang)]
    } else {
        Seq::new(devices.len(), |i: int| device_text(devices[i], lang))
    })
}

/// The list of devices in one direction, line by line.
pub fn device_lines(dir: Direction, devices: &Vec<DeviceInfo>, lang: Lang) -> (r: Vec<String>)
    ensures
        crate::text::views(r@) == device_list(dir, devices@, lang),
{
    let mut out: Vec<String> = Vec::new();
    out.push(String::new());
    out.push(
        match dir {
            Direction::Input => t(Key::CliInputs, lang).to_owned(),
            Direction::Output => t(Key::CliOutputs, lang).to_owned(),
        },
    );
    if devices.len() == 0 {
        out.push(t(Key::CliNone, lang).to_owned());
        assert(crate::text::views(out@) =~= device_list(dir, devices@, lang));
        return out;
    }
    let mut i: usize = 0;
    while i < devices.len()
        invariant
            i <= devices@.len(),
            crate::text::views(out@) =~= seq![Seq::<char>::empty(), heading(dir, lang)] + Seq::new(
                i as nat,
                |j: int| device_text(devices@[j], lang),
            ),
        decreases devices@.len() - i,
    {
        let ghost before = crate::text::views(out@);
        let row = device_row(&devices[i], lang);
        out.push(row);
        i += 1;
        assert(crate::text::views(out@) =~= before.push(device_text(devices@[i - 1], lang)));
    }
    assert(crate::text::views(out@) =~= device_list(dir, devices@, lang));
    out
}

/// What follows the lists of devices: what the mark means, and how to point at a
/// device.
pub open spec fn device_notes(on_linux: bool, lang: Lang) -> Seq<Seq<char>> {
    seq![
        Seq::<char>::empty(),
        said_of(Key::CliDefaultMark, crate::text::decimal(SAMPLE_RATE as nat), lang),
        said(Key::CliPointing, lang),
    ] + (if on_linux {
        seq![
            said_of(Key::CliSinkLinux, DISPLAY_NAME@, lang),
            said(Key::CliSinkLinuxNote, lang),
        ]
    } else {
        seq![said(Key::CliSinkWindows, lang), said(Key::CliSinkWindowsNote, lang)]
    }) + seq![said_of(Key::CliNoMic, TONE_SELECTOR@, lang), Seq::<char>::empty()]
}

/// What follows the lists of devices, line by line.
pub fn device_footer(on_linux: bool, lang: Lang) -> (r: Vec<String>)
    ensures
        crate::text::views(r@) == device_notes(on_linux, lang),
{
    let rate = number(SAMPLE_RATE as u64);
    let mut out: Vec<String> = Vec::new();
    out.push(String::new());
    out.push(t1(Key::CliDefaultMark, lang, rate.as_str()));
    out.push(t(Key::CliPointing, lang).to_owned());
    if on_linux {
        out.push(t1(Key::CliSinkLinux, lang, DISPLAY_NAME));
        out.push(t(Key::CliSinkLinuxNote, lang).to_owned());
    } else {
        out.push(t(Key::CliSinkWindows, lang).to_owned());
        out.push(t(Key::CliSinkWindowsNote, lang).to_owned());
    }
    out.push(t1(Key::CliNoMic, lang, TONE_SELECTOR));
    out.push(String::new());
    assert(crate::text::views(out@) =~= device_notes(on_linux, lang));
    out
}

/// A receiver in the list: its name, its address, and a note on a version that is
/// not ours.
pub open spec fn peer_text(peer: Peer, addr: Seq<char>, lang: Lang) -> Seq<char> {
    "  "@ + peer.name@ + room(peer.name@, 24) + " "@ + addr + room(addr, 24) + (if peer.version
        == PROTOCOL_VERSION {
        Seq::empty()
    } else {
        crate::i18n::filled(
            said(Key::CliProtocolInstead, lang),
            seq![
                crate::text::decimal(peer.version as nat),
                crate::text::decimal(PROTOCOL_VERSION as nat),
            ],
        )
    })
}

/// A receiver in the list.
pub fn peer_row(peer: &Peer, addr: &str, lang: Lang) -> (r: String)
    ensures
        r@ == peer_text(*peer, addr@, lang),
{
    let mut out = "  ".to_owned();
    append(&mut out, peer.name.as_str());
    push_room(&mut out, peer.name.as_str(), 24);
    append(&mut out, " ");
    append(&mut out, addr);
    push_room(&mut out, addr, 24);
    if !peer.compatible() {
        let theirs = number(peer.version as u64);
        let ours = number(PROTOCOL_VERSION as u64);
        let note = t2(Key::CliProtocolInstead, lang, theirs.as_str(), ours.as_str());
        append(&mut out, note.as_str());
    }
    assert(out@ =~= peer_text(*peer, addr@, lang));
    out
}

/// What a search that found nobody says.
pub open spec fn nobody(lang: Lang) -> Seq<Seq<char>> {
    seq![
        Seq::<char>::empty(),
        said(Key::CliNothingSeen, lang),
        said(Key::CliHintRecv, lang),
        said(Key::CliHintSameNet, lang),
        said(Key::CliHintMulticast, lang),
        said(Key::CliHintUseTo, lang),
    ]
}

/// What a search says of what it found.
pub open spec fn found_text(peers: Seq<Peer>, addrs: Seq<Seq<char>>, lang: Lang) -> Seq<Seq<char>> {
    if peers.len() == 0 {
        nobody(lang)
    } else {
        seq![Seq::<char>::empty(), said(Key::CliReceivers, lang)] + Seq::new(
            peers.len(),
            |i: int| peer_text(peers[i], addrs[i], lang),
        ) + seq![Seq::<char>::empty(), said_of(Key::CliSendWith, peers[0].name@, lang)]
    }
}

/// What a search says of what it found, line by line. The addresses are those of
/// the peers, as they are written.
pub fn found_lines(peers: &Vec<Peer>, addrs: &Vec<String>, lang: Lang) -> (r: Vec<String>)
    requires
        addrs@.len() == peers@.len(),
    ensures
        crate::text::views(r@) == found_text(peers@, crate::text::views(addrs@), lang),
{
    let mut out: Vec<String> = Vec::new();
    out.push(String::new());
    if peers.len() == 0 {
        out.push(t(Key::CliNothingSeen, lang).to_owned());
        out.push(t(Key::CliHintRecv, lang).to_owned());
        out.push(t(Key::CliHintSameNet, lang).to_owned());
        out.push(t(Key::CliHintMulticast, lang).to_owned());
        out.push(t(Key::CliHintUseTo, lang).to_owned());
        assert(crate::text::views(out@) =~= nobody(lang));
        return out;
    }
    out.push(t(Key::CliReceivers, lang).to_owned());
    let mut i: usize = 0;
    while i < peers.len()
        invariant
            i <= peers@.len(),
            addrs@.len() == peers@.len(),
            crate::text::views(out@) =~= seq![Seq::<char>::empty(), said(Key::CliReceivers, lang)]
                + Seq::new(
                i as nat,
                |j: int| peer_text(peers@[j], crate::text::views(addrs@)[j], lang),
            ),
        decreases peers@.len() - i,
    {
        let ghost before = crate::text::views(out@);
        let row = peer_row(&peers[i], addrs[i].as_str(), lang);
        out.push(row);
        i += 1;
        assert(crate::text::views(out@) =~= before.push(
            peer_text(peers@[i - 1], crate::text::views(addrs@)[i - 1], lang),
        ));
    }
    out.push(String::new());
    out.push(t1(Key::CliSendWith, lang, peers[0].name.as_str()));
    assert(crate::text::views(out@) =~= found_text(peers@, crate::text::views(addrs@), lang));
    out
}

/// The last line of the readiness check, and whether the program ends with an
/// error, so that a script or an installer can go by it.
pub fn verdict(worst: Grade, lang: Lang) -> (r: (&'static str, bool))
    ensures
        r.0@ == match worst {
            Grade::Good => said(Key::DocAllGood, lang),
            Grade::Warn => said(Key::DocPartial, lang),
            Grade::Fail => said(Key::DocBroken, lang),
        },
        r.1 == (worst == Grade::Fail),
{
    match worst {
        Grade::Good => (t(Key::DocAllGood, lang), false),
        Grade::Warn => (t(Key::DocPartial, lang), false),
        Grade::Fail => (t(Key::DocBroken, lang), true),
    }
}

/// The list of paired machines.
pub open spec fn paired_text(names: Seq<Seq<char>>, path: Seq<char>, lang: Lang) -> Seq<Seq<char>> {
    if names.len() == 0 {
        seq![said(Key::CliNothingPaired, lang), said(Key::CliPairingIsAutomatic, lang)]
    } else {
        seq![said(Key::CliPairedHeading, lang)] + Seq::new(
            names.len(),
            |i: int| "  "@ + names[i],
        ) + seq![
            Seq::<char>::empty(),
            said_of(Key::CliKeysAt, path, lang),
            said(Key::CliForgetHint, lang),
        ]
    }
}

/// The list of paired machines, line by line.
pub fn paired_lines(names: &Vec<String>, path: &str, lang: Lang) -> (r: Vec<String>)
    ensures
        crate::text::views(r@) == paired_text(crate::text::views(names@), path@, lang),
{
    let mut out: Vec<String> = Vec::new();
    if names.len() == 0 {
        out.push(t(Key::CliNothingPaired, lang).to_owned());
        out.push(t(Key::CliPairingIsAutomatic, lang).to_owned());
        assert(crate::text::views(out@) =~= paired_text(crate::text::views(names@), path@, lang));
        return out;
    }
    out.push(t(Key::CliPairedHeading, lang).to_owned());
    let mut i: usize = 0;
    while i < names.len()
        invariant
            i <= names@.len(),
            crate::text::views(out@) =~= seq![said(Key::CliPairedHeading, lang)] + Seq::new(
                i as nat,
                |j: int| "  "@ + crate::text::views(names@)[j],
            ),
        decreases names@.len() - i,
    {
        let ghost before = crate::text::views(out@);
        let mut line = "  ".to_owned();
        append(&mut line, names[i].as_str());
        out.push(line);
        i += 1;
        assert(crate::text::views(out@) =~= before.push("  "@ + crate::text::views(names@)[i - 1]));
    }
    out.push(String::new());
    out.push(t1(Key::CliKeysAt, lang, path));
    out.push(t(Key::CliForgetHint, lang).to_owned());
    assert(crate::text::views(out@) =~= paired_text(crate::text::views(names@), path@, lang));
    out
}

/// What is said after a pairing was forgotten, or after there was none.
pub open spec fn forgotten_text(forgot: bool, peer: Seq<char>, lang: Lang) -> Seq<Seq<char>> {
    if forgot {
        seq![said_of(Key::CliForgotten, peer, lang), said(Key::CliForgetOther, lang)]
    } else {
        seq![said_of(Key::CliNothingUnder, peer, lang)]
    }
}

/// What is said after a pairing was forgotten, line by line.
pub fn forgotten_lines(forgot: bool, peer: &str, lang: Lang) -> (r: Vec<String>)
    ensures
        crate::text::views(r@) == forgotten_text(forgot, peer@, lang),
{
    let mut out: Vec<String> = Vec::new();
    if forgot {
        out.push(t1(Key::CliForgotten, lang, peer));
        out.push(t(Key::CliForgetOther, lang).to_owned());
    } else {
        out.push(t1(Key::CliNothingUnder, lang, peer));
    }
    assert(crate::text::views(out@) =~= forgotten_text(forgot, peer@, lang));
    out
}

} // verus!
