//! What the window decides: where it hides, whom it sends to, what it writes
//! next to its fields.
use vstd::prelude::*;

use crate::net::discovery::Peer;
use crate::net::pair::CODE_DIGITS;
use crate::session::ui::typed_code;
use crate::text::{append, push_joined, push_number, same};

verus! {

/// How old the list of machines seen in the network may grow, in nanoseconds.
pub const REFRESH_PEERS: u64 = 10_000_000_000;

/// How old the list of paired machines may grow, in nanoseconds. The list sits in
/// a file, and there are several frames a second.
pub const REFRESH_PAIRED: u64 = 1_000_000_000;

/// How long we wait at closing for a session to leave by itself, in nanoseconds.
pub const GRACE: u64 = 300_000_000;

/// How often we look whether a session has ended, in nanoseconds.
pub const GRACE_POLL: u64 = 5_000_000;

/// Whether a list read at some moment is to be read again.
pub fn stale(read_at: Option<u64>, now: u64, limit: u64) -> (r: bool)
    ensures
        r == match read_at {
            None => true,
            Some(then) => now - then > limit,
        },
{
    match read_at {
        None => true,
        Some(then) => now > then && now - then > limit,
    }
}

/// Whether a search of the network is to begin: not beside one that is under way.
pub fn search_due(pending: bool, force: bool, read_at: Option<u64>, now: u64) -> (r: bool)
    ensures
        r == (!pending && (force || match read_at {
            None => true,
            Some(then) => now - then > REFRESH_PEERS,
        })),
{
    !pending && (force || stale(read_at, now, REFRESH_PEERS))
}

/// What to do at closing about a session.
#[derive(Debug, Clone, Copy, PartialEq, Eq, Structural)]
pub enum Parting {
    /// It has ended: take it in.
    Join,
    /// It did not make it in time: leave it to the process.
    Leave,
    /// Look again in a moment.
    Wait,
}

/// What to do at closing about a session. Waiting without end would hang the
/// program on a session that reads from a silent socket.
pub fn parting(ended: bool, asked_at: u64, now: u64) -> (r: Parting)
    ensures
        r == if ended {
            Parting::Join
        } else if now >= asked_at + GRACE {
            Parting::Leave
        } else {
            Parting::Wait
        },
{
    if ended {
        Parting::Join
    } else if now >= asked_at && now - asked_at >= GRACE {
        Parting::Leave
    } else {
        Parting::Wait
    }
}

/// Whom we send to.
#[derive(Debug)]
pub enum Target {
    /// The only receiver in the network: let the program find it itself.
    Auto,
    /// Picked from the list or typed by hand.
    Named(String),
}

/// Whether the peer at a place is the only one that can be talked to.
pub open spec fn only_usable(peers: Seq<Peer>, i: int) -> bool {
    &&& 0 <= i < peers.len()
    &&& peers[i].version == crate::proto::PROTOCOL_VERSION
    &&& forall|j: int|
        0 <= j < peers.len() && peers[j].version == crate::proto::PROTOCOL_VERSION ==> i == j
}

/// The place of the only peer that can be talked to.
fn only(peers: &Vec<Peer>) -> (r: Option<usize>)
    ensures
        match r {
            Some(i) => only_usable(peers@, i as int),
            None => forall|i: int| !only_usable(peers@, i),
        },
{
    let mut found: Option<usize> = None;
    let mut i: usize = 0;
    while i < peers.len()
        invariant
            i <= peers@.len(),
            match found {
                None => forall|j: int|
                    0 <= j < i ==> peers@[j].version != crate::proto::PROTOCOL_VERSION,
                Some(f) => {
                    &&& f < i
                    &&& peers@[f as int].version == crate::proto::PROTOCOL_VERSION
                    &&& forall|j: int|
                        0 <= j < i && peers@[j].version == crate::proto::PROTOCOL_VERSION
                            ==> f == j
                },
            },
        decreases peers@.len() - i,
    {
        if peers[i].compatible() {
            match found {
                None => {
                    found = Some(i);
                },
                Some(f) => {
                    assert(peers@[f as int].version == crate::proto::PROTOCOL_VERSION);
                    assert(peers@[i as int].version == crate::proto::PROTOCOL_VERSION);
                    return None;
                },
            }
        }
        i += 1;
    }
    found
}

/// What a choice that is open is filled in with: the only receiver that can be talked
/// to, by its name, and nothing where there is none or there are several.
pub open spec fn filled_in(peers: Seq<Peer>, r: Target) -> bool {
    &&& r is Named <==> exists|i: int| only_usable(peers, i)
    &&& r matches Target::Named(name) ==> exists|i: int|
        only_usable(peers, i) && name@ == peers[i].name@
}

/// Writes a machine that was found into the field, as long as nobody has chosen
/// anything else.
///
/// Only where one was found. Of several the user chooses: putting in the first
/// would be guessing, and the sender would go to somebody nobody asked for.
pub fn autofill_target(target: Target, touched: bool, peers: &Vec<Peer>) -> (r: Target)
    ensures
        touched || target is Named ==> r == target,
        !touched && target is Auto ==> filled_in(peers@, r),
{
    match target {
        Target::Auto => {
            if touched {
                return Target::Auto;
            }
            match only(peers) {
                Some(i) => {
                    assert(only_usable(peers@, i as int));
                    Target::Named(peers[i].name.clone())
                },
                None => Target::Auto,
            }
        },
        Target::Named(name) => Target::Named(name),
    }
}

/// Whom the sender is told to look for: a name, or whoever is alone.
pub fn wanted_peer(target: &Target) -> (r: Option<String>)
    ensures
        match target {
            Target::Auto => r is None,
            Target::Named(name) => r is Some && r->0@ == name@,
        },
{
    match target {
        Target::Auto => None,
        Target::Named(name) => Some(name.clone()),
    }
}

/// What the field shows for a target.
pub fn target_label(target: &Target) -> (r: String)
    ensures
        r@ == match target {
            Target::Auto => "jedyny w sieci"@,
            Target::Named(name) => name@,
        },
{
    match target {
        Target::Auto => "jedyny w sieci".to_owned(),
        Target::Named(name) => name.clone(),
    }
}

/// What the list shows for a peer: its address, or that it cannot be talked to.
pub fn peer_label(peer: &Peer, addr: &str) -> (r: String)
    ensures
        r@ == if peer.version == crate::proto::PROTOCOL_VERSION {
            peer.name@ + "  ("@ + addr@ + ")"@
        } else {
            peer.name@ + "  — inna wersja protokołu"@
        },
{
    let mut out = peer.name.clone();
    if peer.compatible() {
        append(&mut out, "  (");
        append(&mut out, addr);
        append(&mut out, ")");
    } else {
        append(&mut out, "  — inna wersja protokołu");
    }
    out
}

/// Whether a request to close the window hides it. A session plays for hours, and
/// closing the window is no request to break it; but we hide only where we can
/// come back from, and never against our own exit.
pub fn hides(quitting: bool, has_tray: bool, can_restore: bool) -> (r: bool)
    ensures
        r == (!quitting && has_tray && can_restore),
{
    !(quitting || !has_tray || !can_restore)
}

/// What the user did with the icon.
#[derive(Debug, Clone, Copy, PartialEq, Eq, Structural)]
pub enum Action {
    Show,
    Quit,
}

/// A box for one wish, set up between the handling of events and the window.
///
/// One is enough: clicking the icon faster than the window is redrawn means no
/// more than one click.
#[derive(Debug)]
pub struct Slot {
    pub wish: Option<Action>,
}

impl Slot {
    /// An empty box.
    pub fn new() -> (r: Self)
        ensures
            r.wish is None,
    {
        Slot { wish: None }
    }

    /// Puts a wish into the box. Quitting goes first: if both fall before one
    /// frame, showing the window would only put off the exit that was asked for.
    pub fn note(&mut self, action: Action)
        ensures
            final(self).wish == if old(self).wish == Some(Action::Quit) {
                Some(Action::Quit)
            } else {
                Some(action)
            },
    {
        match self.wish {
            Some(Action::Quit) => {},
            _ => {
                self.wish = Some(action);
            },
        }
    }

    /// Takes the wish out of the box, if one waits.
    pub fn poll(&mut self) -> (r: Option<Action>)
        ensures
            r == old(self).wish,
            final(self).wish is None,
    {
        self.wish.take()
    }
}

/// What the window remembers of its own life.
#[derive(Debug, Clone, Copy, PartialEq, Eq, Structural)]
pub struct Life {
    /// Hidden in the tray.
    pub hidden: bool,
    /// Ending: a request to close comes back to us a frame later as an ordinary
    /// closing of the window, and that one hides it.
    pub quitting: bool,
}

impl Life {
    /// A window on the screen.
    pub fn new() -> (r: Self)
        ensures
            !r.hidden && !r.quitting,
    {
        Life { hidden: false, quitting: false }
    }

    /// A request to close the window; `true` where it was hidden in place of it.
    pub fn on_close(&mut self, has_tray: bool, can_restore: bool) -> (r: bool)
        ensures
            r == (!old(self).quitting && has_tray && can_restore),
            final(self).hidden == (old(self).hidden || r),
            final(self).quitting == old(self).quitting,
    {
        let r = hides(self.quitting, has_tray, can_restore);
        if r {
            self.hidden = true;
        }
        r
    }

    /// A wish from the tray; `true` where the program ends and there is nothing
    /// to draw.
    pub fn on_tray(&mut self, wish: Option<Action>) -> (r: bool)
        ensures
            r == (wish == Some(Action::Quit)),
            final(self).quitting == (old(self).quitting || r),
            final(self).hidden == (old(self).hidden && wish != Some(Action::Show)),
    {
        match wish {
            Some(Action::Show) => {
                self.hidden = false;
                false
            },
            Some(Action::Quit) => {
                self.quitting = true;
                true
            },
            None => false,
        }
    }
}

/// What the field for the code shows beside it and does.
#[derive(Debug)]
pub struct Entry {
    /// Six digits stand in the field.
    pub complete: bool,
    /// The code goes to the session that waits for it.
    pub submit: bool,
    /// How many digits are there, while there are some but not six.
    pub hint: Option<String>,
}

/// The field for the code: whether what stands in it is complete, and whether a
/// click or Enter sends it.
pub fn code_entry(field: &str, clicked: bool, entered: bool) -> (r: Entry)
    ensures
        ({
            let digits = field@.filter(|c: char| crate::net::pair::is_digit(c)).len();
            &&& r.complete == (digits == CODE_DIGITS)
            &&& r.submit == (r.complete && (clicked || entered))
            &&& r.hint is Some <==> digits > 0 && !r.complete
            &&& r.hint matches Some(text) ==> text@ == crate::text::decimal(digits) + " z "@
                + crate::text::decimal(CODE_DIGITS as nat) + " cyfr"@
        }),
{
    match typed_code(field) {
        Ok(_) => Entry { complete: true, submit: clicked || entered, hint: None },
        Err(e) => {
            if e.got == 0 {
                return Entry { complete: false, submit: false, hint: None };
            }
            let mut text = String::new();
            push_number(&mut text, e.got as u64);
            append(&mut text, " z ");
            push_number(&mut text, CODE_DIGITS as u64);
            append(&mut text, " cyfr");
            assert(text@ =~= crate::text::decimal(e.got as nat) + " z "@ + crate::text::decimal(
                CODE_DIGITS as nat,
            ) + " cyfr"@);
            Entry { complete: false, submit: false, hint: Some(text) }
        },
    }
}

/// What stands on a toggle.
pub fn toggle_label(running: bool) -> (r: &'static str)
    ensures
        r@ == if running {
            "włączone"@
        } else {
            "wyłączone"@
        },
{
    if running {
        "włączone"
    } else {
        "wyłączone"
    }
}

/// What the field shows for a sink.
pub fn pretty_sink(value: &str, on_linux: bool) -> (r: String)
    ensures
        r@ == if value@ != "auto"@ {
            value@
        } else if on_linux {
            "automatycznie (mikrofon MicBridge)"@
        } else {
            "automatycznie (wirtualny kabel)"@
        },
{
    if !same(value, "auto") {
        value.to_owned()
    } else if on_linux {
        "automatycznie (mikrofon MicBridge)".to_owned()
    } else {
        "automatycznie (wirtualny kabel)".to_owned()
    }
}

/// What the field shows for a microphone.
pub fn pretty_mic(value: &str) -> (r: String)
    ensures
        r@ == if value@ == "default"@ {
            "domyślny w systemie"@
        } else if value@ == "tone"@ {
            "ton próbny 440 Hz"@
        } else {
            value@
        },
{
    if same(value, "default") {
        "domyślny w systemie".to_owned()
    } else if same(value, "tone") {
        "ton próbny 440 Hz".to_owned()
    } else {
        value.to_owned()
    }
}

/// The line with the paired machines; none where there are none.
pub fn paired_line(peers: &Vec<String>) -> (r: Option<String>)
    ensures
        r is Some <==> peers@.len() > 0,
        r matches Some(line) ==> line@ == "Sparowane: "@ + crate::text::joined(
            crate::text::views(peers@),
            ", "@,
        ),
{
    if peers.len() == 0 {
        return None;
    }
    let mut out = "Sparowane: ".to_owned();
    push_joined(&mut out, peers, ", ");
    Some(out)
}

} // verus!
