//! The state that the window shows.
//!
//! Sessions work on threads of their own and know nothing of the window; what
//! they report lands here, and the window reads it whenever it is drawn.
//!
//! One place needs movement the other way: the pairing code. The session stops
//! and waits until the user has typed it.
use std::collections::VecDeque;

use vstd::prelude::*;

use crate::i18n::{t, t1, t2, Key, Lang};
use crate::proto::control::FloatBits;
use crate::session::ui::{typed_code, CodeLength};
use crate::text::{append, number};

verus! {

/// How many measurements a plot holds. At one per second that is two minutes:
/// enough to see that something is going wrong, and too little to eat memory.
pub const HISTORY: usize = 120;

/// How many lines the log of one side holds.
pub const LOG_LINES: usize = 12;

/// How long to wait for a code before we take it that nobody is looking, in
/// nanoseconds.
pub const CODE_TIMEOUT: u64 = 180_000_000_000;

/// The last `n` elements.
pub open spec fn newest<T>(s: Seq<T>, n: nat) -> Seq<T> {
    if s.len() <= n {
        s
    } else {
        s.skip(s.len() - n)
    }
}

/// The course of one quantity in time.
pub struct Series {
    pub points: VecDeque<FloatBits>,
}

impl View for Series {
    type V = Seq<FloatBits>;

    open spec fn view(&self) -> Seq<FloatBits> {
        self.points@
    }
}

impl Series {
    pub fn new() -> (r: Self)
        ensures
            r@ == Seq::<FloatBits>::empty(),
    {
        Series { points: VecDeque::new() }
    }

    /// Takes a measurement in; beyond the limit the oldest goes.
    pub fn push(&mut self, v: FloatBits)
        requires
            old(self)@.len() <= HISTORY,
        ensures
            final(self)@ == newest(old(self)@.push(v), HISTORY as nat),
            final(self)@.len() <= HISTORY,
    {
        if self.points.len() == HISTORY {
            self.points.pop_front();
        }
        self.points.push_back(v);
        assert(self@ =~= newest(old(self)@.push(v), HISTORY as nat));
    }

    /// The newest measurement.
    pub fn last(&self) -> (r: Option<FloatBits>)
        ensures
            r == if self@.len() > 0 {
                Some(self@.last())
            } else {
                None
            },
    {
        let n: usize = self.points.len();
        if n == 0 {
            None
        } else {
            Some(self.points[n - 1])
        }
    }
}

/// What is seen in one half of the window.
pub struct Side {
    /// Whether the session is to run. The window sets it, the session reads it.
    pub wanted: bool,
    /// Whether the thread really runs.
    pub running: bool,
    /// Who with and where: one line below the toggle.
    pub peer: Option<String>,
    pub detail: String,
    /// The last few sentences: what happened, what is missing.
    pub log: VecDeque<String>,
    pub latency: Series,
    pub loss: Series,
    /// Numbers that make no sense to draw.
    pub numbers: Vec<(String, String)>,
    /// The last error, until the user changes something.
    pub error: Option<String>,
}

/// What stands at the head of one half of the window.
#[derive(Debug, Clone, Copy, PartialEq, Eq, Structural)]
pub enum Headline {
    /// Who is on the other side, and the line of detail.
    Connected,
    /// That we wait for the other side.
    Waiting,
    /// Nothing.
    Quiet,
}

/// The characters of the lines of a log.
pub open spec fn lines(log: Seq<String>) -> Seq<Seq<char>> {
    log.map_values(|s: String| s@)
}

/// The characters of names and numbers.
pub open spec fn rows(numbers: Seq<(String, String)>) -> Seq<(Seq<char>, Seq<char>)> {
    numbers.map_values(|p: (String, String)| (p.0@, p.1@))
}

impl Side {
    /// The plots and the log are within their limits.
    pub open spec fn wf(&self) -> bool {
        &&& self.latency@.len() <= HISTORY
        &&& self.loss@.len() <= HISTORY
        &&& self.log@.len() <= LOG_LINES
    }

    /// Nothing runs and nothing is shown.
    pub open spec fn blank(&self) -> bool {
        &&& !self.wanted && !self.running
        &&& self.peer is None && self.error is None
        &&& self.detail@.len() == 0 && self.log@.len() == 0 && self.numbers@.len() == 0
        &&& self.latency@.len() == 0 && self.loss@.len() == 0
    }

    pub fn new() -> (r: Self)
        ensures
            r.wf(),
            r.blank(),
    {
        Side {
            wanted: false,
            running: false,
            peer: None,
            detail: String::new(),
            log: VecDeque::new(),
            latency: Series::new(),
            loss: Series::new(),
            numbers: Vec::new(),
            error: None,
        }
    }

    /// What stands at the head of this half.
    pub fn headline(&self) -> (r: Headline)
        ensures
            r == if self.peer is Some {
                Headline::Connected
            } else if self.running {
                Headline::Waiting
            } else {
                Headline::Quiet
            },
    {
        if self.peer.is_some() {
            Headline::Connected
        } else if self.running {
            Headline::Waiting
        } else {
            Headline::Quiet
        }
    }

    /// Whether there is anything to draw: without a measurement of the latency
    /// the log stands alone.
    pub fn has_plots(&self) -> (r: bool)
        ensures
            r == (self.latency@.len() > 0),
    {
        self.latency.points.len() > 0
    }

    /// Adds a line to the log; beyond the limit the oldest goes.
    pub fn note(&mut self, text: &str)
        requires
            old(self).wf(),
        ensures
            final(self).wf(),
            lines(final(self).log@) == newest(lines(old(self).log@).push(text@), LOG_LINES as nat),
            final(self).wanted == old(self).wanted,
            final(self).running == old(self).running,
            final(self).peer == old(self).peer,
            final(self).detail == old(self).detail,
            final(self).latency == old(self).latency,
            final(self).loss == old(self).loss,
            final(self).numbers == old(self).numbers,
            final(self).error == old(self).error,
    {
        if self.log.len() == LOG_LINES {
            self.log.pop_front();
        }
        self.log.push_back(text.to_owned());
        assert(lines(self.log@) =~= newest(lines(old(self).log@).push(text@), LOG_LINES as nat));
    }

    /// The session has stopped: everything that was shown is no longer true.
    pub fn forget_session(&mut self)
        ensures
            final(self).peer is None,
            final(self).detail@.len() == 0,
            final(self).numbers@.len() == 0,
            final(self).latency@.len() == 0,
            final(self).loss@.len() == 0,
            final(self).log == old(self).log,
            final(self).wanted == old(self).wanted,
            final(self).running == old(self).running,
            final(self).error == old(self).error,
    {
        self.peer = None;
        self.detail = String::new();
        self.numbers = Vec::new();
        self.latency = Series::new();
        self.loss = Series::new();
    }

    /// The session's thread has ended, well or with an error. An error stays on
    /// the screen until the user changes something: the session is going, and
    /// there is nobody to repeat it.
    pub fn finished(&mut self, outcome: Result<(), String>)
        ensures
            final(self).peer is None,
            final(self).detail@.len() == 0,
            final(self).numbers@.len() == 0,
            final(self).latency@.len() == 0,
            final(self).loss@.len() == 0,
            final(self).log == old(self).log,
            !final(self).running,
            match outcome {
                Ok(_) => final(self).error is None && final(self).wanted == old(self).wanted,
                Err(e) => final(self).error == Some(e) && !final(self).wanted,
            },
    {
        self.forget_session();
        self.running = false;
        match outcome {
            Ok(_) => {
                self.error = None;
            },
            Err(e) => {
                self.error = Some(e);
                self.wanted = false;
            },
        }
    }

    /// A session stands: who is on the other side, and where the sound lands.
    pub fn connected(&mut self, peer: &str, detail: &str)
        requires
            old(self).wf(),
        ensures
            final(self).wf(),
            final(self).peer is Some && final(self).peer->0@ == peer@,
            final(self).error is None,
            lines(final(self).log@) == newest(
                lines(old(self).log@).push(peer@ + " → "@ + detail@),
                LOG_LINES as nat,
            ),
            final(self).wanted == old(self).wanted,
            final(self).running == old(self).running,
            final(self).detail == old(self).detail,
            final(self).latency == old(self).latency,
            final(self).loss == old(self).loss,
            final(self).numbers == old(self).numbers,
    {
        self.peer = Some(peer.to_owned());
        self.error = None;
        let mut line = String::new();
        append(&mut line, peer);
        append(&mut line, " → ");
        append(&mut line, detail);
        assert(line@ =~= peer@ + " → "@ + detail@);
        self.note(line.as_str());
    }

    /// A second of a session: one more point on each plot, new numbers and a new
    /// line of detail.
    pub fn report(
        &mut self,
        latency: FloatBits,
        loss: FloatBits,
        numbers: Vec<(String, String)>,
        detail: String,
    )
        requires
            old(self).wf(),
        ensures
            final(self).wf(),
            final(self).latency@ == newest(old(self).latency@.push(latency), HISTORY as nat),
            final(self).loss@ == newest(old(self).loss@.push(loss), HISTORY as nat),
            final(self).numbers == numbers,
            final(self).detail == detail,
            final(self).log == old(self).log,
            final(self).peer == old(self).peer,
            final(self).wanted == old(self).wanted,
            final(self).running == old(self).running,
            final(self).error == old(self).error,
    {
        self.latency.push(latency);
        self.loss.push(loss);
        self.numbers = numbers;
        self.detail = detail;
    }
}

/// The text of a key in a language.
pub open spec fn said(key: Key, lang: Lang) -> Seq<char> {
    crate::i18n::catalog::text_of(key, lang)
}

/// The text of a key with a number in it.
pub open spec fn said_of(key: Key, n: nat, lang: Lang) -> Seq<char> {
    crate::i18n::filled(said(key, lang), seq![crate::text::decimal(n)])
}

/// The measurements of the receiving side, as they are written.
pub struct RecvFigures {
    pub buffer: String,
    pub ring: String,
    pub jitter: String,
    pub drift: String,
    pub recovered: u64,
    pub dropped: u64,
    pub starved: u64,
}

/// The rows of the receiving side: five always, one more for frames that were
/// thrown away, one more for samples that the card lacked.
pub open spec fn recv_rows(f: RecvFigures, lang: Lang) -> Seq<(Seq<char>, Seq<char>)> {
    let always = seq![
        (said(Key::NumCushion, lang), f.buffer@),
        (said(Key::NumCard, lang), f.ring@),
        (said(Key::NumJitter, lang), f.jitter@),
        (said(Key::NumFec, lang), said_of(Key::FramesN, f.recovered as nat, lang)),
        (said(Key::NumDrift, lang), f.drift@),
    ];
    let dropped = if f.dropped > 0 {
        seq![(said(Key::NumDropped, lang), said_of(Key::FramesN, f.dropped as nat, lang))]
    } else {
        Seq::empty()
    };
    let starved = if f.starved > 0 {
        seq![(said(Key::NumStarved, lang), said_of(Key::SamplesN, f.starved as nat, lang))]
    } else {
        Seq::empty()
    };
    always + dropped + starved
}

/// A name and a number for the window.
fn row(key: Key, value: String, lang: Lang) -> (r: (String, String))
    ensures
        r.0@ == said(key, lang),
        r.1@ == value@,
{
    (t(key, lang).to_owned(), value)
}

/// The text of a key with a number in it.
fn counted(key: Key, n: u64, lang: Lang) -> (r: String)
    ensures
        r@ == said_of(key, n as nat, lang),
{
    let text = number(n);
    t1(key, lang, text.as_str())
}

/// The rows of the receiving side.
pub fn recv_numbers(f: RecvFigures, lang: Lang) -> (r: Vec<(String, String)>)
    ensures
        rows(r@) == recv_rows(f, lang),
{
    let mut out: Vec<(String, String)> = Vec::new();
    out.push(row(Key::NumCushion, f.buffer, lang));
    out.push(row(Key::NumCard, f.ring, lang));
    out.push(row(Key::NumJitter, f.jitter, lang));
    out.push(row(Key::NumFec, counted(Key::FramesN, f.recovered, lang), lang));
    out.push(row(Key::NumDrift, f.drift, lang));
    if f.dropped > 0 {
        out.push(row(Key::NumDropped, counted(Key::FramesN, f.dropped, lang), lang));
    }
    if f.starved > 0 {
        out.push(row(Key::NumStarved, counted(Key::SamplesN, f.starved, lang), lang));
    }
    assert(rows(out@) =~= recv_rows(f, lang));
    out
}

/// The measurements of the sending side, as they are written.
pub struct SendFigures {
    pub bitrate: String,
    pub peak: String,
    pub jitter: String,
    pub fec_pct: u8,
    pub frames: u64,
    pub overruns: u64,
}

/// The rows of the sending side: five always, one more for samples that were
/// lost.
pub open spec fn send_rows(f: SendFigures, lang: Lang) -> Seq<(Seq<char>, Seq<char>)> {
    let always = seq![
        (said(Key::NumBitrate, lang), f.bitrate@),
        (said(Key::NumPeak, lang), f.peak@),
        (said(Key::NumJitter, lang), f.jitter@),
        (said(Key::NumFecFor, lang), said_of(Key::PctLoss, f.fec_pct as nat, lang)),
        (said(Key::NumFrames, lang), crate::text::decimal(f.frames as nat)),
    ];
    let lost = if f.overruns > 0 {
        seq![(said(Key::NumLost, lang), said_of(Key::SamplesN, f.overruns as nat, lang))]
    } else {
        Seq::empty()
    };
    always + lost
}

/// The rows of the sending side.
pub fn send_numbers(f: SendFigures, lang: Lang) -> (r: Vec<(String, String)>)
    ensures
        rows(r@) == send_rows(f, lang),
{
    let mut out: Vec<(String, String)> = Vec::new();
    out.push(row(Key::NumBitrate, f.bitrate, lang));
    out.push(row(Key::NumPeak, f.peak, lang));
    out.push(row(Key::NumJitter, f.jitter, lang));
    out.push(row(Key::NumFecFor, counted(Key::PctLoss, f.fec_pct as u64, lang), lang));
    out.push(row(Key::NumFrames, number(f.frames), lang));
    if f.overruns > 0 {
        out.push(row(Key::NumLost, counted(Key::SamplesN, f.overruns, lang), lang));
    }
    assert(rows(out@) =~= send_rows(f, lang));
    out
}

/// The line of detail: latency and loss as they are written, or that nobody is
/// listening yet.
pub fn detail_line(idle: bool, latency: &str, loss: &str, lang: Lang) -> (r: String)
    ensures
        r@ == if idle {
            said(Key::NobodyListening, lang)
        } else {
            crate::i18n::filled(said(Key::LatencyLoss, lang), seq![latency@, loss@])
        },
{
    if idle {
        t(Key::NobodyListening, lang).to_owned()
    } else {
        t2(Key::LatencyLoss, lang, latency, loss)
    }
}

/// A code that our receiver shows to the other machine.
pub struct ShownCode {
    pub peer: String,
    pub code: String,
}

/// Which half of the window.
#[derive(Debug, Clone, Copy, PartialEq, Eq, Structural)]
pub enum Which {
    Recv,
    Send,
}

/// Everything that the window reads.
pub struct Shared {
    pub recv: Side,
    pub send: Side,
    /// The code that we show to somebody who wants to pair with us.
    pub shown_code: Option<ShownCode>,
}

impl Shared {
    /// The side of a half.
    pub open spec fn of(&self, which: Which) -> Side {
        match which {
            Which::Recv => self.recv,
            Which::Send => self.send,
        }
    }

    /// Both sides are within their limits.
    pub open spec fn wf(&self) -> bool {
        self.recv.wf() && self.send.wf()
    }

    pub fn new() -> (r: Self)
        ensures
            r.wf(),
            r.shown_code is None,
            r.recv.blank() && r.send.blank(),
    {
        Shared { recv: Side::new(), send: Side::new(), shown_code: None }
    }

    /// The side of a half, to write to.
    pub fn side(&mut self, which: Which) -> (r: &mut Side)
        ensures
            *r == old(self).of(which),
            final(self).of(which) == *final(r),
            which is Recv ==> final(self).send == old(self).send,
            which is Send ==> final(self).recv == old(self).recv,
            final(self).shown_code == old(self).shown_code,
    {
        match which {
            Which::Recv => &mut self.recv,
            Which::Send => &mut self.send,
        }
    }

    /// The receiver shows a code.
    pub fn show_code(&mut self, peer: &str, code: &str)
        ensures
            final(self).shown_code is Some,
            final(self).shown_code->0.peer@ == peer@,
            final(self).shown_code->0.code@ == code@,
            final(self).recv == old(self).recv,
            final(self).send == old(self).send,
    {
        self.shown_code = Some(ShownCode { peer: peer.to_owned(), code: code.to_owned() });
    }

    /// The user has put the code away.
    pub fn hide_code(&mut self)
        ensures
            final(self).shown_code is None,
            final(self).recv == old(self).recv,
            final(self).send == old(self).send,
    {
        self.shown_code = None;
    }
}

/// A request for a pairing code, waiting for an answer from the window.
pub struct CodePrompt {
    /// Who asks. None means that nobody waits.
    pub peer: Option<String>,
    /// Typed digits; the window fills them in, the session takes them.
    answer: Option<String>,
    /// The user has given up.
    cancelled: bool,
}

/// Where a request for a code stands.
pub struct PromptView {
    pub peer: Option<Seq<char>>,
    pub answer: Option<Seq<char>>,
    pub cancelled: bool,
}

/// The view of an optional text.
pub open spec fn maybe(s: Option<String>) -> Option<Seq<char>> {
    match s {
        Some(s) => Some(s@),
        None => None,
    }
}

impl View for CodePrompt {
    type V = PromptView;

    closed spec fn view(&self) -> PromptView {
        PromptView {
            peer: maybe(self.peer),
            answer: maybe(self.answer),
            cancelled: self.cancelled,
        }
    }
}

/// What became of a request for a code.
#[derive(Debug)]
pub enum Prompted {
    /// Nothing yet: go on waiting.
    Waiting,
    /// The user gave up.
    Cancelled,
    /// Nobody typed anything in time.
    TimedOut,
    /// A code was typed, of the right length or not.
    Typed(Result<String, CodeLength>),
}

impl CodePrompt {
    /// Nobody asks.
    pub fn new() -> (r: Self)
        ensures
            r@ == (PromptView { peer: None, answer: None, cancelled: false }),
    {
        CodePrompt { peer: None, answer: None, cancelled: false }
    }

    /// A session asks; what was typed or given up before does not count.
    pub fn ask(&mut self, peer: &str)
        ensures
            final(self)@ == (PromptView { peer: Some(peer@), answer: None, cancelled: false }),
    {
        self.peer = Some(peer.to_owned());
        self.answer = None;
        self.cancelled = false;
    }

    /// The window hands over what was typed.
    pub fn answer_code(&mut self, code: &str)
        ensures
            final(self)@ == (PromptView { answer: Some(code@), ..old(self)@ }),
    {
        self.answer = Some(code.to_owned());
    }

    /// The user gives pairing up: the session is to give up too and not to wait
    /// for ever.
    pub fn cancel_code(&mut self)
        ensures
            final(self)@ == (PromptView { cancelled: true, ..old(self)@ }),
    {
        self.cancelled = true;
    }

    /// Whether somebody waits for a code, and who.
    pub fn awaiting_code(&self) -> (r: Option<String>)
        ensures
            maybe(r) == self@.peer,
    {
        match &self.peer {
            Some(p) => Some(p.clone()),
            None => None,
        }
    }

    /// The session looks whether there is an answer, after waking up on time or
    /// not. Whatever comes of it but waiting ends the request.
    pub fn look(&mut self, timed_out: bool) -> (r: Prompted)
        ensures
            timed_out ==> r is TimedOut && final(self)@ == (PromptView { peer: None, ..old(self)@ }),
            !timed_out && old(self)@.cancelled ==> r is Cancelled && final(self)@ == (PromptView {
                peer: None,
                ..old(self)@
            }),
            !timed_out && !old(self)@.cancelled ==> match old(self)@.answer {
                None => r is Waiting && final(self)@ == old(self)@,
                Some(typed) => {
                    let digits = typed.filter(|c: char| crate::net::pair::is_digit(c));
                    &&& r matches Prompted::Typed(code)
                    &&& code is Ok <==> digits.len() == crate::net::pair::CODE_DIGITS
                    &&& code matches Ok(c) ==> c@ == digits
                    &&& code matches Err(e) ==> e.got == digits.len()
                    &&& final(self)@ == (PromptView { peer: None, answer: None, ..old(self)@ })
                },
            },
    {
        if timed_out {
            self.peer = None;
            return Prompted::TimedOut;
        }
        if self.cancelled {
            self.peer = None;
            return Prompted::Cancelled;
        }
        match self.answer.take() {
            Some(typed) => {
                self.peer = None;
                Prompted::Typed(typed_code(typed.as_str()))
            },
            None => Prompted::Waiting,
        }
    }
}

/// What is said of a request that came to nothing.
pub fn gave_up(outcome: &Prompted, lang: Lang) -> (r: Option<&'static str>)
    ensures
        match outcome {
            Prompted::Cancelled => r is Some && r->0@ == said(Key::ErrPairingCancelled, lang),
            Prompted::TimedOut => r is Some && r->0@ == said(Key::ErrNobodyTypedCode, lang),
            _ => r is None,
        },
{
    match outcome {
        Prompted::Cancelled => Some(t(Key::ErrPairingCancelled, lang)),
        Prompted::TimedOut => Some(t(Key::ErrNobodyTypedCode, lang)),
        _ => None,
    }
}

/// The history stays bounded, and what stays is the newest.
pub proof fn the_history_stays_bounded(s: Seq<FloatBits>, v: FloatBits)
    requires
        s.len() <= HISTORY,
    ensures
        newest(s.push(v), HISTORY as nat).len() <= HISTORY,
        newest(s.push(v), HISTORY as nat).last() == v,
        s.len() < HISTORY ==> newest(s.push(v), HISTORY as nat) == s.push(v),
{
}

} // verus!
