//! Takes frames out of the jitter buffer at the pace of the sound card, and
//! decides when to trim it and how deep it should be.
//!
//! Times are nanoseconds on a clock that never runs backwards.
use vstd::prelude::*;

use crate::engine::codec::DecodeStep;
use crate::engine::jitter::{AdaptiveTarget, JitterBuffer, JitterView, PopView, TargetView};
use crate::proto::{FRAME_MS, FRAME_SAMPLES};
use crate::session::recv::{
    MIN_BUFFER_FRAMES, PRIMING_LIMIT, REGULATE_EVERY, RING_ASSUMED_MS, RING_FRAMES_LIMIT,
    RING_HEADROOM, RING_MIN, RING_SAMPLES, SINK_IDLE,
};

verus! {

/// The reserve in front of the card, cut to what the sink really asks for. Half
/// the ring is a hard ceiling, so as not to try to hold more than fits.
pub open spec fn ring_reserve(request: u64) -> int {
    if request * RING_HEADROOM < RING_MIN {
        RING_MIN as int
    } else if request * RING_HEADROOM > RING_SAMPLES / 2 {
        RING_SAMPLES as int / 2
    } else {
        request * RING_HEADROOM
    }
}

/// The reserve in front of the card, in samples.
pub fn ring_target(request: u64) -> (r: usize)
    requires
        request * RING_HEADROOM <= usize::MAX,
    ensures
        r == ring_reserve(request),
{
    let wanted: usize = request as usize * RING_HEADROOM;
    if wanted < RING_MIN {
        RING_MIN
    } else if wanted > RING_SAMPLES / 2 {
        RING_SAMPLES / 2
    } else {
        wanted
    }
}

/// The same reserve in frames of the stream, rounded up: the ring counts samples
/// at the rate of the device, the cushion counts frames of ten milliseconds.
pub open spec fn ring_reserve_frames(request: u64, device_rate: u32) -> int {
    (ring_reserve(request) * 100 + device_rate - 1) / device_rate as int
}

/// The reserve in front of the card, in frames.
pub fn ring_frames(request: u64, device_rate: u32) -> (r: usize)
    requires
        request * RING_HEADROOM <= usize::MAX,
        device_rate > 0,
    ensures
        r == ring_reserve_frames(request, device_rate),
        r <= RING_FRAMES_LIMIT,
{
    let samples: u64 = ring_target(request) as u64 * 100;
    let rate: u64 = device_rate as u64;
    let frames: u64 = (samples + rate - 1) / rate;
    proof {
        assert(samples + rate - 1 <= samples * rate) by (nonlinear_arith)
            requires
                samples >= 1,
                rate >= 1,
        ;
        vstd::arithmetic::div_mod::lemma_div_is_ordered(
            samples + rate - 1,
            samples * rate,
            rate as int,
        );
        vstd::arithmetic::div_mod::lemma_div_by_multiple(samples as int, rate as int);
    }
    frames as usize
}

/// The rounded-up reserve covers the reserve, and one frame less would not.
pub proof fn the_reserve_is_covered(request: u64, device_rate: u32)
    requires
        device_rate > 0,
    ensures
        ring_reserve_frames(request, device_rate) * device_rate >= ring_reserve(request) * 100,
        (ring_reserve_frames(request, device_rate) - 1) * device_rate < ring_reserve(request) * 100,
{
    let a = ring_reserve(request) * 100 + device_rate - 1;
    let d = device_rate as int;
    let q = a / d;
    vstd::arithmetic::div_mod::lemma_fundamental_div_mod(a, d);
    vstd::arithmetic::div_mod::lemma_mod_bound(a, d);
    assert(d * q == q * d) by (nonlinear_arith);
    assert((q - 1) * d == q * d - d) by (nonlinear_arith);
}

/// What a pacer remembers.
#[verifier::ext_equal]
pub struct PacerView {
    pub adaptive: bool,
    pub start_frames: usize,
    pub device_rate: u32,
    pub target: TargetView,
    /// The depth, in frames, that the drift controller steers towards.
    pub setpoint: usize,
    pub last_tick: u64,
    /// The pipeline has filled once since the sink last fell silent.
    pub primed: bool,
    pub playing_since: Option<u64>,
    /// The counts of late packets and of stalls that are accounted for.
    pub seen_late: nat,
    pub seen_stalls: nat,
    /// How often the sink had called, and when that last changed.
    pub last_served: u64,
    pub last_served_at: u64,
}

impl PacerView {
    pub open spec fn inv(self) -> bool {
        &&& self.target.inv()
        &&& self.target.max + 2 <= usize::MAX
        &&& self.start_frames + RING_FRAMES_LIMIT <= usize::MAX
        &&& self.device_rate > 0
    }

    /// The pacer after a look at how often the sink has called.
    pub open spec fn noticed(self, now: u64, served: u64) -> PacerView {
        if served != self.last_served {
            PacerView { last_served: served, last_served_at: now, ..self }
        } else {
            self
        }
    }

    /// Nobody draws from the sink: it has not called yet, or not for a while.
    pub open spec fn sink_is_idle(self, now: u64, served: u64) -> bool {
        served == 0 || crate::engine::jitter::since(
            now,
            self.noticed(now, served).last_served_at,
        ) > SINK_IDLE
    }

    /// The level at which the cushion is held while nobody listens: the target
    /// plus as much as will have to be poured into the ring at the start.
    pub open spec fn hold(self, request: u64) -> nat {
        let ring = ring_reserve_frames(request, self.device_rate);
        let assumed = RING_ASSUMED_MS as int / FRAME_MS as int;
        (self.start_frames + if ring > assumed {
            ring
        } else {
            assumed
        }) as nat
    }

    /// The pacer while nobody listens. Silence on our side is no trouble of the
    /// network: what was late or stalled so far is accounted for, and the target
    /// starts over.
    pub open spec fn idled(self, now: u64, served: u64, late: nat, stalls: nat) -> PacerView {
        let fresh = if self.adaptive {
            TargetView {
                current: crate::engine::jitter::clamped(
                    self.start_frames,
                    self.target.min,
                    self.target.max,
                ),
                clean_since: now,
                last_grow: None,
                ..self.target
            }
        } else {
            self.target
        };
        PacerView {
            playing_since: None,
            seen_late: late,
            seen_stalls: stalls,
            target: fresh,
            setpoint: if self.adaptive {
                fresh.current
            } else {
                self.setpoint
            },
            primed: false,
            ..self.noticed(now, served)
        }
    }

    /// The pacer while somebody listens.
    pub open spec fn played(self, now: u64, served: u64) -> PacerView {
        PacerView {
            playing_since: match self.playing_since {
                Some(s) => Some(s),
                None => Some(now),
            },
            ..self.noticed(now, served)
        }
    }

    /// The pipeline is full, or has had long enough to fill.
    pub open spec fn is_full(self, now: u64, occupied: nat, ring: nat) -> bool {
        occupied >= ring || crate::engine::jitter::since(
            now,
            match self.playing_since {
                Some(s) => s,
                None => now,
            },
        ) > PRIMING_LIMIT
    }

    /// Something came late, or playback stalled, since it was last accounted
    /// for, in a session that is past its start.
    pub open spec fn in_trouble(self, late: nat, stalls: nat) -> bool {
        self.primed && (late > self.seen_late || stalls > self.seen_stalls)
    }

    /// The target after a regulation.
    pub open spec fn regulated_target(self, now: u64, late: nat, stalls: nat) -> TargetView {
        if self.adaptive {
            let grown = if self.in_trouble(late, stalls) {
                self.target.on_late(now)
            } else {
                self.target
            };
            grown.tick(now)
        } else {
            self.target
        }
    }

    /// The pacer after a regulation.
    pub open spec fn regulated(self, now: u64, late: nat, stalls: nat) -> PacerView {
        let target = self.regulated_target(now, late, stalls);
        PacerView {
            last_tick: now,
            seen_late: late,
            seen_stalls: stalls,
            target,
            setpoint: if self.adaptive {
                target.current
            } else {
                self.setpoint
            },
            ..self
        }
    }
}

/// What one look at the sink comes to.
#[derive(Debug, Clone, Copy, PartialEq, Eq, Structural)]
pub enum Beat {
    /// Nobody listens. The drift controller starts over, and steers towards this
    /// depth in frames where one is given.
    Idle { setpoint: Option<usize> },
    /// Top the ring up to this many samples.
    Play { ring: usize },
}

/// What a regulation comes to.
#[derive(Debug, Clone, Copy, PartialEq, Eq, Structural)]
pub struct Regulation {
    /// The time since the last one.
    pub elapsed: u64,
    /// The depth of the cushion, in frames.
    pub depth: usize,
    /// Frames are going out. When they are not, the drift controller's past
    /// describes a world that is gone.
    pub playing: bool,
    /// A new depth to steer towards, in frames.
    pub setpoint: Option<usize>,
}

pub struct Pacer {
    adaptive: bool,
    start_frames: usize,
    device_rate: u32,
    target: AdaptiveTarget,
    setpoint: usize,
    last_tick: u64,
    primed: bool,
    playing_since: Option<u64>,
    seen_late: u64,
    seen_stalls: u64,
    last_served: u64,
    last_served_at: u64,
}

impl View for Pacer {
    type V = PacerView;

    closed spec fn view(&self) -> PacerView {
        PacerView {
            adaptive: self.adaptive,
            start_frames: self.start_frames,
            device_rate: self.device_rate,
            target: self.target@,
            setpoint: self.setpoint,
            last_tick: self.last_tick,
            primed: self.primed,
            playing_since: self.playing_since,
            seen_late: self.seen_late as nat,
            seen_stalls: self.seen_stalls as nat,
            last_served: self.last_served,
            last_served_at: self.last_served_at,
        }
    }
}

impl Pacer {
    pub fn new(
        adaptive: bool,
        start_frames: usize,
        max_frames: usize,
        device_rate: u32,
        now: u64,
    ) -> (r: Self)
        requires
            MIN_BUFFER_FRAMES <= max_frames,
            max_frames + 2 <= usize::MAX,
            start_frames + RING_FRAMES_LIMIT <= usize::MAX,
            device_rate > 0,
        ensures
            r@.inv(),
            r@ == (PacerView {
                adaptive,
                start_frames,
                device_rate,
                target: TargetView {
                    current: crate::engine::jitter::clamped(
                        start_frames,
                        MIN_BUFFER_FRAMES,
                        max_frames,
                    ),
                    min: MIN_BUFFER_FRAMES,
                    max: max_frames,
                    clean_since: now,
                    settle: crate::engine::jitter::SETTLE,
                    last_grow: None,
                },
                setpoint: start_frames,
                last_tick: now,
                primed: false,
                playing_since: None,
                seen_late: 0,
                seen_stalls: 0,
                last_served: 0,
                last_served_at: now,
            }),
    {
        Pacer {
            adaptive,
            start_frames,
            device_rate,
            target: AdaptiveTarget::new(start_frames, MIN_BUFFER_FRAMES, max_frames, now),
            setpoint: start_frames,
            last_tick: now,
            primed: false,
            playing_since: None,
            seen_late: 0,
            seen_stalls: 0,
            last_served: 0,
            last_served_at: now,
        }
    }

    /// The depth, in frames, that the drift controller steers towards.
    pub fn setpoint(&self) -> (r: usize)
        ensures
            r == self@.setpoint,
    {
        self.setpoint
    }

    /// One look at the sink, given how often it has called and the most it has
    /// asked for.
    ///
    /// The card starts with a delay of the order of a second, and a virtual input
    /// waits until somebody picks it in an application, which may take a quarter
    /// of an hour. In both cases our callback is silent and everything that flows
    /// in meanwhile is useless: nobody cares for sound of a minute ago. So the
    /// cushion is held trimmed instead of letting it swell to its ceiling.
    pub fn beat(&mut self, now: u64, served: u64, request: u64, jb: &mut JitterBuffer) -> (r: Beat)
        requires
            old(self)@.inv(),
            old(jb).wf(),
            request * RING_HEADROOM <= usize::MAX,
        ensures
            final(self)@.inv(),
            final(jb).wf(),
            old(self)@.sink_is_idle(now, served) ==> {
                &&& final(jb)@ == old(jb)@.trim(old(self)@.hold(request))
                &&& final(self)@ == old(self)@.idled(
                    now,
                    served,
                    old(jb)@.late,
                    old(jb)@.stalls,
                )
                &&& r == (Beat::Idle {
                    setpoint: if old(self)@.adaptive {
                        Some(final(self)@.setpoint)
                    } else {
                        None
                    },
                })
            },
            !old(self)@.sink_is_idle(now, served) ==> {
                &&& final(jb)@ == old(jb)@
                &&& final(self)@ == old(self)@.played(now, served)
                &&& r == (Beat::Play { ring: ring_reserve(request) as usize })
            },
    {
        if served != self.last_served {
            self.last_served = served;
            self.last_served_at = now;
        }
        if served == 0 || now.saturating_sub(self.last_served_at) > SINK_IDLE {
            self.playing_since = None;
            let ring: usize = ring_frames(request, self.device_rate);
            let assumed: usize = RING_ASSUMED_MS / FRAME_MS as usize;
            let hold: usize = self.start_frames + if ring > assumed {
                ring
            } else {
                assumed
            };
            jb.trim_to(hold);
            self.seen_late = jb.late();
            self.seen_stalls = jb.stalls();
            let mut setpoint: Option<usize> = None;
            if self.adaptive {
                self.target.reset(self.start_frames, now);
                self.setpoint = self.target.frames();
                setpoint = Some(self.setpoint);
            }
            self.primed = false;
            return Beat::Idle { setpoint };
        }
        if self.playing_since.is_none() {
            self.playing_since = Some(now);
        }
        Beat::Play { ring: ring_target(request) }
    }

    /// After the ring was topped up: the first time it is full, the cushion is
    /// trimmed a second time and the accounts start from there. Gives how many
    /// frames went, where that was done; the drift controller then starts over.
    ///
    /// Usually the pipeline fills in a fraction of a second; the limit is a
    /// safeguard for a sink that asks for more than we managed to gather, or else
    /// we would be stuck in starting up and adaptation would never begin.
    pub fn after_fill(&mut self, now: u64, occupied: usize, ring: usize, jb: &mut JitterBuffer) -> (r:
        Option<usize>)
        requires
            old(self)@.inv(),
            old(jb).wf(),
        ensures
            final(self)@.inv(),
            final(jb).wf(),
            r is Some <==> !old(self)@.primed && old(self)@.is_full(
                now,
                occupied as nat,
                ring as nat,
            ),
            r matches Some(dropped) ==> {
                &&& final(jb)@ == old(jb)@.trim(old(jb)@.target)
                &&& dropped == old(jb)@.slots.len() - final(jb)@.slots.len()
                &&& final(self)@ == (PacerView {
                    primed: true,
                    seen_late: old(jb)@.late,
                    seen_stalls: old(jb)@.stalls,
                    ..old(self)@
                })
            },
            r is None ==> final(jb)@ == old(jb)@ && final(self)@ == old(self)@,
    {
        let since: u64 = match self.playing_since {
            Some(s) => s,
            None => now,
        };
        if !self.primed && (occupied >= ring || now.saturating_sub(since) > PRIMING_LIMIT) {
            self.primed = true;
            let dropped: usize = jb.trim_to_target();
            self.seen_late = jb.late();
            self.seen_stalls = jb.stalls();
            return Some(dropped);
        }
        None
    }

    /// Regulates, where it is time to. The cushion grows on packets that came
    /// late and on stalls alone, which mean that we waited too short; plain loss
    /// says nothing about that.
    pub fn regulate(&mut self, now: u64, jb: &mut JitterBuffer) -> (r: Option<Regulation>)
        requires
            old(self)@.inv(),
            old(jb).wf(),
        ensures
            final(self)@.inv(),
            final(jb).wf(),
            r is Some <==> crate::engine::jitter::since(now, old(self)@.last_tick) >= REGULATE_EVERY,
            r matches Some(reg) ==> {
                let changed = old(self)@.adaptive && final(self)@.target.current != old(
                    self,
                )@.setpoint;
                &&& final(self)@ == old(self)@.regulated(now, old(jb)@.late, old(jb)@.stalls)
                &&& reg.elapsed == now - old(self)@.last_tick
                &&& reg.depth == old(jb)@.slots.len()
                &&& reg.playing == (old(jb)@.next is Some)
                &&& reg.setpoint == if changed {
                    Some(final(self)@.setpoint)
                } else {
                    None
                }
                &&& final(jb)@ == if changed {
                    old(jb)@.aim(final(self)@.target.current as nat)
                } else {
                    old(jb)@
                }
            },
            r is None ==> final(self)@ == old(self)@ && final(jb)@ == old(jb)@,
    {
        let elapsed: u64 = now.saturating_sub(self.last_tick);
        if elapsed < REGULATE_EVERY {
            return None;
        }
        self.last_tick = now;
        let depth: usize = jb.depth();
        let playing: bool = jb.playing();
        let late: u64 = jb.late();
        let stalls: u64 = jb.stalls();
        if self.adaptive && self.primed && (late > self.seen_late || stalls > self.seen_stalls) {
            self.target.on_late(now);
        }
        self.seen_late = late;
        self.seen_stalls = stalls;
        let mut setpoint: Option<usize> = None;
        if self.adaptive {
            self.target.tick(now);
            let wanted: usize = self.target.frames();
            if wanted != self.setpoint {
                jb.set_target_frames(wanted);
                self.setpoint = wanted;
                setpoint = Some(wanted);
            }
        }
        Some(Regulation { elapsed, depth, playing, setpoint })
    }
}

/// Whether the ring wants another frame and has room for what resampling can
/// make of it.
pub fn wants_frame(occupied: usize, vacant: usize, ring: usize) -> (r: bool)
    ensures
        r == (occupied < ring && vacant >= FRAME_SAMPLES * 2),
{
    occupied < ring && vacant >= FRAME_SAMPLES * 2
}

/// The cushion is below its target in the middle of playback: nothing is taken.
pub open spec fn holds_back(v: JitterView) -> bool {
    v.next is Some && v.slots.len() < v.target
}

/// What to decode next.
///
/// Only the surplus above the target is taken. The cushion has to stay in place:
/// it is what gives a late packet time to arrive before its turn. Draining it to
/// the bottom on every call of the card wiped out all protection from reordering
/// and reported an empty buffer as a stall of the link on top.
pub fn next_step(jb: &mut JitterBuffer) -> (r: DecodeStep)
    requires
        old(jb).wf(),
        old(jb)@.lost < u64::MAX,
        old(jb)@.stalls < u64::MAX,
    ensures
        final(jb).wf(),
        holds_back(old(jb)@) ==> r is Wait && final(jb)@ == old(jb)@,
        !holds_back(old(jb)@) ==> final(jb)@ == old(jb)@.pop().0 && match old(jb)@.pop().1 {
            PopView::Packet(p) => r matches DecodeStep::Decode(q) && q@ == p,
            PopView::LostRecoverable(p) => r matches DecodeStep::DecodeFec(q) && q@ == p,
            PopView::Lost => r is Conceal,
            PopView::Filling => r is Wait,
        },
{
    if jb.playing() && jb.depth() < jb.target_frames() {
        return DecodeStep::Wait;
    }
    DecodeStep::of(jb.pop())
}

/// In the middle of playback the cushion stays in place: taking a step leaves at
/// least one frame less than the target, and never stalls playback.
pub proof fn the_cushion_stays_in_place(v: JitterView)
    requires
        v.inv(),
        v.next is Some,
        !holds_back(v),
    ensures
        v.pop().0.slots.len() >= v.target - 1,
        v.pop().0.stalls == v.stalls,
        v.pop().0.next is Some,
{
}

/// Silence of the sink is no trouble of the network: right after it, with
/// nothing new late or stalled, a regulation does not grow the target beyond its
/// start.
pub proof fn silence_is_no_trouble(
    p: PacerView,
    now: u64,
    served: u64,
    late: nat,
    stalls: nat,
    later: u64,
)
    requires
        p.inv(),
        p.adaptive,
    ensures
        ({
            let start = crate::engine::jitter::clamped(p.start_frames, p.target.min, p.target.max);
            let idle = p.idled(now, served, late, stalls);
            &&& idle.target.current == start
            &&& idle.regulated(later, late, stalls).target.current <= start
        }),
{
}

/// Plain loss does not grow the target: only packets that came late and stalls
/// do.
pub proof fn plain_loss_does_not_grow_the_target(p: PacerView, now: u64)
    requires
        p.inv(),
    ensures
        p.regulated(now, p.seen_late, p.seen_stalls).target.current <= p.target.current,
{
}

/// While nobody listens the buffer never holds more than the hold level, and
/// nothing that goes counts as lost.
pub proof fn an_idle_sink_holds_the_buffer_trimmed(p: PacerView, request: u64, v: JitterView)
    requires
        v.inv(),
    ensures
        v.trim(p.hold(request)).slots.len() <= p.hold(request),
        v.trim(p.hold(request)).lost == v.lost,
{
    crate::engine::jitter::newest_keeps_the_highest(v.slots, p.hold(request));
}

/// A fixed cushion is never adapted.
pub proof fn a_fixed_cushion_stays(p: PacerView, now: u64, served: u64, late: nat, stalls: nat)
    requires
        !p.adaptive,
    ensures
        p.regulated(now, late, stalls).target == p.target,
        p.regulated(now, late, stalls).setpoint == p.setpoint,
        p.idled(now, served, late, stalls).setpoint == p.setpoint,
{
}

} // verus!
