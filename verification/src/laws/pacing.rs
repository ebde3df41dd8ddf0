//! The pace of playback and the depth of its cushion.
use vstd::prelude::*;

use crate::engine::codec::DecodeStep;
use crate::engine::jitter::JitterBuffer;
use crate::session::pacer::{
    next_step, ring_frames, ring_target, wants_frame, Beat, Pacer, PacerView, Regulation,
};

verus! {

/// A regulation comes every twenty milliseconds. It tells the time since the last
/// one, how deep the cushion was and whether frames went out, accounts for all that
/// was late or stalled so far, and touches nothing that is held. In between nothing
/// happens.
pub proof fn regulation_comes_at_its_time(now: u64, r: Option<Regulation>)
    ensures
        forall|p: &mut Pacer, jb: &mut JitterBuffer|
            {
                &&& #[trigger] call_ensures(Pacer::regulate, (p, now, jb), r)
                &&& (*p)@.last_tick <= now
            } ==> {
                &&& r is Some <==> now >= (*p)@.last_tick + 20_000_000
                &&& r is None ==> final(p)@ == (*p)@ && final(jb)@ == (*jb)@
                &&& r matches Some(reg) ==> {
                    &&& reg.elapsed == now - (*p)@.last_tick
                    &&& reg.depth == (*jb)@.slots.len()
                    &&& reg.playing <==> (*jb)@.next is Some
                    &&& final(p)@.last_tick == now
                    &&& final(p)@.seen_late == (*jb)@.late
                    &&& final(p)@.seen_stalls == (*jb)@.stalls
                    &&& final(p)@.adaptive == (*p)@.adaptive
                    &&& final(p)@.primed == (*p)@.primed
                    &&& final(p)@.playing_since == (*p)@.playing_since
                    &&& final(p)@.last_served == (*p)@.last_served
                    &&& final(p)@.last_served_at == (*p)@.last_served_at
                    &&& final(jb)@.slots == (*jb)@.slots
                    &&& final(jb)@.next == (*jb)@.next
                    &&& final(jb)@.late == (*jb)@.late && final(jb)@.lost == (*jb)@.lost
                }
            },
{
}

/// With an adaptive cushion, the depth to steer towards is the target after every
/// regulation, and where that is new, it is announced, and the buffer aims at it.
pub proof fn the_setpoint_follows_the_target(now: u64, reg: Regulation)
    ensures
        forall|p: &mut Pacer, jb: &mut JitterBuffer|
            {
                &&& #[trigger] call_ensures(Pacer::regulate, (p, now, jb), Some(reg))
                &&& (*p)@.adaptive
            } ==> {
                let wanted = final(p)@.target.current;
                &&& final(p)@.setpoint == wanted
                &&& wanted != (*p)@.setpoint ==> {
                    &&& reg.setpoint == Some(wanted)
                    &&& 1 <= wanted <= (*jb)@.max ==> final(jb)@.target == wanted
                }
                &&& wanted == (*p)@.setpoint ==> reg.setpoint is None && final(jb)@ == (*jb)@
            },
{
}

/// A cushion above its floor loses one frame, and exactly one, where nothing came
/// late or stalled since that was last accounted for and the last trouble or shrink
/// is the settling time back or more. The setpoint and the buffer follow, and the
/// next clean spell begins then.
pub proof fn a_clean_spell_takes_one_frame_off(now: u64, reg: Regulation)
    ensures
        forall|p: &mut Pacer, jb: &mut JitterBuffer|
            {
                &&& #[trigger] call_ensures(Pacer::regulate, (p, now, jb), Some(reg))
                &&& (*p)@.adaptive
                &&& (*jb)@.late <= (*p)@.seen_late && (*jb)@.stalls <= (*p)@.seen_stalls
                &&& (*p)@.target.current > (*p)@.target.min
                &&& now >= (*p)@.target.clean_since + (*p)@.target.settle
            } ==> {
                let less = (*p)@.target.current - 1;
                &&& final(p)@.target.current == less
                &&& final(p)@.target.clean_since == now
                &&& final(p)@.setpoint == less
                &&& (*p)@.setpoint != less ==> {
                    &&& reg.setpoint == Some(less as usize)
                    &&& 1 <= less <= (*jb)@.max ==> final(jb)@.target == less
                }
            },
{
}

/// Where nothing came late or stalled since that was last accounted for, and the
/// clean spell is not over or the target is at its floor, the target stays.
pub proof fn a_quiet_moment_changes_nothing(now: u64, reg: Regulation)
    ensures
        forall|p: &mut Pacer, jb: &mut JitterBuffer|
            {
                &&& #[trigger] call_ensures(Pacer::regulate, (p, now, jb), Some(reg))
                &&& (*jb)@.late <= (*p)@.seen_late && (*jb)@.stalls <= (*p)@.seen_stalls
                &&& (*p)@.target.clean_since <= now
                &&& (*p)@.target.current <= (*p)@.target.min || now < (*p)@.target.clean_since + (
                *p)@.target.settle
            } ==> final(p)@.target == (*p)@.target,
{
}

/// Something late or stalled since that was last accounted for, in a session past
/// its start, grows an adaptive cushion by two frames, or to its ceiling, unless it
/// grew within the last half second; and a clean spell has to begin anew.
pub proof fn trouble_grows_the_cushion(now: u64, reg: Regulation)
    ensures
        forall|p: &mut Pacer, jb: &mut JitterBuffer|
            {
                &&& #[trigger] call_ensures(Pacer::regulate, (p, now, jb), Some(reg))
                &&& (*p)@.adaptive && (*p)@.primed
                &&& (*jb)@.late > (*p)@.seen_late || (*jb)@.stalls > (*p)@.seen_stalls
                &&& (*p)@.target.min <= (*p)@.target.current <= (*p)@.target.max
                &&& (*p)@.target.settle > 0
            } ==> {
                let (before, after) = ((*p)@.target, final(p)@.target);
                let cooling = before.last_grow is Some && now < before.last_grow->0 + 500_000_000;
                &&& after.clean_since == now
                &&& cooling ==> after.current == before.current
                &&& !cooling && before.current + 2 <= before.max ==> after.current
                    == before.current + 2
                &&& !cooling && before.current + 2 > before.max ==> after.current == before.max
                &&& !cooling ==> after.last_grow == Some(now)
            },
{
}

/// Before the pipeline has filled once, nothing that came late or stalled grows the
/// cushion; a fixed cushion is never changed at all.
pub proof fn the_start_and_a_fixed_cushion_do_not_grow(now: u64, reg: Regulation)
    ensures
        forall|p: &mut Pacer, jb: &mut JitterBuffer| #[trigger]
            call_ensures(Pacer::regulate, (p, now, jb), Some(reg)) ==> {
                &&& !(*p)@.primed ==> final(p)@.target.current <= (*p)@.target.current
                &&& !(*p)@.adaptive ==> {
                    &&& final(p)@.target == (*p)@.target
                    &&& final(p)@.setpoint == (*p)@.setpoint
                    &&& reg.setpoint is None
                    &&& final(jb)@ == (*jb)@
                }
            },
{
}

/// Nobody draws from the sink: it has never called, or its count of calls is what it
/// was more than a quarter of a second ago.
pub open spec fn nobody_draws(p: PacerView, now: u64, served: u64) -> bool {
    served == 0 || (served == p.last_served && now > p.last_served_at + 250_000_000)
}

/// While nobody draws from the sink, the buffer is held at the start's cushion plus
/// what the ring will take, a hundred milliseconds at least; all that was late or
/// stalled is accounted for; an adaptive cushion goes back to its start, and the
/// pipeline has to fill anew. Where somebody draws, the buffer is left alone and the
/// ring is to be topped up.
#[verifier::rlimit(50)]
pub proof fn a_sink_that_nobody_draws_from_holds_playback(
    now: u64,
    served: u64,
    request: u64,
    frames: usize,
    ring: usize,
    beat: Beat,
)
    requires
        call_ensures(ring_target, (request,), ring),
    ensures
        forall|p: &mut Pacer, jb: &mut JitterBuffer|
            {
                &&& #[trigger] call_ensures(Pacer::beat, (p, now, served, request, jb), beat)
                &&& call_ensures(ring_frames, (request, (*p)@.device_rate), frames)
                &&& (*p)@.last_served_at <= now
                &&& (*p)@.inv() && (*jb)@.inv()
            } ==> {
                let (before, after) = ((*p)@, final(p)@);
                let hold = before.start_frames + if frames > 10 {
                    frames as int
                } else {
                    10
                };
                let start = before.start_frames;
                &&& beat is Idle <==> nobody_draws(before, now, served)
                &&& nobody_draws(before, now, served) ==> {
                    &&& final(jb)@.slots.len() == if (*jb)@.slots.len() <= hold {
                        (*jb)@.slots.len() as int
                    } else {
                        hold
                    }
                    &&& forall|j: u64, k: u64|
                        #![trigger (*jb)@.slots.contains_key(j), final(jb)@.slots.contains_key(k)]
                        (*jb)@.slots.contains_key(j) && final(jb)@.slots.contains_key(k) && k < j
                            ==> final(jb)@.slots.contains_key(j)
                    &&& final(jb)@.lost == (*jb)@.lost
                    &&& after.seen_late == (*jb)@.late && after.seen_stalls == (*jb)@.stalls
                    &&& !after.primed && after.playing_since is None
                    &&& before.adaptive ==> {
                        &&& before.target.min <= start <= before.target.max
                            ==> after.target.current == start
                        &&& start < before.target.min ==> after.target.current
                            == before.target.min
                        &&& start > before.target.max ==> after.target.current
                            == before.target.max
                        &&& after.target.clean_since == now && after.target.last_grow is None
                        &&& after.setpoint == after.target.current
                        &&& beat == (Beat::Idle { setpoint: Some(after.setpoint) })
                    }
                    &&& !before.adaptive ==> after.setpoint == before.setpoint && beat == (
                    Beat::Idle { setpoint: None })
                }
                &&& !nobody_draws(before, now, served) ==> {
                    &&& beat == (Beat::Play { ring })
                    &&& final(jb)@ == (*jb)@
                    &&& after.primed == before.primed && after.target == before.target
                    &&& after.setpoint == before.setpoint
                    &&& after.seen_late == before.seen_late && after.seen_stalls
                        == before.seen_stalls
                    &&& before.playing_since is Some ==> after.playing_since
                        == before.playing_since
                    &&& before.playing_since is None ==> after.playing_since == Some(now)
                }
                &&& after.last_served == served
                &&& served != before.last_served ==> after.last_served_at == now
                &&& served == before.last_served ==> after.last_served_at == before.last_served_at
                &&& after.last_tick == before.last_tick && after.start_frames
                    == before.start_frames
            },
{
    assert forall|p: &mut Pacer, jb: &mut JitterBuffer|
        {
            &&& #[trigger] call_ensures(Pacer::beat, (p, now, served, request, jb), beat)
            &&& call_ensures(ring_frames, (request, (*p)@.device_rate), frames)
            &&& (*p)@.last_served_at <= now
            &&& (*p)@.inv() && (*jb)@.inv()
            &&& nobody_draws((*p)@, now, served)
        } implies {
        let hold = (*p)@.start_frames + if frames > 10 {
            frames as int
        } else {
            10
        };
        &&& final(jb)@.slots.len() == if (*jb)@.slots.len() <= hold {
            (*jb)@.slots.len() as int
        } else {
            hold
        }
        &&& forall|j: u64, k: u64|
            #![trigger (*jb)@.slots.contains_key(j), final(jb)@.slots.contains_key(k)]
            (*jb)@.slots.contains_key(j) && final(jb)@.slots.contains_key(k) && k < j
                ==> final(jb)@.slots.contains_key(j)
    } by {
        crate::engine::jitter::newest_keeps_the_highest((*jb)@.slots, (*p)@.hold(request));
    }
}

/// The reserve in front of the card is twice the most that the card has asked for,
/// but no less than twenty milliseconds of sound and no more than half a second. In
/// frames it is rounded up: it covers the reserve, and one frame less would not.
pub proof fn the_reserve_is_twice_the_request(
    request: u64,
    device_rate: u32,
    samples: usize,
    frames: usize,
)
    requires
        call_ensures(ring_target, (request,), samples),
        call_ensures(ring_frames, (request, device_rate), frames),
        device_rate > 0,
    ensures
        960 <= samples <= 24_000,
        480 <= request <= 12_000 ==> samples == 2 * request,
        request < 480 ==> samples == 960,
        request > 12_000 ==> samples == 24_000,
        frames * device_rate >= samples * 100,
        (frames - 1) * device_rate < samples * 100,
{
    crate::session::pacer::the_reserve_is_covered(request, device_rate);
}

/// The first time the ring is full, or a second after playback began, and not again
/// until the sink has fallen silent, the cushion is trimmed to its target, and what
/// was late or stalled before is accounted for.
pub proof fn a_full_pipeline_trims_the_cushion_once(
    now: u64,
    occupied: usize,
    ring: usize,
    r: Option<usize>,
)
    ensures
        forall|p: &mut Pacer, jb: &mut JitterBuffer|
            {
                &&& #[trigger] call_ensures(Pacer::after_fill, (p, now, occupied, ring, jb), r)
                &&& (*jb)@.inv()
                &&& (*p)@.playing_since is Some ==> (*p)@.playing_since->0 <= now
            } ==> {
                let (before, after) = ((*p)@, final(p)@);
                let long = before.playing_since is Some && now > before.playing_since->0
                    + 1_000_000_000;
                &&& r is Some <==> !before.primed && (occupied >= ring || long)
                &&& r is None ==> after == before && final(jb)@ == (*jb)@
                &&& r matches Some(gone) ==> {
                    &&& after.primed
                    &&& after.seen_late == (*jb)@.late && after.seen_stalls == (*jb)@.stalls
                    &&& after.target == before.target && after.setpoint == before.setpoint
                    &&& final(jb)@.slots.len() == if (*jb)@.slots.len() <= (*jb)@.target {
                        (*jb)@.slots.len()
                    } else {
                        (*jb)@.target
                    }
                    &&& gone == (*jb)@.slots.len() - final(jb)@.slots.len()
                    &&& final(jb)@.lost == (*jb)@.lost && final(jb)@.late == (*jb)@.late
                }
            },
{
    assert forall|p: &mut Pacer, jb: &mut JitterBuffer|
        {
            &&& #[trigger] call_ensures(Pacer::after_fill, (p, now, occupied, ring, jb), r)
            &&& (*jb)@.inv()
            &&& r is Some
        } implies final(jb)@.slots.len() == if (*jb)@.slots.len() <= (*jb)@.target {
        (*jb)@.slots.len()
    } else {
        (*jb)@.target
    } by {
        crate::engine::jitter::newest_keeps_the_highest((*jb)@.slots, (*jb)@.target);
    }
}

/// The ring is fed while it is below its mark and has room for two frames.
pub proof fn the_ring_is_fed_below_its_mark(occupied: usize, vacant: usize, ring: usize, r: bool)
    requires
        call_ensures(wants_frame, (occupied, vacant, ring), r),
    ensures
        r <==> occupied < ring && vacant >= 960,
{
}

/// While frames go out, a cushion below its target is left alone. At the target and
/// above, the slot whose turn it is is played: its packet is decoded where it is
/// there; rebuilt from the next packet where that is there instead; and concealed
/// where neither is.
pub proof fn the_slot_in_turn_is_played(r: DecodeStep)
    ensures
        forall|jb: &mut JitterBuffer|
            {
                &&& #[trigger] call_ensures(next_step, (jb,), r)
                &&& (*jb)@.next is Some
                &&& (*jb)@.inv()
            } ==> {
                let n = (*jb)@.next->0;
                let s = (n + 1) as u64;
                &&& (*jb)@.slots.len() < (*jb)@.target ==> r is Wait && final(jb)@ == (*jb)@
                &&& (*jb)@.slots.len() >= (*jb)@.target ==> {
                    &&& final(jb)@.next == Some(s)
                    &&& (*jb)@.slots.contains_key(n) ==> (r matches DecodeStep::Decode(p) && p@ == (
                    *jb)@.slots[n])
                    &&& !(*jb)@.slots.contains_key(n) && (*jb)@.slots.contains_key(s) ==> (
                    r matches DecodeStep::DecodeFec(p) && p@ == (*jb)@.slots[s])
                    &&& !(*jb)@.slots.contains_key(n) && !(*jb)@.slots.contains_key(s)
                        ==> r is Conceal
                }
            },
{
}

/// A pacer starts with the cushion that it is told, at least two frames where it is
/// adaptive; it has accounted for nothing, and the pipeline has not filled.
pub proof fn a_pacer_starts_at_its_cushion(
    adaptive: bool,
    start: usize,
    max: usize,
    device_rate: u32,
    now: u64,
    p: Pacer,
    setpoint: usize,
)
    requires
        call_ensures(Pacer::new, (adaptive, start, max, device_rate, now), p),
        call_ensures(Pacer::setpoint, (&p,), setpoint),
        2 <= max,
    ensures
        setpoint == start,
        p@.adaptive == adaptive && p@.start_frames == start && p@.device_rate == device_rate,
        2 <= start <= max ==> p@.target.current == start,
        start < 2 ==> p@.target.current == 2,
        start > max ==> p@.target.current == max,
        p@.target.min == 2 && p@.target.max == max,
        p@.target.settle == 30_000_000_000 && p@.target.clean_since == now,
        p@.target.last_grow is None,
        !p@.primed && p@.playing_since is None,
        p@.seen_late == 0 && p@.seen_stalls == 0,
        p@.last_tick == now && p@.last_served == 0 && p@.last_served_at == now,
{
}

} // verus!
