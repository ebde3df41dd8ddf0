//! The jitter buffer and its target.
use vstd::prelude::*;

use crate::engine::jitter::{AdaptiveTarget, JitterBuffer, JitterView, Pop, PopView};

verus! {

/// A packet whose slot has not gone by is held under its number, beside all that
/// was held before, wherever there is room for it, however far ahead it is; nothing
/// else changes, and it does not count late. A second packet of a number takes the
/// place of the first.
pub proof fn a_packet_ahead_is_held(ext_seq: u64, packet: Vec<u8>)
    ensures
        forall|b: &mut JitterBuffer|
            {
                &&& #[trigger] call_ensures(JitterBuffer::push, (b, ext_seq, packet), ())
                &&& (*b)@.next matches Some(n) ==> n <= ext_seq
                &&& (*b)@.slots.dom().finite()
                &&& (*b)@.slots.len() < (*b)@.max || ((*b)@.slots.contains_key(ext_seq)
                    && (*b)@.slots.len() <= (*b)@.max)
            } ==> final(b)@ == (JitterView {
                slots: (*b)@.slots.insert(ext_seq, packet@),
                pushed: (*b)@.pushed + 1,
                ..(*b)@
            }),
{
}

/// A packet whose slot has gone by is not held and counts late. No other packet
/// counts late.
pub proof fn only_a_slot_gone_by_counts_late(ext_seq: u64, packet: Vec<u8>)
    ensures
        forall|b: &mut JitterBuffer| #[trigger]
            call_ensures(JitterBuffer::push, (b, ext_seq, packet), ()) ==> {
                let gone_by = (*b)@.next is Some && ext_seq < (*b)@.next->0;
                &&& gone_by ==> final(b)@ == (JitterView {
                    late: (*b)@.late + 1,
                    pushed: (*b)@.pushed + 1,
                    ..(*b)@
                })
                &&& !gone_by ==> final(b)@.late == (*b)@.late
                &&& final(b)@.lost == (*b)@.lost
            },
{
}

/// A full buffer takes a packet with a new number and lets the oldest go, of those
/// it held and the new one. While frames go out, the slot after the one that went
/// is next.
pub proof fn a_full_buffer_lets_the_oldest_go(ext_seq: u64, packet: Vec<u8>)
    ensures
        forall|b: &mut JitterBuffer|
            {
                &&& #[trigger] call_ensures(JitterBuffer::push, (b, ext_seq, packet), ())
                &&& (*b)@.inv()
                &&& ext_seq < u64::MAX
                &&& (*b)@.next matches Some(n) ==> n <= ext_seq
                &&& (*b)@.slots.len() == (*b)@.max
                &&& !(*b)@.slots.contains_key(ext_seq)
            } ==> {
                let all = (*b)@.slots.insert(ext_seq, packet@);
                exists|gone: u64|
                    {
                        &&& #[trigger] all.contains_key(gone)
                        &&& forall|k: u64| #[trigger] all.contains_key(k) ==> gone <= k
                        &&& final(b)@ == (JitterView {
                            slots: all.remove(gone),
                            pushed: (*b)@.pushed + 1,
                            dropped_overflow: (*b)@.dropped_overflow + 1,
                            next: if (*b)@.next is Some {
                                Some((gone + 1) as u64)
                            } else {
                                None
                            },
                            ..(*b)@
                        })
                    }
            },
{
    assert forall|b: &mut JitterBuffer|
        {
            &&& #[trigger] call_ensures(JitterBuffer::push, (b, ext_seq, packet), ())
            &&& (*b)@.inv()
            &&& ext_seq < u64::MAX
            &&& (*b)@.next matches Some(n) ==> n <= ext_seq
            &&& (*b)@.slots.len() == (*b)@.max
            &&& !(*b)@.slots.contains_key(ext_seq)
        } implies {
        let all = (*b)@.slots.insert(ext_seq, packet@);
        exists|gone: u64|
            {
                &&& #[trigger] all.contains_key(gone)
                &&& forall|k: u64| #[trigger] all.contains_key(k) ==> gone <= k
                &&& final(b)@ == (JitterView {
                    slots: all.remove(gone),
                    pushed: (*b)@.pushed + 1,
                    dropped_overflow: (*b)@.dropped_overflow + 1,
                    next: if (*b)@.next is Some {
                        Some((gone + 1) as u64)
                    } else {
                        None
                    },
                    ..(*b)@
                })
            }
    } by {
        let all = (*b)@.slots.insert(ext_seq, packet@);
        crate::engine::jitter::lemma_lowest(all);
        assert(all.contains_key(crate::engine::jitter::lowest(all)));
    }
}

/// While frames go out, a packet that is there at its turn goes out, and only that
/// leaves.
pub proof fn a_packet_goes_out_at_its_turn(r: Pop)
    ensures
        forall|b: &mut JitterBuffer|
            {
                &&& #[trigger] call_ensures(JitterBuffer::pop, (b,), r)
                &&& (*b)@.next is Some
                &&& (*b)@.slots.contains_key((*b)@.next->0)
            } ==> {
                let n = (*b)@.next->0;
                &&& r@ == PopView::Packet((*b)@.slots[n])
                &&& final(b)@ == (JitterView {
                    slots: (*b)@.slots.remove(n),
                    next: Some((n + 1) as u64),
                    popped: (*b)@.popped + 1,
                    ..(*b)@
                })
            },
{
}

/// While frames go out, a slot whose packet is not there goes by, counts as lost,
/// and leaves all that is held in place. The packet after it rebuilds it where that
/// is held; else it is lost for good.
pub proof fn a_missing_packet_costs_one_slot(r: Pop)
    ensures
        forall|b: &mut JitterBuffer|
            {
                &&& #[trigger] call_ensures(JitterBuffer::pop, (b,), r)
                &&& (*b)@.next is Some
                &&& !(*b)@.slots.contains_key((*b)@.next->0)
                &&& (*b)@.slots.len() > 0
            } ==> {
                let s = ((*b)@.next->0 + 1) as u64;
                let there = (*b)@.slots.contains_key(s);
                &&& there ==> r@ == PopView::LostRecoverable((*b)@.slots[s])
                &&& !there ==> r is Lost
                &&& final(b)@ == (JitterView {
                    next: Some(s),
                    lost: (*b)@.lost + 1,
                    recovered: (*b)@.recovered + if there {
                        1nat
                    } else {
                        0
                    },
                    ..(*b)@
                })
            },
{
}

/// Where nothing is held any more, playback stops and counts a stall; nothing is
/// counted as lost, and the buffer fills anew.
pub proof fn an_empty_buffer_stalls(r: Pop)
    ensures
        forall|b: &mut JitterBuffer|
            {
                &&& #[trigger] call_ensures(JitterBuffer::pop, (b,), r)
                &&& (*b)@.next is Some
                &&& (*b)@.slots.dom().finite()
                &&& (*b)@.slots.len() == 0
            } ==> {
                &&& r is Filling
                &&& final(b)@ == (JitterView {
                    next: None,
                    stalls: (*b)@.stalls + 1,
                    ..(*b)@
                })
            },
{
    assert forall|b: &mut JitterBuffer|
        {
            &&& #[trigger] call_ensures(JitterBuffer::pop, (b,), r)
            &&& (*b)@.next is Some
            &&& (*b)@.slots.dom().finite()
            &&& (*b)@.slots.len() == 0
        } implies {
        &&& r is Filling
        &&& final(b)@ == (JitterView { next: None, stalls: (*b)@.stalls + 1, ..(*b)@ })
    } by {
        assert((*b)@.slots.dom() =~= Set::empty());
    }
}

/// A buffer that fills hands nothing out and changes nothing below its target. At
/// the target and above, as many of the newest packets as the target asks for are
/// kept: the oldest of these goes out, the others stay, the ones before it are
/// trimmed, and none of them counts as lost.
#[verifier::rlimit(50)]
pub proof fn filling_ends_at_the_target(r: Pop)
    ensures
        forall|b: &mut JitterBuffer|
            {
                &&& #[trigger] call_ensures(JitterBuffer::pop, (b,), r)
                &&& (*b)@.inv()
                &&& (*b)@.next is None
            } ==> {
                &&& (*b)@.slots.len() < (*b)@.target ==> r is Filling && final(b)@ == (*b)@
                &&& (*b)@.slots.len() >= (*b)@.target ==> exists|first: u64|
                    {
                        &&& #[trigger] (*b)@.slots.contains_key(first)
                        &&& r@ == PopView::Packet((*b)@.slots[first])
                        &&& final(b)@.next == Some((first + 1) as u64)
                        &&& final(b)@.slots.len() == (*b)@.target - 1
                        &&& forall|k: u64|
                            final(b)@.slots.contains_key(k) <==> k > first
                                && #[trigger] (*b)@.slots.contains_key(k)
                        &&& forall|k: u64|
                            #[trigger] final(b)@.slots.contains_key(k) ==> final(b)@.slots[k]
                                == (*b)@.slots[k]
                        &&& final(b)@.popped == (*b)@.popped + 1
                        &&& final(b)@.trimmed == (*b)@.trimmed + (*b)@.slots.len() - (*b)@.target
                        &&& final(b)@.lost == (*b)@.lost
                        &&& final(b)@.late == (*b)@.late
                        &&& final(b)@.stalls == (*b)@.stalls
                        &&& final(b)@.target == (*b)@.target
                    }
            },
{
    assert forall|b: &mut JitterBuffer|
        {
            &&& #[trigger] call_ensures(JitterBuffer::pop, (b,), r)
            &&& (*b)@.inv()
            &&& (*b)@.next is None
            &&& (*b)@.slots.len() >= (*b)@.target
        } implies exists|first: u64|
        {
            &&& #[trigger] (*b)@.slots.contains_key(first)
            &&& r@ == PopView::Packet((*b)@.slots[first])
            &&& final(b)@.next == Some((first + 1) as u64)
            &&& final(b)@.slots.len() == (*b)@.target - 1
            &&& forall|k: u64|
                final(b)@.slots.contains_key(k) <==> k > first && #[trigger] (
                *b)@.slots.contains_key(k)
            &&& forall|k: u64|
                #[trigger] final(b)@.slots.contains_key(k) ==> final(b)@.slots[k] == (*b)@.slots[k]
            &&& final(b)@.popped == (*b)@.popped + 1
            &&& final(b)@.trimmed == (*b)@.trimmed + (*b)@.slots.len() - (*b)@.target
            &&& final(b)@.lost == (*b)@.lost
            &&& final(b)@.late == (*b)@.late
            &&& final(b)@.stalls == (*b)@.stalls
            &&& final(b)@.target == (*b)@.target
        } by {
        let slots = (*b)@.slots;
        let kept = crate::engine::jitter::newest(slots, (*b)@.target);
        crate::engine::jitter::newest_keeps_the_highest(slots, (*b)@.target);
        crate::engine::jitter::lemma_lowest(kept);
        let first = crate::engine::jitter::lowest(kept);
        assert(slots.contains_key(first));
        assert(kept.dom().contains(first));
        assert(final(b)@.slots =~= kept.remove(first));
        assert(kept.remove(first).dom() =~= kept.dom().remove(first));
        assert(r@ == PopView::Packet(slots[first]));
        assert forall|k: u64|
            final(b)@.slots.contains_key(k) <==> k > first && #[trigger] slots.contains_key(k) by {
            if slots.contains_key(k) && !kept.contains_key(k) {
                assert(kept.contains_key(first));
            }
        }
        assert(final(b)@.next == Some((first + 1) as u64));
        assert(final(b)@.slots.len() == (*b)@.target - 1);
        assert forall|k: u64| #[trigger] final(b)@.slots.contains_key(k) implies final(b)@.slots[k]
            == slots[k] by {
            assert(kept.dom().contains(k) && slots.dom().contains(k));
        }
        assert(final(b)@.trimmed == (*b)@.trimmed + slots.len() - (*b)@.target);
        assert(final(b)@.popped == (*b)@.popped + 1 && final(b)@.lost == (*b)@.lost);
    }
}

/// Trimming to a number of frames keeps that many of the newest packets, or all
/// where there are no more. The oldest that is left goes out next. What went is
/// counted as trimmed, and as nothing else.
#[verifier::rlimit(50)]
pub proof fn trimming_keeps_the_newest(frames: usize, gone: usize)
    ensures
        forall|b: &mut JitterBuffer|
            {
                &&& #[trigger] call_ensures(JitterBuffer::trim_to, (b, frames), gone)
                &&& (*b)@.inv()
            } ==> {
                let (before, after) = ((*b)@, final(b)@);
                &&& after.slots.len() == if before.slots.len() <= frames {
                    before.slots.len()
                } else {
                    frames as nat
                }
                &&& gone == before.slots.len() - after.slots.len()
                &&& forall|k: u64| #[trigger]
                    after.slots.contains_key(k) ==> before.slots.contains_key(k) && after.slots[k]
                        == before.slots[k]
                &&& forall|j: u64, k: u64|
                    #![trigger before.slots.contains_key(j), after.slots.contains_key(k)]
                    before.slots.contains_key(j) && after.slots.contains_key(k) && k < j
                        ==> after.slots.contains_key(j)
                &&& after.slots.len() > 0 ==> {
                    &&& after.next is Some
                    &&& after.slots.contains_key(after.next->0)
                    &&& forall|k: u64| #[trigger]
                        after.slots.contains_key(k) ==> after.next->0 <= k
                }
                &&& after.slots.len() == 0 ==> after.next == before.next
                &&& after.trimmed == before.trimmed + gone
                &&& after.lost == before.lost && after.late == before.late
                &&& after.popped == before.popped && after.pushed == before.pushed
                &&& after.stalls == before.stalls && after.recovered == before.recovered
                &&& after.dropped_overflow == before.dropped_overflow
                &&& after.target == before.target && after.max == before.max
            },
{
    assert forall|b: &mut JitterBuffer|
        {
            &&& #[trigger] call_ensures(JitterBuffer::trim_to, (b, frames), gone)
            &&& (*b)@.inv()
        } implies {
        let (before, after) = ((*b)@, final(b)@);
        &&& after.slots.len() == if before.slots.len() <= frames {
            before.slots.len()
        } else {
            frames as nat
        }
        &&& gone == before.slots.len() - after.slots.len()
        &&& forall|k: u64| #[trigger]
            after.slots.contains_key(k) ==> before.slots.contains_key(k) && after.slots[k]
                == before.slots[k]
        &&& forall|j: u64, k: u64|
            #![trigger before.slots.contains_key(j), after.slots.contains_key(k)]
            before.slots.contains_key(j) && after.slots.contains_key(k) && k < j
                ==> after.slots.contains_key(j)
        &&& after.slots.len() > 0 ==> {
            &&& after.next is Some
            &&& after.slots.contains_key(after.next->0)
            &&& forall|k: u64| #[trigger] after.slots.contains_key(k) ==> after.next->0 <= k
        }
        &&& after.slots.len() == 0 ==> after.next == before.next
        &&& after.trimmed == before.trimmed + gone
        &&& after.lost == before.lost && after.late == before.late
        &&& after.popped == before.popped && after.pushed == before.pushed
        &&& after.stalls == before.stalls && after.recovered == before.recovered
        &&& after.dropped_overflow == before.dropped_overflow
        &&& after.target == before.target && after.max == before.max
    } by {
        let slots = (*b)@.slots;
        let kept = crate::engine::jitter::newest(slots, frames as nat);
        crate::engine::jitter::newest_keeps_the_highest(slots, frames as nat);
        if kept.len() > 0 {
            crate::engine::jitter::lemma_lowest(kept);
        }
    }
}

/// Trimming to the target is trimming to as many frames as the target says.
pub proof fn trimming_to_the_target(gone: usize)
    ensures
        forall|b: &mut JitterBuffer|
            {
                &&& #[trigger] call_ensures(JitterBuffer::trim_to_target, (b,), gone)
                &&& (*b)@.inv()
            } ==> {
                &&& final(b)@.slots.len() <= (*b)@.target
                &&& (*b)@.slots.len() > (*b)@.target ==> final(b)@.slots.len() == (*b)@.target
                &&& (*b)@.slots.len() <= (*b)@.target ==> final(b)@.slots == (*b)@.slots
                &&& gone == (*b)@.slots.len() - final(b)@.slots.len()
                &&& final(b)@.trimmed == (*b)@.trimmed + gone
                &&& forall|j: u64, k: u64|
                    #![trigger (*b)@.slots.contains_key(j), final(b)@.slots.contains_key(k)]
                    (*b)@.slots.contains_key(j) && final(b)@.slots.contains_key(k) && k < j
                        ==> final(b)@.slots.contains_key(j) && final(b)@.slots[j] == (*b)@.slots[j]
            },
{
    assert forall|b: &mut JitterBuffer|
        {
            &&& #[trigger] call_ensures(JitterBuffer::trim_to_target, (b,), gone)
            &&& (*b)@.inv()
        } implies {
        &&& final(b)@.slots.len() <= (*b)@.target
        &&& (*b)@.slots.len() > (*b)@.target ==> final(b)@.slots.len() == (*b)@.target
        &&& (*b)@.slots.len() <= (*b)@.target ==> final(b)@.slots == (*b)@.slots
        &&& gone == (*b)@.slots.len() - final(b)@.slots.len()
        &&& final(b)@.trimmed == (*b)@.trimmed + gone
        &&& forall|j: u64, k: u64|
            #![trigger (*b)@.slots.contains_key(j), final(b)@.slots.contains_key(k)]
            (*b)@.slots.contains_key(j) && final(b)@.slots.contains_key(k) && k < j
                ==> final(b)@.slots.contains_key(j) && final(b)@.slots[j] == (*b)@.slots[j]
    } by {
        crate::engine::jitter::newest_keeps_the_highest((*b)@.slots, (*b)@.target);
    }
}

/// A new target is at least one frame and at most the cap, and the one that was
/// asked for where that is in between. What is held stays.
pub proof fn a_target_is_kept_in_range(frames: usize)
    ensures
        forall|b: &mut JitterBuffer|
            {
                &&& #[trigger] call_ensures(JitterBuffer::set_target_frames, (b, frames), ())
                &&& (*b)@.inv()
            } ==> {
                &&& 1 <= final(b)@.target <= (*b)@.max
                &&& 1 <= frames <= (*b)@.max ==> final(b)@.target == frames
                &&& frames == 0 ==> final(b)@.target == 1
                &&& frames > (*b)@.max ==> final(b)@.target == (*b)@.max
                &&& final(b)@ == (JitterView { target: final(b)@.target, ..(*b)@ })
            },
{
}

/// A new buffer holds nothing, has counted nothing, fills, and has the target and
/// the cap that it was made with.
pub proof fn a_new_buffer_is_empty(target_frames: usize, max_frames: usize, b: JitterBuffer)
    requires
        call_ensures(JitterBuffer::new, (target_frames, max_frames), b),
    ensures
        b@.slots.len() == 0,
        b@.next is None,
        b@.target == target_frames && b@.max == max_frames,
        b@.pushed == 0 && b@.popped == 0 && b@.lost == 0 && b@.recovered == 0,
        b@.late == 0 && b@.dropped_overflow == 0 && b@.trimmed == 0 && b@.stalls == 0,
{
}

/// What a buffer says of itself is what it holds and has counted.
pub proof fn a_buffer_tells_its_state(
    b: JitterBuffer,
    depth: usize,
    target: usize,
    playing: bool,
)
    requires
        call_ensures(JitterBuffer::depth, (&b,), depth),
        call_ensures(JitterBuffer::target_frames, (&b,), target),
        call_ensures(JitterBuffer::playing, (&b,), playing),
    ensures
        depth == b@.slots.len(),
        target == b@.target,
        playing <==> b@.next is Some,
        forall|n: u64| #[trigger] call_ensures(JitterBuffer::pushed, (&b,), n) ==> n == b@.pushed,
        forall|n: u64| #[trigger] call_ensures(JitterBuffer::popped, (&b,), n) ==> n == b@.popped,
        forall|n: u64| #[trigger] call_ensures(JitterBuffer::lost, (&b,), n) ==> n == b@.lost,
        forall|n: u64| #[trigger]
            call_ensures(JitterBuffer::recovered, (&b,), n) ==> n == b@.recovered,
        forall|n: u64| #[trigger] call_ensures(JitterBuffer::late, (&b,), n) ==> n == b@.late,
        forall|n: u64| #[trigger]
            call_ensures(JitterBuffer::dropped_overflow, (&b,), n) ==> n == b@.dropped_overflow,
        forall|n: u64| #[trigger] call_ensures(JitterBuffer::trimmed, (&b,), n) ==> n == b@.trimmed,
        forall|n: u64| #[trigger] call_ensures(JitterBuffer::stalls, (&b,), n) ==> n == b@.stalls,
{
}

/// Something late grows the target by two frames, or to its ceiling where that is
/// nearer, unless it grew within the last half second. Either way a clean spell has
/// to begin anew.
pub proof fn lateness_grows_the_target(now: u64)
    ensures
        forall|t: &mut AdaptiveTarget|
            {
                &&& #[trigger] call_ensures(AdaptiveTarget::on_late, (t, now), ())
                &&& (*t)@.min <= (*t)@.current <= (*t)@.max
            } ==> {
                let (before, after) = ((*t)@, final(t)@);
                let cooling = before.last_grow is Some && now < before.last_grow->0 + 500_000_000;
                &&& cooling ==> after.current == before.current && after.last_grow
                    == before.last_grow
                &&& !cooling ==> {
                    &&& before.current + 2 <= before.max ==> after.current == before.current + 2
                    &&& before.current + 2 > before.max ==> after.current == before.max
                    &&& after.last_grow == Some(now)
                }
                &&& after.clean_since == now
                &&& after.min == before.min && after.max == before.max
                &&& after.settle == before.settle
            },
{
}

/// A clean spell of the settling time takes one frame off the target, down to its
/// floor, and the next spell begins then. Before that nothing changes.
pub proof fn a_clean_spell_shrinks_the_target(now: u64, changed: bool)
    ensures
        forall|t: &mut AdaptiveTarget|
            {
                &&& #[trigger] call_ensures(AdaptiveTarget::tick, (t, now), changed)
                &&& (*t)@.min <= (*t)@.current <= (*t)@.max
                &&& (*t)@.clean_since <= now
            } ==> {
                let (before, after) = ((*t)@, final(t)@);
                let due = before.current > before.min && now >= before.clean_since + before.settle;
                &&& changed == due
                &&& due ==> after.current == before.current - 1 && after.clean_since == now
                &&& !due ==> after.current == before.current && after.clean_since
                    == before.clean_since
                &&& after.last_grow == before.last_grow && after.settle == before.settle
                &&& after.min == before.min && after.max == before.max
            },
{
}

/// A target starts where it is told to, or at the end of its range that is nearer,
/// waits for clean spells of half a minute, and has not grown yet. Starting over
/// does the same with the range that it has.
pub proof fn a_target_starts_where_it_is_told(
    start: usize,
    min: usize,
    max: usize,
    now: u64,
    t: AdaptiveTarget,
)
    requires
        call_ensures(AdaptiveTarget::new, (start, min, max, now), t),
        min <= max,
    ensures
        min <= start <= max ==> t@.current == start,
        start < min ==> t@.current == min,
        start > max ==> t@.current == max,
        t@.min == min && t@.max == max,
        t@.clean_since == now && t@.settle == 30_000_000_000,
        t@.last_grow is None,
        forall|u: &mut AdaptiveTarget|
            {
                &&& #[trigger] call_ensures(AdaptiveTarget::reset, (u, start, now), ())
                &&& (*u)@.min == min && (*u)@.max == max
            } ==> {
                &&& final(u)@.current == t@.current
                &&& final(u)@.min == min && final(u)@.max == max
                &&& final(u)@.clean_since == now && final(u)@.last_grow is None
                &&& final(u)@.settle == (*u)@.settle
            },
        forall|n: usize| #[trigger] call_ensures(AdaptiveTarget::frames, (&t,), n) ==> n
            == t@.current,
        forall|settle: u64, u: AdaptiveTarget| #[trigger]
            call_ensures(AdaptiveTarget::with_settle, (t, settle), u) ==> {
                &&& u@.settle == settle
                &&& u@.current == t@.current && u@.min == t@.min && u@.max == t@.max
                &&& u@.clean_since == t@.clean_since && u@.last_grow == t@.last_grow
            },
{
}

} // verus!
