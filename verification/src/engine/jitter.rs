//! Reordering buffer that absorbs network jitter.
//!
//! It holds *encoded* packets, not decoded audio. That is deliberate: Opus
//! recovers a lost frame from the redundant copy carried inside the following
//! packet, so decoding has to happen after reordering, with the successor in
//! hand. Decoding on arrival would throw that away.
//!
//! Steady-state depth is governed by the drift controller, which resamples the
//! buffer toward its setpoint. The target here is the prefill threshold and the
//! level trimmed to when playback (re)starts.
use std::collections::BTreeMap;

use vstd::prelude::*;
use vstd::std_specs::cmp::OrdSpec;

verus! {

/// The lowest key of a map, where it has one.
pub open spec fn lowest<V>(m: Map<u64, V>) -> u64 {
    choose|k: u64| is_lowest(m, k)
}

/// `k` is a key of the map and no other key is below it.
pub open spec fn is_lowest<V>(m: Map<u64, V>, k: u64) -> bool {
    m.contains_key(k) && forall|j: u64| #[trigger] m.contains_key(j) ==> k <= j
}

/// What is left of a map when its lowest keys go until at most `n` are left.
pub open spec fn newest<V>(m: Map<u64, V>, n: nat) -> Map<u64, V>
    decreases m.len(),
    when m.dom().finite()
{
    if m.len() <= n {
        m
    } else {
        proof {
            lemma_lowest(m);
        }
        newest(m.remove(lowest(m)), n)
    }
}

/// A finite map that is not empty has a lowest key.
pub proof fn lemma_lowest<V>(m: Map<u64, V>)
    requires
        m.dom().finite(),
        m.len() > 0,
    ensures
        is_lowest(m, lowest(m)),
    decreases m.len(),
{
    let k = m.dom().choose();
    let rest = m.remove(k);
    if rest.len() == 0 {
        assert forall|j: u64| #[trigger] m.contains_key(j) implies k <= j by {
            if j != k {
                assert(rest.contains_key(j));
                assert(rest.dom().contains(j));
                assert(rest.dom() =~= Set::empty());
            }
        }
        assert(is_lowest(m, k));
    } else {
        lemma_lowest(rest);
        let r = lowest(rest);
        let best = if r < k {
            r
        } else {
            k
        };
        assert forall|j: u64| #[trigger] m.contains_key(j) implies best <= j by {
            if j != k {
                assert(rest.contains_key(j));
            }
        }
        assert(is_lowest(m, best));
    }
}

/// There is only one lowest key.
proof fn lemma_lowest_is(m: Map<u64, Seq<u8>>, k: u64)
    requires
        is_lowest(m, k),
    ensures
        lowest(m) == k,
{
    assert(is_lowest(m, lowest(m)));
}

/// `newest` keeps `n` keys where there are as many, keeps their values, and
/// every key that goes is below every key that stays.
pub proof fn newest_keeps_the_highest<V>(m: Map<u64, V>, n: nat)
    requires
        m.dom().finite(),
    ensures
        newest(m, n).dom().finite(),
        newest(m, n).len() == if m.len() <= n {
            m.len()
        } else {
            n
        },
        newest(m, n).submap_of(m),
        forall|j: u64, k: u64|
            #![trigger m.contains_key(j), newest(m, n).contains_key(k)]
            m.contains_key(j) && !newest(m, n).contains_key(j) && newest(m, n).contains_key(k)
                ==> j < k,
    decreases m.len(),
{
    if m.len() > n {
        lemma_lowest(m);
        let low = lowest(m);
        let rest = m.remove(low);
        newest_keeps_the_highest(rest, n);
        assert forall|j: u64, k: u64|
            #![trigger m.contains_key(j), newest(m, n).contains_key(k)]
            m.contains_key(j) && !newest(m, n).contains_key(j) && newest(m, n).contains_key(
                k,
            ) implies j < k by {
            assert(rest.contains_key(k));
            if j != low {
                assert(rest.contains_key(j));
            }
        }
    }
}

/// What the playback side gets when it asks for the next frame.
#[derive(Debug, PartialEq)]
pub enum Pop {
    /// The packet for this slot.
    Packet(Vec<u8>),
    /// This slot never arrived, but the following packet is held. Decode that
    /// one with FEC to reconstruct this frame; it stays queued for its own turn.
    LostRecoverable(Vec<u8>),
    /// Nothing to rebuild from. The caller conceals.
    Lost,
    /// Still prefilling, or the stream stopped. Not an error.
    Filling,
}

/// The bytes that a `Pop` carries.
pub enum PopView {
    Packet(Seq<u8>),
    LostRecoverable(Seq<u8>),
    Lost,
    Filling,
}

impl View for Pop {
    type V = PopView;

    open spec fn view(&self) -> PopView {
        match *self {
            Pop::Packet(p) => PopView::Packet(p@),
            Pop::LostRecoverable(p) => PopView::LostRecoverable(p@),
            Pop::Lost => PopView::Lost,
            Pop::Filling => PopView::Filling,
        }
    }
}

/// What a jitter buffer holds and what it has counted.
#[verifier::ext_equal]
pub struct JitterView {
    /// Sequence number to packet.
    pub slots: Map<u64, Seq<u8>>,
    pub target: nat,
    pub max: nat,
    /// The number that goes out next; none while prefilling.
    pub next: Option<u64>,
    pub pushed: nat,
    pub popped: nat,
    pub lost: nat,
    pub recovered: nat,
    pub late: nat,
    pub dropped_overflow: nat,
    pub trimmed: nat,
    pub stalls: nat,
}

impl JitterView {
    /// The state of a new buffer.
    pub open spec fn fresh(target: nat, max: nat) -> JitterView {
        JitterView {
            slots: Map::empty(),
            target,
            max,
            next: None,
            pushed: 0,
            popped: 0,
            lost: 0,
            recovered: 0,
            late: 0,
            dropped_overflow: 0,
            trimmed: 0,
            stalls: 0,
        }
    }

    /// What holds of every buffer: the target and the cap are in order, the cap
    /// bounds the depth, nothing held is older than what goes out next, every
    /// held, delivered or discarded packet was pushed, and no more frames were
    /// rebuilt than lost.
    pub open spec fn inv(self) -> bool {
        &&& 1 <= self.target <= self.max
        &&& self.slots.dom().finite()
        &&& self.slots.len() <= self.max
        &&& forall|k: u64| #[trigger] self.slots.contains_key(k) ==> k < u64::MAX
        &&& self.next matches Some(n) ==> forall|k: u64| #[trigger]
            self.slots.contains_key(k) ==> n <= k
        &&& self.slots.len() + self.popped + self.late + self.dropped_overflow + self.trimmed
            <= self.pushed
        &&& self.recovered <= self.lost
    }

    /// Every packet that came in is held, went out, came late, was shed over the
    /// cap or trimmed.
    pub open spec fn accounted(self) -> bool {
        self.slots.len() + self.popped + self.late + self.dropped_overflow + self.trimmed
            == self.pushed
    }

    /// The state after a packet came in.
    ///
    /// A packet whose slot has already been handed out is useless and counted
    /// late. Any other takes its slot; beyond the cap the oldest goes, to bound
    /// latency.
    pub open spec fn push(self, ext_seq: u64, packet: Seq<u8>) -> JitterView {
        if self.next matches Some(n) && ext_seq < n {
            JitterView { pushed: self.pushed + 1, late: self.late + 1, ..self }
        } else {
            let held = self.slots.insert(ext_seq, packet);
            if held.len() <= self.max {
                JitterView { pushed: self.pushed + 1, slots: held, ..self }
            } else {
                let oldest = lowest(held);
                JitterView {
                    pushed: self.pushed + 1,
                    slots: held.remove(oldest),
                    dropped_overflow: self.dropped_overflow + 1,
                    next: match self.next {
                        Some(_) => Some((oldest + 1) as u64),
                        None => None,
                    },
                    ..self
                }
            }
        }
    }

    /// The state and the answer when the next frame is asked for.
    pub open spec fn pop(self) -> (JitterView, PopView) {
        match self.next {
            None => if self.slots.len() < self.target {
                (self, PopView::Filling)
            } else {
                // Whatever piled up beyond the target is shed before anything
                // is audible; then the oldest that is left goes out.
                let kept = newest(self.slots, self.target);
                let first = lowest(kept);
                (
                    JitterView {
                        slots: kept.remove(first),
                        trimmed: (self.trimmed + self.slots.len() - self.target) as nat,
                        next: Some((first + 1) as u64),
                        popped: self.popped + 1,
                        ..self
                    },
                    PopView::Packet(kept[first]),
                )
            },
            Some(n) => if self.slots.contains_key(n) {
                (
                    JitterView {
                        slots: self.slots.remove(n),
                        next: Some((n + 1) as u64),
                        popped: self.popped + 1,
                        ..self
                    },
                    PopView::Packet(self.slots[n]),
                )
            } else if self.slots.len() == 0 {
                (JitterView { next: None, stalls: self.stalls + 1, ..self }, PopView::Filling)
            } else {
                let skipped = JitterView {
                    next: Some((n + 1) as u64),
                    lost: self.lost + 1,
                    ..self
                };
                if self.slots.contains_key((n + 1) as u64) {
                    (
                        JitterView { recovered: self.recovered + 1, ..skipped },
                        PopView::LostRecoverable(self.slots[(n + 1) as u64]),
                    )
                } else {
                    (skipped, PopView::Lost)
                }
            },
        }
    }

    /// The state with another target, moved into the range from one to the cap.
    /// Nothing that is held changes.
    pub open spec fn aim(self, frames: nat) -> JitterView {
        JitterView {
            target: if frames < 1 {
                1
            } else if frames > self.max {
                self.max
            } else {
                frames
            },
            ..self
        }
    }

    /// The state after everything beyond the newest `frames` went. What goes
    /// out next is then the oldest that is left.
    pub open spec fn trim(self, frames: nat) -> JitterView {
        let kept = newest(self.slots, frames);
        JitterView {
            slots: kept,
            trimmed: (self.trimmed + self.slots.len() - kept.len()) as nat,
            next: if kept.len() > 0 {
                Some(lowest(kept))
            } else {
                self.next
            },
            ..self
        }
    }
}

#[derive(Debug)]
pub struct JitterBuffer {
    slots: BTreeMap<u64, Vec<u8>>,
    target_frames: usize,
    /// Hard cap; beyond this the oldest frames go, to bound latency.
    max_frames: usize,
    /// Next sequence number to hand out. `None` while prefilling.
    next_out: Option<u64>,
    pub pushed: u64,
    pub popped: u64,
    pub lost: u64,
    pub recovered: u64,
    pub late: u64,
    pub dropped_overflow: u64,
    /// Frames discarded at prefill because the cushion overshot the target.
    pub trimmed: u64,
    /// Times playback restarted from empty.
    pub stalls: u64,
}

impl View for JitterBuffer {
    type V = JitterView;

    closed spec fn view(&self) -> JitterView {
        JitterView {
            slots: self.slots@.map_values(|p: Vec<u8>| p@),
            target: self.target_frames as nat,
            max: self.max_frames as nat,
            next: self.next_out,
            pushed: self.pushed as nat,
            popped: self.popped as nat,
            lost: self.lost as nat,
            recovered: self.recovered as nat,
            late: self.late as nat,
            dropped_overflow: self.dropped_overflow as nat,
            trimmed: self.trimmed as nat,
            stalls: self.stalls as nat,
        }
    }
}

/// The lowest key, if there is any.
fn oldest(m: &BTreeMap<u64, Vec<u8>>) -> (r: Option<u64>)
    ensures
        r is None <==> m@.dom().is_empty(),
        r matches Some(k) ==> is_lowest(m@, k),
{
    for k in it: m.keys()
        invariant
            it.seq().unref().to_set() == m@.dom(),
            it.seq().len() == m@.dom().len(),
            vstd::std_specs::btree::increasing_seq(it.seq()),
            it.index() == 0,
    {
        proof {
            let s = it.seq();
            assert(s.unref()[0] == *k);
            assert(s.unref().to_set().contains(*k));
            assert forall|j: u64| #[trigger] m@.contains_key(j) implies *k <= j by {
                assert(s.unref().to_set().contains(j));
                let i = choose|i: int| 0 <= i < s.unref().len() && s.unref()[i] == j;
                if i > 0 {
                    assert(vstd::laws_cmp::obeys_cmp::<&u64>());
                    assert(<&u64>::cmp_spec(&s[0], &s[i]) is Less);
                }
            }
        }
        return Some(*k);
    }
    None
}

impl JitterBuffer {
    /// What holds of every buffer between two calls.
    pub open spec fn wf(&self) -> bool {
        self@.inv()
    }

    pub fn new(target_frames: usize, max_frames: usize) -> (r: Self)
        requires
            target_frames >= 1,
            max_frames >= target_frames,
        ensures
            r.wf(),
            r@ == JitterView::fresh(target_frames as nat, max_frames as nat),
    {
        let r = JitterBuffer {
            slots: BTreeMap::new(),
            target_frames,
            max_frames,
            next_out: None,
            pushed: 0,
            popped: 0,
            lost: 0,
            recovered: 0,
            late: 0,
            dropped_overflow: 0,
            trimmed: 0,
            stalls: 0,
        };
        assert(r@.slots =~= Map::empty());
        r
    }

    /// How many packets came in.
    pub fn pushed(&self) -> (r: u64)
        ensures
            r == self@.pushed,
    {
        self.pushed
    }

    /// How many packets went out.
    pub fn popped(&self) -> (r: u64)
        ensures
            r == self@.popped,
    {
        self.popped
    }

    /// How many slots went by without their packet.
    pub fn lost(&self) -> (r: u64)
        ensures
            r == self@.lost,
    {
        self.lost
    }

    /// How many of those could be rebuilt from the packet after.
    pub fn recovered(&self) -> (r: u64)
        ensures
            r == self@.recovered,
    {
        self.recovered
    }

    /// How many packets came after their slot.
    pub fn late(&self) -> (r: u64)
        ensures
            r == self@.late,
    {
        self.late
    }

    /// How many packets went because the buffer was full.
    pub fn dropped_overflow(&self) -> (r: u64)
        ensures
            r == self@.dropped_overflow,
    {
        self.dropped_overflow
    }

    /// How many packets went because the cushion overshot the target.
    pub fn trimmed(&self) -> (r: u64)
        ensures
            r == self@.trimmed,
    {
        self.trimmed
    }

    /// How often playback ran empty.
    pub fn stalls(&self) -> (r: u64)
        ensures
            r == self@.stalls,
    {
        self.stalls
    }

    pub fn depth(&self) -> (r: usize)
        ensures
            r == self@.slots.len(),
    {
        proof {
            assert(self@.slots.dom() =~= self.slots@.dom());
        }
        self.slots.len()
    }

    pub fn target_frames(&self) -> (r: usize)
        ensures
            r == self@.target,
    {
        self.target_frames
    }

    /// Move the prefill threshold. Existing depth is left alone: the drift
    /// controller walks it to the new level by resampling, which is inaudible,
    /// where dropping or inserting a frame here would click.
    pub fn set_target_frames(&mut self, frames: usize)
        requires
            old(self).wf(),
        ensures
            final(self).wf(),
            final(self)@ == old(self)@.aim(frames as nat),
    {
        self.target_frames = if frames < 1 {
            1
        } else if frames > self.max_frames {
            self.max_frames
        } else {
            frames
        };
        assert(self@.slots =~= old(self)@.slots);
    }

    pub fn playing(&self) -> (r: bool)
        ensures
            r == (self@.next is Some),
    {
        self.next_out.is_some()
    }

    pub fn push(&mut self, ext_seq: u64, packet: Vec<u8>)
        requires
            old(self).wf(),
            ext_seq < u64::MAX,
            old(self)@.pushed < u64::MAX,
        ensures
            final(self).wf(),
            final(self)@ == old(self)@.push(ext_seq, packet@),
    {
        proof {
            assert(self@.slots.dom() =~= self.slots@.dom());
        }
        self.pushed += 1;
        // A packet whose slot has already been handed out is useless.
        if let Some(next) = self.next_out {
            if ext_seq < next {
                self.late += 1;
                assert(self@.slots =~= old(self)@.slots);
                return;
            }
        }
        let ghost held = old(self)@.slots.insert(ext_seq, packet@);
        self.slots.insert(ext_seq, packet);
        assert(self@.slots =~= held);
        assert(self@.slots.dom() =~= self.slots@.dom());
        if self.slots.len() > self.max_frames {
            if let Some(oldest) = oldest(&self.slots) {
                proof {
                    assert(is_lowest(held, oldest));
                    lemma_lowest_is(held, oldest);
                }
                self.slots.remove(&oldest);
                self.dropped_overflow += 1;
                if self.next_out.is_some() {
                    self.next_out = Some(oldest + 1);
                }
                assert(self@.slots =~= held.remove(oldest));
                assert(self@.slots.dom() =~= self.slots@.dom());
            }
        }
    }

    /// Drops the oldest packets until at most `frames` are left, counting them.
    fn shed(&mut self, frames: usize) -> (dropped: usize)
        requires
            old(self)@.slots.dom().finite(),
            old(self)@.trimmed + old(self)@.slots.len() <= u64::MAX,
        ensures
            final(self)@ == (JitterView {
                slots: newest(old(self)@.slots, frames as nat),
                trimmed: old(self)@.trimmed + dropped as nat,
                ..old(self)@
            }),
            dropped == old(self)@.slots.len() - newest(old(self)@.slots, frames as nat).len(),
            final(self)@.slots.dom().finite(),
    {
        let mut dropped: usize = 0;
        let depth: usize = self.slots.len();
        proof {
            assert(self@.slots.dom() =~= self.slots@.dom());
            newest_keeps_the_highest(self@.slots, frames as nat);
        }
        while self.slots.len() > frames
            invariant
                self@.slots.dom() == self.slots@.dom(),
                self@.slots.dom().finite(),
                newest(self@.slots, frames as nat) == newest(old(self)@.slots, frames as nat),
                self@.slots.len() + dropped == old(self)@.slots.len() == depth,
                old(self)@.slots.dom().finite(),
                self@.trimmed == old(self)@.trimmed + dropped,
                old(self)@.trimmed + old(self)@.slots.len() <= u64::MAX,
                self@ == (JitterView {
                    slots: self@.slots,
                    trimmed: self@.trimmed,
                    ..old(self)@
                }),
            decreases self@.slots.len(),
        {
            let ghost before = self@.slots;
            if let Some(oldest) = oldest(&self.slots) {
                proof {
                    assert(is_lowest(before, oldest));
                    lemma_lowest_is(before, oldest);
                }
                self.slots.remove(&oldest);
                self.trimmed += 1;
                dropped += 1;
                assert(self@.slots =~= before.remove(oldest));
                assert(self@.slots.dom() =~= self.slots@.dom());
            }
        }
        dropped
    }

    /// Take the next packet in sequence.
    pub fn pop(&mut self) -> (r: Pop)
        requires
            old(self).wf(),
            old(self)@.lost < u64::MAX,
            old(self)@.stalls < u64::MAX,
        ensures
            final(self).wf(),
            (final(self)@, r@) == old(self)@.pop(),
    {
        proof {
            assert(self@.slots.dom() =~= self.slots@.dom());
        }
        let next: u64 = match self.next_out {
            Some(n) => n,
            None => {
                if self.slots.len() < self.target_frames {
                    return Pop::Filling;
                }
                // Whatever piled up while the sound card was starting is pure
                // latency: production and consumption run at the same rate, so
                // an excess cushion never drains on its own. Shed it before
                // anything is audible; mid-stream this would click.
                let ghost all = self@.slots;
                self.shed(self.target_frames);
                proof {
                    newest_keeps_the_highest(all, self@.target);
                    assert(self@.slots.dom() =~= self.slots@.dom());
                    assert forall|k: u64| #[trigger] self@.slots.contains_key(k) implies k
                        < u64::MAX by {
                        assert(all.contains_key(k));
                    }
                }
                match oldest(&self.slots) {
                    Some(first) => {
                        proof {
                            assert(is_lowest(self@.slots, first));
                            lemma_lowest_is(self@.slots, first);
                        }
                        self.next_out = Some(first);
                        first
                    },
                    None => {
                        assert(false);
                        0
                    },
                }
            },
        };
        let ghost mid = self@;
        assert(mid.slots.dom() =~= self.slots@.dom());
        if let Some(packet) = self.slots.remove(&next) {
            self.next_out = Some(next + 1);
            self.popped += 1;
            assert(self@.slots =~= mid.slots.remove(next));
            return Pop::Packet(packet);
        }
        assert(self@.slots =~= mid.slots);
        if self.slots.is_empty() {
            // The stream stopped or stalled; rebuild the cushion from scratch.
            self.next_out = None;
            self.stalls += 1;
            return Pop::Filling;
        }
        proof {
            lemma_lowest(mid.slots);
            assert(mid.slots.contains_key(lowest(mid.slots)));
        }
        self.next_out = Some(next + 1);
        self.lost += 1;
        // Opus carries a reduced copy of frame N inside frame N+1 only, so
        // recovery is possible exactly when the immediate successor is here.
        match self.slots.get(&(next + 1)) {
            Some(successor) => {
                self.recovered += 1;
                Pop::LostRecoverable(successor.clone())
            },
            None => Pop::Lost,
        }
    }

    /// Sheds what is above `frames` and skips ahead to the freshest packets.
    /// Returns how many went.
    ///
    /// What a listener has not heard yet may be skipped: a jump in the stream
    /// is then a splice, not a hole.
    pub fn trim_to(&mut self, frames: usize) -> (dropped: usize)
        requires
            old(self).wf(),
        ensures
            final(self).wf(),
            final(self)@ == old(self)@.trim(frames as nat),
            dropped == old(self)@.slots.len() - final(self)@.slots.len(),
    {
        let dropped: usize = self.shed(frames);
        proof {
            newest_keeps_the_highest(old(self)@.slots, frames as nat);
            assert(self@.slots.dom() =~= self.slots@.dom());
            assert forall|k: u64| #[trigger] self@.slots.contains_key(k) implies old(
                self,
            )@.slots.contains_key(k) by {}
        }
        if let Some(first) = oldest(&self.slots) {
            proof {
                assert(is_lowest(self@.slots, first));
                lemma_lowest_is(self@.slots, first);
                assert(self.slots@.dom().contains(first));
            }
            self.next_out = Some(first);
        } else {
            assert(self.slots@.dom() =~= Set::empty());
        }
        dropped
    }

    /// Sheds the excess above the target and skips ahead to the freshest frames.
    ///
    /// To be called once, when the pipeline has filled. The ring in front of the
    /// card then holds continuous sound, so a jump in the stream is a splice and
    /// not a hole, unlike mid-session, where it would click.
    ///
    /// Prefill trims the cushion earlier, but between that and a full ring as
    /// many packets flow in as the card takes to start; without this second trim
    /// the drift controller would spend tens of seconds pulling that excess out.
    pub fn trim_to_target(&mut self) -> (dropped: usize)
        requires
            old(self).wf(),
        ensures
            final(self).wf(),
            final(self)@ == old(self)@.trim(old(self)@.target),
            dropped == old(self)@.slots.len() - final(self)@.slots.len(),
    {
        self.trim_to(self.target_frames)
    }
}

/// A push keeps everything that holds of a buffer.
pub proof fn push_keeps_the_invariant(v: JitterView, ext_seq: u64, packet: Seq<u8>)
    requires
        v.inv(),
        ext_seq < u64::MAX,
    ensures
        v.push(ext_seq, packet).inv(),
{
    let held = v.slots.insert(ext_seq, packet);
    if held.len() > v.max {
        lemma_lowest(held);
        let after = v.push(ext_seq, packet);
        assert forall|k: u64| #[trigger] after.slots.contains_key(k) implies held.contains_key(k)
            by {}
    }
}

/// Asking for a frame keeps everything that holds of a buffer.
pub proof fn pop_keeps_the_invariant(v: JitterView)
    requires
        v.inv(),
    ensures
        v.pop().0.inv(),
{
    if v.slots.len() > 0 {
        lemma_lowest(v.slots);
    }
    if v.next is None && v.slots.len() >= v.target {
        newest_keeps_the_highest(v.slots, v.target);
        let kept = newest(v.slots, v.target);
        lemma_lowest(kept);
        assert forall|k: u64| #[trigger] kept.contains_key(k) implies v.slots.contains_key(k) by {}
        assert(v.slots.contains_key(lowest(kept)));
    }
}

/// Latency is capped: whatever arrives, the buffer never holds more than its cap.
pub proof fn depth_never_exceeds_the_cap(v: JitterView, ext_seq: u64, packet: Seq<u8>)
    requires
        v.inv(),
        ext_seq < u64::MAX,
    ensures
        v.push(ext_seq, packet).slots.len() <= v.max,
        v.pop().0.slots.len() <= v.slots.len(),
{
    push_keeps_the_invariant(v, ext_seq, packet);
    if v.next is None && v.slots.len() >= v.target {
        newest_keeps_the_highest(v.slots, v.target);
    }
}

/// While frames go out, the slots go by one at a time: a packet that comes out
/// is the one of the slot whose turn it is, and the turn moves to the next slot,
/// whether this one was there or not.
pub proof fn slots_go_by_in_order(v: JitterView)
    requires
        v.inv(),
        v.next is Some,
    ensures
        ({
            let n = v.next->0;
            let (after, out) = v.pop();
            &&& out matches PopView::Packet(p) ==> v.slots.contains_key(n) && p == v.slots[n]
            &&& v.slots.contains_key(n) ==> out is Packet
            &&& !(out is Filling) ==> after.next == Some((n + 1) as u64) && n < u64::MAX
        }),
{
    if v.slots.len() > 0 {
        lemma_lowest(v.slots);
    }
}

/// A packet that was handed out, or given up on, is never handed out again
/// while playback lasts: pushing its number again only counts it late.
pub proof fn a_slot_that_went_by_stays_gone(v: JitterView, ext_seq: u64, packet: Seq<u8>)
    requires
        v.inv(),
        v.next is Some,
        ext_seq < v.next->0,
    ensures
        v.push(ext_seq, packet).slots == v.slots,
        v.push(ext_seq, packet).late == v.late + 1,
        !v.slots.contains_key(ext_seq),
{
}

/// A map from which a key is kept out until the lowest of the others has gone
/// loses, with one more, its two lowest keys.
proof fn lemma_shed_two(h: Map<u64, Seq<u8>>, late: u64)
    requires
        h.dom().finite(),
        h.len() >= 2,
        h.contains_key(late),
    ensures
        ({
            let p = lowest(h);
            let q = lowest(h.remove(p));
            let first = lowest(h.remove(late));
            let rest = h.remove(first);
            &&& rest.remove(lowest(rest)) == h.remove(p).remove(q)
            &&& h.remove(late).remove(first).insert(late, h[late]) == rest
        }),
{
    lemma_lowest(h);
    let p = lowest(h);
    lemma_lowest(h.remove(p));
    let q = lowest(h.remove(p));
    let first = lowest(h.remove(late));
    if late == p {
        assert(is_lowest(h.remove(q), p));
        lemma_lowest_is(h.remove(q), p);
        assert(h.remove(q).remove(p) =~= h.remove(p).remove(q));
    } else {
        assert(is_lowest(h.remove(late), p));
        lemma_lowest_is(h.remove(late), p);
    }
    assert(h.remove(late).remove(first).insert(late, h[late]) =~= h.remove(first));
}

/// While a buffer prefills and is full, two packets with numbers that it does not
/// hold leave it in the same state in either order.
proof fn lemma_reordered_overflow(
    v: JitterView,
    a: u64,
    packet_a: Seq<u8>,
    b: u64,
    packet_b: Seq<u8>,
)
    requires
        v.inv(),
        v.next is None,
        a != b,
        !v.slots.contains_key(a),
        !v.slots.contains_key(b),
        v.slots.len() + 2 > v.max,
    ensures
        v.push(a, packet_a).push(b, packet_b) == v.push(b, packet_b).push(a, packet_a),
{
    let h = v.slots.insert(a, packet_a).insert(b, packet_b);
    let ab = v.push(a, packet_a).push(b, packet_b);
    let ba = v.push(b, packet_b).push(a, packet_a);
    assert(h =~= v.slots.insert(b, packet_b).insert(a, packet_a));
    assert(h.remove(b) =~= v.slots.insert(a, packet_a));
    assert(h.remove(a) =~= v.slots.insert(b, packet_b));
    if v.slots.len() == v.max {
        lemma_lowest(h.remove(a));
        lemma_lowest(h.remove(b));
        lemma_shed_two(h, b);
        lemma_shed_two(h, a);
    }
    assert(ab =~= ba);
}

/// A packet that arrives before its slot comes out at its slot: it is held under
/// its own number, whatever order packets arrive in. While frames go out that
/// takes room for both packets; while the buffer prefills, the oldest may go to
/// make room, as long as neither packet comes a second time.
pub proof fn reordering_does_not_matter(
    v: JitterView,
    a: u64,
    packet_a: Seq<u8>,
    b: u64,
    packet_b: Seq<u8>,
)
    requires
        v.inv(),
        a != b,
        v.slots.len() + 2 <= v.max || (v.next is None && !v.slots.contains_key(a)
            && !v.slots.contains_key(b)),
    ensures
        v.push(a, packet_a).push(b, packet_b) == v.push(b, packet_b).push(a, packet_a),
{
    if v.slots.len() + 2 > v.max {
        lemma_reordered_overflow(v, a, packet_a, b, packet_b);
    } else {
        let ab = v.push(a, packet_a).push(b, packet_b);
        let ba = v.push(b, packet_b).push(a, packet_a);
        assert(v.slots.insert(a, packet_a).insert(b, packet_b) =~= v.slots.insert(
            b,
            packet_b,
        ).insert(a, packet_a));
        assert(ab =~= ba);
    }
}

/// Every packet is accounted for: as long as no number that is held comes again,
/// the packets that are held, went out, came late, were shed over the cap or
/// trimmed are exactly the packets that came in.
pub proof fn every_packet_is_accounted_for(
    v: JitterView,
    ext_seq: u64,
    packet: Seq<u8>,
    frames: nat,
)
    requires
        v.inv(),
        v.accounted(),
        ext_seq < u64::MAX,
    ensures
        !v.slots.contains_key(ext_seq) ==> v.push(ext_seq, packet).accounted(),
        v.pop().0.accounted(),
        v.trim(frames).accounted(),
        v.aim(frames).accounted(),
{
    if v.next is None && v.slots.len() >= v.target {
        newest_keeps_the_highest(v.slots, v.target);
        lemma_lowest(newest(v.slots, v.target));
    }
    newest_keeps_the_highest(v.slots, frames);
    lemma_lowest(v.slots.insert(ext_seq, packet));
}

/// A hole is rebuilt exactly when its immediate successor is held, and the
/// successor stays for its own turn, which comes next.
pub proof fn a_hole_is_rebuilt_from_its_successor(v: JitterView)
    requires
        v.inv(),
        v.next is Some,
        !v.slots.contains_key(v.next->0),
        v.slots.len() > 0,
    ensures
        ({
            let s = (v.next->0 + 1) as u64;
            let (after, out) = v.pop();
            &&& v.slots.contains_key(s) ==> out == PopView::LostRecoverable(v.slots[s])
                && after.pop().1 == PopView::Packet(v.slots[s])
            &&& !v.slots.contains_key(s) ==> out == PopView::Lost
            &&& after.lost == v.lost + 1
        }),
{
    lemma_lowest(v.slots);
}

/// Trimming keeps the newest packets, counts nothing as lost, and leaves the
/// oldest packet that is left to go out next.
pub proof fn trimming_skips_ahead_without_losses(v: JitterView, frames: nat)
    requires
        v.inv(),
        frames >= 1,
        v.slots.len() > 0,
    ensures
        ({
            let after = v.trim(frames);
            &&& after.inv()
            &&& after.lost == v.lost
            &&& after.slots.len() <= frames
            &&& v.slots.len() <= frames ==> after.slots == v.slots
            &&& after.pop().1 is Packet
            &&& forall|j: u64, k: u64|
                #![trigger v.slots.contains_key(j), after.slots.contains_key(k)]
                v.slots.contains_key(j) && !after.slots.contains_key(j) && after.slots.contains_key(
                    k,
                ) ==> j < k
        }),
{
    newest_keeps_the_highest(v.slots, frames);
    let kept = newest(v.slots, frames);
    lemma_lowest(kept);
    assert forall|k: u64| #[trigger] kept.contains_key(k) implies v.slots.contains_key(k) by {}
    let after = v.trim(frames);
    assert(after.slots.contains_key(lowest(kept)));
}

/// Prefill holds everything back until the target is reached; then what is
/// above the target is shed and the oldest packet that is left goes out.
pub proof fn prefill_waits_for_the_target(v: JitterView)
    requires
        v.inv(),
        v.next is None,
    ensures
        v.slots.len() < v.target ==> v.pop() == (v, PopView::Filling),
        v.slots.len() >= v.target ==> ({
            let (after, out) = v.pop();
            &&& out is Packet
            &&& after.slots.len() == v.target - 1
            &&& after.trimmed == v.trimmed + v.slots.len() - v.target
            &&& after.lost == v.lost
        }),
{
    if v.slots.len() >= v.target {
        newest_keeps_the_highest(v.slots, v.target);
        lemma_lowest(newest(v.slots, v.target));
    }
}

/// One second, in the nanoseconds that all times are counted in.
pub const SECOND: u64 = 1_000_000_000;

/// How long a clean spell has to last before the cushion shrinks.
pub const SETTLE: u64 = 30_000_000_000;

/// How long one growth of the cushion holds off the next.
pub const GROW_COOLDOWN: u64 = 500_000_000;

/// The time from `earlier` to `now`; none, if the clock reads earlier.
pub open spec fn since(now: u64, earlier: u64) -> u64 {
    if now >= earlier {
        (now - earlier) as u64
    } else {
        0
    }
}

/// A number moved into a range.
pub open spec fn clamped(v: usize, min: usize, max: usize) -> usize {
    if v < min {
        min
    } else if v > max {
        max
    } else {
        v
    }
}

/// Chooses how much cushion the link currently deserves.
///
/// The cushion buys exactly one thing: time for a packet that took the scenic
/// route to still arrive before its slot. So *lateness* is what grows it: a
/// packet that showed up after we had given up on it, or an underrun.
///
/// A packet that was dropped on the wire is not evidence of anything. It is
/// never going to arrive, no matter how long we wait; FEC and concealment deal
/// with it. Growing the cushion on plain loss buys nothing and costs latency
/// permanently, which on a 5% link walks the buffer straight to its ceiling.
///
/// Growth is immediate but rate-limited, so one bad burst cannot slam the
/// target to the maximum. Shrinking waits for a long clean spell, because
/// being wrong in that direction is audible.
///
/// Times are nanoseconds on a clock of the caller's that never runs backwards.
#[derive(Debug)]
pub struct AdaptiveTarget {
    current: usize,
    min: usize,
    max: usize,
    clean_since: u64,
    settle: u64,
    last_grow: Option<u64>,
}

/// What an adaptive target remembers.
pub struct TargetView {
    pub current: usize,
    pub min: usize,
    pub max: usize,
    pub clean_since: u64,
    pub settle: u64,
    pub last_grow: Option<u64>,
}

impl TargetView {
    /// The target stays between its floor and its ceiling.
    pub open spec fn inv(self) -> bool {
        self.min <= self.current <= self.max
    }

    /// The state after a packet came too late, or the buffer ran dry.
    pub open spec fn on_late(self, now: u64) -> TargetView {
        if self.last_grow matches Some(last) && since(now, last) < GROW_COOLDOWN {
            TargetView { clean_since: now, ..self }
        } else {
            TargetView {
                clean_since: now,
                current: if self.current + 2 < self.max {
                    (self.current + 2) as usize
                } else {
                    self.max
                },
                last_grow: Some(now),
                ..self
            }
        }
    }

    /// Whether it is time to shrink.
    pub open spec fn shrinks(self, now: u64) -> bool {
        self.current > self.min && since(now, self.clean_since) >= self.settle
    }

    /// The state after a look at the clock.
    pub open spec fn tick(self, now: u64) -> TargetView {
        if self.shrinks(now) {
            TargetView { current: (self.current - 1) as usize, clean_since: now, ..self }
        } else {
            self
        }
    }
}

impl View for AdaptiveTarget {
    type V = TargetView;

    closed spec fn view(&self) -> TargetView {
        TargetView {
            current: self.current,
            min: self.min,
            max: self.max,
            clean_since: self.clean_since,
            settle: self.settle,
            last_grow: self.last_grow,
        }
    }
}

fn clamp(v: usize, min: usize, max: usize) -> (r: usize)
    requires
        min <= max,
    ensures
        r == clamped(v, min, max),
{
    if v < min {
        min
    } else if v > max {
        max
    } else {
        v
    }
}

impl AdaptiveTarget {
    pub fn new(start_frames: usize, min_frames: usize, max_frames: usize, now: u64) -> (r: Self)
        requires
            min_frames <= max_frames,
        ensures
            r@.inv(),
            r@ == (TargetView {
                current: clamped(start_frames, min_frames, max_frames),
                min: min_frames,
                max: max_frames,
                clean_since: now,
                settle: SETTLE,
                last_grow: None,
            }),
    {
        AdaptiveTarget {
            current: clamp(start_frames, min_frames, max_frames),
            min: min_frames,
            max: max_frames,
            clean_since: now,
            settle: SETTLE,
            last_grow: None,
        }
    }

    /// Shorten the clean-spell requirement. Only tests should need this.
    pub fn with_settle(self, settle: u64) -> (r: Self)
        ensures
            r@ == (TargetView { settle, ..self@ }),
    {
        AdaptiveTarget { settle, ..self }
    }

    pub fn frames(&self) -> (r: usize)
        ensures
            r == self@.current,
    {
        self.current
    }

    /// Starts over at `start_frames`, as if nothing had been late yet.
    pub fn reset(&mut self, start_frames: usize, now: u64)
        requires
            old(self)@.inv(),
        ensures
            final(self)@.inv(),
            final(self)@ == (TargetView {
                current: clamped(start_frames, old(self)@.min, old(self)@.max),
                clean_since: now,
                last_grow: None,
                ..old(self)@
            }),
    {
        self.current = clamp(start_frames, self.min, self.max);
        self.clean_since = now;
        self.last_grow = None;
    }

    /// A packet arrived too late to be played, or the buffer ran dry: the
    /// cushion was not enough. Do **not** call this for a packet that was
    /// simply lost, see the note on the type.
    pub fn on_late(&mut self, now: u64)
        requires
            old(self)@.inv(),
            old(self)@.current + 2 <= usize::MAX,
        ensures
            final(self)@.inv(),
            final(self)@ == old(self)@.on_late(now),
    {
        // Any trouble at all postpones shrinking, even when the rate limit
        // stops us from growing again just yet.
        self.clean_since = now;
        if let Some(last) = self.last_grow {
            if now.saturating_sub(last) < GROW_COOLDOWN {
                return;
            }
        }
        self.current = if self.current + 2 < self.max {
            self.current + 2
        } else {
            self.max
        };
        self.last_grow = Some(now);
    }

    /// Call periodically. Returns true when the target changed.
    pub fn tick(&mut self, now: u64) -> (changed: bool)
        requires
            old(self)@.inv(),
        ensures
            final(self)@.inv(),
            changed == old(self)@.shrinks(now),
            final(self)@ == old(self)@.tick(now),
    {
        if self.current > self.min && now.saturating_sub(self.clean_since) >= self.settle {
            self.current -= 1;
            self.clean_since = now;
            return true;
        }
        false
    }
}

/// However many packets are late within the cooldown after a growth, the target
/// does not grow again: one burst raises it once.
pub proof fn a_burst_raises_the_target_once(t: TargetView, first: u64, later: u64)
    requires
        t.inv(),
        t.last_grow matches Some(last) ==> since(first, last) >= GROW_COOLDOWN,
        since(later, first) < GROW_COOLDOWN,
    ensures
        t.on_late(first).on_late(later).current == t.on_late(first).current,
{
}

/// Trouble postpones shrinking even when it does not grow the target: for a
/// whole clean spell after it, no look at the clock shrinks anything.
pub proof fn trouble_postpones_shrinking(t: TargetView, at: u64, now: u64)
    requires
        t.inv(),
        since(now, at) < t.settle,
    ensures
        !t.on_late(at).shrinks(now),
{
}

/// The target moves by at most two frames up or one frame down at a time, and
/// never leaves its range.
pub proof fn the_target_keeps_its_range(t: TargetView, now: u64)
    requires
        t.inv(),
    ensures
        t.on_late(now).inv(),
        t.tick(now).inv(),
        t.current <= t.on_late(now).current <= t.current + 2,
        t.current - 1 <= t.tick(now).current <= t.current,
{
}

} // verus!
