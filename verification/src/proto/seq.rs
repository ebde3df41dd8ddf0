//! Extension of RTP's 16-bit sequence number to a monotonic 64-bit counter.
//!
//! Two consumers need this: the jitter buffer, which must order packets across
//! the wrap at 65535, and the AEAD nonce, which must never repeat a
//! (rollover counter, sequence) pair for a given key.
use vstd::prelude::*;

verus! {

/// Half the sequence space. A gap larger than this is read as a wrap rather
/// than a jump, which is the standard heuristic (RFC 3711 §3.3.1).
pub const HALF: i64 = 32_768;

/// The size of the sequence space.
pub const SPACE: u64 = 65_536;

#[derive(Debug)]
pub struct SeqExtender {
    /// Rollover counter: how many times the 16-bit sequence has wrapped.
    roc: u32,
    highest: Option<u16>,
}

/// Where a wire sequence number stands, seen from the highest one so far.
#[derive(Debug, Clone, Copy, PartialEq, Eq, Structural)]
pub enum Place {
    /// The same round, or the first number at all.
    Here,
    /// Forward across the wrap: 65530 -> 3.
    NextRound,
    /// A late packet from before the wrap: 3 -> 65530.
    LastRound,
}

/// The place of `seq`, given the highest number so far.
pub open spec fn place(highest: Option<u16>, seq: u16) -> Place {
    match highest {
        None => Place::Here,
        Some(h) => if seq - h < -HALF {
            Place::NextRound
        } else if seq - h > HALF {
            Place::LastRound
        } else {
            Place::Here
        },
    }
}

/// The round that `seq` belongs to, when `roc` rounds have passed.
pub open spec fn round_of(roc: u32, highest: Option<u16>, seq: u16) -> u32 {
    match place(highest, seq) {
        Place::Here => roc,
        Place::NextRound => if roc == u32::MAX {
            0
        } else {
            (roc + 1) as u32
        },
        Place::LastRound => if roc == 0 {
            u32::MAX
        } else {
            (roc - 1) as u32
        },
    }
}

/// The counter value that a round and a wire number make.
pub open spec fn extended(roc: u32, seq: u16) -> u64 {
    (roc * SPACE + seq) as u64
}

/// The rollover counter after `seq` was taken in.
pub open spec fn next_roc(roc: u32, highest: Option<u16>, seq: u16) -> u32 {
    match place(highest, seq) {
        Place::NextRound => round_of(roc, highest, seq),
        _ => roc,
    }
}

/// The highest wire number of the current round after `seq` was taken in.
pub open spec fn next_highest(highest: Option<u16>, seq: u16) -> u16 {
    match (highest, place(highest, seq)) {
        (None, _) => seq,
        (_, Place::NextRound) => seq,
        (Some(h), Place::LastRound) => h,
        (Some(h), Place::Here) => if seq > h {
            seq
        } else {
            h
        },
    }
}

impl SeqExtender {
    /// The rollover counter.
    pub closed spec fn rounds(&self) -> u32 {
        self.roc
    }

    /// The highest wire number of the current round, once there was one.
    pub closed spec fn top(&self) -> Option<u16> {
        self.highest
    }

    pub fn new() -> (r: Self)
        ensures
            r.rounds() == 0,
            r.top() is None,
    {
        SeqExtender { roc: 0, highest: None }
    }

    /// Current rollover counter, used as part of the AEAD nonce.
    pub fn roc(&self) -> (r: u32)
        ensures
            r == self.rounds(),
    {
        self.roc
    }

    /// Map a wire sequence number onto a monotonic counter.
    ///
    /// Packets that arrive slightly out of order map back to their true index,
    /// including across a wrap, so the jitter buffer can reorder them.
    pub fn extend(&mut self, seq: u16) -> (r: u64)
        ensures
            r == extended(round_of(old(self).rounds(), old(self).top(), seq), seq),
            final(self).rounds() == next_roc(old(self).rounds(), old(self).top(), seq),
            final(self).top() == Some(next_highest(old(self).top(), seq)),
    {
        let (ext, roc, highest) = self.resolve(seq);
        self.roc = roc;
        self.highest = Some(highest);
        ext
    }

    /// The same mapping without committing to it.
    ///
    /// A forged packet must not be able to move the rollover counter: the
    /// receiver decrypts against the peeked value and only calls `extend` once
    /// the packet has proven it is ours.
    pub fn peek(&self, seq: u16) -> (r: u64)
        ensures
            r == extended(round_of(self.rounds(), self.top(), seq), seq),
    {
        self.resolve(seq).0
    }

    /// Returns the extended sequence plus the state it would leave behind.
    fn resolve(&self, seq: u16) -> (r: (u64, u32, u16))
        ensures
            r.0 == extended(round_of(self.roc, self.highest, seq), seq),
            r.1 == next_roc(self.roc, self.highest, seq),
            r.2 == next_highest(self.highest, seq),
    {
        let highest: u16 = match self.highest {
            None => {
                return (self.roc as u64 * SPACE + seq as u64, self.roc, seq);
            },
            Some(h) => h,
        };
        let delta: i64 = seq as i64 - highest as i64;
        if delta < -HALF {
            let bumped: u32 = self.roc.wrapping_add(1);
            (bumped as u64 * SPACE + seq as u64, bumped, seq)
        } else if delta > HALF {
            let earlier: u32 = self.roc.wrapping_sub(1);
            (earlier as u64 * SPACE + seq as u64, self.roc, highest)
        } else if delta > 0 {
            (self.roc as u64 * SPACE + seq as u64, self.roc, seq)
        } else {
            (self.roc as u64 * SPACE + seq as u64, self.roc, highest)
        }
    }
}

impl Default for SeqExtender {
    fn default() -> (r: Self)
        ensures
            r.rounds() == 0,
            r.top() is None,
    {
        SeqExtender::new()
    }
}

impl Clone for SeqExtender {
    fn clone(&self) -> (r: Self)
        ensures
            r == *self,
    {
        SeqExtender { roc: self.roc, highest: self.highest }
    }
}

/// The counter that `extend` gives keeps the wire number: it is the wire number
/// modulo the sequence space.
pub proof fn extension_keeps_the_wire_number(roc: u32, seq: u16)
    ensures
        extended(roc, seq) % SPACE == seq,
        extended(roc, seq) / SPACE == roc,
{
}

/// No two packets of different rounds or numbers share a counter, so no nonce
/// made of it repeats.
pub proof fn extension_is_injective(roc1: u32, seq1: u16, roc2: u32, seq2: u16)
    ensures
        extended(roc1, seq1) == extended(roc2, seq2) <==> roc1 == roc2 && seq1 == seq2,
{
}

/// A packet whose true counter `ext` is less than half the sequence space away
/// from the highest counter so far is mapped to `ext` exactly, on either side
/// of a wrap; and the highest counter becomes the larger of the two.
pub proof fn a_near_packet_maps_to_its_true_counter(roc: u32, top: u16, ext: u64)
    requires
        -HALF < ext - extended(roc, top) < HALF,
        ext < SPACE * 0x1_0000_0000,
    ensures
        ({
            let seq = (ext % SPACE) as u16;
            let best = extended(roc, top);
            &&& extended(round_of(roc, Some(top), seq), seq) == ext
            &&& extended(next_roc(roc, Some(top), seq), next_highest(Some(top), seq)) == if ext
                > best {
                ext
            } else {
                best
            }
        }),
{
}

/// A late packet never rewinds the rollover counter: taking in a number leaves
/// the counter or moves it forward by one round.
pub proof fn the_rollover_counter_never_rewinds(roc: u32, highest: Option<u16>, seq: u16)
    requires
        roc < u32::MAX,
    ensures
        roc <= next_roc(roc, highest, seq) <= roc + 1,
{
}

} // verus!
