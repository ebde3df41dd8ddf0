//! The codec's bookkeeping: what the encoder is told about the link, and how a
//! popped slot is decoded.
//!
//! Three ways a frame reaches the output, in descending order of quality: the
//! packet arrived; it did not, but the *next* packet carries a low-bitrate copy;
//! neither, so the decoder extrapolates from its own model.
use vstd::prelude::*;

use crate::engine::jitter::Pop;
use crate::proto::FRAME_SAMPLES;

verus! {

/// Worst case for a 10 ms Opus frame; real ones sit near 30-60 B.
pub const MAX_PACKET: usize = 1275;

/// What the encoder assumes before the receiver has reported anything. FEC is
/// useless unless the encoder believes packets go missing, so a non-zero
/// starting estimate matters; reports refine it from reality.
pub const INITIAL_LOSS: u8 = 5;

/// The most loss, in percent, that the encoder is ever told to expect.
pub const MAX_LOSS: u8 = 30;

/// A loss figure moved into the range that the encoder takes.
pub open spec fn loss_in_range(pct: i64) -> u8 {
    if pct < 0 {
        0
    } else if pct > MAX_LOSS {
        MAX_LOSS
    } else {
        pct as u8
    }
}

/// How much loss, in whole percent, the encoder was last told to expect.
#[derive(Debug, Clone, Copy, PartialEq, Eq, Structural)]
pub struct ExpectedLoss {
    pub pct: u8,
}

impl ExpectedLoss {
    pub fn new() -> (r: Self)
        ensures
            r.pct == INITIAL_LOSS,
    {
        ExpectedLoss { pct: INITIAL_LOSS }
    }

    /// Feed back what the receiver actually measures, rounded to whole percent.
    /// Returns the figure to tell the encoder, when it changed. Raising it makes
    /// the encoder spend more bits on the redundant copy; lowering it spends
    /// them on the primary frame instead.
    pub fn set_expected_loss(&mut self, pct: i64) -> (r: Option<u8>)
        ensures
            final(self).pct == loss_in_range(pct),
            r == if final(self).pct != old(self).pct {
                Some(final(self).pct)
            } else {
                None
            },
    {
        let wanted: u8 = if pct < 0 {
            0
        } else if pct > MAX_LOSS as i64 {
            MAX_LOSS
        } else {
            pct as u8
        };
        if wanted != self.pct {
            self.pct = wanted;
            Some(wanted)
        } else {
            None
        }
    }

    pub fn expected_loss(&self) -> (r: u8)
        ensures
            r == self.pct,
    {
        self.pct
    }
}

impl Default for ExpectedLoss {
    fn default() -> (r: Self)
        ensures
            r.pct == INITIAL_LOSS,
    {
        ExpectedLoss::new()
    }
}

/// Scratch sized for one decoded frame.
pub fn frame_buffer() -> (r: Vec<i16>)
    ensures
        r@ == Seq::new(FRAME_SAMPLES as nat, |i: int| 0i16),
{
    let r: Vec<i16> = vec![0i16; FRAME_SAMPLES];
    assert(r@ =~= Seq::new(FRAME_SAMPLES as nat, |i: int| 0i16));
    r
}

/// What the decoder is asked to do for one slot.
#[derive(Debug, PartialEq)]
pub enum DecodeStep {
    /// Decode this packet.
    Decode(Vec<u8>),
    /// The frame before this packet was lost; rebuild it from the redundant
    /// copy that the packet carries.
    DecodeFec(Vec<u8>),
    /// Nothing arrived and nothing follows: extrapolate.
    Conceal,
    /// There is nothing to play yet.
    Wait,
}

impl DecodeStep {
    /// The step that a popped slot calls for.
    pub fn of(popped: Pop) -> (r: DecodeStep)
        ensures
            popped matches Pop::Packet(p) ==> r == DecodeStep::Decode(p),
            popped matches Pop::LostRecoverable(p) ==> r == DecodeStep::DecodeFec(p),
            popped is Lost ==> r is Conceal,
            popped is Filling ==> r is Wait,
    {
        match popped {
            Pop::Packet(p) => DecodeStep::Decode(p),
            Pop::LostRecoverable(next) => DecodeStep::DecodeFec(next),
            Pop::Lost => DecodeStep::Conceal,
            Pop::Filling => DecodeStep::Wait,
        }
    }
}

} // verus!
