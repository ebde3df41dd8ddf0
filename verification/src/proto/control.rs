//! Control channel: length-prefixed messages over TCP.
//!
//! The sender dials, the receiver listens. Losing this connection invalidates
//! the session and stops the media stream: there is no "keep playing blind".
//!
//! A frame is the length of its body as four bytes, most significant first, and
//! then the body. What a body says is CBOR in the clear or a sealed message;
//! the framing does not care.
use vstd::prelude::*;

use crate::proto::bytes::get32;
use crate::proto::{PayloadKind, ProtoError};

verus! {

/// Generous for control frames, small enough to reject garbage early.
pub const MAX_FRAME: u32 = 65_536;

/// The length of the prefix that says how long a body is.
pub const LENGTH_PREFIX: usize = 4;

/// The bits of a single-precision number that the library carries but never
/// reads.
#[derive(Debug, Clone, Copy, PartialEq, Eq, Structural)]
pub struct FloatBits(pub u32);

/// What a sender offers.
#[derive(Debug)]
pub struct Hello {
    pub version: u32,
    pub payload: PayloadKind,
    pub sample_rate: u32,
    pub channels: u16,
    pub frame_ms: u32,
    /// Human-readable source device, shown by the receiver.
    pub device: String,
    /// Human-readable machine name of the sender.
    pub host: String,
}

/// What a receiver answers to an offer that it takes.
#[derive(Debug)]
pub struct Accept {
    pub version: u32,
    /// Stream identity, carried in every RTP packet.
    pub ssrc: u32,
    /// UDP port the receiver is listening on for media.
    pub media_port: u16,
    /// Human-readable sink device, so the sender can report where audio lands.
    pub sink: String,
    pub host: String,
    /// The key of this session's media.
    pub media_key: Vec<u8>,
}

/// How a sender introduces itself.
#[derive(Debug)]
pub struct Init {
    pub version: u32,
    pub host: String,
}

/// Sent by the receiver once a second; the sender uses it to tune bitrate and FEC.
#[derive(Debug, Clone, Copy, PartialEq, Eq, Structural)]
pub struct Stats {
    pub lost_pct: FloatBits,
    pub jitter_ms: FloatBits,
    pub buffer_ms: FloatBits,
    pub late_pct: FloatBits,
}

/// Everything that travels over the control channel.
#[derive(Debug)]
pub enum ControlMsg {
    /// The sender says who it is and which protocol it speaks.
    Init(Init),
    /// The receiver says who it is and whether it holds a key of this sender.
    Ready { host: String, known: bool },
    /// The sender decides whether the two have to pair.
    Pairing { needed: bool },
    /// One step of a key exchange.
    Handshake { msg: Vec<u8> },
    /// The proof that a side came to the same key.
    Confirm { mac: Vec<u8> },
    Hello(Hello),
    Accept(Accept),
    Reject { reason: String },
    Stats(Stats),
    Mute { on: bool },
    Bye { reason: String },
}

/// A body with its length in front.
pub open spec fn framed(body: Seq<u8>) -> Seq<u8> {
    crate::proto::bytes::be32(body.len() as u32) + body
}

/// The bytes to write for a body. A body above the limit is refused, with its
/// length where that fits in 32 bits.
pub fn frame(body: &[u8]) -> (r: Result<Vec<u8>, ProtoError>)
    ensures
        r is Ok <==> body@.len() <= MAX_FRAME,
        r matches Ok(bytes) ==> bytes@ == framed(body@),
        r matches Err(e) ==> e == ProtoError::ControlFrameTooLarge(
            if body@.len() <= u32::MAX {
                body@.len() as u32
            } else {
                u32::MAX
            },
        ),
{
    let n: usize = body.len();
    if n as u64 > u32::MAX as u64 {
        return Err(ProtoError::ControlFrameTooLarge(u32::MAX));
    }
    let len: u32 = n as u32;
    if len > MAX_FRAME {
        return Err(ProtoError::ControlFrameTooLarge(len));
    }
    let mut out: Vec<u8> = Vec::new();
    out.push((len / 0x100_0000) as u8);
    out.push((len / 0x1_0000 % 256) as u8);
    out.push((len / 0x100 % 256) as u8);
    out.push((len % 256) as u8);
    out.extend_from_slice(body);
    assert(out@ =~= framed(body@));
    Ok(out)
}

/// How long a body the prefix announces. Absurd lengths are refused before a
/// single byte of the body is read.
pub fn body_len(prefix: &[u8; 4]) -> (r: Result<usize, ProtoError>)
    ensures
        ({
            let len = crate::proto::bytes::from_be32(prefix@[0], prefix@[1], prefix@[2], prefix@[3]);
            &&& r is Ok <==> len <= MAX_FRAME
            &&& r matches Ok(n) ==> n == len
            &&& r matches Err(e) ==> e == ProtoError::ControlFrameTooLarge(len)
        }),
{
    let len: u32 = get32(prefix.as_slice(), 0);
    if len > MAX_FRAME {
        return Err(ProtoError::ControlFrameTooLarge(len));
    }
    Ok(len as usize)
}

/// What stands at the front of a stream of bytes.
pub enum Unframed {
    /// A whole body, which ends before this position.
    Body { end: usize },
    /// The frame is not complete yet.
    More,
    /// The announced length is above the limit.
    TooLarge(u32),
}

/// The first frame of a stream of bytes.
pub open spec fn first_frame(stream: Seq<u8>) -> Unframed {
    if stream.len() < LENGTH_PREFIX {
        Unframed::More
    } else {
        let len = crate::proto::bytes::from_be32(stream[0], stream[1], stream[2], stream[3]);
        if len > MAX_FRAME {
            Unframed::TooLarge(len)
        } else if stream.len() < LENGTH_PREFIX + len {
            Unframed::More
        } else {
            Unframed::Body { end: (LENGTH_PREFIX + len) as usize }
        }
    }
}

/// Splits the first frame off a stream of bytes.
pub fn unframe(stream: &[u8]) -> (r: Unframed)
    ensures
        r == first_frame(stream@),
        r matches Unframed::Body { end } ==> LENGTH_PREFIX <= end <= stream@.len(),
{
    if stream.len() < LENGTH_PREFIX {
        return Unframed::More;
    }
    let len: u32 = get32(stream, 0);
    if len > MAX_FRAME {
        return Unframed::TooLarge(len);
    }
    let end: usize = LENGTH_PREFIX + len as usize;
    if stream.len() < end {
        Unframed::More
    } else {
        Unframed::Body { end }
    }
}

/// A body that was framed comes out of the stream as it went in, whatever
/// follows it, so frames can be written one after another and read back one
/// after another.
pub proof fn a_frame_reads_back(body: Seq<u8>, rest: Seq<u8>)
    requires
        body.len() <= MAX_FRAME,
    ensures
        ({
            let stream = framed(body) + rest;
            &&& first_frame(stream) == (Unframed::Body { end: (LENGTH_PREFIX + body.len()) as usize })
            &&& stream.subrange(LENGTH_PREFIX as int, LENGTH_PREFIX + body.len()) == body
            &&& stream.skip(LENGTH_PREFIX + body.len()) == rest
        }),
{
    let stream = framed(body) + rest;
    crate::proto::bytes::be32_reads_back(body.len() as u32);
    assert(stream.subrange(LENGTH_PREFIX as int, LENGTH_PREFIX + body.len()) =~= body);
    assert(stream.skip(LENGTH_PREFIX + body.len()) =~= rest);
}

} // verus!
