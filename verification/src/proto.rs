//! Wire format: RTP-compatible media framing plus a small length-prefixed
//! control protocol.
//!
//! The media header is deliberately a real RTP header so a live stream can be
//! decoded by Wireshark and standard RTP tooling while debugging.
use vstd::prelude::*;

use crate::text::{append, push_number};

pub mod bytes;
pub mod control;
pub mod rtp;
pub mod seq;

pub use control::{Accept, ControlMsg, Hello, Init, Stats};
pub use rtp::{PayloadKind, RtpHeader, RTP_HEADER_LEN};
pub use seq::SeqExtender;

verus! {

/// TCP port for the control channel (handshake, stats, mute, teardown).
pub const CONTROL_PORT: u16 = 47100;

/// UDP port carrying RTP media.
pub const MEDIA_PORT: u16 = 47101;

/// Bumped on any incompatible change to the control protocol.
///
/// 2: a session starts with recognition and pairing, and the media is
/// encrypted. An older sender has no way to talk to a newer receiver, so the
/// mismatch is caught on the list of peers already.
pub const PROTOCOL_VERSION: u32 = 2;

/// Everything in the engine runs at this rate; devices that disagree are resampled.
pub const SAMPLE_RATE: u32 = 48_000;

/// Frame duration on the wire. 10 ms is the sweet spot between overhead and latency.
pub const FRAME_MS: u32 = 10;

/// Samples per mono frame: 480 at 48 kHz / 10 ms.
pub const FRAME_SAMPLES: usize = 480;

/// What can go wrong while reading or writing the wire format.
#[derive(Debug)]
pub enum ProtoError {
    TooShort { got: usize, want: usize },
    BadVersion,
    UnknownPayloadType(u8),
    ControlFrameTooLarge(u32),
    Io(String),
    Decode(String),
    Encode(String),
}

impl ProtoError {
    /// The complaint in words.
    pub open spec fn text(self) -> Seq<char> {
        match self {
            ProtoError::TooShort { got, want } => "packet too short: "@ + crate::text::decimal(
                got as nat,
            ) + " B, expected at least "@ + crate::text::decimal(want as nat) + " B"@,
            ProtoError::BadVersion => "not an RTP version 2 packet"@,
            ProtoError::UnknownPayloadType(kind) => "unknown payload type "@
                + crate::text::decimal(kind as nat),
            ProtoError::ControlFrameTooLarge(len) => "control frame of "@ + crate::text::decimal(
                len as nat,
            ) + " B exceeds the limit"@,
            ProtoError::Io(e) => "i/o: "@ + e@,
            ProtoError::Decode(e) => "CBOR decode: "@ + e@,
            ProtoError::Encode(e) => "CBOR encode: "@ + e@,
        }
    }

    /// The complaint in words.
    pub fn message(&self) -> (r: String)
        ensures
            r@ == self.text(),
    {
        let mut out = String::new();
        match self {
            ProtoError::TooShort { got, want } => {
                append(&mut out, "packet too short: ");
                push_number(&mut out, *got as u64);
                append(&mut out, " B, expected at least ");
                push_number(&mut out, *want as u64);
                append(&mut out, " B");
            },
            ProtoError::BadVersion => {
                append(&mut out, "not an RTP version 2 packet");
            },
            ProtoError::UnknownPayloadType(kind) => {
                append(&mut out, "unknown payload type ");
                push_number(&mut out, *kind as u64);
            },
            ProtoError::ControlFrameTooLarge(len) => {
                append(&mut out, "control frame of ");
                push_number(&mut out, *len as u64);
                append(&mut out, " B exceeds the limit");
            },
            ProtoError::Io(e) => {
                append(&mut out, "i/o: ");
                append(&mut out, e.as_str());
            },
            ProtoError::Decode(e) => {
                append(&mut out, "CBOR decode: ");
                append(&mut out, e.as_str());
            },
            ProtoError::Encode(e) => {
                append(&mut out, "CBOR encode: ");
                append(&mut out, e.as_str());
            },
        }
        assert(out@ =~= self.text());
        out
    }
}

/// A frame is ten milliseconds of samples.
pub proof fn frame_is_ten_milliseconds()
    ensures
        FRAME_SAMPLES * 1000 == SAMPLE_RATE * FRAME_MS,
{
}

} // verus!
