//! Minimal RTP header: version 2, no padding, no extension, no CSRCs.
//!
//! Layout (RFC 3550 §5.1), 12 bytes:
//! ```text
//!  0                   1                   2                   3
//!  0 1 2 3 4 5 6 7 8 9 0 1 2 3 4 5 6 7 8 9 0 1 2 3 4 5 6 7 8 9 0 1
//! +-+-+-+-+-+-+-+-+-+-+-+-+-+-+-+-+-+-+-+-+-+-+-+-+-+-+-+-+-+-+-+-+
//! |V=2|P|X|  CC   |M|     PT      |       sequence number         |
//! +-+-+-+-+-+-+-+-+-+-+-+-+-+-+-+-+-+-+-+-+-+-+-+-+-+-+-+-+-+-+-+-+
//! |                           timestamp                           |
//! +-+-+-+-+-+-+-+-+-+-+-+-+-+-+-+-+-+-+-+-+-+-+-+-+-+-+-+-+-+-+-+-+
//! |                             SSRC                              |
//! +-+-+-+-+-+-+-+-+-+-+-+-+-+-+-+-+-+-+-+-+-+-+-+-+-+-+-+-+-+-+-+-+
//! ```
use vstd::prelude::*;

use crate::proto::bytes::{get16, get32, put16, put32};
use crate::proto::ProtoError;

verus! {

pub const RTP_HEADER_LEN: usize = 12;

/// Payload types. 111 is the de-facto dynamic type for Opus/48000 used by
/// WebRTC, which makes third-party tools decode our stream without a profile.
#[derive(Debug, Clone, Copy, PartialEq, Eq, Structural)]
pub enum PayloadKind {
    /// 16-bit signed PCM, network (big-endian) byte order, mono.
    PcmS16,
    /// Opus, 48 kHz.
    Opus,
}

impl PayloadKind {
    /// The payload type as it stands in the header.
    pub open spec fn code(self) -> u8 {
        match self {
            PayloadKind::PcmS16 => 96,
            PayloadKind::Opus => 111,
        }
    }

    /// The payload type as it stands in the header.
    pub fn to_u8(self) -> (r: u8)
        ensures
            r == self.code(),
    {
        match self {
            PayloadKind::PcmS16 => 96,
            PayloadKind::Opus => 111,
        }
    }

    pub fn from_u8(v: u8) -> (r: Result<Self, ProtoError>)
        ensures
            r matches Ok(k) ==> k.code() == v,
            r is Ok <==> v == 96 || v == 111,
            r matches Err(e) ==> e == ProtoError::UnknownPayloadType(v),
    {
        match v {
            96 => Ok(PayloadKind::PcmS16),
            111 => Ok(PayloadKind::Opus),
            other => Err(ProtoError::UnknownPayloadType(other)),
        }
    }
}

#[derive(Debug, Clone, Copy, PartialEq, Eq, Structural)]
pub struct RtpHeader {
    /// Set on the first packet of a talkspurt after silence (DTX).
    pub marker: bool,
    pub payload: PayloadKind,
    pub seq: u16,
    /// In 1/48000 s units; advances by `FRAME_SAMPLES` per frame.
    pub timestamp: u32,
    pub ssrc: u32,
}

impl RtpHeader {
    /// The twelve bytes of the header.
    pub open spec fn bytes(self) -> Seq<u8> {
        seq![0x80u8, (self.payload.code() + if self.marker { 128int } else { 0 }) as u8]
            + crate::proto::bytes::be16(self.seq) + crate::proto::bytes::be32(self.timestamp)
            + crate::proto::bytes::be32(self.ssrc)
    }

    /// The header that the first twelve bytes spell, if they spell one.
    pub open spec fn parsed(buf: Seq<u8>) -> Result<RtpHeader, ProtoError> {
        if buf.len() < RTP_HEADER_LEN {
            Err(ProtoError::TooShort { got: buf.len() as usize, want: RTP_HEADER_LEN })
        } else if buf[0] / 64 != 2 {
            Err(ProtoError::BadVersion)
        } else if buf[1] % 128 != 96 && buf[1] % 128 != 111 {
            Err(ProtoError::UnknownPayloadType((buf[1] % 128) as u8))
        } else {
            Ok(
                RtpHeader {
                    marker: buf[1] >= 128,
                    payload: if buf[1] % 128 == 96 {
                        PayloadKind::PcmS16
                    } else {
                        PayloadKind::Opus
                    },
                    seq: crate::proto::bytes::from_be16(buf[2], buf[3]),
                    timestamp: crate::proto::bytes::from_be32(buf[4], buf[5], buf[6], buf[7]),
                    ssrc: crate::proto::bytes::from_be32(buf[8], buf[9], buf[10], buf[11]),
                },
            )
        }
    }

    /// Writes the header over the first twelve bytes; what follows them stays.
    pub fn encode_into(&self, out: &mut [u8]) -> (r: Result<(), ProtoError>)
        ensures
            r is Ok <==> old(out)@.len() >= RTP_HEADER_LEN,
            r is Ok ==> final(out)@ == self.bytes() + old(out)@.skip(RTP_HEADER_LEN as int),
            r matches Err(e) ==> final(out)@ == old(out)@ && e == (ProtoError::TooShort {
                got: old(out)@.len() as usize,
                want: RTP_HEADER_LEN,
            }),
    {
        if out.len() < RTP_HEADER_LEN {
            return Err(ProtoError::TooShort { got: out.len(), want: RTP_HEADER_LEN });
        }
        out[0] = 0x80;  // V=2, P=0, X=0, CC=0
        out[1] = self.payload.to_u8() + if self.marker {
            0x80
        } else {
            0
        };
        put16(out, 2, self.seq);
        put32(out, 4, self.timestamp);
        put32(out, 8, self.ssrc);
        assert(out@ =~= self.bytes() + old(out)@.skip(RTP_HEADER_LEN as int));
        Ok(())
    }

    /// Reads a header off the front of a packet.
    pub fn decode(buf: &[u8]) -> (r: Result<Self, ProtoError>)
        ensures
            r == Self::parsed(buf@),
    {
        if buf.len() < RTP_HEADER_LEN {
            return Err(ProtoError::TooShort { got: buf.len(), want: RTP_HEADER_LEN });
        }
        if buf[0] / 64 != 2 {
            return Err(ProtoError::BadVersion);
        }
        let payload = match PayloadKind::from_u8(buf[1] % 128) {
            Ok(k) => k,
            Err(e) => return Err(e),
        };
        Ok(
            RtpHeader {
                marker: buf[1] >= 128,
                payload,
                seq: get16(buf, 2),
                timestamp: get32(buf, 4),
                ssrc: get32(buf, 8),
            },
        )
    }
}

/// The byte pair of one sample.
pub open spec fn sample_bytes(s: i16) -> Seq<u8> {
    crate::proto::bytes::be16(s as u16)
}

/// The bytes of a run of samples, in order.
pub open spec fn pcm_bytes(samples: Seq<i16>) -> Seq<u8> {
    Seq::new(samples.len() * 2, |i: int| sample_bytes(samples[i / 2])[i % 2])
}

/// The samples that a run of bytes spells. A trailing odd byte is ignored.
pub open spec fn pcm_samples(bytes: Seq<u8>) -> Seq<i16> {
    Seq::new(
        bytes.len() / 2,
        |i: int| crate::proto::bytes::from_be16(bytes[2 * i], bytes[2 * i + 1]) as i16,
    )
}

/// Write mono i16 samples in network byte order, returning the byte count.
///
/// As many whole samples are written as both sides hold; the count is that of
/// the samples handed in.
pub fn encode_pcm(samples: &[i16], out: &mut [u8]) -> (n: usize)
    requires
        samples@.len() * 2 <= usize::MAX,
    ensures
        n == samples@.len() * 2,
        ({
            let whole = if samples@.len() * 2 <= old(out)@.len() {
                samples@.len() as int
            } else {
                old(out)@.len() as int / 2
            };
            final(out)@ == pcm_bytes(samples@.take(whole)) + old(out)@.skip(2 * whole)
        }),
{
    let whole: usize = if samples.len() <= out.len() / 2 {
        samples.len()
    } else {
        out.len() / 2
    };
    let mut i: usize = 0;
    while i < whole
        invariant
            i <= whole <= samples@.len(),
            2 * whole <= old(out)@.len(),
            2 * whole <= usize::MAX,
            old(out)@.len() == out@.len(),
            out@ == pcm_bytes(samples@.take(i as int)) + old(out)@.skip(2 * i),
        decreases whole - i,
    {
        put16(out, 2 * i, samples[i] as u16);
        assert(out@ =~= pcm_bytes(samples@.take(i + 1)) + old(out)@.skip(2 * (i + 1)));
        i += 1;
    }
    samples.len() * 2
}

/// Read mono i16 samples from network byte order. A trailing odd byte is ignored.
pub fn decode_pcm(bytes: &[u8], out: &mut Vec<i16>)
    ensures
        final(out)@ == pcm_samples(bytes@),
{
    out.clear();
    let n: usize = bytes.len() / 2;
    let mut i: usize = 0;
    while i < n
        invariant
            i <= n,
            n == bytes@.len() / 2,
            2 * n <= usize::MAX,
            out@ == pcm_samples(bytes@).take(i as int),
        decreases n - i,
    {
        out.push(get16(bytes, 2 * i) as i16);
        assert(out@ =~= pcm_samples(bytes@).take(i + 1));
        i += 1;
    }
    assert(out@ =~= pcm_samples(bytes@));
}

/// Decoding an encoded header gives the header back, whatever follows it.
pub proof fn header_reads_back(h: RtpHeader, rest: Seq<u8>)
    ensures
        RtpHeader::parsed(h.bytes() + rest) == Ok::<RtpHeader, ProtoError>(h),
{
    crate::proto::bytes::be16_reads_back(h.seq);
    crate::proto::bytes::be32_reads_back(h.timestamp);
    crate::proto::bytes::be32_reads_back(h.ssrc);
}

/// The header on the wire is RTP version 2 without padding, extension or CSRCs,
/// with the payload type in the low seven bits and the marker above them.
pub proof fn header_is_rtp_version_two(h: RtpHeader)
    ensures
        h.bytes().len() == RTP_HEADER_LEN,
        h.bytes()[0] == 0x80,
        h.bytes()[1] % 128 == h.payload.code(),
        h.bytes()[1] >= 128 <==> h.marker,
{
}

/// Decoding encoded samples gives the samples back.
pub proof fn pcm_reads_back(samples: Seq<i16>)
    ensures
        pcm_samples(pcm_bytes(samples)) == samples,
{
    let back = pcm_samples(pcm_bytes(samples));
    assert forall|i: int| 0 <= i < samples.len() implies back[i] == samples[i] by {
        let s = samples[i];
        assert((2 * i) / 2 == i && (2 * i + 1) / 2 == i);
        crate::proto::bytes::be16_reads_back(s as u16);
        assert((s as u16) as i16 == s) by (bit_vector);
    }
    assert(back =~= samples);
}

} // verus!
