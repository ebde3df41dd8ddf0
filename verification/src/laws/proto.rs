//! What goes over the wire.
use vstd::prelude::*;

use crate::proto::bytes::{get16, get32, put16, put32};
use crate::proto::control::{body_len, frame, unframe, Unframed};
use crate::proto::rtp::{decode_pcm, encode_pcm};
use crate::proto::{PayloadKind, ProtoError, RtpHeader, SeqExtender};

verus! {

/// Integers lie in memory with the greatest weight first, and nothing around them is
/// touched.
pub proof fn integers_lie_big_end_first(at: usize, v: u16, w: u32)
    ensures
        forall|out: &mut [u8]|
            (#[trigger] call_ensures(put16, (out, at, v), ())) && at + 2 <= (*out)@.len() ==> {
                &&& final(out)@.len() == (*out)@.len()
                &&& final(out)@[at as int] * 256 + final(out)@[at + 1] == v
                &&& forall|i: int|
                    0 <= i < (*out)@.len() && (i < at || i >= at + 2) ==> #[trigger] final(out)@[i]
                        == (*out)@[i]
            },
        forall|out: &mut [u8]|
            (#[trigger] call_ensures(put32, (out, at, w), ())) && at + 4 <= (*out)@.len() ==> {
                &&& final(out)@.len() == (*out)@.len()
                &&& final(out)@[at as int] * 0x100_0000 + final(out)@[at + 1] * 0x1_0000
                    + final(out)@[at + 2] * 0x100 + final(out)@[at + 3] == w
                &&& forall|i: int|
                    0 <= i < (*out)@.len() && (i < at || i >= at + 4) ==> #[trigger] final(out)@[i]
                        == (*out)@[i]
            },
{
}

/// Integers are read with the greatest weight first.
pub proof fn integers_are_read_big_end_first(buf: &[u8], at: usize, v: u16, w: u32)
    ensures
        call_ensures(get16, (buf, at), v) ==> v == buf@[at as int] * 256 + buf@[at + 1],
        call_ensures(get32, (buf, at), w) ==> w == buf@[at as int] * 0x100_0000 + buf@[at + 1]
            * 0x1_0000 + buf@[at + 2] * 0x100 + buf@[at + 3],
{
}

/// The payload types are those of the wire: 96 for samples and 111 for Opus. No
/// other is known.
pub proof fn payload_types_are_two(kind: PayloadKind, v: u8, r: Result<PayloadKind, ProtoError>)
    requires
        call_ensures(PayloadKind::from_u8, (v,), r),
    ensures
        call_ensures(PayloadKind::to_u8, (kind,), v) ==> r == Ok::<PayloadKind, ProtoError>(kind),
        v == 96 <==> r == Ok::<PayloadKind, ProtoError>(PayloadKind::PcmS16),
        v == 111 <==> r == Ok::<PayloadKind, ProtoError>(PayloadKind::Opus),
        r matches Err(e) ==> e == ProtoError::UnknownPayloadType(v),
{
}

/// A header is twelve bytes of RTP: version two, the mark and the type, the number,
/// the time and the source, each with the greatest weight first. What follows it is
/// left alone, and so is a place too short for it.
pub proof fn a_header_lies_as_rtp_says(h: RtpHeader, r: Result<(), ProtoError>)
    ensures
        forall|out: &mut [u8]| #[trigger]
            call_ensures(RtpHeader::encode_into, (&h, out), r) ==> {
                let (before, b) = ((*out)@, final(out)@);
                &&& r is Ok <==> before.len() >= 12
                &&& r is Err ==> b == before
                &&& r is Ok ==> {
                    &&& b.len() == before.len()
                    &&& b[0] == 0x80
                    &&& b[1] == (if h.payload == PayloadKind::Opus {
                        111int
                    } else {
                        96
                    }) + (if h.marker {
                        128int
                    } else {
                        0
                    })
                    &&& b[2] * 256 + b[3] == h.seq
                    &&& b[4] * 0x100_0000 + b[5] * 0x1_0000 + b[6] * 0x100 + b[7] == h.timestamp
                    &&& b[8] * 0x100_0000 + b[9] * 0x1_0000 + b[10] * 0x100 + b[11] == h.ssrc
                    &&& forall|i: int| 12 <= i < before.len() ==> #[trigger] b[i] == before[i]
                }
            },
{
}

/// A header is read from where RTP says it lies; what is too short, of another
/// version or of an unknown type is refused, in this order.
pub proof fn a_header_is_read_as_rtp_says(buf: &[u8], r: Result<RtpHeader, ProtoError>)
    requires
        call_ensures(RtpHeader::decode, (buf,), r),
    ensures
        ({
            let b = buf@;
            &&& b.len() < 12 ==> (r matches Err(ProtoError::TooShort { got, want }) && got
                == b.len() && want == 12)
            &&& b.len() >= 12 && !(128 <= b[0] < 192) ==> (r matches Err(e) && e is BadVersion)
            &&& b.len() >= 12 && 128 <= b[0] < 192 ==> {
                let kind = b[1] % 128;
                &&& kind != 96 && kind != 111 ==> (r matches Err(ProtoError::UnknownPayloadType(k))
                    && k == kind)
                &&& kind == 96 || kind == 111 ==> {
                    &&& r matches Ok(h)
                    &&& h.payload == if kind == 111 {
                        PayloadKind::Opus
                    } else {
                        PayloadKind::PcmS16
                    }
                    &&& h.marker <==> b[1] >= 128
                    &&& h.seq == b[2] * 256 + b[3]
                    &&& h.timestamp == b[4] * 0x100_0000 + b[5] * 0x1_0000 + b[6] * 0x100 + b[7]
                    &&& h.ssrc == b[8] * 0x100_0000 + b[9] * 0x1_0000 + b[10] * 0x100 + b[11]
                }
            }
        }),
{
}

proof fn lemma_sample(s: i16)
    ensures
        (s as u16) as int == if s < 0 {
            s + 65536
        } else {
            s as int
        },
{
    if s < 0 {
        assert(s as u16 == 65535u16 - ((-1i16 - s) as u16)) by (bit_vector)
            requires
                s < 0,
        ;
        assert(-1 - s >= 0 && (-1 - s) <= 32767);
    }
}

proof fn lemma_unsample(v: u16)
    ensures
        (v as i16) as int == if v >= 32768 {
            v - 65536
        } else {
            v as int
        },
{
    let s = v as i16;
    assert(((v as i16) as u16) == v) by (bit_vector);
    lemma_sample(s);
    assert((v as i16) < 0 <==> v >= 32768) by (bit_vector);
}

/// Samples lie one after the other, each as two bytes in two's complement, the
/// greater weight first. As many are written as there is room for; the count is that
/// of all the bytes they take.
pub proof fn samples_lie_in_order(samples: &[i16], n: usize)
    ensures
        forall|out: &mut [u8]| #[trigger]
            call_ensures(encode_pcm, (samples, out), n) ==> {
                let (before, b) = ((*out)@, final(out)@);
                &&& n == 2 * samples@.len()
                &&& b.len() == before.len()
                &&& forall|i: int|
                    0 <= i < samples@.len() && 2 * i + 1 < before.len() ==> #[trigger] b[2 * i] * 256
                        + b[2 * i + 1] == if samples@[i] < 0 {
                        samples@[i] + 65536
                    } else {
                        samples@[i] as int
                    }
                &&& forall|k: int|
                    2 * samples@.len() <= k < before.len() ==> #[trigger] b[k] == before[k]
            },
{
    assert forall|out: &mut [u8]| #[trigger] call_ensures(encode_pcm, (samples, out), n) implies {
        let (before, b) = ((*out)@, final(out)@);
        &&& b.len() == before.len()
        &&& forall|i: int|
            0 <= i < samples@.len() && 2 * i + 1 < before.len() ==> #[trigger] b[2 * i] * 256 + b[2
                * i + 1] == if samples@[i] < 0 {
                samples@[i] + 65536
            } else {
                samples@[i] as int
            }
        &&& forall|k: int| 2 * samples@.len() <= k < before.len() ==> #[trigger] b[k] == before[k]
    } by {
        let (before, b) = ((*out)@, final(out)@);
        let whole = if samples@.len() * 2 <= before.len() {
            samples@.len() as int
        } else {
            before.len() as int / 2
        };
        let bytes = crate::proto::rtp::pcm_bytes(samples@.take(whole));
        assert(bytes.len() == 2 * whole);
        assert forall|i: int| 0 <= i < samples@.len() && 2 * i + 1 < before.len() implies #[trigger] b[2
            * i] * 256 + b[2 * i + 1] == if samples@[i] < 0 {
            samples@[i] + 65536
        } else {
            samples@[i] as int
        } by {
            assert(i < whole);
            assert((2 * i) / 2 == i && (2 * i + 1) / 2 == i);
            assert(b[2 * i] == bytes[2 * i] && b[2 * i + 1] == bytes[2 * i + 1]);
            lemma_sample(samples@[i]);
            crate::proto::bytes::be16_reads_back(samples@[i] as u16);
        }
    }
}

/// Samples are read as they lie, two bytes each; an odd byte at the end is left out,
/// and what was in the way before is gone.
pub proof fn samples_are_read_in_order(bytes: &[u8])
    ensures
        forall|out: &mut Vec<i16>| #[trigger]
            call_ensures(decode_pcm, (bytes, out), ()) ==> {
                &&& final(out)@.len() == bytes@.len() / 2
                &&& forall|i: int|
                    0 <= i < bytes@.len() / 2 ==> {
                        let v = bytes@[2 * i] * 256 + bytes@[2 * i + 1];
                        #[trigger] final(out)@[i] == if v >= 32768 {
                            v - 65536
                        } else {
                            v
                        }
                    }
            },
{
    assert forall|out: &mut Vec<i16>| #[trigger] call_ensures(decode_pcm, (bytes, out), ()) implies {
        &&& final(out)@.len() == bytes@.len() / 2
        &&& forall|i: int|
            0 <= i < bytes@.len() / 2 ==> {
                let v = bytes@[2 * i] * 256 + bytes@[2 * i + 1];
                #[trigger] final(out)@[i] == if v >= 32768 {
                    v - 65536
                } else {
                    v
                }
            }
    } by {
        assert forall|i: int| 0 <= i < bytes@.len() / 2 implies {
            let v = bytes@[2 * i] * 256 + bytes@[2 * i + 1];
            #[trigger] final(out)@[i] == if v >= 32768 {
                v - 65536
            } else {
                v
            }
        } by {
            lemma_unsample(crate::proto::bytes::from_be16(bytes@[2 * i], bytes@[2 * i + 1]));
        }
    }
}

/// The counter of a stream that has not begun starts at the first number it sees. A
/// look ahead says what taking the number would say, and changes nothing.
pub proof fn a_counter_starts_at_the_first_number(seq: u16, ext: u64, peeked: u64, roc: u32)
    ensures
        forall|e: &mut SeqExtender|
            (#[trigger] call_ensures(SeqExtender::extend, (e, seq), ext)) && call_ensures(
                SeqExtender::peek,
                (&*e, seq),
                peeked,
            ) ==> ext == peeked,
        forall|e: &mut SeqExtender|
            (#[trigger] call_ensures(SeqExtender::extend, (e, seq), ext)) && (*e).top() is None && (
            *e).rounds() == 0 ==> ext == seq && final(e).top() == Some(seq) && final(e).rounds()
                == 0,
        forall|e: SeqExtender| #[trigger]
            call_ensures(SeqExtender::new, (), e) ==> e.top() is None && e.rounds() == 0,
        forall|e: SeqExtender| #[trigger]
            call_ensures(SeqExtender::roc, (&e,), roc) ==> roc == e.rounds(),
{
}

/// A packet that is less than half the number space away from the newest gets its
/// true number, on either side of a wrap, from its sixteen bits alone. The newest is
/// then the greater of the two.
pub proof fn a_near_number_is_told_in_full(true_number: u64, seq: u16, ext: u64)
    requires
        seq == true_number % 65536,
        true_number < 0x1_0000_0000_0000,
    ensures
        forall|e: &mut SeqExtender|
            {
                &&& #[trigger] call_ensures(SeqExtender::extend, (e, seq), ext)
                &&& (*e).top() is Some
                &&& -32768 < true_number - ((*e).rounds() * 65536 + (*e).top()->0) < 32768
            } ==> {
                let newest = (*e).rounds() * 65536 + (*e).top()->0;
                &&& ext == true_number
                &&& final(e).top() is Some
                &&& final(e).rounds() * 65536 + final(e).top()->0 == if true_number > newest {
                    true_number as int
                } else {
                    newest
                }
            },
{
    assert forall|e: &mut SeqExtender|
        {
            &&& #[trigger] call_ensures(SeqExtender::extend, (e, seq), ext)
            &&& (*e).top() is Some
            &&& -32768 < true_number - ((*e).rounds() * 65536 + (*e).top()->0) < 32768
        } implies {
        let newest = (*e).rounds() * 65536 + (*e).top()->0;
        &&& ext == true_number
        &&& final(e).top() is Some
        &&& final(e).rounds() * 65536 + final(e).top()->0 == if true_number > newest {
            true_number as int
        } else {
            newest
        }
    } by {
        crate::proto::seq::a_near_packet_maps_to_its_true_counter(
            (*e).rounds(),
            (*e).top()->0,
            true_number,
        );
    }
}

/// A number up to half the space away from the newest is of the same round; one that is
/// lower by more is of the next, and one that is higher by more is of the last, which
/// changes nothing that is remembered. In the round, the higher number is the newest.
pub proof fn a_number_belongs_to_the_nearest_round(seq: u16, ext: u64)
    ensures
        forall|e: &mut SeqExtender|
            (#[trigger] call_ensures(SeqExtender::extend, (e, seq), ext)) && (*e).top() is Some ==> {
                let (h, round) = ((*e).top()->0, (*e).rounds());
                &&& h - 32768 <= seq <= h + 32768 ==> {
                    &&& ext == round * 65536 + seq
                    &&& final(e).rounds() == round
                    &&& final(e).top() == Some(
                        if seq > h {
                            seq
                        } else {
                            h
                        },
                    )
                }
                &&& seq < h - 32768 && round < u32::MAX ==> {
                    &&& ext == (round + 1) * 65536 + seq
                    &&& final(e).rounds() == round + 1
                    &&& final(e).top() == Some(seq)
                }
                &&& seq > h + 32768 && round > 0 ==> {
                    &&& ext == (round - 1) * 65536 + seq
                    &&& final(e).rounds() == round
                    &&& final(e).top() == Some(h)
                }
            },
{
}

/// A frame is the length of the body in four bytes, the greatest weight first, and
/// then the body. A body of more than 64 kB is refused with its length.
pub proof fn a_frame_is_a_length_and_a_body(body: &[u8], r: Result<Vec<u8>, ProtoError>)
    requires
        call_ensures(frame, (body,), r),
    ensures
        r is Ok <==> body@.len() <= 65536,
        r matches Ok(f) ==> {
            &&& f@.len() == body@.len() + 4
            &&& f@[0] * 0x100_0000 + f@[1] * 0x1_0000 + f@[2] * 0x100 + f@[3] == body@.len()
            &&& f@.skip(4) == body@
        },
        r matches Err(e) ==> (e matches ProtoError::ControlFrameTooLarge(n) && (body@.len()
            <= u32::MAX ==> n == body@.len())),
{
    if let Ok(f) = r {
        assert(f@.skip(4) =~= body@);
    }
}

/// What is announced by the first four bytes of a stream is the length of the first
/// body; the frame ends where the body does. One that is announced too large is
/// refused at once, before the body is there; else more is awaited until it is.
pub proof fn a_stream_is_cut_at_the_announced_length(stream: &[u8], r: Unframed)
    requires
        call_ensures(unframe, (stream,), r),
    ensures
        ({
            let s = stream@;
            let n = s[0] * 0x100_0000 + s[1] * 0x1_0000 + s[2] * 0x100 + s[3];
            &&& s.len() < 4 ==> r is More
            &&& s.len() >= 4 && n > 65536 ==> (r matches Unframed::TooLarge(len) && len == n)
            &&& s.len() >= 4 && n <= 65536 && s.len() < 4 + n ==> r is More
            &&& s.len() >= 4 && n <= 65536 && s.len() >= 4 + n ==> (r matches Unframed::Body { end }
                && end == 4 + n)
        }),
{
}

/// The announced length alone says how long the body is, or that it is too large.
pub proof fn a_length_is_read_big_end_first(prefix: &[u8; 4], r: Result<usize, ProtoError>)
    requires
        call_ensures(body_len, (prefix,), r),
    ensures
        ({
            let n = prefix@[0] * 0x100_0000 + prefix@[1] * 0x1_0000 + prefix@[2] * 0x100
                + prefix@[3];
            &&& n <= 65536 ==> r == Ok::<usize, ProtoError>(n as usize)
            &&& n > 65536 ==> (r matches Err(ProtoError::ControlFrameTooLarge(len)) && len == n)
        }),
{
}

/// The numbers that both sides agree on.
pub proof fn the_two_sides_agree_on_numbers()
    ensures
        crate::proto::CONTROL_PORT == 47100,
        crate::proto::MEDIA_PORT == 47101,
        crate::proto::PROTOCOL_VERSION == 2,
        crate::proto::SAMPLE_RATE == 48_000,
        crate::proto::FRAME_MS == 10,
        crate::proto::FRAME_SAMPLES == 480,
{
}

} // verus!
