use micbridge::proto::bytes::{get16, get32, put16, put32};
use micbridge::proto::control::{body_len, frame, unframe, FloatBits, Unframed, MAX_FRAME};
use micbridge::proto::rtp::{decode_pcm, encode_pcm};
use micbridge::proto::{
    ControlMsg, Hello, PayloadKind, ProtoError, RtpHeader, SeqExtender, Stats, RTP_HEADER_LEN,
};

#[test]
fn header_roundtrip() {
    let h = RtpHeader {
        marker: true,
        payload: PayloadKind::Opus,
        seq: 0xBEEF,
        timestamp: 0x0102_0304,
        ssrc: 0x7A31_F0C2,
    };
    let mut buf = [0u8; RTP_HEADER_LEN];
    h.encode_into(&mut buf).unwrap();
    assert_eq!(RtpHeader::decode(&buf).unwrap(), h);
}

#[test]
fn header_is_rtp_v2_on_the_wire() {
    let h = RtpHeader {
        marker: false,
        payload: PayloadKind::PcmS16,
        seq: 1,
        timestamp: 480,
        ssrc: 42,
    };
    let mut buf = [0u8; RTP_HEADER_LEN];
    h.encode_into(&mut buf).unwrap();
    assert_eq!(buf[0], 0x80, "version 2, no padding/extension/CSRC");
    assert_eq!(buf[1], 96, "payload type in the low 7 bits, marker clear");
}

#[test]
fn the_header_lies_in_network_order() {
    let h = RtpHeader {
        marker: true,
        payload: PayloadKind::Opus,
        seq: 0x0102,
        timestamp: 0x0304_0506,
        ssrc: 0x0708_090A,
    };
    let mut buf = [0u8; RTP_HEADER_LEN];
    h.encode_into(&mut buf).unwrap();
    assert_eq!(buf, [0x80, 0x80 | 111, 1, 2, 3, 4, 5, 6, 7, 8, 9, 10]);
}

#[test]
fn rejects_short_and_wrong_version() {
    assert!(matches!(
        RtpHeader::decode(&[0u8; 4]),
        Err(ProtoError::TooShort { .. })
    ));
    let mut buf = [0u8; RTP_HEADER_LEN];
    buf[0] = 0x40; // version 1
    assert!(matches!(
        RtpHeader::decode(&buf),
        Err(ProtoError::BadVersion)
    ));
}

#[test]
fn a_header_needs_room_and_a_known_payload() {
    let h = RtpHeader {
        marker: false,
        payload: PayloadKind::Opus,
        seq: 1,
        timestamp: 2,
        ssrc: 3,
    };
    let mut small = [7u8; 11];
    assert!(matches!(
        h.encode_into(&mut small),
        Err(ProtoError::TooShort { got: 11, want: 12 })
    ));
    assert_eq!(small, [7u8; 11], "nothing is written");

    let mut buf = [0u8; RTP_HEADER_LEN];
    h.encode_into(&mut buf).unwrap();
    buf[1] = 5;
    assert!(matches!(
        RtpHeader::decode(&buf),
        Err(ProtoError::UnknownPayloadType(5))
    ));
    assert!(matches!(
        PayloadKind::from_u8(7),
        Err(ProtoError::UnknownPayloadType(7))
    ));
}

#[test]
fn pcm_roundtrip() {
    let samples: Vec<i16> = (-4..4).map(|v| v * 1000).collect();
    let mut bytes = vec![0u8; samples.len() * 2];
    let n = encode_pcm(&samples, &mut bytes);
    assert_eq!(n, bytes.len());
    let mut back = Vec::new();
    decode_pcm(&bytes, &mut back);
    assert_eq!(back, samples);
}

#[test]
fn numbers_lie_big_end_first() {
    let mut out = [0u8; 8];
    put16(&mut out, 1, 0xABCD);
    put32(&mut out, 4, 0x0102_0304);
    assert_eq!(out, [0, 0xAB, 0xCD, 0, 1, 2, 3, 4]);
    assert_eq!(get16(&out, 1), 0xABCD);
    assert_eq!(get32(&out, 4), 0x0102_0304);
}

#[test]
fn counts_up_in_order() {
    let mut e = SeqExtender::new();
    assert_eq!(e.extend(0), 0);
    assert_eq!(e.extend(1), 1);
    assert_eq!(e.extend(2), 2);
}

#[test]
fn survives_the_wrap() {
    let mut e = SeqExtender::new();
    assert_eq!(e.extend(65_534), 65_534);
    assert_eq!(e.extend(65_535), 65_535);
    assert_eq!(e.extend(0), 65_536);
    assert_eq!(e.extend(1), 65_537);
    assert_eq!(e.roc(), 1);
}

#[test]
fn late_packet_across_the_wrap_stays_behind() {
    let mut e = SeqExtender::new();
    e.extend(65_535);
    e.extend(2);
    // 65534 arrives after the wrap; it belongs to the previous rollover.
    assert_eq!(e.extend(65_534), 65_534);
    assert_eq!(e.roc(), 1, "a late packet must not rewind the counter");
}

#[test]
fn reordering_within_a_window_keeps_true_order() {
    let mut e = SeqExtender::new();
    e.extend(100);
    assert_eq!(e.extend(103), 103);
    assert_eq!(e.extend(101), 101);
    assert_eq!(e.extend(102), 102);
}

#[test]
fn peeking_does_not_move_the_rollover_counter() {
    let mut ext = SeqExtender::new();
    ext.extend(65_530);
    // A forged packet from beyond the wrap: if it moved the counter, the real
    // packets after it would be counted from a wrong value.
    assert_eq!(ext.peek(3), ext.peek(3));
    assert_eq!(ext.roc(), 0, "a peek changes nothing");
    assert_eq!(ext.extend(65_531), 65_531);
    assert_eq!(ext.extend(3), 65_536 + 3, "a real wrap counts");
    assert_eq!(ext.roc(), 1);
}

#[test]
fn framing_roundtrip() {
    let msgs = vec![
        ControlMsg::Hello(Hello {
            version: 1,
            payload: PayloadKind::PcmS16,
            sample_rate: 48_000,
            channels: 1,
            frame_ms: 10,
            device: "Yeti Nano".into(),
            host: "laptop".into(),
        }),
        ControlMsg::Stats(Stats {
            lost_pct: FloatBits(1.5f32.to_bits()),
            jitter_ms: FloatBits(4.0f32.to_bits()),
            buffer_ms: FloatBits(30.0f32.to_bits()),
            late_pct: FloatBits(0.1f32.to_bits()),
        }),
        ControlMsg::Mute { on: true },
    ];

    let mut buf = Vec::new();
    for m in &msgs {
        let mut body = Vec::new();
        ciborium::into_writer(&format!("{m:?}"), &mut body).unwrap();
        buf.extend_from_slice(&frame(&body).unwrap());
    }

    let mut cursor = &buf[..];
    for expected in &msgs {
        let end = match unframe(cursor) {
            Unframed::Body { end } => end,
            _ => panic!("a whole frame is there"),
        };
        let got: String = ciborium::from_reader(&cursor[4..end]).unwrap();
        assert_eq!(got, format!("{expected:?}"));
        cursor = &cursor[end..];
    }
    assert!(cursor.is_empty());
}

#[test]
fn rejects_absurd_length() {
    let mut framed = Vec::new();
    framed.extend_from_slice(&(MAX_FRAME + 1).to_be_bytes());
    let err = body_len(&[framed[0], framed[1], framed[2], framed[3]]).unwrap_err();
    assert!(matches!(err, ProtoError::ControlFrameTooLarge(_)));
    assert!(matches!(unframe(&framed), Unframed::TooLarge(n) if n == MAX_FRAME + 1));
}

#[test]
fn a_frame_starts_with_its_length() {
    assert_eq!(frame(b"abc").unwrap(), vec![0, 0, 0, 3, b'a', b'b', b'c']);
    assert_eq!(frame(&[]).unwrap(), vec![0, 0, 0, 0]);
    assert!(frame(&vec![0u8; MAX_FRAME as usize]).is_ok());
    assert!(matches!(
        frame(&vec![0u8; MAX_FRAME as usize + 1]),
        Err(ProtoError::ControlFrameTooLarge(n)) if n == MAX_FRAME + 1
    ));
    assert_eq!(body_len(&MAX_FRAME.to_be_bytes()).unwrap(), MAX_FRAME as usize);
    assert!(matches!(unframe(&[0, 0]), Unframed::More));
    assert!(matches!(unframe(&[0, 0, 0, 2, 9]), Unframed::More));
}

#[test]
fn errors_read_as_sentences() {
    assert_eq!(
        ProtoError::TooShort { got: 4, want: 12 }.message(),
        "packet too short: 4 B, expected at least 12 B"
    );
    assert_eq!(ProtoError::BadVersion.message(), "not an RTP version 2 packet");
    assert_eq!(
        ProtoError::UnknownPayloadType(77).message(),
        "unknown payload type 77"
    );
    assert_eq!(
        ProtoError::ControlFrameTooLarge(65_537).message(),
        "control frame of 65537 B exceeds the limit"
    );
    assert_eq!(ProtoError::Io("gone".into()).message(), "i/o: gone");
    assert_eq!(ProtoError::Decode("odd".into()).message(), "CBOR decode: odd");
    assert_eq!(ProtoError::Encode("odd".into()).message(), "CBOR encode: odd");
}
