//! The receiving side: taking packets in, pacing them out, and saying how it
//! goes.
//!
//! Three threads and one audio callback:
//!   network: receives packets and puts them into the jitter buffer
//!   pacer: takes them out, decodes, resamples and tops the ring up
//!   callback: only drains the ring, without locks or allocation
//!
//! The pacer is where the loop of drift regulation closes: it measures the depth
//! of the buffer, asks the controller for a correction and hands it to the
//! resampler.
use vstd::prelude::*;

use crate::audio::sink::{latency_hint, DISPLAY_NAME};
use crate::i18n::{t, t1, t2, Key, Lang};
use crate::proto::{
    Accept, ControlMsg, Hello, PayloadKind, FRAME_MS, MEDIA_PORT, PROTOCOL_VERSION, SAMPLE_RATE,
};
use crate::session::pair::{wrong_version_text, Due, SetupError};
use crate::text::{append, number, push_number};

verus! {

/// A second of sound in front of the card.
pub const RING_SAMPLES: usize = 48_000;

/// The lower bound of the reserve in front of the callback: two frames.
///
/// The upper one comes from how much the card really asks for. A fixed reserve of
/// two frames was enough with WASAPI, but PipeWire can ask for a hundred
/// milliseconds at once: every call got 20 ms of sound and 80 ms of silence, and
/// the jitter buffer swelled to its ceiling, because the pacer topped up only to
/// its own mark.
pub const RING_MIN: usize = 960;

/// How many times larger a reserve to keep than the largest request seen.
pub const RING_HEADROOM: usize = 2;

/// How much reserve to assume before the sink first says how much it asks for.
///
/// The whole ring has to fill before the card starts to draw; after that,
/// production equals consumption and the level rises no more. So we assume
/// generously; the excess goes when the full pipeline is trimmed, and costs not
/// a millisecond of latency.
pub const RING_ASSUMED_MS: usize = 100;

/// The upper bound of the jitter buffer: above it we rather cut than grow.
pub const MAX_BUFFER_MS: u32 = 400;

/// The same in frames.
pub const MAX_BUFFER_FRAMES: usize = 40;

/// The lower bound of the cushion: one frame survives no reordering.
pub const MIN_BUFFER_FRAMES: usize = 2;

/// After so long without a call we take it that nobody listens to the sink.
///
/// On Linux the node exists at once, but PipeWire runs our callback only when
/// someone attaches to it. Without this mark packets piled up to the ceiling of
/// the buffer before the user managed to pick the microphone in an application.
pub const SINK_IDLE: u64 = 250_000_000;

/// How long a pipeline may take to fill before it counts as full anyway.
pub const PRIMING_LIMIT: u64 = 1_000_000_000;

/// How often the loop is regulated. Faster makes no sense with a time constant
/// of two seconds.
pub const REGULATE_EVERY: u64 = 20_000_000;

/// The most frames that a ring's reserve can take.
pub const RING_FRAMES_LIMIT: usize = 2_400_000;

/// How the receiver is to work.
#[derive(Debug)]
pub struct Options {
    pub listen: String,
    /// The sink: `auto`, `virtual`, `device` or a part of a name.
    pub sink: String,
    pub buffer_ms: u32,
    /// Whether to adapt the cushion to the quality of the link.
    pub adaptive: bool,
    /// Whether to announce on the network by mDNS.
    pub announce: bool,
}

impl Default for Options {
    fn default() -> (r: Self)
        ensures
            r.listen@ == "0.0.0.0:47100"@,
            r.sink@ == "auto"@,
            r.buffer_ms == 30,
            r.adaptive,
            r.announce,
    {
        Options {
            listen: "0.0.0.0:47100".to_owned(),
            sink: "auto".to_owned(),
            buffer_ms: 30,
            adaptive: true,
            announce: true,
        }
    }
}

/// The cushion that a buffer of so many milliseconds starts with, in frames.
pub fn target_frames(buffer_ms: u32) -> (r: usize)
    ensures
        r == if buffer_ms / FRAME_MS >= 1 {
            (buffer_ms / FRAME_MS) as int
        } else {
            1
        },
        r >= 1,
{
    let frames: u32 = buffer_ms / FRAME_MS;
    if frames >= 1 {
        frames as usize
    } else {
        1
    }
}

/// What the receiver says about its buffer when it starts.
pub open spec fn buffer_line_of(buffer_ms: u32, frames: nat, adaptive: bool) -> Seq<char> {
    "Bufor jitter: "@ + crate::text::decimal(buffer_ms as nat) + " ms ("@ + crate::text::decimal(
        frames,
    ) + " × 10 ms)"@ + (if adaptive {
        ", adaptacyjny"@
    } else {
        ", stały"@
    }) + "."@
}

/// What the receiver says about its buffer when it starts.
pub fn buffer_line(buffer_ms: u32, frames: usize, adaptive: bool) -> (r: String)
    ensures
        r@ == buffer_line_of(buffer_ms, frames as nat, adaptive),
{
    let mut out = String::new();
    append(&mut out, "Bufor jitter: ");
    push_number(&mut out, buffer_ms as u64);
    append(&mut out, " ms (");
    push_number(&mut out, frames as u64);
    append(&mut out, " × 10 ms)");
    append(
        &mut out,
        if adaptive {
            ", adaptacyjny"
        } else {
            ", stały"
        },
    );
    append(&mut out, ".");
    assert(out@ =~= buffer_line_of(buffer_ms, frames as nat, adaptive));
    out
}

/// Why an offer is not taken, in words; none where it is.
pub open spec fn objection(hello: Hello) -> Option<Seq<char>> {
    if hello.version != PROTOCOL_VERSION {
        Some(crate::session::pair::wrong_version(hello.version))
    } else if hello.sample_rate != SAMPLE_RATE {
        Some(
            "częstotliwość "@ + crate::text::decimal(hello.sample_rate as nat)
                + " Hz (obsługuję 48000)"@,
        )
    } else if hello.channels != 1 {
        Some(crate::text::decimal(hello.channels as nat) + " kanałów (obsługuję mono)"@)
    } else if hello.frame_ms != FRAME_MS {
        Some("ramka "@ + crate::text::decimal(hello.frame_ms as nat) + " ms (obsługuję 10)"@)
    } else if hello.payload != PayloadKind::Opus {
        Some("obsługuję wyłącznie Opusa"@)
    } else {
        None
    }
}

/// Whether an offer can be taken: the version, the rate, mono, the frame and the
/// codec have to be ours.
pub fn check(hello: &Hello) -> (r: Result<(), String>)
    ensures
        r is Ok <==> objection(*hello) is None,
        r matches Err(reason) ==> objection(*hello) == Some(reason@),
{
    if hello.version != PROTOCOL_VERSION {
        return Err(wrong_version_text(hello.version));
    }
    let mut out = String::new();
    if hello.sample_rate != SAMPLE_RATE {
        append(&mut out, "częstotliwość ");
        push_number(&mut out, hello.sample_rate as u64);
        append(&mut out, " Hz (obsługuję 48000)");
        assert(Some(out@) == objection(*hello));
        return Err(out);
    }
    if hello.channels != 1 {
        push_number(&mut out, hello.channels as u64);
        append(&mut out, " kanałów (obsługuję mono)");
        assert(out@ =~= crate::text::decimal(hello.channels as nat) + " kanałów (obsługuję mono)"@);
        return Err(out);
    }
    if hello.frame_ms != FRAME_MS {
        append(&mut out, "ramka ");
        push_number(&mut out, hello.frame_ms as u64);
        append(&mut out, " ms (obsługuję 10)");
        assert(Some(out@) == objection(*hello));
        return Err(out);
    }
    if hello.payload != PayloadKind::Opus {
        append(&mut out, "obsługuję wyłącznie Opusa");
        assert(out@ =~= "obsługuję wyłącznie Opusa"@);
        return Err(out);
    }
    Ok(())
}

/// The receiving side takes the first sealed message: the offer, where it is one
/// that can be taken. An offer that cannot be is refused with the reason.
pub fn on_hello(msg: ControlMsg) -> (r: Result<Hello, SetupError>)
    ensures
        match msg {
            ControlMsg::Hello(hello) => match objection(hello) {
                None => r matches Ok(h) && h == hello,
                Some(why) => r matches Err(SetupError::Refuse(reason)) && reason@ == why,
            },
            other => r matches Err(e) && e == SetupError::Unexpected(Due::Hello, other),
        },
{
    match msg {
        ControlMsg::Hello(hello) => match check(&hello) {
            Ok(()) => Ok(hello),
            Err(reason) => Err(SetupError::Refuse(reason)),
        },
        other => Err(SetupError::Unexpected(Due::Hello, other)),
    }
}

/// The identity of a stream, from the time since the epoch in seconds and the
/// nanoseconds beyond them; a fixed one where the clock stands before it.
pub fn ssrc_of(since_epoch: Option<(u64, u32)>) -> (r: u32)
    ensures
        r == match since_epoch {
            Some((secs, nanos)) => nanos ^ ((secs % 0x1_0000_0000) as u32),
            None => 0x7A31_F0C2,
        },
{
    match since_epoch {
        Some((secs, nanos)) => nanos ^ ((secs % 0x1_0000_0000) as u32),
        None => 0x7A31_F0C2,
    }
}

/// The answer to an offer that is taken.
pub fn acceptance(ssrc: u32, sink: String, host: String, media_key: Vec<u8>) -> (r: ControlMsg)
    ensures
        r == ControlMsg::Accept(
            Accept {
                version: PROTOCOL_VERSION,
                ssrc,
                media_port: MEDIA_PORT,
                sink,
                host,
                media_key,
            },
        ),
{
    ControlMsg::Accept(
        Accept { version: PROTOCOL_VERSION, ssrc, media_port: MEDIA_PORT, sink, host, media_key },
    )
}

/// Who is on the other side, and from where.
pub fn peer_line(peer: &str, ip: &str) -> (r: String)
    ensures
        r@ == peer@ + " ("@ + ip@ + ")"@,
{
    let mut out = String::new();
    append(&mut out, peer);
    append(&mut out, " (");
    append(&mut out, ip);
    append(&mut out, ")");
    assert(out@ =~= peer@ + " ("@ + ip@ + ")"@);
    out
}

/// The text of a key in a language.
pub open spec fn said(key: Key, lang: Lang) -> Seq<char> {
    crate::i18n::catalog::text_of(key, lang)
}

/// What is said about the conversion of rates, if there is any.
pub open spec fn conversion_said(device_rate: u32, lang: Lang) -> Seq<Seq<char>> {
    if device_rate == SAMPLE_RATE {
        Seq::empty()
    } else {
        seq![
            crate::i18n::filled(
                said(Key::SesConversion, lang),
                seq![
                    crate::text::decimal(SAMPLE_RATE as nat),
                    crate::text::decimal(device_rate as nat),
                ],
            ),
        ]
    }
}

/// What is said about where to find the sound: the name of our own microphone,
/// or the other end of a cable, with a hint where the cable is known to be slow.
pub open spec fn pick_said(is_input: bool, hint: Option<Seq<char>>, lang: Lang) -> Seq<Seq<char>> {
    if is_input {
        seq![crate::i18n::filled(said(Key::SesPickMicNamed, lang), seq![DISPLAY_NAME@])]
    } else {
        match hint {
            Some(h) => seq![said(Key::SesPickMicDevice, lang), "  "@ + h],
            None => seq![said(Key::SesPickMicDevice, lang)],
        }
    }
}

/// What the receiver says once a session stands.
pub fn opening_lines(device_rate: u32, is_input: bool, hint: Option<&'static str>, lang: Lang) -> (r:
    Vec<String>)
    ensures
        crate::text::views(r@) == conversion_said(device_rate, lang) + pick_said(
            is_input,
            match hint {
                Some(h) => Some(h@),
                None => None,
            },
            lang,
        ),
{
    let mut out: Vec<String> = Vec::new();
    if device_rate != SAMPLE_RATE {
        let from = number(SAMPLE_RATE as u64);
        let to = number(device_rate as u64);
        out.push(t2(Key::SesConversion, lang, from.as_str(), to.as_str()));
    }
    assert(crate::text::views(out@) =~= conversion_said(device_rate, lang));
    let ghost first = out@;
    if is_input {
        out.push(t1(Key::SesPickMicNamed, lang, DISPLAY_NAME));
    } else {
        out.push(t(Key::SesPickMicDevice, lang).to_owned());
        if let Some(h) = hint {
            let mut line = String::new();
            append(&mut line, "  ");
            append(&mut line, h);
            assert(line@ =~= "  "@ + h@);
            out.push(line);
        }
    }
    assert(crate::text::views(out@) =~= conversion_said(device_rate, lang) + pick_said(
        is_input,
        match hint {
            Some(h) => Some(h@),
            None => None,
        },
        lang,
    ));
    out
}

/// What the receiver says once a session stands, for a sink of this name.
pub fn session_lines(sink_name: &str, device_rate: u32, is_input: bool, lang: Lang) -> (r: Vec<
    String,
>)
    ensures
        crate::text::views(r@) == conversion_said(device_rate, lang) + pick_said(
            is_input,
            if crate::text::has(crate::text::lowercase(sink_name@), "cable input"@) {
                Some(crate::audio::sink::LATENCY_HINT@)
            } else {
                None
            },
            lang,
        ),
{
    let hint = latency_hint(sink_name);
    opening_lines(device_rate, is_input, hint, lang)
}

/// The cap in frames is the cap in time, and the reserve before the card starts
/// with two frames.
pub proof fn the_limits_agree()
    ensures
        MAX_BUFFER_FRAMES * FRAME_MS == MAX_BUFFER_MS,
        RING_MIN == 2 * crate::proto::FRAME_SAMPLES,
        RING_SAMPLES == SAMPLE_RATE,
{
}

} // verus!
