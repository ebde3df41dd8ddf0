//! The wording of errors and of a session's lines.
use vstd::prelude::*;

use crate::audio::{no_format, Direction};
use crate::i18n::{t, Key, Lang};
use crate::laws::speech::{lemma_between, lemma_ends_with};
use crate::net::channel::ChannelError;
use crate::net::pair::PairError;
use crate::net::secure::CipherError;
use crate::proto::ProtoError;
use crate::session::cli::log_filter;
use crate::session::pair::{wrong_version_text, SetupError};
use crate::session::recv::{buffer_line, opening_lines, session_lines};
use crate::session::send::{ended_line, sending_line, skipped_line};
use crate::session::ui::CodeLength;
use crate::window::app::{pretty_mic, pretty_sink, toggle_label};

verus! {

/// An error of the channel or of the exchange has the words of the cryptography in it,
/// and one of a length the length.
pub proof fn errors_tell_what_happened(
    e: ChannelError,
    told: String,
    f: CipherError,
    said: String,
    g: PairError,
    lang: Lang,
    spoken: String,
)
    requires
        call_ensures(ChannelError::message, (&e,), told),
        call_ensures(CipherError::message, (&f,), said),
        call_ensures(PairError::message, (&g, lang), spoken),
    ensures
        e matches ChannelError::WrongKey(x) ==> crate::text::has(told@, x@),
        e matches ChannelError::Handshake(x) ==> crate::text::has(told@, x@),
        e matches ChannelError::CannotStart(x) ==> crate::text::has(told@, x@),
        e matches ChannelError::Unfinished(x) ==> crate::text::has(told@, x@),
        e matches ChannelError::Encrypt(x) ==> crate::text::has(told@, x@),
        e matches ChannelError::Decrypt(x) ==> crate::text::has(told@, x@),
        e matches ChannelError::TooLong(n) ==> crate::text::has(
            told@,
            crate::text::decimal(n as nat),
        ),
        f matches CipherError::KeyLength(n) ==> crate::text::has(
            said@,
            crate::text::decimal(n as nat),
        ),
        g matches PairError::Exchange(x) ==> crate::text::has(spoken@, x@),
        g matches PairError::Aborted(x) ==> crate::text::has(spoken@, x@),
{
    match e {
        ChannelError::WrongKey(x) => lemma_between(
            "uzgodnienie odrzucone ("@,
            x@,
            "). Najpewniej druga strona ma inny klucz — sparujcie się od nowa: `micbridge forget <nazwa>` po obu stronach."@,
        ),
        ChannelError::Handshake(x) => lemma_ends_with("uzgodnienie: "@, x@),
        ChannelError::CannotStart(x) => lemma_ends_with("nie mogę zacząć uzgodnienia: "@, x@),
        ChannelError::Unfinished(x) => lemma_ends_with("uzgodnienie nie doszło do końca: "@, x@),
        ChannelError::Encrypt(x) => lemma_ends_with("szyfrowanie: "@, x@),
        ChannelError::Decrypt(x) => lemma_ends_with("nie mogę odszyfrować wiadomości: "@, x@),
        ChannelError::TooLong(n) => lemma_between(
            "wiadomość sterująca ma "@,
            crate::text::decimal(n as nat),
            " bajtów, za dużo"@,
        ),
    }
    if let CipherError::KeyLength(n) = f {
        lemma_between(
            "klucz mediów ma "@,
            crate::text::decimal(n as nat),
            " bajtów zamiast 32"@,
        );
    }
    if let PairError::Exchange(x) = g {
        lemma_ends_with("wymiana kluczy się nie powiodła: "@, x@);
    }
    if let PairError::Aborted(x) = g {
        crate::i18n::filling_keeps_every_value(
            crate::i18n::catalog::text_of(Key::ErrPeerAbortedPairing, lang),
            x@,
        );
    }
}

/// A refusal is told with its reason, a version with its number, and what is wrong with
/// a packet with the numbers that show it.
pub proof fn refusals_tell_their_reason(
    e: SetupError,
    told: String,
    p: ProtoError,
    said: String,
    c: CodeLength,
    counted: String,
    version: u32,
    wrong: String,
)
    requires
        call_ensures(SetupError::message, (&e,), told),
        call_ensures(ProtoError::message, (&p,), said),
        call_ensures(CodeLength::message, (&c,), counted),
        call_ensures(wrong_version_text, (version,), wrong),
    ensures
        e matches SetupError::Refuse(x) ==> told@ == x@,
        e matches SetupError::Refused(x) ==> crate::text::has(told@, x@),
        e matches SetupError::BrokenOff(x) ==> crate::text::has(told@, x@),
        e matches SetupError::WrongVersion(v) ==> crate::text::has(
            told@,
            crate::text::decimal(v as nat),
        ),
        p matches ProtoError::TooShort { got, want } ==> crate::text::has(
            said@,
            crate::text::decimal(got as nat),
        ),
        p matches ProtoError::UnknownPayloadType(k) ==> crate::text::has(
            said@,
            crate::text::decimal(k as nat),
        ),
        p matches ProtoError::ControlFrameTooLarge(n) ==> crate::text::has(
            said@,
            crate::text::decimal(n as nat),
        ),
        crate::text::has(counted@, crate::text::decimal(c.got as nat)),
        crate::text::has(wrong@, crate::text::decimal(version as nat)),
{
    match e {
        SetupError::Refused(x) => lemma_ends_with("odbiornik odrzucił połączenie: "@, x@),
        SetupError::BrokenOff(x) => lemma_ends_with("druga strona przerwała: "@, x@),
        SetupError::WrongVersion(v) => lemma_ends_with(
            "niezgodna wersja protokołu: my 2, odbiornik "@,
            crate::text::decimal(v as nat),
        ),
        _ => {},
    }
    match p {
        ProtoError::TooShort { got, want } => {
            let rest = " B, expected at least "@ + crate::text::decimal(want as nat) + " B"@;
            lemma_between("packet too short: "@, crate::text::decimal(got as nat), rest);
            assert(said@ =~= "packet too short: "@ + crate::text::decimal(got as nat) + rest);
        },
        ProtoError::UnknownPayloadType(k) => lemma_ends_with(
            "unknown payload type "@,
            crate::text::decimal(k as nat),
        ),
        ProtoError::ControlFrameTooLarge(n) => lemma_between(
            "control frame of "@,
            crate::text::decimal(n as nat),
            " B exceeds the limit"@,
        ),
        _ => {},
    }
    lemma_between("kod ma "@, crate::text::decimal(c.got as nat), " cyfr, oczekuję 6"@);
    lemma_between(
        "wersja protokołu "@,
        crate::text::decimal(version as nat),
        " (obsługuję 2)"@,
    );
}

/// The lines of a session have in them what they are about: the rate in thousands, the
/// count of frames, the depth of the buffer and its frames, the peer that is passed
/// over and its version.
pub proof fn lines_tell_their_figures(
    bitrate: u32,
    sending: String,
    sent: u64,
    ended: String,
    ms: u32,
    frames: usize,
    adaptive: bool,
    buffer: String,
    name: &str,
    version: u32,
    skipped: String,
)
    requires
        call_ensures(sending_line, (bitrate,), sending),
        call_ensures(ended_line, (sent,), ended),
        call_ensures(buffer_line, (ms, frames, adaptive), buffer),
        call_ensures(skipped_line, (name, version), skipped),
    ensures
        crate::text::has(sending@, crate::text::decimal((bitrate / 1000) as nat)),
        crate::text::has(ended@, crate::text::decimal(sent as nat)),
        crate::text::has(buffer@, crate::text::decimal(ms as nat)),
        crate::text::has(buffer@, crate::text::decimal(frames as nat)),
        adaptive ==> crate::text::has(buffer@, ", adaptacyjny"@),
        !adaptive ==> crate::text::has(buffer@, ", stały"@),
        crate::text::has(skipped@, name@),
        crate::text::has(skipped@, crate::text::decimal(version as nat)),
{
    lemma_between(
        "Nadaję Opusem, "@,
        crate::text::decimal((bitrate / 1000) as nat),
        " kbps. Ctrl-C kończy."@,
    );
    lemma_between("Zakończono. Wysłano "@, crate::text::decimal(sent as nat), " ramek."@);
    let (a, b, c) = ("Bufor jitter: "@, " ms ("@, " × 10 ms)"@);
    let (m, f) = (crate::text::decimal(ms as nat), crate::text::decimal(frames as nat));
    let kind = if adaptive {
        ", adaptacyjny"@
    } else {
        ", stały"@
    };
    let tail = b + f + c + kind + "."@;
    lemma_between(a, m, tail);
    assert(buffer@ =~= a + m + tail);
    let front = a + m + b;
    let back = c + kind + "."@;
    lemma_between(front, f, back);
    assert(buffer@ =~= front + f + back);
    lemma_between(a + m + b + f + c, kind, "."@);
    assert(buffer@ =~= a + m + b + f + c + kind + "."@);
    let (x, y, z) = ("  pomijam „"@, "” — protokół w wersji "@, ", ja mówię 2"@);
    let v = crate::text::decimal(version as nat);
    lemma_between(x, name@, y + v + z);
    assert(skipped@ =~= x + name@ + (y + v + z));
    lemma_between(x + name@ + y, v, z);
    assert(skipped@ =~= x + name@ + y + v + z);
}

/// Asking for more detail gives more: the ordinary log, then all but the finest, then
/// everything.
pub proof fn more_detail_is_asked_for_by_number(verbose: u8, r: &'static str)
    requires
        call_ensures(log_filter, (verbose,), r),
    ensures
        verbose == 1 ==> r@ == "debug"@,
        verbose >= 2 ==> r@ == "trace"@,
        verbose == 0 ==> crate::text::has(r@, "info"@),
{
    if verbose == 0 {
        reveal_strlit("mb_app=info,mb_audio=info,mb_engine=info");
        reveal_strlit("info");
        assert(r@.subrange(7, 11) =~= "info"@);
        assert(crate::text::stands_at(r@, "info"@, 7));
    }
}

/// A session's opening lines are those of its sink: the advice comes with the cable.
/// A device without a format that we read is named. A direction has its own word.
pub proof fn opening_lines_follow_the_sink(
    sink: &str,
    rate: u32,
    is_input: bool,
    lang: Lang,
    hint: Option<&'static str>,
    lines: Vec<String>,
    whole: Vec<String>,
    name: &str,
    complaint: String,
    dir: Direction,
    word: &'static str,
    inward: &'static str,
    outward: &'static str,
)
    requires
        call_ensures(crate::audio::sink::latency_hint, (sink,), hint),
        call_ensures(opening_lines, (rate, is_input, hint, lang), lines),
        call_ensures(session_lines, (sink, rate, is_input, lang), whole),
        call_ensures(no_format, (name, lang), complaint),
        call_ensures(Direction::label, (dir, lang), word),
        call_ensures(t, (Key::ErrDirIn, lang), inward),
        call_ensures(t, (Key::ErrDirOut, lang), outward),
    ensures
        crate::text::views(lines@) == crate::text::views(whole@),
        crate::text::has(complaint@, name@),
        dir is Input ==> word@ == inward@,
        dir is Output ==> word@ == outward@,
{
    crate::i18n::filling_keeps_every_value(
        crate::i18n::catalog::text_of(Key::ErrNoFormat, lang),
        name@,
    );
}

/// A choice that is no special word is shown as it is; the special ones are shown in
/// words of their own.
pub proof fn a_choice_is_shown_as_it_is(
    value: &str,
    on_linux: bool,
    sink: String,
    mic: String,
    running: bool,
    label: &'static str,
)
    requires
        call_ensures(pretty_sink, (value, on_linux), sink),
        call_ensures(pretty_mic, (value,), mic),
        call_ensures(toggle_label, (running,), label),
    ensures
        value@ != "auto"@ ==> sink@ == value@,
        value@ == "auto"@ && on_linux ==> sink@ == "automatycznie (mikrofon MicBridge)"@,
        value@ == "auto"@ && !on_linux ==> sink@ == "automatycznie (wirtualny kabel)"@,
        value@ != "default"@ && value@ != "tone"@ ==> mic@ == value@,
        value@ == "default"@ ==> mic@ == "domyślny w systemie"@,
        value@ == "tone"@ && value@ != "default"@ ==> mic@ == "ton próbny 440 Hz"@,
        running ==> label@ == "włączone"@,
        !running ==> label@ == "wyłączone"@,
{
}

} // verus!
