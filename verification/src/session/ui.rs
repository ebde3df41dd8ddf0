//! What a session says about itself, in words.
//!
//! A terminal and a window need the same things, who connected, what the latency
//! is, how much is lost; they only put them differently.
use vstd::prelude::*;

use crate::net::pair::{format_code, normalize_code, CODE_DIGITS};
use crate::text::{append, push_number};

verus! {

/// A code of the wrong length.
#[derive(Debug, Clone, Copy, PartialEq, Eq, Structural)]
pub struct CodeLength {
    pub got: usize,
}

impl CodeLength {
    /// The complaint.
    pub open spec fn text(self) -> Seq<char> {
        "kod ma "@ + crate::text::decimal(self.got as nat) + " cyfr, oczekuję 6"@
    }

    /// The complaint.
    pub fn message(&self) -> (r: String)
        ensures
            r@ == self.text(),
    {
        let mut out = String::new();
        append(&mut out, "kod ma ");
        push_number(&mut out, self.got as u64);
        append(&mut out, " cyfr, oczekuję 6");
        assert(out@ =~= self.text());
        out
    }
}

/// A common check of the length: a typing error is to come out here and not on
/// the other side as "pairing refused".
pub fn check_code(code: &str) -> (r: Result<String, CodeLength>)
    ensures
        r is Ok <==> crate::text::bytes_of(code@).len() == CODE_DIGITS,
        r matches Ok(c) ==> c@ == code@,
        r matches Err(e) ==> e.got == crate::text::bytes_of(code@).len(),
{
    let got: usize = code.as_bytes().len();
    if got != CODE_DIGITS {
        return Err(CodeLength { got });
    }
    Ok(code.to_owned())
}

/// A code as the user typed it: everything but digits goes, and six have to be
/// left.
pub fn typed_code(line: &str) -> (r: Result<String, CodeLength>)
    ensures
        ({
            let digits = line@.filter(|c: char| crate::net::pair::is_digit(c));
            &&& r is Ok <==> digits.len() == CODE_DIGITS
            &&& r matches Ok(c) ==> c@ == digits
            &&& r matches Err(e) ==> e.got == digits.len()
        }),
{
    let digits = normalize_code(line);
    proof {
        let keep = |c: char| crate::net::pair::is_digit(c);
        lemma_filtered(line@, keep);
        assert forall|i: int| 0 <= i < digits@.len() implies '\0' <= #[trigger] digits@[i]
            <= '\u{7f}' by {
            assert(keep(digits@[i]));
        }
        vstd::utf8::is_ascii_chars_encode_utf8(digits@);
    }
    check_code(digits.as_str())
}

proof fn lemma_filtered(s: Seq<char>, keep: spec_fn(char) -> bool)
    ensures
        forall|i: int| 0 <= i < s.filter(keep).len() ==> keep(#[trigger] s.filter(keep)[i]),
    decreases s.len(),
{
    reveal(Seq::filter);
    if s.len() > 0 {
        lemma_filtered(s.drop_last(), keep);
    }
}

/// A code given in advance: for scripts and services, where there is nobody to
/// type it.
#[derive(Debug)]
pub struct FixedCode {
    pub code: String,
}

impl FixedCode {
    /// The code, whoever asks.
    pub fn ask_code(&self) -> (r: Result<String, CodeLength>)
        ensures
            ({
                let digits = self.code@.filter(|c: char| crate::net::pair::is_digit(c));
                &&& r is Ok <==> digits.len() == CODE_DIGITS
                &&& r matches Ok(c) ==> c@ == digits
                &&& r matches Err(e) ==> e.got == digits.len()
            }),
    {
        typed_code(self.code.as_str())
    }
}

/// Reporting to a terminal.
#[derive(Debug, Clone, Copy)]
pub struct Console;

/// What a second without and with trouble adds to the receiver's line.
pub open spec fn recv_tail_of(starved: u64, dropped: u64) -> Seq<char> {
    if starved == 0 && dropped == 0 {
        Seq::empty()
    } else if dropped == 0 {
        "   NIEDOMIAR "@ + crate::text::decimal(starved as nat)
    } else if starved == 0 {
        "   WYRZUCONO "@ + crate::text::decimal(dropped as nat) + " ramek (bufor pełny)"@
    } else {
        "   NIEDOMIAR "@ + crate::text::decimal(starved as nat) + "   WYRZUCONO "@
            + crate::text::decimal(dropped as nat)
    }
}

/// What a second adds to the sender's line.
pub open spec fn send_tail_of(fec_pct: u8, overruns: u64, dropped: u64) -> Seq<char> {
    "   FEC na "@ + crate::text::decimal(fec_pct as nat) + "% strat"@ + (if overruns > 0 {
        "   zgubiono "@ + crate::text::decimal(overruns as nat) + " próbek"@
    } else {
        Seq::empty()
    }) + (if dropped > 0 {
        "   zgubiono celowo "@ + crate::text::decimal(dropped as nat)
    } else {
        Seq::empty()
    })
}

impl Console {
    /// What the receiver says while nobody listens.
    pub fn idle_line(&self) -> (r: &'static str)
        ensures
            r@ == "  czekam — nikt jeszcze nie słucha"@,
    {
        "  czekam — nikt jeszcze nie słucha"
    }

    /// The end of the receiver's line. An overflow of the buffer is no loss of a
    /// packet, but frames that were thrown away are heard just the same; without
    /// this count "no losses" went along with torn sound.
    pub fn recv_tail(&self, starved: u64, dropped: u64) -> (r: String)
        ensures
            r@ == recv_tail_of(starved, dropped),
    {
        let mut out = String::new();
        if starved > 0 {
            append(&mut out, "   NIEDOMIAR ");
            push_number(&mut out, starved);
        }
        if dropped > 0 {
            append(&mut out, "   WYRZUCONO ");
            push_number(&mut out, dropped);
            if starved == 0 {
                append(&mut out, " ramek (bufor pełny)");
            }
        }
        assert(out@ =~= recv_tail_of(starved, dropped));
        out
    }

    /// The end of the sender's line.
    pub fn send_tail(&self, fec_pct: u8, overruns: u64, dropped: u64) -> (r: String)
        ensures
            r@ == send_tail_of(fec_pct, overruns, dropped),
    {
        let mut out = String::new();
        append(&mut out, "   FEC na ");
        push_number(&mut out, fec_pct as u64);
        append(&mut out, "% strat");
        if overruns > 0 {
            append(&mut out, "   zgubiono ");
            push_number(&mut out, overruns);
            append(&mut out, " próbek");
        }
        if dropped > 0 {
            append(&mut out, "   zgubiono celowo ");
            push_number(&mut out, dropped);
        }
        assert(out@ =~= send_tail_of(fec_pct, overruns, dropped));
        out
    }

    /// The receiver shows a pairing code.
    pub fn show_code(&self, peer: &str, code: &str) -> (r: String)
        ensures
            r@ == "\n„"@ + peer@ + "” prosi o sparowanie.\n  KOD: "@ + crate::net::pair::in_groups(
                crate::text::bytes_of(code@),
            ) + "\n  Przepisz go na drugiej maszynie."@,
    {
        let mut out = String::new();
        append(&mut out, "\n„");
        append(&mut out, peer);
        append(&mut out, "” prosi o sparowanie.\n  KOD: ");
        let groups = format_code(code);
        append(&mut out, groups.as_str());
        append(&mut out, "\n  Przepisz go na drugiej maszynie.");
        assert(out@ =~= "\n„"@ + peer@ + "” prosi o sparowanie.\n  KOD: "@
            + crate::net::pair::in_groups(crate::text::bytes_of(code@))
            + "\n  Przepisz go na drugiej maszynie."@);
        out
    }

    /// The sender asks for the code from the other screen.
    pub fn ask_code(&self, peer: &str) -> (r: String)
        ensures
            r@ == "\n„"@ + peer@
                + "” nie jest jeszcze sparowany.\nNa jego ekranie pojawił się sześciocyfrowy kod.\nPrzepisz go tutaj: "@,
    {
        let mut out = String::new();
        append(&mut out, "\n„");
        append(&mut out, peer);
        append(
            &mut out,
            "” nie jest jeszcze sparowany.\nNa jego ekranie pojawił się sześciocyfrowy kod.\nPrzepisz go tutaj: ",
        );
        assert(out@ =~= "\n„"@ + peer@
            + "” nie jest jeszcze sparowany.\nNa jego ekranie pojawił się sześciocyfrowy kod.\nPrzepisz go tutaj: "@);
        out
    }

    /// A session stands.
    pub fn connected(&self, peer: &str, detail: &str) -> (r: String)
        ensures
            r@ == "\n"@ + peer@ + " → "@ + detail@,
    {
        let mut out = String::new();
        append(&mut out, "\n");
        append(&mut out, peer);
        append(&mut out, " → ");
        append(&mut out, detail);
        assert(out@ =~= "\n"@ + peer@ + " → "@ + detail@);
        out
    }
}

/// Counts what is new in a counter that only grows, from one report to the next.
#[derive(Debug, Clone, Copy, PartialEq, Eq, Structural)]
pub struct SinceLast {
    pub seen: u64,
}

impl SinceLast {
    /// What is new since the last report.
    pub fn take(&mut self, now: u64) -> (r: u64)
        ensures
            r == if now >= old(self).seen {
                (now - old(self).seen) as u64
            } else {
                0
            },
            final(self).seen == now,
    {
        let new: u64 = now.saturating_sub(self.seen);
        self.seen = now;
        new
    }
}

} // verus!
