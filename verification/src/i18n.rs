//! The program's texts in all languages, in one place.
//!
//! The language chooses itself, from the settings of the system, and cannot be
//! changed from the window. That is deliberate: a person who has set their
//! system to German wants to see German everywhere, and not look for a switch in
//! every single program. For tests and unusual cases there is the variable
//! `MICBRIDGE_LANG`.
//!
//! There are no texts here that only a programmer reads: log messages, or errors
//! that describe the state of the protocol. Those stay in Polish, for they go
//! into a bug report and not onto the screen.
use vstd::prelude::*;

use crate::text::{append, chars_of, lower, push_number, same};

pub mod catalog;
pub mod complete;

pub use catalog::Key;

verus! {

/// The languages the program speaks.
///
/// English is the fallback: a system set to anything else gets it, for it is the
/// safest choice for someone whose language we happen not to know.
#[derive(Debug, Clone, Copy, PartialEq, Eq, Structural)]
pub enum Lang {
    Pl,
    En,
    De,
    Es,
    Fr,
    It,
    Uk,
}

/// A character that ends the language part of a tag.
pub open spec fn ends_language(c: char) -> bool {
    c == '-' || c == '_' || c == '.' || c == '@'
}

/// The part of a tag before the first dash, underscore, dot or at sign.
pub open spec fn language_part(tag: Seq<char>) -> Seq<char>
    decreases tag.len(),
{
    if tag.len() == 0 || ends_language(tag[0]) {
        Seq::empty()
    } else {
        seq![tag[0]] + language_part(tag.drop_first())
    }
}

/// The language that a two-letter code stands for, in either case.
pub open spec fn language_of(code: Seq<char>) -> Option<Lang> {
    let base = code.map_values(|c: char| crate::text::ascii_lower(c));
    if base == seq!['p', 'l'] {
        Some(Lang::Pl)
    } else if base == seq!['e', 'n'] {
        Some(Lang::En)
    } else if base == seq!['d', 'e'] {
        Some(Lang::De)
    } else if base == seq!['e', 's'] {
        Some(Lang::Es)
    } else if base == seq!['f', 'r'] {
        Some(Lang::Fr)
    } else if base == seq!['i', 't'] {
        Some(Lang::It)
    } else if base == seq!['u', 'k'] {
        Some(Lang::Uk)
    } else {
        None
    }
}

/// The language that a tag stands for.
pub open spec fn tagged(tag: Seq<char>) -> Option<Lang> {
    language_of(language_part(tag))
}

/// A value of an environment variable that says nothing about the language.
pub open spec fn says_nothing(value: Seq<char>) -> bool {
    value.len() == 0 || value == "C"@ || value == "POSIX"@
}

/// The views of some optional texts.
pub open spec fn views(values: Seq<Option<String>>) -> Seq<Option<Seq<char>>> {
    values.map_values(
        |v: Option<String>|
            match v {
                Some(s) => Some(s@),
                None => None,
            },
    )
}

/// The language that the first telling value gives.
pub open spec fn first_telling(values: Seq<Option<Seq<char>>>) -> Option<Lang>
    decreases values.len(),
{
    if values.len() == 0 {
        None
    } else {
        match values[0] {
            Some(v) if !says_nothing(v) => tagged(v),
            _ => first_telling(values.drop_first()),
        }
    }
}

impl Lang {
    /// The column of this language in the catalogue.
    pub open spec fn place(self) -> int {
        match self {
            Lang::Pl => 0,
            Lang::En => 1,
            Lang::De => 2,
            Lang::Es => 3,
            Lang::Fr => 4,
            Lang::It => 5,
            Lang::Uk => 6,
        }
    }

    /// The column of this language in the catalogue.
    pub fn column(self) -> (r: usize)
        ensures
            r == self.place(),
    {
        match self {
            Lang::Pl => 0,
            Lang::En => 1,
            Lang::De => 2,
            Lang::Es => 3,
            Lang::Fr => 4,
            Lang::It => 5,
            Lang::Uk => 6,
        }
    }

    /// Recognises a language by a tag such as `pl_PL.UTF-8` or `de-AT`.
    ///
    /// Only the part in front counts: differences between variants do not matter
    /// for these few dozen sentences, and taking "pt-BR" for Portuguese is
    /// better than not recognising it at all.
    pub fn from_tag(tag: &str) -> (r: Option<Self>)
        ensures
            r == tagged(tag@),
    {
        let chars = chars_of(tag);
        let mut n: usize = 0;
        assert(chars@.skip(0) =~= chars@);
        assert(chars@.take(0) =~= Seq::empty());
        assert(Seq::<char>::empty() + language_part(chars@) =~= language_part(chars@));
        while n < chars.len() && !(chars[n] == '-' || chars[n] == '_' || chars[n] == '.' || chars[n]
            == '@')
            invariant
                n <= chars@.len(),
                language_part(chars@) == chars@.take(n as int) + language_part(
                    chars@.skip(n as int),
                ),
            decreases chars@.len() - n,
        {
            proof {
                let rest = chars@.skip(n as int);
                assert(rest.drop_first() =~= chars@.skip(n + 1));
                assert(chars@.take(n as int) + (seq![rest[0]] + language_part(rest.drop_first()))
                    =~= chars@.take(n + 1) + language_part(chars@.skip(n + 1)));
            }
            n += 1;
        }
        let ghost code = chars@.take(n as int);
        assert(language_part(chars@) =~= code);
        let ghost base = code.map_values(|c: char| crate::text::ascii_lower(c));
        proof {
            lemma_codes_are_two_letters(code);
        }
        if n != 2 {
            return None;
        }
        let a: char = lower(chars[0]);
        let b: char = lower(chars[1]);
        assert(base =~= seq![a, b]);
        proof {
            lemma_two_letters(a, b);
        }
        if a == 'p' && b == 'l' {
            Some(Lang::Pl)
        } else if a == 'e' && b == 'n' {
            Some(Lang::En)
        } else if a == 'd' && b == 'e' {
            Some(Lang::De)
        } else if a == 'e' && b == 's' {
            Some(Lang::Es)
        } else if a == 'f' && b == 'r' {
            Some(Lang::Fr)
        } else if a == 'i' && b == 't' {
            Some(Lang::It)
        } else if a == 'u' && b == 'k' {
            Some(Lang::Uk)
        } else {
            None
        }
    }

    /// What the system says, from the values of `LC_ALL`, `LC_MESSAGES` and
    /// `LANG`, in the order of POSIX: the first covers everything, the second is
    /// about messages, the third is the general setting. A value that is empty,
    /// `C` or `POSIX` is passed over; the first other one decides.
    pub fn from_system(values: &Vec<Option<String>>) -> (r: Option<Self>)
        ensures
            r == first_telling(views(values@)),
    {
        let mut i: usize = 0;
        assert(values@.skip(0) =~= values@);
        while i < values.len()
            invariant
                i <= values@.len(),
                first_telling(views(values@)) == first_telling(views(values@.skip(i as int))),
            decreases values@.len() - i,
        {
            proof {
                let rest = values@.skip(i as int);
                assert(views(rest).drop_first() =~= views(values@.skip(i + 1)));
                assert(views(rest)[0] == match values@[i as int] {
                    Some(s) => Some(s@),
                    None => None,
                });
            }
            if let Some(v) = &values[i] {
                if !tells_nothing(v.as_str()) {
                    return Lang::from_tag(v.as_str());
                }
            }
            i += 1;
        }
        None
    }

    /// The language of a session. The variable of the program comes before
    /// everything else, what the system says comes second, and English last.
    pub fn detect(program: &Option<String>, system: Option<Lang>) -> (r: Self)
        ensures
            r == match program {
                Some(v) if tagged(v@) is Some => tagged(v@)->0,
                _ => match system {
                    Some(lang) => lang,
                    None => Lang::En,
                },
            },
    {
        if let Some(v) = program {
            if let Some(lang) = Lang::from_tag(v.as_str()) {
                return lang;
            }
        }
        match system {
            Some(lang) => lang,
            None => Lang::En,
        }
    }
}

/// The language of a session, from the values of `MICBRIDGE_LANG` and of the
/// variables that describe the system.
pub fn lang(program: &Option<String>, system: &Vec<Option<String>>) -> (r: Lang)
    ensures
        r == match program {
            Some(v) if tagged(v@) is Some => tagged(v@)->0,
            _ => match first_telling(views(system@)) {
                Some(lang) => lang,
                None => Lang::En,
            },
        },
{
    Lang::detect(program, Lang::from_system(system))
}

fn tells_nothing(value: &str) -> (r: bool)
    ensures
        r == says_nothing(value@),
{
    let chars = chars_of(value);
    chars.len() == 0 || same(value, "C") || same(value, "POSIX")
}

proof fn lemma_codes_are_two_letters(code: Seq<char>)
    ensures
        code.len() != 2 ==> language_of(code) is None,
{
    let base = code.map_values(|c: char| crate::text::ascii_lower(c));
    assert(base.len() == code.len());
    assert(seq!['p', 'l'].len() == 2 && seq!['e', 'n'].len() == 2 && seq!['d', 'e'].len() == 2);
    assert(seq!['e', 's'].len() == 2 && seq!['f', 'r'].len() == 2 && seq!['i', 't'].len() == 2);
    assert(seq!['u', 'k'].len() == 2);
}

proof fn lemma_two_letters(a: char, b: char)
    ensures
        forall|c: char, d: char| #[trigger] seq![a, b] == #[trigger] seq![c, d] <==> a == c && b == d,
{
    assert forall|c: char, d: char| #[trigger]
        seq![a, b] == #[trigger] seq![c, d] <==> a == c && b == d by {
        if seq![a, b] == seq![c, d] {
            assert(seq![a, b][0] == seq![c, d][0]);
            assert(seq![a, b][1] == seq![c, d][1]);
        }
    }
}

/// The place of the first hole, written as a pair of braces, where there is one.
pub open spec fn hole(pattern: Seq<char>) -> Option<nat>
    decreases pattern.len(),
{
    if pattern.len() < 2 {
        None
    } else if pattern[0] == '{' && pattern[1] == '}' {
        Some(0)
    } else {
        match hole(pattern.drop_first()) {
            Some(i) => Some(i + 1),
            None => None,
        }
    }
}

/// A pattern with its holes filled, in order. A value with nowhere to go lands
/// at the end, after a space: the number matters more than the looks of the
/// sentence.
pub open spec fn filled(pattern: Seq<char>, values: Seq<Seq<char>>) -> Seq<char>
    decreases values.len(),
{
    if values.len() == 0 {
        pattern
    } else {
        match hole(pattern) {
            Some(i) => pattern.take(i as int) + values[0] + filled(
                pattern.skip(i as int + 2),
                values.drop_first(),
            ),
            None => pattern + seq![' '] + values[0] + filled(Seq::empty(), values.drop_first()),
        }
    }
}

/// The views of some texts.
pub open spec fn texts(values: Seq<&str>) -> Seq<Seq<char>> {
    values.map_values(|v: &str| v@)
}

/// A hole is where its braces stand.
proof fn lemma_hole(pattern: Seq<char>)
    ensures
        hole(pattern) matches Some(i) ==> i + 2 <= pattern.len() && pattern[i as int] == '{'
            && pattern[i as int + 1] == '}',
    decreases pattern.len(),
{
    if pattern.len() >= 2 {
        lemma_hole(pattern.drop_first());
    }
}

/// The place of the first hole from a position on.
fn find_hole(pattern: &Vec<char>, from: usize) -> (r: Option<usize>)
    requires
        from <= pattern@.len(),
    ensures
        r matches Some(at) ==> hole(pattern@.skip(from as int)) == Some((at - from) as nat) && from
            <= at && at + 2 <= pattern@.len(),
        r is None ==> hole(pattern@.skip(from as int)) is None,
{
    let mut at: usize = from;
    let n: usize = pattern.len();
    while at < n && n - at >= 2
        invariant
            from <= at <= n == pattern@.len(),
            hole(pattern@.skip(from as int)) == match hole(pattern@.skip(at as int)) {
                Some(i) => Some((i + at - from) as nat),
                None => None,
            },
        decreases n - at,
    {
        let ghost rest = pattern@.skip(at as int);
        if pattern[at] == '{' && pattern[at + 1] == '}' {
            assert(rest[0] == '{' && rest[1] == '}');
            return Some(at);
        }
        assert(rest[0] == pattern@[at as int] && rest[1] == pattern@[at + 1]);
        assert(rest.drop_first() =~= pattern@.skip(at + 1));
        at += 1;
    }
    None
}

/// Puts the values into the holes, one after the other.
///
/// Of its own instead of `format!`, because that wants a pattern known at
/// compile time, and ours comes from a table that is chosen at run time.
pub fn fill(pattern: &str, values: &[&str]) -> (r: String)
    ensures
        r@ == filled(pattern@, texts(values@)),
{
    let chars = chars_of(pattern);
    let n: usize = chars.len();
    let mut out = String::new();
    let mut from: usize = 0;
    let mut i: usize = 0;
    assert(chars@.skip(0) =~= chars@);
    assert(texts(values@).skip(0) =~= texts(values@));
    while i < values.len()
        invariant
            i <= values@.len(),
            from <= n == chars@.len(),
            filled(pattern@, texts(values@)) == out@ + filled(
                chars@.skip(from as int),
                texts(values@).skip(i as int),
            ),
        decreases values@.len() - i,
    {
        let ghost before = out@;
        let ghost rest = chars@.skip(from as int);
        let ghost left = texts(values@).skip(i as int);
        assert(left.drop_first() =~= texts(values@).skip(i + 1));
        assert(left[0] == values@[i as int]@);
        match find_hole(&chars, from) {
            Some(at) => {
                push_chars(&mut out, &chars, from, at);
                append(&mut out, values[i]);
                proof {
                    assert(rest.take(at - from) =~= chars@.subrange(from as int, at as int));
                    assert(rest.skip(at - from + 2) =~= chars@.skip(at + 2));
                    assert(before + (rest.take(at - from) + left[0] + filled(
                        chars@.skip(at + 2),
                        left.drop_first(),
                    )) =~= out@ + filled(chars@.skip(at + 2), left.drop_first()));
                }
                from = at + 2;
            },
            // More values than holes: keep the value all the same.
            None => {
                push_chars(&mut out, &chars, from, n);
                out.push(' ');
                append(&mut out, values[i]);
                proof {
                    assert(rest =~= chars@.subrange(from as int, n as int));
                    assert(chars@.skip(n as int) =~= Seq::empty());
                    assert(before + (rest + seq![' '] + left[0] + filled(
                        Seq::empty(),
                        left.drop_first(),
                    )) =~= out@ + filled(Seq::empty(), left.drop_first()));
                }
                from = n;
            },
        }
        i += 1;
    }
    proof {
        assert(texts(values@).skip(i as int) =~= Seq::empty());
        assert(chars@.skip(from as int) =~= chars@.subrange(from as int, n as int));
    }
    push_chars(&mut out, &chars, from, n);
    out
}

/// Appends the characters from one position up to another.
fn push_chars(out: &mut String, chars: &Vec<char>, from: usize, to: usize)
    requires
        from <= to <= chars@.len(),
    ensures
        final(out)@ == old(out)@ + chars@.subrange(from as int, to as int),
{
    let mut i: usize = from;
    while i < to
        invariant
            from <= i <= to <= chars@.len(),
            out@ == old(out)@ + chars@.subrange(from as int, i as int),
        decreases to - i,
    {
        out.push(chars[i]);
        assert(out@ =~= old(out)@ + chars@.subrange(from as int, i + 1));
        i += 1;
    }
}

/// A text without places to fill.
pub fn t(key: Key, lang: Lang) -> (r: &'static str)
    ensures
        r@ == catalog::text_of(key, lang),
{
    catalog::text(key, lang)
}

/// A text with one place to fill, written as a pair of braces.
pub fn t1(key: Key, lang: Lang, a: &str) -> (r: String)
    ensures
        r@ == filled(catalog::text_of(key, lang), seq![a@]),
{
    let values = [a];
    assert(texts(values@) =~= seq![a@]);
    fill(t(key, lang), values.as_slice())
}

/// A text with two places to fill.
pub fn t2(key: Key, lang: Lang, a: &str, b: &str) -> (r: String)
    ensures
        r@ == filled(catalog::text_of(key, lang), seq![a@, b@]),
{
    let values = [a, b];
    assert(texts(values@) =~= seq![a@, b@]);
    fill(t(key, lang), values.as_slice())
}

/// A text with three places to fill.
pub fn t3(key: Key, lang: Lang, a: &str, b: &str, c: &str) -> (r: String)
    ensures
        r@ == filled(catalog::text_of(key, lang), seq![a@, b@, c@]),
{
    let values = [a, b, c];
    assert(texts(values@) =~= seq![a@, b@, c@]);
    fill(t(key, lang), values.as_slice())
}

/// A number that ends in two, three or four and is no teen: Polish and Ukrainian
/// have a form of their own for these.
pub open spec fn takes_few(n: nat) -> bool {
    2 <= n % 10 <= 4 && !(12 <= n % 100 <= 14)
}

/// The form of the noun that a number of devices takes. Polish and Ukrainian
/// have three forms. In Polish only one itself takes the singular; in Ukrainian
/// so does every number that ends in one, but for eleven. The rest only tell
/// one from not one.
pub open spec fn device_form(lang: Lang, n: nat) -> Key {
    match lang {
        Lang::Pl => if n == 1 {
            Key::DevicesOne
        } else if takes_few(n) {
            Key::DevicesFew
        } else {
            Key::DevicesMany
        },
        Lang::Uk => if n % 10 == 1 && n % 100 != 11 {
            Key::DevicesOne
        } else if takes_few(n) {
            Key::DevicesFew
        } else {
            Key::DevicesMany
        },
        _ => if n == 1 {
            Key::DevicesOne
        } else {
            Key::DevicesMany
        },
    }
}

/// A number with its noun, in the right form for the language.
pub fn devices(n: usize, lang: Lang) -> (r: String)
    ensures
        r@ == crate::text::decimal(n as nat) + seq![' '] + catalog::text_of(
            device_form(lang, n as nat),
            lang,
        ),
{
    let unit: usize = n % 10;
    let rest: usize = n % 100;
    let few: bool = 2 <= unit && unit <= 4 && !(12 <= rest && rest <= 14);
    let key = match lang {
        Lang::Pl => {
            if n == 1 {
                Key::DevicesOne
            } else if few {
                Key::DevicesFew
            } else {
                Key::DevicesMany
            }
        },
        Lang::Uk => {
            if unit == 1 && rest != 11 {
                Key::DevicesOne
            } else if few {
                Key::DevicesFew
            } else {
                Key::DevicesMany
            }
        },
        _ => {
            if n == 1 {
                Key::DevicesOne
            } else {
                Key::DevicesMany
            }
        },
    };
    let mut out = String::new();
    push_number(&mut out, n as u64);
    out.push(' ');
    append(&mut out, t(key, lang));
    assert(out@ =~= crate::text::decimal(n as nat) + seq![' '] + catalog::text_of(key, lang));
    out
}

/// Filling walks through the holes in order: what stands before the first hole
/// stays in front, the first value follows it, and the rest is filled in the
/// same way.
pub proof fn filling_walks_through_the_holes_in_order(
    before: Seq<char>,
    after: Seq<char>,
    value: Seq<char>,
    more: Seq<Seq<char>>,
)
    requires
        hole(before.push('{')) is None,
    ensures
        filled(before + seq!['{', '}'] + after, seq![value] + more) == before + value + filled(
            after,
            more,
        ),
{
    let pattern = before + seq!['{', '}'] + after;
    lemma_first_hole(before, after);
    assert(pattern.take(before.len() as int) =~= before);
    assert(pattern.skip(before.len() as int + 2) =~= after);
    assert((seq![value] + more).drop_first() =~= more);
}

proof fn lemma_first_hole(before: Seq<char>, after: Seq<char>)
    requires
        hole(before.push('{')) is None,
    ensures
        hole(before + seq!['{', '}'] + after) == Some(before.len()),
    decreases before.len(),
{
    let pattern = before + seq!['{', '}'] + after;
    if before.len() > 0 {
        let b = before.push('{');
        assert(b.len() >= 2);
        assert(b.drop_first() =~= before.drop_first().push('{'));
        lemma_first_hole(before.drop_first(), after);
        assert(pattern.drop_first() =~= before.drop_first() + seq!['{', '}'] + after);
        assert(pattern[0] == b[0] && (before.len() > 1 ==> pattern[1] == b[1]));
    }
}

/// No value is ever lost: filling adds the characters of every value.
pub proof fn filling_keeps_every_value(pattern: Seq<char>, value: Seq<char>)
    ensures
        crate::text::has(filled(pattern, seq![value]), value),
{
    lemma_hole(pattern);
    let out = filled(pattern, seq![value]);
    assert(seq![value].drop_first() =~= Seq::empty());
    let at: int = match hole(pattern) {
        Some(i) => i as int,
        None => pattern.len() as int + 1,
    };
    assert(out.subrange(at, at + value.len()) =~= value);
    assert(crate::text::stands_at(out, value, at));
}

} // verus!
