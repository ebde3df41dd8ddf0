//! Languages and their texts.
use vstd::prelude::*;

use crate::i18n::catalog::{row, text};
use crate::i18n::{devices, fill, lang, t, t1, t2, t3, Key, Lang};
use crate::text::number;

verus! {

/// What ends the language in a tag.
pub open spec fn ends_it(c: char) -> bool {
    c == '-' || c == '_' || c == '.' || c == '@'
}

proof fn lemma_language_part(base: Seq<char>, rest: Seq<char>)
    requires
        forall|i: int| 0 <= i < base.len() ==> !ends_it(#[trigger] base[i]),
        rest.len() > 0 ==> ends_it(rest[0]),
    ensures
        crate::i18n::language_part(base + rest) == base,
    decreases base.len(),
{
    let tag = base + rest;
    if base.len() == 0 {
        assert(tag =~= rest);
        assert(crate::i18n::language_part(tag) =~= base);
    } else {
        let less = base.drop_first();
        assert forall|i: int| 0 <= i < less.len() implies !ends_it(#[trigger] less[i]) by {
            assert(less[i] == base[i + 1]);
        }
        lemma_language_part(less, rest);
        assert(tag.drop_first() =~= less + rest);
        assert(tag[0] == base[0]);
        assert(seq![base[0]] + less =~= base);
    }
}

/// A tag names its language by the two letters before the first mark, in either case,
/// whatever follows the mark: seven are known, and any other is none of them.
pub proof fn a_tag_names_its_language(
    tag: &str,
    base: Seq<char>,
    rest: Seq<char>,
    r: Option<Lang>,
)
    requires
        call_ensures(Lang::from_tag, (tag,), r),
        tag@ == base + rest,
        forall|i: int| 0 <= i < base.len() ==> !ends_it(#[trigger] base[i]),
        rest.len() > 0 ==> ends_it(rest[0]),
    ensures
        ({
            let code = crate::text::ascii_lowered(base);
            &&& r == Some(Lang::Pl) <==> code == seq!['p', 'l']
            &&& r == Some(Lang::En) <==> code == seq!['e', 'n']
            &&& r == Some(Lang::De) <==> code == seq!['d', 'e']
            &&& r == Some(Lang::Es) <==> code == seq!['e', 's']
            &&& r == Some(Lang::Fr) <==> code == seq!['f', 'r']
            &&& r == Some(Lang::It) <==> code == seq!['i', 't']
            &&& r == Some(Lang::Uk) <==> code == seq!['u', 'k']
        }),
{
    lemma_language_part(base, rest);
    let code = crate::text::ascii_lowered(base);
    assert(code =~= base.map_values(|c: char| crate::text::ascii_lower(c)));
    let (pl, en, de) = (seq!['p', 'l'], seq!['e', 'n'], seq!['d', 'e']);
    let (es, fr, it, uk) = (seq!['e', 's'], seq!['f', 'r'], seq!['i', 't'], seq!['u', 'k']);
    assert(pl[0] == 'p' && en[0] == 'e' && en[1] == 'n' && de[0] == 'd');
    assert(es[0] == 'e' && es[1] == 's' && fr[0] == 'f' && it[0] == 'i' && uk[0] == 'u');
}

/// A setting of the system that says something of the language.
pub open spec fn tells(value: Option<String>) -> bool {
    value is Some && value->0@.len() > 0 && value->0@ != "C"@ && value->0@ != "POSIX"@
}

proof fn lemma_first_telling(values: Seq<Option<String>>, i: int)
    requires
        0 <= i <= values.len(),
        forall|j: int| 0 <= j < i ==> !tells(#[trigger] values[j]),
        i < values.len() ==> tells(values[i]),
    ensures
        crate::i18n::first_telling(crate::i18n::views(values)) == if i < values.len() {
            crate::i18n::tagged(values[i]->0@)
        } else {
            None
        },
    decreases values.len(),
{
    let seen = crate::i18n::views(values);
    if values.len() > 0 {
        assert(seen[0] == crate::i18n::views(values)[0]);
        if i > 0 {
            assert(!tells(values[0]));
            let rest = values.drop_first();
            assert(seen.drop_first() =~= crate::i18n::views(rest));
            assert forall|j: int| 0 <= j < i - 1 implies !tells(#[trigger] rest[j]) by {
                assert(rest[j] == values[j + 1]);
            }
            if i < values.len() {
                assert(rest[i - 1] == values[i]);
            }
            lemma_first_telling(rest, i - 1);
        }
    }
}

/// Of the system's settings the first that says something decides, and it alone.
pub proof fn the_first_setting_that_tells_decides(
    values: &Vec<Option<String>>,
    i: int,
    told: &str,
    named: Option<Lang>,
    r: Option<Lang>,
)
    requires
        call_ensures(Lang::from_system, (values,), r),
        0 <= i <= values@.len(),
        forall|j: int| 0 <= j < i ==> !tells(#[trigger] values@[j]),
        i < values@.len() ==> tells(values@[i]) && told@ == values@[i]->0@,
        call_ensures(Lang::from_tag, (told,), named),
    ensures
        i < values@.len() ==> r == named,
        i == values@.len() ==> r is None,
{
    lemma_first_telling(values@, i);
}

/// The language is the one that the program is told, where that is one of ours; else
/// the system's; else English.
pub proof fn the_program_comes_before_the_system(
    program: &Option<String>,
    told: &str,
    named: Option<Lang>,
    system: &Vec<Option<String>>,
    found: Option<Lang>,
    r: Lang,
    detected: Lang,
)
    requires
        program matches Some(v) ==> told@ == v@,
        call_ensures(Lang::from_tag, (told,), named),
        call_ensures(Lang::from_system, (system,), found),
        call_ensures(lang, (program, system), r),
        call_ensures(Lang::detect, (program, found), detected),
    ensures
        r == detected,
        program is Some && named is Some ==> r == named->0,
        program is None || named is None ==> r == if found is Some {
            found->0
        } else {
            Lang::En
        },
{
}

/// A place to fill stands nowhere in a text.
pub open spec fn has_no_hole(s: Seq<char>) -> bool {
    forall|i: int| 0 <= i < s.len() - 1 ==> !(#[trigger] s[i] == '{' && s[i + 1] == '}')
}

proof fn lemma_no_hole(s: Seq<char>)
    requires
        has_no_hole(s),
    ensures
        crate::i18n::hole(s) is None,
    decreases s.len(),
{
    if s.len() >= 2 {
        let rest = s.drop_first();
        assert(!(s[0] == '{' && s[1] == '}'));
        assert forall|i: int| 0 <= i < rest.len() - 1 implies !(#[trigger] rest[i] == '{' && rest[i
            + 1] == '}') by {
            assert(rest[i] == s[i + 1] && rest[i + 1] == s[i + 2]);
        }
        lemma_no_hole(rest);
    }
}

/// Filling goes from the front: the first value takes the place of the first pair of
/// braces, what stands before it stays, and the rest is filled with the other values
/// in the same way. A value that no place is left for is put at the end, after a
/// blank. Without values a text stays as it is.
pub proof fn values_fill_the_places_in_order(
    pattern: &str,
    before: Seq<char>,
    after: &str,
    values: &[&str],
    more: &[&str],
    r: String,
    rest: String,
)
    requires
        call_ensures(fill, (pattern, values), r),
        call_ensures(fill, (after, more), rest),
    ensures
        values@.len() == 0 ==> r@ == pattern@,
        values@.len() > 0 && more@ == values@.drop_first() && pattern@ == before + seq!['{', '}']
            + after@ && has_no_hole(before.push('{')) ==> r@ == before + values@[0]@ + rest@,
        values@.len() > 0 && more@ == values@.drop_first() && has_no_hole(pattern@) && after@.len()
            == 0 ==> r@ == pattern@ + seq![' '] + values@[0]@ + rest@,
{
    let all = crate::i18n::texts(values@);
    if values@.len() > 0 && more@ == values@.drop_first() {
        let others = crate::i18n::texts(more@);
        assert(all.drop_first() =~= others);
        assert(all =~= seq![values@[0]@] + others);
        if pattern@ == before + seq!['{', '}'] + after@ && has_no_hole(before.push('{')) {
            lemma_no_hole(before.push('{'));
            crate::i18n::filling_walks_through_the_holes_in_order(
                before,
                after@,
                values@[0]@,
                others,
            );
        }
        if has_no_hole(pattern@) && after@.len() == 0 {
            lemma_no_hole(pattern@);
            assert(after@ =~= Seq::<char>::empty());
        }
    }
}

/// No value is lost in filling: each stands in the result.
pub proof fn no_value_is_lost(pattern: &str, values: &[&str], k: int, r: String)
    requires
        call_ensures(fill, (pattern, values), r),
        0 <= k < values@.len(),
    ensures
        crate::text::has(r@, values@[k]@),
{
    lemma_filled_has(pattern@, crate::i18n::texts(values@), k);
}

/// Each value stands in what a text is filled to.
pub proof fn lemma_filled_has(pattern: Seq<char>, values: Seq<Seq<char>>, k: int)
    requires
        0 <= k < values.len(),
    ensures
        crate::text::has(crate::i18n::filled(pattern, values), values[k]),
    decreases values.len(),
{
    let more = values.drop_first();
    let (front, after) = match crate::i18n::hole(pattern) {
        Some(i) => (pattern.take(i as int), pattern.skip(i as int + 2)),
        None => (pattern + seq![' '], Seq::<char>::empty()),
    };
    let rest = crate::i18n::filled(after, more);
    let all = front + values[0] + rest;
    assert(crate::i18n::filled(pattern, values) == all);
    if k == 0 {
        assert(all.subrange(front.len() as int, (front.len() + values[0].len()) as int)
            =~= values[0]);
        assert(crate::text::stands_at(all, values[0], front.len() as int));
    } else {
        lemma_filled_has(after, more, k - 1);
        assert(more[k - 1] == values[k]);
        crate::laws::audio::lemma_has_in_the_end(front + values[0], rest, values[k]);
    }
}

/// A text with values is the text of the key in the language, filled with the values
/// in their order.
pub proof fn a_text_is_filled_with_its_values(
    key: Key,
    lang: Lang,
    bare: &'static str,
    one: &[&str],
    two: &[&str],
    three: &[&str],
    a: &str,
    b: &str,
    c: &str,
    r1: String,
    r2: String,
    r3: String,
    f1: String,
    f2: String,
    f3: String,
)
    requires
        call_ensures(t, (key, lang), bare),
        one@ == seq![a] && two@ == seq![a, b] && three@ == seq![a, b, c],
        call_ensures(t1, (key, lang, a), r1) && call_ensures(fill, (bare, one), f1),
        call_ensures(t2, (key, lang, a, b), r2) && call_ensures(fill, (bare, two), f2),
        call_ensures(t3, (key, lang, a, b, c), r3) && call_ensures(fill, (bare, three), f3),
    ensures
        r1@ == f1@,
        r2@ == f2@,
        r3@ == f3@,
{
    assert(crate::i18n::texts(one@) =~= seq![a@]);
    assert(crate::i18n::texts(two@) =~= seq![a@, b@]);
    assert(crate::i18n::texts(three@) =~= seq![a@, b@, c@]);
}

/// The text of a key in a language stands in the key's row, in the language's own
/// column.
pub proof fn each_language_has_its_own_column(
    key: Key,
    lang: Lang,
    other: Lang,
    bare: &'static str,
    same: &'static str,
    cells: [&'static str; 7],
    column: usize,
    beside: usize,
)
    requires
        call_ensures(t, (key, lang), bare),
        call_ensures(text, (key, lang), same),
        call_ensures(row, (key,), cells),
        call_ensures(Lang::column, (lang,), column),
        call_ensures(Lang::column, (other,), beside),
    ensures
        column < 7,
        column == beside <==> lang == other,
        bare@ == cells@[column as int]@,
        same@ == bare@,
{
}

/// A number of devices is the number and the noun in the right form. One device is
/// singular. Polish and Ukrainian have a form for numbers that end in two, three or
/// four, but not for twelve, thirteen and fourteen; Ukrainian takes the singular for
/// every number that ends in one, but for eleven. All others are plural.
pub proof fn a_number_of_devices_takes_its_form(
    n: usize,
    lang: Lang,
    written: String,
    one: &'static str,
    few: &'static str,
    many: &'static str,
    r: String,
)
    requires
        call_ensures(devices, (n, lang), r),
        call_ensures(number, (n as u64,), written),
        call_ensures(t, (Key::DevicesOne, lang), one),
        call_ensures(t, (Key::DevicesFew, lang), few),
        call_ensures(t, (Key::DevicesMany, lang), many),
    ensures
        ({
            let slavic = lang == Lang::Pl || lang == Lang::Uk;
            let ends = n % 10;
            let teen = 11 <= n % 100 <= 14;
            &&& n == 1 ==> r@ == written@ + seq![' '] + one@
            &&& lang == Lang::Uk && ends == 1 && !teen ==> r@ == written@ + seq![' '] + one@
            &&& slavic && 2 <= ends <= 4 && !teen ==> r@ == written@ + seq![' '] + few@
            &&& slavic && (ends == 0 || ends >= 5 || teen) ==> r@ == written@ + seq![' '] + many@
            &&& lang == Lang::Pl && ends == 1 && n != 1 ==> r@ == written@ + seq![' '] + many@
            &&& !slavic && n != 1 ==> r@ == written@ + seq![' '] + many@
        }),
{
}

} // verus!
