//! Texts and numbers.
use vstd::prelude::*;

use crate::text::{
    comes_before, contains, number, parse_number, push_joined, same, same_but_for_case,
    strip_suffix, trim, white,
};

verus! {

/// A number in decimal is made of digits alone, and they have its value.
pub proof fn lemma_decimal_value(n: nat)
    ensures
        crate::text::decimal(n).len() > 0,
        crate::text::all_digits(crate::text::decimal(n)),
        crate::text::digits_value(crate::text::decimal(n)) == n,
    decreases n,
{
    let s = crate::text::decimal(n);
    if n >= 10 {
        lemma_decimal_value(n / 10);
        assert(s.drop_last() =~= crate::text::decimal(n / 10));
        assert(s.last() == crate::text::digit(n % 10));
    } else {
        assert(s.drop_last() =~= Seq::<char>::empty());
        assert(crate::text::digits_value(Seq::<char>::empty()) == 0);
        assert(s.last() == crate::text::digit(n));
    }
}

/// Trimming takes white space off both ends, and nothing else.
pub proof fn lemma_trimmed(s: Seq<char>)
    ensures
        ({
            let from = crate::text::white_prefix(s) as int;
            let rest = s.skip(from);
            let to = s.len() - crate::text::white_suffix(rest);
            &&& 0 <= from <= to <= s.len()
            &&& crate::text::trimmed(s) == s.subrange(from, to)
            &&& forall|i: int| 0 <= i < from ==> crate::text::is_white(#[trigger] s[i])
            &&& forall|i: int| to <= i < s.len() ==> crate::text::is_white(#[trigger] s[i])
            &&& from < to ==> !crate::text::is_white(s[from]) && !crate::text::is_white(s[to - 1])
        }),
{
    lemma_white_prefix(s);
    let from = crate::text::white_prefix(s) as int;
    let rest = s.skip(from);
    lemma_white_suffix(rest);
    let to = s.len() - crate::text::white_suffix(rest);
    assert(crate::text::trimmed(s) =~= s.subrange(from, to));
    assert forall|i: int| to <= i < s.len() implies crate::text::is_white(#[trigger] s[i]) by {
        assert(rest[i - from] == s[i]);
    }
    if from < to {
        assert(rest[to - from - 1] == s[to - 1]);
    }
}

proof fn lemma_white_prefix(s: Seq<char>)
    ensures
        crate::text::white_prefix(s) <= s.len(),
        forall|i: int|
            0 <= i < crate::text::white_prefix(s) ==> crate::text::is_white(#[trigger] s[i]),
        crate::text::white_prefix(s) < s.len() ==> !crate::text::is_white(
            s[crate::text::white_prefix(s) as int],
        ),
    decreases s.len(),
{
    if s.len() > 0 && crate::text::is_white(s[0]) {
        let rest = s.drop_first();
        lemma_white_prefix(rest);
        assert forall|i: int| 0 <= i < crate::text::white_prefix(s) implies crate::text::is_white(
            #[trigger] s[i],
        ) by {
            if i > 0 {
                assert(rest[i - 1] == s[i]);
            }
        }
    }
}

proof fn lemma_white_suffix(s: Seq<char>)
    ensures
        crate::text::white_suffix(s) <= s.len(),
        forall|i: int|
            s.len() - crate::text::white_suffix(s) <= i < s.len() ==> crate::text::is_white(
                #[trigger] s[i],
            ),
        crate::text::white_suffix(s) < s.len() ==> !crate::text::is_white(
            s[s.len() - crate::text::white_suffix(s) - 1],
        ),
    decreases s.len(),
{
    if s.len() > 0 && crate::text::is_white(s.last()) {
        let rest = s.drop_last();
        lemma_white_suffix(rest);
        assert forall|i: int|
            s.len() - crate::text::white_suffix(s) <= i < s.len() implies crate::text::is_white(
            #[trigger] s[i],
        ) by {
            if i < s.len() - 1 {
                assert(rest[i] == s[i]);
            }
        }
    }
}

/// A text with no white space at either end is trimmed already.
pub proof fn lemma_bare_is_trimmed(s: Seq<char>)
    requires
        s.len() > 0,
        !crate::text::is_white(s[0]),
        !crate::text::is_white(s.last()),
    ensures
        crate::text::trimmed(s) == s,
{
    assert(s.skip(0) =~= s);
    assert(s.take(s.len() as int) =~= s);
}

/// A number that was written reads back, where the limit allows it.
pub proof fn a_number_reads_back(n: u64, max: u64, written: String, text: &str, r: Option<u64>)
    requires
        call_ensures(number, (n,), written),
        text@ == written@,
        call_ensures(parse_number, (text, max), r),
    ensures
        n <= max ==> r == Some(n),
        n > max ==> r is None,
{
    lemma_decimal_value(n as nat);
    assert('0' <= written@[0] <= '9');
}

/// Numbers are written in tens, the greatest weight first.
pub proof fn a_number_is_written_in_tens(n: u64, written: String, tens: String)
    requires
        call_ensures(number, (n,), written),
        call_ensures(number, ((n / 10) as u64,), tens),
    ensures
        n < 10 ==> written@ == seq![('0' as u32 + n) as char],
        n >= 10 ==> written@ == tens@.push(('0' as u32 + n % 10) as char),
{
}

/// Only digits are read, with or without a plus in front; one more digit at the
/// end weighs the others ten times as much, up to the limit.
pub proof fn digits_are_read_in_tens(
    max: u64,
    text: &str,
    longer: &str,
    d: char,
    r: Option<u64>,
    more: Option<u64>,
)
    requires
        call_ensures(parse_number, (text, max), r),
        call_ensures(parse_number, (longer, max), more),
        longer@ == text@.push(d),
    ensures
        more is Some ==> '0' <= d <= '9',
        more matches Some(v) ==> v <= max,
        more is Some ==> text@.len() == 0 || text@ == seq!['+'] || r is Some,
        '0' <= d <= '9' ==> (r matches Some(v) ==> if 10 * v + (d as u32 - '0' as u32) <= max {
            more == Some((10 * v + (d as u32 - '0' as u32)) as u64)
        } else {
            more is None
        }),
        '0' <= d <= '9' && (text@.len() == 0 || text@ == seq!['+']) ==> if d as u32 - '0' as u32
            <= max {
            more == Some((d as u32 - '0' as u32) as u64)
        } else {
            more is None
        },
        text@.len() == 0 || text@ == seq!['+'] ==> r is None,
{
    let short = crate::text::unsigned_digits(text@);
    let long = crate::text::unsigned_digits(longer@);
    if text@.len() == 0 {
        if d == '+' {
            assert(long =~= Seq::empty());
        } else {
            assert(long =~= seq![d]);
            assert(long.drop_last() =~= Seq::empty());
            assert(long[0] == d);
            assert(crate::text::digits_value(Seq::<char>::empty()) == 0);
        }
    } else {
        assert(long =~= short.push(d));
        assert(long.drop_last() =~= short);
        assert(long.last() == d);
        if crate::text::all_digits(long) {
            assert forall|i: int| 0 <= i < short.len() implies '0' <= #[trigger] short[i]
                <= '9' by {
                assert(long[i] == short[i]);
            }
            assert('0' <= long[long.len() - 1] <= '9');
        }
        if crate::text::all_digits(short) && '0' <= d <= '9' {
            assert forall|i: int| 0 <= i < long.len() implies '0' <= #[trigger] long[i] <= '9' by {
                if i < short.len() {
                    assert(long[i] == short[i]);
                }
            }
        }
        if text@ == seq!['+'] {
            assert(short =~= Seq::empty());
            assert(crate::text::digits_value(Seq::<char>::empty()) == 0);
        }
        if short.len() == 0 {
            assert(text@ =~= seq!['+']);
        }
    }
}

/// Trimming a text takes white space off both ends and leaves all between them:
/// what it leaves neither begins nor ends with white space.
pub proof fn trimming_takes_white_space_off_the_ends(s: &str, r: String)
    requires
        call_ensures(trim, (s,), r),
    ensures
        exists|from: int, to: int|
            {
                &&& 0 <= from <= to <= s@.len()
                &&& r@ == #[trigger] s@.subrange(from, to)
                &&& forall|i: int, w: bool|
                    (0 <= i < from || to <= i < s@.len()) && #[trigger] call_ensures(
                        white,
                        (s@[i],),
                        w,
                    ) ==> w
            },
        forall|w: bool|
            r@.len() > 0 && #[trigger] call_ensures(white, (r@[0],), w) ==> !w,
        forall|w: bool|
            r@.len() > 0 && #[trigger] call_ensures(white, (r@.last(),), w) ==> !w,
{
    lemma_trimmed(s@);
    let from = crate::text::white_prefix(s@) as int;
    let to = s@.len() - crate::text::white_suffix(s@.skip(from));
    assert(r@ == s@.subrange(from, to));
}

/// White space is what Unicode counts as such: the blank, what moves to the next
/// place or line, and the wide and narrow blanks. No letter, digit or sign of ASCII
/// is.
pub proof fn what_is_white(c: char, r: bool)
    requires
        call_ensures(white, (c,), r),
    ensures
        c == ' ' || c == '\t' || c == '\n' || c == '\r' ==> r,
        c == '\u{a0}' || c == '\u{2003}' || c == '\u{2009}' || c == '\u{3000}' ==> r,
        '!' <= c <= '~' ==> !r,
        'À' <= c <= 'ž' ==> !r,
        'А' <= c <= 'я' ==> !r,
{
}

/// A text contains another where that stands in it, letter by letter, from some
/// place on.
pub proof fn a_part_stands_in_the_whole(s: &str, part: &str, r: bool)
    requires
        call_ensures(contains, (s, part), r),
    ensures
        r <==> exists|before: Seq<char>, after: Seq<char>|
            s@ == #[trigger] (before + part@ + after),
        part@.len() == 0 ==> r,
        part@.len() > s@.len() ==> !r,
{
    if r {
        let i = choose|i: int| crate::text::stands_at(s@, part@, i);
        assert(s@ =~= s@.take(i) + part@ + s@.skip(i + part@.len()));
    }
    if exists|before: Seq<char>, after: Seq<char>| s@ == #[trigger] (before + part@ + after) {
        let (before, after) = choose|before: Seq<char>, after: Seq<char>|
            s@ == #[trigger] (before + part@ + after);
        assert(s@.subrange(before.len() as int, (before.len() + part@.len()) as int) =~= part@);
        assert(crate::text::stands_at(s@, part@, before.len() as int));
    }
    if part@.len() == 0 {
        assert(s@.subrange(0, 0) =~= part@);
        assert(crate::text::stands_at(s@, part@, 0));
    }
}

/// The order of names is that of a dictionary by character: the first place where
/// two differ decides, and a name comes before every longer one that begins with
/// it.
pub proof fn names_go_like_a_dictionary(a: &str, b: &str, r: bool)
    requires
        call_ensures(comes_before, (a, b), r),
    ensures
        a@ == b@ ==> !r,
        forall|k: int|
            0 <= k < a@.len() && k < b@.len() && a@.take(k) == b@.take(k) && #[trigger] a@[k]
                != b@[k] ==> r == (a@[k] < b@[k]),
        a@.len() < b@.len() && a@ == b@.take(a@.len() as int) ==> r,
        b@.len() < a@.len() && b@ == a@.take(b@.len() as int) ==> !r,
{
    crate::text::lemma_precedes_total(a@, b@);
    assert forall|k: int|
        0 <= k < a@.len() && k < b@.len() && a@.take(k) == b@.take(k) && #[trigger] a@[k]
            != b@[k] implies r == (a@[k] < b@[k]) by {
        lemma_first_difference(a@, b@, k);
    }
    if a@.len() < b@.len() && a@ == b@.take(a@.len() as int) {
        lemma_prefix_precedes(a@, b@);
    }
    if b@.len() < a@.len() && b@ == a@.take(b@.len() as int) {
        lemma_prefix_precedes(b@, a@);
    }
}

proof fn lemma_first_difference(a: Seq<char>, b: Seq<char>, k: int)
    requires
        0 <= k < a.len(),
        k < b.len(),
        a.take(k) == b.take(k),
        a[k] != b[k],
    ensures
        crate::text::precedes(a, b) == (a[k] < b[k]),
    decreases k,
{
    if k > 0 {
        assert(a.take(k)[0] == a[0] && b.take(k)[0] == b[0]);
        let (x, y) = (a.drop_first(), b.drop_first());
        assert forall|i: int| 0 <= i < k - 1 implies #[trigger] x[i] == y[i] by {
            assert(a.take(k)[i + 1] == a[i + 1] && b.take(k)[i + 1] == b[i + 1]);
        }
        assert(x.take(k - 1) =~= y.take(k - 1));
        lemma_first_difference(x, y, k - 1);
    }
}

proof fn lemma_prefix_precedes(a: Seq<char>, b: Seq<char>)
    requires
        a.len() < b.len(),
        a == b.take(a.len() as int),
    ensures
        crate::text::precedes(a, b),
    decreases a.len(),
{
    if a.len() > 0 {
        assert(a[0] == b.take(a.len() as int)[0]);
        let (x, y) = (a.drop_first(), b.drop_first());
        assert forall|i: int| 0 <= i < x.len() implies #[trigger] x[i] == y[i] by {
            assert(a[i + 1] == b.take(a.len() as int)[i + 1]);
        }
        assert(x =~= y.take(x.len() as int));
        lemma_prefix_precedes(x, y);
    }
}

/// Two texts are the same but for case where they have the same length and, place
/// by place, the same character or the same letter of the alphabet in two cases.
pub proof fn case_is_all_that_may_differ(a: &str, b: &str, r: bool, equal: bool)
    requires
        call_ensures(same_but_for_case, (a, b), r),
        call_ensures(same, (a, b), equal),
    ensures
        equal <==> a@ == b@,
        equal ==> r,
        r <==> a@.len() == b@.len() && forall|i: int|
            #![trigger a@[i]]
            #![trigger b@[i]]
            0 <= i < a@.len() ==> {
                ||| a@[i] == b@[i]
                ||| 'A' <= a@[i] <= 'Z' && b@[i] as u32 == a@[i] as u32 + 32
                ||| 'A' <= b@[i] <= 'Z' && a@[i] as u32 == b@[i] as u32 + 32
            },
{
    let (x, y) = (crate::text::ascii_lowered(a@), crate::text::ascii_lowered(b@));
    if r {
        assert(x.len() == y.len());
        assert forall|i: int|
            #![trigger a@[i]]
            #![trigger b@[i]]
            0 <= i < a@.len() implies {
            ||| a@[i] == b@[i]
            ||| 'A' <= a@[i] <= 'Z' && b@[i] as u32 == a@[i] as u32 + 32
            ||| 'A' <= b@[i] <= 'Z' && a@[i] as u32 == b@[i] as u32 + 32
        } by {
            assert(x[i] == y[i]);
        }
    }
    if a@.len() == b@.len() && forall|i: int|
        #![trigger a@[i]]
        #![trigger b@[i]]
        0 <= i < a@.len() ==> {
            ||| a@[i] == b@[i]
            ||| 'A' <= a@[i] <= 'Z' && b@[i] as u32 == a@[i] as u32 + 32
            ||| 'A' <= b@[i] <= 'Z' && a@[i] as u32 == b@[i] as u32 + 32
        } {
        assert forall|i: int| 0 <= i < x.len() implies x[i] == y[i] by {
            assert(a@[i] == a@[i]);
        }
        assert(x =~= y);
    }
}

/// What is left of a text without its ending gives the text again with it.
pub proof fn an_ending_comes_off(s: &str, suffix: &str, r: Option<String>)
    requires
        call_ensures(strip_suffix, (s, suffix), r),
    ensures
        r matches Some(rest) ==> s@ == rest@ + suffix@,
        r is None ==> forall|rest: Seq<char>| s@ != #[trigger] (rest + suffix@),
{
    if r is Some {
        assert(s@ =~= r->0@ + suffix@);
    } else {
        assert forall|rest: Seq<char>| s@ != #[trigger] (rest + suffix@) by {
            if s@ == rest + suffix@ {
                assert(suffix@ =~= s@.subrange(s@.len() - suffix@.len(), s@.len() as int));
            }
        }
    }
}

/// Texts are joined in their order, with the separator between two of them and
/// nowhere else: one more text adds the separator and itself.
pub proof fn texts_are_joined_in_order(parts: &Vec<String>, fewer: &Vec<String>, sep: &str)
    requires
        parts@.len() > 0,
        fewer@ == parts@.drop_last(),
    ensures
        forall|out: &mut String, less: &mut String|
            {
                &&& #[trigger] call_ensures(push_joined, (out, parts, sep), ())
                &&& #[trigger] call_ensures(push_joined, (less, fewer, sep), ())
                &&& (*out)@ == (*less)@
            } ==> final(out)@ == if fewer@.len() == 0 {
                (*out)@ + parts@[0]@
            } else {
                final(less)@ + sep@ + parts@.last()@
            },
        forall|less: &mut String|
            #[trigger] call_ensures(push_joined, (less, fewer, sep), ()) && fewer@.len() == 0
                ==> final(less)@ == (*less)@,
{
    let all = crate::text::views(parts@);
    let some = crate::text::views(fewer@);
    assert(all.drop_last() =~= some);
    assert forall|out: &mut String, less: &mut String|
        {
            &&& #[trigger] call_ensures(push_joined, (out, parts, sep), ())
            &&& #[trigger] call_ensures(push_joined, (less, fewer, sep), ())
            &&& (*out)@ == (*less)@
        } implies final(out)@ == if fewer@.len() == 0 {
        (*out)@ + parts@[0]@
    } else {
        final(less)@ + sep@ + parts@.last()@
    } by {
        if fewer@.len() > 0 {
            assert(final(out)@ =~= final(less)@ + sep@ + parts@.last()@);
        }
    }
    assert forall|less: &mut String| #[trigger] call_ensures(push_joined, (less, fewer, sep), ())
        && fewer@.len() == 0 implies final(less)@ == (*less)@ by {
        assert(final(less)@ =~= (*less)@);
    }
}

} // verus!
