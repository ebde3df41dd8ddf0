//! Devices, configurations and sinks.
use vstd::prelude::*;

use crate::audio::sink::{
    hint_for, is_cable_name, latency_hint, looks_like_virtual_cable, no_cable, open_cable,
    pick_cable, sink_plan, validate, SinkPlan,
};
use crate::audio::{config_for, find, ConfigRange, DeviceInfo, Direction, FindError, Format, Pick};
use crate::i18n::Lang;
use crate::text::{number, parse_number, same_but_for_case, trim};

verus! {

/// The selector made of an at sign and a number points at the device of that
/// number, the one that the list of devices shows under it. A number past the end
/// of the list is reported, and so is what is no number.
pub proof fn an_index_points_at_its_device(
    selector: &str,
    bare: String,
    digits: &str,
    i: usize,
    written: String,
    names: &Vec<String>,
    r: Result<Pick, FindError>,
)
    requires
        call_ensures(find, (selector, names), r),
        call_ensures(trim, (selector,), bare),
        bare@ == seq!['@'] + digits@,
        call_ensures(number, (i as u64,), written),
    ensures
        digits@ == written@ && i < names@.len() ==> r == Ok::<Pick, FindError>(Pick::At(i)),
        digits@ == written@ && i >= names@.len() ==> r == Err::<Pick, FindError>(
            FindError::NoIndex(i),
        ),
        call_ensures(parse_number, (digits, usize::MAX as u64), None) ==> r == Err::<
            Pick,
            FindError,
        >(FindError::NotAnIndex),
{
    reveal_strlit("default");
    assert(bare@[0] == '@');
    assert(bare@.drop_first() =~= digits@);
    assert(crate::text::ascii_lowered(bare@)[0] == '@');
    assert(crate::text::ascii_lowered("default"@)[0] == 'd');
    crate::laws::text::lemma_decimal_value(i as nat);
    assert('0' <= written@[0] <= '9');
}

/// The word `default`, in either case and with white space around it or not,
/// points at the system's default.
pub proof fn the_default_is_asked_for_by_name(
    selector: &str,
    bare: String,
    word: &str,
    text: &str,
    names: &Vec<String>,
    r: Result<Pick, FindError>,
)
    requires
        call_ensures(find, (selector, names), r),
        call_ensures(trim, (selector,), bare),
        text@ == bare@,
        word@ == "default"@,
        call_ensures(same_but_for_case, (text, word), true),
    ensures
        r == Ok::<Pick, FindError>(Pick::Default),
{
}

/// A device has a part of a name, in either case.
pub open spec fn has_part(names: &Vec<String>, part: Seq<char>, i: int) -> bool {
    0 <= i < names@.len() && crate::text::has(
        crate::text::lowercase(names@[i]@),
        crate::text::lowercase(part),
    )
}

/// Any other selector is a part of a name. One device that has it is the one that
/// is meant; where none has it, or several have, that is what is said, and of
/// several, all of them in the order of the list.
pub proof fn a_part_of_a_name_points_at_its_one_device(
    selector: &str,
    bare: String,
    names: &Vec<String>,
    r: Result<Pick, FindError>,
)
    requires
        call_ensures(find, (selector, names), r),
        call_ensures(trim, (selector,), bare),
        bare@.len() == 0 || bare@[0] != '@',
        crate::text::ascii_lowered(bare@) != crate::text::ascii_lowered("default"@),
        names@.len() <= usize::MAX,
    ensures
        r matches Ok(pick) ==> {
            &&& pick matches Pick::At(i)
            &&& has_part(names, bare@, i as int)
            &&& forall|j: int| #[trigger] has_part(names, bare@, j) ==> j == i
        },
        r matches Err(e) ==> e is NoMatch || e is Many,
        r matches Err(FindError::NoMatch) ==> forall|j: int| !#[trigger] has_part(names, bare@, j),
        r matches Err(FindError::Many(places)) ==> {
            &&& places@.len() >= 2
            &&& forall|k: int| 0 <= k < places@.len() ==> has_part(names, bare@, #[trigger] places@[k] as int)
            &&& forall|j: int| #[trigger] has_part(names, bare@, j) ==> places@.contains(j as usize)
            &&& forall|k: int, l: int|
                0 <= k < l < places@.len() ==> #[trigger] places@[k] < #[trigger] places@[l]
        },
{
    crate::audio::matches_are_on_the_list(names@, bare@, names@.len());
    lemma_matching_rises(names@, bare@, names@.len());
    let found = crate::audio::matching(names@, bare@, names@.len());
    assert forall|j: int| #[trigger] has_part(names, bare@, j) implies found.contains(
        j as usize,
    ) by {
        assert(crate::audio::name_matches(names@, bare@, j));
    }
    if found.len() == 1 {
        assert forall|j: int| #[trigger] has_part(names, bare@, j) implies j == found[0] by {
            assert(found.contains(j as usize));
        }
        assert(crate::audio::name_matches(names@, bare@, found[0] as int));
    }
    if found.len() > 1 {
        assert forall|k: int| 0 <= k < found.len() implies has_part(
            names,
            bare@,
            #[trigger] found[k] as int,
        ) by {
            assert(crate::audio::name_matches(names@, bare@, found[k] as int));
        }
    }
}

proof fn lemma_matching_rises(names: Seq<String>, selector: Seq<char>, n: nat)
    requires
        n <= names.len() <= usize::MAX,
    ensures
        ({
            let found = crate::audio::matching(names, selector, n);
            &&& forall|k: int| 0 <= k < found.len() ==> #[trigger] found[k] < n
            &&& forall|k: int, l: int|
                0 <= k < l < found.len() ==> #[trigger] found[k] < #[trigger] found[l]
        }),
    decreases n,
{
    if n > 0 {
        lemma_matching_rises(names, selector, (n - 1) as nat);
        let rest = crate::audio::matching(names, selector, (n - 1) as nat);
        let found = crate::audio::matching(names, selector, n);
        assert forall|k: int| 0 <= k < rest.len() implies #[trigger] found[k] == rest[k] by {}
        assert forall|k: int, l: int| 0 <= k < l < found.len() implies #[trigger] found[k]
            < #[trigger] found[l] by {
            assert(found[k] == rest[k]);
        }
    }
}

/// A configuration is found wherever a range has samples that we read. The range
/// that is taken covers the rate if any does; has the fewest channels of those that
/// do as well in that; and has floats if any of those that do as well in both has.
/// Of equals the first is taken. The rate that is asked for is the wanted one where
/// the range covers it, and else the end of the range that is nearer.
pub proof fn a_configuration_is_the_best_on_offer(
    ranges: &Vec<ConfigRange>,
    rate: u32,
    r: Option<(usize, u32)>,
)
    requires
        call_ensures(config_for, (ranges, rate), r),
    ensures
        r is None <==> forall|i: int|
            0 <= i < ranges@.len() ==> (#[trigger] ranges@[i]).format == Format::Other,
        r matches Some((i, picked)) ==> {
            let taken = ranges@[i as int];
            &&& i < ranges@.len()
            &&& taken.format != Format::Other
            &&& taken.min_rate <= rate <= taken.max_rate ==> picked == rate
            &&& rate < taken.min_rate ==> picked == taken.min_rate
            &&& taken.min_rate <= taken.max_rate < rate ==> picked == taken.max_rate
            &&& forall|j: int|
                0 <= j < ranges@.len() && (#[trigger] ranges@[j]).format != Format::Other ==> {
                    let other = ranges@[j];
                    let covers = taken.min_rate <= rate <= taken.max_rate;
                    let other_covers = other.min_rate <= rate <= other.max_rate;
                    &&& other_covers ==> covers
                    &&& other_covers == covers ==> taken.channels <= other.channels
                    &&& other_covers == covers && taken.channels == other.channels
                        && other.format == Format::F32 ==> taken.format == Format::F32
                    &&& other_covers == covers && taken.channels == other.channels
                        && other.format == taken.format ==> i <= j
                }
        },
{
    if let Some((place, _)) = r {
        let i = place as int;
        assert forall|j: int|
            0 <= j < ranges@.len() && (#[trigger] ranges@[j]).format != Format::Other implies {
            let taken = ranges@[i];
            let other = ranges@[j];
            let covers = taken.min_rate <= rate <= taken.max_rate;
            let other_covers = other.min_rate <= rate <= other.max_rate;
            &&& other_covers ==> covers
            &&& other_covers == covers ==> taken.channels <= other.channels
            &&& other_covers == covers && taken.channels == other.channels && other.format
                == Format::F32 ==> taken.format == Format::F32
            &&& other_covers == covers && taken.channels == other.channels && other.format
                == taken.format ==> i <= j
        } by {
            assert(ranges@[j].usable());
        }
    }
    assert forall|i: int| 0 <= i < ranges@.len() implies ((#[trigger] ranges@[i]).usable()
        <==> ranges@[i].format != Format::Other) by {}
}

/// An entry of the list has the number it was made with, and the device's own name
/// where it has one; else one that shows the number. It is the default exactly
/// where it has the default device's name.
pub proof fn an_entry_describes_its_device(
    index: usize,
    name: Option<String>,
    default_name: &Option<String>,
    rate: Option<u32>,
    channels: Option<u16>,
    written: String,
    r: DeviceInfo,
)
    requires
        call_ensures(DeviceInfo::new, (index, name, default_name, rate, channels), r),
        call_ensures(number, (index as u64,), written),
    ensures
        r.index == index,
        name matches Some(n) ==> r.name@ == n@,
        name is None ==> crate::text::has(r.name@, written@),
        r.is_default <==> default_name is Some && default_name->0@ == r.name@,
        r.default_sample_rate == rate,
        r.channels == channels,
{
    if name is None {
        let (a, b) = ("<urządzenie "@, " bez nazwy>"@);
        assert(r.name@.subrange(a.len() as int, (a.len() + written@.len()) as int) =~= written@);
        assert(crate::text::stands_at(r.name@, written@, a.len() as int));
    }
}

/// A name in lower case has the name of one of the four cables that we know in it.
pub open spec fn known_cable(lowered: Seq<char>) -> bool {
    ||| crate::text::has(lowered, "cable input"@)
    ||| crate::text::has(lowered, "voicemeeter input"@)
    ||| crate::text::has(lowered, "voicemeeter aux input"@)
    ||| crate::text::has(lowered, "line 1 (virtual audio cable)"@)
}

proof fn lemma_hints()
    ensures
        forall|lowered: Seq<char>| #[trigger]
            crate::audio::sink::is_cable(lowered) <==> known_cable(lowered),
        crate::audio::sink::VIRTUAL_SINK_HINTS@.len() == 4,
        crate::audio::sink::VIRTUAL_SINK_HINTS@[0]@ == "cable input"@,
        crate::audio::sink::VIRTUAL_SINK_HINTS@[1]@ == "voicemeeter input"@,
        crate::audio::sink::VIRTUAL_SINK_HINTS@[2]@ == "voicemeeter aux input"@,
        crate::audio::sink::VIRTUAL_SINK_HINTS@[3]@ == "line 1 (virtual audio cable)"@,
{
    let hints = crate::audio::sink::VIRTUAL_SINK_HINTS@;
    assert(hints.len() == 4);
    assert(hints[0]@ == "cable input"@);
    assert(hints[1]@ == "voicemeeter input"@);
    assert(hints[2]@ == "voicemeeter aux input"@);
    assert(hints[3]@ == "line 1 (virtual audio cable)"@);
}

/// A device is taken for a virtual cable exactly where its name, in either case,
/// has the name of a known cable in it.
pub proof fn a_cable_is_known_by_its_name(name: &str, r: bool)
    ensures
        call_ensures(is_cable_name, (name,), r) ==> r == known_cable(name@),
        call_ensures(looks_like_virtual_cable, (name,), r) ==> r == known_cable(
            crate::text::lowercase(name@),
        ),
        call_ensures(looks_like_virtual_cable, (name,), r) && crate::text::all_ascii(name@) ==> r
            == known_cable(crate::text::ascii_lowered(name@)),
{
    lemma_hints();
    if crate::text::all_ascii(name@) {
        assert(crate::audio::sink::is_cable(crate::text::ascii_lowered(name@)) <==> known_cable(
            crate::text::ascii_lowered(name@),
        ));
    }
    assert(crate::audio::sink::is_cable(name@) <==> known_cable(name@));
    assert(crate::audio::sink::is_cable(crate::text::lowercase(name@)) <==> known_cable(
        crate::text::lowercase(name@),
    ));
}

proof fn lemma_first_with(lowered: Seq<Seq<char>>, hint: Seq<char>, n: nat)
    requires
        n <= lowered.len(),
    ensures
        match crate::audio::sink::first_with(lowered, hint, n) {
            Some(i) => {
                &&& i < n
                &&& crate::text::has(lowered[i as int], hint)
                &&& forall|j: int| 0 <= j < i ==> !crate::text::has(#[trigger] lowered[j], hint)
            },
            None => forall|j: int| 0 <= j < n ==> !crate::text::has(#[trigger] lowered[j], hint),
        },
    decreases n,
{
    if n > 0 {
        lemma_first_with(lowered, hint, (n - 1) as nat);
    }
}

/// The cables that are tried before one of this place are found on no device.
pub open spec fn none_has(lowered: Seq<Seq<char>>, h: nat) -> bool {
    forall|g: int, j: int|
        0 <= g < h && 0 <= j < lowered.len() ==> !crate::text::has(
            #[trigger] lowered[j],
            (#[trigger] crate::audio::sink::VIRTUAL_SINK_HINTS@[g])@,
        )
}

proof fn lemma_first_cable(lowered: Seq<Seq<char>>, h: nat)
    requires
        h <= 4,
    ensures
        match crate::audio::sink::first_cable(lowered, h) {
            Some(i) => {
                &&& i < lowered.len()
                &&& exists|g: int|
                    {
                        &&& 0 <= g < h
                        &&& none_has(lowered, g as nat)
                        &&& crate::text::has(
                            lowered[i as int],
                            (#[trigger] crate::audio::sink::VIRTUAL_SINK_HINTS@[g])@,
                        )
                        &&& forall|j: int|
                            0 <= j < i ==> !crate::text::has(
                                #[trigger] lowered[j],
                                crate::audio::sink::VIRTUAL_SINK_HINTS@[g]@,
                            )
                    }
            },
            None => none_has(lowered, h),
        },
    decreases h,
{
    if h > 0 {
        lemma_first_cable(lowered, (h - 1) as nat);
        lemma_first_with(
            lowered,
            crate::audio::sink::VIRTUAL_SINK_HINTS@[h - 1]@,
            lowered.len(),
        );
        if crate::audio::sink::first_cable(lowered, (h - 1) as nat) is None {
            let g = (h - 1) as int;
            assert(none_has(lowered, g as nat));
            assert(crate::audio::sink::VIRTUAL_SINK_HINTS@[g]@
                == crate::audio::sink::VIRTUAL_SINK_HINTS@[h - 1]@);
        }
    }
}

/// A cable is found exactly where some device has the name of a known one. The
/// device that is taken has such a name, no device has one that is tried earlier,
/// and no earlier device has the same.
#[verifier::rlimit(50)]
pub proof fn the_first_known_cable_is_taken(
    names: &Vec<String>,
    lowered: &Vec<String>,
    r: Option<usize>,
)
    requires
        call_ensures(open_cable, (names,), r) || call_ensures(pick_cable, (lowered,), r),
        lowered@.len() == names@.len(),
        forall|i: int|
            0 <= i < names@.len() ==> (#[trigger] lowered@[i])@ == crate::text::lowercase(
                names@[i]@,
            ),
    ensures
        r is Some <==> exists|i: int|
            0 <= i < lowered@.len() && known_cable((#[trigger] lowered@[i])@),
        r matches Some(i) ==> {
            let mine = lowered@[i as int]@;
            &&& i < lowered@.len()
            &&& known_cable(mine)
            &&& forall|j: int|
                0 <= j < lowered@.len() ==> {
                    let other = (#[trigger] lowered@[j])@;
                    &&& crate::text::has(other, "cable input"@) ==> crate::text::has(
                        mine,
                        "cable input"@,
                    ) && i <= j
                    &&& crate::text::has(other, "voicemeeter input"@) ==> crate::text::has(
                        mine,
                        "cable input"@,
                    ) || (crate::text::has(mine, "voicemeeter input"@) && i <= j)
                    &&& crate::text::has(other, "voicemeeter aux input"@) ==> crate::text::has(
                        mine,
                        "cable input"@,
                    ) || crate::text::has(mine, "voicemeeter input"@) || (crate::text::has(
                        mine,
                        "voicemeeter aux input"@,
                    ) && i <= j)
                    &&& crate::text::has(other, "line 1 (virtual audio cable)"@) ==> known_cable(
                        mine,
                    ) && (crate::text::has(mine, "cable input"@) || crate::text::has(
                        mine,
                        "voicemeeter input"@,
                    ) || crate::text::has(mine, "voicemeeter aux input"@) || i <= j)
                }
        },
{
    lemma_hints();
    let all = crate::text::views(lowered@);
    assert(all =~= crate::audio::sink::all_lowered(names@));
    assert forall|i: int| 0 <= i < all.len() implies #[trigger] all[i] == lowered@[i]@ by {}
    lemma_first_cable(all, 4);
    let hints = crate::audio::sink::VIRTUAL_SINK_HINTS@;
    if r is Some {
        let i = r->0 as int;
        let g = choose|g: int|
            {
                &&& 0 <= g < 4
                &&& none_has(all, g as nat)
                &&& crate::text::has(all[i], (#[trigger] hints[g])@)
                &&& forall|j: int| 0 <= j < i ==> !crate::text::has(#[trigger] all[j], hints[g]@)
            };
        assert(g == 0 || g == 1 || g == 2 || g == 3);
        assert(crate::text::has(all[i], hints[g]@));
        assert(known_cable(lowered@[i]@));
        assert forall|j: int| 0 <= j < lowered@.len() implies {
            let mine = lowered@[i]@;
            let other = (#[trigger] lowered@[j])@;
            &&& crate::text::has(other, hints[0]@) ==> crate::text::has(mine, hints[0]@) && i <= j
            &&& crate::text::has(other, hints[1]@) ==> crate::text::has(mine, hints[0]@) || (
            crate::text::has(mine, hints[1]@) && i <= j)
            &&& crate::text::has(other, hints[2]@) ==> crate::text::has(mine, hints[0]@)
                || crate::text::has(mine, hints[1]@) || (crate::text::has(mine, hints[2]@) && i
                <= j)
            &&& crate::text::has(other, hints[3]@) ==> crate::text::has(mine, hints[0]@)
                || crate::text::has(mine, hints[1]@) || crate::text::has(mine, hints[2]@) || i <= j
        } by {
            assert(all[j] == lowered@[j]@);
        }
    } else {
        assert forall|i: int| 0 <= i < lowered@.len() implies !known_cable(
            (#[trigger] lowered@[i])@,
        ) by {
            assert(all[i] == lowered@[i]@);
            assert(!crate::text::has(all[i], hints[0]@));
            assert(!crate::text::has(all[i], hints[1]@));
            assert(!crate::text::has(all[i], hints[2]@));
            assert(!crate::text::has(all[i], hints[3]@));
        }
    }
}

/// A selector asks for a sink by a word, in either case and with white space around
/// it or not: `virtual` for a node of our own, `auto` for the same on Linux and for
/// a cable elsewhere, `device` for the system's default. Anything else is a
/// selector of a device, as it stands. Off Linux, `virtual` alone stands no chance.
pub proof fn a_sink_is_asked_for_by_a_word(
    selector: &str,
    bare: String,
    on_linux: bool,
    plan: SinkPlan,
    chance: Result<(), &'static str>,
)
    requires
        call_ensures(trim, (selector,), bare),
        call_ensures(sink_plan, (selector, on_linux), plan),
        call_ensures(validate, (selector, on_linux), chance),
    ensures
        ({
            let word = crate::text::ascii_lowered(bare@);
            &&& word == "virtual"@ ==> plan is Virtual
            &&& word == "auto"@ && on_linux ==> plan is Virtual
            &&& word == "auto"@ && !on_linux ==> plan is Cable
            &&& word == "device"@ ==> (plan matches SinkPlan::Device(d) && d@ == "default"@)
            &&& word != "virtual"@ && word != "auto"@ && word != "device"@ ==> (
            plan matches SinkPlan::Device(d) && d@ == bare@)
            &&& chance is Err <==> !on_linux && word == "virtual"@
        }),
{
    reveal_strlit("virtual");
    reveal_strlit("auto");
    reveal_strlit("device");
    assert(crate::text::ascii_lowered("virtual"@) =~= "virtual"@);
    assert(crate::text::ascii_lowered("auto"@) =~= "auto"@);
    assert(crate::text::ascii_lowered("device"@) =~= "device"@);
    assert("virtual"@.len() == 7 && "auto"@.len() == 4 && "device"@.len() == 6);
}

/// The advice about the cable's buffer is given for VB-CABLE, known by its name in
/// either case, and for no other sink.
pub proof fn only_one_cable_gets_the_advice(name: &str, r: Option<&'static str>)
    ensures
        call_ensures(hint_for, (name,), r) ==> (r is Some <==> crate::text::has(
            name@,
            "cable input"@,
        )),
        call_ensures(latency_hint, (name,), r) ==> (r is Some <==> crate::text::has(
            crate::text::lowercase(name@),
            "cable input"@,
        )),
{
}

/// Each of the texts that are joined stands in the result.
pub proof fn lemma_joined_has(parts: Seq<Seq<char>>, sep: Seq<char>, i: int)
    requires
        0 <= i < parts.len(),
    ensures
        crate::text::has(crate::text::joined(parts, sep), parts[i]),
    decreases parts.len(),
{
    let all = crate::text::joined(parts, sep);
    if parts.len() == 1 {
        assert(all.subrange(0, all.len() as int) =~= parts[0]);
        assert(crate::text::stands_at(all, parts[i], 0));
    } else {
        let less = crate::text::joined(parts.drop_last(), sep);
        if i == parts.len() - 1 {
            let at = (less.len() + sep.len()) as int;
            assert(all.subrange(at, at + parts.last().len()) =~= parts.last());
            assert(crate::text::stands_at(all, parts[i], at));
        } else {
            lemma_joined_has(parts.drop_last(), sep, i);
            let at = choose|at: int| crate::text::stands_at(less, parts[i], at);
            assert(parts.drop_last()[i] == parts[i]);
            assert(all.subrange(at, at + parts[i].len()) =~= less.subrange(
                at,
                at + parts[i].len(),
            ));
            assert(crate::text::stands_at(all, parts[i], at));
        }
    }
}

/// What stands in a text stands in every text that ends in it.
pub proof fn lemma_has_in_the_end(front: Seq<char>, s: Seq<char>, part: Seq<char>)
    requires
        crate::text::has(s, part),
    ensures
        crate::text::has(front + s, part),
{
    let at = choose|at: int| crate::text::stands_at(s, part, at);
    let all = front + s;
    assert(all.subrange(front.len() + at, front.len() + at + part.len()) =~= s.subrange(
        at,
        at + part.len(),
    ));
    assert(crate::text::stands_at(all, part, front.len() + at));
}

/// Where no cable is found, every output device there is is named.
pub proof fn every_device_is_named_where_no_cable_is(names: &Vec<String>, r: String, i: int)
    requires
        call_ensures(no_cable, (names,), r),
        0 <= i < names@.len(),
    ensures
        crate::text::has(r@, names@[i]@),
{
    let parts = crate::text::views(names@);
    lemma_joined_has(parts, "\n  "@, i);
    lemma_has_in_the_end(
        crate::audio::sink::NO_CABLE@,
        crate::text::joined(parts, "\n  "@),
        parts[i],
    );
}

/// A selector that points at nothing is answered with the names to choose from: all
/// of them where none matches, and those that match where several do.
pub proof fn the_choice_is_named(
    e: FindError,
    selector: &str,
    dir: Direction,
    names: &Vec<String>,
    lang: Lang,
    r: String,
)
    requires
        call_ensures(FindError::message, (&e, selector, dir, names, lang), r),
    ensures
        e is NoMatch ==> forall|i: int|
            0 <= i < names@.len() ==> crate::text::has(r@, (#[trigger] names@[i])@),
        e matches FindError::Many(places) ==> forall|k: int|
            0 <= k < places@.len() ==> crate::text::has(
                r@,
                names@[#[trigger] places@[k] as int]@,
            ),
{
    let bare = crate::text::trimmed(selector@);
    let label = crate::i18n::catalog::text_of(dir.key(), lang);
    if e is NoMatch {
        let parts = crate::text::views(names@);
        let front = "żadne urządzenie "@ + label + " nie pasuje do `"@ + bare + "`. Dostępne:\n  "@;
        assert forall|i: int| 0 <= i < names@.len() implies crate::text::has(
            r@,
            (#[trigger] names@[i])@,
        ) by {
            lemma_joined_has(parts, "\n  "@, i);
            lemma_has_in_the_end(front, crate::text::joined(parts, "\n  "@), parts[i]);
        }
    }
    if let FindError::Many(places) = e {
        let parts = places@.map_values(|i: usize| names@[i as int]@);
        let front = "`"@ + bare + "` pasuje do "@ + crate::text::decimal(places@.len())
            + " urządzeń, doprecyzuj:\n  "@;
        assert forall|k: int| 0 <= k < places@.len() implies crate::text::has(
            r@,
            names@[#[trigger] places@[k] as int]@,
        ) by {
            lemma_joined_has(parts, "\n  "@, k);
            lemma_has_in_the_end(front, crate::text::joined(parts, "\n  "@), parts[k]);
        }
    }
}

} // verus!
