//! Which device, and in which configuration.
//!
//! Everything above this layer works in mono at 48 kHz. Sample rate is a
//! preference, not a demand: whoever opens a device learns what it actually
//! gave, and the engine resamples the difference away.
use vstd::prelude::*;

use crate::i18n::{t, t1, t2, Key, Lang};
use crate::text::{
    append, chars_of, contains, number, parse_number, push_joined, push_number, same,
    same_but_for_case, string_of, to_lowercase, trim,
};

pub mod sink;

verus! {

#[derive(Debug, Clone, Copy, PartialEq, Eq, Structural)]
pub enum Direction {
    Input,
    Output,
}

impl Direction {
    /// The key of the direction's name.
    pub open spec fn key(self) -> Key {
        match self {
            Direction::Input => Key::ErrDirIn,
            Direction::Output => Key::ErrDirOut,
        }
    }

    /// The direction's name, as it stands in error messages.
    pub fn label(self, lang: Lang) -> (r: &'static str)
        ensures
            r@ == crate::i18n::catalog::text_of(self.key(), lang),
    {
        match self {
            Direction::Input => t(Key::ErrDirIn, lang),
            Direction::Output => t(Key::ErrDirOut, lang),
        }
    }
}

/// A device as it stands on the list.
#[derive(Debug)]
pub struct DeviceInfo {
    pub index: usize,
    pub name: String,
    pub is_default: bool,
    /// None when the device refuses to describe itself, which happens with
    /// half-disconnected USB gear.
    pub default_sample_rate: Option<u32>,
    pub channels: Option<u16>,
}

/// The name of a device, or one made up for a device that does not say.
pub open spec fn device_name(index: usize, name: Option<Seq<char>>) -> Seq<char> {
    match name {
        Some(n) => n,
        None => "<urządzenie "@ + crate::text::decimal(index as nat) + " bez nazwy>"@,
    }
}

/// The view of an optional text.
pub open spec fn maybe(s: Option<String>) -> Option<Seq<char>> {
    match s {
        Some(s) => Some(s@),
        None => None,
    }
}

impl DeviceInfo {
    /// One entry of the list. The default device is the one of the default
    /// device's name.
    pub fn new(
        index: usize,
        name: Option<String>,
        default_name: &Option<String>,
        default_sample_rate: Option<u32>,
        channels: Option<u16>,
    ) -> (r: Self)
        ensures
            r.index == index,
            r.name@ == device_name(index, maybe(name)),
            r.is_default == (maybe(*default_name) == Some(r.name@)),
            r.default_sample_rate == default_sample_rate,
            r.channels == channels,
    {
        let name = match name {
            Some(n) => n,
            None => {
                let mut made = String::new();
                append(&mut made, "<urządzenie ");
                push_number(&mut made, index as u64);
                append(&mut made, " bez nazwy>");
                assert(made@ =~= device_name(index, None));
                made
            },
        };
        let is_default: bool = match default_name {
            Some(d) => same(d.as_str(), name.as_str()),
            None => false,
        };
        DeviceInfo { index, name, is_default, default_sample_rate, channels }
    }
}

/// What a selector points at.
#[derive(Debug, Clone, Copy, PartialEq, Eq, Structural)]
pub enum Pick {
    /// The system default.
    Default,
    /// The device at this place of the list.
    At(usize),
}

/// Why a selector points at nothing.
#[derive(Debug)]
pub enum FindError {
    /// There is no system default.
    NoDefault,
    /// What follows the at sign is no number.
    NotAnIndex,
    /// There is no device of this number.
    NoIndex(usize),
    /// No name matches.
    NoMatch,
    /// These names match, and there are several.
    Many(Vec<usize>),
}

/// The name at a place matches a selector: the selector stands in it, whatever
/// the case.
pub open spec fn name_matches(names: Seq<String>, selector: Seq<char>, i: int) -> bool {
    crate::text::has(crate::text::lowercase(names[i]@), crate::text::lowercase(selector))
}

/// The places of the first `n` names that match.
pub open spec fn matching(names: Seq<String>, selector: Seq<char>, n: nat) -> Seq<usize>
    decreases n,
{
    if n == 0 {
        Seq::empty()
    } else {
        let rest = matching(names, selector, (n - 1) as nat);
        if name_matches(names, selector, n - 1) {
            rest.push((n - 1) as usize)
        } else {
            rest
        }
    }
}

/// What a selector without white space around it comes to, among these names.
pub open spec fn resolves(
    selector: Seq<char>,
    names: Seq<String>,
    r: Result<Pick, FindError>,
) -> bool {
    if crate::text::ascii_lowered(selector) == crate::text::ascii_lowered("default"@) {
        r == Ok::<Pick, FindError>(Pick::Default)
    } else if selector.len() > 0 && selector[0] == '@' {
        match crate::text::parsed(selector.drop_first(), usize::MAX as u64) {
            None => r == Err::<Pick, FindError>(FindError::NotAnIndex),
            Some(i) => if i < names.len() {
                r == Ok::<Pick, FindError>(Pick::At(i as usize))
            } else {
                r == Err::<Pick, FindError>(FindError::NoIndex(i as usize))
            },
        }
    } else {
        let found = matching(names, selector, names.len());
        if found.len() == 0 {
            r == Err::<Pick, FindError>(FindError::NoMatch)
        } else if found.len() == 1 {
            r == Ok::<Pick, FindError>(Pick::At(found[0]))
        } else {
            r matches Err(FindError::Many(places)) && places@ == found
        }
    }
}

/// Resolve a user-supplied selector to a device.
///
/// Accepted forms, in this order:
///   `default`     the system default
///   `@3`          index from the list of devices
///   `yeti`        case-insensitive substring of the name
///
/// Substring matching is what keeps the selector stable across reboots: index
/// numbers move when USB gear is replugged, names do not.
pub fn find(selector: &str, names: &Vec<String>) -> (r: Result<Pick, FindError>)
    ensures
        resolves(crate::text::trimmed(selector@), names@, r),
{
    let bare = trim(selector);
    if same_but_for_case(bare.as_str(), "default") {
        return Ok(Pick::Default);
    }
    let chars = chars_of(bare.as_str());
    if chars.len() > 0 && chars[0] == '@' {
        let digits = tail_of(&chars);
        let rest = string_of(digits.as_slice());
        assert(rest@ =~= bare@.drop_first());
        return match parse_number(rest.as_str(), usize::MAX as u64) {
            None => Err(FindError::NotAnIndex),
            Some(i) => if i < names.len() as u64 {
                Ok(Pick::At(i as usize))
            } else {
                Err(FindError::NoIndex(i as usize))
            },
        };
    }
    let needle = to_lowercase(bare.as_str());
    let mut found: Vec<usize> = Vec::new();
    let mut i: usize = 0;
    while i < names.len()
        invariant
            i <= names@.len(),
            needle@ == crate::text::lowercase(bare@),
            found@ == matching(names@, bare@, i as nat),
        decreases names@.len() - i,
    {
        let name = to_lowercase(names[i].as_str());
        if contains(name.as_str(), needle.as_str()) {
            found.push(i);
        }
        i += 1;
    }
    if found.len() == 0 {
        Err(FindError::NoMatch)
    } else if found.len() == 1 {
        Ok(Pick::At(found[0]))
    } else {
        Err(FindError::Many(found))
    }
}

/// All characters but the first.
fn tail_of(chars: &Vec<char>) -> (r: Vec<char>)
    requires
        chars@.len() > 0,
    ensures
        r@ == chars@.drop_first(),
{
    let mut out: Vec<char> = Vec::new();
    let mut i: usize = 1;
    while i < chars.len()
        invariant
            1 <= i <= chars@.len(),
            out@ == chars@.subrange(1, i as int),
        decreases chars@.len() - i,
    {
        out.push(chars[i]);
        assert(out@ =~= chars@.subrange(1, i + 1));
        i += 1;
    }
    assert(out@ =~= chars@.drop_first());
    out
}

impl FindError {
    /// The error in words, for the selector, the direction and the names among
    /// which it was looked for.
    pub open spec fn text(
        self,
        selector: Seq<char>,
        dir: Direction,
        names: Seq<String>,
        lang: Lang,
    ) -> Seq<char> {
        let label = crate::i18n::catalog::text_of(dir.key(), lang);
        match self {
            FindError::NoDefault => crate::i18n::filled(
                crate::i18n::catalog::text_of(Key::ErrNoDefault, lang),
                seq![label],
            ),
            FindError::NotAnIndex => "`"@ + selector + "` nie jest indeksem urządzenia"@,
            FindError::NoIndex(i) => crate::i18n::filled(
                crate::i18n::catalog::text_of(Key::ErrNoDeviceIdx, lang),
                seq![label, crate::text::decimal(i as nat)],
            ),
            FindError::NoMatch => "żadne urządzenie "@ + label + " nie pasuje do `"@ + selector
                + "`. Dostępne:\n  "@ + crate::text::joined(crate::text::views(names), "\n  "@),
            FindError::Many(places) => "`"@ + selector + "` pasuje do "@ + crate::text::decimal(
                places@.len(),
            ) + " urządzeń, doprecyzuj:\n  "@ + crate::text::joined(
                places@.map_values(|i: usize| names[i as int]@),
                "\n  "@,
            ),
        }
    }

    /// The error in words.
    pub fn message(&self, selector: &str, dir: Direction, names: &Vec<String>, lang: Lang) -> (r:
        String)
        requires
            self matches FindError::Many(places) ==> forall|k: int|
                0 <= k < places@.len() ==> #[trigger] places@[k] < names@.len(),
        ensures
            r@ == self.text(crate::text::trimmed(selector@), dir, names@, lang),
    {
        let bare = trim(selector);
        let mut out = String::new();
        match self {
            FindError::NoDefault => {
                return t1(Key::ErrNoDefault, lang, dir.label(lang));
            },
            FindError::NotAnIndex => {
                append(&mut out, "`");
                append(&mut out, bare.as_str());
                append(&mut out, "` nie jest indeksem urządzenia");
            },
            FindError::NoIndex(i) => {
                let n = number(*i as u64);
                return t2(Key::ErrNoDeviceIdx, lang, dir.label(lang), n.as_str());
            },
            FindError::NoMatch => {
                append(&mut out, "żadne urządzenie ");
                append(&mut out, dir.label(lang));
                append(&mut out, " nie pasuje do `");
                append(&mut out, bare.as_str());
                append(&mut out, "`. Dostępne:\n  ");
                push_joined(&mut out, names, "\n  ");
            },
            FindError::Many(places) => {
                append(&mut out, "`");
                append(&mut out, bare.as_str());
                append(&mut out, "` pasuje do ");
                push_number(&mut out, places.len() as u64);
                append(&mut out, " urządzeń, doprecyzuj:\n  ");
                let mut chosen: Vec<String> = Vec::new();
                let mut k: usize = 0;
                while k < places.len()
                    invariant
                        k <= places@.len(),
                        forall|k: int| 0 <= k < places@.len() ==> #[trigger] places@[k] < names@.len(),
                        crate::text::views(chosen@) == places@.take(k as int).map_values(
                            |i: usize| names@[i as int]@,
                        ),
                    decreases places@.len() - k,
                {
                    let ghost before = crate::text::views(chosen@);
                    chosen.push(names[places[k]].clone());
                    proof {
                        assert(crate::text::views(chosen@) =~= before.push(
                            names@[places@[k as int] as int]@,
                        ));
                        assert(places@.take(k + 1).map_values(|i: usize| names@[i as int]@)
                            =~= before.push(names@[places@[k as int] as int]@));
                    }
                    k += 1;
                }
                assert(places@.take(k as int) =~= places@);
                push_joined(&mut out, &chosen, "\n  ");
            },
        }
        assert(out@ =~= self.text(bare@, dir, names@, lang));
        out
    }
}

/// Places that match are places on the list, each matches, and no match is left
/// out.
pub proof fn matches_are_on_the_list(names: Seq<String>, selector: Seq<char>, n: nat)
    requires
        n <= names.len() <= usize::MAX,
    ensures
        forall|k: int|
            0 <= k < matching(names, selector, n).len() ==> (#[trigger] matching(
                names,
                selector,
                n,
            )[k]) < n && name_matches(names, selector, matching(names, selector, n)[k] as int),
        forall|i: int|
            0 <= i < n && name_matches(names, selector, i) ==> #[trigger] matching(
                names,
                selector,
                n,
            ).contains(i as usize),
    decreases n,
{
    if n > 0 {
        let rest = matching(names, selector, (n - 1) as nat);
        matches_are_on_the_list(names, selector, (n - 1) as nat);
        let all = matching(names, selector, n);
        assert forall|i: int|
            0 <= i < n && name_matches(names, selector, i) implies #[trigger] all.contains(
            i as usize,
        ) by {
            if i == n - 1 {
                assert(all.last() == i as usize);
            } else {
                assert(rest.contains(i as usize));
                let k = rest.index_of(i as usize);
                assert(all[k] == i as usize);
            }
        }
    }
}

/// What a selector is resolved to is on the list, and where a selector names
/// several devices, so is each of them.
pub proof fn what_is_found_is_on_the_list(
    selector: Seq<char>,
    names: Seq<String>,
    r: Result<Pick, FindError>,
)
    requires
        resolves(selector, names, r),
        names.len() <= usize::MAX,
    ensures
        r matches Ok(Pick::At(i)) ==> i < names.len(),
        r matches Err(FindError::Many(places)) ==> places@.len() > 1 && forall|k: int|
            0 <= k < places@.len() ==> #[trigger] places@[k] < names.len(),
{
    matches_are_on_the_list(names, selector, names.len());
}

/// How samples are stored.
#[derive(Debug, Clone, Copy, PartialEq, Eq, Structural)]
pub enum Format {
    F32,
    I16,
    /// One that we do not read.
    Other,
}

/// A range of configurations that a device offers.
#[derive(Debug, Clone, Copy, PartialEq, Eq, Structural)]
pub struct ConfigRange {
    pub min_rate: u32,
    pub max_rate: u32,
    pub channels: u16,
    pub format: Format,
}

impl ConfigRange {
    /// Whether we read its samples.
    pub open spec fn usable(self) -> bool {
        self.format != Format::Other
    }

    /// Whether it covers a rate.
    pub open spec fn covers(self, rate: u32) -> bool {
        self.min_rate <= rate <= self.max_rate
    }

    /// This range is to be preferred over another: it covers the rate and the
    /// other does not, or it has fewer channels (mono input costs no downmix),
    /// or it is of floats and the other is not.
    pub open spec fn better(self, other: ConfigRange, rate: u32) -> bool {
        if self.covers(rate) != other.covers(rate) {
            self.covers(rate)
        } else if self.channels != other.channels {
            self.channels < other.channels
        } else {
            self.format == Format::F32 && other.format != Format::F32
        }
    }

    fn is_usable(&self) -> (r: bool)
        ensures
            r == self.usable(),
    {
        match self.format {
            Format::Other => false,
            _ => true,
        }
    }

    fn is_better(&self, other: &ConfigRange, rate: u32) -> (r: bool)
        ensures
            r == self.better(*other, rate),
    {
        let mine: bool = self.min_rate <= rate && rate <= self.max_rate;
        let theirs: bool = other.min_rate <= rate && rate <= other.max_rate;
        if mine != theirs {
            mine
        } else if self.channels != other.channels {
            self.channels < other.channels
        } else {
            self.format == Format::F32 && other.format != Format::F32
        }
    }
}

/// The range at a place is the one to take: no usable range is better, and no
/// earlier one as good.
pub open spec fn best(ranges: Seq<ConfigRange>, rate: u32, i: int) -> bool {
    &&& 0 <= i < ranges.len()
    &&& ranges[i].usable()
    &&& forall|j: int|
        0 <= j < ranges.len() && (#[trigger] ranges[j]).usable() ==> !ranges[j].better(
            ranges[i],
            rate,
        ) && (j < i ==> ranges[i].better(ranges[j], rate))
}

/// Pick a device configuration, preferring `rate` but never insisting on it:
/// gives the place of the range and the rate to ask for.
///
/// The engine resamples at its edges, so a device that only offers 44.1 kHz is a
/// routine case rather than an error; telling a user to go and change their
/// sound settings was never an acceptable answer.
///
/// Preference order: the requested rate, then fewest channels, then f32 over
/// i16. A device that offers nothing we read gives none.
pub fn config_for(ranges: &Vec<ConfigRange>, rate: u32) -> (r: Option<(usize, u32)>)
    requires
        forall|i: int| #[trigger]
            best(ranges@, rate, i) ==> ranges@[i].min_rate <= ranges@[i].max_rate,
    ensures
        r is None <==> forall|i: int| 0 <= i < ranges@.len() ==> !(#[trigger] ranges@[i]).usable(),
        r matches Some((i, picked)) ==> {
            &&& best(ranges@, rate, i as int)
            &&& picked == if rate < ranges@[i as int].min_rate {
                ranges@[i as int].min_rate
            } else if rate > ranges@[i as int].max_rate {
                ranges@[i as int].max_rate
            } else {
                rate
            }
        },
{
    let mut chosen: Option<usize> = None;
    let mut i: usize = 0;
    while i < ranges.len()
        invariant
            i <= ranges@.len(),
            chosen is None ==> forall|j: int| 0 <= j < i ==> !(#[trigger] ranges@[j]).usable(),
            chosen matches Some(c) ==> c < i && best(ranges@.take(i as int), rate, c as int),
        decreases ranges@.len() - i,
    {
        let next: ConfigRange = ranges[i];
        let ghost before = ranges@.take(i as int);
        let ghost after = ranges@.take(i + 1);
        proof {
            assert forall|j: int| 0 <= j < i implies before[j] == after[j] by {}
            assert(after[i as int] == next);
        }
        if next.is_usable() {
            match chosen {
                None => {
                    chosen = Some(i);
                    assert(best(after, rate, i as int));
                },
                Some(c) => {
                    if next.is_better(&ranges[c], rate) {
                        chosen = Some(i);
                        proof {
                            assert forall|j: int|
                                0 <= j < after.len() && (#[trigger] after[j]).usable() implies
                                !after[j].better(after[i as int], rate) && (j < i
                                ==> after[i as int].better(after[j], rate)) by {
                                if j < i {
                                    assert(before[j].usable());
                                }
                            }
                            assert(best(after, rate, i as int));
                        }
                    } else {
                        proof {
                            assert forall|j: int|
                                0 <= j < after.len() && (#[trigger] after[j]).usable() implies
                                !after[j].better(after[c as int], rate) && (j < c
                                ==> after[c as int].better(after[j], rate)) by {
                                if j < i {
                                    assert(before[j].usable());
                                }
                            }
                            assert(best(after, rate, c as int));
                        }
                    }
                },
            }
        } else {
            proof {
                if chosen is Some {
                    let c = chosen->0;
                    assert forall|j: int|
                        0 <= j < after.len() && (#[trigger] after[j]).usable() implies
                        !after[j].better(after[c as int], rate) && (j < c
                        ==> after[c as int].better(after[j], rate)) by {
                        assert(before[j].usable());
                    }
                    assert(best(after, rate, c as int));
                }
            }
        }
        i += 1;
    }
    assert(ranges@.take(i as int) =~= ranges@);
    match chosen {
        None => None,
        Some(c) => {
            let r: ConfigRange = ranges[c];
            let picked: u32 = if rate < r.min_rate {
                r.min_rate
            } else if rate > r.max_rate {
                r.max_rate
            } else {
                rate
            };
            assert(ranges@[c as int].usable());
            Some((c, picked))
        },
    }
}

/// A device that offers the requested rate at all is opened at that rate.
pub proof fn an_offered_rate_is_taken(ranges: Seq<ConfigRange>, rate: u32, i: int, j: int)
    requires
        best(ranges, rate, i),
        0 <= j < ranges.len(),
        ranges[j].usable(),
        ranges[j].covers(rate),
    ensures
        ranges[i].covers(rate),
{
}

/// The complaint about a device that offers nothing we read.
pub fn no_format(name: &str, lang: Lang) -> (r: String)
    ensures
        r@ == crate::i18n::filled(
            crate::i18n::catalog::text_of(Key::ErrNoFormat, lang),
            seq![name@],
        ),
{
    t1(Key::ErrNoFormat, lang, name)
}

} // verus!
