//! A map from names to values that keeps its names in order.
use vstd::prelude::*;

use crate::text::{comes_before, same};

verus! {

/// Names in order, none of which occurs twice.
pub open spec fn in_order<V>(entries: Seq<(Seq<char>, V)>) -> bool {
    forall|i: int, j: int|
        0 <= i < j < entries.len() ==> crate::text::precedes(entries[i].0, entries[j].0)
}

/// An entry of this name stands at a place.
pub open spec fn stands_at<V>(entries: Seq<(Seq<char>, V)>, name: Seq<char>, i: int) -> bool {
    0 <= i < entries.len() && entries[i].0 == name
}

/// What the entries hold.
pub open spec fn held<V>(entries: Seq<(Seq<char>, V)>) -> Map<Seq<char>, V> {
    Map::new(
        |name: Seq<char>| exists|i: int| stands_at(entries, name, i),
        |name: Seq<char>| entries[choose|i: int| stands_at(entries, name, i)].1,
    )
}

/// In ordered entries a name stands at one place only, and holds the value there.
pub proof fn lemma_held<V>(entries: Seq<(Seq<char>, V)>, i: int)
    requires
        in_order(entries),
        0 <= i < entries.len(),
    ensures
        held(entries).contains_key(entries[i].0),
        held(entries)[entries[i].0] == entries[i].1,
        forall|j: int| stands_at(entries, entries[i].0, j) ==> j == i,
{
    assert(stands_at(entries, entries[i].0, i));
    assert forall|j: int| stands_at(entries, entries[i].0, j) implies j == i by {
        if j < i {
            crate::text::lemma_precedes_total(entries[j].0, entries[i].0);
        } else if i < j {
            crate::text::lemma_precedes_total(entries[i].0, entries[j].0);
        }
    }
}

/// What entries hold when they are taken in one after the other.
pub open spec fn taken_in<V>(entries: Seq<(Seq<char>, V)>) -> Map<Seq<char>, V>
    decreases entries.len(),
{
    if entries.len() == 0 {
        Map::empty()
    } else {
        taken_in(entries.drop_last()).insert(entries.last().0, entries.last().1)
    }
}

/// Ordered entries, taken in one after the other, give what they hold.
pub proof fn lemma_taken_in<V>(entries: Seq<(Seq<char>, V)>)
    requires
        in_order(entries),
    ensures
        taken_in(entries) == held(entries),
    decreases entries.len(),
{
    if entries.len() == 0 {
        assert(held(entries) =~= Map::empty());
    } else {
        let rest = entries.drop_last();
        let (n, v) = entries.last();
        let last = entries.len() - 1;
        lemma_taken_in(rest);
        lemma_held(entries, last);
        assert forall|x: Seq<char>| #[trigger]
            held(entries).contains_key(x) <==> held(rest).insert(n, v).contains_key(x) by {
            if held(entries).contains_key(x) {
                let j = choose|j: int| stands_at(entries, x, j);
                if j < last {
                    assert(stands_at(rest, x, j));
                }
            }
            if held(rest).contains_key(x) {
                let j = choose|j: int| stands_at(rest, x, j);
                assert(stands_at(entries, x, j));
            }
        }
        assert forall|x: Seq<char>| #[trigger] held(entries).contains_key(x) implies held(entries)[x]
            == held(rest).insert(n, v)[x] by {
            let j = choose|j: int| stands_at(entries, x, j);
            lemma_held(entries, j);
            if j < last {
                lemma_held(rest, j);
                crate::text::lemma_precedes_total(entries[j].0, n);
            }
        }
        assert(held(entries) =~= held(rest).insert(n, v));
    }
}

/// A name and its value.
#[derive(Debug)]
pub struct Entry<V> {
    pub name: String,
    pub value: V,
}

/// The names of some entries, by their characters, with the values.
pub open spec fn pairs<V>(entries: Seq<Entry<V>>) -> Seq<(Seq<char>, V)> {
    entries.map_values(|e: Entry<V>| (e.name@, e.value))
}

/// A map from names to values.
#[derive(Debug)]
pub struct NameMap<V> {
    entries: Vec<Entry<V>>,
}

impl<V> View for NameMap<V> {
    type V = Map<Seq<char>, V>;

    closed spec fn view(&self) -> Map<Seq<char>, V> {
        held(pairs(self.entries@))
    }
}

impl<V> NameMap<V> {
    /// The entries stand in order.
    pub closed spec fn wf(&self) -> bool {
        in_order(pairs(self.entries@))
    }

    /// The entries, in the order of their names.
    pub closed spec fn listed(&self) -> Seq<(Seq<char>, V)> {
        pairs(self.entries@)
    }

    /// A map that holds nothing.
    pub fn new() -> (r: Self)
        ensures
            r.wf(),
            r@ == Map::<Seq<char>, V>::empty(),
            r.listed() == Seq::<(Seq<char>, V)>::empty(),
    {
        let r = NameMap { entries: Vec::new() };
        assert(pairs(r.entries@) =~= Seq::empty());
        assert(r@ =~= Map::empty());
        r
    }

    /// How many entries come before a name.
    fn rank(&self, name: &str) -> (i: usize)
        requires
            self.wf(),
        ensures
            i <= self.entries@.len(),
            forall|j: int|
                0 <= j < i ==> crate::text::precedes(#[trigger] pairs(self.entries@)[j].0, name@),
            forall|j: int|
                i <= j < self.entries@.len() ==> !crate::text::precedes(
                    #[trigger] pairs(self.entries@)[j].0,
                    name@,
                ),
    {
        let ghost all = pairs(self.entries@);
        let mut i: usize = 0;
        while i < self.entries.len() && comes_before(self.entries[i].name.as_str(), name)
            invariant
                i <= self.entries@.len(),
                all == pairs(self.entries@),
                forall|j: int| 0 <= j < i ==> crate::text::precedes(#[trigger] all[j].0, name@),
            decreases self.entries@.len() - i,
        {
            i += 1;
        }
        proof {
            assert forall|j: int| i <= j < all.len() implies !crate::text::precedes(
                #[trigger] all[j].0,
                name@,
            ) by {
                assert(all[i as int].0 == self.entries@[i as int].name@);
                if i < j && crate::text::precedes(all[j].0, name@) {
                    crate::text::lemma_precedes_trans(all[i as int].0, all[j].0, name@);
                }
            }
        }
        i
    }

    /// The place of a name, if it is there, or the place where it belongs.
    fn search(&self, name: &str) -> (r: Result<usize, usize>)
        requires
            self.wf(),
        ensures
            r matches Ok(i) ==> i < self.entries@.len() && pairs(self.entries@)[i as int].0 == name@,
            r is Ok <==> self@.contains_key(name@),
            r matches Err(i) ==> {
                &&& i <= self.entries@.len()
                &&& forall|j: int|
                    0 <= j < i ==> crate::text::precedes(#[trigger] pairs(self.entries@)[j].0, name@)
                &&& forall|j: int|
                    i <= j < self.entries@.len() ==> crate::text::precedes(
                        name@,
                        #[trigger] pairs(self.entries@)[j].0,
                    )
            },
    {
        let i: usize = self.rank(name);
        let ghost all = pairs(self.entries@);
        if i < self.entries.len() && same(self.entries[i].name.as_str(), name) {
            proof {
                lemma_held(all, i as int);
            }
            return Ok(i);
        }
        proof {
            assert forall|j: int| i <= j < all.len() implies crate::text::precedes(
                name@,
                #[trigger] all[j].0,
            ) by {
                assert(all[i as int].0 == self.entries@[i as int].name@);
                crate::text::lemma_precedes_total(name@, all[i as int].0);
                if i < j {
                    crate::text::lemma_precedes_trans(name@, all[i as int].0, all[j].0);
                }
            }
            if self@.contains_key(name@) {
                let k = choose|k: int| stands_at(all, name@, k);
                crate::text::lemma_precedes_total(name@, name@);
                assert(all[k].0 == name@);
            }
        }
        Err(i)
    }

    /// The value of a name, if it has one.
    pub fn get(&self, name: &str) -> (r: Option<&V>)
        requires
            self.wf(),
        ensures
            r is Some <==> self@.contains_key(name@),
            r matches Some(v) ==> *v == self@[name@],
    {
        match self.search(name) {
            Ok(i) => {
                proof {
                    lemma_held(pairs(self.entries@), i as int);
                }
                Some(&self.entries[i].value)
            },
            Err(_) => None,
        }
    }

    /// Gives a name a value; one that it had before is replaced.
    pub fn insert(&mut self, name: String, value: V)
        requires
            old(self).wf(),
        ensures
            final(self).wf(),
            final(self)@ == old(self)@.insert(name@, value),
    {
        let ghost before = pairs(self.entries@);
        let ghost n = name@;
        let ghost v = value;
        match self.search(name.as_str()) {
            Ok(i) => {
                let e = Entry { name, value };
                self.entries[i] = e;
                proof {
                    let after = pairs(self.entries@);
                    assert(after =~= before.update(i as int, (n, v)));
                    assert(in_order(after));
                    assert forall|x: Seq<char>| #[trigger]
                        held(after).contains_key(x) <==> held(before).insert(n, v).contains_key(
                            x,
                        ) by {
                        if held(before).contains_key(x) {
                            let j = choose|j: int| stands_at(before, x, j);
                            assert(stands_at(after, x, j));
                        }
                        if held(after).contains_key(x) {
                            let j = choose|j: int| stands_at(after, x, j);
                            assert(stands_at(before, x, j));
                        }
                        lemma_held(after, i as int);
                    }
                    assert forall|x: Seq<char>| #[trigger] held(after).contains_key(x) implies held(
                        after,
                    )[x] == held(before).insert(n, v)[x] by {
                        let j = choose|j: int| stands_at(after, x, j);
                        lemma_held(after, j);
                        lemma_held(before, j);
                        if j != i {
                            crate::text::lemma_precedes_total(after[i as int].0, after[j].0);
                            crate::text::lemma_precedes_total(after[j].0, after[i as int].0);
                        }
                    }
                    assert(held(after) =~= held(before).insert(n, v));
                }
            },
            Err(i) => {
                let e = Entry { name, value };
                self.entries.insert(i, e);
                proof {
                    let after = pairs(self.entries@);
                    assert(after =~= before.insert(i as int, (n, v)));
                    assert(in_order(after));
                    lemma_held(after, i as int);
                    assert forall|x: Seq<char>| #[trigger]
                        held(after).contains_key(x) <==> held(before).insert(n, v).contains_key(
                            x,
                        ) by {
                        if held(before).contains_key(x) {
                            let j = choose|j: int| stands_at(before, x, j);
                            assert(stands_at(after, x, if j < i {
                                j
                            } else {
                                j + 1
                            }));
                        }
                        if held(after).contains_key(x) && x != n {
                            let j = choose|j: int| stands_at(after, x, j);
                            assert(stands_at(before, x, if j < i {
                                j
                            } else {
                                j - 1
                            }));
                        }
                    }
                    assert forall|x: Seq<char>| #[trigger] held(after).contains_key(x) implies held(
                        after,
                    )[x] == held(before).insert(n, v)[x] by {
                        let j = choose|j: int| stands_at(after, x, j);
                        lemma_held(after, j);
                        if j < i {
                            lemma_held(before, j);
                            crate::text::lemma_precedes_total(after[j].0, n);
                        } else if j > i {
                            lemma_held(before, j - 1);
                            crate::text::lemma_precedes_total(n, after[j].0);
                        }
                    }
                    assert(held(after) =~= held(before).insert(n, v));
                }
            },
        }
    }

    /// Drops a name. Says whether it was there.
    pub fn remove(&mut self, name: &str) -> (removed: bool)
        requires
            old(self).wf(),
        ensures
            final(self).wf(),
            removed == old(self)@.contains_key(name@),
            final(self)@ == old(self)@.remove(name@),
    {
        let ghost before = pairs(self.entries@);
        let ghost n = name@;
        match self.search(name) {
            Ok(i) => {
                self.entries.remove(i);
                proof {
                    let after = pairs(self.entries@);
                    assert(after =~= before.remove(i as int));
                    assert(in_order(after));
                    lemma_held(before, i as int);
                    assert forall|x: Seq<char>| #[trigger]
                        held(after).contains_key(x) <==> held(before).remove(n).contains_key(x) by {
                        if held(before).contains_key(x) && x != n {
                            let j = choose|j: int| stands_at(before, x, j);
                            assert(stands_at(after, x, if j < i {
                                j
                            } else {
                                j - 1
                            }));
                        }
                        if held(after).contains_key(x) {
                            let j = choose|j: int| stands_at(after, x, j);
                            let k = if j < i {
                                j
                            } else {
                                j + 1
                            };
                            assert(stands_at(before, x, k));
                            if x == n {
                                assert(k == i);
                            }
                        }
                    }
                    assert forall|x: Seq<char>| #[trigger] held(after).contains_key(x) implies held(
                        after,
                    )[x] == held(before).remove(n)[x] by {
                        let j = choose|j: int| stands_at(after, x, j);
                        lemma_held(after, j);
                        lemma_held(before, if j < i {
                            j
                        } else {
                            j + 1
                        });
                    }
                    assert(held(after) =~= held(before).remove(n));
                }
                true
            },
            Err(_) => {
                assert(held(before) =~= held(before).remove(n));
                false
            },
        }
    }

    /// The names, in order.
    pub fn names(&self) -> (r: Vec<&str>)
        requires
            self.wf(),
        ensures
            r@.len() == self.listed().len(),
            forall|i: int| 0 <= i < r@.len() ==> (#[trigger] r@[i])@ == self.listed()[i].0,
            in_order(self.listed()),
            self@ == held(self.listed()),
    {
        let mut out: Vec<&str> = Vec::new();
        let mut i: usize = 0;
        while i < self.entries.len()
            invariant
                i <= self.entries@.len(),
                out@.len() == i,
                forall|j: int| 0 <= j < i ==> (#[trigger] out@[j])@ == pairs(self.entries@)[j].0,
            decreases self.entries@.len() - i,
        {
            out.push(self.entries[i].name.as_str());
            i += 1;
        }
        out
    }

    /// The entries, in the order of their names.
    pub fn entries(&self) -> (r: &Vec<Entry<V>>)
        requires
            self.wf(),
        ensures
            pairs(r@) == self.listed(),
            in_order(self.listed()),
            self@ == held(self.listed()),
    {
        &self.entries
    }

    /// The entries themselves, in the order of their names.
    pub fn into_entries(self) -> (r: Vec<Entry<V>>)
        requires
            self.wf(),
        ensures
            pairs(r@) == self.listed(),
            in_order(self.listed()),
            self@ == held(self.listed()),
    {
        self.entries
    }
}

} // verus!
