use vstd::prelude::*;

verus! {

/// A finite map from names to values, kept as a list in which no name
/// occurs twice.
#[derive(Debug, PartialEq)]
pub struct Dict<V> {
    entries: Vec<(String, V)>,
}

/// No two entries of `entries` have one name.
pub open spec fn distinct_names<V>(entries: Seq<(String, V)>) -> bool {
    forall|i: int, j: int|
        0 <= i < j < entries.len() ==> (#[trigger] entries[i]).0@ != (#[trigger] entries[j]).0@
}

/// Some entry of `entries` is named `name`.
pub open spec fn has_name<V>(entries: Seq<(String, V)>, name: Seq<char>) -> bool {
    exists|i: int| 0 <= i < entries.len() && (#[trigger] entries[i]).0@ == name
}

/// The place of an entry named `name`.
pub open spec fn place_of<V>(entries: Seq<(String, V)>, name: Seq<char>) -> int {
    choose|i: int| 0 <= i < entries.len() && (#[trigger] entries[i]).0@ == name
}

/// The map that a list of entries stands for.
pub open spec fn entries_map<V: DeepView>(entries: Seq<(String, V)>) -> Map<Seq<char>, V::V> {
    Map::new(
        |name: Seq<char>| has_name(entries, name),
        |name: Seq<char>| entries[place_of(entries, name)].1.deep_view(),
    )
}

proof fn lemma_place<V>(entries: Seq<(String, V)>, i: int)
    requires
        distinct_names(entries),
        0 <= i < entries.len(),
    ensures
        has_name(entries, entries[i].0@),
        place_of(entries, entries[i].0@) == i,
{
    let name = entries[i].0@;
    let p = place_of(entries, name);
    assert(0 <= p < entries.len() && entries[p].0@ == name);
    if p < i {
        assert(entries[p].0@ != entries[i].0@);
    } else if i < p {
        assert(entries[i].0@ != entries[p].0@);
    }
}

proof fn lemma_entries_count<V: DeepView>(entries: Seq<(String, V)>)
    requires
        distinct_names(entries),
    ensures
        entries_map(entries).dom().finite(),
        entries_map(entries).dom().len() == entries.len(),
    decreases entries.len(),
{
    let dom = entries_map(entries).dom();
    if entries.len() == 0 {
        assert(dom =~= Set::<Seq<char>>::empty());
    } else {
        let front = entries.drop_last();
        let last = entries.last().0@;
        assert forall|i: int, j: int| 0 <= i < j < front.len() implies (#[trigger] front[i]).0@ != (
        #[trigger] front[j]).0@ by {
            assert(entries[i].0@ != entries[j].0@);
        }
        lemma_entries_count(front);
        let before = entries_map(front).dom();
        if before.contains(last) {
            let p = place_of(front, last);
            assert(entries[p].0@ != entries[entries.len() - 1].0@);
        }
        assert forall|name: Seq<char>| dom.contains(name) <==> before.insert(last).contains(
            name,
        ) by {
            if dom.contains(name) {
                let p = place_of(entries, name);
                if p < front.len() {
                    assert(front[p].0@ == name);
                }
            }
            if before.contains(name) {
                let p = place_of(front, name);
                assert(entries[p].0@ == name);
            }
            if name == last {
                assert(entries[entries.len() - 1].0@ == name);
            }
        }
        assert(dom =~= before.insert(last));
    }
}

impl<V: Clone> Clone for Dict<V> {
    /// A map with the same names, each with a clone of its value.
    fn clone(&self) -> (d: Self) {
        proof {
            use_type_invariant(self);
        }
        let mut entries: Vec<(String, V)> = Vec::new();
        let mut i: usize = 0;
        while i < self.entries.len()
            invariant
                i <= self.entries@.len(),
                entries@.len() == i,
                distinct_names(self.entries@),
                forall|k: int| 0 <= k < i ==> (#[trigger] entries@[k]).0@ == self.entries@[k].0@,
            decreases self.entries.len() - i,
        {
            entries.push((self.entries[i].0.clone(), self.entries[i].1.clone()));
            i += 1;
        }
        assert forall|a: int, b: int| 0 <= a < b < entries@.len() implies (#[trigger] entries@[a]).0@
            != (#[trigger] entries@[b]).0@ by {
            assert(self.entries@[a].0@ != self.entries@[b].0@);
        }
        Dict { entries }
    }
}

impl<V: DeepView> DeepView for Dict<V> {
    type V = Map<Seq<char>, V::V>;

    closed spec fn deep_view(&self) -> Map<Seq<char>, V::V> {
        entries_map(self.entries@)
    }
}

impl<V: DeepView> View for Dict<V> {
    type V = Map<Seq<char>, V::V>;

    open spec fn view(&self) -> Map<Seq<char>, V::V> {
        self.deep_view()
    }
}

impl<V> Dict<V> {
    #[verifier::type_invariant]
    spec fn well_formed(self) -> bool {
        distinct_names(self.entries@)
    }
}

impl<V: DeepView> Dict<V> {
    /// The map with no entries.
    pub fn new() -> (d: Self)
        ensures
            d@ == Map::<Seq<char>, V::V>::empty(),
    {
        let d = Dict { entries: Vec::new() };
        assert(d@ =~= Map::<Seq<char>, V::V>::empty());
        d
    }

    /// How many names the map holds.
    pub fn len(&self) -> (n: usize)
        ensures
            self@.dom().finite(),
            n == self@.dom().len(),
    {
        proof {
            use_type_invariant(self);
            lemma_entries_count(self.entries@);
        }
        self.entries.len()
    }

    /// Whether the map holds no name.
    pub fn is_empty(&self) -> (b: bool)
        ensures
            b == (self@ == Map::<Seq<char>, V::V>::empty()),
    {
        proof {
            use_type_invariant(self);
            if self.entries@.len() == 0 {
                assert(self@ =~= Map::<Seq<char>, V::V>::empty());
            } else {
                lemma_place(self.entries@, 0);
                assert(self@.dom().contains(self.entries@[0].0@));
            }
        }
        self.entries.len() == 0
    }

    fn position(&self, name: &str) -> (r: Option<usize>)
        ensures
            match r {
                Some(i) => i < self.entries@.len() && self.entries@[i as int].0@ == name@,
                None => !has_name(self.entries@, name@),
            },
    {
        let wanted = name.to_owned();
        let mut i: usize = 0;
        while i < self.entries.len()
            invariant
                i <= self.entries@.len(),
                wanted@ == name@,
                forall|j: int| 0 <= j < i ==> (#[trigger] self.entries@[j]).0@ != name@,
            decreases self.entries.len() - i,
        {
            if self.entries[i].0 == wanted {
                return Some(i);
            }
            i += 1;
        }
        None
    }

    /// The value that `name` maps to.
    pub fn get(&self, name: &str) -> (r: Option<&V>)
        ensures
            match r {
                Some(value) => self@.dom().contains(name@) && self@[name@] == value.deep_view(),
                None => !self@.dom().contains(name@),
            },
    {
        proof {
            use_type_invariant(self);
        }
        match self.position(name) {
            Some(i) => {
                proof {
                    lemma_place(self.entries@, i as int);
                }
                Some(&self.entries[i].1)
            },
            None => None,
        }
    }

    /// Whether `name` maps to a value.
    pub fn contains_key(&self, name: &str) -> (b: bool)
        ensures
            b == self@.dom().contains(name@),
    {
        self.position(name).is_some()
    }

    /// Maps `name` to `value`; a value that `name` mapped to before is
    /// replaced.
    pub fn insert(&mut self, name: String, value: V)
        ensures
            final(self)@ == old(self)@.insert(name@, value.deep_view()),
    {
        proof {
            use_type_invariant(&*self);
        }
        let ghost before = self.entries@;
        let ghost key = name@;
        let found = self.position(name.as_str());
        let mut taken = Dict { entries: Vec::new() };
        core::mem::swap(self, &mut taken);
        let mut entries = taken.entries;
        match found {
            Some(i) => {
                entries.set(i, (name, value));
                proof {
                    let after = entries@;
                    assert forall|a: int, b: int| 0 <= a < b < after.len() implies (
                    #[trigger] after[a]).0@ != (#[trigger] after[b]).0@ by {
                        assert(before[a].0@ != before[b].0@);
                    }
                    assert forall|k: Seq<char>| has_name(after, k) <==> has_name(before, k) || k
                        == key by {
                        if has_name(after, k) {
                            let p = place_of(after, k);
                            assert(before[p].0@ == k);
                        }
                        if has_name(before, k) {
                            let p = place_of(before, k);
                            assert(after[p].0@ == k);
                        }
                        if k == key {
                            assert(after[i as int].0@ == k);
                        }
                    }
                    assert forall|k: Seq<char>| has_name(after, k) implies #[trigger] entries_map(
                        after,
                    )[k] == old(self)@.insert(key, value.deep_view())[k] by {
                        let p = place_of(after, k);
                        lemma_place(after, p);
                        lemma_place(before, p);
                    }
                    assert(entries_map(after) =~= old(self)@.insert(key, value.deep_view()));
                }
            },
            None => {
                entries.push((name, value));
                proof {
                    let after = entries@;
                    assert forall|a: int, b: int| 0 <= a < b < after.len() implies (
                    #[trigger] after[a]).0@ != (#[trigger] after[b]).0@ by {
                        if b < before.len() {
                            assert(before[a].0@ != before[b].0@);
                        } else {
                            assert(before[a].0@ == after[a].0@);
                        }
                    }
                    assert forall|k: Seq<char>| has_name(after, k) <==> has_name(before, k) || k
                        == key by {
                        if has_name(after, k) {
                            let p = place_of(after, k);
                            if p < before.len() {
                                assert(before[p].0@ == k);
                            }
                        }
                        if has_name(before, k) {
                            let p = place_of(before, k);
                            assert(after[p].0@ == k);
                        }
                        if k == key {
                            assert(after[after.len() - 1].0@ == k);
                        }
                    }
                    assert forall|k: Seq<char>| has_name(after, k) implies #[trigger] entries_map(
                        after,
                    )[k] == old(self)@.insert(key, value.deep_view())[k] by {
                        let p = place_of(after, k);
                        lemma_place(after, p);
                        if p < before.len() {
                            lemma_place(before, p);
                        }
                    }
                    assert(entries_map(after) =~= old(self)@.insert(key, value.deep_view()));
                }
            },
        }
        *self = Dict { entries };
    }
}

} // verus!
