use vstd::prelude::*;

verus! {

/// No two entries share a name.
pub open spec fn names_unique<T>(entries: Seq<(String, T)>) -> bool {
    forall|i: int, j: int|
        0 <= i < entries.len() && 0 <= j < entries.len() && i != j ==> #[trigger] entries[i].0@ != #[trigger] entries[j].0@
}

/// Some entry carries the name `name`.
pub open spec fn has_name<T>(entries: Seq<(String, T)>, name: Seq<char>) -> bool {
    exists|i: int| 0 <= i < entries.len() && #[trigger] entries[i].0@ == name
}

/// The entries as a map from name to value.
pub open spec fn entry_map<T>(entries: Seq<(String, T)>) -> Map<Seq<char>, T> {
    Map::new(
        |name: Seq<char>| has_name(entries, name),
        |name: Seq<char>| entries[choose|i: int| 0 <= i < entries.len() && #[trigger] entries[i].0@ == name].1,
    )
}

/// Shader-visible values by name, handed fresh to each draw call; setting a
/// name again replaces its value.
pub struct UniformSet<T> {
    entries: Vec<(String, T)>,
}

impl<T> View for UniformSet<T> {
    type V = Map<Seq<char>, T>;

    open spec fn view(&self) -> Map<Seq<char>, T> {
        entry_map(self.spec_entries())
    }
}

proof fn lemma_entry_at<T>(entries: Seq<(String, T)>, i: int)
    requires
        names_unique(entries),
        0 <= i < entries.len(),
    ensures
        entry_map(entries).contains_key(entries[i].0@),
        entry_map(entries)[entries[i].0@] == entries[i].1,
{
    let name = entries[i].0@;
    assert(has_name(entries, name));
    let j = choose|j: int| 0 <= j < entries.len() && #[trigger] entries[j].0@ == name;
    assert(j == i);
}

impl<T> UniformSet<T> {
    /// The entries in the order their names were first set.
    pub closed spec fn spec_entries(&self) -> Seq<(String, T)> {
        self.entries@
    }

    pub open spec fn wf(&self) -> bool {
        names_unique(self.spec_entries())
    }

    /// A set with no uniform.
    pub fn new() -> (r: UniformSet<T>)
        ensures
            r.wf(),
            r.spec_entries().len() == 0,
            r@ == Map::<Seq<char>, T>::empty(),
    {
        let r = UniformSet { entries: Vec::new() };
        assert(r@ =~= Map::<Seq<char>, T>::empty());
        r
    }

    /// Sets `name` to `value`: a name already present keeps its place and
    /// takes the new value, a new name goes last.
    pub fn set(&mut self, name: String, value: T)
        requires
            old(self).wf(),
        ensures
            final(self).wf(),
            final(self)@ == old(self)@.insert(name@, value),
            has_name(old(self).spec_entries(), name@) ==> exists|i: int|
                0 <= i < old(self).spec_entries().len() && #[trigger] old(self).spec_entries()[i].0@ == name@
                    && final(self).spec_entries() == old(self).spec_entries().update(i, (name, value)),
            !has_name(old(self).spec_entries(), name@) ==> final(self).spec_entries() == old(self).spec_entries().push((name, value)),
    {
        let ghost before = self.entries@;
        let mut i: usize = 0;
        while i < self.entries.len()
            invariant
                self.entries@ == before,
                before == old(self).spec_entries(),
                names_unique(before),
                i <= before.len(),
                forall|j: int| 0 <= j < i ==> #[trigger] before[j].0@ != name@,
            decreases before.len() - i,
        {
            if self.entries[i].0 == name {
                let ghost key = name@;
                let ghost entry = (name, value);
                self.entries[i] = (name, value);
                proof {
                    let after = self.entries@;
                    assert(after[i as int] == entry);
                    assert(before[i as int].0@ == key);
                    assert(after == before.update(i as int, entry));
                    assert(names_unique(after)) by {
                        assert forall|a: int, b: int|
                            0 <= a < after.len() && 0 <= b < after.len() && a != b implies #[trigger] after[a].0@
                            != #[trigger] after[b].0@ by {
                            assert(before[i as int].0@ == key);
                        }
                    }
                    assert(has_name(before, key));
                    assert forall|k: Seq<char>| #[trigger] has_name(after, k) <==> has_name(before, k) by {
                        if has_name(before, k) {
                            let j = choose|j: int| 0 <= j < before.len() && #[trigger] before[j].0@ == k;
                            assert(after[j].0@ == k);
                        }
                        if has_name(after, k) {
                            let j = choose|j: int| 0 <= j < after.len() && #[trigger] after[j].0@ == k;
                            assert(before[j].0@ == k);
                        }
                    }
                    assert forall|k: Seq<char>| #[trigger] entry_map(after).contains_key(k) implies entry_map(after)[k]
                        == before_map_insert(before, key, after[i as int].1)[k] by {
                        let j = choose|j: int| 0 <= j < after.len() && #[trigger] after[j].0@ == k;
                        lemma_entry_at(after, j);
                        if j != i as int {
                            lemma_entry_at(before, j);
                        }
                    }
                    assert(entry_map(after) =~= before_map_insert(before, key, after[i as int].1));
                }
                return;
            }
            i = i + 1;
        }
        self.entries.push((name, value));
        proof {
            let after = self.entries@;
            let key = after.last().0@;
            assert(!has_name(before, key));
            assert(names_unique(after));
            assert forall|k: Seq<char>| #[trigger] has_name(after, k) <==> (has_name(before, k) || k == key) by {
                if has_name(before, k) {
                    let j = choose|j: int| 0 <= j < before.len() && #[trigger] before[j].0@ == k;
                    assert(after[j].0@ == k);
                }
                if has_name(after, k) {
                    let j = choose|j: int| 0 <= j < after.len() && #[trigger] after[j].0@ == k;
                    if j < before.len() {
                        assert(before[j].0@ == k);
                    }
                }
                if k == key {
                    assert(after[before.len() as int].0@ == k);
                }
            }
            assert forall|k: Seq<char>| #[trigger] entry_map(after).contains_key(k) implies entry_map(after)[k]
                == before_map_insert(before, key, after.last().1)[k] by {
                let j = choose|j: int| 0 <= j < after.len() && #[trigger] after[j].0@ == k;
                lemma_entry_at(after, j);
                if j < before.len() {
                    lemma_entry_at(before, j);
                }
            }
            assert(entry_map(after) =~= before_map_insert(before, key, after.last().1));
        }
    }

    /// The entries in the order their names were first set.
    pub fn entries(&self) -> (r: &Vec<(String, T)>)
        ensures
            r@ == self.spec_entries(),
    {
        &self.entries
    }
}

spec fn before_map_insert<T>(before: Seq<(String, T)>, key: Seq<char>, value: T) -> Map<Seq<char>, T> {
    entry_map(before).insert(key, value)
}

} // verus!
