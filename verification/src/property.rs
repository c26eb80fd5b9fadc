//! The properties of a mode-setting object, found by name.
use vstd::prelude::*;

use crate::handle::PropertyHandle;

verus! {

#[derive(Debug)]
struct Entry {
    name: String,
    handle: PropertyHandle,
}

/// Property handles by property name. Each name occurs once.
#[derive(Debug)]
pub struct PropertyTable {
    entries: Vec<Entry>,
}

/// Whether the entry at `index` has the given name.
spec fn is_at(entries: Seq<Entry>, name: Seq<char>, index: int) -> bool {
    0 <= index < entries.len() && entries[index].name@ == name
}

/// Whether no two entries have the same name.
spec fn names_distinct(entries: Seq<Entry>) -> bool {
    forall|i: int, j: int|
        0 <= i < j < entries.len() ==> (#[trigger] entries[i]).name@ != (#[trigger] entries[j]).name@
}

/// The handles of the entries by name.
spec fn mapping(entries: Seq<Entry>) -> Map<Seq<char>, PropertyHandle> {
    Map::new(
        |name: Seq<char>| exists|i: int| is_at(entries, name, i),
        |name: Seq<char>| entries[choose|i: int| is_at(entries, name, i)].handle,
    )
}

/// An entry is what its name is mapped to.
proof fn lemma_entry(entries: Seq<Entry>, index: int)
    requires
        names_distinct(entries),
        0 <= index < entries.len(),
    ensures
        mapping(entries).contains_key(entries[index].name@),
        mapping(entries)[entries[index].name@] == entries[index].handle,
{
    let name = entries[index].name@;
    assert(is_at(entries, name, index));
    let found = choose|i: int| is_at(entries, name, i);
    assert(is_at(entries, name, found));
    assert(found == index);
}

/// Entries of distinct names that agree with a map on every name are mapped
/// to that map.
proof fn lemma_mapping(entries: Seq<Entry>, expected: Map<Seq<char>, PropertyHandle>)
    requires
        names_distinct(entries),
        forall|i: int|
            0 <= i < entries.len() ==> expected.contains_key((#[trigger] entries[i]).name@)
                && expected[entries[i].name@] == entries[i].handle,
        forall|name: Seq<char>| #[trigger]
            expected.contains_key(name) ==> exists|i: int| is_at(entries, name, i),
    ensures
        mapping(entries) == expected,
{
    assert forall|name: Seq<char>| mapping(entries).contains_key(name) implies expected[name]
        == #[trigger] mapping(entries)[name] && expected.contains_key(name) by {
        let found = choose|i: int| is_at(entries, name, i);
        assert(is_at(entries, name, found));
        lemma_entry(entries, found);
    }
    assert(mapping(entries).dom() =~= expected.dom());
    assert(mapping(entries) =~= expected);
}

impl View for PropertyTable {
    type V = Map<Seq<char>, PropertyHandle>;

    closed spec fn view(&self) -> Map<Seq<char>, PropertyHandle> {
        mapping(self.entries@)
    }
}

impl PropertyTable {
    #[verifier::type_invariant]
    spec fn well_formed(self) -> bool {
        names_distinct(self.entries@)
    }

    /// A table without entries.
    pub fn new() -> (table: Self)
        ensures
            table@ == Map::<Seq<char>, PropertyHandle>::empty(),
    {
        let table = PropertyTable { entries: Vec::new() };
        assert(table@ =~= Map::<Seq<char>, PropertyHandle>::empty());
        table
    }

    /// Where the name stands in the table.
    fn position(&self, name: &String) -> (position: Option<usize>)
        ensures
            match position {
                Some(i) => is_at(self.entries@, name@, i as int),
                None => forall|i: int| !is_at(self.entries@, name@, i),
            },
    {
        let mut i: usize = 0;
        while i < self.entries.len()
            invariant
                i <= self.entries@.len(),
                forall|j: int| 0 <= j < i ==> (#[trigger] self.entries@[j]).name@ != name@,
            decreases self.entries@.len() - i,
        {
            if self.entries[i].name == *name {
                return Some(i);
            }
            i += 1;
        }
        None
    }

    /// The handle of the property with the given name.
    pub fn get(&self, name: &str) -> (handle: Option<PropertyHandle>)
        ensures
            handle == (if self@.contains_key(name@) {
                Some(self@[name@])
            } else {
                None
            }),
    {
        let name = name.to_owned();
        match self.position(&name) {
            Some(i) => {
                proof {
                    use_type_invariant(self);
                    lemma_entry(self.entries@, i as int);
                }
                Some(self.entries[i].handle)
            },
            None => None,
        }
    }

    /// Enters a property. One of the same name that was there before is
    /// replaced.
    pub fn insert(&mut self, name: String, handle: PropertyHandle)
        ensures
            final(self)@ == old(self)@.insert(name@, handle),
    {
        let ghost before = self.entries@;
        let ghost key = name@;
        let position = self.position(&name);
        proof {
            use_type_invariant(&*self);
        }
        let mut entries: Vec<Entry> = Vec::new();
        std::mem::swap(&mut entries, &mut self.entries);
        match position {
            Some(i) => {
                entries[i] = Entry { name, handle };
            },
            None => {
                entries.push(Entry { name, handle });
            },
        }
        proof {
            let after = entries@;
            let expected = mapping(before).insert(key, handle);
            assert forall|i: int, j: int| 0 <= i < j < after.len() implies (#[trigger] after[i]).name@
                != (#[trigger] after[j]).name@ by {
                assert(!(position is None && is_at(before, key, i)));
            }
            assert forall|i: int| 0 <= i < after.len() implies expected.contains_key(
                (#[trigger] after[i]).name@,
            ) && expected[after[i].name@] == after[i].handle by {
                if i < before.len() && after[i] == before[i] {
                    lemma_entry(before, i);
                    if before[i].name@ == key {
                        assert(is_at(before, key, i));
                    }
                }
            }
            assert forall|n: Seq<char>| #[trigger] expected.contains_key(n) implies exists|i: int|
                is_at(after, n, i) by {
                if n == key {
                    let at = match position {
                        Some(i) => i as int,
                        None => before.len() as int,
                    };
                    assert(is_at(after, n, at));
                } else {
                    let i = choose|i: int| is_at(before, n, i);
                    assert(is_at(before, n, i));
                    assert(is_at(after, n, i));
                }
            }
            lemma_mapping(after, expected);
        }
        self.entries = entries;
    }
}

} // verus!
