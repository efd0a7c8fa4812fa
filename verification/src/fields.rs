//! The fields of a registration reply: a mapping from names to values.

use crate::text::str_eq;
use crate::views::option_view;
use vstd::prelude::*;

verus! {

/// Mathematical model of [`Fields`]: a finite map from names to values.
pub type FieldsView = Map<Seq<char>, Seq<char>>;

/// The fields of a decoded reply. No name occurs twice: a value that is
/// inserted under a name that is there already takes the place of the old one.
#[derive(Debug)]
pub struct Fields {
    entries: Vec<(String, String)>,
}

/// Whether a list of entries holds the name at the index.
spec fn names_at(entries: Seq<(String, String)>, name: Seq<char>, i: int) -> bool {
    0 <= i < entries.len() && entries[i].0@ == name
}

/// Whether no name occurs twice in a list of entries.
spec fn distinct_names(entries: Seq<(String, String)>) -> bool {
    forall|i: int, j: int|
        0 <= i < j < entries.len() ==> (#[trigger] entries[i]).0@ != (#[trigger] entries[j]).0@
}

/// The map that a list of entries stands for.
spec fn entries_map(entries: Seq<(String, String)>) -> FieldsView {
    Map::new(
        |name: Seq<char>| exists|i: int| names_at(entries, name, i),
        |name: Seq<char>| entries[choose|i: int| names_at(entries, name, i)].1@,
    )
}

impl View for Fields {
    type V = FieldsView;

    closed spec fn view(&self) -> FieldsView {
        entries_map(self.entries@)
    }
}

impl Fields {
    #[verifier::type_invariant]
    spec fn well_formed(self) -> bool {
        distinct_names(self.entries@)
    }

    /// No fields.
    pub fn new() -> (fields: Self)
        ensures
            fields@ == FieldsView::empty(),
    {
        let fields = Fields { entries: Vec::new() };
        assert(fields@ =~= FieldsView::empty());
        fields
    }

    /// The index of the entry with the name, if there is one.
    fn position(&self, name: &str) -> (found: Option<usize>)
        ensures
            found matches Some(i) ==> names_at(self.entries@, name@, i as int),
            found is None ==> forall|i: int| !names_at(self.entries@, name@, i),
    {
        let mut i: usize = 0;
        while i < self.entries.len()
            invariant
                i <= self.entries.len(),
                forall|j: int| 0 <= j < i ==> !names_at(self.entries@, name@, j),
            decreases self.entries.len() - i,
        {
            if str_eq(self.entries[i].0.as_str(), name) {
                return Some(i);
            }
            i += 1;
        }
        None
    }

    /// The value of the field with the name, if there is one.
    pub fn get(&self, name: &str) -> (value: Option<&String>)
        ensures
            option_view(value) == (if self@.contains_key(name@) {
                Some(self@[name@])
            } else {
                None
            }),
    {
        proof {
            use_type_invariant(self);
        }
        match self.position(name) {
            Some(i) => {
                proof {
                    lemma_entry_is_mapped(self.entries@, i as int);
                }
                Some(&self.entries[i].1)
            },
            None => None,
        }
    }

    /// Sets the field with the name to the value, whether it was there or not.
    pub fn insert(&mut self, name: String, value: String)
        ensures
            final(self)@ == old(self)@.insert(name@, value@),
    {
        proof {
            use_type_invariant(&*self);
        }
        let place = self.position(name.as_str());
        let ghost before = self.entries@;
        let mut entries: Vec<(String, String)> = Vec::new();
        core::mem::swap(&mut self.entries, &mut entries);
        match place {
            Some(i) => {
                entries.set(i, (name, value));
                proof {
                    lemma_replaced(before, i as int, entries@);
                }
            },
            None => {
                entries.push((name, value));
                proof {
                    lemma_appended(before, entries@);
                }
            },
        }
        self.entries = entries;
    }

    /// The number of fields.
    pub fn len(&self) -> (count: usize)
        ensures
            self@.dom().finite(),
            count == self@.len(),
    {
        proof {
            use_type_invariant(self);
            lemma_count(self.entries@);
        }
        self.entries.len()
    }
}

/// With distinct names, the entry that holds a name is the one that the map
/// goes by.
proof fn lemma_entry_is_mapped(entries: Seq<(String, String)>, i: int)
    requires
        distinct_names(entries),
        0 <= i < entries.len(),
    ensures
        entries_map(entries).contains_key(entries[i].0@),
        entries_map(entries)[entries[i].0@] == entries[i].1@,
{
    let name = entries[i].0@;
    assert(names_at(entries, name, i));
    let chosen = choose|j: int| names_at(entries, name, j);
    if chosen < i {
        assert(entries[chosen].0@ != entries[i].0@);
    } else if chosen > i {
        assert(entries[i].0@ != entries[chosen].0@);
    }
}

/// Putting a new value in the place of an entry, under the same name, is an
/// insertion into the map.
proof fn lemma_replaced(before: Seq<(String, String)>, i: int, after: Seq<(String, String)>)
    requires
        distinct_names(before),
        0 <= i < before.len(),
        after.len() == before.len(),
        after[i].0@ == before[i].0@,
        forall|j: int| 0 <= j < before.len() && j != i ==> after[j] == before[j],
    ensures
        distinct_names(after),
        entries_map(after) == entries_map(before).insert(after[i].0@, after[i].1@),
{
    assert forall|j: int, k: int| 0 <= j < k < after.len() implies (#[trigger] after[j]).0@ != (
    #[trigger] after[k]).0@ by {
        assert(before[j].0@ != before[k].0@);
    }
    let target = entries_map(before).insert(after[i].0@, after[i].1@);
    assert forall|name: Seq<char>| #[trigger]
        entries_map(after).dom().contains(name) implies target.dom().contains(name)
        && target[name] == entries_map(after)[name] by {
        let j = choose|j: int| names_at(after, name, j);
        lemma_entry_is_mapped(after, j);
        if j != i {
            lemma_entry_is_mapped(before, j);
        }
    }
    assert forall|name: Seq<char>| #[trigger]
        target.dom().contains(name) implies entries_map(after).dom().contains(name) by {
        if name == after[i].0@ {
            assert(names_at(after, name, i));
        } else {
            let j = choose|j: int| names_at(before, name, j);
            assert(names_at(after, name, j));
        }
    }
    assert(entries_map(after).dom() =~= target.dom());
    assert(entries_map(after) =~= target);
}

/// Adding an entry under a name that is not there is an insertion into the
/// map.
proof fn lemma_appended(before: Seq<(String, String)>, after: Seq<(String, String)>)
    requires
        distinct_names(before),
        after.len() == before.len() + 1,
        forall|j: int| 0 <= j < before.len() ==> after[j] == before[j],
        forall|j: int| !names_at(before, after.last().0@, j),
    ensures
        distinct_names(after),
        entries_map(after) == entries_map(before).insert(after.last().0@, after.last().1@),
{
    let last = before.len() as int;
    assert forall|j: int, k: int| 0 <= j < k < after.len() implies (#[trigger] after[j]).0@ != (
    #[trigger] after[k]).0@ by {
        if k == last {
            assert(!names_at(before, after.last().0@, j));
        } else {
            assert(before[j].0@ != before[k].0@);
        }
    }
    let target = entries_map(before).insert(after.last().0@, after.last().1@);
    assert forall|name: Seq<char>| #[trigger]
        entries_map(after).dom().contains(name) implies target.dom().contains(name)
        && target[name] == entries_map(after)[name] by {
        let j = choose|j: int| names_at(after, name, j);
        lemma_entry_is_mapped(after, j);
        if j != last {
            lemma_entry_is_mapped(before, j);
        }
    }
    assert forall|name: Seq<char>| #[trigger]
        target.dom().contains(name) implies entries_map(after).dom().contains(name) by {
        if name == after.last().0@ {
            assert(names_at(after, name, last));
        } else {
            let j = choose|j: int| names_at(before, name, j);
            assert(names_at(after, name, j));
        }
    }
    assert(entries_map(after).dom() =~= target.dom());
    assert(entries_map(after) =~= target);
}

/// With distinct names, the map has as many fields as there are entries.
proof fn lemma_count(entries: Seq<(String, String)>)
    requires
        distinct_names(entries),
    ensures
        entries_map(entries).dom().finite(),
        entries_map(entries).len() == entries.len(),
    decreases entries.len(),
{
    if entries.len() == 0 {
        assert(entries_map(entries) =~= FieldsView::empty());
    } else {
        let before = entries.drop_last();
        assert forall|j: int, k: int| 0 <= j < k < before.len() implies (#[trigger] before[j]).0@
            != (#[trigger] before[k]).0@ by {
            assert(entries[j].0@ != entries[k].0@);
        }
        assert forall|j: int| !names_at(before, entries.last().0@, j) by {
            if 0 <= j < before.len() {
                assert(entries[j].0@ != entries[entries.len() - 1].0@);
            }
        }
        lemma_count(before);
        lemma_appended(before, entries);
        assert forall|j: int| !names_at(before, entries.last().0@, j) implies !entries_map(
            before,
        ).contains_key(entries.last().0@) by {}
        assert(!entries_map(before).contains_key(entries.last().0@));
    }
}

} // verus!
