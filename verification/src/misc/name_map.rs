//! A small map from names to values, for maps of a few entries that must be
//! copied. The string-keyed hash map of `vstd` serves where a map is only
//! filled and read; it offers no way to copy a map or to walk its entries,
//! which a copy needs.
//!
//! Entries are kept in the order of insertion; a lookup scans them from the
//! newest to the oldest, so inserting a name again replaces its value.

use vstd::prelude::*;

verus! {

/// The map that results from `insertions` made in order on top of `table`: a
/// later insertion of a name replaces an earlier one.
pub open spec fn insert_all<T>(table: Map<Seq<char>, T>, insertions: Seq<(Seq<char>, T)>) -> Map<
    Seq<char>,
    T,
>
    decreases insertions.len(),
{
    if insertions.len() == 0 {
        table
    } else {
        insert_all(table, insertions.drop_last()).insert(insertions.last().0, insertions.last().1)
    }
}

/// The name and value of one entry.
pub open spec fn named<T>(entry: (String, T)) -> (Seq<char>, T) {
    (entry.0@, entry.1)
}

/// Names to values.
pub struct NameMap<T> {
    entries: Vec<(String, T)>,
}

impl<T> View for NameMap<T> {
    type V = Map<Seq<char>, T>;

    closed spec fn view(&self) -> Map<Seq<char>, T> {
        insert_all(Map::empty(), self.entries@.map_values(|e: (String, T)| named(e)))
    }
}

impl<T> NameMap<T> {
    /// A map without entries.
    pub fn new() -> (map: NameMap<T>)
        ensures
            map@ == (Map::<Seq<char>, T>::empty()),
    {
        NameMap { entries: Vec::new() }
    }

    /// Stores `value` under `name`, replacing the value that the name had.
    pub fn insert(&mut self, name: String, value: T)
        ensures
            final(self)@ == old(self)@.insert(name@, value),
    {
        self.entries.push((name, value));
        proof {
            let before = old(self).entries@.map_values(|e: (String, T)| named(e));
            let after = self.entries@.map_values(|e: (String, T)| named(e));
            assert(after.drop_last() =~= before);
            assert(after.last() == (name@, value));
        }
    }

    /// The value stored under `name`, if there is one.
    pub fn get(&self, name: &str) -> (found: Option<&T>)
        ensures
            match found {
                Some(value) => self@.contains_key(name@) && *value == self@[name@],
                None => !self@.contains_key(name@),
            },
    {
        let key = name.to_owned();
        let ghost insertions = self.entries@.map_values(|e: (String, T)| named(e));
        let mut i: usize = self.entries.len();
        while i > 0
            invariant
                i <= self.entries.len(),
                key@ == name@,
                insertions == self.entries@.map_values(|e: (String, T)| named(e)),
                forall|j: int| i <= j < insertions.len() ==> (#[trigger] insertions[j]).0 != key@,
            decreases i,
        {
            i -= 1;
            if self.entries[i].0 == key {
                proof {
                    lemma_lookup_after_insertions(Map::empty(), insertions, key@);
                    assert(insertions[i as int].0 == key@);
                }
                return Some(&self.entries[i].1);
            }
        }
        proof {
            lemma_lookup_after_insertions(Map::empty(), insertions, key@);
        }
        None
    }
}

impl<T> NameMap<T> {
    /// Removes `name` and its value; a map without the name stays as it is.
    pub fn remove(&mut self, name: &str)
        ensures
            final(self)@ == old(self)@.remove(name@),
    {
        let key = name.to_owned();
        let mut i: usize = 0;
        while i < self.entries.len()
            invariant
                i <= self.entries.len(),
                key@ == name@,
                self@.remove(key@) == old(self)@.remove(key@),
                forall|j: int| 0 <= j < i ==> (#[trigger] self.entries@[j]).0@ != key@,
            decreases self.entries.len() - i,
        {
            if self.entries[i].0 == key {
                proof {
                    let insertions = self.entries@.map_values(|e: (String, T)| named(e));
                    lemma_remove_insertion(Map::empty(), insertions, i as int);
                    assert(self.entries@.remove(i as int).map_values(|e: (String, T)| named(e))
                        =~= insertions.remove(i as int));
                }
                let _ = self.entries.remove(i);
            } else {
                i += 1;
            }
        }
        proof {
            let insertions = self.entries@.map_values(|e: (String, T)| named(e));
            lemma_lookup_after_insertions(Map::empty(), insertions, key@);
            assert(!self@.contains_key(key@));
            assert(self@.remove(key@) =~= self@);
        }
    }
}

impl<T: Copy> Clone for NameMap<T> {
    /// A map with the same entries.
    fn clone(&self) -> (copy: NameMap<T>)
        ensures
            copy@ == self@,
    {
        let mut entries: Vec<(String, T)> = Vec::new();
        let mut i: usize = 0;
        while i < self.entries.len()
            invariant
                i <= self.entries.len(),
                entries@ == self.entries@.take(i as int),
            decreases self.entries.len() - i,
        {
            let name = self.entries[i].0.clone();
            let value = self.entries[i].1;
            entries.push((name, value));
            assert(entries@ =~= self.entries@.take(i + 1));
            i += 1;
        }
        assert(entries@ =~= self.entries@);
        NameMap { entries }
    }
}

/// Looking a name up after any number of insertions finds the value of the
/// last insertion made under exactly that name; a name that none of them used
/// is found, or not, as it was before.
#[verifier::spinoff_prover]
pub proof fn lemma_lookup_after_insertions<T>(
    table: Map<Seq<char>, T>,
    insertions: Seq<(Seq<char>, T)>,
    name: Seq<char>,
)
    ensures
        insert_all(table, insertions).contains_key(name) <==> (table.contains_key(name)
            || exists|i: int| 0 <= i < insertions.len() && (#[trigger] insertions[i]).0 == name),
        (forall|i: int| 0 <= i < insertions.len() ==> (#[trigger] insertions[i]).0 != name)
            && table.contains_key(name) ==> insert_all(table, insertions)[name] == table[name],
        forall|i: int|
            0 <= i < insertions.len() && (#[trigger] insertions[i]).0 == name && (forall|j: int|
                i < j < insertions.len() ==> (#[trigger] insertions[j]).0 != name) ==> insert_all(
                table,
                insertions,
            )[name] == insertions[i].1,
    decreases insertions.len(),
{
    if insertions.len() > 0 {
        let earlier = insertions.drop_last();
        lemma_lookup_after_insertions(table, earlier, name);
        let last = insertions.len() - 1;
        assert(forall|i: int| 0 <= i < earlier.len() ==> earlier[i] == insertions[i]);
        if insertions.last().0 == name {
            assert(insertions[last].0 == name);
        } else {
            assert forall|i: int|
                0 <= i < insertions.len() && (#[trigger] insertions[i]).0 == name && (forall|j: int|
                    i < j < insertions.len() ==> (#[trigger] insertions[j]).0
                        != name) implies insert_all(table, insertions)[name] == insertions[i].1 by {
                assert(i < last);
                assert(earlier[i].0 == name);
                assert(forall|j: int| i < j < earlier.len() ==> earlier[j] == insertions[j]);
            }
        }
    }
}

/// Taking one insertion away changes nothing for any other name: but for the
/// name of that insertion, the resulting maps are the same.
pub proof fn lemma_remove_insertion<T>(
    table: Map<Seq<char>, T>,
    insertions: Seq<(Seq<char>, T)>,
    index: int,
)
    requires
        0 <= index < insertions.len(),
    ensures
        insert_all(table, insertions.remove(index)).remove(insertions[index].0) == insert_all(
            table,
            insertions,
        ).remove(insertions[index].0),
    decreases insertions.len(),
{
    let name = insertions[index].0;
    let earlier = insertions.drop_last();
    let shorter = insertions.remove(index);
    if index == insertions.len() - 1 {
        assert(shorter =~= earlier);
        assert(insert_all(table, insertions).remove(name) =~= insert_all(table, earlier).remove(
            name,
        ));
    } else {
        lemma_remove_insertion(table, earlier, index);
        assert(shorter.drop_last() =~= earlier.remove(index));
        assert(shorter.last() == insertions.last());
        let without = insert_all(table, earlier.remove(index));
        let with = insert_all(table, earlier);
        assert(without.remove(name) == with.remove(name));
        let last = insertions.last();
        assert(insert_all(table, shorter) == without.insert(last.0, last.1));
        assert(insert_all(table, insertions) == with.insert(last.0, last.1));
        let left = without.insert(last.0, last.1).remove(name);
        let right = with.insert(last.0, last.1).remove(name);
        assert forall|other: Seq<char>| left.contains_key(other) == right.contains_key(other) by {
            assert(without.remove(name).contains_key(other) == with.remove(name).contains_key(
                other,
            ));
        }
        assert forall|other: Seq<char>| left.contains_key(other) implies left[other]
            == right[other] by {
            if other != last.0 {
                assert(without.remove(name).contains_key(other));
                assert(without.remove(name)[other] == with.remove(name)[other]);
            }
        }
        assert(left =~= right);
    }
}

} // verus!
