//! Bonuses keyed by name.

use crate::keyed::{
    distinct_keys, is_first, lemma_first_exists, lemma_with_value, value_of, with_value,
};
use crate::text::same_text;
use vstd::prelude::*;
use vstd::std_specs::cmp::PartialEqSpecImpl;

verus! {

/// The names and bonuses of a list of entries.
pub open spec fn entries_view(entries: Seq<(String, u8)>) -> Seq<(Seq<char>, u8)> {
    entries.map_values(|e: (String, u8)| (e.0@, e.1))
}

/// A map from names to bonuses. No name occurs twice; the entries keep the
/// order in which their names came in.
#[derive(Debug)]
pub struct ProficiencyMap {
    entries: Vec<(String, u8)>,
}

impl View for ProficiencyMap {
    type V = Seq<(Seq<char>, u8)>;

    closed spec fn view(&self) -> Seq<(Seq<char>, u8)> {
        entries_view(self.entries@)
    }
}

impl ProficiencyMap {
    #[verifier::type_invariant]
    spec fn names_are_distinct(&self) -> bool {
        distinct_keys(entries_view(self.entries@))
    }

    /// The map without entries.
    pub fn new() -> (r: ProficiencyMap)
        ensures
            r@ == Seq::<(Seq<char>, u8)>::empty(),
    {
        let r = ProficiencyMap { entries: Vec::new() };
        assert(r@ =~= Seq::<(Seq<char>, u8)>::empty());
        r
    }

    /// The number of entries.
    pub fn len(&self) -> (r: usize)
        ensures
            r == self@.len(),
    {
        self.entries.len()
    }

    /// The entries in their order; no two of them stand under one name.
    pub fn entries(&self) -> (r: &Vec<(String, u8)>)
        ensures
            entries_view(r@) == self@,
            distinct_keys(self@),
    {
        proof {
            use_type_invariant(self);
        }
        &self.entries
    }

    /// The bonus under `name`, if the map has that name.
    pub fn get(&self, name: &str) -> (r: Option<u8>)
        ensures
            r == value_of(self@, name@),
    {
        let mut i: usize = 0;
        while i < self.entries.len()
            invariant
                i <= self.entries.len(),
                forall|j: int| 0 <= j < i ==> (#[trigger] self@[j]).0 != name@,
            decreases self.entries.len() - i,
        {
            if same_text(self.entries[i].0.as_str(), name) {
                proof {
                    assert(self@[i as int].0 == name@);
                    assert(is_first(self@, name@, i as int));
                    lemma_first_exists(self@, name@);
                }
                return Some(self.entries[i].1);
            }
            i += 1;
        }
        None
    }

    /// Gives `name` the bonus `bonus` and returns the bonus it had before.
    pub fn insert(&mut self, name: String, bonus: u8) -> (r: Option<u8>)
        ensures
            final(self)@ == with_value(old(self)@, name@, bonus),
            r == value_of(old(self)@, name@),
    {
        proof {
            use_type_invariant(&*self);
        }
        let mut entries: Vec<(String, u8)> = Vec::new();
        core::mem::swap(&mut self.entries, &mut entries);
        let ghost before = entries_view(entries@);
        let mut found: Option<u8> = None;
        let mut i: usize = 0;
        while i < entries.len() && found.is_none()
            invariant
                i <= entries.len(),
                entries_view(entries@) == before,
                found is None ==> forall|j: int| 0 <= j < i ==> (#[trigger] before[j]).0 != name@,
                found is Some ==> i < entries.len() && is_first(before, name@, i as int)
                    && found == Some(before[i as int].1),
            decreases entries.len() - i + (if found is None { 1int } else { 0int }),
        {
            if same_text(entries[i].0.as_str(), name.as_str()) {
                found = Some(entries[i].1);
                proof {
                    assert(before[i as int].0 == name@);
                }
            } else {
                i += 1;
            }
        }
        proof {
            if found is Some {
                lemma_first_exists(before, name@);
            }
        }
        if found.is_some() {
            entries[i] = (name, bonus);
        } else {
            entries.push((name, bonus));
        }
        proof {
            assert(entries_view(entries@) =~= with_value(before, name@, bonus));
            lemma_with_value(before, name@, bonus);
        }
        self.entries = entries;
        found
    }
}

impl Clone for ProficiencyMap {
    fn clone(&self) -> (r: ProficiencyMap)
        ensures
            r@ == self@,
    {
        proof {
            use_type_invariant(self);
        }
        let mut entries: Vec<(String, u8)> = Vec::new();
        let mut i: usize = 0;
        while i < self.entries.len()
            invariant
                i <= self.entries.len(),
                entries_view(entries@) == self@.take(i as int),
            decreases self.entries.len() - i,
        {
            let name = self.entries[i].0.clone();
            let bonus = self.entries[i].1;
            let ghost copied = entries@;
            entries.push((name, bonus));
            proof {
                assert(entries_view(entries@) =~= entries_view(copied).push((name@, bonus)));
                assert(self@.take(i + 1) =~= self@.take(i as int).push(self@[i as int]));
            }
            i += 1;
        }
        proof {
            assert(self@.take(i as int) =~= self@);
        }
        ProficiencyMap { entries }
    }
}

/// Whether two lists of entries have the same length and each name of the
/// first has its bonus in the second: among distinct names, whether they hold
/// the same entries, in whatever order.
pub open spec fn same_entries(a: Seq<(Seq<char>, u8)>, b: Seq<(Seq<char>, u8)>) -> bool {
    &&& a.len() == b.len()
    &&& forall|i: int| 0 <= i < a.len() ==> value_of(b, (#[trigger] a[i]).0) == Some(a[i].1)
}

impl PartialEq for ProficiencyMap {
    /// Whether the two maps hold the same entries, in whatever order.
    fn eq(&self, other: &ProficiencyMap) -> (r: bool) {
        if self.entries.len() != other.entries.len() {
            return false;
        }
        let mut i: usize = 0;
        while i < self.entries.len()
            invariant
                i <= self.entries.len(),
                self@.len() == other@.len(),
                forall|j: int| 0 <= j < i ==> value_of(other@, (#[trigger] self@[j]).0) == Some(
                    self@[j].1,
                ),
            decreases self.entries.len() - i,
        {
            match other.get(self.entries[i].0.as_str()) {
                Some(bonus) => {
                    if bonus != self.entries[i].1 {
                        assert(value_of(other@, self@[i as int].0) != Some(self@[i as int].1));
                        return false;
                    }
                },
                None => {
                    assert(value_of(other@, self@[i as int].0) != Some(self@[i as int].1));
                    return false;
                },
            }
            i += 1;
        }
        true
    }
}

impl PartialEqSpecImpl for ProficiencyMap {
    open spec fn obeys_eq_spec() -> bool {
        true
    }

    open spec fn eq_spec(&self, other: &ProficiencyMap) -> bool {
        same_entries(self@, other@)
    }
}

} // verus!
