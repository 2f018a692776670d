//! The tag map that every event and every outgoing message carries.

use crate::assoc::{
    assoc_map, distinct_keys, has_key, lemma_assoc_absent, lemma_assoc_empty, lemma_assoc_entry,
    lemma_assoc_len, lemma_assoc_push, lemma_assoc_update,
};
use vstd::prelude::*;

verus! {

/// The entries of a tag list as pairs of plain character sequences.
pub open spec fn tag_pairs(entries: Seq<(String, String)>) -> Seq<(Seq<char>, Seq<char>)> {
    entries.map_values(|entry: (String, String)| (entry.0@, entry.1@))
}

/// A finite map from tag names to tag values.
///
/// The tags are kept in the order in which their names were first inserted;
/// no name occurs twice.
#[derive(Debug)]
pub struct Tags {
    entries: Vec<(String, String)>,
}

impl View for Tags {
    type V = Map<Seq<char>, Seq<char>>;

    closed spec fn view(&self) -> Map<Seq<char>, Seq<char>> {
        assoc_map(tag_pairs(self.entries@))
    }
}

impl Tags {
    #[verifier::type_invariant]
    spec fn well_formed(self) -> bool {
        distinct_keys(tag_pairs(self.entries@))
    }

    /// The empty tag map.
    pub fn new() -> (tags: Tags)
        ensures
            tags@ == Map::<Seq<char>, Seq<char>>::empty(),
    {
        let entries: Vec<(String, String)> = Vec::new();
        proof {
            lemma_assoc_empty::<Seq<char>>();
            assert(tag_pairs(entries@) =~= Seq::<(Seq<char>, Seq<char>)>::empty());
        }
        Tags { entries }
    }

    /// The number of tags.
    pub fn len(&self) -> (count: usize)
        ensures
            self@.dom().finite(),
            count == self@.len(),
    {
        proof {
            use_type_invariant(self);
            lemma_assoc_len(tag_pairs(self.entries@));
        }
        self.entries.len()
    }

    /// The position of the entry named `name`, if there is one.
    fn find(&self, name: &String) -> (found: Option<usize>)
        ensures
            match found {
                Some(i) => i < self.entries@.len() && self.entries@[i as int].0@ == name@,
                None => !has_key(tag_pairs(self.entries@), name@),
            },
    {
        let mut i: usize = 0;
        while i < self.entries.len()
            invariant
                i <= self.entries@.len(),
                forall|j: int| 0 <= j < i ==> (#[trigger] self.entries@[j]).0@ != name@,
            decreases self.entries@.len() - i,
        {
            if self.entries[i].0 == *name {
                return Some(i);
            }
            i += 1;
        }
        proof {
            let pairs = tag_pairs(self.entries@);
            assert forall|j: int| 0 <= j < pairs.len() implies (#[trigger] pairs[j]).0 != name@ by {
                assert(self.entries@[j].0@ != name@);
            }
        }
        None
    }

    /// The value of the tag named `name`, if the map has one.
    pub fn get(&self, name: &str) -> (value: Option<&String>)
        ensures
            match value {
                Some(v) => self@.contains_key(name@) && self@[name@] == v@,
                None => !self@.contains_key(name@),
            },
    {
        let needle = name.to_owned();
        match self.find(&needle) {
            Some(i) => {
                proof {
                    use_type_invariant(self);
                    lemma_assoc_entry(tag_pairs(self.entries@), i as int);
                }
                Some(&self.entries[i].1)
            },
            None => {
                proof {
                    lemma_assoc_absent(tag_pairs(self.entries@), name@);
                }
                None
            },
        }
    }

    /// Sets the tag named `name` to `value` and returns the value it had before.
    pub fn insert(&mut self, name: String, value: String) -> (previous: Option<String>)
        ensures
            final(self)@ == old(self)@.insert(name@, value@),
            match previous {
                Some(v) => old(self)@.contains_key(name@) && old(self)@[name@] == v@,
                None => !old(self)@.contains_key(name@),
            },
    {
        proof {
            use_type_invariant(&*self);
        }
        let ghost before = tag_pairs(self.entries@);
        let found = self.find(&name);
        let mut entries: Vec<(String, String)> = Vec::new();
        proof {
            lemma_assoc_empty::<Seq<char>>();
            assert(tag_pairs(entries@) =~= Seq::<(Seq<char>, Seq<char>)>::empty());
        }
        std::mem::swap(&mut self.entries, &mut entries);
        match found {
            Some(i) => {
                proof {
                    lemma_assoc_entry(before, i as int);
                    lemma_assoc_update(before, i as int, value@);
                }
                let taken = entries.remove(i);
                entries.insert(i, (name, value));
                proof {
                    assert(tag_pairs(entries@) =~= before.update(
                        i as int,
                        (before[i as int].0, value@),
                    ));
                }
                self.entries = entries;
                Some(taken.1)
            },
            None => {
                proof {
                    lemma_assoc_absent(before, name@);
                    lemma_assoc_push(before, name@, value@);
                }
                entries.push((name, value));
                proof {
                    assert(tag_pairs(entries@) =~= before.push((name@, value@)));
                }
                self.entries = entries;
                None
            },
        }
    }

    /// The tags as a list of `(name, value)` entries, each name once.
    pub fn to_vec(&self) -> (entries: Vec<(String, String)>)
        ensures
            distinct_keys(tag_pairs(entries@)),
            assoc_map(tag_pairs(entries@)) == self@,
    {
        proof {
            use_type_invariant(self);
        }
        let copy = self.clone();
        proof {
            use_type_invariant(&copy);
        }
        copy.entries
    }
}

impl Clone for Tags {
    fn clone(&self) -> (copy: Self)
        ensures
            copy@ == self@,
    {
        proof {
            use_type_invariant(self);
        }
        let mut entries: Vec<(String, String)> = Vec::new();
        let mut i: usize = 0;
        while i < self.entries.len()
            invariant
                i <= self.entries@.len(),
                entries@.len() == i,
                forall|j: int|
                    0 <= j < i ==> (#[trigger] entries@[j]).0@ == self.entries@[j].0@
                        && entries@[j].1@ == self.entries@[j].1@,
            decreases self.entries@.len() - i,
        {
            let name = self.entries[i].0.clone();
            let value = self.entries[i].1.clone();
            entries.push((name, value));
            i += 1;
        }
        proof {
            assert(tag_pairs(entries@) =~= tag_pairs(self.entries@));
        }
        Tags { entries }
    }
}

} // verus!
