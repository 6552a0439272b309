//! The string annotations that a cluster attaches to a node.

use crate::text::str_eq;
use vstd::prelude::*;

verus! {

/// A finite map from annotation key to annotation value.
///
/// The entries are kept in a vector in which no key occurs twice, so that
/// the vector determines the map and a lookup is a linear search.
pub struct Annotations {
    entries: Vec<(String, String)>,
}

/// The key of the entry at position `i`.
pub closed spec fn key_at(entries: Seq<(String, String)>, i: int) -> Seq<char> {
    entries[i].0@
}

/// Whether some entry of `entries` has the key `key`.
pub closed spec fn has_key(entries: Seq<(String, String)>, key: Seq<char>) -> bool {
    exists|i: int| 0 <= i < entries.len() && #[trigger] key_at(entries, i) == key
}

/// The position of an entry with the key `key`.
pub closed spec fn position_of(entries: Seq<(String, String)>, key: Seq<char>) -> int {
    choose|i: int| 0 <= i < entries.len() && #[trigger] key_at(entries, i) == key
}

/// No key occurs at two positions.
pub closed spec fn distinct_keys(entries: Seq<(String, String)>) -> bool {
    forall|i: int, j: int|
        0 <= i < j < entries.len() ==> #[trigger] key_at(entries, i) != #[trigger] key_at(
            entries,
            j,
        )
}

/// The map that a vector of entries stands for.
pub closed spec fn entries_map(entries: Seq<(String, String)>) -> Map<Seq<char>, Seq<char>> {
    Map::new(
        |key: Seq<char>| has_key(entries, key),
        |key: Seq<char>| entries[position_of(entries, key)].1@,
    )
}

/// With distinct keys, the entry at position `i` is the one the map holds
/// for its key.
proof fn lemma_entry_in_map(entries: Seq<(String, String)>, i: int)
    requires
        distinct_keys(entries),
        0 <= i < entries.len(),
    ensures
        entries_map(entries).contains_key(entries[i].0@),
        entries_map(entries)[entries[i].0@] == entries[i].1@,
{
    let key = key_at(entries, i);
    assert(has_key(entries, key));
    let p = position_of(entries, key);
    assert(key_at(entries, p) == key);
    if p < i {
        assert(key_at(entries, p) != key_at(entries, i));
    } else if i < p {
        assert(key_at(entries, i) != key_at(entries, p));
    }
}

impl View for Annotations {
    type V = Map<Seq<char>, Seq<char>>;

    closed spec fn view(&self) -> Map<Seq<char>, Seq<char>> {
        entries_map(self.entries@)
    }
}

impl Annotations {
    #[verifier::type_invariant]
    spec fn well_formed(&self) -> bool {
        distinct_keys(self.entries@)
    }

    /// The empty set of annotations.
    pub fn new() -> (annotations: Annotations)
        ensures
            annotations@ == Map::<Seq<char>, Seq<char>>::empty(),
    {
        let annotations = Annotations { entries: Vec::new() };
        assert(annotations@ =~= Map::<Seq<char>, Seq<char>>::empty());
        annotations
    }

    /// The value annotated under `key`, if there is one.
    pub fn get(&self, key: &str) -> (value: Option<&String>)
        ensures
            match value {
                Some(v) => self@.contains_key(key@) && self@[key@] == v@,
                None => !self@.contains_key(key@),
            },
    {
        proof {
            use_type_invariant(self);
        }
        let mut i: usize = 0;
        while i < self.entries.len()
            invariant
                i <= self.entries@.len(),
                distinct_keys(self.entries@),
                forall|j: int| 0 <= j < i ==> #[trigger] key_at(self.entries@, j) != key@,
            decreases self.entries@.len() - i,
        {
            if str_eq(self.entries[i].0.as_str(), key) {
                proof {
                    lemma_entry_in_map(self.entries@, i as int);
                }
                return Some(&self.entries[i].1);
            }
            i += 1;
        }
        None
    }

    /// Annotates `value` under `key`, in place of any value that was there.
    pub fn insert(&mut self, key: String, value: String)
        ensures
            final(self)@ == old(self)@.insert(key@, value@),
    {
        proof {
            use_type_invariant(&*self);
        }
        let mut entries: Vec<(String, String)> = Vec::new();
        std::mem::swap(&mut entries, &mut self.entries);
        let ghost before = entries@;
        let mut i: usize = 0;
        while i < entries.len() && !str_eq(entries[i].0.as_str(), key.as_str())
            invariant
                i <= entries@.len(),
                entries@ == before,
                forall|j: int| 0 <= j < i ==> #[trigger] key_at(before, j) != key@,
            decreases entries@.len() - i,
        {
            i += 1;
        }
        if i < entries.len() {
            entries.set(i, (key, value));
        } else {
            entries.push((key, value));
        }
        proof {
            let after = entries@;
            let at = i as int;
            assert(key_at(after, at) == key@);
            assert forall|j: int| 0 <= j < after.len() && j != at implies key_at(after, j)
                == key_at(before, j) && after[j] == before[j] && key_at(after, j) != key@ by {
                if j < at {
                    assert(key_at(before, j) != key@);
                } else {
                    assert(key_at(before, at) == key@);
                    assert(key_at(before, at) != key_at(before, j));
                }
            }
            assert(distinct_keys(after)) by {
                assert forall|a: int, b: int| 0 <= a < b < after.len() implies key_at(after, a)
                    != key_at(after, b) by {
                    if a != at && b != at {
                        assert(key_at(before, a) != key_at(before, b));
                    }
                }
            }
            assert forall|k: Seq<char>| #[trigger]
                entries_map(after).contains_key(k) == entries_map(before).insert(
                    key@,
                    value@,
                ).contains_key(k) by {
                if k == key@ {
                    assert(has_key(after, k));
                } else if has_key(after, k) {
                    let p = position_of(after, k);
                    assert(key_at(before, p) == k);
                } else if has_key(before, k) {
                    let p = position_of(before, k);
                    assert(key_at(after, p) == k);
                }
            }
            assert forall|k: Seq<char>| #[trigger]
                entries_map(after).contains_key(k) implies entries_map(after)[k]
                == entries_map(before).insert(key@, value@)[k] by {
                let p = position_of(after, k);
                assert(key_at(after, p) == k);
                lemma_entry_in_map(after, p);
                if k != key@ {
                    lemma_entry_in_map(before, p);
                }
            }
            assert(entries_map(after) =~= entries_map(before).insert(key@, value@));
        }
        self.entries = entries;
    }
}

} // verus!
