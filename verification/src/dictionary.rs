//! The dictionary: the text of each word that has been defined, by name.

use vstd::prelude::*;
use crate::text::same_text;

verus! {

/// A defined word: its name, and the text that stands for it.
struct Entry {
    name: String,
    body: String,
}

/// The words that have been defined. A name stands in it once: defining it
/// again replaces its text.
pub struct Dictionary {
    entries: Vec<Entry>,
}

/// Whether the entry at `i` is the one named `name`.
spec fn names(entries: Seq<Entry>, i: int, name: Seq<char>) -> bool {
    0 <= i < entries.len() && entries[i].name@ == name
}

/// Whether no two entries have one name.
spec fn distinct(entries: Seq<Entry>) -> bool {
    forall|i: int, j: int|
        0 <= i < j < entries.len() ==> (#[trigger] entries[i]).name@ != (#[trigger] entries[j]).name@
}

/// The map from each name among `entries` to its text.
spec fn as_map(entries: Seq<Entry>) -> Map<Seq<char>, Seq<char>> {
    Map::new(
        |name: Seq<char>| exists|i: int| names(entries, i, name),
        |name: Seq<char>| entries[choose|i: int| names(entries, i, name)].body@,
    )
}

impl View for Dictionary {
    type V = Map<Seq<char>, Seq<char>>;

    /// The text of each defined word, by name.
    closed spec fn view(&self) -> Map<Seq<char>, Seq<char>> {
        as_map(self.entries@)
    }
}

impl Dictionary {
    #[verifier::type_invariant]
    spec fn well_formed(self) -> bool {
        distinct(self.entries@)
    }

    /// A dictionary without words.
    pub fn new() -> (d: Self)
        ensures
            d@ == Map::<Seq<char>, Seq<char>>::empty(),
    {
        Dictionary { entries: Vec::new() }
    }

    /// Where the word `name` stands among the entries, if it is defined.
    fn position(&self, name: &str) -> (r: Option<usize>)
        ensures
            match r {
                Some(i) => names(self.entries@, i as int, name@),
                None => forall|i: int| !names(self.entries@, i, name@),
            },
    {
        let mut i: usize = 0;
        while i < self.entries.len()
            invariant
                i <= self.entries.len(),
                forall|j: int| 0 <= j < i ==> !names(self.entries@, j, name@),
            decreases self.entries.len() - i,
        {
            if same_text(self.entries[i].name.as_str(), name) {
                return Some(i);
            }
            i += 1;
        }
        None
    }

    /// The text of the word `name`, if it is defined.
    pub fn get(&self, name: &str) -> (r: Option<&str>)
        ensures
            match r {
                Some(body) => self@.contains_key(name@) && body@ == self@[name@],
                None => !self@.contains_key(name@),
            },
    {
        proof {
            use_type_invariant(self);
        }
        match self.position(name) {
            Some(i) => Some(self.entries[i].body.as_str()),
            None => None,
        }
    }

    /// Defines the word `name` as `body`, in place of what it was before.
    pub fn insert(&mut self, name: String, body: String)
        ensures
            final(self)@ == old(self)@.insert(name@, body@),
    {
        proof {
            use_type_invariant(&*self);
        }
        let found = self.position(name.as_str());
        let ghost before = self.entries@;
        let ghost key = name@;
        let ghost text = body@;
        let mut entries = Vec::new();
        core::mem::swap(&mut entries, &mut self.entries);
        match found {
            Some(i) => {
                entries.set(i, Entry { name, body });
            },
            None => {
                entries.push(Entry { name, body });
            },
        }
        let ghost after = entries@;
        proof {
            let at: int = match found {
                Some(i) => i as int,
                None => before.len() as int,
            };
            assert(names(after, at, key));
            assert forall|i: int, j: int| 0 <= i < j < after.len() implies (#[trigger] after[i]).name@
                != (#[trigger] after[j]).name@ by {
                if found is None && j == at {
                    assert(!names(before, i, key));
                }
            }
            assert forall|n: Seq<char>| #[trigger]
                as_map(after).contains_key(n) <==> as_map(before).insert(key, text).contains_key(
                    n,
                ) by {
                if as_map(after).contains_key(n) {
                    let k = choose|k: int| names(after, k, n);
                    if k != at {
                        assert(names(before, k, n));
                    }
                }
                if n != key && as_map(before).contains_key(n) {
                    let k = choose|k: int| names(before, k, n);
                    assert(names(after, k, n));
                }
            }
            assert forall|n: Seq<char>| #[trigger]
                as_map(after).contains_key(n) implies as_map(after)[n] == as_map(before).insert(
                key,
                text,
            )[n] by {
                let k = choose|k: int| names(after, k, n);
                if n == key {
                    assert(k == at);
                } else {
                    assert(names(before, k, n));
                    let k0 = choose|k0: int| names(before, k0, n);
                    assert(k0 == k);
                }
            }
            assert(as_map(after) =~= as_map(before).insert(key, text));
        }
        self.entries = entries;
    }
}

} // verus!
