//! Extra key/value overrides handed to the service: a small map with unique
//! keys that keeps the order in which the keys first came.

use crate::text::same_text;
use vstd::prelude::*;

verus! {

/// Extra overrides, each key at most once.
#[derive(Debug, PartialEq, Eq, Hash)]
pub struct Extras {
    entries: Vec<(String, String)>,
}

/// The keys of a list of entries, in their order.
spec fn keys_of(entries: Seq<(String, String)>) -> Seq<Seq<char>> {
    Seq::new(entries.len(), |i: int| entries[i].0@)
}

impl View for Extras {
    type V = Map<Seq<char>, Seq<char>>;

    /// The overrides as a map from key to value.
    open spec fn view(&self) -> Map<Seq<char>, Seq<char>> {
        Map::new(
            |k: Seq<char>| self.keys().contains(k),
            |k: Seq<char>| self.values()[self.keys().index_of(k)],
        )
    }
}

impl Extras {
    /// The keys, in the order they are held.
    pub closed spec fn keys(&self) -> Seq<Seq<char>> {
        keys_of(self.entries@)
    }

    /// The values, each at the place of its key.
    pub closed spec fn values(&self) -> Seq<Seq<char>> {
        Seq::new(self.entries@.len(), |i: int| self.entries@[i].1@)
    }

    #[verifier::type_invariant]
    spec fn distinct_keys(&self) -> bool {
        self.keys().no_duplicates()
    }

    /// No overrides.
    pub fn new() -> (extras: Extras)
        ensures
            extras@ == Map::<Seq<char>, Seq<char>>::empty(),
            extras.keys().len() == 0,
    {
        let extras = Extras { entries: Vec::new() };
        assert(extras@ =~= Map::<Seq<char>, Seq<char>>::empty());
        extras
    }

    /// How many overrides there are.
    pub fn len(&self) -> (n: usize)
        ensures
            n == self.keys().len(),
            n == self.values().len(),
            self.keys().no_duplicates(),
            self@.dom().finite(),
            n == self@.dom().len(),
    {
        proof {
            use_type_invariant(self);
            self.keys().unique_seq_to_set();
            assert(self@.dom() =~= self.keys().to_set());
        }
        self.entries.len()
    }

    /// The key and the value at a place.
    pub fn entry(&self, i: usize) -> (pair: (&str, &str))
        requires
            i < self.keys().len(),
        ensures
            pair.0@ == self.keys()[i as int],
            pair.1@ == self.values()[i as int],
            self@.contains_key(pair.0@),
            self@[pair.0@] == pair.1@,
    {
        proof {
            use_type_invariant(self);
            let k = self.keys()[i as int];
            assert(self.keys().contains(k));
            assert(self.keys().index_of(k) == i as int);
        }
        let entry = &self.entries[i];
        (entry.0.as_str(), entry.1.as_str())
    }

    /// Where a key is held, if it is.
    fn position(&self, key: &str) -> (at: Option<usize>)
        ensures
            match at {
                Some(i) => i < self.keys().len() && self.keys()[i as int] == key@,
                None => !self.keys().contains(key@),
            },
    {
        let mut i: usize = 0;
        while i < self.entries.len()
            invariant
                i <= self.entries.len(),
                forall|j: int| 0 <= j < i ==> self.keys()[j] != key@,
            decreases self.entries.len() - i,
        {
            if same_text(self.entries[i].0.as_str(), key) {
                return Some(i);
            }
            i += 1;
        }
        None
    }

    /// The value of a key, if the key is held.
    pub fn get(&self, key: &str) -> (value: Option<&str>)
        ensures
            match value {
                Some(v) => self@.contains_key(key@) && self@[key@] == v@,
                None => !self@.contains_key(key@),
            },
    {
        match self.position(key) {
            Some(i) => {
                let pair = self.entry(i);
                Some(pair.1)
            },
            None => None,
        }
    }

    /// Sets the value of a key: a key that is held gets the new value, a new
    /// key comes last.
    pub fn insert(self, key: String, value: String) -> (extras: Extras)
        ensures
            extras@ == self@.insert(key@, value@),
            extras.keys() == if self.keys().contains(key@) {
                self.keys()
            } else {
                self.keys().push(key@)
            },
    {
        proof {
            use_type_invariant(&self);
        }
        let at = self.position(key.as_str());
        let ghost before = self;
        let mut entries = self.entries;
        let ghost k = key@;
        let ghost v = value@;
        match at {
            Some(i) => {
                entries.set(i, (key, value));
            },
            None => {
                entries.push((key, value));
            },
        }
        let ghost spot = match at {
            Some(i) => i as int,
            None => before.keys().len() as int,
        };
        proof {
            assert forall|a: int, b: int|
                0 <= a < b < keys_of(entries@).len() implies keys_of(entries@)[a] != keys_of(
                entries@,
            )[b] by {
                if a != spot {
                    assert(keys_of(entries@)[a] == before.keys()[a]);
                }
                if b != spot {
                    assert(keys_of(entries@)[b] == before.keys()[b]);
                }
            }
        }
        let extras = Extras { entries };
        proof {
            assert(extras.keys()[spot] == k);
            assert(extras.values()[spot] == v);
            assert forall|a: int| 0 <= a < before.keys().len() && a != spot implies extras.keys()[a]
                == before.keys()[a] && extras.values()[a] == before.values()[a] by {}
            assert forall|x: Seq<char>| #[trigger] extras.keys().contains(x) <==> (x == k
                || before.keys().contains(x)) by {
                if extras.keys().contains(x) {
                    let a = extras.keys().index_of(x);
                    if a != spot {
                        assert(before.keys()[a] == x);
                    }
                }
                if before.keys().contains(x) {
                    let a = before.keys().index_of(x);
                    assert(extras.keys()[a] == x || x == k);
                }
            }
            assert forall|x: Seq<char>| #[trigger] extras.keys().contains(x) implies extras@[x]
                == before@.insert(k, v)[x] by {
                let a = extras.keys().index_of(x);
                if a != spot {
                    assert(before.keys()[a] == x);
                    assert(before.keys().index_of(x) == a);
                }
            }
            assert(extras@ =~= before@.insert(k, v));
            if before.keys().contains(k) {
                assert(extras.keys() =~= before.keys());
            } else {
                assert(extras.keys() =~= before.keys().push(k));
            }
        }
        extras
    }

    /// Collects pairs into overrides, from the first pair to the last: of two
    /// pairs with one key the later one gives the value.
    pub fn from_pairs(pairs: &Vec<(String, String)>) -> (extras: Extras)
        ensures
            extras@ == collected(pairs@, pairs@.len()),
    {
        let mut extras = Extras::new();
        let mut i: usize = 0;
        while i < pairs.len()
            invariant
                i <= pairs.len(),
                extras@ == collected(pairs@, i as nat),
            decreases pairs.len() - i,
        {
            let key = pairs[i].0.clone();
            let value = pairs[i].1.clone();
            extras = extras.insert(key, value);
            i += 1;
        }
        extras
    }
}

/// The map that the first `n` pairs give when each is set in turn.
pub open spec fn collected(pairs: Seq<(String, String)>, n: nat) -> Map<Seq<char>, Seq<char>>
    decreases n,
{
    if n == 0 {
        Map::empty()
    } else {
        collected(pairs, (n - 1) as nat).insert(pairs[n - 1].0@, pairs[n - 1].1@)
    }
}

} // verus!
