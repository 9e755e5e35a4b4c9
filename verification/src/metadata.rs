//! User-defined name/value pairs of a blob or a queue.

use crate::text::str_equal;
use vstd::prelude::*;
use vstd::string::*;

verus! {

/// A pair of texts as the contracts see it.
pub type Pair = (Seq<char>, Seq<char>);

/// Whether no key occurs twice in `pairs`.
pub open spec fn distinct_keys(pairs: Seq<Pair>) -> bool {
    forall|i: int, j: int|
        0 <= i < j < pairs.len() ==> (#[trigger] pairs[i]).0 != (#[trigger] pairs[j]).0
}

/// Where `key` stands in `pairs`, if it does.
pub open spec fn position_of(pairs: Seq<Pair>, key: Seq<char>) -> Option<int>
    decreases pairs.len(),
{
    if pairs.len() == 0 {
        None
    } else if pairs[0].0 == key {
        Some(0)
    } else {
        match position_of(pairs.skip(1), key) {
            Some(i) => Some(i + 1),
            None => None,
        }
    }
}

/// The value under `key`, if there is one.
pub open spec fn value_of(pairs: Seq<Pair>, key: Seq<char>) -> Option<Seq<char>> {
    match position_of(pairs, key) {
        Some(i) => Some(pairs[i].1),
        None => None,
    }
}

/// `pairs` with `value` under `key`: in the place of the old value where the
/// key was there, at the end otherwise.
pub open spec fn with_pair(pairs: Seq<Pair>, key: Seq<char>, value: Seq<char>) -> Seq<Pair> {
    match position_of(pairs, key) {
        Some(i) => pairs.update(i, (key, value)),
        None => pairs.push((key, value)),
    }
}

/// What `position_of` finds is the first place where the key stands.
pub proof fn lemma_position_of(pairs: Seq<Pair>, key: Seq<char>)
    ensures
        match position_of(pairs, key) {
            Some(i) => 0 <= i < pairs.len() && pairs[i].0 == key && forall|j: int|
                0 <= j < i ==> (#[trigger] pairs[j]).0 != key,
            None => forall|j: int| 0 <= j < pairs.len() ==> (#[trigger] pairs[j]).0 != key,
        },
    decreases pairs.len(),
{
    if pairs.len() > 0 && pairs[0].0 != key {
        let rest = pairs.skip(1);
        lemma_position_of(rest, key);
        match position_of(rest, key) {
            Some(i) => {
                assert forall|j: int| 0 <= j < i + 1 implies (#[trigger] pairs[j]).0 != key by {
                    if j > 0 {
                        assert(pairs[j] == rest[j - 1]);
                    }
                }
            },
            None => {
                assert forall|j: int| 0 <= j < pairs.len() implies (#[trigger] pairs[j]).0
                    != key by {
                    if j > 0 {
                        assert(pairs[j] == rest[j - 1]);
                    }
                }
            },
        }
    }
}

/// Putting a value under a key keeps the keys distinct, and the value is
/// then the one found under that key.
pub proof fn lemma_with_pair(pairs: Seq<Pair>, key: Seq<char>, value: Seq<char>)
    requires
        distinct_keys(pairs),
    ensures
        distinct_keys(with_pair(pairs, key, value)),
        value_of(with_pair(pairs, key, value), key) == Some(value),
{
    let after = with_pair(pairs, key, value);
    lemma_position_of(pairs, key);
    lemma_position_of(after, key);
    match position_of(pairs, key) {
        Some(i) => {
            assert(after[i].0 == key);
        },
        None => {
            assert(after[pairs.len() as int].0 == key);
        },
    }
}

/// Putting a second value under a key leaves only the second.
pub proof fn lemma_with_pair_twice(
    pairs: Seq<Pair>,
    key: Seq<char>,
    first: Seq<char>,
    second: Seq<char>,
)
    ensures
        with_pair(with_pair(pairs, key, first), key, second) == with_pair(pairs, key, second),
{
    let once = with_pair(pairs, key, first);
    lemma_position_of(pairs, key);
    lemma_position_of(once, key);
    match position_of(pairs, key) {
        Some(i) => {
            assert(once[i].0 == key);
            assert(position_of(once, key) == Some(i)) by {
                let k = position_of(once, key)->0;
                if k < i {
                    assert(once[k] == pairs[k]);
                }
            }
            assert(once.update(i, (key, second)) =~= pairs.update(i, (key, second)));
        },
        None => {
            let n = pairs.len() as int;
            assert(once[n].0 == key);
            assert(position_of(once, key) == Some(n)) by {
                let k = position_of(once, key)->0;
                if k < n {
                    assert(once[k] == pairs[k]);
                }
            }
            assert(once.update(n, (key, second)) =~= pairs.push((key, second)));
        },
    }
}

/// Name/value pairs with distinct names, in the order in which the names
/// were first given.
#[derive(Debug, PartialEq, Eq)]
pub struct Metadata {
    entries: Vec<(String, String)>,
}

impl View for Metadata {
    type V = Seq<Pair>;

    closed spec fn view(&self) -> Seq<Pair> {
        Seq::new(self.entries@.len(), |i: int| (self.entries@[i].0@, self.entries@[i].1@))
    }
}

impl Clone for Metadata {
    fn clone(&self) -> (r: Metadata)
        ensures
            r@ == self@,
    {
        proof {
            use_type_invariant(self);
        }
        let mut entries: Vec<(String, String)> = Vec::new();
        let mut i: usize = 0;
        while i < self.entries.len()
            invariant
                i <= self.entries.len(),
                entries@.len() == i,
                forall|j: int|
                    0 <= j < i ==> (#[trigger] entries@[j]).0@ == self.entries@[j].0@
                        && entries@[j].1@ == self.entries@[j].1@,
            decreases self.entries.len() - i,
        {
            entries.push((self.entries[i].0.clone(), self.entries[i].1.clone()));
            i = i + 1;
        }
        assert(Seq::new(entries@.len(), |i: int| (entries@[i].0@, entries@[i].1@)) =~= self@);
        Metadata { entries }
    }
}

impl Metadata {
    #[verifier::type_invariant]
    spec fn keys_are_distinct(self) -> bool {
        distinct_keys(self@)
    }

    /// No pair at all.
    pub fn new() -> (r: Metadata)
        ensures
            r@ == Seq::<Pair>::empty(),
    {
        let r = Metadata { entries: Vec::new() };
        assert(r@ =~= Seq::<Pair>::empty());
        r
    }

    /// The number of pairs.
    pub fn len(&self) -> (r: usize)
        ensures
            r == self@.len(),
    {
        self.entries.len()
    }

    /// Whether there is no pair.
    pub fn is_empty(&self) -> (r: bool)
        ensures
            r == (self@.len() == 0),
    {
        self.entries.len() == 0
    }

    fn find(&self, key: &str) -> (r: Option<usize>)
        ensures
            match r {
                Some(i) => position_of(self@, key@) == Some(i as int),
                None => position_of(self@, key@) is None,
            },
    {
        let mut i: usize = 0;
        while i < self.entries.len()
            invariant
                i <= self.entries.len(),
                forall|j: int| 0 <= j < i ==> (#[trigger] self@[j]).0 != key@,
            decreases self.entries.len() - i,
        {
            if str_equal(self.entries[i].0.as_str(), key) {
                proof {
                    lemma_position_of(self@, key@);
                    assert(self@[i as int].0 == key@);
                }
                return Some(i);
            }
            i = i + 1;
        }
        proof {
            lemma_position_of(self@, key@);
        }
        None
    }

    /// The value under `key`, if there is one.
    pub fn get(&self, key: &str) -> (r: Option<&str>)
        ensures
            crate::text::option_str(r) == value_of(self@, key@),
    {
        match self.find(key) {
            Some(i) => {
                proof {
                    lemma_position_of(self@, key@);
                }
                Some(self.entries[i].1.as_str())
            },
            None => None,
        }
    }

    /// The name at place `i`.
    pub fn key_at(&self, i: usize) -> (r: &str)
        requires
            i < self@.len(),
        ensures
            r@ == self@[i as int].0,
    {
        self.entries[i].0.as_str()
    }

    /// The value at place `i`.
    pub fn value_at(&self, i: usize) -> (r: &str)
        requires
            i < self@.len(),
        ensures
            r@ == self@[i as int].1,
    {
        self.entries[i].1.as_str()
    }

    /// Puts `value` under `key`. A value that was there before is replaced.
    pub fn insert(&mut self, key: &str, value: &str)
        ensures
            final(self)@ == with_pair(old(self)@, key@, value@),
    {
        proof {
            use_type_invariant(&*self);
            lemma_with_pair(self@, key@, value@);
        }
        let ghost before = self@;
        let ghost held = self.entries@;
        let found = self.find(key);
        proof {
            lemma_position_of(before, key@);
        }
        let mut entries: Vec<(String, String)> = Vec::new();
        std::mem::swap(&mut self.entries, &mut entries);
        assert(entries@ == held);
        assert(before.len() == held.len());
        assert(forall|i: int| 0 <= i < held.len() ==> before[i] == (held[i].0@, held[i].1@));
        match found {
            Some(i) => {
                entries.set(i, (String::from_str(key), String::from_str(value)));
            },
            None => {
                entries.push((String::from_str(key), String::from_str(value)));
            },
        }
        assert(Seq::new(entries@.len(), |i: int| (entries@[i].0@, entries@[i].1@)) =~= with_pair(
            before,
            key@,
            value@,
        ));
        self.entries = entries;
    }
}

} // verus!
