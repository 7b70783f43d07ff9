//! Values kept by a text.

use vstd::prelude::*;

use crate::text::same_text;

verus! {

/// Values kept by a text, one for each text.
#[derive(Debug, PartialEq)]
pub struct KeyedList<T> {
    entries: Vec<(String, T)>,
}

/// The entries of a list as a map: the last entry of a key counts.
pub open spec fn pairs_map<T: DeepView>(pairs: Seq<(String, T)>) -> Map<Seq<char>, T::V>
    decreases pairs.len(),
{
    if pairs.len() == 0 {
        Map::empty()
    } else {
        pairs_map(pairs.drop_last()).insert(pairs.last().0@, pairs.last().1.deep_view())
    }
}

/// Whether no key occurs twice.
pub open spec fn distinct_keys<T>(pairs: Seq<(String, T)>) -> bool {
    forall|i: int, j: int|
        0 <= i < j < pairs.len() ==> (#[trigger] pairs[i]).0@ != (#[trigger] pairs[j]).0@
}

impl<T: DeepView> View for KeyedList<T> {
    type V = Map<Seq<char>, T::V>;

    closed spec fn view(&self) -> Map<Seq<char>, T::V> {
        pairs_map(self.entries@)
    }
}

/// A key is in the map exactly where an entry carries it, with that entry's value.
proof fn lemma_pairs_lookup<T: DeepView>(pairs: Seq<(String, T)>, key: Seq<char>)
    requires
        distinct_keys(pairs),
    ensures
        pairs_map(pairs).contains_key(key) <==> exists|i: int|
            0 <= i < pairs.len() && (#[trigger] pairs[i]).0@ == key,
        forall|i: int|
            0 <= i < pairs.len() && (#[trigger] pairs[i]).0@ == key ==> pairs_map(pairs)[key]
                == pairs[i].1.deep_view(),
    decreases pairs.len(),
{
    if pairs.len() > 0 {
        let front = pairs.drop_last();
        assert(forall|i: int| 0 <= i < front.len() ==> front[i] == pairs[i]);
        lemma_pairs_lookup(front, key);
        assert(pairs.last() == pairs[pairs.len() - 1]);
        if pairs_map(front).contains_key(key) {
            let i = choose|i: int| 0 <= i < front.len() && (#[trigger] front[i]).0@ == key;
            assert(pairs[i].0@ == key);
        }
    }
}

/// Without one entry, the map is without its key.
proof fn lemma_pairs_remove<T: DeepView>(pairs: Seq<(String, T)>, n: int)
    requires
        distinct_keys(pairs),
        0 <= n < pairs.len(),
    ensures
        distinct_keys(pairs.remove(n)),
        pairs_map(pairs.remove(n)) == pairs_map(pairs).remove(pairs[n].0@),
{
    let rest = pairs.remove(n);
    let key = pairs[n].0@;
    assert(forall|i: int|
        0 <= i < rest.len() ==> rest[i] == if i < n {
            pairs[i]
        } else {
            pairs[i + 1]
        });
    let before = pairs_map(pairs).remove(key);
    let after = pairs_map(rest);
    assert forall|k: Seq<char>|
        (#[trigger] before.contains_key(k) <==> after.contains_key(k)) && (before.contains_key(k)
            ==> before[k] == after[k]) by {
        lemma_pairs_lookup(pairs, k);
        lemma_pairs_lookup(rest, k);
        if before.contains_key(k) {
            let i = choose|i: int| 0 <= i < pairs.len() && (#[trigger] pairs[i]).0@ == k;
            let at = if i < n {
                i
            } else {
                i - 1
            };
            assert(rest[at] == pairs[i]);
        }
        if after.contains_key(k) {
            let i = choose|i: int| 0 <= i < rest.len() && (#[trigger] rest[i]).0@ == k;
            let at = if i < n {
                i
            } else {
                i + 1
            };
            assert(pairs[at] == rest[i]);
            assert(pairs[at].0@ != pairs[n].0@);
        }
    }
    assert(before =~= after);
}

impl<T> KeyedList<T> {
    #[verifier::type_invariant]
    spec fn well_formed(self) -> bool {
        distinct_keys(self.entries@)
    }

    /// Where a key stands.
    fn position(&self, key: &str) -> (found: Option<usize>)
        ensures
            found matches Some(n) ==> n < self.entries.len() && self.entries@[n as int].0@ == key@,
            found is None ==> forall|i: int|
                0 <= i < self.entries.len() ==> (#[trigger] self.entries@[i]).0@ != key@,
    {
        let mut n: usize = 0;
        while n < self.entries.len()
            invariant
                n <= self.entries.len(),
                forall|i: int| 0 <= i < n ==> (#[trigger] self.entries@[i]).0@ != key@,
            decreases self.entries.len() - n,
        {
            if same_text(self.entries[n].0.as_str(), key) {
                return Some(n);
            }
            n += 1;
        }
        None
    }
}

impl<T: DeepView> KeyedList<T> {
    /// A list that keeps nothing.
    pub fn new() -> (list: Self)
        ensures
            list@ == Map::<Seq<char>, T::V>::empty(),
    {
        KeyedList { entries: Vec::new() }
    }

    /// The value that is kept by a text.
    pub fn get(&self, key: &str) -> (value: Option<&T>)
        ensures
            value matches Some(v) ==> self@.contains_key(key@) && self@[key@] == v.deep_view(),
            value is None ==> !self@.contains_key(key@),
    {
        proof {
            use_type_invariant(&*self);
            lemma_pairs_lookup(self.entries@, key@);
        }
        match self.position(key) {
            Some(n) => Some(&self.entries[n].1),
            None => None,
        }
    }

    /// Keeps nothing by a text any more.
    pub fn remove(&mut self, key: &str)
        ensures
            final(self)@ == old(self)@.remove(key@),
    {
        proof {
            use_type_invariant(&*self);
            lemma_pairs_lookup(self.entries@, key@);
        }
        match self.position(key) {
            Some(n) => {
                let mut entries: Vec<(String, T)> = Vec::new();
                std::mem::swap(&mut entries, &mut self.entries);
                proof {
                    lemma_pairs_remove(entries@, n as int);
                }
                entries.remove(n);
                self.entries = entries;
            },
            None => {
                assert(self@ =~= self@.remove(key@));
            },
        }
    }

    /// Keeps a value by a text, in place of what was kept by it.
    pub fn insert(&mut self, key: String, value: T)
        ensures
            final(self)@ == old(self)@.insert(key@, value.deep_view()),
    {
        self.remove(key.as_str());
        proof {
            use_type_invariant(&*self);
            lemma_pairs_lookup(self.entries@, key@);
        }
        let mut entries: Vec<(String, T)> = Vec::new();
        std::mem::swap(&mut entries, &mut self.entries);
        let ghost before = entries@;
        entries.push((key, value));
        proof {
            assert(entries@.drop_last() =~= before);
            assert forall|i: int, j: int| 0 <= i < j < entries@.len() implies (#[trigger] entries@[i]).0@
                != (#[trigger] entries@[j]).0@ by {
                assert(entries@[i] == before[i]);
                if j < before.len() {
                    assert(entries@[j] == before[j]);
                }
            }
            assert(pairs_map(entries@) =~= old(self)@.insert(key@, value.deep_view()));
        }
        self.entries = entries;
    }

    /// The entries, each key once.
    pub fn entries(&self) -> (entries: &Vec<(String, T)>)
        ensures
            distinct_keys(entries@),
            pairs_map(entries@) == self@,
    {
        proof {
            use_type_invariant(&*self);
        }
        &self.entries
    }
}

/// The entries of a list are what is kept: each value by its key, and nothing by a key that
/// no entry has.
pub proof fn law_entries_are_what_is_kept<T: DeepView>(
    entries: Seq<(String, T)>,
    key: Seq<char>,
    n: int,
)
    requires
        distinct_keys(entries),
    ensures
        0 <= n < entries.len() && entries[n].0@ == key ==> pairs_map(entries).contains_key(key)
            && pairs_map(entries)[key] == entries[n].1.deep_view(),
        (forall|i: int| 0 <= i < entries.len() ==> (#[trigger] entries[i]).0@ != key)
            ==> !pairs_map(entries).contains_key(key),
{
    lemma_pairs_lookup(entries, key);
}

} // verus!
