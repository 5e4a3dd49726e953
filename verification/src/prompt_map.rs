//! Maps from prompt keys to values.

use vstd::prelude::*;

use crate::kernel::{PromptKey, PromptKeyView};

verus! {

/// The map that comes of putting pairs in one after another: of two pairs with one key, the
/// later one counts.
pub open spec fn collected<V>(pairs: Seq<(PromptKey, V)>) -> Map<PromptKeyView, V>
    decreases pairs.len(),
{
    if pairs.len() == 0 {
        Map::empty()
    } else {
        collected(pairs.drop_last()).insert(pairs.last().0@, pairs.last().1)
    }
}

/// No key stands twice in the pairs.
pub open spec fn keys_distinct<V>(pairs: Seq<(PromptKey, V)>) -> bool {
    forall|i: int, j: int| 0 <= i < j < pairs.len() ==> pairs[i].0@ != pairs[j].0@
}

/// A map from prompt keys to values.
#[derive(Debug)]
pub struct PromptMap<V> {
    pairs: Vec<(PromptKey, V)>,
}

impl<V> View for PromptMap<V> {
    type V = Map<PromptKeyView, V>;

    closed spec fn view(&self) -> Map<PromptKeyView, V> {
        collected(self.pairs@)
    }
}

impl<V> PromptMap<V> {
    /// Each key is held once.
    #[verifier::type_invariant]
    spec fn distinct(self) -> bool {
        keys_distinct(self.pairs@)
    }

    /// The map without entries.
    pub fn new() -> (map: Self)
        ensures
            map@ == Map::<PromptKeyView, V>::empty(),
    {
        PromptMap { pairs: Vec::new() }
    }

    /// The position of the pair with the given key.
    fn find(&self, key: &PromptKey) -> (found: Option<usize>)
        ensures
            match found {
                Some(i) => {
                    &&& i < self.pairs@.len()
                    &&& self.pairs@[i as int].0@ == key@
                    &&& self@.contains_key(key@)
                    &&& self@[key@] == self.pairs@[i as int].1
                },
                None => !self@.contains_key(key@),
            },
    {
        proof {
            use_type_invariant(self);
        }
        let mut i: usize = 0;
        while i < self.pairs.len()
            invariant
                i <= self.pairs@.len(),
                keys_distinct(self.pairs@),
                forall|j: int| 0 <= j < i ==> self.pairs@[j].0@ != key@,
            decreases self.pairs@.len() - i,
        {
            let pair = &self.pairs[i];
            if pair.0.state == key.state && pair.0.event == key.event {
                proof {
                    collected_at(self.pairs@, i as int);
                }
                return Some(i);
            }
            i = i + 1;
        }
        proof {
            collected_absent(self.pairs@, key@);
        }
        None
    }

    /// The value of a key.
    pub fn get(&self, key: &PromptKey) -> (value: Option<&V>)
        ensures
            match value {
                Some(v) => self@.contains_key(key@) && *v == self@[key@],
                None => !self@.contains_key(key@),
            },
    {
        match self.find(key) {
            Some(i) => Some(&self.pairs[i].1),
            None => None,
        }
    }

    /// Gives a key a value, and returns the value that it had before.
    pub fn insert(&mut self, key: PromptKey, value: V) -> (before: Option<V>)
        ensures
            final(self)@ == old(self)@.insert(key@, value),
            before == (if old(self)@.contains_key(key@) {
                Some(old(self)@[key@])
            } else {
                None
            }),
    {
        proof {
            use_type_invariant(&*self);
        }
        let found = self.find(&key);
        let ghost was = self.pairs@;
        let mut pairs: Vec<(PromptKey, V)> = Vec::new();
        std::mem::swap(&mut pairs, &mut self.pairs);
        let before = match found {
            Some(i) => {
                proof {
                    collected_remove(was, i as int);
                }
                let pair = pairs.remove(i);
                Some(pair.1)
            },
            None => None,
        };
        proof {
            assert(collected(pairs@) =~= collected(was).remove(key@));
            assert forall|i: int| 0 <= i < pairs@.len() implies #[trigger] pairs@[i].0@ != key@ by {
                collected_at(pairs@, i);
            }
        }
        let ghost kept = pairs@;
        let ghost pair = (key, value);
        pairs.push((key, value));
        proof {
            assert(pairs@.drop_last() =~= kept);
            assert(collected(pairs@) =~= collected(was).insert(pair.0@, pair.1));
        }
        self.pairs = pairs;
        before
    }

    /// Takes a key out, and returns the value that it had.
    pub fn remove(&mut self, key: &PromptKey) -> (before: Option<V>)
        ensures
            final(self)@ == old(self)@.remove(key@),
            before == (if old(self)@.contains_key(key@) {
                Some(old(self)@[key@])
            } else {
                None
            }),
    {
        proof {
            use_type_invariant(&*self);
        }
        let found = self.find(key);
        let ghost was = self.pairs@;
        match found {
            Some(i) => {
                let mut pairs: Vec<(PromptKey, V)> = Vec::new();
                std::mem::swap(&mut pairs, &mut self.pairs);
                proof {
                    collected_remove(was, i as int);
                }
                let pair = pairs.remove(i);
                self.pairs = pairs;
                Some(pair.1)
            },
            None => {
                assert(self@ =~= old(self)@.remove(key@));
                None
            },
        }
    }

    /// The number of keys that have a value.
    pub fn len(&self) -> (n: usize)
        ensures
            n == self@.len(),
            self@.dom().finite(),
    {
        proof {
            use_type_invariant(self);
            collected_len(self.pairs@);
        }
        self.pairs.len()
    }

    /// Whether no key has a value.
    pub fn is_empty(&self) -> (b: bool)
        ensures
            b == (self@ == Map::<PromptKeyView, V>::empty()),
    {
        proof {
            if self.pairs@.len() > 0 {
                assert(self@.contains_key(self.pairs@.last().0@));
            }
        }
        self.pairs.len() == 0
    }

    /// The map of a list of pairs; of two pairs with one key, the later one counts.
    pub fn from_pairs(pairs: Vec<(PromptKey, V)>) -> (map: Self)
        ensures
            map@ == collected(pairs@),
    {
        let ghost all = pairs@;
        let mut rest = pairs;
        let mut map = PromptMap::new();
        let n: usize = rest.len();
        let mut done: usize = 0;
        assert(all.take(0) =~= Seq::empty());
        assert(all.skip(0) =~= all);
        while done < n
            invariant
                done <= n,
                n == all.len(),
                rest@ == all.skip(done as int),
                map@ == collected(all.take(done as int)),
            decreases n - done,
        {
            let pair = rest.remove(0);
            proof {
                assert(rest@ =~= all.skip(done + 1));
                assert(all.take(done + 1).drop_last() =~= all.take(done as int));
            }
            map.insert(pair.0, pair.1);
            done = done + 1;
        }
        assert(all.take(done as int) =~= all);
        map
    }
}

/// What stands at a position is the value of its key.
proof fn collected_at<V>(pairs: Seq<(PromptKey, V)>, i: int)
    requires
        0 <= i < pairs.len(),
        keys_distinct(pairs),
    ensures
        collected(pairs).contains_key(pairs[i].0@),
        collected(pairs)[pairs[i].0@] == pairs[i].1,
    decreases pairs.len(),
{
    if i < pairs.len() - 1 {
        collected_at(pairs.drop_last(), i);
        assert(pairs.drop_last()[i] == pairs[i]);
    }
}

/// A key that no pair has is not in the map.
proof fn collected_absent<V>(pairs: Seq<(PromptKey, V)>, key: PromptKeyView)
    requires
        forall|i: int| 0 <= i < pairs.len() ==> pairs[i].0@ != key,
    ensures
        !collected(pairs).contains_key(key),
    decreases pairs.len(),
{
    if pairs.len() > 0 {
        collected_absent(pairs.drop_last(), key);
    }
}

/// The map has as many keys as there are pairs.
proof fn collected_len<V>(pairs: Seq<(PromptKey, V)>)
    requires
        keys_distinct(pairs),
    ensures
        collected(pairs).dom().finite(),
        collected(pairs).len() == pairs.len(),
    decreases pairs.len(),
{
    if pairs.len() > 0 {
        let init = pairs.drop_last();
        collected_len(init);
        collected_absent(init, pairs.last().0@);
        assert(collected(pairs).dom() =~= collected(init).dom().insert(pairs.last().0@));
    } else {
        assert(collected(pairs).dom() =~= Set::<PromptKeyView>::empty());
    }
}

/// Leaving a pair out takes its key out of the map.
proof fn collected_remove<V>(pairs: Seq<(PromptKey, V)>, i: int)
    requires
        0 <= i < pairs.len(),
        keys_distinct(pairs),
    ensures
        collected(pairs.remove(i)) == collected(pairs).remove(pairs[i].0@),
        keys_distinct(pairs.remove(i)),
    decreases pairs.len(),
{
    let init = pairs.drop_last();
    if i == pairs.len() - 1 {
        assert(pairs.remove(i) =~= init);
        collected_absent(init, pairs[i].0@);
        assert(collected(pairs).remove(pairs[i].0@) =~= collected(init));
    } else {
        collected_remove(init, i);
        assert(pairs.remove(i).drop_last() =~= init.remove(i));
        assert(collected(pairs.remove(i)) =~= collected(pairs).remove(pairs[i].0@));
    }
}

} // verus!
