//! A map from strings to strings, viewed as a `Map<Seq<char>, Seq<char>>`.
//!
//! It keeps its insertions in order; a later insertion of a key hides the
//! earlier ones, so that the view is what a `HashMap` holds after the same
//! sequence of `insert` calls.

use vstd::prelude::*;

verus! {

/// What the insertions `es`, made in order, leave for key `k`.
pub open spec fn lookup(es: Seq<(String, String)>, k: Seq<char>) -> Option<Seq<char>>
    decreases es.len(),
{
    if es.len() == 0 {
        None
    } else if es.last().0@ == k {
        Some(es.last().1@)
    } else {
        lookup(es.drop_last(), k)
    }
}

#[derive(Clone, Debug)]
pub struct StringMap {
    entries: Vec<(String, String)>,
}

impl View for StringMap {
    type V = Map<Seq<char>, Seq<char>>;

    closed spec fn view(&self) -> Map<Seq<char>, Seq<char>> {
        Map::new(
            |k: Seq<char>| lookup(self.entries@, k) is Some,
            |k: Seq<char>| lookup(self.entries@, k)->0,
        )
    }
}

impl StringMap {
    /// An empty map.
    pub fn new() -> (m: StringMap)
        ensures
            m@ == Map::<Seq<char>, Seq<char>>::empty(),
    {
        let m = StringMap { entries: Vec::new() };
        assert(m@ =~= Map::<Seq<char>, Seq<char>>::empty());
        m
    }

    /// Maps `key` to `value`, replacing what `key` mapped to before.
    pub fn insert(&mut self, key: String, value: String)
        ensures
            final(self)@ == old(self)@.insert(key@, value@),
    {
        let ghost k = key@;
        let ghost v = value@;
        self.entries.push((key, value));
        proof {
            let es = self.entries@;
            assert(es.drop_last() =~= old(self).entries@);
            assert forall|j: Seq<char>| #[trigger] lookup(es, j) == (if j == k {
                Some(v)
            } else {
                lookup(old(self).entries@, j)
            }) by {}
            assert(self@ =~= old(self)@.insert(k, v));
        }
    }

    /// What `key` maps to, if anything.
    pub fn get(&self, key: &str) -> (r: Option<&String>)
        ensures
            r is Some <==> self@.dom().contains(key@),
            r matches Some(v) ==> v@ == self@[key@],
    {
        let k = key.to_owned();
        let n = self.entries.len();
        let mut i = n;
        assert(self.entries@.take(n as int) =~= self.entries@);
        while i > 0
            invariant
                i <= n == self.entries@.len(),
                k@ == key@,
                lookup(self.entries@, k@) == lookup(self.entries@.take(i as int), k@),
            decreases i,
        {
            let ghost es = self.entries@.take(i as int);
            assert(es.drop_last() =~= self.entries@.take(i - 1));
            assert(es.last() == self.entries@[i - 1]);
            if self.entries[i - 1].0 == k {
                return Some(&self.entries[i - 1].1);
            }
            i = i - 1;
        }
        None
    }

    /// Whether `key` maps to anything.
    pub fn contains_key(&self, key: &str) -> (b: bool)
        ensures
            b == self@.dom().contains(key@),
    {
        self.get(key).is_some()
    }
}

} // verus!
