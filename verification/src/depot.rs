//! Per-request context store: a key-to-value map created empty when a
//! chain starts and discarded when it ends, used by handlers to pass data
//! to one another.

use vstd::prelude::*;

verus! {

/// The map described by a sequence of insertions: a later entry for a
/// key shadows an earlier one.
pub open spec fn entries_map(entries: Seq<(String, String)>) -> Map<Seq<char>, Seq<char>>
    decreases entries.len(),
{
    if entries.len() == 0 {
        Map::empty()
    } else {
        entries_map(entries.drop_last()).insert(entries.last().0@, entries.last().1@)
    }
}

/// Per-request key-value store, scoped to one chain execution.
pub struct Depot {
    entries: Vec<(String, String)>,
}

impl View for Depot {
    type V = Map<Seq<char>, Seq<char>>;

    closed spec fn view(&self) -> Map<Seq<char>, Seq<char>> {
        entries_map(self.entries@)
    }
}

impl Depot {
    /// An empty store, as the executor creates at chain start.
    pub fn new() -> (r: Depot)
        ensures
            r@ == Map::<Seq<char>, Seq<char>>::empty(),
    {
        Depot { entries: Vec::new() }
    }

    /// Binds `value` to `key`, shadowing any earlier binding.
    pub fn insert(&mut self, key: String, value: String)
        ensures
            final(self)@ == old(self)@.insert(key@, value@),
    {
        let ghost pre = self.entries@;
        self.entries.push((key, value));
        proof {
            assert(self.entries@.drop_last() =~= pre);
        }
    }

    /// The value bound to `key`, if any.
    pub fn get(&self, key: &String) -> (r: Option<&String>)
        ensures
            match r {
                Some(v) => self@.contains_key(key@) && self@[key@] == v@,
                None => !self@.contains_key(key@),
            },
    {
        let n = self.entries.len();
        proof {
            assert(self.entries@.subrange(0, n as int) =~= self.entries@);
        }
        let mut i: usize = n;
        while i > 0
            invariant
                i <= n == self.entries@.len(),
                self@.contains_key(key@) == entries_map(
                    self.entries@.subrange(0, i as int),
                ).contains_key(key@),
                self@.contains_key(key@) ==> self@[key@] == entries_map(
                    self.entries@.subrange(0, i as int),
                )[key@],
            decreases i,
        {
            proof {
                let p = self.entries@.subrange(0, i as int);
                assert(p.last() == self.entries@[i - 1]);
                assert(p.drop_last() =~= self.entries@.subrange(0, i - 1));
            }
            if self.entries[i - 1].0 == *key {
                return Some(&self.entries[i - 1].1);
            }
            i = i - 1;
        }
        proof {
            assert(self.entries@.subrange(0, 0) =~= Seq::<(String, String)>::empty());
        }
        None
    }

    /// Whether any value is bound to `key`.
    pub fn contains_key(&self, key: &String) -> (r: bool)
        ensures
            r == self@.contains_key(key@),
    {
        match self.get(key) {
            Some(_) => true,
            None => false,
        }
    }
}

} // verus!
