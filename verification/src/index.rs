//! Records filed under a key, for the lookups that the audits make by login
//! or by team slug.

use crate::model::GitHubIndex;
use crate::text::str_eq;
use vstd::prelude::*;

verus! {

/// The map that a list of keyed entries stands for: a later entry replaces
/// an earlier one with the same key.
pub open spec fn entries_map<T>(entries: Seq<(String, T)>) -> Map<Seq<char>, T>
    decreases entries.len(),
{
    if entries.len() == 0 {
        Map::empty()
    } else {
        entries_map(entries.drop_last()).insert(entries.last().0@, entries.last().1)
    }
}

/// The records filed each under its own key, a later record replacing an
/// earlier one with the same key.
pub open spec fn keyed<T: GitHubIndex>(items: Seq<T>) -> Map<Seq<char>, T>
    decreases items.len(),
{
    if items.len() == 0 {
        Map::empty()
    } else {
        keyed(items.drop_last()).insert(items.last().index_text(), items.last())
    }
}

/// The value under `key`, if the map has the key.
pub open spec fn lookup<T>(m: Map<Seq<char>, T>, key: Seq<char>) -> Option<T> {
    if m.dom().contains(key) {
        Some(m[key])
    } else {
        None
    }
}

/// A lookup table from a text key to a record.
pub struct Index<T> {
    entries: Vec<(String, T)>,
}

impl<T> View for Index<T> {
    type V = Map<Seq<char>, T>;

    closed spec fn view(&self) -> Map<Seq<char>, T> {
        entries_map(self.entries@)
    }
}

/// The same items in the opposite order.
pub fn reversed<T>(v: Vec<T>) -> (r: Vec<T>)
    ensures
        r@ == v@.reverse(),
{
    let ghost all = v@;
    let mut v = v;
    let mut r: Vec<T> = Vec::new();
    while v.len() > 0
        invariant
            v@.len() + r@.len() == all.len(),
            forall|k: int| 0 <= k < v@.len() ==> v@[k] == all[k],
            forall|k: int| 0 <= k < r@.len() ==> r@[k] == all[all.len() - 1 - k],
        decreases v@.len(),
    {
        let x = v.pop().unwrap();
        r.push(x);
    }
    proof {
        assert(r@ =~= all.reverse());
    }
    r
}

impl<T> Index<T> {
    /// A table without entries.
    pub fn new() -> (r: Self)
        ensures
            r@ == Map::<Seq<char>, T>::empty(),
    {
        Index { entries: Vec::new() }
    }

    /// Files `value` under `key`, in place of what was there.
    pub fn insert(&mut self, key: String, value: T)
        ensures
            final(self)@ == old(self)@.insert(key@, value),
    {
        proof {
            let next = self.entries@.push((key, value));
            assert(next.drop_last() =~= self.entries@);
        }
        self.entries.push((key, value));
    }

    /// The record filed under `key`.
    pub fn get(&self, key: &str) -> (r: Option<&T>)
        ensures
            r is Some <==> self@.dom().contains(key@),
            r matches Some(x) ==> self@[key@] == *x,
    {
        let mut i: usize = self.entries.len();
        proof {
            assert(self.entries@.take(i as int) =~= self.entries@);
        }
        while i > 0
            invariant
                i <= self.entries@.len(),
                lookup(self@, key@) == lookup(entries_map(self.entries@.take(i as int)), key@),
            decreases i,
        {
            proof {
                let front = self.entries@.take(i as int);
                assert(front.drop_last() =~= self.entries@.take(i - 1));
                assert(front.last() == self.entries@[i - 1]);
            }
            i -= 1;
            if str_eq(self.entries[i].0.as_str(), key) {
                return Some(&self.entries[i].1);
            }
        }
        None
    }

    /// Whether a record is filed under `key`.
    pub fn contains_key(&self, key: &str) -> (r: bool)
        ensures
            r == self@.dom().contains(key@),
    {
        self.get(key).is_some()
    }
}

/// Files every record under its own key.
pub fn index_by<T: GitHubIndex>(items: Vec<T>) -> (r: Index<T>)
    ensures
        r@ == keyed(items@),
{
    let ghost all = items@;
    let mut rest = reversed(items);
    let mut table: Index<T> = Index::new();
    let ghost mut done: int = 0;
    proof {
        assert(all.take(0) =~= Seq::<T>::empty());
    }
    while rest.len() > 0
        invariant
            0 <= done <= all.len(),
            rest@.len() + done == all.len(),
            forall|k: int| 0 <= k < rest@.len() ==> rest@[k] == all[all.len() - 1 - k],
            table@ == keyed(all.take(done)),
        decreases rest@.len(),
    {
        let x = rest.pop().unwrap();
        proof {
            let next = all.take(done + 1);
            assert(next.drop_last() =~= all.take(done));
            assert(next.last() == x);
        }
        let key = x.index();
        table.insert(key, x);
        proof {
            done = done + 1;
        }
    }
    proof {
        assert(all.take(all.len() as int) =~= all);
    }
    table
}

} // verus!
