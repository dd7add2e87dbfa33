//! Id-keyed tables, and the image asset table.
//!
//! The host supplies shapes and decoded images keyed by 128-bit ids. The
//! tables are association vectors with unique keys, viewed in specifications
//! as a `Map` from id to value.

use vstd::prelude::*;

verus! {

/// A decoded raster image, as this core sees it: its pixel dimensions.
/// The host keeps the decoded pixel data under the same id.
#[derive(Clone, Copy, PartialEq, Eq, Structural, Debug)]
pub struct ImageInfo {
    pub width: i32,
    pub height: i32,
}

/// No key occurs twice in the entry list.
pub open spec fn keys_unique<T>(s: Seq<(u128, T)>) -> bool {
    forall|i: int, j: int| 0 <= i < j < s.len() ==> s[i].0 != s[j].0
}

/// The mapping that an entry list denotes; later entries win.
pub open spec fn map_of<T>(s: Seq<(u128, T)>) -> Map<u128, T>
    decreases s.len(),
{
    if s.len() == 0 {
        Map::empty()
    } else {
        map_of(s.drop_last()).insert(s.last().0, s.last().1)
    }
}

/// A key is in the denoted map exactly when some entry carries it.
pub proof fn lemma_map_of_contains<T>(s: Seq<(u128, T)>, k: u128)
    ensures
        map_of(s).dom().contains(k) <==> exists|i: int| 0 <= i < s.len() && s[i].0 == k,
    decreases s.len(),
{
    if s.len() > 0 {
        lemma_map_of_contains(s.drop_last(), k);
        if s.last().0 == k {
            assert(s[s.len() - 1].0 == k);
        } else if exists|i: int| 0 <= i < s.len() && s[i].0 == k {
            let i = choose|i: int| 0 <= i < s.len() && s[i].0 == k;
            assert(s.drop_last()[i] == s[i]);
        }
    }
}

/// With unique keys, each entry is what the denoted map holds for its key.
pub proof fn lemma_map_of_index<T>(s: Seq<(u128, T)>, i: int)
    requires
        keys_unique(s),
        0 <= i < s.len(),
    ensures
        map_of(s).dom().contains(s[i].0),
        map_of(s)[s[i].0] == s[i].1,
    decreases s.len(),
{
    if i < s.len() - 1 {
        assert(keys_unique(s.drop_last())) by {
            assert(forall|p: int, q: int|
                0 <= p < q < s.drop_last().len() ==> s.drop_last()[p] == s[p] && s.drop_last()[q]
                    == s[q]);
        }
        assert(s.drop_last()[i] == s[i]);
        lemma_map_of_index(s.drop_last(), i);
        assert(s[i].0 != s.last().0);
    }
}

/// An association table from id to value, with unique ids. Its view is the
/// `Map` the entries denote.
#[derive(Clone, PartialEq, Eq, Debug)]
pub struct IdTable<T> {
    pub entries: Vec<(u128, T)>,
}

impl<T> View for IdTable<T> {
    type V = Map<u128, T>;

    open spec fn view(&self) -> Map<u128, T> {
        map_of(self.entries@)
    }
}

impl<T> IdTable<T> {
    pub open spec fn wf(&self) -> bool {
        keys_unique(self.entries@)
    }

    pub fn new() -> (t: IdTable<T>)
        ensures
            t.wf(),
            t@ == Map::<u128, T>::empty(),
    {
        IdTable { entries: Vec::new() }
    }

    /// The position of the entry carrying `id`, if any.
    fn find(&self, id: u128) -> (r: Option<usize>)
        ensures
            match r {
                Some(i) => 0 <= i < self.entries@.len() && self.entries@[i as int].0 == id,
                None => forall|i: int| 0 <= i < self.entries@.len() ==> self.entries@[i].0 != id,
            },
    {
        let mut i: usize = 0;
        while i < self.entries.len()
            invariant
                0 <= i <= self.entries@.len(),
                forall|j: int| 0 <= j < i ==> self.entries@[j].0 != id,
            decreases self.entries@.len() - i,
        {
            if self.entries[i].0 == id {
                return Some(i);
            }
            i = i + 1;
        }
        None
    }

    pub fn contains_key(&self, id: u128) -> (r: bool)
        ensures
            r == self@.dom().contains(id),
    {
        proof {
            lemma_map_of_contains(self.entries@, id);
        }
        self.find(id).is_some()
    }

    pub fn get(&self, id: u128) -> (r: Option<&T>)
        requires
            self.wf(),
        ensures
            match r {
                Some(v) => self@.dom().contains(id) && *v == self@[id],
                None => !self@.dom().contains(id),
            },
    {
        proof {
            lemma_map_of_contains(self.entries@, id);
        }
        match self.find(id) {
            Some(i) => {
                proof {
                    lemma_map_of_index(self.entries@, i as int);
                }
                Some(&self.entries[i].1)
            },
            None => None,
        }
    }

    /// Looks up an id the caller knows to be present.
    pub fn get_present(&self, id: u128) -> (r: &T)
        requires
            self.wf(),
            self@.dom().contains(id),
        ensures
            *r == self@[id],
    {
        match self.get(id) {
            Some(v) => v,
            None => vstd::pervasive::unreached(),
        }
    }

    /// Stores `v` under `id`, overwriting any prior entry.
    pub fn insert(&mut self, id: u128, v: T)
        requires
            old(self).wf(),
        ensures
            final(self).wf(),
            final(self)@ == old(self)@.insert(id, v),
    {
        match self.find(id) {
            Some(i) => {
                self.entries[i] = (id, v);
                proof {
                    lemma_map_of_update(old(self).entries@, i as int, (id, v));
                }
            },
            None => {
                self.entries.push((id, v));
                proof {
                    assert(self.entries@.drop_last() =~= old(self).entries@);
                    assert(forall|p: int, q: int|
                        0 <= p < q < self.entries@.len() && q < self.entries@.len() - 1
                            ==> self.entries@[p] == old(self).entries@[p] && self.entries@[q] == old(
                        self,
                    ).entries@[q]);
                }
            },
        }
    }
}

/// Replacing the entry at `i` by one with the same key updates the denoted
/// map at that key alone.
pub proof fn lemma_map_of_update<T>(s: Seq<(u128, T)>, i: int, e: (u128, T))
    requires
        keys_unique(s),
        0 <= i < s.len(),
        s[i].0 == e.0,
    ensures
        keys_unique(s.update(i, e)),
        map_of(s.update(i, e)) == map_of(s).insert(e.0, e.1),
    decreases s.len(),
{
    assert(keys_unique(s.update(i, e))) by {
        assert(forall|p: int| 0 <= p < s.len() && p != i ==> s.update(i, e)[p] == s[p]);
    }
    if i == s.len() - 1 {
        assert(s.update(i, e).drop_last() =~= s.drop_last());
        assert(s.update(i, e).last() == e);
        assert(map_of(s.update(i, e)) =~= map_of(s).insert(e.0, e.1));
    } else {
        assert(s.update(i, e).drop_last() =~= s.drop_last().update(i, e));
        assert(keys_unique(s.drop_last())) by {
            assert(forall|p: int, q: int|
                0 <= p < q < s.drop_last().len() ==> s.drop_last()[p] == s[p] && s.drop_last()[q]
                    == s[q]);
        }
        assert(s.drop_last()[i] == s[i]);
        lemma_map_of_update(s.drop_last(), i, e);
        assert(s.update(i, e).last() == s.last());
        assert(s[i].0 != s.last().0);
        assert(map_of(s.update(i, e)) =~= map_of(s).insert(e.0, e.1));
    }
}

} // verus!
