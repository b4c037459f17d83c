//! A map with an exact model, and lists of keys.

use crate::primitives::{H256, Sr25519Public};
use vstd::prelude::*;

verus! {

/// What can be a key: two keys are compared by their views.
pub trait StorageKey: View {
    fn same(&self, other: &Self) -> (r: bool)
        ensures
            r == (self@ == other@),
    ;
}

impl StorageKey for Sr25519Public {
    fn same(&self, other: &Self) -> (r: bool) {
        *self == *other
    }
}

impl StorageKey for H256 {
    fn same(&self, other: &Self) -> (r: bool) {
        *self == *other
    }
}

impl StorageKey for Vec<u8> {
    fn same(&self, other: &Self) -> (r: bool) {
        if self.len() != other.len() {
            return false;
        }
        let mut i: usize = 0;
        while i < self.len()
            invariant
                i <= self@.len(),
                self@.len() == other@.len(),
                forall|j: int| 0 <= j < i ==> self@[j] == other@[j],
            decreases self@.len() - i,
        {
            if self[i] != other[i] {
                return false;
            }
            i = i + 1;
        }
        assert(self@ =~= other@);
        true
    }
}

/// The views of the items of a list.
pub open spec fn views<K: View>(items: Seq<K>) -> Seq<K::V> {
    items.map_values(|item: K| item@)
}

/// The list without any item equal to `item`.
pub open spec fn without<X>(items: Seq<X>, item: X) -> Seq<X> {
    items.filter(|other: X| other != item)
}

/// Whether `item` stands in the list.
pub fn list_contains<K: StorageKey>(list: &Vec<K>, item: &K) -> (r: bool)
    ensures
        r == views(list@).contains(item@),
{
    let mut i: usize = 0;
    while i < list.len()
        invariant
            i <= list@.len(),
            forall|j: int| 0 <= j < i ==> views(list@)[j] != item@,
        decreases list@.len() - i,
    {
        if list[i].same(item) {
            assert(views(list@)[i as int] == item@);
            return true;
        }
        i = i + 1;
    }
    false
}

/// Takes every occurrence of `item` out of the list, and keeps the others in their order.
pub fn list_remove<K: StorageKey>(list: &mut Vec<K>, item: &K)
    ensures
        views(final(list)@) == without(views(old(list)@), item@),
{
    let ghost all = views(list@);
    let ghost keep = |other: K::V| other != item@;
    let ghost mut seen: int = 0;
    let mut i: usize = 0;
    proof {
        reveal(Seq::filter);
        assert(all.take(0) =~= Seq::empty());
        assert(all.skip(0) =~= all);
        assert(views(list@).take(0) =~= Seq::empty());
        assert(views(list@).skip(0) =~= all);
    }
    while i < list.len()
        invariant
            i <= list@.len(),
            0 <= seen <= all.len(),
            all == views(old(list)@),
            keep == (|other: K::V| other != item@),
            views(list@).take(i as int) == all.take(seen).filter(keep),
            views(list@).skip(i as int) == all.skip(seen),
        decreases list@.len() - i,
    {
        let ghost before = views(list@);
        proof {
            assert(before.skip(i as int).len() == all.skip(seen).len());
            assert(before[i as int] == before.skip(i as int)[0]);
            assert(all[seen] == all.skip(seen)[0]);
            reveal(Seq::filter);
            assert(all.take(seen + 1).drop_last() =~= all.take(seen));
            assert(all.take(seen + 1).last() == all[seen]);
            assert(all.skip(seen + 1) =~= all.skip(seen).skip(1));
            assert(before.skip(i + 1) =~= before.skip(i as int).skip(1));
        }
        if list[i].same(item) {
            list.remove(i);
            proof {
                assert(views(list@) =~= before.remove(i as int));
                assert(views(list@).take(i as int) =~= before.take(i as int));
                assert(views(list@).skip(i as int) =~= before.skip(i + 1));
            }
        } else {
            proof {
                assert(before.take(i + 1) =~= before.take(i as int).push(before[i as int]));
            }
            i = i + 1;
        }
        proof {
            seen = seen + 1;
        }
    }
    proof {
        assert(views(list@).skip(i as int).len() == 0);
        assert(all.take(seen) =~= all);
        assert(views(list@).take(i as int) =~= views(list@));
    }
}

/// A map from keys to values.
pub struct StorageMap<K: StorageKey, V> {
    entries: Vec<(K, V)>,
}

impl<K: StorageKey, V> StorageMap<K, V> {
    /// No two entries share a key.
    #[verifier::type_invariant]
    spec fn keys_distinct(self) -> bool {
        forall|i: int, j: int|
            #![trigger self.entries@[i], self.entries@[j]]
            0 <= i < j < self.entries@.len() ==> self.entries@[i].0@ != self.entries@[j].0@
    }

    /// The position of the entry for `key`.
    spec fn position(self, key: K::V) -> int {
        choose|i: int| 0 <= i < self.entries@.len() && (#[trigger] self.entries@[i]).0@ == key
    }

    spec fn has(self, key: K::V) -> bool {
        exists|i: int| 0 <= i < self.entries@.len() && (#[trigger] self.entries@[i]).0@ == key
    }
}

impl<K: StorageKey, V> View for StorageMap<K, V> {
    type V = Map<K::V, V>;

    closed spec fn view(&self) -> Map<K::V, V> {
        Map::new(|key: K::V| self.has(key), |key: K::V| self.entries@[self.position(key)].1)
    }
}

impl<K: StorageKey, V> StorageMap<K, V> {
    /// A map with no entries.
    pub fn new() -> (r: Self)
        ensures
            r@ == Map::<K::V, V>::empty(),
    {
        let r = StorageMap { entries: Vec::new() };
        assert(r@ =~= Map::<K::V, V>::empty());
        r
    }

    /// The position of the entry for `key`, if there is one.
    fn find(&self, key: &K) -> (r: Option<usize>)
        ensures
            match r {
                Some(i) => {
                    &&& i < self.entries@.len()
                    &&& self.entries@[i as int].0@ == key@
                    &&& self@.contains_key(key@)
                    &&& self@[key@] == self.entries@[i as int].1
                },
                None => !self@.contains_key(key@),
            },
    {
        let mut i: usize = 0;
        while i < self.entries.len()
            invariant
                i <= self.entries@.len(),
                forall|j: int| 0 <= j < i ==> (#[trigger] self.entries@[j]).0@ != key@,
            decreases self.entries@.len() - i,
        {
            if self.entries[i].0.same(key) {
                proof {
                    use_type_invariant(self);
                    assert(self.has(key@));
                    assert(self.entries@[self.position(key@)].0@ == key@);
                    assert(self.position(key@) == i);
                }
                return Some(i);
            }
            i = i + 1;
        }
        None
    }

    /// Whether there is an entry for `key`.
    pub fn contains_key(&self, key: &K) -> (r: bool)
        ensures
            r == self@.contains_key(key@),
    {
        self.find(key).is_some()
    }

    /// The value for `key`, if there is one.
    pub fn get(&self, key: &K) -> (r: Option<&V>)
        ensures
            match r {
                Some(value) => self@.contains_key(key@) && self@[key@] == *value,
                None => !self@.contains_key(key@),
            },
    {
        match self.find(key) {
            Some(i) => Some(&self.entries[i].1),
            None => None,
        }
    }

    /// Takes the entry for `key` out of the map, and returns its value.
    pub fn take(&mut self, key: &K) -> (r: Option<V>)
        ensures
            final(self)@ == old(self)@.remove(key@),
            match r {
                Some(value) => old(self)@.contains_key(key@) && old(self)@[key@] == value,
                None => !old(self)@.contains_key(key@),
            },
    {
        proof {
            use_type_invariant(&*self);
        }
        match self.find(key) {
            Some(i) => {
                let mut entries: Vec<(K, V)> = Vec::new();
                std::mem::swap(&mut entries, &mut self.entries);
                let ghost before = entries@;
                let entry = entries.remove(i);
                proof {
                    assert forall|a: int, b: int|
                        0 <= a < b < entries@.len() implies (#[trigger] entries@[a]).0@ != (
                    #[trigger] entries@[b]).0@ by {
                        assert(entries@[a] == before[if a < i { a } else { a + 1 }]);
                        assert(entries@[b] == before[if b < i { b } else { b + 1 }]);
                    }
                }
                self.entries = entries;
                proof {
                    lemma_entry_removed(*old(self), *self, i as int);
                }
                Some(entry.1)
            },
            None => {
                assert(self@.remove(key@) =~= self@);
                None
            },
        }
    }

    /// Forgets the entry for `key`, if there is one.
    pub fn remove(&mut self, key: &K)
        ensures
            final(self)@ == old(self)@.remove(key@),
    {
        let _ = self.take(key);
    }

    /// Lets `key` have `value`, whatever it had before.
    pub fn insert(&mut self, key: K, value: V)
        ensures
            final(self)@ == old(self)@.insert(key@, value),
    {
        let ghost pre = self@;
        let _ = self.take(&key);
        let ghost cut = *self;
        proof {
            use_type_invariant(&*self);
        }
        let mut entries: Vec<(K, V)> = Vec::new();
        std::mem::swap(&mut entries, &mut self.entries);
        let ghost before = entries@;
        proof {
            assert forall|j: int|
                0 <= j < before.len() implies (#[trigger] before[j]).0@ != key@ by {
                if before[j].0@ == key@ {
                    assert(cut.entries@[j].0@ == key@);
                    assert(cut.has(key@));
                    assert(cut@.contains_key(key@));
                }
            }
        }
        entries.push((key, value));
        self.entries = entries;
        proof {
            assert(self.entries@.drop_last() =~= cut.entries@);
            lemma_entry_added(cut, *self);
            assert(cut@.insert(key@, value) =~= pre.insert(key@, value));
        }
    }
}

/// Dropping the entry at one position drops its key from the map.
proof fn lemma_entry_removed<K: StorageKey, V>(
    pre: StorageMap<K, V>,
    post: StorageMap<K, V>,
    at: int,
)
    requires
        pre.keys_distinct(),
        0 <= at < pre.entries@.len(),
        post.entries@ == pre.entries@.remove(at),
    ensures
        post@ == pre@.remove(pre.entries@[at].0@),
{
    let gone = pre.entries@[at].0@;
    assert forall|key: K::V| post.has(key) <==> pre.has(key) && key != gone by {
        if post.has(key) {
            let i = post.position(key);
            assert(post.entries@[i] == pre.entries@[if i < at { i } else { i + 1 }]);
        }
        if pre.has(key) && key != gone {
            let i = pre.position(key);
            assert(post.entries@[if i < at { i } else { i - 1 }] == pre.entries@[i]);
        }
    }
    assert forall|key: K::V| post.has(key) implies post.entries@[post.position(key)]
        == pre.entries@[pre.position(key)] by {
        let i = post.position(key);
        assert(post.entries@[i] == pre.entries@[if i < at { i } else { i + 1 }]);
        assert(pre.has(key));
        let j = pre.position(key);
        assert(pre.entries@[j].0@ == key);
    }
    assert(post@ =~= pre@.remove(gone));
}

/// Appending an entry whose key is new inserts it into the map.
proof fn lemma_entry_added<K: StorageKey, V>(pre: StorageMap<K, V>, post: StorageMap<K, V>)
    requires
        post.keys_distinct(),
        post.entries@.len() == pre.entries@.len() + 1,
        post.entries@.drop_last() == pre.entries@,
    ensures
        post@ == pre@.insert(post.entries@.last().0@, post.entries@.last().1),
{
    let n = pre.entries@.len() as int;
    let new = post.entries@[n].0@;
    assert forall|i: int| 0 <= i < n implies pre.entries@[i] == post.entries@[i] by {
        assert(post.entries@.drop_last()[i] == post.entries@[i]);
    }
    assert forall|key: K::V| post.has(key) <==> pre.has(key) || key == new by {
        if post.has(key) {
            let i = post.position(key);
            if i < n {
                assert(pre.entries@[i].0@ == key);
            }
        }
        if pre.has(key) {
            let i = pre.position(key);
            assert(post.entries@[i].0@ == key);
        }
        assert(post.entries@[n].0@ == new);
    }
    assert forall|key: K::V| post.has(key) implies post.entries@[post.position(key)] == if key
        == new {
        post.entries@[n]
    } else {
        pre.entries@[pre.position(key)]
    } by {
        let i = post.position(key);
        if key != new {
            assert(i < n);
            assert(pre.entries@[i].0@ == key);
            assert(pre.has(key));
            let j = pre.position(key);
            assert(post.entries@[j].0@ == key);
        }
    }
    assert(post@ =~= pre@.insert(new, post.entries@[n].1));
}

} // verus!
