//! A pool of named resources (models, sounds), each under a unique id.

use vstd::prelude::*;

verus! {

/// The map that a list of `(id, resource)` entries stands for.
pub open spec fn map_of<T>(entries: Seq<(Seq<char>, T)>) -> Map<Seq<char>, T>
    decreases entries.len(),
{
    if entries.len() == 0 {
        Map::empty()
    } else {
        map_of(entries.drop_last()).insert(entries.last().0, entries.last().1)
    }
}

/// No id occurs twice.
pub open spec fn unique_ids<T>(entries: Seq<(Seq<char>, T)>) -> bool {
    forall|i: int, j: int|
        0 <= i < entries.len() && 0 <= j < entries.len() && i != j ==> entries[i].0 != entries[j].0
}

proof fn lemma_map_of_absent<T>(entries: Seq<(Seq<char>, T)>, k: Seq<char>)
    requires
        forall|i: int| 0 <= i < entries.len() ==> entries[i].0 != k,
    ensures
        !map_of(entries).contains_key(k),
    decreases entries.len(),
{
    if entries.len() > 0 {
        lemma_map_of_absent(entries.drop_last(), k);
    }
}

proof fn lemma_map_of_at<T>(entries: Seq<(Seq<char>, T)>, i: int)
    requires
        unique_ids(entries),
        0 <= i < entries.len(),
    ensures
        map_of(entries).contains_key(entries[i].0),
        map_of(entries)[entries[i].0] == entries[i].1,
    decreases entries.len(),
{
    if i < entries.len() - 1 {
        lemma_map_of_at(entries.drop_last(), i);
    }
}

proof fn lemma_map_of_domain<T>(entries: Seq<(Seq<char>, T)>, k: Seq<char>)
    requires
        unique_ids(entries),
    ensures
        map_of(entries).contains_key(k) <==> exists|i: int|
            0 <= i < entries.len() && entries[i].0 == k,
{
    if exists|i: int| 0 <= i < entries.len() && entries[i].0 == k {
        let i = choose|i: int| 0 <= i < entries.len() && entries[i].0 == k;
        lemma_map_of_at(entries, i);
    } else {
        lemma_map_of_absent(entries, k);
    }
}

proof fn lemma_map_of_push<T>(entries: Seq<(Seq<char>, T)>, k: Seq<char>, v: T)
    ensures
        map_of(entries.push((k, v))) == map_of(entries).insert(k, v),
{
    assert(entries.push((k, v)).drop_last() =~= entries);
}

proof fn lemma_map_of_update<T>(entries: Seq<(Seq<char>, T)>, i: int, v: T)
    requires
        unique_ids(entries),
        0 <= i < entries.len(),
    ensures
        unique_ids(entries.update(i, (entries[i].0, v))),
        map_of(entries.update(i, (entries[i].0, v))) =~= map_of(entries).insert(entries[i].0, v),
{
    let k = entries[i].0;
    let e2 = entries.update(i, (k, v));
    assert forall|j: int| 0 <= j < e2.len() implies #[trigger] e2[j].0 == entries[j].0 by {}
    assert(unique_ids(e2));
    lemma_map_of_at(entries, i);
    assert forall|key: Seq<char>| #[trigger] map_of(e2).contains_key(key) == map_of(entries).insert(k, v).contains_key(key) by {
        lemma_map_of_domain(e2, key);
        lemma_map_of_domain(entries, key);
        if map_of(entries).contains_key(key) {
            let j = choose|j: int| 0 <= j < entries.len() && entries[j].0 == key;
            assert(e2[j].0 == key);
        }
        if map_of(e2).contains_key(key) {
            let j = choose|j: int| 0 <= j < e2.len() && e2[j].0 == key;
            assert(entries[j].0 == key);
        }
    }
    assert forall|key: Seq<char>| #[trigger] map_of(e2).contains_key(key) implies map_of(e2)[key] == map_of(entries).insert(k, v)[key] by {
        lemma_map_of_domain(e2, key);
        let j = choose|j: int| 0 <= j < e2.len() && e2[j].0 == key;
        lemma_map_of_at(e2, j);
        if j != i {
            lemma_map_of_at(entries, j);
        }
    }
}

proof fn lemma_map_of_remove<T>(entries: Seq<(Seq<char>, T)>, i: int)
    requires
        unique_ids(entries),
        0 <= i < entries.len(),
    ensures
        unique_ids(entries.remove(i)),
        map_of(entries.remove(i)) =~= map_of(entries).remove(entries[i].0),
{
    let k = entries[i].0;
    let e2 = entries.remove(i);
    assert forall|a: int, b: int|
        0 <= a < e2.len() && 0 <= b < e2.len() && a != b implies e2[a].0 != e2[b].0 by {
        let a1 = if a < i { a } else { a + 1 };
        let b1 = if b < i { b } else { b + 1 };
        assert(e2[a] == entries[a1] && e2[b] == entries[b1]);
    }
    assert forall|key: Seq<char>| #[trigger] map_of(e2).contains_key(key) == map_of(entries).remove(k).contains_key(key) by {
        lemma_map_of_domain(e2, key);
        lemma_map_of_domain(entries, key);
        if map_of(entries).contains_key(key) && key != k {
            let j = choose|j: int| 0 <= j < entries.len() && entries[j].0 == key;
            let j2 = if j < i { j } else { j - 1 };
            assert(e2[j2].0 == key);
        }
        if map_of(e2).contains_key(key) {
            let j = choose|j: int| 0 <= j < e2.len() && e2[j].0 == key;
            let j1 = if j < i { j } else { j + 1 };
            assert(entries[j1].0 == key);
        }
    }
    assert forall|key: Seq<char>| #[trigger] map_of(e2).contains_key(key) implies map_of(e2)[key] == map_of(entries).remove(k)[key] by {
        lemma_map_of_domain(e2, key);
        let j = choose|j: int| 0 <= j < e2.len() && e2[j].0 == key;
        let j1 = if j < i { j } else { j + 1 };
        lemma_map_of_at(e2, j);
        lemma_map_of_at(entries, j1);
    }
}

/// A pool of resources of one kind, each under a unique id.
pub struct ResourcePool<T> {
    entries: Vec<(String, T)>,
}

impl<T> ResourcePool<T> {
    /// The entries as ids and resources.
    closed spec fn entries_view(self) -> Seq<(Seq<char>, T)> {
        self.entries@.map_values(|e: (String, T)| (e.0@, e.1))
    }

    #[verifier::type_invariant]
    spec fn inv(self) -> bool {
        unique_ids(self.entries_view())
    }
}

impl<T> View for ResourcePool<T> {
    type V = Map<Seq<char>, T>;

    closed spec fn view(&self) -> Map<Seq<char>, T> {
        map_of(self.entries_view())
    }
}

impl<T> ResourcePool<T> {
    /// An empty pool.
    pub fn new() -> (r: Self)
        ensures
            r@ == Map::<Seq<char>, T>::empty(),
    {
        let r = ResourcePool { entries: Vec::new() };
        assert(r.entries_view() =~= Seq::<(Seq<char>, T)>::empty());
        r
    }

    /// The position of `key` among the entries, if it is there.
    fn find(&self, key: &String) -> (r: Option<usize>)
        ensures
            r is None ==> !self@.contains_key(key@),
            r matches Some(i) ==> i < self.entries@.len() && self.entries@[i as int].0@ == key@
                && self@.contains_key(key@) && self@[key@] == self.entries@[i as int].1,
    {
        proof {
            use_type_invariant(self);
        }
        let mut i: usize = 0;
        while i < self.entries.len()
            invariant
                i <= self.entries@.len(),
                unique_ids(self.entries_view()),
                forall|j: int| 0 <= j < i ==> self.entries@[j].0@ != key@,
            decreases self.entries@.len() - i,
        {
            if self.entries[i].0 == *key {
                proof {
                    assert(self.entries_view()[i as int] == (self.entries@[i as int].0@, self.entries@[i as int].1));
                    lemma_map_of_at(self.entries_view(), i as int);
                }
                return Some(i);
            }
            i = i + 1;
        }
        proof {
            assert forall|j: int| 0 <= j < self.entries_view().len() implies self.entries_view()[j].0 != key@ by {
                assert(self.entries_view()[j].0 == self.entries@[j].0@);
            }
            lemma_map_of_absent(self.entries_view(), key@);
        }
        None
    }

    /// Moves the entries out, leaving the pool empty.
    fn take_entries(&mut self) -> (r: Vec<(String, T)>)
        ensures
            r@ == old(self).entries@,
            unique_ids(old(self).entries_view()),
            final(self)@ == Map::<Seq<char>, T>::empty(),
    {
        proof {
            use_type_invariant(&*self);
        }
        let mut taken = ResourcePool::new();
        core::mem::swap(self, &mut taken);
        let ResourcePool { entries } = taken;
        entries
    }

    /// The resource under `resource_id`, if there is one.
    pub fn get(&self, resource_id: &str) -> (r: Option<&T>)
        ensures
            r is Some <==> self@.contains_key(resource_id@),
            r matches Some(v) ==> *v == self@[resource_id@],
    {
        let key = resource_id.to_owned();
        match self.find(&key) {
            Some(i) => Some(&self.entries[i].1),
            None => None,
        }
    }

    /// Releases the resource under `resource_id`, if there is one.
    pub fn _release(&mut self, resource_id: &str)
        ensures
            final(self)@ == old(self)@.remove(resource_id@),
    {
        proof {
            use_type_invariant(&*self);
        }
        let key = resource_id.to_owned();
        match self.find(&key) {
            Some(i) => {
                let mut entries = self.take_entries();
                proof {
                    lemma_map_of_remove(old(self).entries_view(), i as int);
                    assert(entries@.remove(i as int).map_values(|e: (String, T)| (e.0@, e.1))
                        =~= old(self).entries_view().remove(i as int));
                }
                entries.remove(i);
                *self = ResourcePool { entries };
            },
            None => {
                assert(old(self)@.remove(resource_id@) =~= old(self)@);
            },
        }
    }

    /// Stores what loading the resource under `resource_id` gave: a loaded
    /// resource replaces any earlier one of that id; a loading error leaves
    /// the pool as it was and is returned.
    pub fn load(&mut self, resource_id: &str, loaded: Result<T, String>) -> (r: Result<(), String>)
        ensures
            loaded matches Ok(v) ==> r is Ok && final(self)@ == old(self)@.insert(resource_id@, v),
            loaded matches Err(e) ==> r == Err::<(), String>(e) && final(self)@ == old(self)@,
    {
        proof {
            use_type_invariant(&*self);
        }
        match loaded {
            Ok(v) => {
                let key = resource_id.to_owned();
                match self.find(&key) {
                    Some(i) => {
                        let mut entries = self.take_entries();
                        proof {
                            lemma_map_of_update(old(self).entries_view(), i as int, v);
                            assert(entries@.update(i as int, (key, v)).map_values(
                                |e: (String, T)| (e.0@, e.1),
                            ) =~= old(self).entries_view().update(i as int, (key@, v)));
                        }
                        entries.set(i, (key, v));
                        *self = ResourcePool { entries };
                    },
                    None => {
                        let mut entries = self.take_entries();
                        proof {
                            lemma_map_of_push(old(self).entries_view(), key@, v);
                            lemma_map_of_domain(old(self).entries_view(), key@);
                            assert(entries@.push((key, v)).map_values(
                                |e: (String, T)| (e.0@, e.1),
                            ) =~= old(self).entries_view().push((key@, v)));
                            assert forall|j: int| 0 <= j < old(self).entries_view().len() implies
                                old(self).entries_view()[j].0 != key@ by {}
                        }
                        entries.push((key, v));
                        *self = ResourcePool { entries };
                    },
                }
                Ok(())
            },
            Err(e) => Err(e),
        }
    }
}

impl<T: Clone> ResourcePool<T> {
    /// A copy of the resource under `resource_id`, if there is one.
    pub fn get_copy(&self, resource_id: &str) -> (r: Option<T>)
        ensures
            r is Some <==> self@.contains_key(resource_id@),
            r matches Some(v) ==> cloned(self@[resource_id@], v),
    {
        match self.get(resource_id) {
            Some(v) => Some(v.clone()),
            None => None,
        }
    }
}

impl<T> Default for ResourcePool<T> {
    fn default() -> (r: Self)
        ensures
            r@ == Map::<Seq<char>, T>::empty(),
    {
        Self::new()
    }
}

} // verus!
