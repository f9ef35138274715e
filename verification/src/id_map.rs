//! Id-keyed associative tables: an insertion-ordered builder whose
//! lookups are last-write-wins, and a sorted, binary-searchable final map
//! that reflects, for every id, the builder's last insertion.

use vstd::prelude::*;

use crate::desc::Id;

verus! {

/// A value that carries its own id key.
pub trait GetId {
    /// The numeric id this value is keyed by.
    spec fn key(&self) -> u32;

    /// The id this value is keyed by.
    fn get_id(&self) -> (r: Id)
        ensures
            r.0 == self.key(),
    ;
}

/// The last entry of a sequence keyed by `k`, if any: the lookup that
/// both the builder and the final map agree on.
pub open spec fn find_last<V: GetId>(s: Seq<V>, k: u32) -> Option<V>
    decreases s.len(),
{
    if s.len() == 0 {
        None
    } else if s.last().key() == k {
        Some(s.last())
    } else {
        find_last(s.drop_last(), k)
    }
}

/// Strictly increasing keys: sorted and free of duplicates.
pub open spec fn sorted_by_key<V: GetId>(s: Seq<V>) -> bool {
    forall|i: int, j: int| 0 <= i < j < s.len() ==> s[i].key() < s[j].key()
}

/// A successful lookup returns an entry with the looked-up key.
pub proof fn lemma_find_last_key<V: GetId>(s: Seq<V>, k: u32)
    ensures
        find_last(s, k) matches Some(v) ==> v.key() == k,
    decreases s.len(),
{
    if s.len() > 0 && s.last().key() != k {
        lemma_find_last_key(s.drop_last(), k);
    }
}

/// On a strictly sorted sequence, an entry with a key is the lookup
/// result for that key.
pub proof fn lemma_sorted_find<V: GetId>(s: Seq<V>, i: int)
    requires
        sorted_by_key(s),
        0 <= i < s.len(),
    ensures
        find_last(s, s[i].key()) == Some(s[i]),
    decreases s.len(),
{
    if i + 1 < s.len() {
        assert(s.drop_last()[i] == s[i]);
        lemma_sorted_find(s.drop_last(), i);
    }
}

/// On a strictly sorted sequence, a key held by no entry has no lookup
/// result.
pub proof fn lemma_sorted_find_none<V: GetId>(s: Seq<V>, k: u32)
    requires
        forall|i: int| 0 <= i < s.len() ==> s[i].key() != k,
    ensures
        find_last(s, k) == None::<V>,
    decreases s.len(),
{
    if s.len() > 0 {
        lemma_sorted_find_none(s.drop_last(), k);
    }
}

/// An insertion-ordered builder: entries accumulate in order, and a
/// lookup during the build finds the most recently inserted entry for
/// the id.
pub struct RawIdMapBuilder<V: GetId> {
    pub values: Vec<V>,
}

impl<V: GetId> RawIdMapBuilder<V> {
    /// An empty builder.
    pub fn new() -> (r: RawIdMapBuilder<V>)
        ensures
            r.values@ =~= Seq::<V>::empty(),
    {
        RawIdMapBuilder { values: Vec::new() }
    }

    /// Appends one entry; it shadows earlier entries with the same id.
    pub fn insert(&mut self, val: V)
        ensures
            final(self).values@ == old(self).values@.push(val),
    {
        self.values.push(val);
    }


    /// Finalizes the builder into the sorted map: for every id the map
    /// reflects the builder's last insertion.
    pub fn into_id_map(self) -> (r: RawIdMap<V>)
        ensures
            r.wf(),
            forall|k: u32| find_last(r.values@, k) == find_last(self.values@, k),
    {
        let mut m = RawIdMap::new();
        let mut src = self.values;
        let ghost all = src@;
        let ghost mut taken = 0int;
        proof {
            assert(all.take(0) =~= Seq::<V>::empty());
            assert(src@ =~= all.skip(0));
        }
        while src.len() > 0
            invariant
                0 <= taken <= all.len(),
                src@ == all.skip(taken),
                m.wf(),
                forall|k: u32| find_last(m.values@, k) == find_last(all.take(taken), k),
            decreases src@.len(),
        {
            let v = src.remove(0);
            proof {
                assert(v == all[taken]);
                assert(src@ =~= all.skip(taken + 1));
                assert(all.take(taken + 1).last() == all[taken]);
                assert(all.take(taken + 1).drop_last() =~= all.take(taken));
            }
            let ghost pre = m;
            m.insert(v);
            proof {
                assert forall|k: u32|
                    find_last(m.values@, k) == find_last(all.take(taken + 1), k) by {
                    assert(m.spec_get(k) == (if k == v.key() {
                        Some(v)
                    } else {
                        pre.spec_get(k)
                    }));
                }
                taken = taken + 1;
            }
        }
        proof {
            assert(all.take(taken) =~= all);
        }
        m
    }

    /// The most recently inserted entry with the given id, if any.
    pub fn get(&self, id: Id) -> (r: Option<&V>)
        ensures
            (match r {
                Some(v) => find_last(self.values@, id.0) == Some(*v),
                None => find_last(self.values@, id.0) == None::<V>,
            }),
    {
        proof {
            assert(self.values@.take(self.values@.len() as int) =~= self.values@);
        }
        let mut k = self.values.len();
        while k > 0
            invariant
                k <= self.values@.len(),
                find_last(self.values@, id.0) == find_last(self.values@.take(k as int), id.0),
            decreases k,
        {
            k = k - 1;
            let v = &self.values[k];
            proof {
                assert(self.values@.take(k + 1).last() == self.values@[k as int]);
                assert(self.values@.take(k + 1).drop_last() =~= self.values@.take(k as int));
            }
            if v.get_id().0 == id.0 {
                return Some(v);
            }
        }
        proof {
            assert(self.values@.take(0) =~= Seq::<V>::empty());
        }
        None
    }
}

/// The finalized map: entries sorted by id, one per id, found by binary
/// search; it reflects the last insertion for every id.
pub struct RawIdMap<V: GetId> {
    pub values: Vec<V>,
}

impl<V: GetId> RawIdMap<V> {
    /// The entries are strictly sorted by id.
    pub open spec fn wf(self) -> bool {
        sorted_by_key(self.values@)
    }

    /// What a lookup returns.
    pub open spec fn spec_get(self, k: u32) -> Option<V> {
        find_last(self.values@, k)
    }

    /// An empty map.
    pub fn new() -> (r: RawIdMap<V>)
        ensures
            r.values@ =~= Seq::<V>::empty(),
            r.wf(),
    {
        RawIdMap { values: Vec::new() }
    }

    /// The position of the entry with the given id, if present.
    fn get_index(&self, id: Id) -> (r: Option<usize>)
        requires
            self.wf(),
        ensures
            (match r {
                Some(i) => i < self.values@.len() && self.values@[i as int].key() == id.0,
                None => forall|i: int| 0 <= i < self.values@.len() ==> self.values@[i].key() != id.0,
            }),
    {
        let mut lo: usize = 0;
        let mut hi: usize = self.values.len();
        while lo < hi
            invariant
                lo <= hi <= self.values@.len(),
                self.wf(),
                forall|i: int| 0 <= i < lo ==> self.values@[i].key() < id.0,
                forall|i: int| hi <= i < self.values@.len() ==> self.values@[i].key() > id.0,
            decreases hi - lo,
        {
            let mid = lo + (hi - lo) / 2;
            let k = self.values[mid].get_id().0;
            if k == id.0 {
                return Some(mid);
            } else if k < id.0 {
                lo = mid + 1;
            } else {
                hi = mid;
            }
        }
        None
    }

    /// Does the map hold an entry for the id?
    pub fn contains(&self, id: Id) -> (r: bool)
        requires
            self.wf(),
        ensures
            r == (self.spec_get(id.0) matches Some(_)),
    {
        let r = self.get_index(id);
        proof {
            match r {
                Some(i) => lemma_sorted_find(self.values@, i as int),
                None => lemma_sorted_find_none(self.values@, id.0),
            }
        }
        match r {
            Some(_) => true,
            None => false,
        }
    }

    /// The entry with the given id, if any.
    pub fn get(&self, id: Id) -> (r: Option<&V>)
        requires
            self.wf(),
        ensures
            (match r {
                Some(v) => self.spec_get(id.0) == Some(*v),
                None => self.spec_get(id.0) == None::<V>,
            }),
    {
        match self.get_index(id) {
            Some(i) => {
                proof {
                    lemma_sorted_find(self.values@, i as int);
                }
                Some(&self.values[i])
            },
            None => {
                proof {
                    lemma_sorted_find_none(self.values@, id.0);
                }
                None
            },
        }
    }

    /// Inserts an entry: replaces the entry with the same id if one is
    /// present, else splices the entry in at its sorted position.
    pub fn insert(&mut self, val: V)
        requires
            old(self).wf(),
        ensures
            final(self).wf(),
            forall|k: u32|
                final(self).spec_get(k) == (if k == val.key() {
                    Some(val)
                } else {
                    old(self).spec_get(k)
                }),
    {
        let ghost s0 = self.values@;
        let id = val.get_id();
        let mut lo: usize = 0;
        let mut hi: usize = self.values.len();
        while lo < hi
            invariant
                lo <= hi <= self.values@.len(),
                self.values@ == s0,
                s0 == old(self).values@,
                sorted_by_key(s0),
                id.0 == val.key(),
                forall|i: int| 0 <= i < lo ==> s0[i].key() < id.0,
                forall|i: int| hi <= i < s0.len() ==> s0[i].key() > id.0,
            decreases hi - lo,
        {
            let mid = lo + (hi - lo) / 2;
            let k = self.values[mid].get_id().0;
            if k == id.0 {
                self.values.set(mid, val);
                proof {
                    assert(self.values@ =~= s0.update(mid as int, val));
                    lemma_update_find(s0, mid as int, val);
                    assert forall|k2: u32|
                        find_last(self.values@, k2) == (if k2 == val.key() {
                            Some(val)
                        } else {
                            find_last(s0, k2)
                        }) by {
                        assert(find_last(s0.update(mid as int, val), k2) == (if k2 == val.key() {
                            Some(val)
                        } else {
                            find_last(s0, k2)
                        }));
                    }
                }
                return ;
            } else if k < id.0 {
                lo = mid + 1;
            } else {
                hi = mid;
            }
        }
        self.values.insert(lo, val);
        proof {
            assert(self.values@ =~= s0.insert(lo as int, val));
            lemma_insert_find(s0, lo as int, val);
            assert forall|k2: u32|
                find_last(self.values@, k2) == (if k2 == val.key() {
                    Some(val)
                } else {
                    find_last(s0, k2)
                }) by {
                assert(find_last(s0.insert(lo as int, val), k2) == (if k2 == val.key() {
                    Some(val)
                } else {
                    find_last(s0, k2)
                }));
            }
        }
    }
}

/// Replacing the entry at a key's position changes that key's lookup and
/// no other.
proof fn lemma_update_find<V: GetId>(s: Seq<V>, i: int, val: V)
    requires
        sorted_by_key(s),
        0 <= i < s.len(),
        s[i].key() == val.key(),
    ensures
        sorted_by_key(s.update(i, val)),
        forall|k: u32|
            find_last(s.update(i, val), k) == (if k == val.key() {
                Some(val)
            } else {
                find_last(s, k)
            }),
{
    let s2 = s.update(i, val);
    assert forall|k: u32|
        find_last(s2, k) == (if k == val.key() {
            Some(val)
        } else {
            find_last(s, k)
        }) by {
        if k == val.key() {
            lemma_sorted_find(s2, i);
        } else {
            lemma_update_find_other(s, i, val, k);
        }
    }
}

/// Splicing a new entry in at its sorted position adds that key's lookup
/// and changes no other.
proof fn lemma_insert_find<V: GetId>(s: Seq<V>, pos: int, val: V)
    requires
        sorted_by_key(s),
        0 <= pos <= s.len(),
        forall|i: int| 0 <= i < pos ==> s[i].key() < val.key(),
        forall|i: int| pos <= i < s.len() ==> s[i].key() > val.key(),
    ensures
        sorted_by_key(s.insert(pos, val)),
        forall|k: u32|
            find_last(s.insert(pos, val), k) == (if k == val.key() {
                Some(val)
            } else {
                find_last(s, k)
            }),
{
    let s2 = s.insert(pos, val);
    s.insert_ensures(pos, val);
    assert(sorted_by_key(s2)) by {
        assert forall|i: int, j: int| 0 <= i < j < s2.len() implies s2[i].key() < s2[j].key() by {
            if i < pos {
                assert(s2[i] == s[i]);
            } else if i > pos {
                assert(s2[i] == s[i - 1]);
            }
            if j < pos {
                assert(s2[j] == s[j]);
            } else if j > pos {
                assert(s2[j] == s[j - 1]);
            }
        }
    }
    assert forall|k: u32|
        find_last(s2, k) == (if k == val.key() {
            Some(val)
        } else {
            find_last(s, k)
        }) by {
        if k == val.key() {
            lemma_sorted_find(s2, pos);
        } else {
            lemma_insert_find_other(s, pos, val, k);
        }
    }
}

/// Replacing an entry in place leaves every other key's lookup alone.
proof fn lemma_update_find_other<V: GetId>(s: Seq<V>, i: int, val: V, k: u32)
    requires
        0 <= i < s.len(),
        s[i].key() == val.key(),
        k != val.key(),
    ensures
        find_last(s.update(i, val), k) == find_last(s, k),
    decreases s.len(),
{
    let s2 = s.update(i, val);
    let n = s.len() as int;
    if i == n - 1 {
        assert(s2.last() == val);
        assert(s2.drop_last() =~= s.drop_last());
    } else {
        assert(s2.last() == s.last());
        if s.last().key() != k {
            assert(s2.drop_last() =~= s.drop_last().update(i, val));
            assert(s.drop_last()[i] == s[i]);
            lemma_update_find_other(s.drop_last(), i, val, k);
        }
    }
}

/// Splicing an entry in leaves every other key's lookup alone.
proof fn lemma_insert_find_other<V: GetId>(s: Seq<V>, pos: int, val: V, k: u32)
    requires
        0 <= pos <= s.len(),
        k != val.key(),
    ensures
        find_last(s.insert(pos, val), k) == find_last(s, k),
    decreases s.len(),
{
    let s2 = s.insert(pos, val);
    s.insert_ensures(pos, val);
    let n = s.len() as int;
    if pos == n {
        assert(s2.last() == val);
        assert(s2.drop_last() =~= s);
    } else {
        assert(s2[n] == s[n - 1]);
        assert(s2.last() == s.last());
        if s.last().key() != k {
            assert(s2.drop_last() =~= s.drop_last().insert(pos, val));
            s.drop_last().insert_ensures(pos, val);
            lemma_insert_find_other(s.drop_last(), pos, val, k);
        }
    }
}

} // verus!
