//! An in-memory table of records keyed by their integer id.
use vstd::prelude::*;

verus! {

/// A value that can be copied exactly.
pub trait Duplicate: Sized {
    /// An equal copy of the value.
    fn duplicate(&self) -> (r: Self)
        ensures
            r == *self,
    ;
}

/// A value stored under an integer id.
pub trait Record: Duplicate {
    /// The id under which the value is stored.
    spec fn key(&self) -> i32;

    /// The id under which the value is stored.
    fn id(&self) -> (r: i32)
        ensures
            r == self.key(),
    ;
}

/// Whether no two records of `s` share an id.
pub open spec fn unique_keys<T: Record>(s: Seq<T>) -> bool {
    forall|i: int, j: int| 0 <= i < j < s.len() ==> s[i].key() != s[j].key()
}

/// The map from id to record that a sequence of records denotes.
pub open spec fn records_map<T: Record>(s: Seq<T>) -> Map<i32, T>
    decreases s.len(),
{
    if s.len() == 0 {
        Map::empty()
    } else {
        records_map(s.drop_last()).insert(s.last().key(), s.last())
    }
}

/// Whether `r` lists every record of `m` exactly once.
pub open spec fn lists_exactly<T: Record>(r: Seq<T>, m: Map<i32, T>) -> bool {
    &&& unique_keys(r)
    &&& forall|i: int| 0 <= i < r.len() ==> m.contains_key(#[trigger] r[i].key()) && m[r[i].key()] == r[i]
    &&& forall|k: i32| m.contains_key(k) ==> exists|i: int| 0 <= i < r.len() && #[trigger] r[i].key() == k
}

pub proof fn lemma_records_map_dom<T: Record>(s: Seq<T>)
    ensures
        forall|k: i32| #[trigger] records_map(s).contains_key(k) <==> exists|i: int| 0 <= i < s.len() && s[i].key() == k,
    decreases s.len(),
{
    if s.len() > 0 {
        lemma_records_map_dom(s.drop_last());
        assert forall|k: i32| #[trigger] records_map(s).contains_key(k) <==> exists|i: int| 0 <= i < s.len() && s[i].key() == k by {
            if records_map(s).contains_key(k) {
                if k == s.last().key() {
                    assert(s[s.len() - 1].key() == k);
                } else {
                    assert(records_map(s.drop_last()).contains_key(k));
                    let i = choose|i: int| 0 <= i < s.drop_last().len() && s.drop_last()[i].key() == k;
                    assert(s[i].key() == k);
                }
            }
            if exists|i: int| 0 <= i < s.len() && s[i].key() == k {
                let i = choose|i: int| 0 <= i < s.len() && s[i].key() == k;
                if i < s.len() - 1 {
                    assert(s.drop_last()[i].key() == k);
                    assert(records_map(s.drop_last()).contains_key(k));
                }
            }
        }
    }
}

pub proof fn lemma_records_map_value<T: Record>(s: Seq<T>, i: int)
    requires
        unique_keys(s),
        0 <= i < s.len(),
    ensures
        records_map(s).contains_key(s[i].key()),
        records_map(s)[s[i].key()] == s[i],
    decreases s.len(),
{
    if i < s.len() - 1 {
        let t = s.drop_last();
        assert(unique_keys(t));
        lemma_records_map_value(t, i);
        assert(t[i] == s[i]);
        assert(s[i].key() != s.last().key());
    }
}

pub proof fn lemma_records_map_len<T: Record>(s: Seq<T>)
    requires
        unique_keys(s),
    ensures
        records_map(s).dom().finite(),
        records_map(s).dom().len() == s.len(),
    decreases s.len(),
{
    if s.len() > 0 {
        let t = s.drop_last();
        assert(unique_keys(t));
        lemma_records_map_len(t);
        lemma_records_map_dom(t);
        if records_map(t).contains_key(s.last().key()) {
            let i = choose|i: int| 0 <= i < t.len() && t[i].key() == s.last().key();
            assert(s[i].key() == s[s.len() - 1].key());
        }
    }
}

/// Records kept under distinct ids.
pub struct IdTable<T: Record> {
    items: Vec<T>,
}

impl<T: Record> IdTable<T> {
    #[verifier::type_invariant]
    spec fn keys_distinct(self) -> bool {
        unique_keys(self.items@)
    }

    /// The records of the table by id.
    pub closed spec fn view(&self) -> Map<i32, T> {
        records_map(self.items@)
    }

    /// An empty table.
    pub fn new() -> (t: Self)
        ensures
            t.view() == Map::<i32, T>::empty(),
    {
        IdTable { items: Vec::new() }
    }

    /// The position of the record with the given id.
    fn find(&self, id: i32) -> (r: Option<usize>)
        ensures
            match r {
                Some(i) => i < self.items@.len() && self.items@[i as int].key() == id,
                None => forall|i: int| 0 <= i < self.items@.len() ==> self.items@[i].key() != id,
            },
    {
        let mut i: usize = 0;
        while i < self.items.len()
            invariant
                i <= self.items@.len(),
                forall|j: int| 0 <= j < i ==> self.items@[j].key() != id,
            decreases self.items.len() - i,
        {
            if self.items[i].id() == id {
                return Some(i);
            }
            i = i + 1;
        }
        None
    }

    /// A copy of the record with the given id, if there is one.
    pub fn get(&self, id: i32) -> (r: Option<T>)
        ensures
            match r {
                Some(x) => self.view().contains_key(id) && self.view()[id] == x && x.key() == id,
                None => !self.view().contains_key(id),
            },
    {
        proof {
            use_type_invariant(self);
            lemma_records_map_dom(self.items@);
        }
        match self.find(id) {
            Some(i) => {
                proof { lemma_records_map_value(self.items@, i as int); }
                Some(self.items[i].duplicate())
            },
            None => None,
        }
    }

    /// Whether a record with the given id is stored.
    pub fn contains(&self, id: i32) -> (r: bool)
        ensures
            r == self.view().contains_key(id),
    {
        proof { lemma_records_map_dom(self.items@); }
        self.find(id).is_some()
    }

    /// Stores `x` under its id, replacing any record with that id.
    pub fn upsert(&mut self, x: T)
        ensures
            final(self).view() == old(self).view().insert(x.key(), x),
    {
        proof { use_type_invariant(&*self); }
        let id = x.id();
        let ghost old_items = self.items@;
        match self.find(id) {
            Some(i) => {
                let mut items: Vec<T> = Vec::new();
                std::mem::swap(&mut items, &mut self.items);
                items.set(i, x);
                let ghost new_items = items@;
                proof {
                    assert(unique_keys(new_items)) by {
                        assert forall|a: int, b: int| 0 <= a < b < new_items.len()
                            implies new_items[a].key() != new_items[b].key() by {
                            if a != i && b != i {
                                assert(old_items[a].key() != old_items[b].key());
                            } else if a == i {
                                assert(old_items[i as int].key() != old_items[b].key());
                            } else {
                                assert(old_items[a].key() != old_items[i as int].key());
                            }
                        }
                    }
                    lemma_records_map_dom(old_items);
                    lemma_records_map_dom(new_items);
                    assert(records_map(new_items) =~= records_map(old_items).insert(id, x)) by {
                        assert forall|k: i32| #[trigger] records_map(new_items).contains_key(k)
                            implies records_map(old_items).insert(id, x).contains_key(k)
                                && records_map(new_items)[k] == records_map(old_items).insert(id, x)[k] by {
                            let j = choose|j: int| 0 <= j < new_items.len() && new_items[j].key() == k;
                            lemma_records_map_value(new_items, j);
                            if j != i {
                                lemma_records_map_value(old_items, j);
                            }
                        }
                        assert forall|k: i32| #[trigger] records_map(old_items).insert(id, x).contains_key(k)
                            implies records_map(new_items).contains_key(k) by {
                            if k == id {
                                assert(new_items[i as int].key() == k);
                            } else {
                                let j = choose|j: int| 0 <= j < old_items.len() && old_items[j].key() == k;
                                assert(new_items[j].key() == k);
                            }
                        }
                    }
                }
                self.items = items;
            },
            None => {
                let mut items: Vec<T> = Vec::new();
                std::mem::swap(&mut items, &mut self.items);
                items.push(x);
                proof {
                    assert(items@.drop_last() =~= old_items);
                    assert(unique_keys(items@)) by {
                        assert forall|a: int, b: int| 0 <= a < b < items@.len()
                            implies items@[a].key() != items@[b].key() by {
                            if b < old_items.len() {
                                assert(old_items[a].key() != old_items[b].key());
                            }
                        }
                    }
                }
                self.items = items;
            },
        }
    }

    /// Removes the record with the given id, if there is one.
    pub fn remove(&mut self, id: i32)
        ensures
            final(self).view() == old(self).view().remove(id),
    {
        proof { use_type_invariant(&*self); }
        let ghost old_items = self.items@;
        match self.find(id) {
            Some(i) => {
                let mut items: Vec<T> = Vec::new();
                std::mem::swap(&mut items, &mut self.items);
                items.remove(i);
                let ghost new_items = items@;
                proof {
                    assert(new_items =~= old_items.remove(i as int));
                    assert(unique_keys(new_items)) by {
                        assert forall|a: int, b: int| 0 <= a < b < new_items.len()
                            implies new_items[a].key() != new_items[b].key() by {
                            let oa = if a < i { a } else { a + 1 };
                            let ob = if b < i { b } else { b + 1 };
                            assert(new_items[a] == old_items[oa]);
                            assert(new_items[b] == old_items[ob]);
                            assert(old_items[oa].key() != old_items[ob].key());
                        }
                    }
                    lemma_records_map_dom(old_items);
                    lemma_records_map_dom(new_items);
                    assert(records_map(new_items) =~= records_map(old_items).remove(id)) by {
                        assert forall|k: i32| #[trigger] records_map(new_items).contains_key(k)
                            implies records_map(old_items).remove(id).contains_key(k)
                                && records_map(new_items)[k] == records_map(old_items)[k] by {
                            let j = choose|j: int| 0 <= j < new_items.len() && new_items[j].key() == k;
                            let oj = if j < i { j } else { j + 1 };
                            assert(new_items[j] == old_items[oj]);
                            lemma_records_map_value(new_items, j);
                            lemma_records_map_value(old_items, oj);
                            assert(oj != i);
                            assert(old_items[oj].key() != old_items[i as int].key());
                        }
                        assert forall|k: i32| #[trigger] records_map(old_items).remove(id).contains_key(k)
                            implies records_map(new_items).contains_key(k) by {
                            let j = choose|j: int| 0 <= j < old_items.len() && old_items[j].key() == k;
                            assert(j != i);
                            let nj = if j < i { j } else { j - 1 };
                            assert(new_items[nj] == old_items[j]);
                        }
                    }
                }
                self.items = items;
            },
            None => {
                proof {
                    lemma_records_map_dom(old_items);
                    assert(records_map(old_items).remove(id) =~= records_map(old_items));
                }
            },
        }
    }

    /// The number of records stored.
    pub fn len(&self) -> (n: usize)
        ensures
            n == self.view().len(),
    {
        proof {
            use_type_invariant(self);
            lemma_records_map_len(self.items@);
        }
        self.items.len()
    }

    /// Copies of all records, each once, in no promised order.
    pub fn values(&self) -> (r: Vec<T>)
        ensures
            lists_exactly(r@, self.view()),
    {
        proof {
            use_type_invariant(self);
            lemma_records_map_dom(self.items@);
        }
        let mut r: Vec<T> = Vec::new();
        let mut i: usize = 0;
        while i < self.items.len()
            invariant
                i <= self.items@.len(),
                unique_keys(self.items@),
                r@ == self.items@.subrange(0, i as int),
            decreases self.items.len() - i,
        {
            r.push(self.items[i].duplicate());
            i = i + 1;
            assert(r@ =~= self.items@.subrange(0, i as int));
        }
        assert(r@ =~= self.items@);
        proof {
            assert forall|j: int| 0 <= j < r@.len() implies self.view().contains_key(#[trigger] r@[j].key())
                && self.view()[r@[j].key()] == r@[j] by {
                lemma_records_map_value(self.items@, j);
            }
        }
        r
    }
}

} // verus!
