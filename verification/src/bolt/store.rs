//! The sled-backed store: named buckets of byte entries and per-bucket id
//! counters.
use vstd::prelude::*;
use crate::assoc::{assoc_map, keys_unique, lemma_assoc_dom, lemma_assoc_push, lemma_assoc_remove, lemma_assoc_update, lemma_assoc_value};
use crate::bolt::engine::{
    lists_entries, opt_bytes, sled_drop_tree, sled_entries, sled_error_text, sled_flush, sled_get, sled_insert,
    sled_open, sled_open_tree, sled_remove, tree_entries,
};
use crate::error::DbError;
use crate::text::str_equal;

verus! {

/// The key of a counter entry.
pub open spec fn counter_name() -> spec_fn((String, i32)) -> Seq<char> {
    |e: (String, i32)| e.0@
}

/// The value of a counter entry.
pub open spec fn counter_value() -> spec_fn((String, i32)) -> i32 {
    |e: (String, i32)| e.1
}

/// The name of a cached tree.
pub open spec fn tree_name() -> spec_fn((String, sled::Tree)) -> Seq<char> {
    |e: (String, sled::Tree)| e.0@
}

/// The entries of a cached tree.
pub open spec fn tree_contents() -> spec_fn((String, sled::Tree)) -> Map<Seq<u8>, Seq<u8>> {
    |e: (String, sled::Tree)| tree_entries(e.1)
}

/// Whether `b` agrees with `a` on every name but `name`, and holds `name`.
pub open spec fn same_except<V>(a: Map<Seq<char>, V>, b: Map<Seq<char>, V>, name: Seq<char>) -> bool {
    &&& b.contains_key(name)
    &&& forall|n: Seq<char>| n != name ==> (#[trigger] b.contains_key(n) == a.contains_key(n))
    &&& forall|n: Seq<char>| n != name && #[trigger] a.contains_key(n) ==> b[n] == a[n]
}

/// Two changes confined to `name` make one change confined to `name`.
pub proof fn lemma_same_except_trans<V>(a: Map<Seq<char>, V>, b: Map<Seq<char>, V>, c: Map<Seq<char>, V>, name: Seq<char>)
    requires
        same_except(a, b, name),
        same_except(b, c, name),
    ensures
        same_except(a, c, name),
{
    assert forall|n: Seq<char>| n != name implies (#[trigger] c.contains_key(n) == a.contains_key(n)) by {
        assert(c.contains_key(n) == b.contains_key(n));
        assert(b.contains_key(n) == a.contains_key(n));
    }
    assert forall|n: Seq<char>| n != name && #[trigger] a.contains_key(n) implies c[n] == a[n] by {
        assert(b.contains_key(n) == a.contains_key(n));
        assert(b[n] == a[n]);
        assert(c[n] == b[n]);
    }
}

/// Each id a bucket hands out is one more than the one before it.
pub proof fn law_next_id_follows(counters: Map<Seq<char>, i32>, name: Seq<char>)
    requires
        0 <= counter_or_zero(counters, name) < i32::MAX,
    ensures
        ({
            let id = counter_or_zero(counters, name) + 1;
            counter_or_zero(counters.insert(name, id as i32), name) == id
        }),
{
}

/// The value of a counter that may not exist yet (then 0).
pub open spec fn counter_or_zero(m: Map<Seq<char>, i32>, name: Seq<char>) -> int {
    if m.contains_key(name) { m[name] as int } else { 0 }
}

/// The store's error for a failure of sled.
pub fn db_error(e: sled::Error) -> (r: DbError)
    ensures
        r is Database,
{
    DbError::Database(sled_error_text(&e))
}

/// A store on a sled database. Each bucket is a sled tree; a tree, once
/// opened, stays open in the store, and the store's view of its entries is
/// exact from then on. The entries of a bucket before it is first opened are
/// on disk and not known.
pub struct BoltStore {
    db: sled::Db,
    filename: String,
    counters: Vec<(String, i32)>,
    trees: Vec<(String, sled::Tree)>,
}

impl BoltStore {
    #[verifier::type_invariant]
    spec fn names_distinct(self) -> bool {
        &&& keys_unique(self.counters@, counter_name())
        &&& keys_unique(self.trees@, tree_name())
        &&& forall|i: int| 0 <= i < self.counters@.len() ==> #[trigger] self.counters@[i].1 >= 0
    }

    /// The id counters by bucket name.
    pub closed spec fn counters(&self) -> Map<Seq<char>, i32> {
        assoc_map(self.counters@, counter_name(), counter_value())
    }

    /// The entries of every opened bucket, by bucket name.
    pub closed spec fn buckets(&self) -> Map<Seq<char>, Map<Seq<u8>, Seq<u8>>> {
        assoc_map(self.trees@, tree_name(), tree_contents())
    }

    /// The path of the database.
    pub closed spec fn path(&self) -> Seq<char> {
        self.filename@
    }

    /// Opens the database at `path`; no bucket is open yet and every counter is 0.
    pub fn new(path: &str) -> (r: Result<BoltStore, DbError>)
        ensures
            match r {
                Ok(s) => s.path() == path@ && s.counters() == Map::<Seq<char>, i32>::empty()
                    && s.buckets() == Map::<Seq<char>, Map<Seq<u8>, Seq<u8>>>::empty(),
                Err(e) => e is Database,
            },
    {
        match sled_open(path) {
            Ok(db) => Ok(BoltStore { db, filename: path.to_owned(), counters: Vec::new(), trees: Vec::new() }),
            Err(e) => Err(db_error(e)),
        }
    }

    /// The path of the database.
    pub fn filename(&self) -> (s: &String)
        ensures
            s@ == self.path(),
    {
        &self.filename
    }

    /// The dialect name `bolt`.
    pub fn get_dialect(&self) -> (s: &'static str)
        ensures
            s@ == "bolt"@,
    {
        "bolt"
    }

    /// The database is opened with the store: connecting always succeeds.
    pub fn connect(&self) -> (r: Result<(), DbError>)
        ensures
            r is Ok,
    {
        Ok(())
    }

    /// The store holds no lasting connection.
    pub fn is_permanent(&self) -> (r: bool)
        ensures
            !r,
    {
        false
    }

    /// Writes everything to disk.
    pub fn close(&self) -> (r: Result<(), DbError>)
        ensures
            r matches Err(e) ==> e is Database,
    {
        match sled_flush(&self.db) {
            Ok(_) => Ok(()),
            Err(e) => Err(db_error(e)),
        }
    }

    fn find_counter(&self, name: &str) -> (r: Option<usize>)
        ensures
            match r {
                Some(i) => i < self.counters@.len() && self.counters@[i as int].0@ == name@,
                None => forall|i: int| 0 <= i < self.counters@.len() ==> self.counters@[i].0@ != name@,
            },
    {
        let mut i: usize = 0;
        while i < self.counters.len()
            invariant
                i <= self.counters@.len(),
                forall|j: int| 0 <= j < i ==> self.counters@[j].0@ != name@,
            decreases self.counters.len() - i,
        {
            if str_equal(self.counters[i].0.as_str(), name) {
                return Some(i);
            }
            i = i + 1;
        }
        None
    }

    /// The counter of a bucket: the last id handed out there, 0 before the first.
    pub fn counter(&self, bucket_name: &str) -> (r: i32)
        ensures
            r == counter_or_zero(self.counters(), bucket_name@),
            r >= 0,
    {
        proof {
            use_type_invariant(&*self);
            lemma_assoc_dom(self.counters@, counter_name(), counter_value());
        }
        match self.find_counter(bucket_name) {
            Some(k) => {
                proof { lemma_assoc_value(self.counters@, counter_name(), counter_value(), k as int); }
                self.counters[k].1
            },
            None => 0,
        }
    }

    /// The next id of a bucket, as a result that is always `Ok`.
    pub fn get_next_id(&mut self, bucket_name: &str) -> (r: Result<i32, DbError>)
        requires
            counter_or_zero(old(self).counters(), bucket_name@) < i32::MAX,
        ensures
            counter_or_zero(old(self).counters(), bucket_name@) >= 0,
            r == Ok::<i32, DbError>((counter_or_zero(old(self).counters(), bucket_name@) + 1) as i32),
            final(self).counters() == old(self).counters().insert(bucket_name@, (counter_or_zero(old(self).counters(), bucket_name@) + 1) as i32),
            final(self).buckets() == old(self).buckets(),
            final(self).path() == old(self).path(),
    {
        Ok(self.next_id(bucket_name))
    }

    /// The next id of a bucket: one more than the last one handed out, the
    /// first being 1.
    pub fn next_id(&mut self, bucket_name: &str) -> (id: i32)
        requires
            counter_or_zero(old(self).counters(), bucket_name@) < i32::MAX,
        ensures
            counter_or_zero(old(self).counters(), bucket_name@) >= 0,
            id == counter_or_zero(old(self).counters(), bucket_name@) + 1,
            final(self).counters() == old(self).counters().insert(bucket_name@, (counter_or_zero(old(self).counters(), bucket_name@) + 1) as i32),
            final(self).buckets() == old(self).buckets(),
            final(self).path() == old(self).path(),
    {
        proof {
            use_type_invariant(&*self);
            lemma_assoc_dom(self.counters@, counter_name(), counter_value());
        }
        let found = self.find_counter(bucket_name);
        let mut counters: Vec<(String, i32)> = Vec::new();
        std::mem::swap(&mut counters, &mut self.counters);
        let ghost old_c = counters@;
        let id: i32;
        match found {
            Some(k) => {
                proof { lemma_assoc_value(old_c, counter_name(), counter_value(), k as int); }
                id = counters[k].1 + 1;
                let entry = (counters[k].0.clone(), id);
                proof { lemma_assoc_update(old_c, counter_name(), counter_value(), k as int, entry); }
                counters.set(k, entry);
            },
            None => {
                id = 1;
                let entry = (bucket_name.to_owned(), id);
                proof { lemma_assoc_push(old_c, counter_name(), counter_value(), entry); }
                counters.push(entry);
            },
        }
        std::mem::swap(&mut counters, &mut self.counters);
        id
    }

    fn find_tree(&self, name: &str) -> (r: Option<usize>)
        ensures
            match r {
                Some(i) => i < self.trees@.len() && self.trees@[i as int].0@ == name@,
                None => forall|i: int| 0 <= i < self.trees@.len() ==> self.trees@[i].0@ != name@,
            },
    {
        let mut i: usize = 0;
        while i < self.trees.len()
            invariant
                i <= self.trees@.len(),
                forall|j: int| 0 <= j < i ==> self.trees@[j].0@ != name@,
            decreases self.trees.len() - i,
        {
            if str_equal(self.trees[i].0.as_str(), name) {
                return Some(i);
            }
            i = i + 1;
        }
        None
    }

    /// The position of the open tree `name`, opening it if need be.
    fn tree_slot(&mut self, name: &str) -> (r: Result<usize, DbError>)
        ensures
            final(self).counters() == old(self).counters(),
            final(self).path() == old(self).path(),
            match r {
                Ok(i) => {
                    &&& i < final(self).trees@.len()
                    &&& final(self).trees@[i as int].0@ == name@
                    &&& same_except(old(self).buckets(), final(self).buckets(), name@)
                    &&& old(self).buckets().contains_key(name@) ==> final(self).buckets() == old(self).buckets()
                },
                Err(e) => e is Database && final(self).buckets() == old(self).buckets(),
            },
    {
        proof {
            use_type_invariant(&*self);
            lemma_assoc_dom(self.trees@, tree_name(), tree_contents());
        }
        match self.find_tree(name) {
            Some(i) => {
                proof { lemma_assoc_value(self.trees@, tree_name(), tree_contents(), i as int); }
                Ok(i)
            },
            None => {
                match sled_open_tree(&self.db, name) {
                    Ok(t) => {
                        let mut trees: Vec<(String, sled::Tree)> = Vec::new();
                        std::mem::swap(&mut trees, &mut self.trees);
                        let entry = (name.to_owned(), t);
                        proof { lemma_assoc_push(trees@, tree_name(), tree_contents(), entry); }
                        trees.push(entry);
                        let i = trees.len() - 1;
                        std::mem::swap(&mut trees, &mut self.trees);
                        Ok(i)
                    },
                    Err(e) => Err(db_error(e)),
                }
            },
        }
    }

    /// The value stored under `key` in the bucket `name`, if any.
    pub fn bucket_get(&mut self, name: &str, key: &[u8]) -> (r: Result<Option<Vec<u8>>, DbError>)
        ensures
            final(self).counters() == old(self).counters(),
            final(self).path() == old(self).path(),
            match r {
                Ok(v) => {
                    &&& same_except(old(self).buckets(), final(self).buckets(), name@)
                    &&& old(self).buckets().contains_key(name@) ==> final(self).buckets() == old(self).buckets()
                    &&& opt_bytes(v) == (if final(self).buckets()[name@].contains_key(key@) {
                        Some(final(self).buckets()[name@][key@])
                    } else {
                        None
                    })
                },
                Err(e) => e is Database && (old(self).buckets().contains_key(name@)
                    ==> final(self).buckets() == old(self).buckets()),
            },
    {
        let i = match self.tree_slot(name) {
            Ok(i) => i,
            Err(e) => { return Err(e); },
        };
        proof {
            use_type_invariant(&*self);
            lemma_assoc_value(self.trees@, tree_name(), tree_contents(), i as int);
        }
        match sled_get(&self.trees[i].1, key) {
            Ok(v) => Ok(v),
            Err(e) => Err(db_error(e)),
        }
    }

    /// Replaces the tree at `i` after an operation on it.
    fn with_tree_at(&mut self, i: usize) -> (r: (String, sled::Tree))
        requires
            i < old(self).trees@.len(),
        ensures
            r == old(self).trees@[i as int],
            final(self).trees@ == old(self).trees@.remove(i as int),
            final(self).counters@ == old(self).counters@,
            final(self).filename == old(self).filename,
    {
        proof {
            use_type_invariant(&*self);
            lemma_assoc_remove(self.trees@, tree_name(), tree_contents(), i as int);
        }
        let mut trees: Vec<(String, sled::Tree)> = Vec::new();
        std::mem::swap(&mut trees, &mut self.trees);
        let e = trees.remove(i);
        std::mem::swap(&mut trees, &mut self.trees);
        e
    }

    /// Puts back a tree taken out at `i`.
    fn put_tree_at(&mut self, i: usize, e: (String, sled::Tree))
        requires
            i <= old(self).trees@.len(),
            !assoc_map(old(self).trees@, tree_name(), tree_contents()).contains_key(e.0@),
        ensures
            final(self).trees@ == old(self).trees@.insert(i as int, e),
            final(self).counters@ == old(self).counters@,
            final(self).filename == old(self).filename,
    {
        proof {
            use_type_invariant(&*self);
            lemma_assoc_dom(self.trees@, tree_name(), tree_contents());
        }
        let mut trees: Vec<(String, sled::Tree)> = Vec::new();
        std::mem::swap(&mut trees, &mut self.trees);
        let ghost before = trees@;
        trees.insert(i, e);
        proof {
            assert(keys_unique(trees@, tree_name())) by {
                assert forall|a: int, b: int| 0 <= a < b < trees@.len()
                    implies tree_name()(trees@[a]) != tree_name()(trees@[b]) by {
                    if a == i {
                        let ob = b - 1;
                        assert(trees@[b] == before[ob]);
                    } else if b == i {
                        assert(trees@[a] == before[a]);
                    } else {
                        let oa = if a < i { a } else { a - 1 };
                        let ob = if b < i { b } else { b - 1 };
                        assert(trees@[a] == before[oa]);
                        assert(trees@[b] == before[ob]);
                    }
                }
            }
        }
        std::mem::swap(&mut trees, &mut self.trees);
    }

    proof fn lemma_take_put<T>(s: Seq<T>, i: int, x: T)
        requires
            0 <= i < s.len(),
        ensures
            s.remove(i).insert(i, x) == s.update(i, x),
    {
        assert(s.remove(i).insert(i, x) =~= s.update(i, x));
    }

    /// Stores `value` under `key` in the bucket `name`.
    pub fn bucket_insert(&mut self, name: &str, key: &[u8], value: &[u8]) -> (r: Result<(), DbError>)
        ensures
            final(self).counters() == old(self).counters(),
            final(self).path() == old(self).path(),
            match r {
                Ok(_) => {
                    &&& same_except(old(self).buckets(), final(self).buckets(), name@)
                    &&& final(self).buckets()[name@].contains_key(key@)
                    &&& final(self).buckets()[name@][key@] == value@
                    &&& old(self).buckets().contains_key(name@)
                        ==> final(self).buckets()[name@] == old(self).buckets()[name@].insert(key@, value@)
                },
                Err(e) => e is Database && (same_except(old(self).buckets(), final(self).buckets(), name@)
                    || final(self).buckets() == old(self).buckets()),
            },
    {
        let i = match self.tree_slot(name) {
            Ok(i) => i,
            Err(e) => { return Err(e); },
        };
        let ghost mid = self.buckets();
        let ghost mid_trees = self.trees@;
        proof {
            use_type_invariant(&*self);
            lemma_assoc_value(self.trees@, tree_name(), tree_contents(), i as int);
            lemma_assoc_remove(self.trees@, tree_name(), tree_contents(), i as int);
        }
        let (n, mut t) = self.with_tree_at(i);
        let res = sled_insert(&mut t, key, value);
        let ghost entry = (n, t);
        proof {
            lemma_assoc_dom(self.trees@, tree_name(), tree_contents());
            Self::lemma_take_put(mid_trees, i as int, entry);
            lemma_assoc_update(mid_trees, tree_name(), tree_contents(), i as int, entry);
        }
        self.put_tree_at(i, (n, t));
        match res {
            Ok(_) => Ok(()),
            Err(e) => Err(db_error(e)),
        }
    }

    /// Removes `key` from the bucket `name`; the removed value comes back.
    pub fn bucket_remove(&mut self, name: &str, key: &[u8]) -> (r: Result<Option<Vec<u8>>, DbError>)
        ensures
            final(self).counters() == old(self).counters(),
            final(self).path() == old(self).path(),
            match r {
                Ok(prev) => {
                    &&& same_except(old(self).buckets(), final(self).buckets(), name@)
                    &&& !final(self).buckets()[name@].contains_key(key@)
                    &&& old(self).buckets().contains_key(name@) ==> {
                        &&& final(self).buckets()[name@] == old(self).buckets()[name@].remove(key@)
                        &&& opt_bytes(prev) == (if old(self).buckets()[name@].contains_key(key@) {
                            Some(old(self).buckets()[name@][key@])
                        } else {
                            None
                        })
                    }
                },
                Err(e) => e is Database && (same_except(old(self).buckets(), final(self).buckets(), name@)
                    || final(self).buckets() == old(self).buckets()),
            },
    {
        let i = match self.tree_slot(name) {
            Ok(i) => i,
            Err(e) => { return Err(e); },
        };
        let ghost mid_trees = self.trees@;
        proof {
            use_type_invariant(&*self);
            lemma_assoc_value(self.trees@, tree_name(), tree_contents(), i as int);
            lemma_assoc_remove(self.trees@, tree_name(), tree_contents(), i as int);
        }
        let (n, mut t) = self.with_tree_at(i);
        let res = sled_remove(&mut t, key);
        let ghost entry = (n, t);
        proof {
            lemma_assoc_dom(self.trees@, tree_name(), tree_contents());
            Self::lemma_take_put(mid_trees, i as int, entry);
            lemma_assoc_update(mid_trees, tree_name(), tree_contents(), i as int, entry);
        }
        self.put_tree_at(i, (n, t));
        match res {
            Ok(prev) => Ok(prev),
            Err(e) => Err(db_error(e)),
        }
    }

    /// All entries of the bucket `name`, in increasing byte order of their keys.
    pub fn bucket_entries(&mut self, name: &str) -> (r: Result<Vec<(Vec<u8>, Vec<u8>)>, DbError>)
        ensures
            final(self).counters() == old(self).counters(),
            final(self).path() == old(self).path(),
            match r {
                Ok(v) => {
                    &&& same_except(old(self).buckets(), final(self).buckets(), name@)
                    &&& old(self).buckets().contains_key(name@) ==> final(self).buckets() == old(self).buckets()
                    &&& lists_entries(v@, final(self).buckets()[name@])
                },
                Err(e) => e is Database && (old(self).buckets().contains_key(name@)
                    ==> final(self).buckets() == old(self).buckets()),
            },
    {
        let i = match self.tree_slot(name) {
            Ok(i) => i,
            Err(e) => { return Err(e); },
        };
        proof {
            use_type_invariant(&*self);
            lemma_assoc_value(self.trees@, tree_name(), tree_contents(), i as int);
        }
        match sled_entries(&self.trees[i].1) {
            Ok(v) => Ok(v),
            Err(e) => Err(db_error(e)),
        }
    }

    /// Removes the bucket `name` from the database; its entries are no
    /// longer known to the store.
    pub fn drop_bucket(&mut self, name: &str) -> (r: Result<(), DbError>)
        ensures
            final(self).counters() == old(self).counters(),
            final(self).path() == old(self).path(),
            final(self).buckets() == old(self).buckets().remove(name@),
            r matches Err(e) ==> e is Database,
    {
        proof {
            use_type_invariant(&*self);
            lemma_assoc_dom(self.trees@, tree_name(), tree_contents());
        }
        match self.find_tree(name) {
            Some(i) => {
                proof { lemma_assoc_remove(self.trees@, tree_name(), tree_contents(), i as int); }
                let _ = self.with_tree_at(i);
            },
            None => {
                proof {
                    assert(self.buckets().remove(name@) =~= self.buckets());
                }
            },
        }
        match sled_drop_tree(&self.db, name) {
            Ok(_) => Ok(()),
            Err(e) => Err(db_error(e)),
        }
    }
}

} // verus!
