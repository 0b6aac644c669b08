//! Sorting records by an order on them, keeping records that the order
//! ranks alike in the order they came in.
use vstd::prelude::*;
use vstd::seq_lib::{to_multiset_build, to_multiset_insert};
use crate::table::Duplicate;

verus! {

/// A total preorder on records.
pub trait Order<T> {
    /// Whether `a` may come before `b`.
    spec fn le(&self, a: T, b: T) -> bool;

    /// Any two records are ranked.
    proof fn lemma_total(&self, a: T, b: T)
        ensures
            self.le(a, b) || self.le(b, a),
    ;

    /// Ranking is transitive.
    proof fn lemma_trans(&self, a: T, b: T, c: T)
        requires
            self.le(a, b),
            self.le(b, c),
        ensures
            self.le(a, c),
    ;

    /// Whether `a` may come before `b`.
    fn le_exec(&self, a: &T, b: &T) -> (r: bool)
        ensures
            r == self.le(*a, *b),
    ;
}

/// Whether every record of `s` may come before every later one.
pub open spec fn sorted_by<T, O: Order<T>>(s: Seq<T>, o: O) -> bool {
    forall|i: int, j: int| 0 <= i < j < s.len() ==> o.le(#[trigger] s[i], #[trigger] s[j])
}

/// Whether `o` ranks `a` and `b` alike.
pub open spec fn ties<T, O: Order<T>>(o: O, a: T, b: T) -> bool {
    o.le(a, b) && o.le(b, a)
}

/// Whether `r` lists records of `v`, the record at each position `k` being
/// the one at position `p[k]` of `v`, no position of `v` taken twice, and
/// records ranked alike in the order they have in `v`.
pub open spec fn stable_arrangement<T, O: Order<T>>(r: Seq<T>, v: Seq<T>, o: O, p: Seq<int>) -> bool {
    &&& p.len() == r.len()
    &&& forall|k: int| 0 <= k < p.len() ==> 0 <= #[trigger] p[k] < v.len() && r[k] == v[p[k]]
    &&& forall|k1: int, k2: int| 0 <= k1 < k2 < p.len() ==> #[trigger] p[k1] != #[trigger] p[k2]
    &&& forall|k1: int, k2: int| 0 <= k1 < k2 < p.len() && ties(o, r[k1], r[k2]) ==> #[trigger] p[k1] < #[trigger] p[k2]
}

/// Inserts `x`, the record at position `i` of `v`, into the sorted `r` after
/// every record that may come before it; gives the position it took.
fn insert_sorted<T, O: Order<T>>(r: &mut Vec<T>, x: T, o: &O, Ghost(v): Ghost<Seq<T>>, Ghost(p): Ghost<Seq<int>>, Ghost(i): Ghost<int>) -> (pos: usize)
    requires
        sorted_by(old(r)@, *o),
        stable_arrangement(old(r)@, v, *o, p),
        forall|k: int| 0 <= k < p.len() ==> #[trigger] p[k] < i,
        0 <= i < v.len(),
        v[i] == x,
    ensures
        pos <= old(r)@.len(),
        final(r)@ == old(r)@.insert(pos as int, x),
        sorted_by(final(r)@, *o),
        final(r)@.to_multiset() == old(r)@.to_multiset().insert(x),
        stable_arrangement(final(r)@, v, *o, p.insert(pos as int, i)),
{
    let mut pos: usize = 0;
    while pos < r.len()
        invariant_except_break
            pos <= r@.len(),
            forall|k: int| 0 <= k < pos ==> o.le(#[trigger] r@[k], x),
        ensures
            pos <= r@.len(),
            forall|k: int| 0 <= k < pos ==> o.le(#[trigger] r@[k], x),
            pos < r@.len() ==> !o.le(r@[pos as int], x),
        decreases r.len() - pos,
    {
        if !o.le_exec(&r[pos], &x) {
            break;
        }
        pos = pos + 1;
    }
    let ghost before = r@;
    let ghost xv = x;
    proof {
        to_multiset_insert(before, pos as int, xv);
        assert forall|j: int| pos <= j < before.len() implies !o.le(#[trigger] before[j], xv) by {
            if j > pos && o.le(before[j], xv) {
                assert(o.le(before[pos as int], before[j]));
                o.lemma_trans(before[pos as int], before[j], xv);
            }
        }
    }
    r.insert(pos, x);
    proof {
        let np = p.insert(pos as int, i);
        assert(r@ == before.insert(pos as int, xv));
        assert forall|a: int, b: int| 0 <= a < b < r@.len() implies o.le(#[trigger] r@[a], #[trigger] r@[b]) by {
            if b < pos {
                assert(r@[a] == before[a] && r@[b] == before[b]);
            } else if b == pos {
                assert(r@[a] == before[a]);
                assert(r@[b] == xv);
            } else if a == pos {
                assert(r@[b] == before[b - 1]);
                assert(r@[a] == xv);
                o.lemma_total(before[b - 1], xv);
            } else if a < pos {
                assert(r@[a] == before[a] && r@[b] == before[b - 1]);
            } else {
                assert(r@[a] == before[a - 1] && r@[b] == before[b - 1]);
            }
        }
        assert forall|k: int| 0 <= k < np.len() implies 0 <= #[trigger] np[k] < v.len() && r@[k] == v[np[k]] by {
            if k < pos {
                assert(np[k] == p[k] && r@[k] == before[k]);
            } else if k > pos {
                assert(np[k] == p[k - 1] && r@[k] == before[k - 1]);
            }
        }
        assert forall|k1: int, k2: int| 0 <= k1 < k2 < np.len() implies #[trigger] np[k1] != #[trigger] np[k2] by {
            let o1 = if k1 < pos { k1 } else { k1 - 1 };
            let o2 = if k2 < pos { k2 } else { k2 - 1 };
            if k1 == pos {
                assert(np[k2] == p[o2]);
                assert(p[o2] < i);
            } else if k2 == pos {
                assert(np[k1] == p[o1]);
                assert(p[o1] < i);
            } else {
                assert(np[k1] == p[o1] && np[k2] == p[o2]);
            }
        }
        assert forall|k1: int, k2: int| 0 <= k1 < k2 < np.len() && ties(*o, r@[k1], r@[k2]) implies #[trigger] np[k1] < #[trigger] np[k2] by {
            let o1 = if k1 < pos { k1 } else { k1 - 1 };
            let o2 = if k2 < pos { k2 } else { k2 - 1 };
            if k1 == pos {
                assert(r@[k2] == before[o2]);
                assert(r@[k1] == xv);
                assert(!o.le(before[o2], xv));
            } else if k2 == pos {
                assert(np[k1] == p[o1]);
                assert(p[o1] < i);
            } else {
                assert(np[k1] == p[o1] && np[k2] == p[o2]);
                assert(r@[k1] == before[o1] && r@[k2] == before[o2]);
            }
        }
    }
    pos
}

/// The records of `v`, sorted by `o`: each one is placed after every earlier
/// one that may come before it, so records ranked alike keep their order.
pub fn sort_stable<T: Duplicate, O: Order<T>>(v: &Vec<T>, o: &O) -> (r: Vec<T>)
    ensures
        sorted_by(r@, *o),
        r@.to_multiset() == v@.to_multiset(),
        exists|p: Seq<int>| stable_arrangement(r@, v@, *o, p),
{
    let mut r: Vec<T> = Vec::new();
    let mut i: usize = 0;
    let ghost mut p: Seq<int> = Seq::empty();
    assert(r@ =~= v@.take(0));
    while i < v.len()
        invariant
            i <= v@.len(),
            sorted_by(r@, *o),
            r@.to_multiset() == v@.take(i as int).to_multiset(),
            stable_arrangement(r@, v@, *o, p),
            forall|k: int| 0 <= k < p.len() ==> #[trigger] p[k] < i,
        decreases v.len() - i,
    {
        let x = v[i].duplicate();
        proof {
            assert(v@.take(i + 1) =~= v@.take(i as int).push(v@[i as int]));
            to_multiset_build(v@.take(i as int), v@[i as int]);
        }
        let pos = insert_sorted(&mut r, x, o, Ghost(v@), Ghost(p), Ghost(i as int));
        proof {
            let np = p.insert(pos as int, i as int);
            assert forall|k: int| 0 <= k < np.len() implies #[trigger] np[k] < i + 1 by {
                if k < pos {
                    assert(np[k] == p[k]);
                } else if k > pos {
                    assert(np[k] == p[k - 1]);
                }
            }
            p = np;
        }
        i = i + 1;
    }
    assert(v@.take(v@.len() as int) =~= v@);
    r
}

} // verus!
