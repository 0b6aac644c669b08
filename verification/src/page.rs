//! Paged listings: pass over the first `offset` stored records, keep those a
//! selector accepts, and stop once more than `count` have been kept.
use vstd::prelude::*;
use crate::table::Duplicate;

verus! {

/// A test on records.
pub trait Selector<T> {
    /// Whether the record is kept.
    spec fn accepts(&self, t: T) -> bool;

    /// Whether the record is kept.
    fn test(&self, t: &T) -> (b: bool)
        ensures
            b == self.accepts(*t),
    ;
}

/// The selector that keeps every record.
pub struct AcceptAll;

impl<T> Selector<T> for AcceptAll {
    open spec fn accepts(&self, t: T) -> bool {
        true
    }

    fn test(&self, t: &T) -> (b: bool) {
        true
    }
}

/// The test of `sel` as a predicate.
pub open spec fn keep_fn<T, S: Selector<T>>(sel: S) -> spec_fn(T) -> bool {
    |t: T| sel.accepts(t)
}

/// The records of `s` from position `from` on that `sel` accepts, in order.
pub open spec fn kept_from<T, S: Selector<T>>(s: Seq<T>, from: int, sel: S) -> Seq<T> {
    s.subrange(from, s.len() as int).filter(keep_fn(sel))
}

/// What a paged listing of `s` holds: the records after the first `offset`
/// that `sel` accepts, in stored order, cut off right after the one that
/// brings their number above `count`.
pub open spec fn paged<T, S: Selector<T>>(s: Seq<T>, offset: int, sel: S, count: Option<usize>) -> Seq<T> {
    let k = kept_from(s, if offset < s.len() { offset } else { s.len() as int }, sel);
    match count {
        Some(c) => if c + 1 < k.len() { k.take(c + 1) } else { k },
        None => k,
    }
}

/// Filtering a range one record longer adds that record if it is kept.
pub proof fn lemma_filter_extend<T>(s: Seq<T>, from: int, i: int, p: spec_fn(T) -> bool)
    requires
        0 <= from <= i < s.len(),
    ensures
        s.subrange(from, i + 1).filter(p) == (if p(s[i]) {
            s.subrange(from, i).filter(p).push(s[i])
        } else {
            s.subrange(from, i).filter(p)
        }),
{
    reveal(Seq::filter);
    assert(s.subrange(from, i + 1).drop_last() =~= s.subrange(from, i));
    assert(s.subrange(from, i + 1).last() == s[i]);
}

/// Filtering a range that ends at the end of `s`.
pub proof fn lemma_filter_split<T>(s: Seq<T>, from: int, i: int, p: spec_fn(T) -> bool)
    requires
        0 <= from <= i <= s.len(),
    ensures
        s.subrange(from, s.len() as int).filter(p) == s.subrange(from, i).filter(p) + s.subrange(i, s.len() as int).filter(p),
{
    assert(s.subrange(from, s.len() as int) =~= s.subrange(from, i) + s.subrange(i, s.len() as int));
    Seq::filter_distributes_over_add(s.subrange(from, i), s.subrange(i, s.len() as int), p);
}

/// The paged listing of `items`.
pub fn take_page<T: Duplicate, S: Selector<T>>(items: &Vec<T>, sel: &S, offset: usize, count: Option<usize>) -> (r: Vec<T>)
    ensures
        r@ == paged(items@, offset as int, *sel, count),
{
    let ghost p = keep_fn(*sel);
    let start: usize = if offset < items.len() { offset } else { items.len() };
    let mut out: Vec<T> = Vec::new();
    let mut i: usize = start;
    while i < items.len()
        invariant_except_break
            start <= i <= items@.len(),
            start as int == (if offset < items@.len() { offset as int } else { items@.len() as int }),
            p == keep_fn(*sel),
            out@ == items@.subrange(start as int, i as int).filter(p),
            count matches Some(c) ==> out@.len() <= c,
        ensures
            out@ == paged(items@, offset as int, *sel, count),
        decreases items.len() - i,
    {
        proof { lemma_filter_extend(items@, start as int, i as int, p); }
        if sel.test(&items[i]) {
            out.push(items[i].duplicate());
            match count {
                Some(c) => {
                    if out.len() > c {
                        proof {
                            lemma_filter_split(items@, start as int, i + 1, p);
                            let k = kept_from(items@, start as int, *sel);
                            let tail = items@.subrange(i + 1, items@.len() as int).filter(p);
                            assert(k == out@ + tail);
                            assert(k.len() >= out@.len());
                            if c + 1 < k.len() {
                                assert(k.take(c + 1) =~= out@);
                            } else {
                                assert(tail.len() == 0);
                                assert(k =~= out@);
                            }
                        }
                        break;
                    }
                },
                None => {},
            }
        }
        i = i + 1;
    }
    out
}

/// Every record of a page is one the selector keeps, stored at or after
/// position `offset`; a page holds at most `count + 1` records.
pub proof fn law_page_bounds<T, S: Selector<T>>(s: Seq<T>, offset: int, sel: S, count: Option<usize>)
    requires
        0 <= offset,
    ensures
        forall|i: int| 0 <= i < paged(s, offset, sel, count).len() ==> sel.accepts(#[trigger] paged(s, offset, sel, count)[i]),
        count matches Some(c) ==> paged(s, offset, sel, count).len() <= c + 1,
        paged(s, offset, sel, count).len() <= if offset < s.len() { s.len() - offset } else { 0 },
        (count is None || count->0 + 1 >= kept_from(s, if offset < s.len() { offset } else { s.len() as int }, sel).len())
            ==> paged(s, offset, sel, count) == kept_from(s, if offset < s.len() { offset } else { s.len() as int }, sel),
{
    let from = if offset < s.len() { offset } else { s.len() as int };
    let rest = s.subrange(from, s.len() as int);
    let k = rest.filter(keep_fn(sel));
    rest.lemma_filter_len(keep_fn(sel));
    let p = paged(s, offset, sel, count);
    assert forall|i: int| 0 <= i < p.len() implies sel.accepts(#[trigger] p[i]) by {
        rest.lemma_filter_pred(keep_fn(sel), i);
    }
}

} // verus!
