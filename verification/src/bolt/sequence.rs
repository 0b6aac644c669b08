//! Per-bucket sequences kept on disk: the numbers records are created
//! under, which go on from where they stood when the store is reopened.
use vstd::prelude::*;
use crate::bolt::keys::{be_bytes, pow256, push_be_bytes, text_bytes, text_to_bytes};
use crate::bolt::store::{BoltStore, lemma_same_except_trans, same_except};
use crate::error::DbError;
use crate::text::{append_chars, chars_of, string_of};

verus! {

/// The bucket that keeps the sequence of every other bucket, under the
/// bucket's name, as eight big-endian bytes.
pub open spec fn sequences_bucket() -> Seq<char> {
    "sequences"@
}

/// The number that big-endian bytes denote.
pub open spec fn be_value(s: Seq<u8>) -> nat
    decreases s.len(),
{
    if s.len() == 0 {
        0
    } else {
        be_value(s.drop_last()) * 256 + s.last() as nat
    }
}

/// The last number handed out for `name`, as the sequences bucket `m`
/// records it: 0 before the first; none where the stored value is not
/// eight bytes.
pub open spec fn sequence_of(m: Map<Seq<u8>, Seq<u8>>, name: Seq<char>) -> Option<nat> {
    if !m.contains_key(text_bytes(name)) {
        Some(0)
    } else if m[text_bytes(name)].len() == 8 {
        Some(be_value(m[text_bytes(name)]))
    } else {
        None
    }
}

/// The message for a sequence that cannot give another id.
pub open spec fn sequence_exhausted(name: Seq<char>) -> Seq<char> {
    "Sequence of "@ + name + " is exhausted"@
}

/// Whether `new` is `old` after `name` took the number `n` from its sequence.
pub open spec fn took_sequence(
    old: Map<Seq<char>, Map<Seq<u8>, Seq<u8>>>,
    new: Map<Seq<char>, Map<Seq<u8>, Seq<u8>>>,
    name: Seq<char>,
    n: i32,
) -> bool {
    &&& 1 <= n
    &&& same_except(old, new, sequences_bucket())
    &&& new[sequences_bucket()].contains_key(text_bytes(name))
    &&& new[sequences_bucket()][text_bytes(name)] == be_bytes(n as nat, 8)
    &&& old.contains_key(sequences_bucket()) ==> {
        &&& sequence_of(old[sequences_bucket()], name) == Some((n - 1) as nat)
        &&& new[sequences_bucket()] == old[sequences_bucket()].insert(text_bytes(name), be_bytes(n as nat, 8))
    }
}

/// Whether `e` is an error that taking a number from the sequence of `name`
/// may give, `new` being the buckets after it: sled's, or the sequence's own
/// where the stored number is unreadable or has reached `i32::MAX`.
pub open spec fn sequence_failed(
    old: Map<Seq<char>, Map<Seq<u8>, Seq<u8>>>,
    new: Map<Seq<char>, Map<Seq<u8>, Seq<u8>>>,
    name: Seq<char>,
    e: DbError,
) -> bool {
    ||| e is Database
    ||| {
        &&& e matches DbError::Other(m) && m@ == sequence_exhausted(name)
        &&& same_except(old, new, sequences_bucket())
        &&& old.contains_key(sequences_bucket()) ==> new == old
        &&& !(sequence_of(new[sequences_bucket()], name) matches Some(s) && s < i32::MAX)
    }
}

/// Big-endian bytes of a number below `256^n` denote it.
pub proof fn lemma_be_value_of_bytes(v: nat, n: nat)
    requires
        v < pow256(n),
    ensures
        be_bytes(v, n).len() == n,
        be_value(be_bytes(v, n)) == v,
    decreases n,
{
    if n == 0 {
    } else {
        lemma_be_value_of_bytes(v / 256, (n - 1) as nat);
        let s = be_bytes(v, n);
        assert(s.drop_last() =~= be_bytes(v / 256, (n - 1) as nat));
    }
}

/// Each number a sequence hands out is one more than the one before.
pub proof fn law_sequence_follows(m: Map<Seq<u8>, Seq<u8>>, name: Seq<char>, n: nat)
    requires
        n < pow256(8),
    ensures
        sequence_of(m.insert(text_bytes(name), be_bytes(n, 8)), name) == Some(n),
{
    lemma_be_value_of_bytes(n, 8);
}

/// The number that eight big-endian bytes denote.
fn be_u64(b: &Vec<u8>) -> (r: u64)
    requires
        b@.len() == 8,
    ensures
        r == be_value(b@),
{
    let mut r: u64 = 0;
    let mut i: usize = 0;
    assert(b@.take(0) =~= Seq::<u8>::empty());
    while i < 8
        invariant
            i <= 8,
            b@.len() == 8,
            r == be_value(b@.take(i as int)),
            r < pow256(i as nat),
        decreases 8 - i,
    {
        assert(b@.take(i + 1).drop_last() =~= b@.take(i as int));
        assert(b@.take(i + 1).last() == b@[i as int]);
        let x = b[i];
        proof {
            let p = pow256(i as nat);
            assert(r * 256 + x < p * 256) by (nonlinear_arith)
                requires
                    r < p,
                    x < 256,
            ;
            assert(pow256((i + 1) as nat) == 256 * p);
            reveal_with_fuel(pow256, 9);
            assert(pow256(8) == 18446744073709551616nat);
            if i + 1 < 8 {
                assert(pow256((i + 1) as nat) <= pow256(8)) by {
                    lemma_pow256_grows((i + 1) as nat, 8);
                }
            }
        }
        r = r * 256 + x as u64;
        i = i + 1;
    }
    assert(b@.take(8) =~= b@);
    r
}

proof fn lemma_pow256_grows(a: nat, b: nat)
    requires
        a <= b,
    ensures
        pow256(a) <= pow256(b),
    decreases b,
{
    if a < b {
        lemma_pow256_grows(a, (b - 1) as nat);
    }
}

fn exhausted(name: &str) -> (e: DbError)
    ensures
        e matches DbError::Other(m) && m@ == sequence_exhausted(name@),
{
    let mut msg = chars_of("Sequence of ");
    append_chars(&mut msg, &chars_of(name));
    append_chars(&mut msg, &chars_of(" is exhausted"));
    DbError::Other(string_of(&msg))
}

impl BoltStore {
    /// The next number of the sequence of bucket `name`, kept on disk in
    /// the bucket `sequences`: one more than the last, the first being 1.
    /// A stored number that is not eight bytes, or that has reached
    /// `i32::MAX`, gives `Sequence of <name> is exhausted` and nothing changes.
    pub fn next_sequence(&mut self, name: &str) -> (r: Result<i32, DbError>)
        ensures
            final(self).counters() == old(self).counters(),
            final(self).path() == old(self).path(),
            match r {
                Ok(n) => took_sequence(old(self).buckets(), final(self).buckets(), name@, n),
                Err(e) => sequence_failed(old(self).buckets(), final(self).buckets(), name@, e),
            },
    {
        let key = text_to_bytes(name);
        let ghost before = self.buckets();
        let cur: u64 = match self.bucket_get("sequences", key.as_slice()) {
            Ok(Some(v)) => {
                if v.len() != 8 {
                    return Err(exhausted(name));
                }
                be_u64(&v)
            },
            Ok(None) => 0,
            Err(e) => { return Err(e); },
        };
        if cur >= 2147483647 {
            return Err(exhausted(name));
        }
        let ghost mid = self.buckets();
        let n: u64 = cur + 1;
        let mut bytes: Vec<u8> = Vec::new();
        push_be_bytes(n, 8, &mut bytes);
        assert(bytes@ =~= be_bytes(n as nat, 8));
        match self.bucket_insert("sequences", key.as_slice(), bytes.as_slice()) {
            Ok(_) => {},
            Err(e) => { return Err(e); },
        }
        proof {
            lemma_same_except_trans(before, mid, self.buckets(), sequences_bucket());
        }
        Ok(n as i32)
    }
}

} // verus!
