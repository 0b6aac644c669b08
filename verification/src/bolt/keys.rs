//! How ids, versions and names are encoded as keys and bucket names.
use vstd::prelude::*;
use vstd::utf8::{encode_utf8, encode_utf8_decode_utf8};
use vstd::string::StringSliceAdditionalSpecFns;
use crate::text::{append_chars, chars_of, decimal_int, hex_nat, lemma_zero_padded_value, push_hex, push_int, push_zero_padded, string_of, zero_padded};

verus! {

/// `256` to the power `n`.
pub open spec fn pow256(n: nat) -> nat
    decreases n,
{
    if n == 0 { 1 } else { 256 * pow256((n - 1) as nat) }
}

/// The `n` lowest bytes of `v`, most significant first (big-endian).
pub open spec fn be_bytes(v: nat, n: nat) -> Seq<u8>
    decreases n,
{
    if n == 0 {
        seq![]
    } else {
        be_bytes(v / 256, (n - 1) as nat).push((v % 256) as u8)
    }
}

/// Strict lexicographic order of byte strings, the order in which sled
/// keeps its keys.
pub open spec fn lex_lt(a: Seq<u8>, b: Seq<u8>) -> bool
    decreases a.len(),
{
    if b.len() == 0 {
        false
    } else if a.len() == 0 {
        true
    } else if a[0] != b[0] {
        a[0] < b[0]
    } else {
        lex_lt(a.drop_first(), b.drop_first())
    }
}

/// The bytes of a text in UTF-8.
pub open spec fn text_bytes(s: Seq<char>) -> Seq<u8> {
    encode_utf8(s)
}

/// The key of a record with the given id: `i64::MAX - id` in eight
/// big-endian bytes, so that newer records (larger ids) sort first.
pub open spec fn record_key(id: int) -> Seq<u8> {
    be_bytes((i64::MAX - id) as nat, 8)
}

/// The key of a schema version: its eight big-endian two's-complement bytes.
pub open spec fn version_key(version: i64) -> Seq<u8> {
    be_bytes((version as u64) as nat, 8)
}

/// The key of an object of a project bucket: its id in ten zero-filled digits.
pub open spec fn object_key(id: int) -> Seq<u8> {
    text_bytes(zero_padded(id, 10))
}

/// The name of a project's bucket: `<project_id>_<bucket>`.
pub open spec fn project_bucket_name(project_id: int, bucket: Seq<char>) -> Seq<char> {
    decimal_int(project_id) + seq!['_'] + bucket
}

/// The name of a per-owner bucket: `<prefix><owner id>`.
pub open spec fn owned_bucket_name(prefix: Seq<char>, owner: int) -> Seq<char> {
    prefix + decimal_int(owner)
}

/// The id of an API token: `token_` and `i64::MAX - n` in lower-case hexadecimal.
pub open spec fn token_id_text(n: int) -> Seq<char> {
    "token_"@ + hex_nat((i64::MAX - n) as nat)
}

proof fn lemma_lex_lt_push(a: Seq<u8>, b: Seq<u8>, x: u8, y: u8)
    requires
        a.len() == b.len(),
    ensures
        lex_lt(a.push(x), b.push(y)) == (lex_lt(a, b) || (a == b && x < y)),
    decreases a.len(),
{
    let ax = a.push(x);
    let by = b.push(y);
    if a.len() == 0 {
        assert(a =~= b);
        assert(ax[0] == x);
        assert(by[0] == y);
        assert(ax.drop_first().len() == 0);
        assert(by.drop_first().len() == 0);
        assert(!lex_lt(ax.drop_first(), by.drop_first()));
    } else {
        assert(ax.drop_first() =~= a.drop_first().push(x));
        assert(by.drop_first() =~= b.drop_first().push(y));
        assert(ax[0] == a[0]);
        assert(by[0] == b[0]);
        lemma_lex_lt_push(a.drop_first(), b.drop_first(), x, y);
        if a[0] == b[0] {
            if a.drop_first() == b.drop_first() {
                assert forall|i: int| 0 <= i < a.len() implies a[i] == b[i] by {
                    if i > 0 {
                        assert(a[i] == a.drop_first()[i - 1]);
                        assert(b[i] == b.drop_first()[i - 1]);
                    }
                }
                assert(a =~= b);
            }
            if a == b {
                assert(a.drop_first() =~= b.drop_first());
            }
        } else {
            assert(a != b);
        }
    }
}

pub proof fn lemma_be_bytes_len(v: nat, n: nat)
    ensures
        be_bytes(v, n).len() == n,
    decreases n,
{
    if n > 0 {
        lemma_be_bytes_len(v / 256, (n - 1) as nat);
    }
}

/// Big-endian encoding keeps the order of numbers below `256^n`.
pub proof fn lemma_be_bytes_order(v: nat, w: nat, n: nat)
    requires
        v < w < pow256(n),
    ensures
        lex_lt(be_bytes(v, n), be_bytes(w, n)),
    decreases n,
{
    let m = (n - 1) as nat;
    lemma_be_bytes_len(v / 256, m);
    lemma_be_bytes_len(w / 256, m);
    lemma_lex_lt_push(be_bytes(v / 256, m), be_bytes(w / 256, m), (v % 256) as u8, (w % 256) as u8);
    if v / 256 < w / 256 {
        lemma_be_bytes_order(v / 256, w / 256, m);
    }
}

/// Records with larger ids have keys that sort before those of smaller ids,
/// so a bucket lists its newest records first.
pub proof fn lemma_record_key_order(a: int, b: int)
    requires
        0 <= a < b <= i32::MAX,
    ensures
        lex_lt(record_key(b), record_key(a)),
{
    reveal_with_fuel(pow256, 9);
    assert(pow256(8) == 18446744073709551616nat);
    lemma_be_bytes_order((i64::MAX - b) as nat, (i64::MAX - a) as nat, 8);
}

/// Distinct ids have distinct record keys.
pub proof fn lemma_record_key_injective(a: int, b: int)
    requires
        0 <= a <= i32::MAX,
        0 <= b <= i32::MAX,
        record_key(a) == record_key(b),
    ensures
        a == b,
{
    if a < b {
        lemma_record_key_order(a, b);
        lemma_lex_lt_irreflexive(record_key(a));
    } else if b < a {
        lemma_record_key_order(b, a);
        lemma_lex_lt_irreflexive(record_key(a));
    }
}

/// Distinct schema versions have distinct keys.
pub proof fn lemma_version_key_injective(a: i64, b: i64)
    requires
        version_key(a) == version_key(b),
    ensures
        a == b,
{
    assert(a != b ==> (a as u64) != (b as u64)) by (bit_vector);
    reveal_with_fuel(pow256, 9);
    assert(pow256(8) == 18446744073709551616nat);
    let x = (a as u64) as nat;
    let y = (b as u64) as nat;
    if x < y {
        lemma_be_bytes_order(x, y, 8);
        lemma_lex_lt_irreflexive(version_key(a));
    } else if y < x {
        lemma_be_bytes_order(y, x, 8);
        lemma_lex_lt_irreflexive(version_key(a));
    }
}

/// Distinct texts have distinct UTF-8 bytes.
pub proof fn lemma_text_bytes_injective(a: Seq<char>, b: Seq<char>)
    requires
        text_bytes(a) == text_bytes(b),
    ensures
        a == b,
{
    encode_utf8_decode_utf8(a);
    encode_utf8_decode_utf8(b);
}

/// Objects with distinct ids have distinct keys.
pub proof fn lemma_object_key_injective(a: int, b: int)
    requires
        0 <= a,
        0 <= b,
        object_key(a) == object_key(b),
    ensures
        a == b,
{
    encode_utf8_decode_utf8(zero_padded(a, 10));
    encode_utf8_decode_utf8(zero_padded(b, 10));
    lemma_zero_padded_value(a as nat, 10);
    lemma_zero_padded_value(b as nat, 10);
}

proof fn lemma_lex_lt_irreflexive(a: Seq<u8>)
    ensures
        !lex_lt(a, a),
    decreases a.len(),
{
    if a.len() > 0 {
        lemma_lex_lt_irreflexive(a.drop_first());
    }
}

/// Appends the `n` lowest bytes of `v`, most significant first.
pub fn push_be_bytes(v: u64, n: usize, out: &mut Vec<u8>)
    ensures
        final(out)@ == old(out)@ + be_bytes(v as nat, n as nat),
    decreases n,
{
    if n > 0 {
        push_be_bytes(v / 256, n - 1, out);
        out.push((v % 256) as u8);
        assert(out@ =~= old(out)@ + be_bytes(v as nat, n as nat));
    } else {
        assert(out@ =~= old(out)@ + be_bytes(v as nat, n as nat));
    }
}

/// The key of the record with the given id.
pub fn record_key_bytes(id: i32) -> (k: Vec<u8>)
    requires
        id >= 0,
    ensures
        k@ == record_key(id as int),
{
    let v: u64 = (i64::MAX - id as i64) as u64;
    let mut out: Vec<u8> = Vec::new();
    push_be_bytes(v, 8, &mut out);
    assert(out@ =~= record_key(id as int));
    out
}

/// The key of a schema version.
pub fn version_key_bytes(version: i64) -> (k: Vec<u8>)
    ensures
        k@ == version_key(version),
{
    let v: u64 = version as u64;
    let mut out: Vec<u8> = Vec::new();
    push_be_bytes(v, 8, &mut out);
    assert(out@ =~= version_key(version));
    out
}

/// The UTF-8 bytes of a text.
pub fn text_to_bytes(s: &str) -> (b: Vec<u8>)
    ensures
        b@ == text_bytes(s@),
{
    let b = s.as_bytes();
    let mut out: Vec<u8> = Vec::new();
    let mut i: usize = 0;
    while i < b.len()
        invariant
            i <= b@.len(),
            b@ == s.spec_bytes(),
            out@ == b@.subrange(0, i as int),
        decreases b.len() - i,
    {
        out.push(b[i]);
        i = i + 1;
        assert(out@ =~= b@.subrange(0, i as int));
    }
    assert(out@ =~= b@);
    out
}

/// The key of the object with the given id.
pub fn object_key_bytes(id: i32) -> (k: Vec<u8>)
    ensures
        k@ == object_key(id as int),
{
    let mut c: Vec<char> = Vec::new();
    push_zero_padded(id as i64, 10, &mut c);
    assert(c@ =~= zero_padded(id as int, 10));
    text_to_bytes(string_of(&c).as_str())
}

/// The name of a project's bucket.
pub fn project_bucket(project_id: i32, bucket: &str) -> (name: String)
    ensures
        name@ == project_bucket_name(project_id as int, bucket@),
{
    let mut c: Vec<char> = Vec::new();
    push_int(project_id as i64, &mut c);
    c.push('_');
    append_chars(&mut c, &chars_of(bucket));
    assert(c@ =~= project_bucket_name(project_id as int, bucket@));
    string_of(&c)
}

/// The name of an owner's bucket, such as `sessions_<user id>`.
pub fn owned_bucket(prefix: &str, owner: i32) -> (name: String)
    ensures
        name@ == owned_bucket_name(prefix@, owner as int),
{
    let mut c = chars_of(prefix);
    push_int(owner as i64, &mut c);
    string_of(&c)
}

/// The id of the API token numbered `n`.
pub fn token_id(n: i32) -> (id: String)
    requires
        n >= 0,
    ensures
        id@ == token_id_text(n as int),
{
    let mut c = chars_of("token_");
    push_hex((i64::MAX - n as i64) as u64, &mut c);
    string_of(&c)
}

} // verus!
